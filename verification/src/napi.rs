//! The internal `/napi/*` endpoint paths of each image query, and how a
//! photographer's profile is joined with their recent photos.

use vstd::prelude::*;
use vstd::utf8::encode_utf8;
use crate::encode::{enc, query_encode, slug_chars, topic_slug};
use crate::json::{as_results, is_with_field, results_of, set_field, Json};
use crate::number::{decimal, digits_u64_spec, law_decimal_roundtrip, push_decimal};
use crate::text::{contains_seq, is_blank, push_str, string_from_chars, trim_spec};

verus! {

/// The largest page size the endpoints are asked for.
pub const MAX_PAGE_SIZE: u32 = 30;

/// The query encoding of the text `s` (its UTF-8 bytes, percent-encoded).
pub open spec fn qenc(s: Seq<char>) -> Seq<char> {
    query_encode(encode_utf8(s))
}

/// `n` capped at 30 (`n.min(30)`).
pub open spec fn capped(n: u32) -> nat {
    if n < 30 {
        n as nat
    } else {
        30
    }
}

/// `&name=` followed by the query encoding of `value`, where there is one.
pub open spec fn opt_param(name: Seq<char>, value: Option<Seq<char>>) -> Seq<char> {
    match value {
        Some(v) => "&"@ + name + "="@ + qenc(v),
        None => Seq::empty(),
    }
}

/// The view of an optional string slice.
pub open spec fn opt_view(s: Option<&str>) -> Option<Seq<char>> {
    match s {
        Some(v) => Some(v@),
        None => None,
    }
}

fn min_cap(n: u32) -> (r: u64)
    ensures
        r == capped(n),
{
    if n < MAX_PAGE_SIZE {
        n as u64
    } else {
        MAX_PAGE_SIZE as u64
    }
}

fn push_param(out: &mut Vec<char>, name: &str, value: Option<&str>)
    ensures
        final(out)@ == old(out)@ + opt_param(name@, opt_view(value)),
{
    match value {
        Some(v) => {
            push_str(out, "&");
            push_str(out, name);
            push_str(out, "=");
            let e = enc(v);
            push_str(out, e.as_str());
            assert(final(out)@ =~= old(out)@ + opt_param(name@, opt_view(value)));
        },
        None => {
            assert(final(out)@ =~= old(out)@ + opt_param(name@, opt_view(value)));
        },
    }
}

/// `/napi/search/photos?query=Q&page=P&per_page=N[&orientation=O][&color=C]`.
pub open spec fn search_images_path_spec(
    query: Seq<char>,
    page: u32,
    per_page: u32,
    orientation: Option<Seq<char>>,
    color: Option<Seq<char>>,
) -> Seq<char> {
    "/napi/search/photos?query="@ + qenc(query) + "&page="@ + decimal(page as nat) + "&per_page="@
        + decimal(capped(per_page)) + opt_param("orientation"@, orientation) + opt_param(
        "color"@,
        color,
    )
}

/// The path of a keyword search, with the page size capped at 30 and the
/// optional orientation and colour filters appended in that order.
pub fn search_images_path(
    query: &str,
    page: u32,
    per_page: u32,
    orientation: Option<&str>,
    color: Option<&str>,
) -> (r: String)
    ensures
        r@ == search_images_path_spec(query@, page, per_page, opt_view(orientation), opt_view(color)),
{
    let mut out: Vec<char> = Vec::new();
    push_str(&mut out, "/napi/search/photos?query=");
    let q = enc(query);
    push_str(&mut out, q.as_str());
    push_str(&mut out, "&page=");
    push_decimal(&mut out, page as u64);
    push_str(&mut out, "&per_page=");
    push_decimal(&mut out, min_cap(per_page));
    push_param(&mut out, "orientation", orientation);
    push_param(&mut out, "color", color);
    assert(out@ =~= search_images_path_spec(
        query@,
        page,
        per_page,
        opt_view(orientation),
        opt_view(color),
    ));
    string_from_chars(out.as_slice())
}


/// `/napi/photos?page=P&per_page=N&order_by=O`.
pub open spec fn popular_images_path_spec(page: u32, per_page: u32, order_by: Seq<char>) -> Seq<
    char,
> {
    "/napi/photos?page="@ + decimal(page as nat) + "&per_page="@ + decimal(capped(per_page))
        + "&order_by="@ + qenc(order_by)
}

/// The path of the trending/popular listing, page size capped at 30.
pub fn popular_images_path(page: u32, per_page: u32, order_by: &str) -> (r: String)
    ensures
        r@ == popular_images_path_spec(page, per_page, order_by@),
{
    let mut out: Vec<char> = Vec::new();
    push_str(&mut out, "/napi/photos?page=");
    push_decimal(&mut out, page as u64);
    push_str(&mut out, "&per_page=");
    push_decimal(&mut out, min_cap(per_page));
    push_str(&mut out, "&order_by=");
    let o = enc(order_by);
    push_str(&mut out, o.as_str());
    assert(out@ =~= popular_images_path_spec(page, per_page, order_by@));
    string_from_chars(out.as_slice())
}

/// `/napi/topics/SLUG/photos?page=P&per_page=N`.
pub open spec fn browse_category_path_spec(category: Seq<char>, page: u32, per_page: u32) -> Seq<
    char,
> {
    "/napi/topics/"@ + qenc(slug_chars(category)) + "/photos?page="@ + decimal(page as nat)
        + "&per_page="@ + decimal(capped(per_page))
}

/// The path of a topic listing: the category's slug, page size capped at 30.
pub fn browse_category_path(category: &str, page: u32, per_page: u32) -> (r: String)
    ensures
        r@ == browse_category_path_spec(category@, page, per_page),
{
    let mut out: Vec<char> = Vec::new();
    push_str(&mut out, "/napi/topics/");
    let slug = topic_slug(category);
    push_str(&mut out, slug.as_str());
    push_str(&mut out, "/photos?page=");
    push_decimal(&mut out, page as u64);
    push_str(&mut out, "&per_page=");
    push_decimal(&mut out, min_cap(per_page));
    assert(out@ =~= browse_category_path_spec(category@, page, per_page));
    string_from_chars(out.as_slice())
}

/// `/napi/users/U`.
pub open spec fn user_profile_path_spec(username: Seq<char>) -> Seq<char> {
    "/napi/users/"@ + qenc(username)
}

/// The path of a photographer's profile.
pub fn user_profile_path(username: &str) -> (r: String)
    ensures
        r@ == user_profile_path_spec(username@),
{
    let mut out: Vec<char> = Vec::new();
    push_str(&mut out, "/napi/users/");
    let u = enc(username);
    push_str(&mut out, u.as_str());
    string_from_chars(out.as_slice())
}

/// `/napi/users/U/photos?page=1&per_page=12&order_by=latest`.
pub open spec fn user_photos_path_spec(username: Seq<char>) -> Seq<char> {
    "/napi/users/"@ + qenc(username) + "/photos?page=1&per_page=12&order_by=latest"@
}

/// The path of a photographer's twelve latest photos.
pub fn user_photos_path(username: &str) -> (r: String)
    ensures
        r@ == user_photos_path_spec(username@),
{
    let mut out: Vec<char> = Vec::new();
    push_str(&mut out, "/napi/users/");
    let u = enc(username);
    push_str(&mut out, u.as_str());
    push_str(&mut out, "/photos?page=1&per_page=12&order_by=latest");
    string_from_chars(out.as_slice())
}

/// `/napi/photos/ID`.
pub open spec fn image_details_path_spec(image_id: Seq<char>) -> Seq<char> {
    "/napi/photos/"@ + qenc(image_id)
}

/// The path of one image's metadata.
pub fn image_details_path(image_id: &str) -> (r: String)
    ensures
        r@ == image_details_path_spec(image_id@),
{
    let mut out: Vec<char> = Vec::new();
    push_str(&mut out, "/napi/photos/");
    let i = enc(image_id);
    push_str(&mut out, i.as_str());
    string_from_chars(out.as_slice())
}

/// `/napi/search/photos?query=photo&page=P&per_page=N&color=C`.
pub open spec fn search_by_color_path_spec(color: Seq<char>, page: u32, per_page: u32) -> Seq<
    char,
> {
    "/napi/search/photos?query=photo&page="@ + decimal(page as nat) + "&per_page="@ + decimal(
        capped(per_page),
    ) + "&color="@ + qenc(color)
}

/// The path of a colour search: the search endpoint needs a query, so the
/// broad keyword `photo` is sent while `color` filters.
pub fn search_by_color_path(color: &str, page: u32, per_page: u32) -> (r: String)
    ensures
        r@ == search_by_color_path_spec(color@, page, per_page),
{
    let mut out: Vec<char> = Vec::new();
    push_str(&mut out, "/napi/search/photos?query=photo&page=");
    push_decimal(&mut out, page as u64);
    push_str(&mut out, "&per_page=");
    push_decimal(&mut out, min_cap(per_page));
    push_str(&mut out, "&color=");
    let c = enc(color);
    push_str(&mut out, c.as_str());
    assert(out@ =~= search_by_color_path_spec(color@, page, per_page));
    string_from_chars(out.as_slice())
}

/// `/napi/collections?page=P&per_page=N[&featured=true]`.
pub open spec fn collections_path_spec(page: u32, per_page: u32, featured: bool) -> Seq<char> {
    "/napi/collections?page="@ + decimal(page as nat) + "&per_page="@ + decimal(capped(per_page))
        + if featured {
        "&featured=true"@
    } else {
        Seq::empty()
    }
}

/// The path of the curated collections listing.
pub fn collections_path(page: u32, per_page: u32, featured: bool) -> (r: String)
    ensures
        r@ == collections_path_spec(page, per_page, featured),
{
    let mut out: Vec<char> = Vec::new();
    push_str(&mut out, "/napi/collections?page=");
    push_decimal(&mut out, page as u64);
    push_str(&mut out, "&per_page=");
    push_decimal(&mut out, min_cap(per_page));
    if featured {
        push_str(&mut out, "&featured=true");
    }
    assert(out@ =~= collections_path_spec(page, per_page, featured));
    string_from_chars(out.as_slice())
}

/// `/napi/collections/ID/photos?page=P&per_page=N`.
pub open spec fn collection_photos_path_spec(collection_id: Seq<char>, page: u32, per_page: u32) -> Seq<
    char,
> {
    "/napi/collections/"@ + qenc(collection_id) + "/photos?page="@ + decimal(page as nat)
        + "&per_page="@ + decimal(capped(per_page))
}

/// The path of the photos in one collection.
pub fn collection_photos_path(collection_id: &str, page: u32, per_page: u32) -> (r: String)
    ensures
        r@ == collection_photos_path_spec(collection_id@, page, per_page),
{
    let mut out: Vec<char> = Vec::new();
    push_str(&mut out, "/napi/collections/");
    let c = enc(collection_id);
    push_str(&mut out, c.as_str());
    push_str(&mut out, "/photos?page=");
    push_decimal(&mut out, page as u64);
    push_str(&mut out, "&per_page=");
    push_decimal(&mut out, min_cap(per_page));
    assert(out@ =~= collection_photos_path_spec(collection_id@, page, per_page));
    string_from_chars(out.as_slice())
}

/// The query filter of a random draw: kept only where it is not blank.
pub open spec fn random_query(query: Option<Seq<char>>) -> Option<Seq<char>> {
    match query {
        Some(q) => if trim_spec(q).len() == 0 {
            None
        } else {
            Some(q)
        },
        None => None,
    }
}

/// `/napi/photos/random?count=N[&query=Q][&orientation=O]`.
pub open spec fn random_photos_path_spec(
    count: u32,
    query: Option<Seq<char>>,
    orientation: Option<Seq<char>>,
) -> Seq<char> {
    "/napi/photos/random?count="@ + decimal(capped(count)) + opt_param(
        "query"@,
        random_query(query),
    ) + opt_param("orientation"@, orientation)
}

/// The path of a random draw: count capped at 30, a blank query dropped.
pub fn random_photos_path(count: u32, query: Option<&str>, orientation: Option<&str>) -> (r:
    String)
    ensures
        r@ == random_photos_path_spec(count, opt_view(query), opt_view(orientation)),
{
    let mut out: Vec<char> = Vec::new();
    push_str(&mut out, "/napi/photos/random?count=");
    push_decimal(&mut out, min_cap(count));
    let kept: Option<&str> = match query {
        Some(q) => if is_blank(q) {
            None
        } else {
            Some(q)
        },
        None => None,
    };
    assert(opt_view(kept) == random_query(opt_view(query)));
    push_param(&mut out, "query", kept);
    push_param(&mut out, "orientation", orientation);
    assert(out@ =~= random_photos_path_spec(count, opt_view(query), opt_view(orientation)));
    string_from_chars(out.as_slice())
}

/// The path of a photographer's recent photos where they are asked for.
pub fn recent_photos_request(username: &str, include_photos: bool) -> (r: Option<String>)
    ensures
        include_photos <==> r is Some,
        r matches Some(p) ==> p@ == user_photos_path_spec(username@),
{
    if include_photos {
        Some(user_photos_path(username))
    } else {
        None
    }
}

/// Whether `r` is `profile` with its recent photos attached: the listing
/// under `recent_photos` where they were fetched, the failure's text under
/// `recent_photos_error` where they were not (only for an object profile).
pub open spec fn with_recent_photos_spec(r: Json, profile: Json, photos: Result<Json, String>) -> bool {
    match photos {
        Ok(p) => exists|k: String|
            k@ == "recent_photos"@ && is_with_field(r, profile, k, results_of(p)),
        Err(e) => exists|k: String|
            k@ == "recent_photos_error"@ && is_with_field(r, profile, k, Json::Str(e)),
    }
}

/// Attaches a photographer's recent photos (or why they could not be
/// fetched) to their profile.
pub fn with_recent_photos(profile: Json, photos: Result<Json, String>) -> (r: Json)
    ensures
        with_recent_photos_spec(r, profile, photos),
{
    match photos {
        Ok(p) => {
            let key = "recent_photos".to_owned();
            let listing = as_results(p);
            set_field(profile, key, listing)
        },
        Err(e) => {
            let key = "recent_photos_error".to_owned();
            set_field(profile, key, Json::Str(e))
        },
    }
}


// ---------------------------------------------------------------------------
// Laws of the paths
// ---------------------------------------------------------------------------

/// Whether `d` is a run of decimal digits whose value is `n`.
pub open spec fn denotes(d: Seq<char>, n: u64) -> bool {
    digits_u64_spec(d) == Some(n)
}

/// The page size actually requested for a wish of `n`: `n`, but never more
/// than 30.
pub open spec fn page_size_of(n: u32) -> u64 {
    if n <= 30 {
        n as u64
    } else {
        30
    }
}

proof fn lemma_numbers(page: u32, per_page: u32)
    ensures
        denotes(decimal(page as nat), page as u64),
        denotes(decimal(capped(per_page)), page_size_of(per_page)),
{
    law_decimal_roundtrip(page as u64);
    law_decimal_roundtrip(page_size_of(per_page));
    assert(capped(per_page) == page_size_of(per_page) as nat);
}

/// A keyword search asks for the query, the page given and the page size
/// given (at most 30); an orientation filter, where given, is appended
/// whatever the colour, and a colour filter after it.
pub proof fn law_search_images_path(
    query: Seq<char>,
    page: u32,
    per_page: u32,
    orientation: Option<Seq<char>>,
    color: Option<Seq<char>>,
    o: Seq<char>,
    c: Seq<char>,
)
    ensures
        exists|d: Seq<char>, e: Seq<char>|
            #![trigger denotes(d, page as u64), denotes(e, page_size_of(per_page))]
            denotes(d, page as u64) && denotes(e, page_size_of(per_page))
                && search_images_path_spec(query, page, per_page, None, None)
                == "/napi/search/photos?query="@ + qenc(query) + "&page="@ + d + "&per_page="@ + e,
        search_images_path_spec(query, page, per_page, Some(o), None) == search_images_path_spec(
            query,
            page,
            per_page,
            None,
            None,
        ) + "&orientation="@ + qenc(o),
        search_images_path_spec(query, page, per_page, orientation, Some(c))
            == search_images_path_spec(query, page, per_page, orientation, None) + "&color="@ + qenc(
            c,
        ),
        contains_seq(
            search_images_path_spec(query, page, per_page, Some(o), color),
            "&orientation="@ + qenc(o),
        ),
{
    lemma_numbers(page, per_page);
    reveal_strlit("&");
    reveal_strlit("=");
    reveal_strlit("orientation");
    reveal_strlit("&orientation=");
    reveal_strlit("color");
    reveal_strlit("&color=");
    let d = decimal(page as nat);
    let e = decimal(capped(per_page));
    let base = search_images_path_spec(query, page, per_page, None, None);
    assert(base =~= "/napi/search/photos?query="@ + qenc(query) + "&page="@ + d + "&per_page="@ + e);
    assert(denotes(d, page as u64) && denotes(e, page_size_of(per_page)));
    let with_o = search_images_path_spec(query, page, per_page, Some(o), None);
    assert(with_o =~= base + "&orientation="@ + qenc(o));
    assert(search_images_path_spec(query, page, per_page, orientation, Some(c))
        =~= search_images_path_spec(query, page, per_page, orientation, None) + "&color="@ + qenc(c));
    let full = search_images_path_spec(query, page, per_page, Some(o), color);
    let pat = "&orientation="@ + qenc(o);
    assert(full =~= base + pat + opt_param("color"@, color));
    assert(full.subrange(base.len() as int, (base.len() + pat.len()) as int) =~= pat);
}

/// The popular listing asks for the page given, the page size given (at
/// most 30) and the sort order given.
pub proof fn law_popular_images_path(page: u32, per_page: u32, order_by: Seq<char>)
    ensures
        exists|d: Seq<char>, e: Seq<char>|
            #![trigger denotes(d, page as u64), denotes(e, page_size_of(per_page))]
            denotes(d, page as u64) && denotes(e, page_size_of(per_page))
                && popular_images_path_spec(page, per_page, order_by) == "/napi/photos?page="@ + d
                + "&per_page="@ + e + "&order_by="@ + qenc(order_by),
{
    lemma_numbers(page, per_page);
    let d = decimal(page as nat);
    let e = decimal(capped(per_page));
    assert(popular_images_path_spec(page, per_page, order_by) =~= "/napi/photos?page="@ + d
        + "&per_page="@ + e + "&order_by="@ + qenc(order_by));
    assert(denotes(d, page as u64) && denotes(e, page_size_of(per_page)));
}

/// A topic listing asks for the category's slug, the page given and the page
/// size given (at most 30).
pub proof fn law_browse_category_path(category: Seq<char>, page: u32, per_page: u32)
    ensures
        exists|d: Seq<char>, e: Seq<char>|
            #![trigger denotes(d, page as u64), denotes(e, page_size_of(per_page))]
            denotes(d, page as u64) && denotes(e, page_size_of(per_page))
                && browse_category_path_spec(category, page, per_page) == "/napi/topics/"@ + qenc(
                slug_chars(category),
            ) + "/photos?page="@ + d + "&per_page="@ + e,
{
    lemma_numbers(page, per_page);
    let d = decimal(page as nat);
    let e = decimal(capped(per_page));
    assert(browse_category_path_spec(category, page, per_page) =~= "/napi/topics/"@ + qenc(
        slug_chars(category),
    ) + "/photos?page="@ + d + "&per_page="@ + e);
    assert(denotes(d, page as u64) && denotes(e, page_size_of(per_page)));
}

/// A colour search asks for the broad keyword `photo`, the page given, the
/// page size given (at most 30) and the colour given.
pub proof fn law_search_by_color_path(color: Seq<char>, page: u32, per_page: u32)
    ensures
        exists|d: Seq<char>, e: Seq<char>|
            #![trigger denotes(d, page as u64), denotes(e, page_size_of(per_page))]
            denotes(d, page as u64) && denotes(e, page_size_of(per_page))
                && search_by_color_path_spec(color, page, per_page)
                == "/napi/search/photos?query=photo&page="@ + d + "&per_page="@ + e + "&color="@
                + qenc(color),
{
    lemma_numbers(page, per_page);
    let d = decimal(page as nat);
    let e = decimal(capped(per_page));
    assert(search_by_color_path_spec(color, page, per_page)
        =~= "/napi/search/photos?query=photo&page="@ + d + "&per_page="@ + e + "&color="@ + qenc(
        color,
    ));
    assert(denotes(d, page as u64) && denotes(e, page_size_of(per_page)));
}

/// The collections listing asks for the page given and the page size given
/// (at most 30), and for featured collections only when asked to.
pub proof fn law_collections_path(page: u32, per_page: u32)
    ensures
        exists|d: Seq<char>, e: Seq<char>|
            #![trigger denotes(d, page as u64), denotes(e, page_size_of(per_page))]
            denotes(d, page as u64) && denotes(e, page_size_of(per_page))
                && collections_path_spec(page, per_page, false) == "/napi/collections?page="@ + d
                + "&per_page="@ + e,
        collections_path_spec(page, per_page, true) == collections_path_spec(page, per_page, false)
            + "&featured=true"@,
{
    lemma_numbers(page, per_page);
    let d = decimal(page as nat);
    let e = decimal(capped(per_page));
    assert(collections_path_spec(page, per_page, false) =~= "/napi/collections?page="@ + d
        + "&per_page="@ + e);
    assert(denotes(d, page as u64) && denotes(e, page_size_of(per_page)));
    assert(collections_path_spec(page, per_page, true) =~= collections_path_spec(
        page,
        per_page,
        false,
    ) + "&featured=true"@);
}

/// A collection's photos are asked for by the collection id, the page given
/// and the page size given (at most 30).
pub proof fn law_collection_photos_path(collection_id: Seq<char>, page: u32, per_page: u32)
    ensures
        exists|d: Seq<char>, e: Seq<char>|
            #![trigger denotes(d, page as u64), denotes(e, page_size_of(per_page))]
            denotes(d, page as u64) && denotes(e, page_size_of(per_page))
                && collection_photos_path_spec(collection_id, page, per_page)
                == "/napi/collections/"@ + qenc(collection_id) + "/photos?page="@ + d
                + "&per_page="@ + e,
{
    lemma_numbers(page, per_page);
    let d = decimal(page as nat);
    let e = decimal(capped(per_page));
    assert(collection_photos_path_spec(collection_id, page, per_page) =~= "/napi/collections/"@
        + qenc(collection_id) + "/photos?page="@ + d + "&per_page="@ + e);
    assert(denotes(d, page as u64) && denotes(e, page_size_of(per_page)));
}

/// A random draw asks for the count given (at most 30); a query that is not
/// blank is appended, a blank one is dropped; an orientation, where given,
/// is appended last whether or not there is a query.
pub proof fn law_random_photos_path(
    count: u32,
    query: Option<Seq<char>>,
    orientation: Option<Seq<char>>,
    q: Seq<char>,
    o: Seq<char>,
)
    ensures
        exists|d: Seq<char>|
            #![trigger denotes(d, page_size_of(count))]
            denotes(d, page_size_of(count)) && random_photos_path_spec(count, None, None)
                == "/napi/photos/random?count="@ + d,
        random_photos_path_spec(count, query, Some(o)) == random_photos_path_spec(count, query, None)
            + "&orientation="@ + qenc(o),
        trim_spec(q).len() > 0 ==> random_photos_path_spec(count, Some(q), None)
            == random_photos_path_spec(count, None, None) + "&query="@ + qenc(q),
        trim_spec(q).len() == 0 ==> random_photos_path_spec(count, Some(q), orientation)
            == random_photos_path_spec(count, None, orientation),
{
    lemma_numbers(count, count);
    reveal_strlit("&");
    reveal_strlit("=");
    reveal_strlit("orientation");
    reveal_strlit("&orientation=");
    reveal_strlit("query");
    reveal_strlit("&query=");
    let d = decimal(capped(count));
    assert(random_photos_path_spec(count, None, None) =~= "/napi/photos/random?count="@ + d);
    assert(denotes(d, page_size_of(count)));
    assert(random_photos_path_spec(count, query, Some(o)) =~= random_photos_path_spec(
        count,
        query,
        None,
    ) + "&orientation="@ + qenc(o));
    if trim_spec(q).len() > 0 {
        assert(random_photos_path_spec(count, Some(q), None) =~= random_photos_path_spec(
            count,
            None,
            None,
        ) + "&query="@ + qenc(q));
    }
}

/// The recent photos of a user are asked for under the user's profile path:
/// the twelve latest, first page.
pub proof fn law_user_photos_path(username: Seq<char>)
    ensures
        user_photos_path_spec(username) == user_profile_path_spec(username)
            + "/photos?page=1&per_page=12&order_by=latest"@,
{
}


/// Once recent photos are attached to a profile object, its
/// `recent_photos` field reads back their listing (or `recent_photos_error`
/// the failure's text), and every other field of the profile is unchanged.
pub proof fn law_recent_photos_read_back(
    r: Json,
    entries: Vec<(String, Json)>,
    photos: Result<Json, String>,
    other: Seq<char>,
)
    requires
        with_recent_photos_spec(r, Json::Object(entries), photos),
    ensures
        photos matches Ok(p) ==> crate::json::field(r, "recent_photos"@) == Some(results_of(p)),
        photos matches Err(e) ==> crate::json::field(r, "recent_photos_error"@) == Some(
            Json::Str(e),
        ),
        (other != "recent_photos"@ && other != "recent_photos_error"@) ==> crate::json::field(
            r,
            other,
        ) == crate::json::lookup(entries@, other),
{
    match photos {
        Ok(p) => {
            let k = choose|k: String|
                k@ == "recent_photos"@ && is_with_field(r, Json::Object(entries), k, results_of(p));
            crate::json::law_insert_then_lookup(entries@, k, results_of(p), other);
        },
        Err(e) => {
            let k = choose|k: String|
                k@ == "recent_photos_error"@ && is_with_field(
                    r,
                    Json::Object(entries),
                    k,
                    Json::Str(e),
                );
            crate::json::law_insert_then_lookup(entries@, k, Json::Str(e), other);
        },
    }
}

} // verus!
