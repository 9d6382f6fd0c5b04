//! The image tools' arguments, their defaults and checks, and the text each
//! tool answers with.

use vstd::prelude::*;
use crate::json::{json_pretty_text, pretty_json, Json};
use crate::text::{is_blank, push_str, string_from_chars, trim_spec};

verus! {

/// Arguments of `search_images`.
pub struct SearchImagesArgs {
    /// Search keywords (e.g. "mountain landscape", "city night").
    pub query: String,
    /// Page number for pagination.
    pub page: u32,
    /// Number of results per page.
    pub per_page: u32,
    /// Image orientation filter.
    pub orientation: Option<String>,
    /// Filter by dominant color.
    pub color: Option<String>,
}

/// Arguments of `get_popular_images`.
pub struct PopularImagesArgs {
    pub page: u32,
    pub per_page: u32,
    /// Sort order: latest, oldest, popular.
    pub order_by: String,
}

/// Arguments of `browse_category`.
pub struct BrowseCategoryArgs {
    /// Category or topic name (e.g. "nature", "architecture", "food").
    pub category: String,
    pub page: u32,
    pub per_page: u32,
}

/// Arguments of `get_user_profile`.
pub struct UserProfileArgs {
    /// Unsplash username.
    pub username: String,
    /// Include the user's recent photos.
    pub include_photos: bool,
}

/// Arguments of `get_image_details`.
pub struct ImageDetailsArgs {
    /// Unsplash image ID.
    pub image_id: String,
}

/// Arguments of `search_by_color`.
pub struct SearchByColorArgs {
    /// Color name (black_and_white, black, white, yellow, orange, red,
    /// purple, magenta, green, teal, blue).
    pub color: String,
    pub page: u32,
    pub per_page: u32,
}

/// Arguments of `get_collections`.
pub struct CollectionsArgs {
    pub page: u32,
    pub per_page: u32,
    pub featured: bool,
}

/// Arguments of `get_collection_photos`.
pub struct CollectionPhotosArgs {
    /// Collection ID.
    pub collection_id: String,
    pub page: u32,
    pub per_page: u32,
}

/// Arguments of `get_random_photos`.
pub struct RandomPhotosArgs {
    /// Number of random photos to get.
    pub count: u32,
    /// Optional query to filter random photos.
    pub query: Option<String>,
    /// Image orientation filter.
    pub orientation: Option<String>,
}

/// The page asked for when none is given.
pub fn default_page() -> (r: u32)
    ensures
        r == 1,
{
    1
}

/// The page size asked for when none is given.
pub fn default_per_page() -> (r: u32)
    ensures
        r == 20,
{
    20
}

/// The number of random photos asked for when none is given.
pub fn default_count() -> (r: u32)
    ensures
        r == 10,
{
    10
}

/// The sort order asked for when none is given.
pub fn default_order() -> (r: String)
    ensures
        r@ == "popular"@,
{
    "popular".to_owned()
}

/// The default of a flag that is on unless turned off.
pub fn default_true() -> (r: bool)
    ensures
        r,
{
    true
}

/// A page number of at least 1 (`page.max(1)`).
pub open spec fn page_at_least_one(page: u32) -> u32 {
    if page < 1 {
        1
    } else {
        page
    }
}

/// A size between 1 and 30 (`n.clamp(1, 30)`).
pub open spec fn clamp_size(n: u32) -> u32 {
    if n < 1 {
        1
    } else if n > 30 {
        30
    } else {
        n
    }
}

/// The pages and sizes the tools ask for: a page is at least 1 and a size
/// lies in 1..=30; a page or size already in range is kept as given.
pub proof fn law_normalised_sizes(page: u32, n: u32)
    ensures
        page_at_least_one(page) >= 1,
        page >= 1 ==> page_at_least_one(page) == page,
        1 <= clamp_size(n) <= 30,
        1 <= n <= 30 ==> clamp_size(n) == n,
        n > 30 ==> clamp_size(n) == 30,
{
}

/// Raises a page number to at least 1.
pub fn normal_page(page: u32) -> (r: u32)
    ensures
        r == page_at_least_one(page),
{
    if page < 1 {
        1
    } else {
        page
    }
}

/// Clamps a size to 1..=30.
pub fn normal_size(n: u32) -> (r: u32)
    ensures
        r == clamp_size(n),
        1 <= r <= 30,
{
    if n < 1 {
        1
    } else if n > 30 {
        30
    } else {
        n
    }
}

/// The message for a required argument left blank: `<name> is required`.
pub open spec fn required_message(name: Seq<char>) -> Seq<char> {
    name + " is required"@
}

/// Writes the message for the required argument `name` left blank.
pub fn required_error(name: &str) -> (r: String)
    ensures
        r@ == required_message(name@),
{
    let mut out: Vec<char> = Vec::new();
    push_str(&mut out, name);
    push_str(&mut out, " is required");
    string_from_chars(out.as_slice())
}

impl SearchImagesArgs {
    /// Checks the arguments: the query must not be blank; the page is
    /// raised to at least 1 and the page size clamped to 1..=30.
    pub fn checked(self) -> (r: Result<Self, String>)
        ensures
            trim_spec(self.query@).len() == 0 <==> r is Err,
            r matches Err(e) ==> e@ == required_message("query"@),
            r matches Ok(a) ==> a == (SearchImagesArgs {
                page: page_at_least_one(self.page),
                per_page: clamp_size(self.per_page),
                ..self
            }),
    {
        if is_blank(self.query.as_str()) {
            return Err(required_error("query"));
        }
        let page = normal_page(self.page);
        let per_page = normal_size(self.per_page);
        Ok(SearchImagesArgs { page, per_page, ..self })
    }
}

impl PopularImagesArgs {
    /// Normalises the arguments: page at least 1, page size in 1..=30.
    pub fn checked(self) -> (r: Self)
        ensures
            r == (PopularImagesArgs {
                page: page_at_least_one(self.page),
                per_page: clamp_size(self.per_page),
                ..self
            }),
    {
        let page = normal_page(self.page);
        let per_page = normal_size(self.per_page);
        PopularImagesArgs { page, per_page, ..self }
    }
}

impl BrowseCategoryArgs {
    /// Checks the arguments: the category must not be blank; page at least
    /// 1, page size in 1..=30.
    pub fn checked(self) -> (r: Result<Self, String>)
        ensures
            trim_spec(self.category@).len() == 0 <==> r is Err,
            r matches Err(e) ==> e@ == required_message("category"@),
            r matches Ok(a) ==> a == (BrowseCategoryArgs {
                page: page_at_least_one(self.page),
                per_page: clamp_size(self.per_page),
                ..self
            }),
    {
        if is_blank(self.category.as_str()) {
            return Err(required_error("category"));
        }
        let page = normal_page(self.page);
        let per_page = normal_size(self.per_page);
        Ok(BrowseCategoryArgs { page, per_page, ..self })
    }
}

impl UserProfileArgs {
    /// Checks the arguments: the username must not be blank.
    pub fn checked(self) -> (r: Result<Self, String>)
        ensures
            trim_spec(self.username@).len() == 0 <==> r is Err,
            r matches Err(e) ==> e@ == required_message("username"@),
            r matches Ok(a) ==> a == self,
    {
        if is_blank(self.username.as_str()) {
            return Err(required_error("username"));
        }
        Ok(self)
    }
}

impl ImageDetailsArgs {
    /// Checks the arguments: the image id must not be blank.
    pub fn checked(self) -> (r: Result<Self, String>)
        ensures
            trim_spec(self.image_id@).len() == 0 <==> r is Err,
            r matches Err(e) ==> e@ == required_message("image_id"@),
            r matches Ok(a) ==> a == self,
    {
        if is_blank(self.image_id.as_str()) {
            return Err(required_error("image_id"));
        }
        Ok(self)
    }
}

impl SearchByColorArgs {
    /// Checks the arguments: the colour must not be blank; page at least 1,
    /// page size in 1..=30.
    pub fn checked(self) -> (r: Result<Self, String>)
        ensures
            trim_spec(self.color@).len() == 0 <==> r is Err,
            r matches Err(e) ==> e@ == required_message("color"@),
            r matches Ok(a) ==> a == (SearchByColorArgs {
                page: page_at_least_one(self.page),
                per_page: clamp_size(self.per_page),
                ..self
            }),
    {
        if is_blank(self.color.as_str()) {
            return Err(required_error("color"));
        }
        let page = normal_page(self.page);
        let per_page = normal_size(self.per_page);
        Ok(SearchByColorArgs { page, per_page, ..self })
    }
}

impl CollectionsArgs {
    /// Normalises the arguments: page at least 1, page size in 1..=30.
    pub fn checked(self) -> (r: Self)
        ensures
            r == (CollectionsArgs {
                page: page_at_least_one(self.page),
                per_page: clamp_size(self.per_page),
                ..self
            }),
    {
        let page = normal_page(self.page);
        let per_page = normal_size(self.per_page);
        CollectionsArgs { page, per_page, ..self }
    }
}

impl CollectionPhotosArgs {
    /// Checks the arguments: the collection id must not be blank; page at
    /// least 1, page size in 1..=30.
    pub fn checked(self) -> (r: Result<Self, String>)
        ensures
            trim_spec(self.collection_id@).len() == 0 <==> r is Err,
            r matches Err(e) ==> e@ == required_message("collection_id"@),
            r matches Ok(a) ==> a == (CollectionPhotosArgs {
                page: page_at_least_one(self.page),
                per_page: clamp_size(self.per_page),
                ..self
            }),
    {
        if is_blank(self.collection_id.as_str()) {
            return Err(required_error("collection_id"));
        }
        let page = normal_page(self.page);
        let per_page = normal_size(self.per_page);
        Ok(CollectionPhotosArgs { page, per_page, ..self })
    }
}

impl RandomPhotosArgs {
    /// Normalises the arguments: the count clamped to 1..=30.
    pub fn checked(self) -> (r: Self)
        ensures
            r == (RandomPhotosArgs { count: clamp_size(self.count), ..self }),
    {
        let count = normal_size(self.count);
        RandomPhotosArgs { count, ..self }
    }
}

/// The tools, for naming their answers.
#[derive(PartialEq, Eq, Structural, Clone, Copy, Debug)]
pub enum Tool {
    SearchImages,
    PopularImages,
    BrowseCategory,
    UserProfile,
    ImageDetails,
    SearchByColor,
    Collections,
    CollectionPhotos,
    RandomPhotos,
}

/// The heading of a tool's answer; `subject` is the query, category,
/// username, id or colour the tool was asked about.
pub open spec fn tool_title_spec(tool: Tool, subject: Seq<char>) -> Seq<char> {
    match tool {
        Tool::SearchImages => "Search Results for \""@ + subject + "\""@,
        Tool::PopularImages => "Popular Images"@,
        Tool::BrowseCategory => "Category: "@ + subject,
        Tool::UserProfile => "User Profile: "@ + subject,
        Tool::ImageDetails => "Image Details: "@ + subject,
        Tool::SearchByColor => "Images with color: "@ + subject,
        Tool::Collections => "Collections"@,
        Tool::CollectionPhotos => "Collection Photos: "@ + subject,
        Tool::RandomPhotos => "Random Photos"@,
    }
}

/// Writes the heading of a tool's answer.
pub fn tool_title(tool: Tool, subject: &str) -> (r: String)
    ensures
        r@ == tool_title_spec(tool, subject@),
{
    let mut out: Vec<char> = Vec::new();
    match tool {
        Tool::SearchImages => {
            push_str(&mut out, "Search Results for \"");
            push_str(&mut out, subject);
            push_str(&mut out, "\"");
        },
        Tool::PopularImages => {
            push_str(&mut out, "Popular Images");
        },
        Tool::BrowseCategory => {
            push_str(&mut out, "Category: ");
            push_str(&mut out, subject);
        },
        Tool::UserProfile => {
            push_str(&mut out, "User Profile: ");
            push_str(&mut out, subject);
        },
        Tool::ImageDetails => {
            push_str(&mut out, "Image Details: ");
            push_str(&mut out, subject);
        },
        Tool::SearchByColor => {
            push_str(&mut out, "Images with color: ");
            push_str(&mut out, subject);
        },
        Tool::Collections => {
            push_str(&mut out, "Collections");
        },
        Tool::CollectionPhotos => {
            push_str(&mut out, "Collection Photos: ");
            push_str(&mut out, subject);
        },
        Tool::RandomPhotos => {
            push_str(&mut out, "Random Photos");
        },
    }
    assert(out@ =~= tool_title_spec(tool, subject@));
    string_from_chars(out.as_slice())
}

/// The text of a tool's answer: `# <title>`, a blank line, then the
/// pretty-printed JSON.
pub open spec fn tool_text_spec(title: Seq<char>, pretty_json: Seq<char>) -> Seq<char> {
    "# "@ + title + "\n\n"@ + pretty_json
}

/// Writes the text of a tool's answer.
pub fn tool_text(title: &str, pretty_json: &str) -> (r: String)
    ensures
        r@ == tool_text_spec(title@, pretty_json@),
{
    let mut out: Vec<char> = Vec::new();
    push_str(&mut out, "# ");
    push_str(&mut out, title);
    push_str(&mut out, "\n\n");
    push_str(&mut out, pretty_json);
    assert(out@ =~= tool_text_spec(title@, pretty_json@));
    string_from_chars(out.as_slice())
}


/// Writes a tool's answer: the heading, a blank line, then the document
/// pretty-printed.
pub fn answer_text(title: &str, value: &Json) -> (r: String)
    ensures
        r@ == tool_text_spec(title@, json_pretty_text(*value)),
{
    let pretty = pretty_json(value);
    tool_text(title, pretty.as_str())
}

} // verus!
