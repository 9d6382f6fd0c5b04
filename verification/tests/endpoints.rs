use unsplash_mcp::json::{as_results, get_field, set_field, Json};
use unsplash_mcp::napi::{
    browse_category_path, collection_photos_path, collections_path, image_details_path,
    popular_images_path, random_photos_path, search_by_color_path, search_images_path,
    recent_photos_request, user_photos_path, user_profile_path, with_recent_photos,
};

fn s(x: &str) -> String {
    x.to_string()
}

fn obj(entries: Vec<(&str, Json)>) -> Json {
    Json::Object(entries.into_iter().map(|(k, v)| (k.to_string(), v)).collect())
}

fn num(n: &str) -> Json {
    Json::Number(s(n))
}

#[test]
fn search_path_caps_page_size_and_appends_filters() {
    assert_eq!(
        search_images_path("mountain landscape", 2, 50, Some("landscape"), Some("blue")),
        "/napi/search/photos?query=mountain%20landscape&page=2&per_page=30&orientation=landscape&color=blue"
    );
    assert_eq!(
        search_images_path("cat", 1, 20, None, None),
        "/napi/search/photos?query=cat&page=1&per_page=20"
    );
    assert_eq!(
        search_images_path("cat", 0, 0, None, Some("black & white")),
        "/napi/search/photos?query=cat&page=0&per_page=0&color=black%20%26%20white"
    );
}

#[test]
fn listing_paths() {
    assert_eq!(popular_images_path(3, 31, "latest"), "/napi/photos?page=3&per_page=30&order_by=latest");
    assert_eq!(
        browse_category_path(" Street Art ", 1, 12),
        "/napi/topics/street-art/photos?page=1&per_page=12"
    );
    assert_eq!(
        search_by_color_path("teal", 4, 30),
        "/napi/search/photos?query=photo&page=4&per_page=30&color=teal"
    );
    assert_eq!(collections_path(1, 10, false), "/napi/collections?page=1&per_page=10");
    assert_eq!(collections_path(1, 99, true), "/napi/collections?page=1&per_page=30&featured=true");
    assert_eq!(
        collection_photos_path("abc 1", 2, 5),
        "/napi/collections/abc%201/photos?page=2&per_page=5"
    );
}

#[test]
fn single_item_paths() {
    assert_eq!(user_profile_path("jane doe"), "/napi/users/jane%20doe");
    assert_eq!(
        user_photos_path("jane"),
        "/napi/users/jane/photos?page=1&per_page=12&order_by=latest"
    );
    assert_eq!(image_details_path("Xy-z_1"), "/napi/photos/Xy-z_1");
}

#[test]
fn random_path_drops_blank_query() {
    assert_eq!(random_photos_path(50, Some("  "), None), "/napi/photos/random?count=30");
    assert_eq!(
        random_photos_path(3, Some("sea side"), Some("portrait")),
        "/napi/photos/random?count=3&query=sea%20side&orientation=portrait"
    );
    assert_eq!(random_photos_path(1, None, None), "/napi/photos/random?count=1");
}

#[test]
fn as_results_unwraps_search_replies_only() {
    let search = obj(vec![
        ("results", Json::Array(vec![num("1"), num("2")])),
        ("total", num("2")),
    ]);
    match as_results(search) {
        Json::Array(items) => assert_eq!(items.len(), 2),
        _ => panic!("expected the results list"),
    }
    match as_results(Json::Array(vec![Json::Null])) {
        Json::Array(items) => assert_eq!(items.len(), 1),
        _ => panic!("a list stays a list"),
    }
    match as_results(obj(vec![("id", Json::Str(s("x")))])) {
        Json::Object(entries) => assert_eq!(entries.len(), 1),
        _ => panic!("an object without results stays as it is"),
    }
}

#[test]
fn field_written_is_field_read() {
    let o = obj(vec![("a", num("1")), ("b", num("2"))]);
    let o = set_field(o, s("a"), Json::Str(s("new")));
    match get_field(&o, "a") {
        Some(Json::Str(t)) => assert_eq!(t, "new"),
        _ => panic!("written value not read back"),
    }
    match get_field(&o, "b") {
        Some(Json::Number(t)) => assert_eq!(t, "2"),
        _ => panic!("other field changed"),
    }
    let o = set_field(o, s("c"), Json::Bool(true));
    assert!(matches!(get_field(&o, "c"), Some(Json::Bool(true))));
    if let Json::Object(entries) = &o {
        assert_eq!(entries.len(), 3);
    }
    let not_object = set_field(Json::Null, s("a"), Json::Bool(true));
    assert!(matches!(not_object, Json::Null));
}

#[test]
fn profile_gets_recent_photos_or_the_error() {
    let profile = obj(vec![("username", Json::Str(s("jane")))]);
    let photos = obj(vec![("results", Json::Array(vec![num("7")]))]);
    let p = with_recent_photos(profile, Ok(photos));
    match get_field(&p, "recent_photos") {
        Some(Json::Array(items)) => assert_eq!(items.len(), 1),
        _ => panic!("recent photos missing"),
    }
    let profile = obj(vec![("username", Json::Str(s("jane")))]);
    let p = with_recent_photos(profile, Err(s("HTTP 500")));
    match get_field(&p, "recent_photos_error") {
        Some(Json::Str(t)) => assert_eq!(t, "HTTP 500"),
        _ => panic!("error text missing"),
    }
    assert!(get_field(&p, "recent_photos").is_none());
}

#[test]
fn recent_photos_only_when_asked() {
    assert_eq!(
        recent_photos_request("jane", true),
        Some(s("/napi/users/jane/photos?page=1&per_page=12&order_by=latest"))
    );
    assert_eq!(recent_photos_request("jane", false), None);
}
