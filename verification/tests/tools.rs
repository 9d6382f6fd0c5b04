use unsplash_mcp::json::Json;
use unsplash_mcp::tools::{
    answer_text, default_count, default_order, default_page, default_per_page, default_true, tool_text,
    tool_title, BrowseCategoryArgs, CollectionPhotosArgs, CollectionsArgs, ImageDetailsArgs,
    PopularImagesArgs, RandomPhotosArgs, SearchByColorArgs, SearchImagesArgs, Tool,
    UserProfileArgs,
};

#[test]
fn defaults() {
    assert_eq!(default_page(), 1);
    assert_eq!(default_per_page(), 20);
    assert_eq!(default_count(), 10);
    assert_eq!(default_order(), "popular");
    assert!(default_true());
}

#[test]
fn search_arguments_are_checked_and_normalised() {
    let a = SearchImagesArgs { query: "cats".into(), page: 0, per_page: 100, orientation: None, color: None };
    let a = a.checked().ok().unwrap();
    assert_eq!((a.page, a.per_page), (1, 30));
    let blank = SearchImagesArgs { query: " \t".into(), page: 1, per_page: 1, orientation: None, color: None };
    assert_eq!(blank.checked().err(), Some("query is required".to_string()));
}

#[test]
fn required_fields() {
    assert_eq!(
        BrowseCategoryArgs { category: "".into(), page: 1, per_page: 1 }.checked().err(),
        Some("category is required".to_string())
    );
    assert_eq!(
        UserProfileArgs { username: " ".into(), include_photos: true }.checked().err(),
        Some("username is required".to_string())
    );
    assert_eq!(
        ImageDetailsArgs { image_id: "".into() }.checked().err(),
        Some("image_id is required".to_string())
    );
    assert_eq!(
        SearchByColorArgs { color: "\n".into(), page: 1, per_page: 1 }.checked().err(),
        Some("color is required".to_string())
    );
    assert_eq!(
        CollectionPhotosArgs { collection_id: "".into(), page: 1, per_page: 1 }.checked().err(),
        Some("collection_id is required".to_string())
    );
    let ok = CollectionPhotosArgs { collection_id: "42".into(), page: 7, per_page: 0 }.checked().ok().unwrap();
    assert_eq!((ok.page, ok.per_page), (7, 1));
}

#[test]
fn unchecked_tools_are_normalised() {
    let p = PopularImagesArgs { page: 0, per_page: 31, order_by: "latest".into() }.checked();
    assert_eq!((p.page, p.per_page), (1, 30));
    let c = CollectionsArgs { page: 5, per_page: 15, featured: true }.checked();
    assert_eq!((c.page, c.per_page, c.featured), (5, 15, true));
    let r = RandomPhotosArgs { count: 0, query: None, orientation: None }.checked();
    assert_eq!(r.count, 1);
    let r = RandomPhotosArgs { count: 99, query: None, orientation: None }.checked();
    assert_eq!(r.count, 30);
}

#[test]
fn titles_and_text() {
    assert_eq!(tool_title(Tool::SearchImages, "sea"), "Search Results for \"sea\"");
    assert_eq!(tool_title(Tool::PopularImages, ""), "Popular Images");
    assert_eq!(tool_title(Tool::BrowseCategory, "nature"), "Category: nature");
    assert_eq!(tool_title(Tool::UserProfile, "jane"), "User Profile: jane");
    assert_eq!(tool_title(Tool::ImageDetails, "abc"), "Image Details: abc");
    assert_eq!(tool_title(Tool::SearchByColor, "teal"), "Images with color: teal");
    assert_eq!(tool_title(Tool::Collections, ""), "Collections");
    assert_eq!(tool_title(Tool::CollectionPhotos, "9"), "Collection Photos: 9");
    assert_eq!(tool_title(Tool::RandomPhotos, ""), "Random Photos");
    assert_eq!(tool_text("Collections", "[]"), "# Collections\n\n[]");
}

#[test]
fn answers_are_pretty_printed() {
    let v = Json::Object(vec![("id".to_string(), Json::Str("x".to_string())), ("n".to_string(), Json::Number("3".to_string()))]);
    assert_eq!(answer_text("Image Details: x", &v), "# Image Details: x\n\n{\n  \"id\": \"x\",\n  \"n\": 3\n}");
    assert_eq!(answer_text("Collections", &Json::Array(vec![])), "# Collections\n\n[]");
}
