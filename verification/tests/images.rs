use tadoku::images::{construct_image_path, extract_image, image_name, ImageError};

#[test]
fn image_name_is_the_last_segment() {
    assert_eq!(extract_image("https://t.vndb.org/cv/12/34512.jpg"), Ok("34512.jpg".to_string()));
    assert_eq!(extract_image("https://example.com/a/b/c.png?size=2#top"), Ok("c.png".to_string()));
    assert_eq!(extract_image("https://example.com"), Ok(String::new()));
    assert_eq!(extract_image("https://example.com/dir/"), Ok(String::new()));
}

#[test]
fn image_name_of_no_address_fails() {
    assert_eq!(extract_image("34512.jpg"), Err(ImageError::Parse));
    assert_eq!(extract_image(""), Err(ImageError::Parse));
    assert_eq!(extract_image("data:text/plain,HelloWorld"), Err(ImageError::Segments));
}

#[test]
fn image_name_picks_from_parsed_segments() {
    assert_eq!(image_name(None), Err(ImageError::Parse));
    assert_eq!(image_name(Some(None)), Err(ImageError::Segments));
    assert_eq!(image_name(Some(Some(vec![]))), Err(ImageError::Filename));
    assert_eq!(
        image_name(Some(Some(vec!["cv".to_string(), "1.jpg".to_string()]))),
        Ok("1.jpg".to_string())
    );
}

#[test]
fn image_errors_in_words() {
    assert_eq!(ImageError::Parse.message(), "Failed to parse URL");
    assert_eq!(ImageError::Segments.message(), "Failed to get segments");
    assert_eq!(ImageError::Filename.message(), "Failed to get filename");
}

#[test]
fn image_path_lies_under_images() {
    let path = construct_image_path("/data", "https://t.vndb.org/cv/12/34512.jpg").unwrap();
    assert_eq!(
        std::path::PathBuf::from(path),
        std::path::Path::new("/data").join("images").join("34512.jpg")
    );
    assert_eq!(construct_image_path("/data", "nonsense"), Err(ImageError::Parse));
}
