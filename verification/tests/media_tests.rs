use watch_market::media::{
    check_search_code, image_disk_path, message_image_disk_path, original_image_name,
    original_image_url, parse_resolution, product_ids_of_labels, stored_upload_name, upload_disk_path, uploaded_url,
    replaced_contract_file, resize_upload, vector_image_path,
};

#[test]
fn original_copy_is_named_after_stem_and_extension() {
    assert_eq!(original_image_name("/images/abc.png"), "abc_original.png");
    assert_eq!(original_image_name("./images/x.y.jpeg"), "x.y_original.jpeg");
    assert_eq!(original_image_name("noext"), "noext_original.");
    assert_eq!(original_image_url("/images/abc.png"), "/images/abc_original.png");
}

#[test]
fn disk_paths_of_served_files() {
    assert_eq!(image_disk_path("/images/a.png"), "./images/a.png");
    assert_eq!(vector_image_path("/images/a.png"), "images/a.png");
    assert_eq!(message_image_disk_path("/images/a.png"), "./images/a.png");
    assert_eq!(image_disk_path("http://x/images/a.png"), "http://x./images/a.png");
}

#[test]
fn resolutions() {
    assert_eq!(parse_resolution("300x200"), Some((300, 200)));
    assert_eq!(parse_resolution("4294967295x1"), Some((u32::MAX, 1)));
    assert_eq!(parse_resolution("300x"), None);
    assert_eq!(parse_resolution("300"), None);
    assert_eq!(parse_resolution("300x200x1"), None);
    assert_eq!(parse_resolution("-3x2"), None);
    assert_eq!(parse_resolution("4294967296x1"), None);
}

#[test]
fn upload_names() {
    assert_eq!(stored_upload_name("6f1c", "watch.png"), "6f1c_watch.png");
    assert_eq!(uploaded_url("6f1c_watch.png"), "/images/6f1c_watch.png");
    assert_eq!(upload_disk_path("6f1c_watch.png"), "./images/6f1c_watch.png");
}

#[test]
fn image_search_answers() {
    assert!(check_search_code(200).is_ok());
    let e = check_search_code(404).unwrap_err();
    assert_eq!((e.code, e.message.as_str()), (500, "Something went wrong!"));
}

#[test]
fn image_search_labels_are_product_ids() {
    let labels = vec!["12".to_string(), "7".to_string(), "-1".to_string()];
    assert_eq!(product_ids_of_labels(&labels), Some(vec![12, 7, -1]));
    let labels = vec!["12".to_string(), "watch".to_string()];
    assert_eq!(product_ids_of_labels(&labels), None);
    assert_eq!(product_ids_of_labels(&Vec::new()), Some(vec![]));
}

#[test]
fn replacing_the_seller_agreement() {
    assert_eq!(replaced_contract_file("/images/a.pdf", "/images/a.pdf"), None);
    assert_eq!(replaced_contract_file("/images/a.pdf", "/images/b.pdf"), Some("./images/a.pdf".to_string()));
}

fn tiny_png() -> Vec<u8> {
    let img = image::DynamicImage::ImageRgb8(image::RgbImage::from_pixel(4, 4, image::Rgb([10, 200, 30])));
    let mut out = std::io::Cursor::new(Vec::new());
    img.write_to(&mut out, image::ImageFormat::Png).unwrap();
    out.into_inner()
}

#[test]
fn uploads_are_resized_to_the_asked_resolution() {
    let png = tiny_png();
    let resized = resize_upload(&png, Some("2x3"), "./images/a.png").unwrap().unwrap();
    let back = image::load_from_memory_with_format(&resized, image::ImageFormat::Png).unwrap();
    assert_eq!((back.width(), back.height()), (2, 3));
}

#[test]
fn nothing_is_resized_without_an_understood_resolution() {
    let png = tiny_png();
    assert!(resize_upload(&png, None, "./images/a.png").unwrap().is_none());
    assert!(resize_upload(&png, Some("2x"), "./images/a.png").unwrap().is_none());
    assert!(resize_upload(b"not an image", Some("abc"), "./images/a.png").unwrap().is_none());
}

#[test]
fn failed_resizes_are_refused() {
    let e = resize_upload(b"not an image", Some("2x3"), "./images/a.png").unwrap_err();
    assert_eq!((e.code, e.message.as_str()), (500, "Error resizing image!"));
    let e = resize_upload(&tiny_png(), Some("2x3"), "./images/a.xyz").unwrap_err();
    assert_eq!((e.code, e.message.as_str()), (500, "Error resizing image!"));
}
