use formcore::upload::{
    collect_upload_results, file_extension, image_content_type, public_image_url,
    upload_object_key, UploadedImage,
};

fn ok(url: &str, key: &str) -> Result<UploadedImage, String> {
    Ok(UploadedImage { url: url.to_string(), key: key.to_string() })
}

#[test]
fn one_failure_leaves_the_other_uploads_untouched() {
    let results = vec![
        ("a.jpg".to_string(), ok("https://x/a", "uploads/a")),
        ("bad.jpg".to_string(), Err("payload too large".to_string())),
        ("c.jpg".to_string(), ok("https://x/c", "uploads/c")),
        ("d.jpg".to_string(), ok("https://x/d", "uploads/d")),
    ];
    let partition = collect_upload_results(&results);
    assert_eq!(partition.successful.len(), 3);
    assert_eq!(partition.failed.len(), 1);
    assert_eq!(partition.failed[0].0, "bad.jpg");
    assert_eq!(partition.failed[0].1, "payload too large");
    let keys: Vec<&str> = partition.successful.iter().map(|u| u.key.as_str()).collect();
    assert_eq!(keys, vec!["uploads/a", "uploads/c", "uploads/d"]);
}

#[test]
fn all_failures_partition_to_failed() {
    let results = vec![
        ("a".to_string(), Err::<UploadedImage, String>("boom".to_string())),
        ("b".to_string(), Err::<UploadedImage, String>("bust".to_string())),
    ];
    let partition = collect_upload_results(&results);
    assert!(partition.successful.is_empty());
    assert_eq!(partition.failed.len(), 2);
    assert_eq!(partition.failed[0].0, "a");
    assert_eq!(partition.failed[1].1, "bust");
}

#[test]
fn extensions_follow_the_last_dot_of_the_last_component() {
    assert_eq!(file_extension("test.image.jpg"), Some("jpg"));
    assert_eq!(file_extension("photo.PNG"), Some("PNG"));
    assert_eq!(file_extension("noext"), None);
    assert_eq!(file_extension(".gitignore"), None);
    assert_eq!(file_extension("dir.d/noext"), None);
    assert_eq!(file_extension("dir/archive.tar.gz"), Some("gz"));
    assert_eq!(file_extension("trailing."), Some(""));
}

#[test]
fn object_keys_carry_prefix_and_extension() {
    let key = upload_object_key("test.image.jpg");
    assert!(key.starts_with("uploads/"));
    assert!(key.ends_with(".jpg"));
    let fallback = upload_object_key("noext");
    assert!(fallback.ends_with(".jpg"));
    let other = upload_object_key("p.png");
    assert!(other.ends_with(".png"));
    assert_ne!(upload_object_key("a.jpg"), upload_object_key("a.jpg"));
}

#[test]
fn public_urls_name_bucket_region_and_key() {
    let url = public_image_url("my-bucket", "eu-west-1", "uploads/k.jpg");
    assert_eq!(url, "https://my-bucket.s3.eu-west-1.amazonaws.com/uploads/k.jpg");
}

#[test]
fn content_types_follow_the_extension() {
    assert_eq!(image_content_type("a.png"), "image/png");
    assert_eq!(image_content_type("bare"), "image/jpg");
}
