use formcore::bag::RawFieldBag;
use formcore::fields::{AllowedField, FormConfig, MAX_IMAGE_SIZE};
use formcore::form_data::{decode, FromFormData};
use formcore::gallery::{NewGallery, UpdateGallery};
use formcore::news::{NewNews, UpdateNews};
use formcore::program::UpdateProgram;
use formcore::program_form::{ProgramFormConfig, ProgramFormData};

#[test]
fn update_with_only_title_leaves_image_unchanged() {
    let config = FormConfig {
        required_text_fields: vec![],
        optional_text_fields: vec!["title".to_string()],
        required_number_fields: vec![],
        optional_number_fields: vec![],
        has_image: true,
        is_image_required: false,
    };
    let mut bag = RawFieldBag::new();
    bag.push_text("title".to_string(), "X".to_string());
    let form = decode(&bag, &config).expect("the update form must decode");
    assert_eq!(
        form.optional_text_values,
        vec![("title".to_string(), Some("X".to_string()))]
    );
    assert!(form.image_field.is_none());
    let payload = UpdateProgram::from_form_data(form).expect("update builders never fail");
    assert_eq!(payload.title, Some("X".to_string()));
    assert_eq!(payload.text, None);
    assert_eq!(payload.image_id, None);
}

#[test]
fn news_builder_reads_title_and_message() {
    let config = FormConfig::new::<NewNews>();
    let mut bag = RawFieldBag::new();
    bag.push_text("title".to_string(), "Test News Title".to_string());
    bag.push_text("message".to_string(), "This is great news".to_string());
    bag.push_raw(formcore::bag::RawEntry {
        name: "image".to_string(),
        data: vec![1, 2, 3],
        file_name: None,
        content_type: None,
    });
    let form = decode(&bag, &config).expect("the news form must decode");
    let payload = NewNews::from_form_data(form).expect("a decoded form must build");
    assert_eq!(payload.title, "Test News Title");
    assert_eq!(payload.message, "This is great news");
    assert_eq!(payload.image_id, 0);
    let with_image = payload.with_image(Some(9));
    assert_eq!(with_image.image_id, 9);
    assert_eq!(with_image.title, "Test News Title");
}

#[test]
fn news_update_substitution_keeps_absent_image_absent() {
    let payload = UpdateNews {
        title: Some("Updated News Title".to_string()),
        message: None,
        image_id: None,
    };
    let untouched = payload.with_image(None);
    assert_eq!(untouched.image_id, None);
    let replaced = UpdateNews {
        title: Some("Updated News Title".to_string()),
        message: None,
        image_id: None,
    }
    .with_image(Some(4));
    assert_eq!(replaced.image_id, Some(4));
}

#[test]
fn gallery_builder_uses_placeholder_until_upload() {
    let config = FormConfig::new::<NewGallery>();
    let mut bag = RawFieldBag::new();
    bag.push_text("name".to_string(), "Test Gallery Name".to_string());
    bag.push_raw(formcore::bag::RawEntry {
        name: "image".to_string(),
        data: vec![9, 9],
        file_name: Some("g.png".to_string()),
        content_type: Some("image/png".to_string()),
    });
    let form = decode(&bag, &config).expect("the gallery form must decode");
    let payload = NewGallery::from_form_data(form).expect("a decoded form must build");
    assert_eq!(payload.name, "Test Gallery Name");
    assert_eq!(payload.featured_image_id, 0);
    assert_eq!(payload.with_featured_image(Some(12)).featured_image_id, 12);
}

#[test]
fn gallery_update_builder_never_touches_the_image() {
    let config = FormConfig::new::<UpdateGallery>();
    let bag = RawFieldBag::new();
    let form = decode(&bag, &config).expect("an empty tolerated form must decode");
    let payload = UpdateGallery::from_form_data(form).expect("update builders never fail");
    assert_eq!(payload.name, None);
    assert_eq!(payload.featured_image_id, None);
    let kept = payload.with_featured_image(None);
    assert_eq!(kept.featured_image_id, None);
}

#[test]
fn declared_options_list_fields_in_order() {
    let config = FormConfig::new::<formcore::program::NewProgram>();
    let options = config.get_options();
    let names: Vec<&str> = options.iter().map(|f: &AllowedField| f.name.as_str()).collect();
    assert_eq!(names, vec!["image", "title", "text", "event_id"]);
    assert!(options[0].raw);
    assert_eq!(options[0].size_limit, Some(MAX_IMAGE_SIZE));
    assert_eq!(MAX_IMAGE_SIZE, 30 * 1024 * 1024);
    assert!(!options[1].raw && options[1].size_limit.is_none());
}

#[test]
fn program_form_decodes_fixed_fields() {
    let cfg = ProgramFormConfig::new();
    let options = cfg.get_options();
    assert_eq!(options.len(), 4);
    assert_eq!(options[0].name, "image");
    assert_eq!(options[3].name, "event_id");

    let mut bag = RawFieldBag::new();
    bag.push_text("title".to_string(), "Test Program Title".to_string());
    bag.push_text("text".to_string(), "Some program text".to_string());
    bag.push_text("event_id".to_string(), "7".to_string());
    bag.push_raw(formcore::bag::RawEntry {
        name: "image".to_string(),
        data: vec![0xFF, 0xD8],
        file_name: Some("test.image.jpg".to_string()),
        content_type: Some("image/jpeg".to_string()),
    });
    let form = ProgramFormData::from_fields(&bag).expect("the fixed program form must decode");
    assert_eq!(form.title, "Test Program Title");
    assert_eq!(form.text, "Some program text");
    assert_eq!(form.event_id, 7);
    assert_eq!(form.image_field.raw_data, vec![0xFF, 0xD8]);
}

#[test]
fn program_form_requires_its_image() {
    let mut bag = RawFieldBag::new();
    bag.push_text("title".to_string(), "T".to_string());
    bag.push_text("text".to_string(), "X".to_string());
    bag.push_text("event_id".to_string(), "1".to_string());
    match ProgramFormData::from_fields(&bag) {
        Err(formcore::errors::FormError::MissingImage) => {},
        _ => panic!("a program form without an image must fail"),
    }
}
