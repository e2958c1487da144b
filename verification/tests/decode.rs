use formcore::bag::{RawEntry, RawFieldBag};
use formcore::errors::FormError;
use formcore::fields::FormConfig;
use formcore::form_data::decode;
use formcore::numbers::NumberError;
use formcore::program::NewProgram;
use formcore::form_data::FromFormData;

fn jpeg_entry() -> RawEntry {
    RawEntry {
        name: "image".to_string(),
        data: vec![0xFF, 0xD8, 0xFF, 0xE0, 0x00, 0x10],
        file_name: Some("test.image.jpg".to_string()),
        content_type: Some("image/jpeg".to_string()),
    }
}

fn program_config() -> FormConfig {
    FormConfig::new::<NewProgram>()
}

fn program_bag(title: &str, text: &str, event_id: Option<&str>, image: bool) -> RawFieldBag {
    let mut bag = RawFieldBag::new();
    bag.push_text("title".to_string(), title.to_string());
    bag.push_text("text".to_string(), text.to_string());
    if let Some(v) = event_id {
        bag.push_text("event_id".to_string(), v.to_string());
    }
    if image {
        bag.push_raw(jpeg_entry());
    }
    bag
}

#[test]
fn missing_required_text_names_the_field() {
    let config = program_config();
    let mut bag = RawFieldBag::new();
    bag.push_text("title".to_string(), "A".to_string());
    bag.push_text("event_id".to_string(), "7".to_string());
    bag.push_raw(jpeg_entry());
    let r = decode(&bag, &config);
    match r {
        Err(FormError::MissingField(name)) => assert_eq!(name, "text"),
        other => panic!("expected a missing-field failure, got {:?}", other),
    }
}

#[test]
fn non_numeric_required_number_names_the_field() {
    let config = program_config();
    let bag = program_bag("A", "B", Some("seven"), true);
    let r = decode(&bag, &config);
    match r {
        Err(FormError::InvalidNumber(name, kind)) => {
            assert_eq!(name, "event_id");
            assert_eq!(kind, NumberError::InvalidDigit);
        },
        other => panic!("expected an invalid-number failure, got {:?}", other),
    }
}

#[test]
fn empty_optional_number_is_absent_not_an_error() {
    let config = FormConfig {
        required_text_fields: vec![],
        optional_text_fields: vec![],
        required_number_fields: vec![],
        optional_number_fields: vec!["rank".to_string()],
        has_image: false,
        is_image_required: true,
    };
    let mut bag = RawFieldBag::new();
    bag.push_text("rank".to_string(), "".to_string());
    let form = decode(&bag, &config).expect("an empty optional number must not fail");
    assert_eq!(form.optional_number_values, vec![("rank".to_string(), None)]);
}

#[test]
fn optional_image_absent_decodes_to_no_image() {
    let config = FormConfig {
        required_text_fields: vec![],
        optional_text_fields: vec!["title".to_string()],
        required_number_fields: vec![],
        optional_number_fields: vec![],
        has_image: true,
        is_image_required: false,
    };
    let mut bag = RawFieldBag::new();
    bag.push_text("title".to_string(), "X".to_string());
    let form = decode(&bag, &config).expect("a tolerated missing image must not fail");
    assert!(form.image_field.is_none());
}

#[test]
fn required_image_absent_fails() {
    let config = program_config();
    let bag = program_bag("A", "B", Some("7"), false);
    let r = decode(&bag, &config);
    match r {
        Err(FormError::MissingImage) => {},
        other => panic!("expected a missing-image failure, got {:?}", other),
    }
}

#[test]
fn round_trip_decodes_exactly_the_supplied_values() {
    let config = FormConfig {
        required_text_fields: vec!["title".to_string(), "text".to_string()],
        optional_text_fields: vec!["subtitle".to_string()],
        required_number_fields: vec!["event_id".to_string()],
        optional_number_fields: vec!["rank".to_string()],
        has_image: true,
        is_image_required: true,
    };
    let mut bag = RawFieldBag::new();
    bag.push_text("title".to_string(), "A title".to_string());
    bag.push_text("text".to_string(), "Some text".to_string());
    bag.push_text("subtitle".to_string(), "A subtitle".to_string());
    bag.push_text("event_id".to_string(), "42".to_string());
    bag.push_text("rank".to_string(), "-3".to_string());
    bag.push_raw(jpeg_entry());
    let form = decode(&bag, &config).expect("a fully supplied form must decode");
    assert_eq!(
        form.required_text_values,
        vec![
            ("title".to_string(), "A title".to_string()),
            ("text".to_string(), "Some text".to_string()),
        ]
    );
    assert_eq!(
        form.optional_text_values,
        vec![("subtitle".to_string(), Some("A subtitle".to_string()))]
    );
    assert_eq!(form.required_number_values, vec![("event_id".to_string(), 42)]);
    assert_eq!(form.optional_number_values, vec![("rank".to_string(), Some(-3))]);
    let image = form.image_field.expect("the image part must be kept");
    assert_eq!(image.raw_data, vec![0xFF, 0xD8, 0xFF, 0xE0, 0x00, 0x10]);
    assert_eq!(image.file_name, Some("test.image.jpg".to_string()));
    assert_eq!(image.content_type, Some("image/jpeg".to_string()));
}

#[test]
fn first_occurrence_wins_for_duplicate_names() {
    let config = FormConfig {
        required_text_fields: vec!["title".to_string()],
        optional_text_fields: vec![],
        required_number_fields: vec![],
        optional_number_fields: vec![],
        has_image: false,
        is_image_required: true,
    };
    let mut bag = RawFieldBag::new();
    bag.push_text("title".to_string(), "first".to_string());
    bag.push_text("title".to_string(), "second".to_string());
    let form = decode(&bag, &config).expect("a supplied title must decode");
    assert_eq!(
        form.required_text_values,
        vec![("title".to_string(), "first".to_string())]
    );
}

#[test]
fn program_create_scenario_builds_the_payload() {
    let config = program_config();
    let bag = program_bag("A", "B", Some("7"), true);
    let form = decode(&bag, &config).expect("the full program form must decode");
    let payload = NewProgram::from_form_data(form).expect("a decoded form must build");
    assert_eq!(payload.title, "A");
    assert_eq!(payload.text, "B");
    assert_eq!(payload.event_id, 7);
    assert_eq!(payload.image_id, 0);
}

#[test]
fn program_create_scenario_without_event_id_fails() {
    let config = program_config();
    let bag = program_bag("A", "B", None, true);
    match decode(&bag, &config) {
        Err(e) => {
            assert_eq!(e, FormError::MissingField("event_id".to_string()));
            assert_eq!(e.message(), "Missing required field: event_id");
        },
        Ok(_) => panic!("a form without event_id must not decode"),
    }
}

#[test]
fn fail_fast_reports_the_first_missing_field() {
    let config = program_config();
    let mut bag = RawFieldBag::new();
    bag.push_raw(jpeg_entry());
    match decode(&bag, &config) {
        Err(FormError::MissingField(name)) => assert_eq!(name, "title"),
        _ => panic!("an empty form must fail on its first required field"),
    }
}

#[test]
fn error_messages_name_field_and_detail() {
    let invalid = FormError::InvalidNumber("event_id".to_string(), NumberError::InvalidDigit);
    assert_eq!(invalid.message(), "Invalid event_id: invalid digit");
    let empty = FormError::InvalidNumber("rank".to_string(), NumberError::Empty);
    assert_eq!(empty.message(), "Invalid rank: value is empty");
    let range = FormError::InvalidNumber("rank".to_string(), NumberError::OutOfRange);
    assert_eq!(range.message(), "Invalid rank: out of range");
    assert_eq!(FormError::MissingImage.message(), "Missing image");
}

#[test]
fn default_declaration_is_empty_without_image() {
    let config = FormConfig::default();
    assert!(config.required_text_fields.is_empty());
    assert!(config.optional_text_fields.is_empty());
    assert!(config.required_number_fields.is_empty());
    assert!(config.optional_number_fields.is_empty());
    assert!(!config.has_image);
    assert!(config.is_image_required);
}
