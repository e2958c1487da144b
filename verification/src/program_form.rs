//! The program form, decoded without a generic declaration: fixed fields
//! `title`, `text`, `event_id` and a required image part.

use vstd::prelude::*;
use vstd::string::StringExecFns;

use crate::bag::{image_of_entry, spec_first_raw, spec_first_text, RawFieldBag};
use crate::errors::FormError;
use crate::fields::{AllowedField, ImageFormData, MAX_IMAGE_SIZE};
use crate::form_data::{err_view, FormErrorModel};
use crate::numbers::{parse_i32, spec_parse_i32, NumberError};

verus! {

/// The fixed allow-list for program forms.
pub struct ProgramFormConfig {
}

impl ProgramFormConfig {
    pub fn new() -> (r: ProgramFormConfig) {
        ProgramFormConfig {  }
    }

    /// The parser allow-list: a capped raw `image` entry, then the three
    /// program text fields.
    pub fn get_options(&self) -> (r: Vec<AllowedField>)
        ensures
            r@.len() == 4,
            r@[0].name@ == "image"@ && r@[0].raw && r@[0].size_limit == Some(MAX_IMAGE_SIZE),
            r@[1].name@ == "title"@ && !r@[1].raw && r@[1].size_limit is None,
            r@[2].name@ == "text"@ && !r@[2].raw && r@[2].size_limit is None,
            r@[3].name@ == "event_id"@ && !r@[3].raw && r@[3].size_limit is None,
    {
        let mut r: Vec<AllowedField> = Vec::new();
        r.push(AllowedField { name: String::from_str("image"), raw: true, size_limit: Some(
            MAX_IMAGE_SIZE,
        ) });
        r.push(AllowedField { name: String::from_str("title"), raw: false, size_limit: None });
        r.push(AllowedField { name: String::from_str("text"), raw: false, size_limit: None });
        r.push(AllowedField { name: String::from_str("event_id"), raw: false, size_limit: None });
        r
    }
}

/// A decoded program form: every field present and coerced, image included.
#[derive(Debug)]
pub struct ProgramFormData {
    pub title: String,
    pub text: String,
    pub event_id: i32,
    pub image_field: ImageFormData,
}

/// The first failing check of a program form, in field order: `title`,
/// `text`, `event_id` (which must parse), then the image part.
pub open spec fn spec_program_form_error(bag: RawFieldBag) -> Option<FormErrorModel> {
    if spec_first_text(bag.texts@, "title"@) is None {
        Some(FormErrorModel::MissingField("title"@))
    } else if spec_first_text(bag.texts@, "text"@) is None {
        Some(FormErrorModel::MissingField("text"@))
    } else {
        match spec_first_text(bag.texts@, "event_id"@) {
            None => Some(FormErrorModel::MissingField("event_id"@)),
            Some(v) => match spec_parse_i32(v) {
                Err(e) => Some(FormErrorModel::InvalidNumber("event_id"@, e)),
                Ok(_) => if spec_first_raw(bag.raws@, "image"@) is None {
                    Some(FormErrorModel::MissingImage)
                } else {
                    None
                },
            },
        }
    }
}

impl ProgramFormData {
    /// Decodes a parsed program form. Succeeds exactly when every fixed field
    /// is present (and `event_id` parses) and an image part was supplied, and
    /// then returns precisely those values; otherwise returns the first
    /// failing check's error.
    pub fn from_fields(bag: &RawFieldBag) -> (r: Result<ProgramFormData, FormError>)
        ensures
            match r {
                Ok(p) => spec_program_form_error(*bag) is None && Some(p.title@)
                    == spec_first_text(bag.texts@, "title"@) && Some(p.text@) == spec_first_text(
                    bag.texts@,
                    "text"@,
                ) && (spec_first_text(bag.texts@, "event_id"@) matches Some(v) && spec_parse_i32(v)
                    == Ok::<i32, NumberError>(p.event_id)) && (spec_first_raw(bag.raws@, "image"@)
                    matches Some(e) && image_of_entry(p.image_field, e)),
                Err(e) => spec_program_form_error(*bag) == Some(err_view(e)),
            },
    {
        let title_key = String::from_str("title");
        let text_key = String::from_str("text");
        let event_key = String::from_str("event_id");
        let title = match bag.first_text(&title_key) {
            Some(v) => v.clone(),
            None => {
                return Err(FormError::MissingField(title_key));
            },
        };
        let text = match bag.first_text(&text_key) {
            Some(v) => v.clone(),
            None => {
                return Err(FormError::MissingField(text_key));
            },
        };
        let event_id = match bag.first_text(&event_key) {
            Some(v) => match parse_i32(v.as_str()) {
                Ok(k) => k,
                Err(e) => {
                    return Err(FormError::InvalidNumber(event_key, e));
                },
            },
            None => {
                return Err(FormError::MissingField(event_key));
            },
        };
        let image_field = match bag.image_field() {
            Some(img) => img,
            None => {
                return Err(FormError::MissingImage);
            },
        };
        Ok(ProgramFormData { title, text, event_id, image_field })
    }
}

} // verus!
