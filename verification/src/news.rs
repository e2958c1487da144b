//! News payloads and their form declaration.

use vstd::prelude::*;
use vstd::string::StringExecFns;

use crate::bag::opt_str_view;
use crate::errors::FormError;
use crate::fields::{names_view, no_fields, FormFields};
use crate::form_data::{assoc, spec_assoc, spec_opt_text_value, FormData, FromFormData};

verus! {

/// Payload creating a news item; the image id starts as the `0` placeholder
/// until an upload supplies the real id.
#[derive(Debug)]
pub struct NewNews {
    pub title: String,
    pub message: String,
    pub image_id: i32,
}

/// Payload updating a news item; an absent field leaves its column unchanged.
#[derive(Debug)]
pub struct UpdateNews {
    pub title: Option<String>,
    pub message: Option<String>,
    pub image_id: Option<i32>,
}

impl FormFields for NewNews {
    open spec fn spec_required_text_fields() -> Seq<Seq<char>> {
        seq!["title"@, "message"@]
    }

    open spec fn spec_has_image() -> bool {
        true
    }

    fn get_required_text_fields() -> (r: Vec<String>) {
        let mut r: Vec<String> = Vec::new();
        r.push(String::from_str("title"));
        r.push(String::from_str("message"));
        proof {
            assert(names_view(r@) =~= Self::spec_required_text_fields());
        }
        r
    }

    fn get_optional_text_fields() -> (r: Vec<String>) {
        no_fields()
    }

    fn get_required_number_fields() -> (r: Vec<String>) {
        no_fields()
    }

    fn get_optional_number_fields() -> (r: Vec<String>) {
        no_fields()
    }

    fn has_image() -> (r: bool) {
        true
    }

    fn is_image_required() -> (r: bool) {
        true
    }
}

impl FromFormData for NewNews {
    open spec fn form_ready(form: FormData) -> bool {
        &&& spec_assoc(form.required_text_values@, "title"@) is Some
        &&& spec_assoc(form.required_text_values@, "message"@) is Some
    }

    open spec fn built_ok(form: FormData, built: Self) -> bool {
        &&& (spec_assoc(form.required_text_values@, "title"@) matches Some(v) && built.title@
            == v@)
        &&& (spec_assoc(form.required_text_values@, "message"@) matches Some(v) && built.message@
            == v@)
        &&& built.image_id == 0
    }

    fn from_form_data(form: FormData) -> (r: Result<Self, FormError>) {
        let title_key = String::from_str("title");
        let message_key = String::from_str("message");
        let title = match assoc(&form.required_text_values, &title_key) {
            Some(v) => v.clone(),
            None => {
                return Err(FormError::MissingField(title_key));
            },
        };
        let message = match assoc(&form.required_text_values, &message_key) {
            Some(v) => v.clone(),
            None => {
                return Err(FormError::MissingField(message_key));
            },
        };
        Ok(NewNews { title, message, image_id: 0 })
    }
}

impl NewNews {
    /// Substitutes the stored image id once an upload returns one; without an
    /// upload the placeholder stays.
    pub fn with_image(self, image_id: Option<i32>) -> (r: NewNews)
        ensures
            r.title == self.title,
            r.message == self.message,
            r.image_id == match image_id {
                Some(k) => k,
                None => 0i32,
            },
    {
        NewNews {
            title: self.title,
            message: self.message,
            image_id: match image_id {
                Some(k) => k,
                None => 0,
            },
        }
    }
}

impl FormFields for UpdateNews {
    open spec fn spec_optional_text_fields() -> Seq<Seq<char>> {
        seq!["title"@, "message"@]
    }

    open spec fn spec_has_image() -> bool {
        true
    }

    open spec fn spec_is_image_required() -> bool {
        false
    }

    fn get_required_text_fields() -> (r: Vec<String>) {
        no_fields()
    }

    fn get_optional_text_fields() -> (r: Vec<String>) {
        let mut r: Vec<String> = Vec::new();
        r.push(String::from_str("title"));
        r.push(String::from_str("message"));
        proof {
            assert(names_view(r@) =~= Self::spec_optional_text_fields());
        }
        r
    }

    fn get_required_number_fields() -> (r: Vec<String>) {
        no_fields()
    }

    fn get_optional_number_fields() -> (r: Vec<String>) {
        no_fields()
    }

    fn has_image() -> (r: bool) {
        true
    }

    fn is_image_required() -> (r: bool) {
        false
    }
}

impl FromFormData for UpdateNews {
    open spec fn form_ready(form: FormData) -> bool {
        true
    }

    open spec fn built_ok(form: FormData, built: Self) -> bool {
        &&& opt_str_view(built.title) == spec_opt_text_value(form.optional_text_values@, "title"@)
        &&& opt_str_view(built.message) == spec_opt_text_value(
            form.optional_text_values@,
            "message"@,
        )
        &&& built.image_id is None
    }

    fn from_form_data(form: FormData) -> (r: Result<Self, FormError>) {
        let title_key = String::from_str("title");
        let message_key = String::from_str("message");
        let title = match assoc(&form.optional_text_values, &title_key) {
            Some(o) => o.clone(),
            None => None,
        };
        let message = match assoc(&form.optional_text_values, &message_key) {
            Some(o) => o.clone(),
            None => None,
        };
        Ok(UpdateNews { title, message, image_id: None })
    }
}

impl UpdateNews {
    /// Records a freshly uploaded image id; without one the image column is
    /// left unchanged.
    pub fn with_image(self, image_id: Option<i32>) -> (r: UpdateNews)
        ensures
            r.title == self.title,
            r.message == self.message,
            r.image_id == match image_id {
                Some(k) => Some(k),
                None => self.image_id,
            },
    {
        match image_id {
            Some(k) => UpdateNews { title: self.title, message: self.message, image_id: Some(k) },
            None => self,
        }
    }
}

} // verus!
