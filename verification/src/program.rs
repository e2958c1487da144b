//! Program payloads and their form declaration.

use vstd::prelude::*;
use vstd::string::StringExecFns;

use crate::bag::opt_str_view;
use crate::errors::FormError;
use crate::fields::{names_view, no_fields, FormFields};
use crate::form_data::{assoc, spec_assoc, spec_opt_text_value, FormData, FromFormData};

verus! {

/// Payload creating a program under an event; the image id starts as the `0`
/// placeholder until an upload supplies the real id.
#[derive(Debug)]
pub struct NewProgram {
    pub title: String,
    pub text: String,
    pub event_id: i32,
    pub image_id: i32,
}

/// Payload updating a program; an absent field leaves its column unchanged.
#[derive(Debug)]
pub struct UpdateProgram {
    pub title: Option<String>,
    pub text: Option<String>,
    pub image_id: Option<i32>,
}

impl FormFields for NewProgram {
    open spec fn spec_required_text_fields() -> Seq<Seq<char>> {
        seq!["title"@, "text"@]
    }

    open spec fn spec_required_number_fields() -> Seq<Seq<char>> {
        seq!["event_id"@]
    }

    open spec fn spec_has_image() -> bool {
        true
    }

    fn get_required_text_fields() -> (r: Vec<String>) {
        let mut r: Vec<String> = Vec::new();
        r.push(String::from_str("title"));
        r.push(String::from_str("text"));
        proof {
            assert(names_view(r@) =~= Self::spec_required_text_fields());
        }
        r
    }

    fn get_optional_text_fields() -> (r: Vec<String>) {
        no_fields()
    }

    fn get_required_number_fields() -> (r: Vec<String>) {
        let mut r: Vec<String> = Vec::new();
        r.push(String::from_str("event_id"));
        proof {
            assert(names_view(r@) =~= Self::spec_required_number_fields());
        }
        r
    }

    fn get_optional_number_fields() -> (r: Vec<String>) {
        no_fields()
    }

    fn has_image() -> (r: bool) {
        true
    }

    fn is_image_required() -> (r: bool) {
        true
    }
}

impl FromFormData for NewProgram {
    open spec fn form_ready(form: FormData) -> bool {
        &&& spec_assoc(form.required_text_values@, "title"@) is Some
        &&& spec_assoc(form.required_text_values@, "text"@) is Some
        &&& spec_assoc(form.required_number_values@, "event_id"@) is Some
    }

    open spec fn built_ok(form: FormData, built: Self) -> bool {
        &&& (spec_assoc(form.required_text_values@, "title"@) matches Some(v) && built.title@
            == v@)
        &&& (spec_assoc(form.required_text_values@, "text"@) matches Some(v) && built.text@ == v@)
        &&& Some(built.event_id) == spec_assoc(form.required_number_values@, "event_id"@)
        &&& built.image_id == 0
    }

    fn from_form_data(form: FormData) -> (r: Result<Self, FormError>) {
        let title_key = String::from_str("title");
        let text_key = String::from_str("text");
        let event_key = String::from_str("event_id");
        let title = match assoc(&form.required_text_values, &title_key) {
            Some(v) => v.clone(),
            None => {
                return Err(FormError::MissingField(title_key));
            },
        };
        let text = match assoc(&form.required_text_values, &text_key) {
            Some(v) => v.clone(),
            None => {
                return Err(FormError::MissingField(text_key));
            },
        };
        let event_id = match assoc(&form.required_number_values, &event_key) {
            Some(v) => *v,
            None => {
                return Err(FormError::MissingField(event_key));
            },
        };
        Ok(NewProgram { title, text, event_id, image_id: 0 })
    }
}

impl NewProgram {
    /// Substitutes the stored image id once an upload returns one; without an
    /// upload the placeholder stays.
    pub fn with_image(self, image_id: Option<i32>) -> (r: NewProgram)
        ensures
            r.title == self.title,
            r.text == self.text,
            r.event_id == self.event_id,
            r.image_id == match image_id {
                Some(k) => k,
                None => 0i32,
            },
    {
        NewProgram {
            title: self.title,
            text: self.text,
            event_id: self.event_id,
            image_id: match image_id {
                Some(k) => k,
                None => 0,
            },
        }
    }
}

impl FormFields for UpdateProgram {
    open spec fn spec_optional_text_fields() -> Seq<Seq<char>> {
        seq!["title"@, "text"@]
    }

    open spec fn spec_has_image() -> bool {
        true
    }

    open spec fn spec_is_image_required() -> bool {
        false
    }

    fn get_required_text_fields() -> (r: Vec<String>) {
        no_fields()
    }

    fn get_optional_text_fields() -> (r: Vec<String>) {
        let mut r: Vec<String> = Vec::new();
        r.push(String::from_str("title"));
        r.push(String::from_str("text"));
        proof {
            assert(names_view(r@) =~= Self::spec_optional_text_fields());
        }
        r
    }

    fn get_required_number_fields() -> (r: Vec<String>) {
        no_fields()
    }

    fn get_optional_number_fields() -> (r: Vec<String>) {
        no_fields()
    }

    fn has_image() -> (r: bool) {
        true
    }

    fn is_image_required() -> (r: bool) {
        false
    }
}

impl FromFormData for UpdateProgram {
    open spec fn form_ready(form: FormData) -> bool {
        true
    }

    open spec fn built_ok(form: FormData, built: Self) -> bool {
        &&& opt_str_view(built.title) == spec_opt_text_value(form.optional_text_values@, "title"@)
        &&& opt_str_view(built.text) == spec_opt_text_value(form.optional_text_values@, "text"@)
        &&& built.image_id is None
    }

    fn from_form_data(form: FormData) -> (r: Result<Self, FormError>) {
        let title_key = String::from_str("title");
        let text_key = String::from_str("text");
        let title = match assoc(&form.optional_text_values, &title_key) {
            Some(o) => o.clone(),
            None => None,
        };
        let text = match assoc(&form.optional_text_values, &text_key) {
            Some(o) => o.clone(),
            None => None,
        };
        Ok(UpdateProgram { title, text, image_id: None })
    }
}

impl UpdateProgram {
    /// Records the image id to write: the freshly uploaded id when there is
    /// one, else clears it back to absent.
    pub fn with_image(self, image_id: Option<i32>) -> (r: UpdateProgram)
        ensures
            r.title == self.title,
            r.text == self.text,
            r.image_id == image_id,
    {
        UpdateProgram { title: self.title, text: self.text, image_id }
    }
}

} // verus!
