//! Gallery payloads and their form declaration.

use vstd::prelude::*;
use vstd::string::StringExecFns;

use crate::bag::opt_str_view;
use crate::errors::FormError;
use crate::fields::{names_view, no_fields, FormFields};
use crate::form_data::{assoc, spec_assoc, spec_opt_text_value, FormData, FromFormData};

verus! {

/// Payload creating a gallery; the featured image id starts as the `0`
/// placeholder until an upload supplies the real id.
#[derive(Debug)]
pub struct NewGallery {
    pub name: String,
    pub featured_image_id: i32,
}

/// Payload updating a gallery; an absent field leaves its column unchanged.
#[derive(Debug)]
pub struct UpdateGallery {
    pub name: Option<String>,
    pub featured_image_id: Option<i32>,
}

impl FormFields for NewGallery {
    open spec fn spec_required_text_fields() -> Seq<Seq<char>> {
        seq!["name"@]
    }

    open spec fn spec_has_image() -> bool {
        true
    }

    fn get_required_text_fields() -> (r: Vec<String>) {
        let mut r: Vec<String> = Vec::new();
        r.push(String::from_str("name"));
        proof {
            assert(names_view(r@) =~= Self::spec_required_text_fields());
        }
        r
    }

    fn get_optional_text_fields() -> (r: Vec<String>) {
        no_fields()
    }

    fn get_required_number_fields() -> (r: Vec<String>) {
        no_fields()
    }

    fn get_optional_number_fields() -> (r: Vec<String>) {
        no_fields()
    }

    fn has_image() -> (r: bool) {
        true
    }

    fn is_image_required() -> (r: bool) {
        true
    }
}

impl FromFormData for NewGallery {
    open spec fn form_ready(form: FormData) -> bool {
        spec_assoc(form.required_text_values@, "name"@) is Some
    }

    open spec fn built_ok(form: FormData, built: Self) -> bool {
        &&& (spec_assoc(form.required_text_values@, "name"@) matches Some(v) && built.name@ == v@)
        &&& built.featured_image_id == 0
    }

    fn from_form_data(form: FormData) -> (r: Result<Self, FormError>) {
        let key = String::from_str("name");
        match assoc(&form.required_text_values, &key) {
            Some(v) => Ok(NewGallery { name: v.clone(), featured_image_id: 0 }),
            None => Err(FormError::MissingField(key)),
        }
    }
}

impl NewGallery {
    /// Substitutes the stored image id once an upload returns one; without an
    /// upload the placeholder stays.
    pub fn with_featured_image(self, image_id: Option<i32>) -> (r: NewGallery)
        ensures
            r.name == self.name,
            r.featured_image_id == match image_id {
                Some(k) => k,
                None => 0i32,
            },
    {
        NewGallery {
            name: self.name,
            featured_image_id: match image_id {
                Some(k) => k,
                None => 0,
            },
        }
    }
}

impl FormFields for UpdateGallery {
    open spec fn spec_optional_text_fields() -> Seq<Seq<char>> {
        seq!["name"@]
    }

    open spec fn spec_has_image() -> bool {
        true
    }

    open spec fn spec_is_image_required() -> bool {
        false
    }

    fn get_required_text_fields() -> (r: Vec<String>) {
        no_fields()
    }

    fn get_optional_text_fields() -> (r: Vec<String>) {
        let mut r: Vec<String> = Vec::new();
        r.push(String::from_str("name"));
        proof {
            assert(names_view(r@) =~= Self::spec_optional_text_fields());
        }
        r
    }

    fn get_required_number_fields() -> (r: Vec<String>) {
        no_fields()
    }

    fn get_optional_number_fields() -> (r: Vec<String>) {
        no_fields()
    }

    fn has_image() -> (r: bool) {
        true
    }

    fn is_image_required() -> (r: bool) {
        false
    }
}

impl FromFormData for UpdateGallery {
    open spec fn form_ready(form: FormData) -> bool {
        true
    }

    open spec fn built_ok(form: FormData, built: Self) -> bool {
        &&& opt_str_view(built.name) == spec_opt_text_value(
            form.optional_text_values@,
            "name"@,
        )
        &&& built.featured_image_id is None
    }

    fn from_form_data(form: FormData) -> (r: Result<Self, FormError>) {
        let key = String::from_str("name");
        let name = match assoc(&form.optional_text_values, &key) {
            Some(o) => o.clone(),
            None => None,
        };
        Ok(UpdateGallery { name, featured_image_id: None })
    }
}

impl UpdateGallery {
    /// Records a freshly uploaded image id; without one the image column is
    /// left unchanged.
    pub fn with_featured_image(self, image_id: Option<i32>) -> (r: UpdateGallery)
        ensures
            r.name == self.name,
            r.featured_image_id == match image_id {
                Some(k) => Some(k),
                None => self.featured_image_id,
            },
    {
        match image_id {
            Some(k) => UpdateGallery { name: self.name, featured_image_id: Some(k) },
            None => self,
        }
    }
}

} // verus!
