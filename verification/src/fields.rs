//! Field declarations: which text and numeric fields a form carries, and
//! whether an image part is expected or required.

use vstd::prelude::*;

verus! {

/// Largest image payload accepted from a multipart body, in bytes.
pub const MAX_IMAGE_SIZE: u64 = 30 * 1024 * 1024;

/// The raw image part extracted from a multipart body.
#[derive(Debug, Clone)]
pub struct ImageFormData {
    pub raw_data: Vec<u8>,
    pub file_name: Option<String>,
    pub content_type: Option<String>,
}

/// One entry of the allow-list handed to the multipart parser: a named text
/// field, or a raw field with a size cap restricted to `image/*` payloads.
#[derive(Debug, Clone)]
pub struct AllowedField {
    pub name: String,
    pub raw: bool,
    pub size_limit: Option<u64>,
}

pub open spec fn names_view(v: Seq<String>) -> Seq<Seq<char>> {
    v.map_values(|s: String| s@)
}

/// Per-entity declaration of form fields, exposed as four name lists and two
/// flags. The spec-level lists and flags default to an empty, imageless form,
/// so an entity states only what it uses; the getters return exactly them.
pub trait FormFields {
    open spec fn spec_required_text_fields() -> Seq<Seq<char>> {
        Seq::empty()
    }

    open spec fn spec_optional_text_fields() -> Seq<Seq<char>> {
        Seq::empty()
    }

    open spec fn spec_required_number_fields() -> Seq<Seq<char>> {
        Seq::empty()
    }

    open spec fn spec_optional_number_fields() -> Seq<Seq<char>> {
        Seq::empty()
    }

    open spec fn spec_has_image() -> bool {
        false
    }

    open spec fn spec_is_image_required() -> bool {
        true
    }

    fn get_required_text_fields() -> (r: Vec<String>)
        ensures
            names_view(r@) == Self::spec_required_text_fields(),
    ;

    fn get_optional_text_fields() -> (r: Vec<String>)
        ensures
            names_view(r@) == Self::spec_optional_text_fields(),
    ;

    fn get_required_number_fields() -> (r: Vec<String>)
        ensures
            names_view(r@) == Self::spec_required_number_fields(),
    ;

    fn get_optional_number_fields() -> (r: Vec<String>)
        ensures
            names_view(r@) == Self::spec_optional_number_fields(),
    ;

    fn has_image() -> (r: bool)
        ensures
            r == Self::spec_has_image(),
    ;

    fn is_image_required() -> (r: bool)
        ensures
            r == Self::spec_is_image_required(),
    ;
}

/// An empty name list, as entities whose declaration leaves a kind of field
/// unused return it.
pub fn no_fields() -> (r: Vec<String>)
    ensures
        names_view(r@) == Seq::<Seq<char>>::empty(),
{
    let r: Vec<String> = Vec::new();
    proof {
        assert(names_view(r@) =~= Seq::<Seq<char>>::empty());
    }
    r
}

/// A field declaration held as a value, so one decoder serves every entity.
#[derive(Debug, Clone)]
pub struct FormConfig {
    pub required_text_fields: Vec<String>,
    pub optional_text_fields: Vec<String>,
    pub required_number_fields: Vec<String>,
    pub optional_number_fields: Vec<String>,
    pub has_image: bool,
    pub is_image_required: bool,
}

impl Default for FormConfig {
    /// The declaration of a form with no fields at all: empty name lists, no
    /// image part; were an image declared, it would be required.
    fn default() -> (r: FormConfig)
        ensures
            r.required_text_fields@.len() == 0,
            r.optional_text_fields@.len() == 0,
            r.required_number_fields@.len() == 0,
            r.optional_number_fields@.len() == 0,
            !r.has_image,
            r.is_image_required,
    {
        FormConfig {
            required_text_fields: Vec::new(),
            optional_text_fields: Vec::new(),
            required_number_fields: Vec::new(),
            optional_number_fields: Vec::new(),
            has_image: false,
            is_image_required: true,
        }
    }
}

impl FormConfig {
    /// Collects an entity's declared fields into a configuration value.
    pub fn new<T: FormFields>() -> (r: FormConfig)
        ensures
            names_view(r.required_text_fields@) == T::spec_required_text_fields(),
            names_view(r.optional_text_fields@) == T::spec_optional_text_fields(),
            names_view(r.required_number_fields@) == T::spec_required_number_fields(),
            names_view(r.optional_number_fields@) == T::spec_optional_number_fields(),
            r.has_image == T::spec_has_image(),
            r.is_image_required == T::spec_is_image_required(),
    {
        FormConfig {
            required_text_fields: T::get_required_text_fields(),
            optional_text_fields: T::get_optional_text_fields(),
            required_number_fields: T::get_required_number_fields(),
            optional_number_fields: T::get_optional_number_fields(),
            has_image: T::has_image(),
            is_image_required: T::is_image_required(),
        }
    }

    /// How many fields the parser allow-list holds for this declaration.
    pub open spec fn spec_options_len(self) -> int {
        (if self.has_image {
            1int
        } else {
            0int
        }) + self.required_text_fields@.len() + self.optional_text_fields@.len()
            + self.required_number_fields@.len() + self.optional_number_fields@.len()
    }

    /// The names of all declared text fields, in declaration order.
    pub open spec fn spec_text_names(self) -> Seq<Seq<char>> {
        names_view(self.required_text_fields@) + names_view(self.optional_text_fields@)
            + names_view(self.required_number_fields@) + names_view(self.optional_number_fields@)
    }

    /// Position of the first text entry in the allow-list.
    pub open spec fn spec_base(self) -> int {
        if self.has_image {
            1int
        } else {
            0int
        }
    }

    /// What the allow-list must hold: a capped raw `image` entry when the
    /// declaration carries an image, then every declared text field name.
    pub open spec fn spec_options_ok(self, r: Seq<AllowedField>) -> bool {
        &&& r.len() == self.spec_options_len()
        &&& self.has_image ==> r[0].name@ == "image"@ && r[0].raw && r[0].size_limit == Some(
            MAX_IMAGE_SIZE,
        )
        &&& forall|i: int|
            #![trigger self.spec_text_names()[i]]
            0 <= i < self.spec_text_names().len()
                ==> {
                let f = r[i + self.spec_base()];
                f.name@ == self.spec_text_names()[i] && !f.raw && f.size_limit is None
            }
    }

    /// Builds the parser allow-list described by [`FormConfig::spec_options_ok`].
    pub fn get_options(&self) -> (r: Vec<AllowedField>)
        ensures
            self.spec_options_ok(r@),
    {
        let ghost names = self.spec_text_names();
        let mut r: Vec<AllowedField> = Vec::new();
        if self.has_image {
            r.push(AllowedField { name: String::from_str("image"), raw: true, size_limit: Some(
                MAX_IMAGE_SIZE,
            ) });
        }
        let ghost r0 = r@;
        let ghost base: int = if self.has_image {
            1int
        } else {
            0int
        };
        let ghost n1 = self.required_text_fields@.len() as int;
        let ghost n2 = self.optional_text_fields@.len() as int;
        let ghost n3 = self.required_number_fields@.len() as int;
        push_text_fields(&mut r, &self.required_text_fields);
        let ghost r1 = r@;
        push_text_fields(&mut r, &self.optional_text_fields);
        let ghost r2 = r@;
        push_text_fields(&mut r, &self.required_number_fields);
        let ghost r3 = r@;
        push_text_fields(&mut r, &self.optional_number_fields);
        proof {
            if self.has_image {
                assert(r0[0] == r1[0]);
                assert(r1[0] == r2[0]);
                assert(r2[0] == r3[0]);
                assert(r3[0] == r@[0]);
            }
            assert forall|i: int|
                #![trigger self.spec_text_names()[i]]
                0 <= i < names.len() implies {
                let f = r@[i + base];
                f.name@ == names[i] && !f.raw && f.size_limit is None
            } by {
                if i < n1 {
                    assert(r1[base + i] == r@[base + i]);
                    assert(r1[base + i].name@ == self.required_text_fields@[i]@);
                } else if i < n1 + n2 {
                    let j = i - n1;
                    assert(r2[r1.len() + j].name@ == self.optional_text_fields@[j]@);
                    assert(r2[base + i] == r@[base + i]);
                } else if i < n1 + n2 + n3 {
                    let j = i - n1 - n2;
                    assert(r3[r2.len() + j].name@ == self.required_number_fields@[j]@);
                    assert(r3[base + i] == r@[base + i]);
                } else {
                    let j = i - n1 - n2 - n3;
                    assert(r@[r3.len() + j].name@ == self.optional_number_fields@[j]@);
                }
            }
        }
        r
    }
}

/// Appends one plain text allow-list entry per name.
fn push_text_fields(r: &mut Vec<AllowedField>, names: &Vec<String>)
    ensures
        final(r)@.len() == old(r)@.len() + names@.len(),
        forall|i: int| 0 <= i < old(r)@.len() ==> final(r)@[i] == #[trigger] old(r)@[i],
        forall|i: int|
            0 <= i < names@.len()
                ==> {
                let f = #[trigger] final(r)@[old(r)@.len() + i];
                f.name@ == names@[i]@ && !f.raw && f.size_limit is None
            },
{
    let ghost orig = r@;
    let mut i: usize = 0;
    while i < names.len()
        invariant
            0 <= i <= names@.len(),
            r@.len() == orig.len() + i,
            forall|j: int| 0 <= j < orig.len() ==> r@[j] == #[trigger] orig[j],
            forall|j: int|
                0 <= j < i
                    ==> {
                    let f = #[trigger] r@[orig.len() + j];
                    f.name@ == names@[j]@ && !f.raw && f.size_limit is None
                },
        decreases names@.len() - i,
    {
        let name = names[i].clone();
        r.push(AllowedField { name, raw: false, size_limit: None });
        i = i + 1;
    }
}

} // verus!
