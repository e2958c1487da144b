//! The form decoder: checks a raw field bag against a field declaration and
//! produces the neutral decoded representation that entity builders consume.
//!
//! Decoding is fail-fast: fields are checked in declaration order (required
//! text, optional text, required numbers, optional numbers, image) and the
//! first failing check decides the error.

use vstd::prelude::*;

use crate::bag::{
    image_of_entry, opt_str_view, spec_first_raw, spec_first_text, RawFieldBag, TextEntry,
};
use crate::errors::FormError;
use crate::fields::{FormConfig, ImageFormData};
use crate::numbers::{parse_i32, spec_parse_i32, NumberError};

verus! {

/// The decoded form: one entry per declared field, in declaration order,
/// plus the image part when one was supplied.
#[derive(Debug)]
pub struct FormData {
    pub required_text_values: Vec<(String, String)>,
    pub optional_text_values: Vec<(String, Option<String>)>,
    pub required_number_values: Vec<(String, i32)>,
    pub optional_number_values: Vec<(String, Option<i32>)>,
    pub image_field: Option<ImageFormData>,
}

/// A decode failure, stated over character sequences.
pub enum FormErrorModel {
    MissingField(Seq<char>),
    InvalidNumber(Seq<char>, NumberError),
    MissingImage,
}

/// The failure an exec [`FormError`] stands for.
pub open spec fn err_view(e: FormError) -> FormErrorModel {
    match e {
        FormError::MissingField(name) => FormErrorModel::MissingField(name@),
        FormError::InvalidNumber(name, k) => FormErrorModel::InvalidNumber(name@, k),
        FormError::MissingImage => FormErrorModel::MissingImage,
    }
}

/// The first declared required text field with no value in the bag.
pub open spec fn spec_missing_text(texts: Seq<TextEntry>, names: Seq<String>) -> Option<Seq<char>>
    decreases names.len(),
{
    if names.len() == 0 {
        None
    } else if spec_first_text(texts, names[0]@) is None {
        Some(names[0]@)
    } else {
        spec_missing_text(texts, names.drop_first())
    }
}

/// The first failure among declared required numeric fields: a missing value,
/// or a value that is not a decimal `i32`.
pub open spec fn spec_required_number_error(texts: Seq<TextEntry>, names: Seq<String>) -> Option<
    FormErrorModel,
>
    decreases names.len(),
{
    if names.len() == 0 {
        None
    } else {
        match spec_first_text(texts, names[0]@) {
            None => Some(FormErrorModel::MissingField(names[0]@)),
            Some(v) => match spec_parse_i32(v) {
                Err(e) => Some(FormErrorModel::InvalidNumber(names[0]@, e)),
                Ok(_) => spec_required_number_error(texts, names.drop_first()),
            },
        }
    }
}

/// The first failure among declared optional numeric fields: a value that is
/// present, not empty, and not a decimal `i32`. Absent or empty is no failure.
pub open spec fn spec_optional_number_error(texts: Seq<TextEntry>, names: Seq<String>) -> Option<
    FormErrorModel,
>
    decreases names.len(),
{
    if names.len() == 0 {
        None
    } else {
        match spec_first_text(texts, names[0]@) {
            None => spec_optional_number_error(texts, names.drop_first()),
            Some(v) => if v.len() == 0 {
                spec_optional_number_error(texts, names.drop_first())
            } else {
                match spec_parse_i32(v) {
                    Err(e) => Some(FormErrorModel::InvalidNumber(names[0]@, e)),
                    Ok(_) => spec_optional_number_error(texts, names.drop_first()),
                }
            },
        }
    }
}

/// The first failing field check, before the image is considered.
pub open spec fn spec_fields_error(bag: RawFieldBag, cfg: FormConfig) -> Option<FormErrorModel> {
    match spec_missing_text(bag.texts@, cfg.required_text_fields@) {
        Some(name) => Some(FormErrorModel::MissingField(name)),
        None => match spec_required_number_error(bag.texts@, cfg.required_number_fields@) {
            Some(e) => Some(e),
            None => spec_optional_number_error(bag.texts@, cfg.optional_number_fields@),
        },
    }
}

/// The decode outcome: the first failing check in declaration order, or
/// `None` when decoding succeeds.
pub open spec fn spec_decode_error(bag: RawFieldBag, cfg: FormConfig) -> Option<FormErrorModel> {
    match spec_fields_error(bag, cfg) {
        Some(e) => Some(e),
        None => if cfg.has_image && cfg.is_image_required && spec_first_raw(bag.raws@, "image"@)
            is None {
            Some(FormErrorModel::MissingImage)
        } else {
            None
        },
    }
}

/// What an optional numeric field decodes to: absent when missing or empty,
/// else its parsed value.
pub open spec fn spec_opt_number_value(texts: Seq<TextEntry>, name: Seq<char>) -> Option<i32> {
    match spec_first_text(texts, name) {
        None => None,
        Some(v) => if v.len() == 0 {
            None
        } else {
            match spec_parse_i32(v) {
                Ok(k) => Some(k),
                Err(_) => None,
            }
        },
    }
}

pub open spec fn req_text_decoded(form: FormData, texts: Seq<TextEntry>, names: Seq<String>) -> bool {
    &&& form.required_text_values@.len() == names.len()
    &&& forall|i: int|
        0 <= i < names.len()
            ==> {
            let p = #[trigger] form.required_text_values@[i];
            p.0@ == names[i]@ && Some(p.1@) == spec_first_text(texts, names[i]@)
        }
}

pub open spec fn opt_text_decoded(form: FormData, texts: Seq<TextEntry>, names: Seq<String>) -> bool {
    &&& form.optional_text_values@.len() == names.len()
    &&& forall|i: int|
        0 <= i < names.len()
            ==> {
            let p = #[trigger] form.optional_text_values@[i];
            p.0@ == names[i]@ && opt_str_view(p.1) == spec_first_text(texts, names[i]@)
        }
}

pub open spec fn req_number_decoded(form: FormData, texts: Seq<TextEntry>, names: Seq<String>) -> bool {
    &&& form.required_number_values@.len() == names.len()
    &&& forall|i: int|
        0 <= i < names.len()
            ==> {
            let p = #[trigger] form.required_number_values@[i];
            p.0@ == names[i]@ && (spec_first_text(texts, names[i]@) matches Some(v)
                && spec_parse_i32(v) == Ok::<i32, NumberError>(p.1))
        }
}

pub open spec fn opt_number_decoded(form: FormData, texts: Seq<TextEntry>, names: Seq<String>) -> bool {
    &&& form.optional_number_values@.len() == names.len()
    &&& forall|i: int|
        0 <= i < names.len()
            ==> {
            let p = #[trigger] form.optional_number_values@[i];
            p.0@ == names[i]@ && p.1 == spec_opt_number_value(texts, names[i]@)
        }
}

/// The decoded image: the bag's image part when the declaration carries an
/// image and one was supplied, absent otherwise.
pub open spec fn image_decoded(form: FormData, bag: RawFieldBag, cfg: FormConfig) -> bool {
    if cfg.has_image {
        match spec_first_raw(bag.raws@, "image"@) {
            Some(e) => form.image_field matches Some(img) && image_of_entry(img, e),
            None => form.image_field is None,
        }
    } else {
        form.image_field is None
    }
}

/// Full correctness of a decoded form with respect to bag and declaration:
/// every map mirrors the declaration pointwise.
pub open spec fn spec_decoded(form: FormData, bag: RawFieldBag, cfg: FormConfig) -> bool {
    &&& req_text_decoded(form, bag.texts@, cfg.required_text_fields@)
    &&& opt_text_decoded(form, bag.texts@, cfg.optional_text_fields@)
    &&& req_number_decoded(form, bag.texts@, cfg.required_number_fields@)
    &&& opt_number_decoded(form, bag.texts@, cfg.optional_number_fields@)
    &&& image_decoded(form, bag, cfg)
}

/// Decodes a parsed multipart body against a field declaration.
///
/// Succeeds exactly when no declared check fails ([`spec_decode_error`] is
/// `None`), and then returns a form satisfying [`spec_decoded`]; otherwise
/// returns the first failing check's error.
#[verifier::loop_isolation(false)]
pub fn decode(bag: &RawFieldBag, config: &FormConfig) -> (r: Result<FormData, FormError>)
    ensures
        match r {
            Ok(form) => spec_decode_error(*bag, *config) is None && spec_decoded(
                form,
                *bag,
                *config,
            ),
            Err(e) => spec_decode_error(*bag, *config) == Some(err_view(e)),
        },
{
    let ghost tseq = bag.texts@;

    // Required text fields: each must carry a value.
    let rt = &config.required_text_fields;
    let mut required_text_values: Vec<(String, String)> = Vec::new();
    let mut i: usize = 0;
    proof {
        assert(rt@.skip(0) =~= rt@);
    }
    while i < rt.len()
        invariant
            0 <= i <= rt@.len(),
            spec_missing_text(tseq, rt@.skip(i as int)) == spec_missing_text(tseq, rt@),
            required_text_values@.len() == i,
            forall|j: int|
                0 <= j < i
                    ==> {
                    let p = #[trigger] required_text_values@[j];
                    p.0@ == rt@[j]@ && Some(p.1@) == spec_first_text(tseq, rt@[j]@)
                },
        decreases rt@.len() - i,
    {
        let name = &rt[i];
        proof {
            assert(rt@.skip(i as int)[0] == rt@[i as int]);
            assert(rt@.skip(i as int).drop_first() =~= rt@.skip(i as int + 1));
        }
        match bag.first_text(name) {
            Some(v) => required_text_values.push((name.clone(), v.clone())),
            None => {
                return Err(FormError::MissingField(name.clone()));
            },
        }
        i = i + 1;
    }
    proof {
        assert(rt@.skip(rt@.len() as int) =~= Seq::<String>::empty());
        assert(spec_missing_text(tseq, rt@) is None);
    }

    // Optional text fields: stored present-or-absent, never a failure.
    let ot = &config.optional_text_fields;
    let mut optional_text_values: Vec<(String, Option<String>)> = Vec::new();
    let mut i: usize = 0;
    while i < ot.len()
        invariant
            0 <= i <= ot@.len(),
            optional_text_values@.len() == i,
            forall|j: int|
                0 <= j < i
                    ==> {
                    let p = #[trigger] optional_text_values@[j];
                    p.0@ == ot@[j]@ && opt_str_view(p.1) == spec_first_text(tseq, ot@[j]@)
                },
        decreases ot@.len() - i,
    {
        let name = &ot[i];
        let value = match bag.first_text(name) {
            Some(v) => Some(v.clone()),
            None => None,
        };
        optional_text_values.push((name.clone(), value));
        i = i + 1;
    }

    // Required numeric fields: each must carry a value that parses.
    let rn = &config.required_number_fields;
    let mut required_number_values: Vec<(String, i32)> = Vec::new();
    let mut i: usize = 0;
    proof {
        assert(rn@.skip(0) =~= rn@);
    }
    while i < rn.len()
        invariant
            0 <= i <= rn@.len(),
            spec_required_number_error(tseq, rn@.skip(i as int)) == spec_required_number_error(
                tseq,
                rn@,
            ),
            required_number_values@.len() == i,
            forall|j: int|
                0 <= j < i
                    ==> {
                    let p = #[trigger] required_number_values@[j];
                    p.0@ == rn@[j]@ && (spec_first_text(tseq, rn@[j]@) matches Some(v)
                        && spec_parse_i32(v) == Ok::<i32, NumberError>(p.1))
                },
        decreases rn@.len() - i,
    {
        let name = &rn[i];
        proof {
            assert(rn@.skip(i as int)[0] == rn@[i as int]);
            assert(rn@.skip(i as int).drop_first() =~= rn@.skip(i as int + 1));
        }
        match bag.first_text(name) {
            Some(v) => match parse_i32(v.as_str()) {
                Ok(k) => {
                    required_number_values.push((name.clone(), k));
                    proof {
                        assert(required_number_values@[i as int].0@ == rn@[i as int]@);
                        assert(spec_first_text(tseq, rn@[i as int]@) == Some(v@));
                        assert(spec_parse_i32(v@) == Ok::<i32, NumberError>(
                            required_number_values@[i as int].1));
                    }
                },
                Err(e) => {
                    return Err(FormError::InvalidNumber(name.clone(), e));
                },
            },
            None => {
                return Err(FormError::MissingField(name.clone()));
            },
        }
        i = i + 1;
    }
    proof {
        assert(rn@.skip(rn@.len() as int) =~= Seq::<String>::empty());
        assert(spec_required_number_error(tseq, rn@) is None);
    }

    // Optional numeric fields: absent or empty is absent, a non-empty value
    // must parse.
    let on = &config.optional_number_fields;
    let mut optional_number_values: Vec<(String, Option<i32>)> = Vec::new();
    let mut i: usize = 0;
    proof {
        assert(on@.skip(0) =~= on@);
    }
    while i < on.len()
        invariant
            0 <= i <= on@.len(),
            spec_optional_number_error(tseq, on@.skip(i as int)) == spec_optional_number_error(
                tseq,
                on@,
            ),
            optional_number_values@.len() == i,
            forall|j: int|
                0 <= j < i
                    ==> {
                    let p = #[trigger] optional_number_values@[j];
                    p.0@ == on@[j]@ && p.1 == spec_opt_number_value(tseq, on@[j]@)
                },
        decreases on@.len() - i,
    {
        let name = &on[i];
        proof {
            assert(on@.skip(i as int)[0] == on@[i as int]);
            assert(on@.skip(i as int).drop_first() =~= on@.skip(i as int + 1));
        }
        let value = match bag.first_text(name) {
            Some(v) => {
                if v.as_str().unicode_len() == 0 {
                    None
                } else {
                    match parse_i32(v.as_str()) {
                        Ok(k) => Some(k),
                        Err(e) => {
                            return Err(FormError::InvalidNumber(name.clone(), e));
                        },
                    }
                }
            },
            None => None,
        };
        optional_number_values.push((name.clone(), value));
        i = i + 1;
    }
    proof {
        assert(on@.skip(on@.len() as int) =~= Seq::<String>::empty());
        assert(spec_optional_number_error(tseq, on@) is None);
    }

    // The image part: required, tolerated, or not declared at all.
    let image_field: Option<ImageFormData> = if config.has_image {
        match bag.image_field() {
            Some(img) => Some(img),
            None => {
                if config.is_image_required {
                    return Err(FormError::MissingImage);
                }
                None
            },
        }
    } else {
        None
    };

    Ok(FormData {
        required_text_values,
        optional_text_values,
        required_number_values,
        optional_number_values,
        image_field,
    })
}

/// First value stored under `name` in a decoded map, if any.
pub open spec fn spec_assoc<T>(pairs: Seq<(String, T)>, name: Seq<char>) -> Option<T>
    decreases pairs.len(),
{
    if pairs.len() == 0 {
        None
    } else if pairs[0].0@ == name {
        Some(pairs[0].1)
    } else {
        spec_assoc(pairs.drop_first(), name)
    }
}

pub open spec fn text_pair_view(p: (String, String)) -> (Seq<char>, Seq<char>) {
    (p.0@, p.1@)
}

pub open spec fn opt_text_pair_view(p: (String, Option<String>)) -> (Seq<char>, Option<Seq<char>>) {
    (p.0@, opt_str_view(p.1))
}

pub open spec fn num_pair_view(p: (String, i32)) -> (Seq<char>, i32) {
    (p.0@, p.1)
}

pub open spec fn opt_num_pair_view(p: (String, Option<i32>)) -> (Seq<char>, Option<i32>) {
    (p.0@, p.1)
}

/// The text content of a decoded image part.
pub open spec fn image_view(o: Option<ImageFormData>) -> Option<
    (Seq<u8>, Option<Seq<char>>, Option<Seq<char>>),
> {
    match o {
        None => None,
        Some(img) => Some(
            (img.raw_data@, opt_str_view(img.file_name), opt_str_view(img.content_type)),
        ),
    }
}

/// Optional-text value stored under `name`: absent when the key is absent or
/// holds no value.
pub open spec fn spec_opt_text_value(pairs: Seq<(String, Option<String>)>, name: Seq<char>) -> Option<
    Seq<char>,
> {
    match spec_assoc(pairs, name) {
        None => None,
        Some(o) => opt_str_view(o),
    }
}

/// Builds a typed entity payload from a decoded form.
///
/// `form_ready` says when the decoded form carries everything the entity
/// needs (the decoder guarantees it whenever the entity's own declaration was
/// used); `built_ok` pins the payload built from a ready form.
pub trait FromFormData: Sized {
    spec fn form_ready(form: FormData) -> bool;

    spec fn built_ok(form: FormData, built: Self) -> bool;

    fn from_form_data(form: FormData) -> (r: Result<Self, FormError>)
        ensures
            Self::form_ready(form) ==> (r matches Ok(b) && Self::built_ok(form, b)),
            !Self::form_ready(form) ==> r is Err,
    ;
}

/// Looks a name up in a decoded map, first entry wins.
#[verifier::loop_isolation(false)]
pub fn assoc<'a, T>(pairs: &'a Vec<(String, T)>, name: &String) -> (r: Option<&'a T>)
    ensures
        match r {
            Some(v) => spec_assoc(pairs@, name@) == Some(*v),
            None => spec_assoc(pairs@, name@) is None,
        },
{
    let n = pairs.len();
    let mut i: usize = 0;
    proof {
        assert(pairs@.skip(0) =~= pairs@);
    }
    while i < n
        invariant
            0 <= i <= n,
            spec_assoc(pairs@.skip(i as int), name@) == spec_assoc(pairs@, name@),
        decreases n - i,
    {
        proof {
            assert(pairs@.skip(i as int)[0] == pairs@[i as int]);
            assert(pairs@.skip(i as int).drop_first() =~= pairs@.skip(i as int + 1));
        }
        if pairs[i].0 == *name {
            return Some(&pairs[i].1);
        }
        i = i + 1;
    }
    proof {
        assert(pairs@.skip(n as int) =~= Seq::<(String, T)>::empty());
    }
    None
}

} // verus!
