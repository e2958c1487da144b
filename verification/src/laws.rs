//! Laws of the form decoder, stated and proved over the decode model.

use vstd::prelude::*;

use crate::bag::{spec_first_raw, spec_first_text, RawFieldBag, TextEntry};
use crate::fields::{names_view, FormConfig, FormFields};
use crate::form_data::{
    image_view, num_pair_view, opt_num_pair_view, opt_text_pair_view, spec_assoc,
    spec_decode_error, spec_decoded, spec_fields_error, spec_missing_text, spec_opt_number_value,
    spec_optional_number_error, spec_required_number_error, text_pair_view, FormData,
    FormErrorModel, FromFormData,
};
use crate::gallery::NewGallery;
use crate::news::NewNews;
use crate::numbers::{spec_parse_i32, NumberError};
use crate::program::NewProgram;

verus! {

/// An optional numeric field fails only when present, non-empty and unparsable.
pub open spec fn opt_number_bad(texts: Seq<TextEntry>, name: Seq<char>) -> bool {
    spec_first_text(texts, name) matches Some(v) && v.len() > 0 && spec_parse_i32(v) is Err
}

/// What [`spec_missing_text`] reports: the name of a declared field that has
/// no value, and `None` exactly when every declared field has one.
pub proof fn lemma_missing_text_cases(texts: Seq<TextEntry>, names: Seq<String>)
    ensures
        match spec_missing_text(texts, names) {
            Some(m) => exists|i: int|
                0 <= i < names.len() && #[trigger] names[i]@ == m && spec_first_text(texts, m)
                    is None,
            None => forall|i: int|
                0 <= i < names.len() ==> spec_first_text(texts, #[trigger] names[i]@) is Some,
        },
    decreases names.len(),
{
    if names.len() > 0 {
        let tail = names.drop_first();
        lemma_missing_text_cases(texts, tail);
        if spec_first_text(texts, names[0]@) is None {
            assert(names[0]@ == names[0]@ && spec_first_text(texts, names[0]@) is None);
        } else {
            match spec_missing_text(texts, tail) {
                Some(m) => {
                    let i = choose|i: int|
                        0 <= i < tail.len() && #[trigger] tail[i]@ == m && spec_first_text(
                            texts,
                            m,
                        ) is None;
                    assert(names[i + 1]@ == m && spec_first_text(texts, m) is None);
                },
                None => {
                    assert forall|i: int|
                        0 <= i < names.len() implies spec_first_text(texts, #[trigger] names[i]@)
                        is Some by {
                        if i > 0 {
                            assert(tail[i - 1] == names[i]);
                        }
                    }
                },
            }
        }
    }
}

/// What [`spec_required_number_error`] reports: a declared numeric field that
/// is missing or unparsable, and `None` exactly when every declared numeric
/// field is present and parses.
pub proof fn lemma_required_number_cases(texts: Seq<TextEntry>, names: Seq<String>)
    ensures
        match spec_required_number_error(texts, names) {
            None => forall|i: int|
                0 <= i < names.len()
                    ==> (spec_first_text(texts, #[trigger] names[i]@) matches Some(v)
                    && spec_parse_i32(v) is Ok),
            Some(err) => match err {
                FormErrorModel::MissingField(m) => exists|i: int|
                    0 <= i < names.len() && #[trigger] names[i]@ == m && spec_first_text(texts, m)
                        is None,
                FormErrorModel::InvalidNumber(m, e) => exists|i: int|
                    0 <= i < names.len() && #[trigger] names[i]@ == m && (spec_first_text(texts, m)
                        matches Some(v) && spec_parse_i32(v) == Err::<i32, NumberError>(e)),
                FormErrorModel::MissingImage => false,
            },
        },
    decreases names.len(),
{
    if names.len() > 0 {
        let tail = names.drop_first();
        lemma_required_number_cases(texts, tail);
        match spec_first_text(texts, names[0]@) {
            None => {
                assert(names[0]@ == names[0]@ && spec_first_text(texts, names[0]@) is None);
            },
            Some(v) => match spec_parse_i32(v) {
                Err(e) => {
                    assert(names[0]@ == names[0]@ && (spec_first_text(texts, names[0]@)
                        matches Some(w) && spec_parse_i32(w) == Err::<i32, NumberError>(e)));
                },
                Ok(_) => {
                    match spec_required_number_error(texts, tail) {
                        None => {
                            assert forall|i: int|
                                0 <= i < names.len() implies (spec_first_text(
                                texts,
                                #[trigger] names[i]@,
                            ) matches Some(v) && spec_parse_i32(v) is Ok) by {
                                if i > 0 {
                                    assert(tail[i - 1] == names[i]);
                                }
                            }
                        },
                        Some(err) => match err {
                            FormErrorModel::MissingField(m) => {
                                let i = choose|i: int|
                                    0 <= i < tail.len() && #[trigger] tail[i]@ == m
                                        && spec_first_text(texts, m) is None;
                                assert(names[i + 1]@ == m);
                            },
                            FormErrorModel::InvalidNumber(m, e) => {
                                let i = choose|i: int|
                                    0 <= i < tail.len() && #[trigger] tail[i]@ == m
                                        && (spec_first_text(texts, m) matches Some(v)
                                        && spec_parse_i32(v) == Err::<i32, NumberError>(e));
                                assert(names[i + 1]@ == m);
                            },
                            FormErrorModel::MissingImage => {},
                        },
                    }
                },
            },
        }
    }
}

/// What [`spec_optional_number_error`] reports: a declared optional numeric
/// field that is present, non-empty and unparsable, and `None` exactly when
/// no declared optional numeric field is in that state.
pub proof fn lemma_optional_number_cases(texts: Seq<TextEntry>, names: Seq<String>)
    ensures
        match spec_optional_number_error(texts, names) {
            None => forall|i: int|
                0 <= i < names.len() ==> !opt_number_bad(texts, #[trigger] names[i]@),
            Some(err) => match err {
                FormErrorModel::InvalidNumber(m, e) => exists|i: int|
                    0 <= i < names.len() && #[trigger] names[i]@ == m && opt_number_bad(texts, m)
                        && (spec_first_text(texts, m) matches Some(v) && spec_parse_i32(v)
                        == Err::<i32, NumberError>(e)),
                _ => false,
            },
        },
    decreases names.len(),
{
    if names.len() > 0 {
        let tail = names.drop_first();
        lemma_optional_number_cases(texts, tail);
        let head_bad = opt_number_bad(texts, names[0]@);
        if head_bad {
            assert(names[0]@ == names[0]@ && opt_number_bad(texts, names[0]@));
        } else {
            match spec_optional_number_error(texts, tail) {
                None => {
                    assert forall|i: int|
                        0 <= i < names.len() implies !opt_number_bad(
                        texts,
                        #[trigger] names[i]@,
                    ) by {
                        if i > 0 {
                            assert(tail[i - 1] == names[i]);
                        }
                    }
                },
                Some(err) => match err {
                    FormErrorModel::InvalidNumber(m, e) => {
                        let i = choose|i: int|
                            0 <= i < tail.len() && #[trigger] tail[i]@ == m && opt_number_bad(
                                texts,
                                m,
                            ) && (spec_first_text(texts, m) matches Some(v) && spec_parse_i32(v)
                                == Err::<i32, NumberError>(e));
                        assert(names[i + 1]@ == m);
                    },
                    _ => {},
                },
            }
        }
    }
}

/// A declared required text field with no value makes decoding fail with a
/// missing-field error that names a declared, absent field.
pub proof fn lemma_missing_required_text_fails(bag: RawFieldBag, cfg: FormConfig, name: Seq<char>)
    requires
        exists|i: int|
            0 <= i < cfg.required_text_fields@.len() && #[trigger] cfg.required_text_fields@[i]@
                == name,
        spec_first_text(bag.texts@, name) is None,
    ensures
        spec_decode_error(bag, cfg) matches Some(FormErrorModel::MissingField(m))
            && spec_first_text(bag.texts@, m) is None && exists|i: int|
            0 <= i < cfg.required_text_fields@.len() && #[trigger] cfg.required_text_fields@[i]@
                == m,
{
    lemma_missing_text_cases(bag.texts@, cfg.required_text_fields@);
    match spec_missing_text(bag.texts@, cfg.required_text_fields@) {
        Some(m) => {},
        None => {
            let i = choose|i: int|
                0 <= i < cfg.required_text_fields@.len()
                    && #[trigger] cfg.required_text_fields@[i]@ == name;
            assert(spec_first_text(bag.texts@, cfg.required_text_fields@[i]@) is Some);
        },
    }
}

/// When all required text fields are present and all required numeric fields
/// are present, a required numeric field whose value does not parse makes
/// decoding fail with an invalid-value error naming a declared numeric field
/// whose value does not parse.
pub proof fn lemma_invalid_required_number_fails(bag: RawFieldBag, cfg: FormConfig, name: Seq<char>)
    requires
        forall|i: int|
            0 <= i < cfg.required_text_fields@.len() ==> spec_first_text(
                bag.texts@,
                #[trigger] cfg.required_text_fields@[i]@,
            ) is Some,
        forall|i: int|
            0 <= i < cfg.required_number_fields@.len() ==> spec_first_text(
                bag.texts@,
                #[trigger] cfg.required_number_fields@[i]@,
            ) is Some,
        exists|i: int|
            0 <= i < cfg.required_number_fields@.len() && #[trigger] cfg.required_number_fields@[i]@
                == name,
        spec_first_text(bag.texts@, name) matches Some(v) && spec_parse_i32(v) is Err,
    ensures
        spec_decode_error(bag, cfg) matches Some(FormErrorModel::InvalidNumber(m, e))
            && (spec_first_text(bag.texts@, m) matches Some(v) && spec_parse_i32(v) == Err::<
            i32,
            NumberError,
        >(e)) && exists|i: int|
            0 <= i < cfg.required_number_fields@.len() && #[trigger] cfg.required_number_fields@[i]@
                == m,
{
    lemma_missing_text_cases(bag.texts@, cfg.required_text_fields@);
    match spec_missing_text(bag.texts@, cfg.required_text_fields@) {
        Some(m) => {
            let i = choose|i: int|
                0 <= i < cfg.required_text_fields@.len()
                    && #[trigger] cfg.required_text_fields@[i]@ == m && spec_first_text(
                    bag.texts@,
                    m,
                ) is None;
            assert(spec_first_text(bag.texts@, cfg.required_text_fields@[i]@) is Some);
        },
        None => {},
    }
    lemma_required_number_cases(bag.texts@, cfg.required_number_fields@);
    match spec_required_number_error(bag.texts@, cfg.required_number_fields@) {
        None => {
            let i = choose|i: int|
                0 <= i < cfg.required_number_fields@.len()
                    && #[trigger] cfg.required_number_fields@[i]@ == name;
            assert(spec_first_text(bag.texts@, cfg.required_number_fields@[i]@) matches Some(v)
                && spec_parse_i32(v) is Ok);
        },
        Some(err) => match err {
            FormErrorModel::MissingField(m) => {
                let i = choose|i: int|
                    0 <= i < cfg.required_number_fields@.len()
                        && #[trigger] cfg.required_number_fields@[i]@ == m && spec_first_text(
                        bag.texts@,
                        m,
                    ) is None;
                assert(spec_first_text(bag.texts@, cfg.required_number_fields@[i]@) is Some);
            },
            _ => {},
        },
    }
}

/// An optional numeric field supplied as the empty string decodes to absent
/// and never makes decoding fail, provided no required numeric field carries
/// the same name.
pub proof fn lemma_empty_optional_number_is_absent(bag: RawFieldBag, cfg: FormConfig, name: Seq<char>)
    requires
        spec_first_text(bag.texts@, name) == Some(Seq::<char>::empty()),
        forall|i: int|
            0 <= i < cfg.required_number_fields@.len()
                ==> #[trigger] cfg.required_number_fields@[i]@ != name,
    ensures
        spec_opt_number_value(bag.texts@, name) is None,
        forall|e: NumberError|
            spec_decode_error(bag, cfg) != Some(FormErrorModel::InvalidNumber(name, e)),
{
    assert forall|e: NumberError|
        spec_decode_error(bag, cfg) != Some(FormErrorModel::InvalidNumber(name, e)) by {
        match spec_decode_error(bag, cfg) {
            Some(err) => match err {
                FormErrorModel::InvalidNumber(m, k) => {
                    if m == name {
                        lemma_required_number_cases(bag.texts@, cfg.required_number_fields@);
                        lemma_optional_number_cases(bag.texts@, cfg.optional_number_fields@);
                        match spec_required_number_error(bag.texts@, cfg.required_number_fields@) {
                            Some(rerr) => match rerr {
                                FormErrorModel::InvalidNumber(m2, _) => {
                                    if m2 == name {
                                        let i = choose|i: int|
                                            0 <= i < cfg.required_number_fields@.len()
                                                && #[trigger] cfg.required_number_fields@[i]@
                                                == m2;
                                        assert(false);
                                    }
                                },
                                _ => {},
                            },
                            None => {
                                match spec_optional_number_error(
                                    bag.texts@,
                                    cfg.optional_number_fields@,
                                ) {
                                    Some(oerr) => match oerr {
                                        FormErrorModel::InvalidNumber(m3, _) => {
                                            if m3 == name {
                                                assert(opt_number_bad(bag.texts@, name));
                                                assert(false);
                                            }
                                        },
                                        _ => {},
                                    },
                                    None => {},
                                }
                            },
                        }
                    }
                },
                _ => {},
            },
            None => {},
        }
    }
}

/// With an image declared but not required, an input without an image part
/// decodes successfully (given the field checks pass), and the decoded form
/// records the image as absent.
pub proof fn lemma_optional_image_absent_decodes(bag: RawFieldBag, cfg: FormConfig)
    requires
        cfg.has_image,
        !cfg.is_image_required,
        spec_first_raw(bag.raws@, "image"@) is None,
        spec_fields_error(bag, cfg) is None,
    ensures
        spec_decode_error(bag, cfg) is None,
        forall|form: FormData| #[trigger] spec_decoded(form, bag, cfg) ==> form.image_field is None,
{
}

/// With an image declared and required, an input without an image part never
/// decodes successfully.
pub proof fn lemma_required_image_absent_fails(bag: RawFieldBag, cfg: FormConfig)
    requires
        cfg.has_image,
        cfg.is_image_required,
        spec_first_raw(bag.raws@, "image"@) is None,
    ensures
        spec_decode_error(bag, cfg) is Some,
{
}

/// Round trip: a bag that supplies a value for every declared field (and an
/// image part where one is required) decodes successfully; the decoder's
/// contract then guarantees that every decoded map mirrors the supplied
/// values exactly, entry by entry ([`spec_decoded`]).
pub proof fn lemma_decode_round_trip(bag: RawFieldBag, cfg: FormConfig)
    requires
        forall|i: int|
            0 <= i < cfg.required_text_fields@.len() ==> spec_first_text(
                bag.texts@,
                #[trigger] cfg.required_text_fields@[i]@,
            ) is Some,
        forall|i: int|
            0 <= i < cfg.required_number_fields@.len()
                ==> (spec_first_text(bag.texts@, #[trigger] cfg.required_number_fields@[i]@)
                matches Some(v) && spec_parse_i32(v) is Ok),
        forall|i: int|
            0 <= i < cfg.optional_number_fields@.len() ==> !opt_number_bad(
                bag.texts@,
                #[trigger] cfg.optional_number_fields@[i]@,
            ),
        cfg.has_image && cfg.is_image_required ==> spec_first_raw(bag.raws@, "image"@) is Some,
    ensures
        spec_decode_error(bag, cfg) is None,
{
    lemma_missing_text_cases(bag.texts@, cfg.required_text_fields@);
    match spec_missing_text(bag.texts@, cfg.required_text_fields@) {
        Some(m) => {
            let i = choose|i: int|
                0 <= i < cfg.required_text_fields@.len()
                    && #[trigger] cfg.required_text_fields@[i]@ == m && spec_first_text(
                    bag.texts@,
                    m,
                ) is None;
            assert(spec_first_text(bag.texts@, cfg.required_text_fields@[i]@) is Some);
        },
        None => {},
    }
    lemma_required_number_cases(bag.texts@, cfg.required_number_fields@);
    match spec_required_number_error(bag.texts@, cfg.required_number_fields@) {
        Some(err) => match err {
            FormErrorModel::MissingField(m) => {
                let i = choose|i: int|
                    0 <= i < cfg.required_number_fields@.len()
                        && #[trigger] cfg.required_number_fields@[i]@ == m && spec_first_text(
                        bag.texts@,
                        m,
                    ) is None;
                assert(spec_first_text(bag.texts@, cfg.required_number_fields@[i]@) matches Some(
                    v,
                ) && spec_parse_i32(v) is Ok);
            },
            FormErrorModel::InvalidNumber(m, e) => {
                let i = choose|i: int|
                    0 <= i < cfg.required_number_fields@.len()
                        && #[trigger] cfg.required_number_fields@[i]@ == m && (spec_first_text(
                        bag.texts@,
                        m,
                    ) matches Some(v) && spec_parse_i32(v) == Err::<i32, NumberError>(e));
                assert(spec_first_text(bag.texts@, cfg.required_number_fields@[i]@) matches Some(
                    v,
                ) && spec_parse_i32(v) is Ok);
            },
            FormErrorModel::MissingImage => {},
        },
        None => {},
    }
    lemma_optional_number_cases(bag.texts@, cfg.optional_number_fields@);
    match spec_optional_number_error(bag.texts@, cfg.optional_number_fields@) {
        Some(err) => match err {
            FormErrorModel::InvalidNumber(m, e) => {
                let i = choose|i: int|
                    0 <= i < cfg.optional_number_fields@.len()
                        && #[trigger] cfg.optional_number_fields@[i]@ == m && opt_number_bad(
                        bag.texts@,
                        m,
                    );
                assert(!opt_number_bad(bag.texts@, cfg.optional_number_fields@[i]@));
            },
            _ => {},
        },
        None => {},
    }
}

/// A decoded map whose keys mirror a name list holds an entry for every name
/// in the list.
pub proof fn lemma_assoc_from_pointwise<T>(
    pairs: Seq<(String, T)>,
    keys: Seq<Seq<char>>,
    name: Seq<char>,
)
    requires
        pairs.len() == keys.len(),
        forall|i: int| 0 <= i < pairs.len() ==> (#[trigger] pairs[i]).0@ == keys[i],
        exists|i: int| 0 <= i < keys.len() && #[trigger] keys[i] == name,
    ensures
        spec_assoc(pairs, name) is Some,
    decreases pairs.len(),
{
    let w = choose|i: int| 0 <= i < keys.len() && #[trigger] keys[i] == name;
    if pairs[0].0@ != name {
        assert(w > 0);
        let tp = pairs.drop_first();
        let tk = keys.drop_first();
        assert(forall|i: int| 0 <= i < tp.len() ==> (#[trigger] tp[i]) == pairs[i + 1]);
        assert(tk[w - 1] == name);
        lemma_assoc_from_pointwise(tp, tk, name);
    }
}

/// A form decoded under the gallery create declaration is ready for the
/// gallery builder: it never fails on such a form.
pub proof fn lemma_new_gallery_builder_ready(form: FormData, bag: RawFieldBag, cfg: FormConfig)
    requires
        spec_decoded(form, bag, cfg),
        names_view(cfg.required_text_fields@) == NewGallery::spec_required_text_fields(),
    ensures
        NewGallery::form_ready(form),
{
    let keys = names_view(cfg.required_text_fields@);
    assert(NewGallery::spec_required_text_fields().len() == 1);
    assert(keys.len() == cfg.required_text_fields@.len());
    assert(cfg.required_text_fields@.len() == 1);
    assert forall|i: int| 0 <= i < cfg.required_text_fields@.len() implies #[trigger] keys[i]
        == cfg.required_text_fields@[i]@ by {}
    assert(keys[0] == "name"@);
    lemma_assoc_from_pointwise(
        form.required_text_values@,
        names_view(cfg.required_text_fields@),
        "name"@,
    );
}

/// A form decoded under the news create declaration is ready for the news
/// builder: it never fails on such a form.
pub proof fn lemma_new_news_builder_ready(form: FormData, bag: RawFieldBag, cfg: FormConfig)
    requires
        spec_decoded(form, bag, cfg),
        names_view(cfg.required_text_fields@) == NewNews::spec_required_text_fields(),
    ensures
        NewNews::form_ready(form),
{
    let keys = names_view(cfg.required_text_fields@);
    assert(NewNews::spec_required_text_fields().len() == 2);
    assert(keys.len() == cfg.required_text_fields@.len());
    assert(cfg.required_text_fields@.len() == 2);
    assert forall|i: int| 0 <= i < cfg.required_text_fields@.len() implies #[trigger] keys[i]
        == cfg.required_text_fields@[i]@ by {}
    assert(keys[0] == "title"@ && keys[1] == "message"@);
    lemma_assoc_from_pointwise(
        form.required_text_values@,
        names_view(cfg.required_text_fields@),
        "title"@,
    );
    lemma_assoc_from_pointwise(
        form.required_text_values@,
        names_view(cfg.required_text_fields@),
        "message"@,
    );
}

/// A form decoded under the program create declaration is ready for the
/// program builder: it never fails on such a form.
pub proof fn lemma_new_program_builder_ready(form: FormData, bag: RawFieldBag, cfg: FormConfig)
    requires
        spec_decoded(form, bag, cfg),
        names_view(cfg.required_text_fields@) == NewProgram::spec_required_text_fields(),
        names_view(cfg.required_number_fields@) == NewProgram::spec_required_number_fields(),
    ensures
        NewProgram::form_ready(form),
{
    let keys = names_view(cfg.required_text_fields@);
    let nkeys = names_view(cfg.required_number_fields@);
    assert(NewProgram::spec_required_text_fields().len() == 2);
    assert(NewProgram::spec_required_number_fields().len() == 1);
    assert(keys.len() == cfg.required_text_fields@.len());
    assert(nkeys.len() == cfg.required_number_fields@.len());
    assert(cfg.required_text_fields@.len() == 2);
    assert(cfg.required_number_fields@.len() == 1);
    assert forall|i: int| 0 <= i < cfg.required_text_fields@.len() implies #[trigger] keys[i]
        == cfg.required_text_fields@[i]@ by {}
    assert forall|i: int| 0 <= i < cfg.required_number_fields@.len() implies #[trigger] nkeys[i]
        == cfg.required_number_fields@[i]@ by {}
    assert(keys[0] == "title"@ && keys[1] == "text"@);
    assert(nkeys[0] == "event_id"@);
    lemma_assoc_from_pointwise(
        form.required_text_values@,
        names_view(cfg.required_text_fields@),
        "title"@,
    );
    lemma_assoc_from_pointwise(
        form.required_text_values@,
        names_view(cfg.required_text_fields@),
        "text"@,
    );
    lemma_assoc_from_pointwise(
        form.required_number_values@,
        names_view(cfg.required_number_fields@),
        "event_id"@,
    );
}

/// Decoding is a function of the bag and the declaration: any two forms
/// decoded from the same bag under the same declaration hold the same text
/// in every map, and the same image content.
pub proof fn lemma_decode_deterministic(
    f1: FormData,
    f2: FormData,
    bag: RawFieldBag,
    cfg: FormConfig,
)
    requires
        spec_decoded(f1, bag, cfg),
        spec_decoded(f2, bag, cfg),
    ensures
        f1.required_text_values@.map_values(|p: (String, String)| text_pair_view(p))
            == f2.required_text_values@.map_values(|p: (String, String)| text_pair_view(p)),
        f1.optional_text_values@.map_values(|p: (String, Option<String>)| opt_text_pair_view(p))
            == f2.optional_text_values@.map_values(
            |p: (String, Option<String>)| opt_text_pair_view(p),
        ),
        f1.required_number_values@.map_values(|p: (String, i32)| num_pair_view(p))
            == f2.required_number_values@.map_values(|p: (String, i32)| num_pair_view(p)),
        f1.optional_number_values@.map_values(|p: (String, Option<i32>)| opt_num_pair_view(p))
            == f2.optional_number_values@.map_values(
            |p: (String, Option<i32>)| opt_num_pair_view(p),
        ),
        image_view(f1.image_field) == image_view(f2.image_field),
{
    assert(f1.required_text_values@.map_values(|p: (String, String)| text_pair_view(p))
        =~= f2.required_text_values@.map_values(|p: (String, String)| text_pair_view(p)));
    assert(f1.optional_text_values@.map_values(|p: (String, Option<String>)| opt_text_pair_view(p))
        =~= f2.optional_text_values@.map_values(
        |p: (String, Option<String>)| opt_text_pair_view(p),
    ));
    assert(f1.required_number_values@.map_values(|p: (String, i32)| num_pair_view(p))
        =~= f2.required_number_values@.map_values(|p: (String, i32)| num_pair_view(p)));
    assert(f1.optional_number_values@.map_values(|p: (String, Option<i32>)| opt_num_pair_view(p))
        =~= f2.optional_number_values@.map_values(
        |p: (String, Option<i32>)| opt_num_pair_view(p),
    ));
}

} // verus!
