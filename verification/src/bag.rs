//! The raw field bag: what a multipart body parses into, before decoding.
//!
//! Entries keep body order, and a lookup returns the first entry carrying the
//! requested name, so duplicated field names resolve to the first occurrence.

use vstd::prelude::*;
use vstd::string::StringExecFns;

use crate::fields::ImageFormData;

verus! {

/// One text part of a multipart body: a field name and its text value.
#[derive(Debug, Clone)]
pub struct TextEntry {
    pub name: String,
    pub value: String,
}

/// One raw (binary) part of a multipart body.
#[derive(Debug, Clone)]
pub struct RawEntry {
    pub name: String,
    pub data: Vec<u8>,
    pub file_name: Option<String>,
    pub content_type: Option<String>,
}

/// Every part of one parsed multipart body, in body order.
#[derive(Debug, Clone)]
pub struct RawFieldBag {
    pub texts: Vec<TextEntry>,
    pub raws: Vec<RawEntry>,
}

/// The first text value carried under `name`, if any.
pub open spec fn spec_first_text(texts: Seq<TextEntry>, name: Seq<char>) -> Option<Seq<char>>
    decreases texts.len(),
{
    if texts.len() == 0 {
        None
    } else if texts[0].name@ == name {
        Some(texts[0].value@)
    } else {
        spec_first_text(texts.drop_first(), name)
    }
}

/// The first raw entry carried under `name`, if any.
pub open spec fn spec_first_raw(raws: Seq<RawEntry>, name: Seq<char>) -> Option<RawEntry>
    decreases raws.len(),
{
    if raws.len() == 0 {
        None
    } else if raws[0].name@ == name {
        Some(raws[0])
    } else {
        spec_first_raw(raws.drop_first(), name)
    }
}

/// View of an optional string, for stating contracts about cloned fields.
pub open spec fn opt_str_view(o: Option<String>) -> Option<Seq<char>> {
    match o {
        Some(s) => Some(s@),
        None => None,
    }
}

/// Whether `img` carries the same content as raw entry `e`.
pub open spec fn image_of_entry(img: ImageFormData, e: RawEntry) -> bool {
    &&& img.raw_data@ == e.data@
    &&& opt_str_view(img.file_name) == opt_str_view(e.file_name)
    &&& opt_str_view(img.content_type) == opt_str_view(e.content_type)
}

impl RawFieldBag {
    /// An empty bag, to be filled in body order.
    pub fn new() -> (r: RawFieldBag)
        ensures
            r.texts@.len() == 0,
            r.raws@.len() == 0,
    {
        RawFieldBag { texts: Vec::new(), raws: Vec::new() }
    }

    /// Appends one text part.
    pub fn push_text(&mut self, name: String, value: String)
        ensures
            final(self).texts@ == old(self).texts@.push(
                TextEntry { name: name, value: value },
            ),
            final(self).raws@ == old(self).raws@,
    {
        self.texts.push(TextEntry { name, value });
    }

    /// Appends one raw part.
    pub fn push_raw(&mut self, entry: RawEntry)
        ensures
            final(self).raws@ == old(self).raws@.push(entry),
            final(self).texts@ == old(self).texts@,
    {
        self.raws.push(entry);
    }

    /// First text value under `name`, as body order has it.
    pub fn first_text(&self, name: &String) -> (r: Option<&String>)
        ensures
            match r {
                Some(v) => spec_first_text(self.texts@, name@) == Some(v@),
                None => spec_first_text(self.texts@, name@) is None,
            },
    {
        let n = self.texts.len();
        let mut i: usize = 0;
        proof {
            assert(self.texts@.skip(0) =~= self.texts@);
        }
        while i < n
            invariant
                0 <= i <= n,
                n == self.texts@.len(),
                spec_first_text(self.texts@.skip(i as int), name@) == spec_first_text(
                    self.texts@,
                    name@,
                ),
            decreases n - i,
        {
            proof {
                assert(self.texts@.skip(i as int)[0] == self.texts@[i as int]);
            }
            if self.texts[i].name == *name {
                return Some(&self.texts[i].value);
            }
            proof {
                assert(self.texts@.skip(i as int).drop_first() =~= self.texts@.skip(i as int + 1));
            }
            i = i + 1;
        }
        proof {
            assert(self.texts@.skip(n as int) =~= Seq::<TextEntry>::empty());
        }
        None
    }

    /// The image part: the first raw entry named `image`, copied out.
    pub fn image_field(&self) -> (r: Option<ImageFormData>)
        ensures
            match r {
                Some(img) => spec_first_raw(self.raws@, "image"@) matches Some(e)
                    && image_of_entry(img, e),
                None => spec_first_raw(self.raws@, "image"@) is None,
            },
    {
        let key = String::from_str("image");
        let n = self.raws.len();
        let mut i: usize = 0;
        proof {
            assert(self.raws@.skip(0) =~= self.raws@);
        }
        while i < n
            invariant
                0 <= i <= n,
                n == self.raws@.len(),
                key@ == "image"@,
                spec_first_raw(self.raws@.skip(i as int), "image"@) == spec_first_raw(
                    self.raws@,
                    "image"@,
                ),
            decreases n - i,
        {
            proof {
                assert(self.raws@.skip(i as int)[0] == self.raws@[i as int]);
            }
            if self.raws[i].name == key {
                let e = &self.raws[i];
                return Some(ImageFormData {
                    raw_data: e.data.clone(),
                    file_name: e.file_name.clone(),
                    content_type: e.content_type.clone(),
                });
            }
            proof {
                assert(self.raws@.skip(i as int).drop_first() =~= self.raws@.skip(i as int + 1));
            }
            i = i + 1;
        }
        proof {
            assert(self.raws@.skip(n as int) =~= Seq::<RawEntry>::empty());
        }
        None
    }
}

} // verus!
