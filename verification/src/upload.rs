//! Image upload bookkeeping: partitioning per-item batch outcomes, and the
//! object key, public URL and content type an upload is stored under.

use vstd::prelude::*;
use vstd::string::StringExecFns;

verus! {

/// A stored image: its public URL and its object-storage key.
#[derive(Debug)]
pub struct UploadedImage {
    pub url: String,
    pub key: String,
}

/// The outcome of a batch of uploads: the stored images, and for each failed
/// item its file name with the error message.
#[derive(Debug)]
pub struct UploadResult {
    pub successful: Vec<UploadedImage>,
    pub failed: Vec<(String, String)>,
}

pub open spec fn uploaded_view(u: UploadedImage) -> (Seq<char>, Seq<char>) {
    (u.url@, u.key@)
}

/// The stored images among per-item outcomes, in order.
pub open spec fn spec_successes(rs: Seq<(String, Result<UploadedImage, String>)>) -> Seq<
    (Seq<char>, Seq<char>),
>
    decreases rs.len(),
{
    if rs.len() == 0 {
        Seq::empty()
    } else {
        spec_successes(rs.drop_last()) + match rs.last().1 {
            Ok(u) => seq![uploaded_view(u)],
            Err(_) => Seq::empty(),
        }
    }
}

/// The failed items among per-item outcomes, in order: file name and error.
pub open spec fn spec_failures(rs: Seq<(String, Result<UploadedImage, String>)>) -> Seq<
    (Seq<char>, Seq<char>),
>
    decreases rs.len(),
{
    if rs.len() == 0 {
        Seq::empty()
    } else {
        spec_failures(rs.drop_last()) + match rs.last().1 {
            Ok(_) => Seq::empty(),
            Err(e) => seq![(rs.last().0@, e@)],
        }
    }
}

pub open spec fn pair_view(p: (String, String)) -> (Seq<char>, Seq<char>) {
    (p.0@, p.1@)
}

/// Partitions per-item upload outcomes: every stored image into `successful`,
/// every failure into `failed`, both in input order. One item's failure never
/// disturbs the others.
#[verifier::loop_isolation(false)]
pub fn collect_upload_results(results: &Vec<(String, Result<UploadedImage, String>)>) -> (r:
    UploadResult)
    ensures
        r.successful@.map_values(|u: UploadedImage| uploaded_view(u)) == spec_successes(results@),
        r.failed@.map_values(|p: (String, String)| pair_view(p)) == spec_failures(results@),
{
    let mut successful: Vec<UploadedImage> = Vec::new();
    let mut failed: Vec<(String, String)> = Vec::new();
    let mut i: usize = 0;
    proof {
        assert(results@.take(0) =~= Seq::<(String, Result<UploadedImage, String>)>::empty());
        assert(successful@.map_values(|u: UploadedImage| uploaded_view(u)) =~= Seq::<
            (Seq<char>, Seq<char>),
        >::empty());
        assert(failed@.map_values(|p: (String, String)| pair_view(p)) =~= Seq::<
            (Seq<char>, Seq<char>),
        >::empty());
    }
    while i < results.len()
        invariant
            0 <= i <= results@.len(),
            successful@.map_values(|u: UploadedImage| uploaded_view(u)) == spec_successes(
                results@.take(i as int),
            ),
            failed@.map_values(|p: (String, String)| pair_view(p)) == spec_failures(
                results@.take(i as int),
            ),
        decreases results@.len() - i,
    {
        proof {
            assert(results@.take(i as int + 1).drop_last() =~= results@.take(i as int));
            assert(results@.take(i as int + 1).last() == results@[i as int]);
        }
        match &results[i].1 {
            Ok(u) => {
                successful.push(UploadedImage { url: u.url.clone(), key: u.key.clone() });
                proof {
                    assert(successful@.map_values(|u: UploadedImage| uploaded_view(u))
                        =~= spec_successes(results@.take(i as int + 1)));
                    assert(failed@.map_values(|p: (String, String)| pair_view(p)) =~= spec_failures(
                        results@.take(i as int + 1),
                    ));
                }
            },
            Err(e) => {
                failed.push((results[i].0.clone(), e.clone()));
                proof {
                    assert(successful@.map_values(|u: UploadedImage| uploaded_view(u))
                        =~= spec_successes(results@.take(i as int + 1)));
                    assert(failed@.map_values(|p: (String, String)| pair_view(p)) =~= spec_failures(
                        results@.take(i as int + 1),
                    ));
                }
            },
        }
        i = i + 1;
    }
    proof {
        assert(results@.take(results@.len() as int) =~= results@);
    }
    UploadResult { successful, failed }
}

/// A batch where every item succeeded partitions into all images and no
/// failures.
pub proof fn lemma_all_ok_partition(rs: Seq<(String, Result<UploadedImage, String>)>)
    requires
        forall|i: int| 0 <= i < rs.len() ==> (#[trigger] rs[i].1) is Ok,
    ensures
        spec_failures(rs) == Seq::<(Seq<char>, Seq<char>)>::empty(),
        spec_successes(rs).len() == rs.len(),
    decreases rs.len(),
{
    if rs.len() > 0 {
        assert forall|i: int| 0 <= i < rs.drop_last().len() implies (#[trigger] rs.drop_last()[
            i
        ].1) is Ok by {
            assert(rs.drop_last()[i] == rs[i]);
        }
        lemma_all_ok_partition(rs.drop_last());
        assert(spec_failures(rs) =~= Seq::<(Seq<char>, Seq<char>)>::empty());
    }
}

/// A batch where exactly one item failed partitions into the other items'
/// images and that one failure, named by its file name.
pub proof fn lemma_single_failure_partition(
    rs: Seq<(String, Result<UploadedImage, String>)>,
    j: int,
)
    requires
        0 <= j < rs.len(),
        rs[j].1 is Err,
        forall|i: int| 0 <= i < rs.len() && i != j ==> (#[trigger] rs[i].1) is Ok,
    ensures
        spec_failures(rs).len() == 1,
        spec_failures(rs)[0].0 == rs[j].0@,
        spec_successes(rs).len() == rs.len() - 1,
    decreases rs.len(),
{
    let prefix = rs.drop_last();
    assert(rs.len() > 0);
    if j == rs.len() - 1 {
        assert forall|i: int| 0 <= i < prefix.len() implies (#[trigger] prefix[i].1) is Ok by {
            assert(prefix[i] == rs[i]);
        }
        lemma_all_ok_partition(prefix);
        assert(spec_failures(rs) =~= seq![(rs[j].0@, rs[j].1->Err_0@)]);
    } else {
        assert(prefix[j] == rs[j]);
        assert forall|i: int| 0 <= i < prefix.len() && i != j implies (#[trigger] prefix[i].1)
            is Ok by {
            assert(prefix[i] == rs[i]);
        }
        lemma_single_failure_partition(prefix, j);
        assert(rs.last().1 is Ok);
        assert(spec_failures(rs) =~= spec_failures(prefix));
    }
}

/// Index of the last occurrence of `c`, or `-1` when `c` does not occur.
pub open spec fn last_index_of(s: Seq<char>, c: char) -> int
    decreases s.len(),
{
    if s.len() == 0 {
        -1
    } else if s.last() == c {
        s.len() - 1
    } else {
        last_index_of(s.drop_last(), c)
    }
}

/// The extension of a file name: what follows the last dot of its last
/// path component, unless that component has no dot past its first character.
pub open spec fn spec_extension(name: Seq<char>) -> Option<Seq<char>> {
    let comp = name.subrange(last_index_of(name, '/') + 1, name.len() as int);
    let d = last_index_of(comp, '.');
    if d <= 0 {
        None
    } else {
        Some(comp.subrange(d + 1, comp.len() as int))
    }
}

/// The extension an upload is stored under: the file name's own, or `jpg`.
pub open spec fn spec_extension_or_jpg(name: Seq<char>) -> Seq<char> {
    match spec_extension(name) {
        Some(e) => e,
        None => "jpg"@,
    }
}

proof fn lemma_last_index_of(s: Seq<char>, c: char)
    ensures
        last_index_of(s, c) < s.len(),
        last_index_of(s, c) >= 0 ==> s[last_index_of(s, c)] == c,
        forall|j: int| last_index_of(s, c) < j < s.len() ==> s[j] != c,
        -1 <= last_index_of(s, c),
    decreases s.len(),
{
    if s.len() > 0 && s.last() != c {
        lemma_last_index_of(s.drop_last(), c);
        assert forall|j: int| last_index_of(s, c) < j < s.len() implies s[j] != c by {
            if j < s.len() - 1 {
                assert(s.drop_last()[j] == s[j]);
            }
        }
    }
}

/// Finds the last occurrence of `c` in `s`, scanning by character.
#[verifier::loop_isolation(false)]
fn find_last(s: &str, c: char) -> (r: Option<usize>)
    ensures
        match r {
            Some(d) => d == last_index_of(s@, c),
            None => last_index_of(s@, c) == -1,
        },
{
    let n = s.unicode_len();
    let mut i: usize = 0;
    let mut found: Option<usize> = None;
    proof {
        assert(s@.take(0) =~= Seq::<char>::empty());
    }
    while i < n
        invariant
            0 <= i <= n,
            match found {
                Some(d) => d == last_index_of(s@.take(i as int), c),
                None => last_index_of(s@.take(i as int), c) == -1,
            },
        decreases n - i,
    {
        let ch = s.get_char(i);
        proof {
            assert(s@.take(i as int + 1).drop_last() =~= s@.take(i as int));
            assert(s@.take(i as int + 1).last() == s@[i as int]);
        }
        if ch == c {
            found = Some(i);
        }
        i = i + 1;
    }
    proof {
        assert(s@.take(n as int) =~= s@);
    }
    found
}

/// The extension of `file_name`, as [`spec_extension`] gives it.
pub fn file_extension(file_name: &str) -> (r: Option<&str>)
    ensures
        match r {
            Some(e) => spec_extension(file_name@) == Some(e@),
            None => spec_extension(file_name@) is None,
        },
{
    proof {
        lemma_last_index_of(file_name@, '/');
    }
    let n = file_name.unicode_len();
    let comp_start: usize = match find_last(file_name, '/') {
        Some(d) => d + 1,
        None => 0,
    };
    let comp = file_name.substring_char(comp_start, n);
    proof {
        assert(comp@ == file_name@.subrange(
            last_index_of(file_name@, '/') + 1,
            file_name@.len() as int,
        ));
        lemma_last_index_of(comp@, '.');
    }
    let m = comp.unicode_len();
    match find_last(comp, '.') {
        Some(d) => {
            if d == 0 {
                None
            } else {
                Some(comp.substring_char(d + 1, m))
            }
        },
        None => None,
    }
}

/// Relies on uuid::Uuid::new_v4 and its Display form: a fresh random token;
/// nothing is promised of its value.
#[verifier::external_body]
fn new_upload_token() -> (r: String) {
    uuid::Uuid::new_v4().to_string()
}

/// The shape of an object key: `uploads/<token>.<ext>`.
pub open spec fn spec_object_key(token: Seq<char>, name: Seq<char>) -> Seq<char> {
    "uploads/"@ + token + "."@ + spec_extension_or_jpg(name)
}

/// The object key an upload is stored under: `uploads/<token>.<ext>`, with a
/// fresh random token and the file name's extension (or `jpg`).
pub fn upload_object_key(file_name: &str) -> (r: String)
    ensures
        exists|token: Seq<char>| r@ == #[trigger] spec_object_key(token, file_name@),
{
    let token = new_upload_token();
    let mut key = String::from_str("uploads/");
    key.append(token.as_str());
    key.append(".");
    match file_extension(file_name) {
        Some(e) => key.append(e),
        None => key.append("jpg"),
    }
    proof {
        assert(key@ == spec_object_key(token@, file_name@));
    }
    key
}

/// The public URL of a stored object:
/// `https://<bucket>.s3.<region>.amazonaws.com/<key>`.
pub fn public_image_url(bucket: &str, region: &str, key: &str) -> (r: String)
    ensures
        r@ == "https://"@ + bucket@ + ".s3."@ + region@ + ".amazonaws.com/"@ + key@,
{
    let mut url = String::from_str("https://");
    url.append(bucket);
    url.append(".s3.");
    url.append(region);
    url.append(".amazonaws.com/");
    url.append(key);
    url
}

/// The content type an upload is stored under: `image/<ext>`.
pub fn image_content_type(file_name: &str) -> (r: String)
    ensures
        r@ == "image/"@ + spec_extension_or_jpg(file_name@),
{
    let mut ct = String::from_str("image/");
    match file_extension(file_name) {
        Some(e) => ct.append(e),
        None => ct.append("jpg"),
    }
    ct
}

} // verus!
