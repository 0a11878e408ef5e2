//! Retrieval of the files a commit changed.
//!
//! The hosting API reports the paths a commit touched and, per path, a
//! base64-encoded file body. The transport stays outside the library; what
//! is verified here is everything between the response bodies and the final
//! file set: reading the path list, deduplicating it, decoding each body,
//! dropping files whose fetch or decode failed, and the uniqueness of the
//! resulting paths.

use vstd::prelude::*;
use vstd::string::StrSliceExecFns;
use vstd::utf8::decode_utf8;
use vstd::utf8::valid_utf8;

verus! {

/// One file a commit touched, with its decoded content.
pub struct ChangedFile {
    pub path: String,
    pub content: String,
}

/// The mathematical image of a [`ChangedFile`].
#[verifier::ext_equal]
pub struct ChangedFileView {
    pub path: Seq<char>,
    pub content: Seq<char>,
}

impl View for ChangedFile {
    type V = ChangedFileView;

    open spec fn view(&self) -> ChangedFileView {
        ChangedFileView { path: self.path@, content: self.content@ }
    }
}

impl DeepView for ChangedFile {
    type V = ChangedFileView;

    open spec fn deep_view(&self) -> ChangedFileView {
        self@
    }
}

/// One entry per element of the commit metadata's `files` array: the
/// element's `filename` string, where it has one. A function of the body
/// text alone; a body that is not such metadata has no entries.
pub uninterp spec fn commit_file_entries(body: Seq<char>) -> Seq<Option<Seq<char>>>;

/// Relies on serde_json's from_str, Value::get, Value::as_array and
/// Value::as_str: maps each element of the top-level `files` array to its
/// `filename` member where that member is a string.
#[verifier::external_body]
fn parse_commit_file_entries(body: &str) -> (r: Vec<Option<String>>)
    ensures
        r.deep_view() == commit_file_entries(body@),
{
    let parsed: serde_json::Value = match serde_json::from_str(body) {
        Ok(v) => v,
        Err(_) => return Vec::new(),
    };
    match parsed.get("files").and_then(|f| f.as_array()) {
        Some(list) => list
            .iter()
            .map(|f| f.get("filename").and_then(|n| n.as_str()).map(|s| s.to_owned()))
            .collect(),
        None => Vec::new(),
    }
}

/// The string under the top-level `content` key of a file-contents
/// response; a function of the body text alone.
pub uninterp spec fn json_content_field(body: Seq<char>) -> Option<Seq<char>>;

/// Relies on serde_json's from_str, Value::get and Value::as_str: the
/// string under the top-level `content` key, where the body parses as JSON
/// and carries one.
#[verifier::external_body]
fn extract_content_field(body: &str) -> (r: Option<String>)
    ensures
        r.deep_view() == json_content_field(body@),
{
    match serde_json::from_str::<serde_json::Value>(body) {
        Ok(v) => v.get("content").and_then(|c| c.as_str()).map(|s| s.to_owned()),
        Err(_) => None,
    }
}

/// The bytes the base64 standard-alphabet decoding of the text yields, or
/// `None` where the text is not valid base64; a function of the text alone.
pub uninterp spec fn b64_standard_decoded(text: Seq<char>) -> Option<Seq<u8>>;

/// Relies on base64's standard engine decode.
#[verifier::external_body]
fn b64_decode(text: &str) -> (r: Option<Vec<u8>>)
    ensures
        r is Some <==> b64_standard_decoded(text@) is Some,
        r matches Some(bytes) ==> Some(bytes@) == b64_standard_decoded(text@),
{
    match base64::Engine::decode(&base64::engine::general_purpose::STANDARD, text) {
        Ok(bytes) => Some(bytes),
        Err(_) => None,
    }
}

/// Relies on std's str::from_utf8: succeeds exactly on valid UTF-8 and
/// yields its decoding.
#[verifier::external_body]
fn utf8_decode(bytes: &Vec<u8>) -> (r: Option<String>)
    ensures
        r is Some <==> valid_utf8(bytes@),
        r matches Some(s) ==> s@ == decode_utf8(bytes@),
{
    match core::str::from_utf8(bytes.as_slice()) {
        Ok(s) => Some(s.to_owned()),
        Err(_) => None,
    }
}

/// The text with every newline character removed, as the transport encoding
/// of file bodies wraps base64 in newlines.
pub open spec fn without_newlines(s: Seq<char>) -> Seq<char> {
    s.filter(|c: char| c != '\n')
}

proof fn lemma_without_newlines_push(s: Seq<char>, c: char)
    ensures
        without_newlines(s.push(c)) == if c != '\n' {
            without_newlines(s).push(c)
        } else {
            without_newlines(s)
        },
{
    reveal(Seq::filter);
    assert(s.push(c).drop_last() =~= s);
    assert(s.push(c).last() == c);
}

/// Remove every newline character from the text.
pub fn strip_newlines(s: &str) -> (r: String)
    ensures
        r@ == without_newlines(s@),
{
    let n = s.unicode_len();
    let mut out = String::new();
    let mut i: usize = 0;
    while i < n
        invariant
            n == s@.len(),
            i <= n,
            out@ == without_newlines(s@.subrange(0, i as int)),
        decreases n - i,
    {
        let c = s.get_char(i);
        proof {
            assert(s@.subrange(0, i + 1) =~= s@.subrange(0, i as int).push(s@[i as int]));
            lemma_without_newlines_push(s@.subrange(0, i as int), s@[i as int]);
        }
        if c != '\n' {
            out.push(c);
        }
        i = i + 1;
    }
    proof {
        assert(s@.subrange(0, n as int) =~= s@);
    }
    out
}

/// The values present in a sequence of optional values, in order.
pub open spec fn somes_of(s: Seq<Option<Seq<char>>>) -> Seq<Seq<char>>
    decreases s.len(),
{
    if s.len() == 0 {
        Seq::empty()
    } else {
        let rest = somes_of(s.drop_last());
        match s.last() {
            Some(v) => rest.push(v),
            None => rest,
        }
    }
}

/// The paths a commit touched, read from the commit-metadata response body.
///
/// One path per `files` entry that names a file; entries without a usable
/// name are dropped. Repetitions are kept here and removed by
/// [`dedup_paths`].
pub fn get_changed_files(commit_body: &str) -> (r: Vec<String>)
    ensures
        r.deep_view() == somes_of(commit_file_entries(commit_body@)),
{
    let entries = parse_commit_file_entries(commit_body);
    let mut out: Vec<String> = Vec::new();
    let mut i: usize = 0;
    while i < entries.len()
        invariant
            i <= entries@.len(),
            out.deep_view() == somes_of(entries.deep_view().subrange(0, i as int)),
        decreases entries@.len() - i,
    {
        proof {
            let pre = entries.deep_view().subrange(0, i as int);
            let cur = entries.deep_view().subrange(0, i + 1);
            assert(cur.drop_last() =~= pre);
            assert(cur.last() == entries.deep_view()[i as int]);
        }
        match &entries[i] {
            Some(p) => {
                let ghost pre_dv = out.deep_view();
                out.push(p.clone());
                proof {
                    assert(out.deep_view() =~= pre_dv.push(p@));
                }
            },
            None => {},
        }
        i = i + 1;
    }
    proof {
        assert(entries.deep_view().subrange(0, entries.deep_view().len() as int)
            =~= entries.deep_view());
    }
    out
}

/// The sequence with later repetitions of a value removed: each value keeps
/// its first occurrence only.
pub open spec fn dedup_first(s: Seq<Seq<char>>) -> Seq<Seq<char>>
    decreases s.len(),
{
    if s.len() == 0 {
        Seq::empty()
    } else {
        let rest = dedup_first(s.drop_last());
        if rest.contains(s.last()) {
            rest
        } else {
            rest.push(s.last())
        }
    }
}

fn vec_contains_string(v: &Vec<String>, x: &String) -> (r: bool)
    ensures
        r == v.deep_view().contains(x@),
{
    let mut i: usize = 0;
    while i < v.len()
        invariant
            i <= v@.len(),
            forall|j: int| 0 <= j < i ==> v.deep_view()[j] != x@,
        decreases v@.len() - i,
    {
        if v[i] == *x {
            proof {
                assert(v.deep_view()[i as int] == x@);
            }
            return true;
        }
        i = i + 1;
    }
    proof {
        if v.deep_view().contains(x@) {
            let j = choose|j: int| 0 <= j < v.deep_view().len() && v.deep_view()[j] == x@;
            assert(v.deep_view()[j] != x@);
        }
    }
    false
}

/// Remove repeated paths, keeping each path's first occurrence.
pub fn dedup_paths(paths: &Vec<String>) -> (r: Vec<String>)
    ensures
        r.deep_view() == dedup_first(paths.deep_view()),
{
    let mut out: Vec<String> = Vec::new();
    let mut i: usize = 0;
    while i < paths.len()
        invariant
            i <= paths@.len(),
            out.deep_view() == dedup_first(paths.deep_view().subrange(0, i as int)),
        decreases paths@.len() - i,
    {
        proof {
            let pre = paths.deep_view().subrange(0, i as int);
            let cur = paths.deep_view().subrange(0, i + 1);
            assert(cur.drop_last() =~= pre);
            assert(cur.last() == paths.deep_view()[i as int]);
        }
        let p = &paths[i];
        let seen = vec_contains_string(&out, p);
        if !seen {
            let ghost pre_dv = out.deep_view();
            out.push(p.clone());
            proof {
                assert(out.deep_view() =~= pre_dv.push(p@));
            }
        }
        i = i + 1;
    }
    proof {
        assert(paths.deep_view().subrange(0, paths.deep_view().len() as int)
            =~= paths.deep_view());
    }
    out
}

/// Deduplication never leaves two equal paths.
pub proof fn lemma_dedup_first_no_duplicates(s: Seq<Seq<char>>)
    ensures
        dedup_first(s).no_duplicates(),
    decreases s.len(),
{
    if s.len() > 0 {
        lemma_dedup_first_no_duplicates(s.drop_last());
    }
}

/// Deduplication keeps exactly the set of paths that were reported: nothing
/// is invented and nothing present is lost.
pub proof fn lemma_dedup_first_same_set(s: Seq<Seq<char>>)
    ensures
        dedup_first(s).to_set() == s.to_set(),
    decreases s.len(),
{
    if s.len() == 0 {
        assert(dedup_first(s).to_set() =~= s.to_set());
    } else {
        lemma_dedup_first_same_set(s.drop_last());
        let d = dedup_first(s);
        let rest = dedup_first(s.drop_last());
        assert forall|x: Seq<char>| s.to_set().contains(x) implies d.to_set().contains(x) by {
            let j = choose|j: int| 0 <= j < s.len() && s[j] == x;
            if j < s.len() - 1 {
                assert(s.drop_last()[j] == x);
                assert(s.drop_last().to_set().contains(x));
                assert(rest.to_set().contains(x));
                let k = choose|k: int| 0 <= k < rest.len() && rest[k] == x;
                assert(d[k] == x);
            } else {
                if rest.contains(x) {
                    let k = choose|k: int| 0 <= k < rest.len() && rest[k] == x;
                    assert(d[k] == x);
                } else {
                    assert(d.last() == x);
                }
            }
        }
        assert forall|x: Seq<char>| d.to_set().contains(x) implies s.to_set().contains(x) by {
            let j = choose|j: int| 0 <= j < d.len() && d[j] == x;
            if j < rest.len() {
                assert(rest[j] == x);
                assert(s.drop_last().to_set().contains(x));
                let k = choose|k: int| 0 <= k < s.drop_last().len() && s.drop_last()[k] == x;
                assert(s[k] == x);
            } else {
                assert(x == s.last());
            }
        }
        assert(d.to_set() =~= s.to_set());
    }
}

proof fn lemma_dedup_first_of_unique(s: Seq<Seq<char>>)
    requires
        s.no_duplicates(),
    ensures
        dedup_first(s) == s,
    decreases s.len(),
{
    if s.len() > 0 {
        assert(s.drop_last().no_duplicates());
        lemma_dedup_first_of_unique(s.drop_last());
        lemma_dedup_first_same_set(s.drop_last());
        if dedup_first(s.drop_last()).contains(s.last()) {
            let k = choose|k: int|
                0 <= k < s.drop_last().len() && s.drop_last()[k] == s.last();
            assert(s[k] == s.last());
        }
        assert(s.drop_last().push(s.last()) =~= s);
    }
}

/// Deduplicating twice is the same as deduplicating once: a retrieval whose
/// path set is already deduplicated passes through unchanged.
pub proof fn lemma_dedup_first_idempotent(s: Seq<Seq<char>>)
    ensures
        dedup_first(dedup_first(s)) == dedup_first(s),
{
    lemma_dedup_first_no_duplicates(s);
    lemma_dedup_first_of_unique(dedup_first(s));
}

/// Two retrievals for the same commit that report the same set of touched
/// paths deduplicate to the same file set, whatever order either response
/// listed them in.
pub proof fn lemma_dedup_agrees_on_same_paths(s1: Seq<Seq<char>>, s2: Seq<Seq<char>>)
    requires
        s1.to_set() == s2.to_set(),
    ensures
        dedup_first(s1).to_set() == dedup_first(s2).to_set(),
{
    lemma_dedup_first_same_set(s1);
    lemma_dedup_first_same_set(s2);
}

/// What one fetched body contributes: the decoded text, where the body
/// carries a content field that is valid base64 over valid UTF-8.
pub open spec fn decoded_file_content(body: Seq<char>) -> Option<Seq<char>> {
    match json_content_field(body) {
        None => None,
        Some(raw) => match b64_standard_decoded(without_newlines(raw)) {
            None => None,
            Some(bytes) => if valid_utf8(bytes) {
                Some(decode_utf8(bytes))
            } else {
                None
            },
        },
    }
}

/// Decode one file-contents response body into the file's text.
///
/// The content field is read, transport newlines are removed, the base64 is
/// decoded and the bytes are read as UTF-8; any failure along the way drops
/// the file rather than aborting the batch.
pub fn decode_content_response(body: &str) -> (r: Option<String>)
    ensures
        r.deep_view() == decoded_file_content(body@),
{
    let raw = match extract_content_field(body) {
        Some(raw) => raw,
        None => {
            return None;
        },
    };
    let stripped = strip_newlines(raw.as_str());
    let bytes = match b64_decode(stripped.as_str()) {
        Some(bytes) => bytes,
        None => {
            return None;
        },
    };
    utf8_decode(&bytes)
}

/// The files a retrieval assembles from per-path response bodies: one entry
/// per path whose fetch succeeded and whose body decodes, in path order.
pub open spec fn assembled_files(paths: Seq<Seq<char>>, bodies: Seq<Option<Seq<char>>>) -> Seq<
    ChangedFileView,
>
    decreases paths.len(),
{
    if paths.len() == 0 {
        Seq::empty()
    } else {
        let rest = assembled_files(paths.drop_last(), bodies.drop_last());
        match bodies.last() {
            None => rest,
            Some(body) => match decoded_file_content(body) {
                None => rest,
                Some(text) => rest.push(ChangedFileView { path: paths.last(), content: text }),
            },
        }
    }
}

/// The paths of a sequence of files.
pub open spec fn file_paths(files: Seq<ChangedFileView>) -> Seq<Seq<char>> {
    files.map_values(|f: ChangedFileView| f.path)
}

/// Assemble the changed-file set from each unique path's response body.
///
/// `bodies[i]` is the response body fetched for `paths[i]`, `None` where
/// the fetch itself failed. A file whose fetch or decode failed is dropped
/// from the result; the batch never aborts.
pub fn assemble_changed_files(paths: &Vec<String>, bodies: &Vec<Option<String>>) -> (r: Vec<
    ChangedFile,
>)
    requires
        paths@.len() == bodies@.len(),
    ensures
        r.deep_view() == assembled_files(paths.deep_view(), bodies.deep_view()),
{
    let mut out: Vec<ChangedFile> = Vec::new();
    let mut i: usize = 0;
    while i < paths.len()
        invariant
            i <= paths@.len(),
            paths@.len() == bodies@.len(),
            out.deep_view() == assembled_files(
                paths.deep_view().subrange(0, i as int),
                bodies.deep_view().subrange(0, i as int),
            ),
        decreases paths@.len() - i,
    {
        proof {
            let pre_p = paths.deep_view().subrange(0, i as int);
            let cur_p = paths.deep_view().subrange(0, i + 1);
            let pre_b = bodies.deep_view().subrange(0, i as int);
            let cur_b = bodies.deep_view().subrange(0, i + 1);
            assert(cur_p.drop_last() =~= pre_p);
            assert(cur_b.drop_last() =~= pre_b);
            assert(cur_p.last() == paths.deep_view()[i as int]);
            assert(cur_b.last() == bodies.deep_view()[i as int]);
        }
        match &bodies[i] {
            None => {},
            Some(body) => {
                match decode_content_response(body.as_str()) {
                    None => {},
                    Some(text) => {
                        let ghost pre_dv = out.deep_view();
                        out.push(ChangedFile { path: paths[i].clone(), content: text });
                        proof {
                            assert(out.deep_view() =~= pre_dv.push(
                                ChangedFileView {
                                    path: paths.deep_view()[i as int],
                                    content: text@,
                                },
                            ));
                        }
                    },
                }
            },
        }
        i = i + 1;
    }
    proof {
        assert(paths.deep_view().subrange(0, paths.deep_view().len() as int)
            =~= paths.deep_view());
        assert(bodies.deep_view().subrange(0, bodies.deep_view().len() as int)
            =~= bodies.deep_view());
    }
    out
}

/// Within one retrieval over deduplicated paths, every assembled file names
/// one of the requested paths and no path appears twice.
pub proof fn lemma_assembled_paths_unique(paths: Seq<Seq<char>>, bodies: Seq<Option<Seq<char>>>)
    requires
        paths.no_duplicates(),
        paths.len() == bodies.len(),
    ensures
        file_paths(assembled_files(paths, bodies)).no_duplicates(),
        forall|k: int|
            0 <= k < assembled_files(paths, bodies).len() ==> paths.contains(
                #[trigger] assembled_files(paths, bodies)[k].path,
            ),
    decreases paths.len(),
{
    if paths.len() > 0 {
        assert(paths.drop_last().no_duplicates());
        lemma_assembled_paths_unique(paths.drop_last(), bodies.drop_last());
        let rest = assembled_files(paths.drop_last(), bodies.drop_last());
        let whole = assembled_files(paths, bodies);
        assert(forall|k: int|
            0 <= k < rest.len() ==> paths.drop_last().contains(#[trigger] rest[k].path));
        assert(forall|k: int| 0 <= k < paths.drop_last().len()
            ==> paths.contains(#[trigger] paths.drop_last()[k]));
        if whole.len() == rest.len() + 1 {
            assert(whole.last().path == paths.last());
            assert(forall|k: int|
                0 <= k < rest.len() ==> whole[k] == #[trigger] rest[k]);
            assert forall|k: int| 0 <= k < rest.len() implies whole[k].path != paths.last() by {
                assert(paths.drop_last().contains(rest[k].path));
                let j = choose|j: int|
                    0 <= j < paths.drop_last().len() && paths.drop_last()[j] == rest[k].path;
                assert(paths[j] == rest[k].path);
            }
            assert(file_paths(whole) =~= file_paths(rest).push(paths.last()));
            assert(forall|k: int|
                0 <= k < file_paths(rest).len() ==> #[trigger] file_paths(rest)[k]
                    == rest[k].path);
        } else {
            assert(whole == rest);
        }
    }
}

} // verus!
