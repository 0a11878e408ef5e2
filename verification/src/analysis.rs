//! The three-stage prompt chain that turns changed files into one review
//! comment.
//!
//! Each stage sends an instruction with structured context to an external
//! text-completion service and expects a machine-readable shape back. The
//! service is untrusted and fallible: nothing here assumes its output is
//! well formed. What is verified is everything around the transport — the
//! exact text of each stage's prompt, how each response degrades to a
//! neutral artifact when malformed, and that a published position always
//! addresses a statement the canonicalized document actually has.

use vstd::prelude::*;
use vstd::string::StrSliceExecFns;
use vstd::string::StringExecFns;
use crate::diff::ChangedFile;
use crate::diff::ChangedFileView;
use crate::numeral::parsed_u64;
use crate::numeral::parse_u64;

verus! {

/// Where a review comment points: a 1-based statement index, or the
/// sentinel for "no clear target".
#[derive(Clone, Copy, PartialEq, Eq, Structural, Debug)]
pub enum Position {
    NA,
    At(u64),
}

/// The terminal artifact of the pipeline: one review comment ready to post.
pub struct ReviewComment {
    pub body: String,
    pub commit_id: String,
    pub path: String,
    pub position: Position,
}

/// The mathematical image of a [`ReviewComment`].
#[verifier::ext_equal]
pub struct ReviewCommentView {
    pub body: Seq<char>,
    pub commit_id: Seq<char>,
    pub path: Seq<char>,
    pub position: Position,
}

impl View for ReviewComment {
    type V = ReviewCommentView;

    open spec fn view(&self) -> ReviewCommentView {
        ReviewCommentView {
            body: self.body@,
            commit_id: self.commit_id@,
            path: self.path@,
            position: self.position,
        }
    }
}

/// The string at `choices[0].message.content` of a chat-completion response
/// body; a function of the body text alone.
pub uninterp spec fn chat_content(body: Seq<char>) -> Option<Seq<char>>;

/// Relies on serde_json's from_str, Value::get and Value::as_str: the
/// string at `choices[0].message.content`, where the body parses as JSON
/// and carries one.
#[verifier::external_body]
fn extract_chat_content(body: &str) -> (r: Option<String>)
    ensures
        r.deep_view() == chat_content(body@),
{
    let v: serde_json::Value = match serde_json::from_str(body) {
        Ok(v) => v,
        Err(_) => return None,
    };
    v.get("choices")
        .and_then(|c| c.get(0))
        .and_then(|c| c.get("message"))
        .and_then(|m| m.get("content"))
        .and_then(|s| s.as_str())
        .map(|s| s.to_owned())
}

/// Whether the text parses as JSON with a top-level `functions` member; a
/// function of the text alone.
pub uninterp spec fn has_functions_list(text: Seq<char>) -> bool;

/// Relies on serde_json's from_str and Value::get: whether the text is JSON
/// carrying a top-level `functions` member.
#[verifier::external_body]
fn check_functions_list(text: &str) -> (r: bool)
    ensures
        r == has_functions_list(text@),
{
    match serde_json::from_str::<serde_json::Value>(text) {
        Ok(v) => v.get("functions").is_some(),
        Err(_) => false,
    }
}

/// The four members of the review JSON the final stage emits, where the
/// body parses as an object with string `body`, `commit_id` and `path`; the
/// position comes back as a number, as text, or not at all. A function of
/// the body text alone.
pub uninterp spec fn review_fields(body: Seq<char>) -> Option<
    (Seq<char>, Seq<char>, Seq<char>, Option<u64>, Option<Seq<char>>),
>;

/// Relies on serde_json's from_str, Value::get, Value::as_str and
/// Value::as_u64: the `body`, `commit_id`, `path` and `position` members of
/// the review JSON.
#[verifier::external_body]
fn extract_review_fields(body: &str) -> (r: Option<
    (String, String, String, Option<u64>, Option<String>),
>)
    ensures
        r is Some <==> review_fields(body@) is Some,
        r matches Some(f) ==> review_fields(body@) matches Some(g) && f.0@ == g.0 && f.1@ == g.1
            && f.2@ == g.2 && f.3 == g.3 && f.4.deep_view() == g.4,
{
    let v: serde_json::Value = serde_json::from_str(body).ok()?;
    let b = v.get("body").and_then(|x| x.as_str())?.to_owned();
    let c = v.get("commit_id").and_then(|x| x.as_str())?.to_owned();
    let p = v.get("path").and_then(|x| x.as_str())?.to_owned();
    let num = v.get("position").and_then(|x| x.as_u64());
    let text = v.get("position").and_then(|x| x.as_str()).map(|s| s.to_owned());
    Some((b, c, p, num, text))
}

/// The header one file contributes to the first stage's context.
pub open spec fn file_summary(f: ChangedFileView) -> Seq<char> {
    "File: "@ + f.path + "\n```\n"@ + f.content + "\n```"@
}

/// All file summaries, separated by blank lines.
pub open spec fn file_summaries(files: Seq<ChangedFileView>) -> Seq<char>
    decreases files.len(),
{
    if files.len() == 0 {
        Seq::empty()
    } else if files.len() == 1 {
        file_summary(files[0])
    } else {
        file_summaries(files.drop_last()) + "\n\n"@ + file_summary(files.last())
    }
}

fn file_summary_exec(f: &ChangedFile) -> (r: String)
    ensures
        r@ == file_summary(f@),
{
    let mut out: String = "File: ".to_owned();
    out.append(f.path.as_str());
    out.append("\n```\n");
    out.append(f.content.as_str());
    out.append("\n```");
    out
}

fn file_summaries_exec(files: &Vec<ChangedFile>) -> (r: String)
    ensures
        r@ == file_summaries(files.deep_view()),
{
    let mut out = String::new();
    let mut i: usize = 0;
    while i < files.len()
        invariant
            i <= files@.len(),
            out@ == file_summaries(files.deep_view().subrange(0, i as int)),
        decreases files@.len() - i,
    {
        proof {
            let pre = files.deep_view().subrange(0, i as int);
            let cur = files.deep_view().subrange(0, i + 1);
            assert(cur.drop_last() =~= pre);
            assert(cur.last() == files.deep_view()[i as int]);
        }
        let summary = file_summary_exec(&files[i]);
        if i > 0 {
            out.append("\n\n");
        }
        out.append(summary.as_str());
        proof {
            if i == 0 {
                assert(Seq::<char>::empty() + summary@ =~= summary@);
                assert(files.deep_view().subrange(0, 1).len() == 1);
            }
        }
        i = i + 1;
    }
    proof {
        assert(files.deep_view().subrange(0, files.deep_view().len() as int)
            =~= files.deep_view());
    }
    out
}

/// The instruction the extraction stage sends, for the given files and
/// commit: extract the noteworthy functions as a JSON document.
pub open spec fn extract_prompt(files: Seq<ChangedFileView>, sha: Seq<char>) -> Seq<char> {
    "You are analyzing a commit in a software repository. Extract the high-impact functions from the changed files below and identify the functions each one depends on. Return JSON only, of the shape {\"functions\": [{\"name\": \"function_name\", \"file\": \"file_path\", \"commit_id\": \""@
        + sha
        + "\", \"body\": \"function_code\", \"description\": \"what the function does\", \"dependencies\": [\"dependency\"]}]}.\n\nChanged files:\n\n"@
        + file_summaries(files)
}

/// Build the extraction stage's instruction.
pub fn stage_extract_prompt(files: &Vec<ChangedFile>, commit_sha: &str) -> (r: String)
    ensures
        r@ == extract_prompt(files.deep_view(), commit_sha@),
{
    let mut out: String =
        "You are analyzing a commit in a software repository. Extract the high-impact functions from the changed files below and identify the functions each one depends on. Return JSON only, of the shape {\"functions\": [{\"name\": \"function_name\", \"file\": \"file_path\", \"commit_id\": \"".to_owned();
    out.append(commit_sha);
    out.append(
        "\", \"body\": \"function_code\", \"description\": \"what the function does\", \"dependencies\": [\"dependency\"]}]}.\n\nChanged files:\n\n",
    );
    let summaries = file_summaries_exec(files);
    out.append(summaries.as_str());
    out
}

/// The canonical empty artifact of the extraction stage: a function list
/// with no entries.
pub open spec fn empty_functions_doc() -> Seq<char> {
    "{\"functions\":[]}"@
}

/// What the extraction stage yields for a given response: the reported
/// content where it is JSON carrying a `functions` list, and the empty
/// function list where the transport failed, the response was malformed, or
/// the expected top-level key is missing.
pub open spec fn extract_artifact(response: Option<Seq<char>>) -> Seq<char> {
    match response {
        None => empty_functions_doc(),
        Some(body) => match chat_content(body) {
            None => empty_functions_doc(),
            Some(content) => if has_functions_list(content) {
                content
            } else {
                empty_functions_doc()
            },
        },
    }
}

/// Digest the extraction stage's response into the intermediate JSON
/// artifact, degrading to the empty function list on any malformed input.
pub fn stage_extract_artifact(response: Option<&str>) -> (r: String)
    ensures
        r@ == extract_artifact(response.deep_view()),
{
    match response {
        None => "{\"functions\":[]}".to_owned(),
        Some(body) => match extract_chat_content(body) {
            None => "{\"functions\":[]}".to_owned(),
            Some(content) => {
                if check_functions_list(content.as_str()) {
                    content
                } else {
                    "{\"functions\":[]}".to_owned()
                }
            },
        },
    }
}

/// The instruction the canonicalization stage sends: re-express the JSON
/// artifact as a statement-addressable XML document.
pub open spec fn canonicalize_prompt(artifact: Seq<char>) -> Seq<char> {
    "Convert the following JSON description of functions to XML. Format rules: the root element is <functions>; each function goes inside a <function> tag; wrap the function code inside <![CDATA[ ]]>; split the code into one <Statement> element per leaf statement, in source order; list dependencies inside <dependencies> with one <dependency> tag each.\n\nJSON input:\n\n"@
        + artifact
}

/// Build the canonicalization stage's instruction.
pub fn stage_canonicalize_prompt(artifact: &str) -> (r: String)
    ensures
        r@ == canonicalize_prompt(artifact@),
{
    let mut out: String =
        "Convert the following JSON description of functions to XML. Format rules: the root element is <functions>; each function goes inside a <function> tag; wrap the function code inside <![CDATA[ ]]>; split the code into one <Statement> element per leaf statement, in source order; list dependencies inside <dependencies> with one <dependency> tag each.\n\nJSON input:\n\n".to_owned();
    out.append(artifact);
    out
}

/// What the canonicalization stage yields: the reported content, or the
/// empty document on any transport or parse failure.
pub open spec fn canonical_xml(response: Option<Seq<char>>) -> Seq<char> {
    match response {
        None => Seq::empty(),
        Some(body) => match chat_content(body) {
            None => Seq::empty(),
            Some(content) => content,
        },
    }
}

/// Digest the canonicalization stage's response into the XML artifact,
/// degrading to the empty document on any malformed input.
pub fn stage_canonicalize_artifact(response: Option<&str>) -> (r: String)
    ensures
        r@ == canonical_xml(response.deep_view()),
{
    match response {
        None => String::new(),
        Some(body) => match extract_chat_content(body) {
            None => String::new(),
            Some(content) => content,
        },
    }
}

/// The instruction the review stage sends: pick at most one statement and
/// emit a single review comment as JSON.
pub open spec fn review_prompt(xml: Seq<char>) -> Seq<char> {
    "Using the following XML content:\n"@ + xml
        + "\nGenerate a JSON-formatted code review comment payload with exactly these keys in this order: 1) \"body\", 2) \"commit_id\", 3) \"path\", 4) \"position\".\n\nTreat each <Statement> element in the XML as a separate line of code, numbered sequentially in the order they appear. Identify the one statement most in need of improvement; indirection that could be inlined is a typical target, not an exhaustive rule. Use its sequential line number as the value of \"position\". If no clear target exists, output \"N/A\" for \"position\" instead; never invent a number you are not certain of.\n\n\"body\" must be a Markdown-formatted comment containing: a header line with the file path and line range; a short bolded title; a concise rationale using inline code formatting; a code block in diff syntax showing what to add and remove, containing plain text only and no markup tags; and a short closing justification.\n\n\"commit_id\" is the commit id under review and \"path\" is the path of the file. Return only this JSON object, with no additional text."@
}

/// Build the review stage's instruction.
pub fn stage_review_prompt(xml: &str) -> (r: String)
    ensures
        r@ == review_prompt(xml@),
{
    let mut out: String = "Using the following XML content:\n".to_owned();
    out.append(xml);
    out.append(
        "\nGenerate a JSON-formatted code review comment payload with exactly these keys in this order: 1) \"body\", 2) \"commit_id\", 3) \"path\", 4) \"position\".\n\nTreat each <Statement> element in the XML as a separate line of code, numbered sequentially in the order they appear. Identify the one statement most in need of improvement; indirection that could be inlined is a typical target, not an exhaustive rule. Use its sequential line number as the value of \"position\". If no clear target exists, output \"N/A\" for \"position\" instead; never invent a number you are not certain of.\n\n\"body\" must be a Markdown-formatted comment containing: a header line with the file path and line range; a short bolded title; a concise rationale using inline code formatting; a code block in diff syntax showing what to add and remove, containing plain text only and no markup tags; and a short closing justification.\n\n\"commit_id\" is the commit id under review and \"path\" is the path of the file. Return only this JSON object, with no additional text.",
    );
    out
}

/// How many times a pattern occurs in a text, counted at every starting
/// index.
pub open spec fn occurrence_count(s: Seq<char>, pat: Seq<char>) -> nat
    decreases s.len(),
{
    if pat.len() == 0 || s.len() < pat.len() {
        0
    } else {
        (if s.subrange(0, pat.len() as int) == pat {
            1nat
        } else {
            0nat
        }) + occurrence_count(s.drop_first(), pat)
    }
}

/// How many statements the canonicalized document addresses: one per
/// `<Statement>` element opened in it.
pub open spec fn statement_count(xml: Seq<char>) -> nat {
    occurrence_count(xml, "<Statement>"@)
}

fn matches_at(s: &str, i: usize, pat: &str) -> (r: bool)
    requires
        i + pat@.len() <= s@.len(),
        s@.len() <= usize::MAX,
    ensures
        r == (s@.subrange(i as int, i + pat@.len()) == pat@),
{
    let m = pat.unicode_len();
    let mut j: usize = 0;
    while j < m
        invariant
            m == pat@.len(),
            i + m <= s@.len(),
            s@.len() <= usize::MAX,
            j <= m,
            forall|k: int| 0 <= k < j ==> s@[i + k] == pat@[k],
        decreases m - j,
    {
        if s.get_char(i + j) != pat.get_char(j) {
            proof {
                assert(s@.subrange(i as int, i + m) != pat@) by {
                    assert(s@.subrange(i as int, i + m)[j as int] == s@[i + j]);
                }
            }
            return false;
        }
        j = j + 1;
    }
    proof {
        assert(s@.subrange(i as int, i + m) =~= pat@);
    }
    true
}

/// Count the statements the canonicalized document addresses.
pub fn count_statements(xml: &str) -> (r: u64)
    ensures
        r == statement_count(xml@),
{
    let pat = "<Statement>";
    let n = xml.unicode_len();
    let m = pat.unicode_len();
    let mut count: u64 = 0;
    let mut i: usize = 0;
    proof {
        assert(xml@.skip(0) =~= xml@);
    }
    while i < n
        invariant
            n == xml@.len(),
            m == pat@.len(),
            i <= n,
            count <= i,
            statement_count(xml@) == count + occurrence_count(xml@.skip(i as int), pat@),
        decreases n - i,
    {
        proof {
            assert(xml@.skip(i as int).drop_first() =~= xml@.skip(i + 1));
            assert(xml@.skip(i as int).len() == n - i);
        }
        if m > 0 && m <= n - i {
            proof {
                assert(xml@.skip(i as int).subrange(0, m as int) =~= xml@.subrange(
                    i as int,
                    i + m,
                ));
            }
            if matches_at(xml, i, pat) {
                count = count + 1;
            }
        } else {
            proof {
                assert(occurrence_count(xml@.skip(i as int), pat@) == 0);
                assert(occurrence_count(xml@.skip(i + 1), pat@) == 0);
            }
        }
        i = i + 1;
    }
    proof {
        assert(xml@.skip(n as int).len() == 0);
        assert(occurrence_count(xml@.skip(n as int), pat@) == 0);
    }
    count
}

/// The position a review reports, validated against the document: a
/// number, or the decimal text of one, inside `[1, total]` stands; the
/// sentinel, anything unparseable and anything out of range is no target.
pub open spec fn validated_position(
    num: Option<u64>,
    text: Option<Seq<char>>,
    total: nat,
) -> Position {
    match num {
        Some(n) => if 1 <= n && n <= total {
            Position::At(n)
        } else {
            Position::NA
        },
        None => match text {
            Some(t) => match parsed_u64(t) {
                Some(n) => if 1 <= n && n <= total {
                    Position::At(n)
                } else {
                    Position::NA
                },
                None => Position::NA,
            },
            None => Position::NA,
        },
    }
}

fn validate_position(num: Option<u64>, text: &Option<String>, total: u64) -> (r: Position)
    ensures
        r == validated_position(num, text.deep_view(), total as nat),
{
    match num {
        Some(n) => {
            if 1 <= n && n <= total {
                Position::At(n)
            } else {
                Position::NA
            }
        },
        None => match text {
            Some(t) => match parse_u64(t.as_str()) {
                Some(n) => {
                    if 1 <= n && n <= total {
                        Position::At(n)
                    } else {
                        Position::NA
                    }
                },
                None => Position::NA,
            },
            None => Position::NA,
        },
    }
}

/// The neutral comment: no actionable target, pointing nowhere.
pub open spec fn neutral_comment_spec(sha: Seq<char>) -> ReviewCommentView {
    ReviewCommentView {
        body: "Mechanic found no actionable target in this change."@,
        commit_id: sha,
        path: Seq::empty(),
        position: Position::NA,
    }
}

/// The neutral review comment for a commit: its position is the sentinel
/// and its body states that there is no actionable target.
pub fn neutral_comment(commit_sha: &str) -> (c: ReviewComment)
    ensures
        c@ == neutral_comment_spec(commit_sha@),
{
    ReviewComment {
        body: "Mechanic found no actionable target in this change.".to_owned(),
        commit_id: commit_sha.to_owned(),
        path: String::new(),
        position: Position::NA,
    }
}

/// The comment the review stage yields for a response, against the
/// document that produced it: the reported fields with the position
/// validated, or the neutral comment where the response is missing or
/// malformed.
pub open spec fn review_outcome(
    response: Option<Seq<char>>,
    xml: Seq<char>,
    sha: Seq<char>,
) -> ReviewCommentView {
    match response {
        None => neutral_comment_spec(sha),
        Some(body) => match chat_content(body) {
            None => neutral_comment_spec(sha),
            Some(content) => match review_fields(content) {
                None => neutral_comment_spec(sha),
                Some(f) => ReviewCommentView {
                    body: f.0,
                    commit_id: f.1,
                    path: f.2,
                    position: validated_position(f.3, f.4, statement_count(xml)),
                },
            },
        },
    }
}

/// Digest the review stage's response into the final comment.
///
/// The position of the result always addresses a statement the document
/// has, or is the sentinel: it is never a fabricated index.
pub fn build_review_comment(response: Option<&str>, xml: &str, commit_sha: &str) -> (c:
    ReviewComment)
    ensures
        c@ == review_outcome(response.deep_view(), xml@, commit_sha@),
        c@.position matches Position::At(n) ==> 1 <= n && n <= statement_count(xml@),
{
    let body = match response {
        None => {
            return neutral_comment(commit_sha);
        },
        Some(body) => body,
    };
    let content = match extract_chat_content(body) {
        None => {
            return neutral_comment(commit_sha);
        },
        Some(content) => content,
    };
    match extract_review_fields(content.as_str()) {
        None => neutral_comment(commit_sha),
        Some(fields) => {
            let total = count_statements(xml);
            let position = validate_position(fields.3, &fields.4, total);
            ReviewComment { body: fields.0, commit_id: fields.1, path: fields.2, position }
        },
    }
}

/// A review position is the sentinel or a statement index the document
/// actually has: never below one, never past the document's statement
/// count.
pub proof fn lemma_position_in_range(
    response: Option<Seq<char>>,
    xml: Seq<char>,
    sha: Seq<char>,
)
    ensures
        review_outcome(response, xml, sha).position matches Position::At(n) ==> 1 <= n
            && n <= statement_count(xml),
{
}

} // verus!
