use mechanic::diff::assemble_changed_files;
use mechanic::diff::decode_content_response;
use mechanic::diff::dedup_paths;
use mechanic::diff::get_changed_files;
use mechanic::diff::strip_newlines;

#[test]
fn changed_files_are_read_from_commit_metadata() {
    let body = "{\"sha\":\"abc\",\"files\":[{\"filename\":\"src/a.py\"},{\"filename\":\"README.md\"}]}";
    let paths = get_changed_files(body);
    assert_eq!(paths, vec!["src/a.py".to_owned(), "README.md".to_owned()]);
}

#[test]
fn entries_without_a_filename_are_dropped() {
    let body = "{\"files\":[{\"filename\":\"a\"},{\"status\":\"renamed\"},{\"filename\":\"b\"}]}";
    let paths = get_changed_files(body);
    assert_eq!(paths, vec!["a".to_owned(), "b".to_owned()]);
}

#[test]
fn malformed_commit_metadata_yields_no_files() {
    assert!(get_changed_files("not json").is_empty());
    assert!(get_changed_files("{\"files\":\"nope\"}").is_empty());
    assert!(get_changed_files("{}").is_empty());
}

#[test]
fn dedup_keeps_first_occurrences_in_order() {
    let paths = vec![
        "a".to_owned(),
        "b".to_owned(),
        "a".to_owned(),
        "c".to_owned(),
        "b".to_owned(),
    ];
    let unique = dedup_paths(&paths);
    assert_eq!(unique, vec!["a".to_owned(), "b".to_owned(), "c".to_owned()]);
}

#[test]
fn dedup_is_idempotent() {
    let paths = vec!["x".to_owned(), "x".to_owned(), "y".to_owned()];
    let once = dedup_paths(&paths);
    let twice = dedup_paths(&once);
    assert_eq!(once, twice);
}

#[test]
fn dedup_agrees_for_reordered_retrievals() {
    let first = vec!["a".to_owned(), "b".to_owned(), "a".to_owned()];
    let second = vec!["b".to_owned(), "a".to_owned(), "b".to_owned()];
    let mut d1 = dedup_paths(&first);
    let mut d2 = dedup_paths(&second);
    d1.sort();
    d2.sort();
    assert_eq!(d1, d2);
}

#[test]
fn newlines_are_stripped_before_decoding() {
    assert_eq!(strip_newlines("aGVs\nbG8=\n"), "aGVsbG8=");
    assert_eq!(strip_newlines("no newline"), "no newline");
    assert_eq!(strip_newlines(""), "");
}

#[test]
fn content_response_is_base64_decoded() {
    let body = "{\"content\":\"aGVsbG8=\"}";
    assert_eq!(decode_content_response(body), Some("hello".to_owned()));
}

#[test]
fn content_response_with_wrapped_base64_decodes() {
    let body = "{\"content\":\"bGluZSBvbmUKbGluZSB0d28K\"}";
    assert_eq!(
        decode_content_response(body),
        Some("line one\nline two\n".to_owned())
    );
}

#[test]
fn bad_content_responses_are_dropped() {
    assert_eq!(decode_content_response("not json"), None);
    assert_eq!(decode_content_response("{\"message\":\"Not Found\"}"), None);
    assert_eq!(decode_content_response("{\"content\":\"!!!not base64!!!\"}"), None);
}

#[test]
fn assembly_pairs_paths_with_decoded_bodies_and_drops_failures() {
    let paths = vec!["a.txt".to_owned(), "b.txt".to_owned(), "c.txt".to_owned()];
    let bodies = vec![
        Some("{\"content\":\"aGVsbG8=\"}".to_owned()),
        None,
        Some("{\"content\":\"eCA9IGdldF92YWx1ZSgpCg==\"}".to_owned()),
    ];
    let files = assemble_changed_files(&paths, &bodies);
    assert_eq!(files.len(), 2);
    assert_eq!(files[0].path, "a.txt");
    assert_eq!(files[0].content, "hello");
    assert_eq!(files[1].path, "c.txt");
    assert_eq!(files[1].content, "x = get_value()\n");
}

#[test]
fn assembly_of_no_paths_is_empty() {
    let paths: Vec<String> = Vec::new();
    let bodies: Vec<Option<String>> = Vec::new();
    assert!(assemble_changed_files(&paths, &bodies).is_empty());
}
