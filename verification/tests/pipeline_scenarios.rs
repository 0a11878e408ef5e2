//! End-to-end walks of the pipeline with stubbed transport responses.

use mechanic::analysis::Position;
use mechanic::analysis::build_review_comment;
use mechanic::analysis::stage_canonicalize_artifact;
use mechanic::analysis::stage_extract_artifact;
use mechanic::diff::assemble_changed_files;
use mechanic::diff::dedup_paths;
use mechanic::diff::get_changed_files;
use mechanic::event::EventKind;
use mechanic::event::WebhookPayload;
use mechanic::event::process_github_payload;
use mechanic::orchestrator::Action;
use mechanic::orchestrator::Orchestrator;
use mechanic::orchestrator::OrchestratorState;
use mechanic::token::token_exchange_outcome;

fn chat_response(content_escaped: &str) -> String {
    let mut s = String::from("{\"choices\":[{\"message\":{\"content\":\"");
    s.push_str(content_escaped);
    s.push_str("\"}}]}");
    s
}

/// A push for one commit touching one file whose diff yields exactly one
/// statement walks the pipeline to `Published`, with the comment pointing
/// at that statement (or at nothing) in the right file and commit.
#[test]
fn push_with_one_file_reaches_published() {
    // inbound delivery
    let payload = WebhookPayload {
        event_type: Some("push".to_owned()),
        action: None,
        owner: Some("acme".to_owned()),
        repo: Some("widgets".to_owned()),
        pull_number: None,
        after: Some("abc123".to_owned()),
        installation_id: Some(55),
    };
    let event = process_github_payload(&payload);
    assert_eq!(event.kind, EventKind::Push);
    assert_eq!(event.commit_sha, "abc123");

    let (mut o, a) = Orchestrator::start(event);
    assert!(matches!(a, Action::ExchangeToken { installation_id: 55 }));

    // token endpoint accepts the assertion
    let t = token_exchange_outcome(55, 201, "{\"token\":\"ghs_tok\"}", 1_000).unwrap();
    let a = o.on_token(Ok(t));
    assert!(matches!(a, Action::FetchDiff { .. }));

    // the commit touched one file; its contents decode to one statement
    let commit_meta = "{\"files\":[{\"filename\":\"src/a.py\"}]}";
    let paths = get_changed_files(commit_meta);
    let unique = dedup_paths(&paths);
    assert_eq!(unique, vec!["src/a.py".to_owned()]);
    let bodies = vec![Some("{\"content\":\"eCA9IGdldF92YWx1ZSgpCg==\"}".to_owned())];
    let files = assemble_changed_files(&unique, &bodies);
    assert_eq!(files.len(), 1);
    assert_eq!(files[0].content, "x = get_value()\n");

    let a = o.on_diff(files);
    assert_eq!(o.state, OrchestratorState::DiffFetched);
    assert!(matches!(a, Action::RunAnalysis { .. }));

    // the three stages respond in their expected shapes
    let extract_response = chat_response(
        "{\\\"functions\\\":[{\\\"name\\\":\\\"get_value\\\",\\\"file\\\":\\\"src/a.py\\\",\\\"commit_id\\\":\\\"abc123\\\"}]}",
    );
    let artifact = stage_extract_artifact(Some(extract_response.as_str()));
    assert!(artifact.contains("get_value"));

    let canonical_response = chat_response(
        "<functions><function><name>get_value</name><Statement>x = get_value()</Statement></function></functions>",
    );
    let xml = stage_canonicalize_artifact(Some(canonical_response.as_str()));

    let review_response = chat_response(
        "{\\\"body\\\":\\\"src/a.py | Line 1\\\",\\\"commit_id\\\":\\\"abc123\\\",\\\"path\\\":\\\"src/a.py\\\",\\\"position\\\":1}",
    );
    let comment = build_review_comment(Some(review_response.as_str()), xml.as_str(), "abc123");
    assert_eq!(comment.path, "src/a.py");
    assert_eq!(comment.commit_id, "abc123");
    assert!(comment.position == Position::At(1) || comment.position == Position::NA);
    assert_eq!(comment.position, Position::At(1));

    let a = o.on_analysis(comment);
    assert!(matches!(a, Action::PublishComment { .. }));
    let a = o.on_publish(Ok("https://example.invalid/comment/9".to_owned()));
    assert_eq!(o.state, OrchestratorState::Published);
    assert!(matches!(a, Action::Halt));
}

/// A `pull_request` delivery with action `synchronize` and number 42
/// classifies as a synchronize event for that pull request.
#[test]
fn pull_request_synchronize_scenario() {
    let payload = WebhookPayload {
        event_type: Some("pull_request".to_owned()),
        action: Some("synchronize".to_owned()),
        owner: Some("acme".to_owned()),
        repo: Some("widgets".to_owned()),
        pull_number: Some(42),
        after: Some("abc123".to_owned()),
        installation_id: Some(7),
    };
    let event = process_github_payload(&payload);
    assert_eq!(event.pull_number, 42);
    assert_eq!(event.kind, EventKind::PullRequestSynchronize);
}

/// A token exchange answered with 401 aborts the delivery before any diff
/// or analysis step is asked for.
#[test]
fn rejected_exchange_aborts_the_delivery() {
    let payload = WebhookPayload {
        event_type: Some("push".to_owned()),
        action: None,
        owner: Some("acme".to_owned()),
        repo: Some("widgets".to_owned()),
        pull_number: None,
        after: Some("abc123".to_owned()),
        installation_id: Some(55),
    };
    let event = process_github_payload(&payload);
    let (mut o, _) = Orchestrator::start(event);

    let outcome = token_exchange_outcome(55, 401, "{\"message\":\"Bad credentials\"}", 1_000);
    assert!(outcome.is_err());
    let a = o.on_token(outcome);
    assert_eq!(o.state, OrchestratorState::Aborted);
    match a {
        Action::Halt => {},
        Action::FetchDiff { .. } => panic!("no diff call after a rejected exchange"),
        Action::RunAnalysis { .. } => panic!("no analysis after a rejected exchange"),
        _ => panic!("a rejected exchange halts the delivery"),
    }
}
