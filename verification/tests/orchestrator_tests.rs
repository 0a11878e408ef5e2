use mechanic::analysis::Position;
use mechanic::analysis::ReviewComment;
use mechanic::diff::ChangedFile;
use mechanic::event::EventKind;
use mechanic::event::GitHubEvent;
use mechanic::orchestrator::Action;
use mechanic::orchestrator::Orchestrator;
use mechanic::orchestrator::OrchestratorState;
use mechanic::token::BrokerError;
use mechanic::token::InstallationToken;

fn event(installation_id: u64, commit_sha: &str, pull_number: u64) -> GitHubEvent {
    GitHubEvent {
        owner: "acme".to_owned(),
        repo: "widgets".to_owned(),
        pull_number,
        installation_id,
        commit_sha: commit_sha.to_owned(),
        kind: EventKind::Push,
    }
}

fn token(installation_id: u64) -> InstallationToken {
    InstallationToken {
        value: "ghs_tok".to_owned(),
        installation_id,
        issued_at: 1_000,
        expires_at: 4_600,
    }
}

#[test]
fn zero_installation_id_aborts_without_any_call() {
    let (o, a) = Orchestrator::start(event(0, "abc123", 1));
    assert_eq!(o.state, OrchestratorState::Aborted);
    assert!(matches!(a, Action::Halt));
    assert!(o.failure.is_some());
}

#[test]
fn nonzero_installation_id_asks_for_the_exchange() {
    let (o, a) = Orchestrator::start(event(7, "abc123", 1));
    assert_eq!(o.state, OrchestratorState::Normalized);
    match a {
        Action::ExchangeToken { installation_id } => assert_eq!(installation_id, 7),
        _ => panic!("the first step of an authenticated delivery is the exchange"),
    }
}

#[test]
fn failed_exchange_aborts_the_delivery() {
    let (mut o, _) = Orchestrator::start(event(7, "abc123", 1));
    let a = o.on_token(Err(BrokerError::Auth("rejected".to_owned())));
    assert_eq!(o.state, OrchestratorState::Aborted);
    assert!(matches!(a, Action::Halt));
    assert_eq!(o.failure.as_deref(), Some("rejected"));
}

#[test]
fn empty_commit_sha_ends_as_no_op() {
    let (mut o, _) = Orchestrator::start(event(7, "", 1));
    let a = o.on_token(Ok(token(7)));
    assert_eq!(o.state, OrchestratorState::NoOp);
    assert!(matches!(a, Action::Halt));
}

#[test]
fn authenticated_delivery_asks_for_the_diff() {
    let (mut o, _) = Orchestrator::start(event(7, "abc123", 1));
    let a = o.on_token(Ok(token(7)));
    assert_eq!(o.state, OrchestratorState::Authenticated);
    match a {
        Action::FetchDiff { owner, repo, commit_sha, token } => {
            assert_eq!(owner, "acme");
            assert_eq!(repo, "widgets");
            assert_eq!(commit_sha, "abc123");
            assert_eq!(token, "ghs_tok");
        },
        _ => panic!("an authenticated delivery with a commit asks for the diff"),
    }
}

#[test]
fn empty_diff_is_a_no_op_and_analysis_never_runs() {
    let (mut o, _) = Orchestrator::start(event(7, "abc123", 3));
    o.on_token(Ok(token(7)));
    let a = o.on_diff(Vec::new());
    assert_eq!(o.state, OrchestratorState::NoOp);
    match a {
        Action::PublishNoOp { pull_number, body, .. } => {
            assert_eq!(pull_number, 3);
            assert_eq!(body, "Mechanic doesn't have any suggestions to do. Great work!");
        },
        Action::RunAnalysis { .. } => panic!("analysis must never run on an empty diff"),
        _ => panic!("an empty diff posts the fixed no-op message"),
    }
}

#[test]
fn non_empty_diff_asks_for_analysis() {
    let (mut o, _) = Orchestrator::start(event(7, "abc123", 3));
    o.on_token(Ok(token(7)));
    let files = vec![ChangedFile { path: "a".to_owned(), content: "b".to_owned() }];
    let a = o.on_diff(files);
    assert_eq!(o.state, OrchestratorState::DiffFetched);
    match a {
        Action::RunAnalysis { files, commit_sha } => {
            assert_eq!(files.len(), 1);
            assert_eq!(commit_sha, "abc123");
        },
        _ => panic!("a non-empty diff goes to analysis"),
    }
}

#[test]
fn analysis_result_is_published_and_publish_failure_is_only_logged() {
    let (mut o, _) = Orchestrator::start(event(7, "abc123", 3));
    o.on_token(Ok(token(7)));
    o.on_diff(vec![ChangedFile { path: "a".to_owned(), content: "b".to_owned() }]);
    let comment = ReviewComment {
        body: "**[Title]** fix".to_owned(),
        commit_id: "abc123".to_owned(),
        path: "a".to_owned(),
        position: Position::At(1),
    };
    let a = o.on_analysis(comment);
    assert_eq!(o.state, OrchestratorState::Analyzed);
    match a {
        Action::PublishComment { pull_number, token, body, .. } => {
            assert_eq!(pull_number, 3);
            assert_eq!(token, "ghs_tok");
            assert_eq!(body, "**[Title]** fix");
        },
        _ => panic!("an analyzed delivery publishes its comment"),
    }
    let a = o.on_publish(Err("network down".to_owned()));
    assert_eq!(o.state, OrchestratorState::Published);
    assert!(matches!(a, Action::Halt));
    assert_eq!(o.failure.as_deref(), Some("network down"));
}

#[test]
fn publish_success_records_the_comment_location() {
    let (mut o, _) = Orchestrator::start(event(7, "abc123", 3));
    o.on_token(Ok(token(7)));
    o.on_diff(vec![ChangedFile { path: "a".to_owned(), content: "b".to_owned() }]);
    o.on_analysis(ReviewComment {
        body: "b".to_owned(),
        commit_id: "abc123".to_owned(),
        path: "a".to_owned(),
        position: Position::NA,
    });
    let a = o.on_publish(Ok("https://example.invalid/comment/1".to_owned()));
    assert_eq!(o.state, OrchestratorState::Published);
    assert!(matches!(a, Action::Halt));
    assert_eq!(o.comment_url.as_deref(), Some("https://example.invalid/comment/1"));
    assert!(o.failure.is_none());
}
