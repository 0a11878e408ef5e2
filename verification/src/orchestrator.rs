//! The per-delivery state machine that sequences the pipeline.
//!
//! One webhook delivery walks `Received → Normalized → Authenticated →
//! DiffFetched → Analyzed → Published`, with two early-exit terminal states:
//! `NoOp` when there is nothing to review and `Aborted` when authentication
//! or configuration fails. Every outside call — the token exchange, the
//! diff retrieval, the analysis chain, the publish — happens between steps:
//! each step takes the previous call's result and decides the next state
//! and the next [`Action`], so the sequencing and failure-handling rules
//! are verified while the transport stays outside the library.

use vstd::prelude::*;
use crate::analysis::ReviewComment;
use crate::diff::ChangedFile;
use crate::event::GitHubEvent;
use crate::token::BrokerError;
use crate::token::InstallationToken;

verus! {

/// Where one delivery stands in the pipeline.
#[derive(Clone, Copy, PartialEq, Eq, Structural, Debug)]
pub enum OrchestratorState {
    /// The delivery arrived and was classified.
    Normalized,
    /// An installation token was obtained.
    Authenticated,
    /// The changed-file set was retrieved and is non-empty.
    DiffFetched,
    /// The analysis chain produced a review comment.
    Analyzed,
    /// The comment was posted, or its posting failed and was logged; the
    /// delivery counts as processed either way.
    Published,
    /// Terminal: nothing to review (no commit, or an empty diff).
    NoOp,
    /// Terminal: authentication or configuration failed; no later stage ran.
    Aborted,
}

/// The outside work the caller must perform next. `Halt` asks for nothing:
/// the delivery is done.
pub enum Action {
    /// Exchange the application's assertion for an installation token.
    ExchangeToken { installation_id: u64 },
    /// Retrieve the files the commit changed, with the token's authority.
    FetchDiff { owner: String, repo: String, commit_sha: String, token: String },
    /// Run the analysis chain over the retrieved files.
    RunAnalysis { files: Vec<ChangedFile>, commit_sha: String },
    /// Post the review comment on the pull request.
    PublishComment { owner: String, repo: String, pull_number: u64, token: String, body: String },
    /// Post the fixed nothing-to-flag message instead of running analysis.
    PublishNoOp { owner: String, repo: String, pull_number: u64, token: String, body: String },
    Halt,
}

/// The fixed message posted when a commit changed no files.
pub open spec fn no_op_message() -> Seq<char> {
    "Mechanic doesn't have any suggestions to do. Great work!"@
}

/// One delivery's pipeline run.
pub struct Orchestrator {
    pub state: OrchestratorState,
    pub event: GitHubEvent,
    pub token: Option<InstallationToken>,
    pub comment: Option<ReviewComment>,
    /// The canonical location of the posted comment, on publish success.
    pub comment_url: Option<String>,
    /// The reason the delivery aborted, or the logged publish failure.
    pub failure: Option<String>,
}

impl Orchestrator {
    /// What every reachable orchestrator satisfies: no stage past
    /// authentication runs without a token or for a delivery that carried
    /// no installation id.
    pub open spec fn wf(self) -> bool {
        &&& (self.state is Authenticated || self.state is DiffFetched || self.state is Analyzed
            || self.state is Published ==> self.token is Some
            && self.event.installation_id != 0)
        &&& (self.state is Analyzed || self.state is Published ==> self.comment is Some)
    }

    /// Take in a classified delivery and decide the first step.
    ///
    /// Normalization itself never fails; a delivery without an installation
    /// id cannot be authenticated and aborts at once, asking for no outside
    /// call. Every other delivery asks for the token exchange.
    pub fn start(event: GitHubEvent) -> (r: (Orchestrator, Action))
        ensures
            r.0.wf(),
            r.0.event == event,
            r.0.token is None,
            r.0.comment is None,
            r.0.comment_url is None,
            event.installation_id == 0 ==> r.0.state is Aborted && r.1 is Halt
                && (r.0.failure matches Some(m) && m@ == "no installation id in payload"@),
            event.installation_id != 0 ==> r.0.state is Normalized && r.0.failure is None
                && (r.1 matches Action::ExchangeToken { installation_id }
                && installation_id == event.installation_id),
    {
        if event.installation_id == 0 {
            let o = Orchestrator {
                state: OrchestratorState::Aborted,
                event,
                token: None,
                comment: None,
                comment_url: None,
                failure: Some("no installation id in payload".to_owned()),
            };
            (o, Action::Halt)
        } else {
            let installation_id = event.installation_id;
            let o = Orchestrator {
                state: OrchestratorState::Normalized,
                event,
                token: None,
                comment: None,
                comment_url: None,
                failure: None,
            };
            (o, Action::ExchangeToken { installation_id })
        }
    }

    /// Take the token exchange's outcome.
    ///
    /// A failed exchange aborts the delivery: no diff is fetched and no
    /// analysis runs. A successful one authenticates it; a delivery without
    /// a commit to inspect then ends as a no-op, and any other asks for the
    /// diff.
    pub fn on_token(&mut self, outcome: Result<InstallationToken, BrokerError>) -> (a: Action)
        requires
            old(self).state is Normalized,
            old(self).event.installation_id != 0,
            old(self).token is None,
        ensures
            final(self).wf(),
            final(self).event == old(self).event,
            final(self).comment == old(self).comment,
            final(self).comment_url == old(self).comment_url,
            outcome matches Err(e) ==> final(self).state is Aborted && a is Halt
                && final(self).token is None
                && (final(self).failure matches Some(m) && m@ == e.message_view()),
            outcome matches Ok(t) ==> final(self).failure == old(self).failure
                && final(self).token == Some(t)
                && if old(self).event.commit_sha@.len() == 0 {
                    final(self).state is NoOp && a is Halt
                } else {
                    final(self).state is Authenticated
                        && (a matches Action::FetchDiff { owner, repo, commit_sha, token }
                        && owner@ == old(self).event.owner@
                        && repo@ == old(self).event.repo@
                        && commit_sha@ == old(self).event.commit_sha@
                        && token@ == t.value@)
                },
    {
        match outcome {
            Err(e) => {
                self.state = OrchestratorState::Aborted;
                self.failure = Some(e.message().clone());
                Action::Halt
            },
            Ok(t) => {
                if self.event.commit_sha.as_str().is_empty() {
                    self.token = Some(t);
                    self.state = OrchestratorState::NoOp;
                    Action::Halt
                } else {
                    let a = Action::FetchDiff {
                        owner: self.event.owner.clone(),
                        repo: self.event.repo.clone(),
                        commit_sha: self.event.commit_sha.clone(),
                        token: t.value.clone(),
                    };
                    self.token = Some(t);
                    self.state = OrchestratorState::Authenticated;
                    a
                }
            },
        }
    }

    /// Take the retrieved changed-file set.
    ///
    /// An empty set ends the delivery as a no-op and asks for the fixed
    /// nothing-to-flag message to be posted; the analysis chain is never
    /// invoked for it. A non-empty set asks for the analysis.
    pub fn on_diff(&mut self, files: Vec<ChangedFile>) -> (a: Action)
        requires
            old(self).state is Authenticated,
            old(self).wf(),
        ensures
            final(self).wf(),
            final(self).event == old(self).event,
            final(self).token == old(self).token,
            final(self).comment == old(self).comment,
            final(self).comment_url == old(self).comment_url,
            final(self).failure == old(self).failure,
            files@.len() == 0 ==> final(self).state is NoOp
                && (a matches Action::PublishNoOp { owner, repo, pull_number, token, body }
                && owner@ == old(self).event.owner@
                && repo@ == old(self).event.repo@
                && pull_number == old(self).event.pull_number
                && token@ == old(self).token->0.value@
                && body@ == no_op_message()),
            files@.len() > 0 ==> final(self).state is DiffFetched
                && (a matches Action::RunAnalysis { files: f, commit_sha }
                && f == files
                && commit_sha@ == old(self).event.commit_sha@),
    {
        let token_value = match &self.token {
            Some(t) => t.value.clone(),
            None => String::new(),
        };
        if files.len() == 0 {
            self.state = OrchestratorState::NoOp;
            Action::PublishNoOp {
                owner: self.event.owner.clone(),
                repo: self.event.repo.clone(),
                pull_number: self.event.pull_number,
                token: token_value,
                body: "Mechanic doesn't have any suggestions to do. Great work!".to_owned(),
            }
        } else {
            self.state = OrchestratorState::DiffFetched;
            Action::RunAnalysis { files, commit_sha: self.event.commit_sha.clone() }
        }
    }

    /// Take the analysis chain's review comment and ask for its publication.
    pub fn on_analysis(&mut self, comment: ReviewComment) -> (a: Action)
        requires
            old(self).state is DiffFetched,
            old(self).wf(),
        ensures
            final(self).wf(),
            final(self).event == old(self).event,
            final(self).token == old(self).token,
            final(self).comment_url == old(self).comment_url,
            final(self).failure == old(self).failure,
            final(self).state is Analyzed,
            final(self).comment matches Some(c) && c@ == comment@,
            a matches Action::PublishComment { owner, repo, pull_number, token, body }
                && owner@ == old(self).event.owner@
                && repo@ == old(self).event.repo@
                && pull_number == old(self).event.pull_number
                && token@ == old(self).token->0.value@
                && body@ == comment.body@,
    {
        let token_value = match &self.token {
            Some(t) => t.value.clone(),
            None => String::new(),
        };
        let a = Action::PublishComment {
            owner: self.event.owner.clone(),
            repo: self.event.repo.clone(),
            pull_number: self.event.pull_number,
            token: token_value,
            body: comment.body.clone(),
        };
        self.comment = Some(comment);
        self.state = OrchestratorState::Analyzed;
        a
    }

    /// Take the publish outcome.
    ///
    /// Success records the comment's canonical location. Failure is logged
    /// in the failure field but does not revert the delivery: it still
    /// counts as processed. A delivery that was already a no-op stays one.
    pub fn on_publish(&mut self, outcome: Result<String, String>) -> (a: Action)
        requires
            old(self).state is Analyzed || old(self).state is NoOp,
            old(self).wf(),
        ensures
            final(self).wf(),
            final(self).event == old(self).event,
            final(self).token == old(self).token,
            final(self).comment == old(self).comment,
            a is Halt,
            old(self).state is Analyzed ==> final(self).state is Published,
            old(self).state is NoOp ==> final(self).state is NoOp,
            outcome matches Ok(url) ==> final(self).comment_url == Some(url)
                && final(self).failure == old(self).failure,
            outcome matches Err(e) ==> final(self).comment_url == old(self).comment_url
                && (final(self).failure matches Some(m) && m@ == e@),
    {
        match outcome {
            Ok(url) => {
                self.comment_url = Some(url);
            },
            Err(e) => {
                self.failure = Some(e);
            },
        }
        if matches!(self.state, OrchestratorState::Analyzed) {
            self.state = OrchestratorState::Published;
        }
        Action::Halt
    }
}
} // verus!
