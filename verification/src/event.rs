//! Classification of inbound webhook deliveries.
//!
//! A delivery arrives as an event-type header and a JSON payload. The caller
//! extracts the handful of fields the pipeline reads into a [`WebhookPayload`]
//! of plain values; [`process_github_payload`] then classifies the delivery
//! into a [`GitHubEvent`]. Classification is total: a missing header or a
//! missing field leaves the corresponding output field at its zero value, it
//! never fails the delivery.

use vstd::prelude::*;

verus! {

/// What kind of delivery a webhook payload was classified as.
#[derive(Clone, Copy, PartialEq, Eq, Structural, Debug)]
pub enum EventKind {
    /// A push-style delivery: identity fields come from the generic
    /// repository / `after` fields.
    Push,
    /// A `pull_request` delivery whose action is `synchronize`.
    PullRequestSynchronize,
    /// Anything else: a missing header, or a `pull_request` delivery with
    /// some other action. No identity fields are populated.
    Other,
}

/// The fields of a webhook delivery that classification reads, as plain
/// values. `None` stands for a header or payload field that is absent.
pub struct WebhookPayload {
    /// The event-type header of the request.
    pub event_type: Option<String>,
    /// The payload's `action` field.
    pub action: Option<String>,
    /// The payload's `repository.owner.login` field.
    pub owner: Option<String>,
    /// The payload's `repository.name` field.
    pub repo: Option<String>,
    /// The payload's `pull_request.number` field.
    pub pull_number: Option<u64>,
    /// The payload's `after` field: the head commit of the delivery.
    pub after: Option<String>,
    /// The payload's `installation.id` field.
    pub installation_id: Option<u64>,
}

/// The canonical classification of one webhook delivery. Fields default to
/// empty / zero when absent from the payload; `pull_number == 0` means there
/// is no pull request to comment on, `installation_id == 0` that the delivery
/// cannot be authenticated.
pub struct GitHubEvent {
    pub owner: String,
    pub repo: String,
    pub pull_number: u64,
    pub installation_id: u64,
    pub commit_sha: String,
    pub kind: EventKind,
}

/// The mathematical image of a [`WebhookPayload`].
#[verifier::ext_equal]
pub struct PayloadView {
    pub event_type: Option<Seq<char>>,
    pub action: Option<Seq<char>>,
    pub owner: Option<Seq<char>>,
    pub repo: Option<Seq<char>>,
    pub pull_number: Option<u64>,
    pub after: Option<Seq<char>>,
    pub installation_id: Option<u64>,
}

impl View for WebhookPayload {
    type V = PayloadView;

    open spec fn view(&self) -> PayloadView {
        PayloadView {
            event_type: self.event_type.deep_view(),
            action: self.action.deep_view(),
            owner: self.owner.deep_view(),
            repo: self.repo.deep_view(),
            pull_number: self.pull_number,
            after: self.after.deep_view(),
            installation_id: self.installation_id,
        }
    }
}

/// The mathematical image of a [`GitHubEvent`].
#[verifier::ext_equal]
pub struct EventView {
    pub owner: Seq<char>,
    pub repo: Seq<char>,
    pub pull_number: u64,
    pub installation_id: u64,
    pub commit_sha: Seq<char>,
    pub kind: EventKind,
}

impl View for GitHubEvent {
    type V = EventView;

    open spec fn view(&self) -> EventView {
        EventView {
            owner: self.owner@,
            repo: self.repo@,
            pull_number: self.pull_number,
            installation_id: self.installation_id,
            commit_sha: self.commit_sha@,
            kind: self.kind,
        }
    }
}

/// An absent string field reads as the empty string.
pub open spec fn str_or_empty(s: Option<Seq<char>>) -> Seq<char> {
    match s {
        Some(v) => v,
        None => Seq::empty(),
    }
}

/// An absent numeric field reads as zero.
pub open spec fn num_or_zero(n: Option<u64>) -> u64 {
    match n {
        Some(v) => v,
        None => 0,
    }
}

/// The event with every identity field at its zero value.
pub open spec fn empty_event() -> EventView {
    EventView {
        owner: Seq::empty(),
        repo: Seq::empty(),
        pull_number: 0,
        installation_id: 0,
        commit_sha: Seq::empty(),
        kind: EventKind::Other,
    }
}

/// How one payload classifies, for every payload.
///
/// A `pull_request` delivery whose action is `synchronize` is populated from
/// the pull-request fields; any other event type is read with push semantics
/// (no pull number). A missing header, or a `pull_request` delivery with a
/// different action, classifies as the empty event.
pub open spec fn normalized_event(p: PayloadView) -> EventView {
    match p.event_type {
        None => empty_event(),
        Some(ev) => if ev == "pull_request"@ {
            if p.action == Some("synchronize"@) {
                EventView {
                    owner: str_or_empty(p.owner),
                    repo: str_or_empty(p.repo),
                    pull_number: num_or_zero(p.pull_number),
                    installation_id: num_or_zero(p.installation_id),
                    commit_sha: str_or_empty(p.after),
                    kind: EventKind::PullRequestSynchronize,
                }
            } else {
                empty_event()
            }
        } else {
            EventView {
                owner: str_or_empty(p.owner),
                repo: str_or_empty(p.repo),
                pull_number: 0,
                installation_id: num_or_zero(p.installation_id),
                commit_sha: str_or_empty(p.after),
                kind: EventKind::Push,
            }
        },
    }
}

/// A payload field, or the empty string where it is absent.
fn field_or_empty(o: &Option<String>) -> (r: String)
    ensures
        r@ == str_or_empty(o.deep_view()),
{
    match o {
        Some(s) => s.clone(),
        None => String::new(),
    }
}

/// A payload field, or zero where it is absent.
fn field_or_zero(o: &Option<u64>) -> (r: u64)
    ensures
        r == num_or_zero(*o),
{
    match o {
        Some(n) => *n,
        None => 0,
    }
}

/// The installation id the payload carries, if any.
pub fn get_installation_id(payload: &WebhookPayload) -> (r: Option<u64>)
    ensures
        r == payload.installation_id,
{
    payload.installation_id
}

fn make_empty_event() -> (e: GitHubEvent)
    ensures
        e@ == empty_event(),
{
    GitHubEvent {
        owner: String::new(),
        repo: String::new(),
        pull_number: 0,
        installation_id: 0,
        commit_sha: String::new(),
        kind: EventKind::Other,
    }
}

/// Classify a webhook delivery into its canonical event.
///
/// This is pure and total: the same payload always yields the same event,
/// and no payload is rejected.
pub fn process_github_payload(payload: &WebhookPayload) -> (e: GitHubEvent)
    ensures
        e@ == normalized_event(payload@),
{
    match &payload.event_type {
        None => make_empty_event(),
        Some(ev) => {
            let pull_request_type: String = "pull_request".to_owned();
            if *ev == pull_request_type {
                let synchronize: String = "synchronize".to_owned();
                let is_sync = match &payload.action {
                    Some(a) => *a == synchronize,
                    None => false,
                };
                if is_sync {
                    GitHubEvent {
                        owner: field_or_empty(&payload.owner),
                        repo: field_or_empty(&payload.repo),
                        pull_number: field_or_zero(&payload.pull_number),
                        installation_id: field_or_zero(&payload.installation_id),
                        commit_sha: field_or_empty(&payload.after),
                        kind: EventKind::PullRequestSynchronize,
                    }
                } else {
                    make_empty_event()
                }
            } else {
                GitHubEvent {
                    owner: field_or_empty(&payload.owner),
                    repo: field_or_empty(&payload.repo),
                    pull_number: 0,
                    installation_id: field_or_zero(&payload.installation_id),
                    commit_sha: field_or_empty(&payload.after),
                    kind: EventKind::Push,
                }
            }
        },
    }
}

/// A payload without an event-type header classifies to the event with every
/// identity field at its zero value; classification never fails.
pub proof fn lemma_missing_header_normalizes_empty(p: PayloadView)
    requires
        p.event_type is None,
    ensures
        normalized_event(p) == empty_event(),
{
}

/// Classification is idempotent in the sense that it is a function of the
/// payload alone: equal payloads classify to equal events.
pub proof fn lemma_normalization_deterministic(first: PayloadView, second: PayloadView)
    requires
        first == second,
    ensures
        normalized_event(first) == normalized_event(second),
{
}

} // verus!
