//! The create protocol as a step machine.
//!
//! One create call walks the phases validate, check-existing, insert,
//! conflict-recovery. The storage round trips between the phases are the
//! caller's: a driver performs the lookup or insert its phase asks for and
//! feeds the outcome back as an event. The transition functions here decide
//! everything else, so a driver sitting on any backend — the in-memory one
//! of [`crate::registry`] or an external database — carries no logic of its
//! own. No retries exist beyond the single conflict-recovery re-read.

use vstd::prelude::*;
use crate::api::CreateLinkResponse;
use crate::errors::{CreateError, StoreError};
use crate::urlcheck::{url_ok, validate_url};

verus! {

/// The phases of one create call.
pub enum CreatePhase {
    /// Ask the backend for an existing code for the URL.
    CheckExisting,
    /// Attempt to insert the candidate code with the given timestamp.
    TryInsert {
        /// The candidate code to insert.
        code: String,
        /// The timestamp to record for the new row.
        created_at: i64,
    },
    /// The insert lost a uniqueness race: re-read the winner by URL.
    Recover,
    /// Terminal: the link exists and this is its record.
    Done {
        /// The record to report to the caller.
        response: CreateLinkResponse,
    },
    /// Terminal: creation failed.
    Failed {
        /// Why creation failed.
        error: CreateError,
    },
}

/// What a lookup by URL reported.
pub enum FindEvent {
    /// A row with this code holds the URL.
    Found(String),
    /// No row holds the URL.
    Absent,
    /// The lookup itself failed.
    Fault,
}

/// What the insert attempt reported.
#[derive(Clone, Copy, Debug, PartialEq, Eq, Structural)]
pub enum InsertEvent {
    /// The row is in; this caller won any race there was.
    Inserted,
    /// The backend refused the insert with the given signal.
    Refused(StoreError),
}

/// A phase, as the mathematical model sees it.
pub enum PhaseView {
    /// Ask the backend for an existing code for the URL.
    CheckExisting,
    /// Attempt to insert the candidate code with the given timestamp.
    TryInsert {
        /// The candidate code to insert.
        code: Seq<char>,
        /// The timestamp to record for the new row.
        created_at: int,
    },
    /// The insert lost a uniqueness race: re-read the winner by URL.
    Recover,
    /// Terminal: the link exists, under this code and URL.
    Done {
        /// The code reported to the caller.
        code: Seq<char>,
        /// The URL reported to the caller.
        url: Seq<char>,
    },
    /// Terminal: creation failed.
    Failed {
        /// Why creation failed.
        error: CreateError,
    },
}

impl View for CreatePhase {
    type V = PhaseView;

    open spec fn view(&self) -> PhaseView {
        match self {
            CreatePhase::CheckExisting => PhaseView::CheckExisting,
            CreatePhase::TryInsert { code, created_at } => PhaseView::TryInsert {
                code: code@,
                created_at: *created_at as int,
            },
            CreatePhase::Recover => PhaseView::Recover,
            CreatePhase::Done { response } => PhaseView::Done {
                code: response.code@,
                url: response.url@,
            },
            CreatePhase::Failed { error } => PhaseView::Failed { error: *error },
        }
    }
}

/// A lookup outcome, as the mathematical model sees it.
pub enum FindView {
    /// A row with this code holds the URL.
    Found(Seq<char>),
    /// No row holds the URL.
    Absent,
    /// The lookup itself failed.
    Fault,
}

impl View for FindEvent {
    type V = FindView;

    open spec fn view(&self) -> FindView {
        match self {
            FindEvent::Found(c) => FindView::Found(c@),
            FindEvent::Absent => FindView::Absent,
            FindEvent::Fault => FindView::Fault,
        }
    }
}

/// Validation, the first step: a URL that does not parse, or parses
/// without a host, fails fast, before any storage access.
pub open spec fn spec_begin(u: Seq<char>) -> PhaseView {
    if url_ok(u) {
        PhaseView::CheckExisting
    } else {
        PhaseView::Failed { error: CreateError::InvalidUrl }
    }
}

/// The fast path: an existing code is returned as is; otherwise the fresh
/// candidate goes to the insert attempt.
pub open spec fn spec_on_existing(
    u: Seq<char>,
    ev: FindView,
    fresh: Seq<char>,
    now: int,
) -> PhaseView {
    match ev {
        FindView::Found(c) => PhaseView::Done { code: c, url: u },
        FindView::Absent => PhaseView::TryInsert { code: fresh, created_at: now },
        FindView::Fault => PhaseView::Failed { error: CreateError::StorageFault },
    }
}

/// The insert attempt: success is terminal; the normalized uniqueness
/// signal, and only it, leads to conflict recovery.
pub open spec fn spec_on_insert(u: Seq<char>, code: Seq<char>, ev: InsertEvent) -> PhaseView {
    match ev {
        InsertEvent::Inserted => PhaseView::Done { code, url: u },
        InsertEvent::Refused(StoreError::UniqueViolation) => PhaseView::Recover,
        InsertEvent::Refused(StoreError::Other) => PhaseView::Failed {
            error: CreateError::StorageFault,
        },
    }
}

/// Conflict recovery: the re-read either finds the concurrent winner, whose
/// record is returned, or creation fails — no retry with a new code.
pub open spec fn spec_on_recover(u: Seq<char>, ev: FindView) -> PhaseView {
    match ev {
        FindView::Found(c) => PhaseView::Done { code: c, url: u },
        FindView::Absent => PhaseView::Failed { error: CreateError::StorageFault },
        FindView::Fault => PhaseView::Failed { error: CreateError::StorageFault },
    }
}

/// Start a create call for `url`.
pub fn create_begin(url: &str) -> (p: CreatePhase)
    ensures
        p@ == spec_begin(url@),
{
    match validate_url(url) {
        Ok(()) => CreatePhase::CheckExisting,
        Err(e) => CreatePhase::Failed { error: e },
    }
}

/// Feed back what the check for an existing code reported, together with a
/// fresh candidate code and the timestamp to use if an insert is needed.
pub fn on_existing(url: &str, ev: FindEvent, fresh_code: String, now: i64) -> (p: CreatePhase)
    ensures
        p@ == spec_on_existing(url@, ev@, fresh_code@, now as int),
{
    match ev {
        FindEvent::Found(c) => CreatePhase::Done {
            response: CreateLinkResponse { code: c, url: url.to_owned() },
        },
        FindEvent::Absent => CreatePhase::TryInsert { code: fresh_code, created_at: now },
        FindEvent::Fault => CreatePhase::Failed { error: CreateError::StorageFault },
    }
}

/// Feed back what the insert attempt reported.
pub fn on_insert_result(url: &str, code: String, ev: InsertEvent) -> (p: CreatePhase)
    ensures
        p@ == spec_on_insert(url@, code@, ev),
{
    match ev {
        InsertEvent::Inserted => CreatePhase::Done {
            response: CreateLinkResponse { code, url: url.to_owned() },
        },
        InsertEvent::Refused(StoreError::UniqueViolation) => CreatePhase::Recover,
        InsertEvent::Refused(StoreError::Other) => CreatePhase::Failed {
            error: CreateError::StorageFault,
        },
    }
}

/// Feed back what the conflict-recovery re-read reported.
pub fn on_recover(url: &str, ev: FindEvent) -> (p: CreatePhase)
    ensures
        p@ == spec_on_recover(url@, ev@),
{
    match ev {
        FindEvent::Found(c) => CreatePhase::Done {
            response: CreateLinkResponse { code: c, url: url.to_owned() },
        },
        FindEvent::Absent => CreatePhase::Failed { error: CreateError::StorageFault },
        FindEvent::Fault => CreatePhase::Failed { error: CreateError::StorageFault },
    }
}

/// The terminal phase one create call reaches, given the URL and the three
/// storage outcomes it may consume: the first lookup, the insert attempt,
/// and the conflict-recovery re-read.
pub open spec fn run_create(
    u: Seq<char>,
    first: FindView,
    fresh: Seq<char>,
    now: int,
    ins: InsertEvent,
    second: FindView,
) -> PhaseView {
    if !url_ok(u) {
        spec_begin(u)
    } else {
        match spec_on_existing(u, first, fresh, now) {
            PhaseView::TryInsert { code, created_at } => {
                match spec_on_insert(u, code, ins) {
                    PhaseView::Recover => spec_on_recover(u, second),
                    other => other,
                }
            },
            other => other,
        }
    }
}

/// What the storage layer guarantees among concurrent create calls for one
/// URL: its uniqueness constraint admits a single winning code, so every
/// lookup that finds a code for the URL finds that one, and an insert that
/// succeeds inserted it.
pub open spec fn consistent_with_winner(
    winner: Seq<char>,
    first: FindView,
    fresh: Seq<char>,
    ins: InsertEvent,
    second: FindView,
) -> bool {
    &&& (first matches FindView::Found(c) ==> c == winner)
    &&& (second matches FindView::Found(c) ==> c == winner)
    &&& (ins is Inserted ==> fresh == winner)
}

/// Among any number of simultaneous create calls for one URL, exactly one
/// distinct code is observed: any two calls that complete successfully
/// report the single winning code, never two differing codes.
pub proof fn lemma_race_single_winner(
    u: Seq<char>,
    winner: Seq<char>,
    first_a: FindView,
    fresh_a: Seq<char>,
    now_a: int,
    ins_a: InsertEvent,
    second_a: FindView,
    first_b: FindView,
    fresh_b: Seq<char>,
    now_b: int,
    ins_b: InsertEvent,
    second_b: FindView,
)
    requires
        consistent_with_winner(winner, first_a, fresh_a, ins_a, second_a),
        consistent_with_winner(winner, first_b, fresh_b, ins_b, second_b),
        run_create(u, first_a, fresh_a, now_a, ins_a, second_a) is Done,
        run_create(u, first_b, fresh_b, now_b, ins_b, second_b) is Done,
    ensures
        run_create(u, first_a, fresh_a, now_a, ins_a, second_a) == (PhaseView::Done {
            code: winner,
            url: u,
        }),
        run_create(u, first_b, fresh_b, now_b, ins_b, second_b) == (PhaseView::Done {
            code: winner,
            url: u,
        }),
{
}

} // verus!
