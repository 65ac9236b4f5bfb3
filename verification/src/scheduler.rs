//! The refresh cycle as a state machine.
//!
//! The caller does the outside work (asking the disk, the feed and the clock,
//! rebuilding the index) and reports each outcome as an `Event`; `step` answers
//! with the next `Phase` and the `Action` to perform. The first cycle seeds
//! the index from the snapshot, or from the feed where there is no snapshot;
//! every later cycle starts at a tick and goes through the feed.

use crate::error::CatalogError;
use crate::nub::{records, Nub, NubView};
use crate::snapshot::{load_nubs, load_result, save_nubs, snapshot_bytes, snapshot_of};
use vstd::prelude::*;

verus! {

/// The time between two refresh cycles, in seconds.
pub const REFRESH_SECONDS: u64 = 300;

/// Where the cycle stands.
#[derive(Debug)]
pub enum Phase {
    /// Startup: asking whether a snapshot exists.
    Probing,
    /// Startup: reading the snapshot.
    Reading,
    /// Waiting for the feed, in the first cycle (`seeding`) or a later one.
    Fetching { seeding: bool },
    /// Waiting for the snapshot of these records to be written.
    Persisting { seeding: bool, items: Vec<Nub> },
    /// Waiting for the index to be rebuilt.
    Rebuilding { seeding: bool },
    /// Between two cycles.
    Idle,
    /// The first cycle failed: there is nothing to serve.
    Halted,
}

/// What the caller reports.
#[derive(Debug)]
pub enum Event {
    /// The interval has passed.
    Tick,
    SnapshotFound,
    SnapshotMissing,
    /// The bytes of the snapshot file.
    SnapshotRead(Vec<u8>),
    /// The records that the feed returned.
    Fetched(Vec<Nub>),
    Persisted,
    Rebuilt,
    /// The work that was asked for failed.
    Failed(CatalogError),
}

/// What the caller is to do next.
#[derive(Debug)]
pub enum Action {
    /// Nothing: the event was not awaited.
    Wait,
    ReadSnapshot,
    Fetch,
    /// Write these bytes as the snapshot.
    Persist(Vec<u8>),
    /// Rebuild the index from these records.
    Rebuild(Vec<Nub>),
    /// The cycle is complete: sleep until the next tick.
    Sleep,
    /// The cycle was given up: report the error and sleep until the next tick.
    Report(CatalogError),
    /// Startup failed: report the error and stop.
    Halt(CatalogError),
}

/// What a `Phase` stands for.
pub ghost enum PhaseView {
    Probing,
    Reading,
    Fetching(bool),
    Persisting(bool, Seq<NubView>),
    Rebuilding(bool),
    Idle,
    Halted,
}

/// What an `Event` stands for.
pub ghost enum EventView {
    Tick,
    SnapshotFound,
    SnapshotMissing,
    SnapshotRead(Seq<u8>),
    Fetched(Seq<NubView>),
    Persisted,
    Rebuilt,
    Failed(CatalogError),
}

/// What an `Action` stands for.
pub ghost enum ActionView {
    Wait,
    ReadSnapshot,
    Fetch,
    Persist(Seq<u8>),
    Rebuild(Seq<NubView>),
    Sleep,
    Report(CatalogError),
    Halt(CatalogError),
}

impl View for Phase {
    type V = PhaseView;

    open spec fn view(&self) -> PhaseView {
        match self {
            Phase::Probing => PhaseView::Probing,
            Phase::Reading => PhaseView::Reading,
            Phase::Fetching { seeding } => PhaseView::Fetching(*seeding),
            Phase::Persisting { seeding, items } => PhaseView::Persisting(*seeding, records(items@)),
            Phase::Rebuilding { seeding } => PhaseView::Rebuilding(*seeding),
            Phase::Idle => PhaseView::Idle,
            Phase::Halted => PhaseView::Halted,
        }
    }
}

impl View for Event {
    type V = EventView;

    open spec fn view(&self) -> EventView {
        match self {
            Event::Tick => EventView::Tick,
            Event::SnapshotFound => EventView::SnapshotFound,
            Event::SnapshotMissing => EventView::SnapshotMissing,
            Event::SnapshotRead(bytes) => EventView::SnapshotRead(bytes@),
            Event::Fetched(items) => EventView::Fetched(records(items@)),
            Event::Persisted => EventView::Persisted,
            Event::Rebuilt => EventView::Rebuilt,
            Event::Failed(error) => EventView::Failed(*error),
        }
    }
}

impl View for Action {
    type V = ActionView;

    open spec fn view(&self) -> ActionView {
        match self {
            Action::Wait => ActionView::Wait,
            Action::ReadSnapshot => ActionView::ReadSnapshot,
            Action::Fetch => ActionView::Fetch,
            Action::Persist(bytes) => ActionView::Persist(bytes@),
            Action::Rebuild(items) => ActionView::Rebuild(records(items@)),
            Action::Sleep => ActionView::Sleep,
            Action::Report(error) => ActionView::Report(*error),
            Action::Halt(error) => ActionView::Halt(*error),
        }
    }
}

/// The bytes that an optional buffer stands for.
pub open spec fn bytes_view(bytes: Option<Vec<u8>>) -> Option<Seq<u8>> {
    match bytes {
        Some(b) => Some(b@),
        None => None,
    }
}

/// How a cycle ends that cannot go on: the first one stops the service, a
/// later one is reported and the service waits for the next tick.
pub open spec fn give_up(seeding: bool, error: CatalogError) -> (PhaseView, ActionView) {
    if seeding {
        (PhaseView::Halted, ActionView::Halt(error))
    } else {
        (PhaseView::Idle, ActionView::Report(error))
    }
}

/// Whether the event is one that the phase waits for.
pub open spec fn awaited(phase: PhaseView, event: EventView) -> bool {
    match (phase, event) {
        (PhaseView::Probing, EventView::SnapshotFound) => true,
        (PhaseView::Probing, EventView::SnapshotMissing) => true,
        (PhaseView::Probing, EventView::Failed(_)) => true,
        (PhaseView::Reading, EventView::SnapshotRead(_)) => true,
        (PhaseView::Reading, EventView::Failed(_)) => true,
        (PhaseView::Fetching(_), EventView::Fetched(_)) => true,
        (PhaseView::Fetching(_), EventView::Failed(_)) => true,
        (PhaseView::Persisting(_, _), EventView::Persisted) => true,
        (PhaseView::Persisting(_, _), EventView::Failed(_)) => true,
        (PhaseView::Rebuilding(_), EventView::Rebuilt) => true,
        (PhaseView::Rebuilding(_), EventView::Failed(_)) => true,
        (PhaseView::Idle, EventView::Tick) => true,
        _ => false,
    }
}

/// The next phase and the action, given the bytes of the snapshot of the
/// fetched records where they could be made (`saved`; it is looked at only
/// when records arrive from the feed).
pub open spec fn next(phase: PhaseView, event: EventView, saved: Option<Seq<u8>>) -> (
    PhaseView,
    ActionView,
) {
    match (phase, event) {
        (PhaseView::Probing, EventView::SnapshotFound) => (
            PhaseView::Reading,
            ActionView::ReadSnapshot,
        ),
        (PhaseView::Probing, EventView::SnapshotMissing) => (
            PhaseView::Fetching(true),
            ActionView::Fetch,
        ),
        (PhaseView::Probing, EventView::Failed(error)) => give_up(true, error),
        (PhaseView::Reading, EventView::SnapshotRead(bytes)) => match load_result(bytes) {
            Ok(items) => (PhaseView::Rebuilding(true), ActionView::Rebuild(items)),
            Err(error) => give_up(true, error),
        },
        (PhaseView::Reading, EventView::Failed(error)) => give_up(true, error),
        (PhaseView::Fetching(seeding), EventView::Fetched(items)) => match saved {
            Some(bytes) => (PhaseView::Persisting(seeding, items), ActionView::Persist(bytes)),
            None => give_up(seeding, CatalogError::Storage),
        },
        (PhaseView::Fetching(seeding), EventView::Failed(error)) => give_up(seeding, error),
        (PhaseView::Persisting(seeding, items), EventView::Persisted) => (
            PhaseView::Rebuilding(seeding),
            ActionView::Rebuild(items),
        ),
        (PhaseView::Persisting(seeding, _), EventView::Failed(error)) => give_up(seeding, error),
        (PhaseView::Rebuilding(_), EventView::Rebuilt) => (PhaseView::Idle, ActionView::Sleep),
        (PhaseView::Rebuilding(seeding), EventView::Failed(error)) => give_up(seeding, error),
        (PhaseView::Idle, EventView::Tick) => (PhaseView::Fetching(false), ActionView::Fetch),
        _ => (phase, ActionView::Wait),
    }
}

/// Whether the phase belongs to the first cycle.
pub open spec fn seeding(phase: PhaseView) -> bool {
    match phase {
        PhaseView::Probing => true,
        PhaseView::Reading => true,
        PhaseView::Fetching(seeding) => seeding,
        PhaseView::Persisting(seeding, _) => seeding,
        PhaseView::Rebuilding(seeding) => seeding,
        _ => false,
    }
}

/// How a cycle ends that cannot go on.
fn abandon(seeding: bool, error: CatalogError) -> (out: (Phase, Action))
    ensures
        (out.0@, out.1@) == give_up(seeding, error),
{
    if seeding {
        (Phase::Halted, Action::Halt(error))
    } else {
        (Phase::Idle, Action::Report(error))
    }
}

/// The next phase and the action, given the bytes of the snapshot of the
/// fetched records where they could be made.
pub fn decide(phase: Phase, event: Event, saved: Option<Vec<u8>>) -> (out: (Phase, Action))
    ensures
        (out.0@, out.1@) == next(phase@, event@, bytes_view(saved)),
{
    match (phase, event) {
        (Phase::Probing, Event::SnapshotFound) => (Phase::Reading, Action::ReadSnapshot),
        (Phase::Probing, Event::SnapshotMissing) => (
            Phase::Fetching { seeding: true },
            Action::Fetch,
        ),
        (Phase::Probing, Event::Failed(error)) => abandon(true, error),
        (Phase::Reading, Event::SnapshotRead(bytes)) => match load_nubs(bytes.as_slice()) {
            Ok(items) => (Phase::Rebuilding { seeding: true }, Action::Rebuild(items)),
            Err(error) => abandon(true, error),
        },
        (Phase::Reading, Event::Failed(error)) => abandon(true, error),
        (Phase::Fetching { seeding }, Event::Fetched(items)) => match saved {
            Some(bytes) => (Phase::Persisting { seeding, items }, Action::Persist(bytes)),
            None => abandon(seeding, CatalogError::Storage),
        },
        (Phase::Fetching { seeding }, Event::Failed(error)) => abandon(seeding, error),
        (Phase::Persisting { seeding, items }, Event::Persisted) => (
            Phase::Rebuilding { seeding },
            Action::Rebuild(items),
        ),
        (Phase::Persisting { seeding, items: _ }, Event::Failed(error)) => abandon(seeding, error),
        (Phase::Rebuilding { seeding: _ }, Event::Rebuilt) => (Phase::Idle, Action::Sleep),
        (Phase::Rebuilding { seeding }, Event::Failed(error)) => abandon(seeding, error),
        (Phase::Idle, Event::Tick) => (Phase::Fetching { seeding: false }, Action::Fetch),
        (phase, _) => (phase, Action::Wait),
    }
}

/// The bytes to persist for the records that an event brings from the feed:
/// their snapshot, or nothing where none can be made. Other events bring no
/// records.
pub open spec fn saved_for(event: EventView) -> Option<Seq<u8>> {
    match event {
        EventView::Fetched(items) => snapshot_bytes(items),
        _ => None,
    }
}

/// The next phase and the action. Where records arrive from the feed, the
/// bytes to persist are the snapshot of exactly those records, and the cycle
/// is given up only where no snapshot can be made.
pub fn step(phase: Phase, event: Event) -> (out: (Phase, Action))
    ensures
        (out.0@, out.1@) == next(phase@, event@, saved_for(event@)),
        match (out.1@, event@) {
            (ActionView::Persist(bytes), EventView::Fetched(items)) => snapshot_of(bytes) == Some(
                items,
            ),
            _ => true,
        },
{
    let saved = match (&phase, &event) {
        (Phase::Fetching { seeding: _ }, Event::Fetched(items)) => match save_nubs(items) {
            Ok(bytes) => Some(bytes),
            Err(_) => None,
        },
        _ => None,
    };
    decide(phase, event, saved)
}

/// The phase in which the service starts. The caller begins by asking
/// whether a snapshot exists.
pub fn start() -> (out: Phase)
    ensures
        out@ == PhaseView::Probing,
{
    Phase::Probing
}

/// Without a snapshot at startup the feed is asked, what is persisted is a
/// snapshot of exactly the records that the feed returned, and the index is
/// rebuilt from those records.
pub proof fn lemma_seeding_without_snapshot(items: Seq<NubView>, bytes: Seq<u8>)
    requires
        snapshot_of(bytes) == Some(items),
    ensures
        next(PhaseView::Probing, EventView::SnapshotMissing, None) == (
            PhaseView::Fetching(true),
            ActionView::Fetch,
        ),
        next(PhaseView::Fetching(true), EventView::Fetched(items), Some(bytes)) == (
            PhaseView::Persisting(true, items),
            ActionView::Persist(bytes),
        ),
        next(PhaseView::Persisting(true, items), EventView::Persisted, None) == (
            PhaseView::Rebuilding(true),
            ActionView::Rebuild(items),
        ),
        next(PhaseView::Rebuilding(true), EventView::Rebuilt, None) == (
            PhaseView::Idle,
            ActionView::Sleep,
        ),
        load_result(bytes) == Ok::<Seq<NubView>, CatalogError>(items),
{
}

/// The feed is asked in two situations only: at startup when no snapshot is
/// found, and at a tick between two cycles. Startup is never entered again,
/// and a cycle waits for the feed only where it has just asked it or was
/// waiting already.
pub proof fn lemma_fetch_once(phase: PhaseView, event: EventView, saved: Option<Seq<u8>>)
    ensures
        next(phase, event, saved).1 == ActionView::Fetch <==> (phase == PhaseView::Probing && event
            == EventView::SnapshotMissing) || (phase == PhaseView::Idle && event
            == EventView::Tick),
        next(phase, event, saved).0 != PhaseView::Probing || phase == PhaseView::Probing,
        next(phase, event, saved).0 is Fetching ==> next(phase, event, saved).1 == ActionView::Fetch
            || next(phase, event, saved) == (phase, ActionView::Wait),
{
}

/// Once the first cycle is over, no failure stops the service: a cycle that
/// fails is reported, and the service waits for the next tick.
pub proof fn lemma_refresh_never_halts(phase: PhaseView, event: EventView, saved: Option<Seq<u8>>)
    requires
        !seeding(phase),
        phase != PhaseView::Halted,
    ensures
        !seeding(next(phase, event, saved).0),
        next(phase, event, saved).0 != PhaseView::Halted,
        !(next(phase, event, saved).1 is Halt),
        match event {
            EventView::Failed(error) => awaited(phase, event) ==> next(phase, event, saved) == (
                PhaseView::Idle,
                ActionView::Report(error),
            ),
            _ => true,
        },
{
}

/// The index is rebuilt only from records that were just read from the
/// snapshot or just persisted, and an event that is not awaited changes
/// nothing.
pub proof fn lemma_rebuild_sources(phase: PhaseView, event: EventView, saved: Option<Seq<u8>>)
    ensures
        match next(phase, event, saved).1 {
            ActionView::Rebuild(items) => match (phase, event) {
                (PhaseView::Reading, EventView::SnapshotRead(bytes)) => load_result(bytes) == Ok::<
                    Seq<NubView>,
                    CatalogError,
                >(items),
                (PhaseView::Persisting(_, kept), EventView::Persisted) => kept == items,
                _ => false,
            },
            _ => true,
        },
        !awaited(phase, event) ==> next(phase, event, saved) == (phase, ActionView::Wait),
{
}

} // verus!
