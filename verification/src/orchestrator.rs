//! The ingestion orchestrator: a state machine that sequences the
//! historical backfill and the live subscription over one block
//! cursor.
//!
//! Connecting -> Backfilling -> Subscribing, with Failed terminal.
//! Backfill covers the closed range [start_block, head]; the live
//! subscription then starts at exactly head + 1, so the two phases are
//! contiguous and never overlap. A persistence failure in either phase
//! is fatal, as is the loss of the live subscription; a decode failure
//! never reaches this machine, being absorbed per log.
use vstd::prelude::*;

verus! {

/// The phase the ingestion is in.
#[derive(Clone, Copy, Debug, PartialEq, Eq, Structural)]
pub enum Phase {
    /// Node and storage access are being established.
    Connecting,
    /// The historical range is being ingested.
    Backfilling,
    /// The live stream is being consumed.
    Subscribing,
    /// Terminal: a fatal error was reported; the process must exit.
    Failed,
}

/// What the surrounding process reports back to the orchestrator.
#[derive(Clone, Copy, Debug, PartialEq, Eq, Structural)]
pub enum OrchEvent {
    /// Node and storage access are up; the chain head at entry is `head`.
    Connected { head: u64 },
    /// Node or storage could not be reached at start.
    SetupFailed,
    /// Every log of the historical range has been attempted.
    BackfillDone,
    /// The sink reported a storage failure: the write may not have
    /// happened, so ingestion must halt rather than lose the event.
    PersistenceFailed,
    /// The live stream ended: the underlying connection terminated.
    SubscriptionLost,
}

/// What the orchestrator asks the surrounding process to do next.
#[derive(Clone, Copy, Debug, PartialEq, Eq, Structural)]
pub enum OrchAction {
    /// Fetch and ingest every matching log in the closed block range.
    RunBackfill { from: u64, to: u64 },
    /// Subscribe to matching logs from this block on, indefinitely.
    StartSubscription { from: u64 },
    /// Report the failure and exit non-zero.
    Halt,
}

/// The orchestrator: owner of the block cursor, the only mutable piece
/// of process state, advancing monotonically from the configured start
/// block.
pub struct Orchestrator {
    /// Current phase.
    pub phase: Phase,
    /// Configured first block of the historical range.
    pub start_block: u64,
    /// Chain head recorded when backfill began; the boundary between
    /// the historical range and the live stream.
    pub head: Option<u64>,
}

impl Orchestrator {
    /// The head is recorded exactly once connected, and leaves room
    /// for the subscription to start one block past it.
    pub open spec fn wf(self) -> bool {
        (self.phase == Phase::Backfilling || self.phase == Phase::Subscribing) ==> {
            &&& self.head is Some
            &&& self.head.unwrap() < u64::MAX
        }
    }

    /// Which events can arrive in which phase. The bound on the head
    /// keeps the subscription start block representable.
    pub open spec fn permits(self, event: OrchEvent) -> bool {
        match event {
            OrchEvent::Connected { head } => self.phase == Phase::Connecting && head < u64::MAX,
            OrchEvent::SetupFailed => self.phase == Phase::Connecting,
            OrchEvent::BackfillDone => self.phase == Phase::Backfilling,
            OrchEvent::PersistenceFailed => self.phase == Phase::Backfilling || self.phase
                == Phase::Subscribing,
            OrchEvent::SubscriptionLost => self.phase == Phase::Subscribing,
        }
    }

    /// How many phases lie behind this one; each step strictly
    /// increases it, so the machine never moves backwards.
    pub open spec fn phase_rank(self) -> int {
        match self.phase {
            Phase::Connecting => 0,
            Phase::Backfilling => 1,
            Phase::Subscribing => 2,
            Phase::Failed => 3,
        }
    }
}

/// The transition function of the orchestrator.
pub open spec fn spec_step(o: Orchestrator, event: OrchEvent) -> (Orchestrator, OrchAction) {
    match event {
        OrchEvent::Connected { head } => (
            Orchestrator { phase: Phase::Backfilling, head: Some(head), ..o },
            OrchAction::RunBackfill { from: o.start_block, to: head },
        ),
        OrchEvent::SetupFailed => (Orchestrator { phase: Phase::Failed, ..o }, OrchAction::Halt),
        OrchEvent::BackfillDone => (
            Orchestrator { phase: Phase::Subscribing, ..o },
            OrchAction::StartSubscription { from: (o.head.unwrap() + 1) as u64 },
        ),
        OrchEvent::PersistenceFailed => (
            Orchestrator { phase: Phase::Failed, ..o },
            OrchAction::Halt,
        ),
        OrchEvent::SubscriptionLost => (
            Orchestrator { phase: Phase::Failed, ..o },
            OrchAction::Halt,
        ),
    }
}

impl Orchestrator {
    /// A fresh orchestrator, about to establish its connections.
    pub fn new(start_block: u64) -> (o: Self)
        ensures
            o.phase == Phase::Connecting,
            o.start_block == start_block,
            o.head is None,
            o.wf(),
    {
        Orchestrator { phase: Phase::Connecting, start_block, head: None }
    }

    /// Take one step: record the event, move to the next phase, and
    /// say what to do next. Backfill covers [start_block, head]; the
    /// subscription then starts at head + 1; every failure is fatal.
    pub fn step(&mut self, event: OrchEvent) -> (action: OrchAction)
        requires
            old(self).wf(),
            old(self).permits(event),
        ensures
            (*final(self), action) == spec_step(*old(self), event),
            final(self).wf(),
            final(self).start_block == old(self).start_block,
    {
        match event {
            OrchEvent::Connected { head } => {
                self.phase = Phase::Backfilling;
                self.head = Some(head);
                OrchAction::RunBackfill { from: self.start_block, to: head }
            },
            OrchEvent::SetupFailed => {
                self.phase = Phase::Failed;
                OrchAction::Halt
            },
            OrchEvent::BackfillDone => {
                self.phase = Phase::Subscribing;
                let head = match self.head {
                    Some(h) => h,
                    None => 0,  // unreachable: permits demands Backfilling, wf a recorded head
                };
                OrchAction::StartSubscription { from: head + 1 }
            },
            OrchEvent::PersistenceFailed => {
                self.phase = Phase::Failed;
                OrchAction::Halt
            },
            OrchEvent::SubscriptionLost => {
                self.phase = Phase::Failed;
                OrchAction::Halt
            },
        }
    }
}

/// Boundary continuity: once connected at head H, the backfill range
/// is exactly [start_block, H], and the subscription that follows a
/// completed backfill starts at exactly H + 1 — contiguous ranges, no
/// gap and no overlap.
pub proof fn lemma_boundary_continuity(o: Orchestrator, head: u64)
    requires
        o.wf(),
        o.phase == Phase::Connecting,
        head < u64::MAX,
    ensures
        ({
            let (o1, a1) = spec_step(o, OrchEvent::Connected { head });
            let (o2, a2) = spec_step(o1, OrchEvent::BackfillDone);
            &&& o1.permits(OrchEvent::BackfillDone)
            &&& a1 == OrchAction::RunBackfill { from: o.start_block, to: head }
            &&& a2 == OrchAction::StartSubscription { from: (head + 1) as u64 }
        }),
{
}

/// The machine only moves forward: every permitted step strictly
/// increases the phase rank, and the Failed phase permits no event at
/// all — it is terminal.
pub proof fn lemma_phase_advances(o: Orchestrator, event: OrchEvent)
    requires
        o.wf(),
        o.permits(event),
    ensures
        spec_step(o, event).0.phase_rank() > o.phase_rank(),
        o.phase == Phase::Failed ==> false,
{
}

} // verus!
