use vstd::prelude::*;

verus! {

/// Where one zone check stands. Phases only move forward.
#[derive(Clone, Copy, PartialEq, Eq, Structural, Debug)]
pub enum ZonePhase {
    Created,
    TypeSet,
    OriginParsed,
    OriginSet,
    Configured,
    StreamSet,
    Loading,
    Finished,
}

/// Checks and warnings the zone is loaded with.
#[derive(Clone, Copy, PartialEq, Eq, Structural, Debug)]
pub enum ZoneOption {
    CheckNs,
    CheckMx,
    CheckDupRr,
    CheckSpf,
    ManyErrors,
    CheckNames,
    CheckIntegrity,
    CheckSibling,
    CheckSvcb,
    CheckWildcard,
    WarnMxCname,
    WarnSrvCname,
    NoMerge,
}

/// Why a zone check stopped before its data was loaded.
#[derive(Clone, Copy, PartialEq, Eq, Structural, Debug)]
pub enum ZoneError {
    /// The zone name is not a valid domain name.
    InvalidOrigin,
    /// The engine refused the parsed name as the zone's origin.
    OriginRejected,
    /// The engine refused the zone text as its input stream.
    StreamRejected,
}

/// How a zone check ended. A failed load is no error of the check: its
/// reasons are in the captured diagnostics.
#[derive(Clone, Copy, PartialEq, Eq, Structural, Debug)]
pub enum ZoneOutcome {
    Loaded,
    LoadFailed,
    Rejected(ZoneError),
}

/// The engine call a zone check asks for next.
#[derive(Clone, Copy, PartialEq, Eq, Structural, Debug)]
pub enum ZoneAction {
    /// Make the zone a primary zone.
    SetPrimaryType,
    /// Parse the zone name as a domain name relative to the root.
    ParseOrigin,
    /// Set the parsed name as the zone's origin.
    SetOrigin,
    /// Apply `zone_settings()`: database backend, class, options, maximum TTL.
    Configure,
    /// Hand the zone text in as a text-format master file.
    SetStream,
    /// Load and validate the zone data.
    Load,
    /// Read out the captured diagnostics; the check ended as given.
    Report(ZoneOutcome),
    /// Nothing is left to do.
    Idle,
}

/// The database backend the zone is loaded into.
pub const ZONE_DB_TYPE: &'static str = "qpzone";

/// The DNS class the zone is loaded as (IN).
pub const ZONE_CLASS: u16 = 1;

/// How a zone is configured before its data is streamed in.
pub struct ZoneSettings {
    pub db_type: &'static str,
    pub class: u16,
    /// Options switched on; every other option is left as the engine set it.
    pub options: Vec<ZoneOption>,
    /// Zero: no cap beyond what the records themselves give.
    pub max_ttl: u32,
}

/// The options a zone check switches on, in the order they are applied.
pub open spec fn zone_options() -> Seq<ZoneOption> {
    seq![
        ZoneOption::CheckNs,
        ZoneOption::CheckMx,
        ZoneOption::CheckDupRr,
        ZoneOption::CheckSpf,
        ZoneOption::ManyErrors,
        ZoneOption::CheckNames,
        ZoneOption::CheckIntegrity,
        ZoneOption::CheckSibling,
        ZoneOption::CheckSvcb,
        ZoneOption::CheckWildcard,
        ZoneOption::WarnMxCname,
        ZoneOption::WarnSrvCname,
        ZoneOption::NoMerge,
    ]
}

/// The settings that `ZoneAction::Configure` applies.
pub fn zone_settings() -> (r: ZoneSettings)
    ensures
        r.db_type@ == ZONE_DB_TYPE@,
        r.class == ZONE_CLASS,
        r.options@ == zone_options(),
        r.max_ttl == 0,
{
    let options = vec![
        ZoneOption::CheckNs,
        ZoneOption::CheckMx,
        ZoneOption::CheckDupRr,
        ZoneOption::CheckSpf,
        ZoneOption::ManyErrors,
        ZoneOption::CheckNames,
        ZoneOption::CheckIntegrity,
        ZoneOption::CheckSibling,
        ZoneOption::CheckSvcb,
        ZoneOption::CheckWildcard,
        ZoneOption::WarnMxCname,
        ZoneOption::WarnSrvCname,
        ZoneOption::NoMerge,
    ];
    assert(options@ =~= zone_options());
    ZoneSettings { db_type: ZONE_DB_TYPE, class: ZONE_CLASS, options, max_ttl: 0 }
}

/// The next phase and action of a zone check in `phase`, given whether the
/// engine call of the previous action succeeded (`ok` is ignored where that
/// call cannot fail, and before the first action).
pub open spec fn next_step(phase: ZonePhase, ok: bool) -> (ZonePhase, ZoneAction) {
    match phase {
        ZonePhase::Created => (ZonePhase::TypeSet, ZoneAction::SetPrimaryType),
        ZonePhase::TypeSet => (ZonePhase::OriginParsed, ZoneAction::ParseOrigin),
        ZonePhase::OriginParsed => if ok {
            (ZonePhase::OriginSet, ZoneAction::SetOrigin)
        } else {
            (ZonePhase::Finished, ZoneAction::Report(ZoneOutcome::Rejected(ZoneError::InvalidOrigin)))
        },
        ZonePhase::OriginSet => if ok {
            (ZonePhase::Configured, ZoneAction::Configure)
        } else {
            (ZonePhase::Finished, ZoneAction::Report(ZoneOutcome::Rejected(ZoneError::OriginRejected)))
        },
        ZonePhase::Configured => (ZonePhase::StreamSet, ZoneAction::SetStream),
        ZonePhase::StreamSet => if ok {
            (ZonePhase::Loading, ZoneAction::Load)
        } else {
            (ZonePhase::Finished, ZoneAction::Report(ZoneOutcome::Rejected(ZoneError::StreamRejected)))
        },
        ZonePhase::Loading => if ok {
            (ZonePhase::Finished, ZoneAction::Report(ZoneOutcome::Loaded))
        } else {
            (ZonePhase::Finished, ZoneAction::Report(ZoneOutcome::LoadFailed))
        },
        ZonePhase::Finished => (ZonePhase::Finished, ZoneAction::Idle),
    }
}

/// How far a phase is along the check.
pub open spec fn phase_rank(p: ZonePhase) -> nat {
    match p {
        ZonePhase::Created => 0,
        ZonePhase::TypeSet => 1,
        ZonePhase::OriginParsed => 2,
        ZonePhase::OriginSet => 3,
        ZonePhase::Configured => 4,
        ZonePhase::StreamSet => 5,
        ZonePhase::Loading => 6,
        ZonePhase::Finished => 7,
    }
}

/// How many times a check in `phase` asks for a load while it is handed
/// the results `events`, one per step.
pub open spec fn loads_from(phase: ZonePhase, events: Seq<bool>) -> nat
    decreases events.len(),
{
    if events.len() == 0 {
        0
    } else {
        let (next, action) = next_step(phase, events[0]);
        (if action == ZoneAction::Load {
            1nat
        } else {
            0nat
        }) + loads_from(next, events.drop_first())
    }
}

/// A zone check never moves back: every step from an unfinished phase moves
/// strictly forward, and a finished check stays finished and asks for nothing.
pub proof fn lemma_phases_advance(phase: ZonePhase, ok: bool)
    ensures
        phase != ZonePhase::Finished ==> phase_rank(next_step(phase, ok).0) > phase_rank(phase),
        phase == ZonePhase::Finished ==> next_step(phase, ok) == (
            ZonePhase::Finished,
            ZoneAction::Idle,
        ),
{
}

/// A zone check asks for its data to be loaded at most once, whatever the
/// engine calls return.
pub proof fn lemma_load_at_most_once(events: Seq<bool>)
    ensures
        loads_from(ZonePhase::Created, events) <= 1,
{
    lemma_loads_bounded(ZonePhase::Created, events);
}

proof fn lemma_loads_bounded(phase: ZonePhase, events: Seq<bool>)
    ensures
        loads_from(phase, events) <= (if phase_rank(phase) <= 5 {
            1nat
        } else {
            0nat
        }),
    decreases events.len(),
{
    if events.len() > 0 {
        let (next, action) = next_step(phase, events[0]);
        lemma_loads_bounded(next, events.drop_first());
    }
}

/// The decisions of one zone check, from a new zone to its report. The caller
/// performs each action it hands out and passes back whether it succeeded.
pub struct ZoneCheck {
    phase: ZonePhase,
}

impl ZoneCheck {
    pub closed spec fn spec_phase(&self) -> ZonePhase {
        self.phase
    }

    pub fn new() -> (r: ZoneCheck)
        ensures
            r.spec_phase() == ZonePhase::Created,
    {
        ZoneCheck { phase: ZonePhase::Created }
    }

    pub fn phase(&self) -> (r: ZonePhase)
        ensures
            r == self.spec_phase(),
    {
        self.phase
    }

    /// Moves on by one step: `ok` tells whether the previous action's engine
    /// call succeeded; the result is the next action to perform.
    pub fn step(&mut self, ok: bool) -> (r: ZoneAction)
        ensures
            (final(self).spec_phase(), r) == next_step(old(self).spec_phase(), ok),
    {
        let (next, action) = match self.phase {
            ZonePhase::Created => (ZonePhase::TypeSet, ZoneAction::SetPrimaryType),
            ZonePhase::TypeSet => (ZonePhase::OriginParsed, ZoneAction::ParseOrigin),
            ZonePhase::OriginParsed => if ok {
                (ZonePhase::OriginSet, ZoneAction::SetOrigin)
            } else {
                (
                    ZonePhase::Finished,
                    ZoneAction::Report(ZoneOutcome::Rejected(ZoneError::InvalidOrigin)),
                )
            },
            ZonePhase::OriginSet => if ok {
                (ZonePhase::Configured, ZoneAction::Configure)
            } else {
                (
                    ZonePhase::Finished,
                    ZoneAction::Report(ZoneOutcome::Rejected(ZoneError::OriginRejected)),
                )
            },
            ZonePhase::Configured => (ZonePhase::StreamSet, ZoneAction::SetStream),
            ZonePhase::StreamSet => if ok {
                (ZonePhase::Loading, ZoneAction::Load)
            } else {
                (
                    ZonePhase::Finished,
                    ZoneAction::Report(ZoneOutcome::Rejected(ZoneError::StreamRejected)),
                )
            },
            ZonePhase::Loading => if ok {
                (ZonePhase::Finished, ZoneAction::Report(ZoneOutcome::Loaded))
            } else {
                (ZonePhase::Finished, ZoneAction::Report(ZoneOutcome::LoadFailed))
            },
            ZonePhase::Finished => (ZonePhase::Finished, ZoneAction::Idle),
        };
        self.phase = next;
        action
    }
}

} // verus!
