//! The orchestrator: owns the procedure for the aircraft being flown, turns
//! outside events into engine inputs, and swaps the engine when the aircraft
//! changes.
use vstd::prelude::*;
use crate::aircraft::{AircraftId, AppMessage, str_eq};
use crate::sequence::{FsmMessage, Output, Query, Reading, SequenceEngine, Step, advanced, query_for};

verus! {

/// The position of a known aircraft in the list of types.
pub open spec fn kind_index(a: &AircraftId) -> int {
    match a {
        AircraftId::A_10C => 0,
        AircraftId::A_10C_2 => 1,
        AircraftId::AH_64D_BLK_II => 2,
        AircraftId::AJS37 => 3,
        AircraftId::AV8BNA => 4,
        AircraftId::F_14B => 5,
        AircraftId::F_15ESE => 6,
        AircraftId::F_15ESE_WSO => 7,
        AircraftId::F_16C_50 => 8,
        AircraftId::FA_18C_hornet => 9,
        AircraftId::M_2000C => 10,
        AircraftId::Mi_24P => 11,
        AircraftId::Mi_8MT => 12,
        AircraftId::Mi_8MT_Copilot => 13,
        AircraftId::Mi_8MT_FO => 14,
        AircraftId::MiG_21Bis => 15,
        AircraftId::SA342L => 16,
        AircraftId::Su_25 => 17,
        AircraftId::Su_25T => 18,
        AircraftId::UH_1H => 19,
        AircraftId::Unknown(_) => 20,
    }
}

/// Two aircraft ids name the same type (for unknown types: the same name).
pub open spec fn same_aircraft_spec(a: &AircraftId, b: &AircraftId) -> bool {
    match (a, b) {
        (AircraftId::Unknown(x), AircraftId::Unknown(y)) => x@ == y@,
        _ => kind_index(a) == kind_index(b),
    }
}

fn kind_number(a: &AircraftId) -> (r: u8)
    ensures
        r as int == kind_index(a),
{
    match a {
        AircraftId::A_10C => 0u8,
        AircraftId::A_10C_2 => 1u8,
        AircraftId::AH_64D_BLK_II => 2u8,
        AircraftId::AJS37 => 3u8,
        AircraftId::AV8BNA => 4u8,
        AircraftId::F_14B => 5u8,
        AircraftId::F_15ESE => 6u8,
        AircraftId::F_15ESE_WSO => 7u8,
        AircraftId::F_16C_50 => 8u8,
        AircraftId::FA_18C_hornet => 9u8,
        AircraftId::M_2000C => 10u8,
        AircraftId::Mi_24P => 11u8,
        AircraftId::Mi_8MT => 12u8,
        AircraftId::Mi_8MT_Copilot => 13u8,
        AircraftId::Mi_8MT_FO => 14u8,
        AircraftId::MiG_21Bis => 15u8,
        AircraftId::SA342L => 16u8,
        AircraftId::Su_25 => 17u8,
        AircraftId::Su_25T => 18u8,
        AircraftId::UH_1H => 19u8,
        AircraftId::Unknown(_) => 20u8,
    }
}

/// Whether `a` and `b` name the same aircraft type.
pub fn same_aircraft(a: &AircraftId, b: &AircraftId) -> (r: bool)
    ensures
        r == same_aircraft_spec(a, b),
{
    match (a, b) {
        (AircraftId::Unknown(x), AircraftId::Unknown(y)) => str_eq(x.as_str(), y.as_str()),
        _ => kind_number(a) == kind_number(b),
    }
}

/// The aircraft types that have a procedure.
pub open spec fn has_procedure(a: &AircraftId) -> bool {
    a == AircraftId::F_16C_50 || a == AircraftId::MiG_21Bis
}

/// `steps` is the procedure of `a`.
pub open spec fn procedure_for(a: &AircraftId, steps: Seq<Step>) -> bool {
    match a {
        AircraftId::F_16C_50 => crate::f16c50::f16_procedure(steps),
        AircraftId::MiG_21Bis => crate::mig21bis::mig21_procedure(steps),
        _ => false,
    }
}

/// The procedure for `aircraft`, if it has one.
pub fn get_aircraft(aircraft: &AircraftId) -> (r: Option<Vec<Step>>)
    ensures
        r.is_some() == has_procedure(aircraft),
        r matches Some(s) ==> procedure_for(aircraft, s@),
{
    match aircraft {
        AircraftId::F_16C_50 => Some(crate::f16c50::startup_procedure()),
        AircraftId::MiG_21Bis => Some(crate::mig21bis::startup_procedure()),
        _ => None,
    }
}

/// The orchestrator's state: the aircraft being flown and its procedure.
#[derive(Debug)]
pub struct Orchestrator {
    aircraft: AircraftId,
    engine: Option<SequenceEngine>,
}

impl Orchestrator {
    pub closed spec fn aircraft(&self) -> AircraftId {
        self.aircraft
    }

    pub closed spec fn engine(&self) -> Option<SequenceEngine> {
        self.engine
    }

    pub open spec fn wf(&self) -> bool {
        &&& (self.engine() is Some <==> has_procedure(&self.aircraft()))
        &&& (self.engine() matches Some(e) ==> e.wf())
    }

    /// No aircraft yet, and no procedure.
    pub fn new() -> (r: Self)
        ensures
            r.wf(),
            r.aircraft() matches AircraftId::Unknown(s) && s@.len() == 0,
            r.engine().is_none(),
    {
        Orchestrator { aircraft: AircraftId::Unknown(String::new()), engine: None }
    }

    /// The aircraft now flown is `aircraft`. A new type gets a fresh
    /// procedure in place of the old one; the same type again changes
    /// nothing.
    pub fn aircraft_changed(&mut self, aircraft: AircraftId) -> (changed: bool)
        requires
            old(self).wf(),
        ensures
            final(self).wf(),
            changed == !same_aircraft_spec(&old(self).aircraft(), &aircraft),
            !changed ==> *final(self) == *old(self),
            changed ==> final(self).aircraft() == aircraft && match final(self).engine() {
                Some(e) => e.phase() == crate::sequence::Phase::Idle && procedure_for(
                    &aircraft,
                    e.steps(),
                ),
                None => true,
            },
    {
        if same_aircraft(&self.aircraft, &aircraft) {
            return false;
        }
        self.engine = match get_aircraft(&aircraft) {
            Some(steps) => Some(SequenceEngine::new(steps)),
            None => None,
        };
        self.aircraft = aircraft;
        true
    }

    /// What the driver should read before the next tick.
    pub fn query(&self) -> (r: Query)
        requires
            self.wf(),
        ensures
            match self.engine() {
                Some(e) => match e.phase() {
                    crate::sequence::Phase::Running(i) => query_for(&e.steps()[i as int], &r),
                    _ => r == Query::Nothing,
                },
                None => r == Query::Nothing,
            },
    {
        match &self.engine {
            Some(e) => e.query(),
            None => Query::Nothing,
        }
    }

    /// One tick of the active procedure; without one, nothing happens.
    pub fn tick(&mut self, event: FsmMessage, now: i64, reading: &Reading) -> (out: Output)
        requires
            old(self).wf(),
        ensures
            final(self).wf(),
            final(self).aircraft() == old(self).aircraft(),
            match (old(self).engine(), final(self).engine()) {
                (Some(a), Some(b)) => advanced(a, b, event, now as int, reading, &out),
                (None, None) => out.actions@.len() == 0 && out.entered.is_none() && !out.finished,
                _ => false,
            },
    {
        match &mut self.engine {
            Some(e) => e.advance(event, now, reading),
            None => Output { actions: Vec::new(), entered: None, finished: false },
        }
    }

    /// Handle one message from the outside world: a change of aircraft as
    /// [`Orchestrator::aircraft_changed`] does, a procedure input as
    /// [`Orchestrator::tick`] does.
    pub fn handle(&mut self, msg: AppMessage, now: i64, reading: &Reading) -> (out: Output)
        requires
            old(self).wf(),
        ensures
            final(self).wf(),
            match msg {
                AppMessage::AircraftChanged(a) => {
                    &&& out.actions@.len() == 0
                    &&& out.entered.is_none()
                    &&& !out.finished
                    &&& same_aircraft_spec(&old(self).aircraft(), &a) ==> *final(self) == *old(self)
                    &&& !same_aircraft_spec(&old(self).aircraft(), &a) ==> {
                        &&& final(self).aircraft() == a
                        &&& match final(self).engine() {
                            Some(e) => e.phase() == crate::sequence::Phase::Idle && procedure_for(
                                &a,
                                e.steps(),
                            ),
                            None => true,
                        }
                    }
                },
                AppMessage::FsmEvent(e) => {
                    &&& final(self).aircraft() == old(self).aircraft()
                    &&& match (old(self).engine(), final(self).engine()) {
                        (Some(x), Some(y)) => advanced(x, y, e, now as int, reading, &out),
                        (None, None) => out.actions@.len() == 0 && out.entered.is_none() && !out.finished,
                        _ => false,
                    }
                },
            },
    {
        match msg {
            AppMessage::AircraftChanged(a) => {
                self.aircraft_changed(a);
                Output { actions: Vec::new(), entered: None, finished: false }
            },
            AppMessage::FsmEvent(e) => self.tick(e, now, reading),
        }
    }

    /// The status text for step `i` of the active procedure; empty without
    /// one.
    pub fn status(&self, i: usize) -> (r: &'static str)
        ensures
            r@ == match self.aircraft() {
                AircraftId::F_16C_50 => crate::f16c50::status_text(i as int),
                AircraftId::MiG_21Bis => crate::mig21bis::status_text(i as int),
                _ => ""@,
            },
    {
        match &self.aircraft {
            AircraftId::F_16C_50 => crate::f16c50::step_status(i),
            AircraftId::MiG_21Bis => crate::mig21bis::step_status(i),
            _ => "",
        }
    }
}

} // verus!
