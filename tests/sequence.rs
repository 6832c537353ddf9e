use yawe::sequence::{
    is_switch_set, needs_toggle, Actuation, Comparison, FsmMessage, Phase, Query, Reading,
    SequenceEngine, Step, TextCheck,
};

fn canopy_steps() -> Vec<Step> {
    vec![
        Step::PollUntil { device_id: 0, argument: 7, cmp: Comparison::Equal, threshold: 0 },
        Step::PollUntil { device_id: 0, argument: 600, cmp: Comparison::AtLeast, threshold: 1000 },
        Step::PollUntil { device_id: 0, argument: 95, cmp: Comparison::AtLeast, threshold: 120 },
    ]
}

#[test]
fn scripted_readbacks_walk_states_in_order_and_finish_once() {
    let mut e = SequenceEngine::new(canopy_steps());
    assert_eq!(e.current_phase(), Phase::Idle);
    let out = e.advance(FsmMessage::Tick, 0, &Reading::Nothing);
    assert_eq!(e.current_phase(), Phase::Idle);
    assert_eq!(out.entered, None);
    let out = e.advance(FsmMessage::StartupAircraft, 0, &Reading::Nothing);
    assert_eq!(out.entered, Some(0));
    assert_eq!(e.query(), Query::Argument { device_id: 0, argument: 7 });

    // canopy still moving, then closed, then locked, then the engine spools up
    let script = [
        Reading::Value(400),
        Reading::Value(0),
        Reading::Value(500),
        Reading::Value(1000),
        Reading::Failed,
        Reading::Value(50),
        Reading::Value(130),
        Reading::Value(200),
        Reading::Value(0),
    ];
    let mut phases = Vec::new();
    let mut finished = 0;
    for (i, r) in script.iter().enumerate() {
        let out = e.advance(FsmMessage::Tick, i as i64, r);
        if out.finished {
            finished += 1;
        }
        phases.push(e.current_phase());
    }
    assert_eq!(
        phases,
        vec![
            Phase::Running(0),
            Phase::Running(1),
            Phase::Running(1),
            Phase::Running(2),
            Phase::Running(2),
            Phase::Running(2),
            Phase::Done,
            Phase::Done,
            Phase::Done,
        ]
    );
    assert_eq!(finished, 1);
}

#[test]
fn poll_until_threshold_waits_six_ticks_then_moves_on_the_seventh() {
    let steps = vec![
        Step::PollUntil { device_id: 0, argument: 95, cmp: Comparison::AtLeast, threshold: 120 },
        Step::Settle { duration: 1000 },
    ];
    let mut e = SequenceEngine::new(steps);
    e.advance(FsmMessage::StartupAircraft, 0, &Reading::Nothing);
    let mut reading = 0;
    let mut stayed = 0;
    for call in 1..=7 {
        let out = e.advance(FsmMessage::Tick, call, &Reading::Value(reading));
        reading += 20;
        if e.current_phase() == Phase::Running(0) {
            stayed += 1;
            assert_eq!(out.entered, None);
        } else {
            assert_eq!(call, 7);
            assert_eq!(out.entered, Some(1));
        }
    }
    assert_eq!(stayed, 6);
    assert_eq!(e.current_phase(), Phase::Running(1));
}

#[test]
fn settle_step_waits_for_its_timer() {
    let steps = vec![Step::Settle { duration: 2300 }];
    let mut e = SequenceEngine::new(steps);
    e.advance(FsmMessage::StartupAircraft, 1000, &Reading::Nothing);
    e.advance(FsmMessage::Tick, 3299, &Reading::Nothing);
    assert_eq!(e.current_phase(), Phase::Running(0));
    let out = e.advance(FsmMessage::Tick, 3300, &Reading::Nothing);
    assert!(out.finished);
    assert_eq!(e.current_phase(), Phase::Done);
}

#[test]
fn actuation_step_fires_on_entry_and_moves_on() {
    let a = Actuation::Click { device_id: 3, command: 3001, value: 1000 };
    let mut e = SequenceEngine::new(vec![Step::Actuate(vec![a]), Step::Settle { duration: 5 }]);
    let out = e.advance(FsmMessage::StartupAircraft, 0, &Reading::Nothing);
    assert_eq!(out.actions, vec![a]);
    assert_eq!(out.entered, Some(1));
    assert_eq!(e.current_phase(), Phase::Running(1));
    let out = e.advance(FsmMessage::Tick, 3, &Reading::Nothing);
    assert!(out.actions.is_empty());
    assert!(!out.finished);
    let out = e.advance(FsmMessage::Tick, 5, &Reading::Nothing);
    assert!(out.actions.is_empty());
    assert!(out.finished);
}

#[test]
fn consecutive_actuation_steps_fire_together_and_a_trailing_one_finishes() {
    let a = Actuation::Click { device_id: 1, command: 1, value: 1 };
    let b = Actuation::Lockon { command: 311 };
    let c = Actuation::Click { device_id: 2, command: 2, value: 0 };
    let steps = vec![
        Step::Actuate(vec![a]),
        Step::Actuate(vec![b]),
        Step::PollUntil { device_id: 0, argument: 1, cmp: Comparison::AtLeast, threshold: 10 },
        Step::Actuate(vec![c]),
    ];
    let mut e = SequenceEngine::new(steps);
    let out = e.advance(FsmMessage::StartupAircraft, 0, &Reading::Nothing);
    assert_eq!(out.actions, vec![a, b]);
    assert_eq!(e.current_phase(), Phase::Running(2));
    let out = e.advance(FsmMessage::Tick, 1, &Reading::Value(10));
    assert_eq!(out.actions, vec![c]);
    assert!(out.finished);
    assert_eq!(e.current_phase(), Phase::Done);
}

#[test]
fn text_scan_waits_for_value_then_for_absence() {
    let sep = "-----------------------------------------";
    let path = vec![b"STATUS".to_vec()];
    let steps = vec![
        Step::ScanText { device: 1, path: path.clone(), check: TextCheck::Equals(b"ALIGN".to_vec()) },
        Step::ScanText { device: 1, path, check: TextCheck::Absent },
    ];
    let mut e = SequenceEngine::new(steps);
    e.advance(FsmMessage::StartupAircraft, 0, &Reading::Nothing);
    assert_eq!(e.query(), Query::Indication { device: 1 });
    let other = format!("{sep}\nSTATUS\nWAIT\n");
    let align = format!("{sep}\nSTATUS\nALIGN\n");
    let gone = format!("{sep}\nOTHER\nx\n");
    e.advance(FsmMessage::Tick, 1, &Reading::Text(other.into_bytes()));
    assert_eq!(e.current_phase(), Phase::Running(0));
    e.advance(FsmMessage::Tick, 2, &Reading::Text(align.clone().into_bytes()));
    assert_eq!(e.current_phase(), Phase::Running(1));
    e.advance(FsmMessage::Tick, 3, &Reading::Text(align.into_bytes()));
    assert_eq!(e.current_phase(), Phase::Running(1));
    e.advance(FsmMessage::Tick, 4, &Reading::Failed);
    assert_eq!(e.current_phase(), Phase::Running(1));
    let out = e.advance(FsmMessage::Tick, 5, &Reading::Text(gone.into_bytes()));
    assert!(out.finished);
}

#[test]
fn param_poll_asks_for_the_named_parameter() {
    let steps = vec![Step::PollParam { name: b"CANOPY".to_vec(), cmp: Comparison::Equal, threshold: 0 }];
    let mut e = SequenceEngine::new(steps);
    assert_eq!(e.query(), Query::Nothing);
    e.advance(FsmMessage::StartupAircraft, 0, &Reading::Nothing);
    assert_eq!(e.query(), Query::Param { name: b"CANOPY".to_vec() });
    e.advance(FsmMessage::Tick, 1, &Reading::Value(300));
    assert_eq!(e.current_phase(), Phase::Running(0));
    assert!(e.advance(FsmMessage::Tick, 2, &Reading::Value(0)).finished);
}

#[test]
fn interrupt_is_ignored() {
    let mut e = SequenceEngine::new(canopy_steps());
    e.advance(FsmMessage::InterruptAircraftStart, 0, &Reading::Nothing);
    assert_eq!(e.current_phase(), Phase::Idle);
    e.advance(FsmMessage::StartupAircraft, 0, &Reading::Nothing);
    e.advance(FsmMessage::InterruptAircraftStart, 0, &Reading::Value(5));
    assert_eq!(e.current_phase(), Phase::Running(0));
}

#[test]
fn empty_procedure_finishes_on_start() {
    let mut e = SequenceEngine::new(Vec::new());
    let out = e.advance(FsmMessage::StartupAircraft, 0, &Reading::Nothing);
    assert!(out.finished);
    assert_eq!(e.current_phase(), Phase::Done);
    assert_eq!(e.step_count(), 0);
}

#[test]
fn switch_toggle_is_idempotent() {
    assert!(is_switch_set(501));
    assert!(!is_switch_set(500));
    assert!(needs_toggle(0, true));
    assert!(!needs_toggle(1000, true));
    assert!(needs_toggle(1000, false));
    assert!(!needs_toggle(0, false));
}
