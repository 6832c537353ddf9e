use yawe::f16c50::startup_procedure;
use yawe::sequence::{Actuation, FsmMessage, Phase, Query, Reading, SequenceEngine};

const SEP: &str = "-----------------------------------------";

fn hud(status: Option<&str>) -> Vec<u8> {
    let mut s = String::new();
    for f in ["HUD_BlankRoot_PH_com", "HUD_Indication_bias", "HUD_Window7_origin", "HUD_AlignStatus_origin"] {
        s.push_str(&format!("{SEP}\n{f}\n\nchildren are {{\n"));
    }
    if let Some(v) = status {
        s.push_str(&format!("{SEP}\nHUD_Window7_AlignmentStatus\n{v}\n}}\n"));
    } else {
        s.push_str(&format!("{SEP}\nHUD_Other\nx\n}}\n"));
    }
    s.into_bytes()
}

#[test]
fn start_request_fires_initial_batch_and_waits_for_canopy() {
    let mut e = SequenceEngine::new(startup_procedure());
    let out = e.advance(FsmMessage::StartupAircraft, 0, &Reading::Nothing);
    assert_eq!(out.actions.len(), 36);
    assert_eq!(out.actions[0], Actuation::Click { device_id: 3, command: 3001, value: 1000 });
    assert_eq!(out.entered, Some(1));
    assert_eq!(e.query(), Query::Argument { device_id: 0, argument: 7 });
}

#[test]
fn jfs_threshold_starts_engine_on_the_seventh_reading() {
    let mut e = SequenceEngine::new(startup_procedure());
    e.advance(FsmMessage::StartupAircraft, 0, &Reading::Nothing);
    e.advance(FsmMessage::Tick, 10, &Reading::Value(0));
    e.advance(FsmMessage::Tick, 2310, &Reading::Nothing);
    e.advance(FsmMessage::Tick, 2320, &Reading::Value(0));
    e.advance(FsmMessage::Tick, 2330, &Reading::Value(1000));
    assert_eq!(e.current_phase(), Phase::Running(7));
    for k in 0..6 {
        let out = e.advance(FsmMessage::Tick, 2340 + k, &Reading::Value(20 * k as i32));
        assert!(out.actions.is_empty());
        assert_eq!(e.current_phase(), Phase::Running(7));
    }
    let out = e.advance(FsmMessage::Tick, 2400, &Reading::Value(120));
    assert_eq!(out.actions[0], Actuation::Lockon { command: 311 });
    assert_eq!(e.current_phase(), Phase::Running(9));
}

#[test]
fn full_f16_run_takes_each_state_on_its_first_satisfying_reading() {
    let mut e = SequenceEngine::new(startup_procedure());
    let mut finished = 0;
    let mut run = |e: &mut SequenceEngine, now: i64, r: Reading| {
        let out = e.advance(FsmMessage::Tick, now, &r);
        if out.finished {
            finished += 1;
        }
        (e.current_phase(), out.actions.len())
    };
    assert_eq!(e.advance(FsmMessage::StartupAircraft, 0, &Reading::Nothing).entered, Some(1));
    assert_eq!(run(&mut e, 10, Reading::Value(1000)), (Phase::Running(1), 0));
    assert_eq!(run(&mut e, 20, Reading::Value(0)), (Phase::Running(2), 0));
    assert_eq!(run(&mut e, 2319, Reading::Nothing), (Phase::Running(2), 0));
    // settle expired: the canopy switch is released on this same call
    assert_eq!(run(&mut e, 2320, Reading::Nothing), (Phase::Running(4), 2));
    assert_eq!(run(&mut e, 2330, Reading::Value(-1000)), (Phase::Running(4), 0));
    assert_eq!(run(&mut e, 2340, Reading::Value(0)), (Phase::Running(6), 1));
    assert_eq!(run(&mut e, 2350, Reading::Value(1000)), (Phase::Running(7), 0));
    assert_eq!(run(&mut e, 2360, Reading::Value(120)), (Phase::Running(9), 7));
    assert_eq!(run(&mut e, 2370, Reading::Text(Vec::new())), (Phase::Running(9), 0));
    assert_eq!(run(&mut e, 2380, Reading::Text(b"x".to_vec())), (Phase::Running(11), 1));
    assert_eq!(run(&mut e, 2480, Reading::Nothing), (Phase::Running(13), 3));
    assert_eq!(run(&mut e, 2490, Reading::Text(hud(Some("WAIT")))), (Phase::Running(13), 0));
    assert_eq!(run(&mut e, 2500, Reading::Text(hud(Some("ALIGN")))), (Phase::Running(14), 0));
    assert_eq!(run(&mut e, 2510, Reading::Text(hud(Some("ALIGN")))), (Phase::Running(14), 0));
    // alignment message gone: INS to navigate and DED return, and done
    assert_eq!(run(&mut e, 2520, Reading::Text(hud(None))), (Phase::Done, 6));
    assert_eq!(run(&mut e, 2530, Reading::Text(hud(None))), (Phase::Done, 0));
    assert_eq!(finished, 1);
}
