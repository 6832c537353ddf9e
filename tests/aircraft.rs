use yawe::aircraft::{aircraft_display_name, str_to_ship_enum, AircraftId, AppMessage, Config, LockonCommand, SwitchInfo};
use yawe::cockpit::{get_cockpit_param, Error};
use yawe::f16c50::{self, bool_to_on_off, parse_bool, EditTracker, ThreePosState, ThreePosToggleState};
use yawe::mig21bis;
use yawe::orchestrator::{get_aircraft, same_aircraft, Orchestrator};
use yawe::sequence::{Actuation, FsmMessage, Query, Reading, Step};

#[test]
fn host_names_map_to_aircraft() {
    assert_eq!(str_to_ship_enum("F-16C_50"), AircraftId::F_16C_50);
    assert_eq!(str_to_ship_enum("MiG-21Bis"), AircraftId::MiG_21Bis);
    assert_eq!(str_to_ship_enum("Mi-8MT Copilot"), AircraftId::Mi_8MT_Copilot);
    assert_eq!(str_to_ship_enum("Yak-52"), AircraftId::Unknown(String::from("Yak-52")));
    assert_eq!(str_to_ship_enum(""), AircraftId::Unknown(String::new()));
}

#[test]
fn display_names() {
    assert_eq!(aircraft_display_name(AircraftId::F_16C_50), "F-16C block 50");
    assert_eq!(aircraft_display_name(AircraftId::Mi_24P), "Mi-24P \"Hind E\"");
    assert_eq!(aircraft_display_name(AircraftId::Unknown(String::from("Yak-52"))), "Yak-52");
}

#[test]
fn cockpit_param_text_is_found_by_name() {
    let params = b"FOO:1\n  BASE_SENSOR_CANOPY_POS:0.25\nBAR:2";
    assert_eq!(get_cockpit_param(params, b"BASE_SENSOR_CANOPY_POS"), Ok(b"0.25".to_vec()));
    assert_eq!(get_cockpit_param(params, b"BAR"), Ok(b"2".to_vec()));
    assert_eq!(get_cockpit_param(params, b"MISSING"), Err(Error::IndexError));
    assert_eq!(get_cockpit_param(b"X:1:2", b"X"), Ok(b"1".to_vec()));
}

#[test]
fn f16_switch_table_entries() {
    let i = f16c50::get_switch_info(f16c50::Switch::MainPower).unwrap();
    assert_eq!(i, SwitchInfo::new(f16c50::Switch::MainPower, 3, 3001, 510));
    assert!(f16c50::get_switch_info(f16c50::Switch::AntiSkid).is_none());
    assert_eq!(f16c50::get_switch_argument(f16c50::Switch::AntiSkid), 357);
    assert_eq!(f16c50::get_switch_argument(f16c50::Switch::CanopyValue), 7);
    assert_eq!(
        f16c50::get_switch_info(f16c50::Switch::EngineTachometer),
        Some(SwitchInfo::new_float(f16c50::Switch::EngineTachometer, 95))
    );
}

#[test]
fn f16_three_position_switches() {
    assert_eq!(
        f16c50::set_three_pos_springloaded(f16c50::Switch::Jfs, ThreePosState::Down),
        vec![
            Actuation::Click { device_id: 6, command: 3006, value: 0 },
            Actuation::Click { device_id: 6, command: 3005, value: 0 },
            Actuation::Click { device_id: 6, command: 3006, value: -1000 },
        ]
    );
    assert_eq!(f16c50::set_three_pos_springloaded(f16c50::Switch::Jfs, ThreePosState::Stop).len(), 2);
    assert!(f16c50::set_three_pos_springloaded(f16c50::Switch::MainPower, ThreePosState::Up).is_empty());
    assert_eq!(
        f16c50::set_three_pos(f16c50::Switch::AntiSkid, ThreePosToggleState::Up),
        vec![Actuation::Click { device_id: 7, command: 3010, value: 1000 }]
    );
    assert_eq!(
        f16c50::release_three_pos(f16c50::Switch::AntiSkid),
        Some(Actuation::Click { device_id: 7, command: 3010, value: 0 })
    );
    assert_eq!(
        f16c50::set_switch_state(f16c50::Switch::CanopyLock, 1000),
        Some(Actuation::Click { device_id: 10, command: 3004, value: 1000 })
    );
}

#[test]
fn startup_procedures_have_their_steps() {
    let f16 = f16c50::startup_procedure();
    assert_eq!(f16.len(), 16);
    assert_eq!(f16[2], Step::Settle { duration: 2300 });
    let mig = mig21bis::startup_procedure();
    assert_eq!(mig.len(), 9);
    assert_eq!(mig[7], Step::Settle { duration: 6000 });
    assert_eq!(
        mig21bis::set_switch(mig21bis::Switch::BatteryOn),
        Actuation::SwitchOn { device_id: 1, command: 3001, argument: 165 }
    );
}

#[test]
fn orchestrator_swaps_procedures_only_on_a_new_aircraft() {
    let mut o = Orchestrator::new();
    assert_eq!(o.query(), Query::Nothing);
    assert!(o.aircraft_changed(AircraftId::MiG_21Bis));
    assert!(!o.aircraft_changed(AircraftId::MiG_21Bis));
    let out = o.tick(FsmMessage::StartupAircraft, 0, &Reading::Nothing);
    assert_eq!(out.entered, Some(1));
    assert_eq!(out.actions.len(), 15);
    assert_eq!(o.status(1), "Waiting for canopy to close");
    assert!(!o.aircraft_changed(AircraftId::MiG_21Bis));
    assert!(matches!(o.query(), Query::Param { .. }));
    assert!(o.aircraft_changed(AircraftId::UH_1H));
    assert_eq!(o.query(), Query::Nothing);
    let out = o.handle(AppMessage::FsmEvent(FsmMessage::StartupAircraft), 2, &Reading::Nothing);
    assert!(out.actions.is_empty() && out.entered.is_none() && !out.finished);
    assert!(get_aircraft(&AircraftId::F_16C_50).is_some());
    assert!(get_aircraft(&AircraftId::A_10C).is_none());
    assert!(same_aircraft(&AircraftId::Unknown(String::from("x")), &AircraftId::Unknown(String::from("x"))));
    assert!(!same_aircraft(&AircraftId::Unknown(String::from("x")), &AircraftId::A_10C));
}

#[test]
fn small_helpers() {
    assert_eq!(bool_to_on_off(true), "ON");
    assert_eq!(bool_to_on_off(false), "OFF");
    assert_eq!(parse_bool(b"ON"), Some(true));
    assert_eq!(parse_bool(b"OFF"), Some(false));
    assert_eq!(parse_bool(b"on"), None);
    let mut t = EditTracker::default();
    t.update(false);
    assert!(!t.edited);
    t.update(true);
    t.update(false);
    assert!(t.edited);
    assert_eq!(LockonCommand::LeftEngineStart.code(), 311);
    assert_eq!(LockonCommand::RightEngineStop.code(), 314);
    let c = Config::default();
    assert!(c.write_dir.is_empty() && c.log_level.is_empty());
}
