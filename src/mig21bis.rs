//! The MiG-21bis: its controls and its cold-start procedure.
use vstd::prelude::*;
use crate::aircraft::SwitchInfo;
use crate::sequence::{Actuation, Comparison, Step, is_actuate, is_param_poll};
use crate::f16c50::ascii_of;

verus! {

/// The MiG-21's controls that procedures touch or read.
#[derive(Debug, Clone, Copy, PartialEq, Eq, Structural)]
pub enum Switch {
    FuelPump1,
    FuelPump3,
    FuelPumpDrain,
    BatteryOn,
    BatteryHeat,
    AcGenerator,
    DcGenerator,
    SprdPower,
    SprdDropPower,
    Po750Inverter1,
    Po750Inverter2,
    ApuPower,
    FireExtinguisherPower,
    ThrottleStopLock,
    CanopyOpen,
    CanopyClose,
    CanopyLock,
    CanopySeal,
    EngineStart,
    EngineStartLight,
    Gyro1,
    Gyro2,
    SrzoPower,
    SauPower,
    SauPitchPower,
    TrimmerPower,
    NoseconePower,
    EmergencyHydroPump,
    KppMainEmergencyToggle,
    NppPower,
    RadAltPower,
    AspPower,
    MissileHeatPower,
    MissileLaunchPower,
    InboardPylonPower,
    OutboardPylonPower,
    GunPower,
    GunCameraPower,
    FlightRecorderPower,
    RadioPower,
    ArkPower,
    RadarPower,
    SpoPower,
    Srzo81Power,
    SodPower,
    SprdCover,
    PipperEnable,
    FixedNetEnable,
    GunPyro1,
    GunPyro2,
    GunPyro3,
    WeaponModeAaAg,
    GuidedMissileMode,
    WeaponSelect,
    NppAdjust,
}

/// The cockpit's table of controls.
pub open spec fn switch_table(s: Switch) -> SwitchInfo<Switch> {
    match s {
        Switch::FuelPump1 => SwitchInfo { switch: Switch::FuelPump1, device_id: 4, command: 3011, argument: 160 },
        Switch::FuelPump3 => SwitchInfo { switch: Switch::FuelPump3, device_id: 4, command: 3010, argument: 159 },
        Switch::FuelPumpDrain => SwitchInfo { switch: Switch::FuelPumpDrain, device_id: 4, command: 3012, argument: 161 },
        Switch::BatteryOn => SwitchInfo { switch: Switch::BatteryOn, device_id: 1, command: 3001, argument: 165 },
        Switch::BatteryHeat => SwitchInfo { switch: Switch::BatteryHeat, device_id: 1, command: 3002, argument: 155 },
        Switch::AcGenerator => SwitchInfo { switch: Switch::AcGenerator, device_id: 2, command: 3004, argument: 169 },
        Switch::DcGenerator => SwitchInfo { switch: Switch::DcGenerator, device_id: 1, command: 3003, argument: 166 },
        Switch::SprdPower => SwitchInfo { switch: Switch::SprdPower, device_id: 48, command: 3106, argument: 167 },
        Switch::SprdDropPower => SwitchInfo { switch: Switch::SprdDropPower, device_id: 48, command: 3107, argument: 168 },
        Switch::Po750Inverter1 => SwitchInfo { switch: Switch::Po750Inverter1, device_id: 2, command: 3005, argument: 153 },
        Switch::Po750Inverter2 => SwitchInfo { switch: Switch::Po750Inverter2, device_id: 2, command: 3006, argument: 154 },
        Switch::ApuPower => SwitchInfo { switch: Switch::ApuPower, device_id: 3, command: 3014, argument: 302 },
        Switch::FireExtinguisherPower => SwitchInfo { switch: Switch::FireExtinguisherPower, device_id: 53, command: 3025, argument: 303 },
        Switch::ThrottleStopLock => SwitchInfo { switch: Switch::ThrottleStopLock, device_id: 3, command: 3238, argument: 616 },
        Switch::CanopyOpen => SwitchInfo { switch: Switch::CanopyOpen, device_id: 43, command: 3152, argument: 375 },
        Switch::CanopyClose => SwitchInfo { switch: Switch::CanopyClose, device_id: 43, command: 3194, argument: 385 },
        Switch::CanopyLock => SwitchInfo { switch: Switch::CanopyLock, device_id: 43, command: 3151, argument: 329 },
        Switch::CanopySeal => SwitchInfo { switch: Switch::CanopySeal, device_id: 43, command: 3150, argument: 328 },
        Switch::EngineStart => SwitchInfo { switch: Switch::EngineStart, device_id: 3, command: 3016, argument: 289 },
        Switch::EngineStartLight => SwitchInfo { switch: Switch::EngineStartLight, device_id: 0, command: 0, argument: 509 },
        Switch::Gyro1 => SwitchInfo { switch: Switch::Gyro1, device_id: 21, command: 3008, argument: 162 },
        Switch::Gyro2 => SwitchInfo { switch: Switch::Gyro2, device_id: 21, command: 3009, argument: 163 },
        Switch::SrzoPower => SwitchInfo { switch: Switch::SrzoPower, device_id: 38, command: 3087, argument: 188 },
        Switch::SauPower => SwitchInfo { switch: Switch::SauPower, device_id: 8, command: 3064, argument: 179 },
        Switch::SauPitchPower => SwitchInfo { switch: Switch::SauPitchPower, device_id: 8, command: 3065, argument: 180 },
        Switch::TrimmerPower => SwitchInfo { switch: Switch::TrimmerPower, device_id: 9, command: 3131, argument: 172 },
        Switch::NoseconePower => SwitchInfo { switch: Switch::NoseconePower, device_id: 17, command: 3133, argument: 170 },
        Switch::EmergencyHydroPump => SwitchInfo { switch: Switch::EmergencyHydroPump, device_id: 44, command: 3137, argument: 171 },
        Switch::KppMainEmergencyToggle => SwitchInfo { switch: Switch::KppMainEmergencyToggle, device_id: 28, command: 3139, argument: 177 },
        Switch::NppPower => SwitchInfo { switch: Switch::NppPower, device_id: 23, command: 3142, argument: 178 },
        Switch::RadAltPower => SwitchInfo { switch: Switch::RadAltPower, device_id: 33, command: 3145, argument: 175 },
        Switch::AspPower => SwitchInfo { switch: Switch::AspPower, device_id: 41, command: 3155, argument: 186 },
        Switch::MissileHeatPower => SwitchInfo { switch: Switch::MissileHeatPower, device_id: 42, command: 3167, argument: 181 },
        Switch::MissileLaunchPower => SwitchInfo { switch: Switch::MissileLaunchPower, device_id: 42, command: 3168, argument: 182 },
        Switch::InboardPylonPower => SwitchInfo { switch: Switch::InboardPylonPower, device_id: 42, command: 3169, argument: 183 },
        Switch::OutboardPylonPower => SwitchInfo { switch: Switch::OutboardPylonPower, device_id: 42, command: 3170, argument: 184 },
        Switch::GunPower => SwitchInfo { switch: Switch::GunPower, device_id: 42, command: 3171, argument: 185 },
        Switch::GunCameraPower => SwitchInfo { switch: Switch::GunCameraPower, device_id: 42, command: 3172, argument: 187 },
        Switch::FlightRecorderPower => SwitchInfo { switch: Switch::FlightRecorderPower, device_id: 49, command: 3209, argument: 193 },
        Switch::RadioPower => SwitchInfo { switch: Switch::RadioPower, device_id: 22, command: 3041, argument: 173 },
        Switch::ArkPower => SwitchInfo { switch: Switch::ArkPower, device_id: 24, command: 3047, argument: 174 },
        Switch::RadarPower => SwitchInfo { switch: Switch::RadarPower, device_id: 40, command: 3094, argument: 205 },
        Switch::SpoPower => SwitchInfo { switch: Switch::SpoPower, device_id: 37, command: 3083, argument: 202 },
        Switch::Srzo81Power => SwitchInfo { switch: Switch::Srzo81Power, device_id: 38, command: 3089, argument: 346 },
        Switch::SodPower => SwitchInfo { switch: Switch::SodPower, device_id: 39, command: 3090, argument: 200 },
        Switch::SprdCover => SwitchInfo { switch: Switch::SprdCover, device_id: 48, command: 3109, argument: 317 },
        Switch::PipperEnable => SwitchInfo { switch: Switch::PipperEnable, device_id: 41, command: 3160, argument: 249 },
        Switch::FixedNetEnable => SwitchInfo { switch: Switch::FixedNetEnable, device_id: 41, command: 3161, argument: 250 },
        Switch::GunPyro1 => SwitchInfo { switch: Switch::GunPyro1, device_id: 42, command: 3185, argument: 232 },
        Switch::GunPyro2 => SwitchInfo { switch: Switch::GunPyro2, device_id: 42, command: 3186, argument: 233 },
        Switch::GunPyro3 => SwitchInfo { switch: Switch::GunPyro3, device_id: 42, command: 3187, argument: 234 },
        Switch::WeaponModeAaAg => SwitchInfo { switch: Switch::WeaponModeAaAg, device_id: 42, command: 3183, argument: 230 },
        Switch::GuidedMissileMode => SwitchInfo { switch: Switch::GuidedMissileMode, device_id: 42, command: 3184, argument: 231 },
        Switch::WeaponSelect => SwitchInfo { switch: Switch::WeaponSelect, device_id: 42, command: 3188, argument: 235 },
        Switch::NppAdjust => SwitchInfo { switch: Switch::NppAdjust, device_id: 23, command: 3143, argument: 258 },
    }
}

/// Device, command and argument of `s`.
pub fn get_switch_info(s: Switch) -> (r: SwitchInfo<Switch>)
    ensures
        r == switch_table(s),
{
    match s {
        Switch::FuelPump1 => SwitchInfo { switch: Switch::FuelPump1, device_id: 4, command: 3011, argument: 160 },
        Switch::FuelPump3 => SwitchInfo { switch: Switch::FuelPump3, device_id: 4, command: 3010, argument: 159 },
        Switch::FuelPumpDrain => SwitchInfo { switch: Switch::FuelPumpDrain, device_id: 4, command: 3012, argument: 161 },
        Switch::BatteryOn => SwitchInfo { switch: Switch::BatteryOn, device_id: 1, command: 3001, argument: 165 },
        Switch::BatteryHeat => SwitchInfo { switch: Switch::BatteryHeat, device_id: 1, command: 3002, argument: 155 },
        Switch::AcGenerator => SwitchInfo { switch: Switch::AcGenerator, device_id: 2, command: 3004, argument: 169 },
        Switch::DcGenerator => SwitchInfo { switch: Switch::DcGenerator, device_id: 1, command: 3003, argument: 166 },
        Switch::SprdPower => SwitchInfo { switch: Switch::SprdPower, device_id: 48, command: 3106, argument: 167 },
        Switch::SprdDropPower => SwitchInfo { switch: Switch::SprdDropPower, device_id: 48, command: 3107, argument: 168 },
        Switch::Po750Inverter1 => SwitchInfo { switch: Switch::Po750Inverter1, device_id: 2, command: 3005, argument: 153 },
        Switch::Po750Inverter2 => SwitchInfo { switch: Switch::Po750Inverter2, device_id: 2, command: 3006, argument: 154 },
        Switch::ApuPower => SwitchInfo { switch: Switch::ApuPower, device_id: 3, command: 3014, argument: 302 },
        Switch::FireExtinguisherPower => SwitchInfo { switch: Switch::FireExtinguisherPower, device_id: 53, command: 3025, argument: 303 },
        Switch::ThrottleStopLock => SwitchInfo { switch: Switch::ThrottleStopLock, device_id: 3, command: 3238, argument: 616 },
        Switch::CanopyOpen => SwitchInfo { switch: Switch::CanopyOpen, device_id: 43, command: 3152, argument: 375 },
        Switch::CanopyClose => SwitchInfo { switch: Switch::CanopyClose, device_id: 43, command: 3194, argument: 385 },
        Switch::CanopyLock => SwitchInfo { switch: Switch::CanopyLock, device_id: 43, command: 3151, argument: 329 },
        Switch::CanopySeal => SwitchInfo { switch: Switch::CanopySeal, device_id: 43, command: 3150, argument: 328 },
        Switch::EngineStart => SwitchInfo { switch: Switch::EngineStart, device_id: 3, command: 3016, argument: 289 },
        Switch::EngineStartLight => SwitchInfo { switch: Switch::EngineStartLight, device_id: 0, command: 0, argument: 509 },
        Switch::Gyro1 => SwitchInfo { switch: Switch::Gyro1, device_id: 21, command: 3008, argument: 162 },
        Switch::Gyro2 => SwitchInfo { switch: Switch::Gyro2, device_id: 21, command: 3009, argument: 163 },
        Switch::SrzoPower => SwitchInfo { switch: Switch::SrzoPower, device_id: 38, command: 3087, argument: 188 },
        Switch::SauPower => SwitchInfo { switch: Switch::SauPower, device_id: 8, command: 3064, argument: 179 },
        Switch::SauPitchPower => SwitchInfo { switch: Switch::SauPitchPower, device_id: 8, command: 3065, argument: 180 },
        Switch::TrimmerPower => SwitchInfo { switch: Switch::TrimmerPower, device_id: 9, command: 3131, argument: 172 },
        Switch::NoseconePower => SwitchInfo { switch: Switch::NoseconePower, device_id: 17, command: 3133, argument: 170 },
        Switch::EmergencyHydroPump => SwitchInfo { switch: Switch::EmergencyHydroPump, device_id: 44, command: 3137, argument: 171 },
        Switch::KppMainEmergencyToggle => SwitchInfo { switch: Switch::KppMainEmergencyToggle, device_id: 28, command: 3139, argument: 177 },
        Switch::NppPower => SwitchInfo { switch: Switch::NppPower, device_id: 23, command: 3142, argument: 178 },
        Switch::RadAltPower => SwitchInfo { switch: Switch::RadAltPower, device_id: 33, command: 3145, argument: 175 },
        Switch::AspPower => SwitchInfo { switch: Switch::AspPower, device_id: 41, command: 3155, argument: 186 },
        Switch::MissileHeatPower => SwitchInfo { switch: Switch::MissileHeatPower, device_id: 42, command: 3167, argument: 181 },
        Switch::MissileLaunchPower => SwitchInfo { switch: Switch::MissileLaunchPower, device_id: 42, command: 3168, argument: 182 },
        Switch::InboardPylonPower => SwitchInfo { switch: Switch::InboardPylonPower, device_id: 42, command: 3169, argument: 183 },
        Switch::OutboardPylonPower => SwitchInfo { switch: Switch::OutboardPylonPower, device_id: 42, command: 3170, argument: 184 },
        Switch::GunPower => SwitchInfo { switch: Switch::GunPower, device_id: 42, command: 3171, argument: 185 },
        Switch::GunCameraPower => SwitchInfo { switch: Switch::GunCameraPower, device_id: 42, command: 3172, argument: 187 },
        Switch::FlightRecorderPower => SwitchInfo { switch: Switch::FlightRecorderPower, device_id: 49, command: 3209, argument: 193 },
        Switch::RadioPower => SwitchInfo { switch: Switch::RadioPower, device_id: 22, command: 3041, argument: 173 },
        Switch::ArkPower => SwitchInfo { switch: Switch::ArkPower, device_id: 24, command: 3047, argument: 174 },
        Switch::RadarPower => SwitchInfo { switch: Switch::RadarPower, device_id: 40, command: 3094, argument: 205 },
        Switch::SpoPower => SwitchInfo { switch: Switch::SpoPower, device_id: 37, command: 3083, argument: 202 },
        Switch::Srzo81Power => SwitchInfo { switch: Switch::Srzo81Power, device_id: 38, command: 3089, argument: 346 },
        Switch::SodPower => SwitchInfo { switch: Switch::SodPower, device_id: 39, command: 3090, argument: 200 },
        Switch::SprdCover => SwitchInfo { switch: Switch::SprdCover, device_id: 48, command: 3109, argument: 317 },
        Switch::PipperEnable => SwitchInfo { switch: Switch::PipperEnable, device_id: 41, command: 3160, argument: 249 },
        Switch::FixedNetEnable => SwitchInfo { switch: Switch::FixedNetEnable, device_id: 41, command: 3161, argument: 250 },
        Switch::GunPyro1 => SwitchInfo { switch: Switch::GunPyro1, device_id: 42, command: 3185, argument: 232 },
        Switch::GunPyro2 => SwitchInfo { switch: Switch::GunPyro2, device_id: 42, command: 3186, argument: 233 },
        Switch::GunPyro3 => SwitchInfo { switch: Switch::GunPyro3, device_id: 42, command: 3187, argument: 234 },
        Switch::WeaponModeAaAg => SwitchInfo { switch: Switch::WeaponModeAaAg, device_id: 42, command: 3183, argument: 230 },
        Switch::GuidedMissileMode => SwitchInfo { switch: Switch::GuidedMissileMode, device_id: 42, command: 3184, argument: 231 },
        Switch::WeaponSelect => SwitchInfo { switch: Switch::WeaponSelect, device_id: 42, command: 3188, argument: 235 },
        Switch::NppAdjust => SwitchInfo { switch: Switch::NppAdjust, device_id: 23, command: 3143, argument: 258 },
    }
}

/// Set `s` to `value` (in thousandths).
pub fn set_switch_state(s: Switch, value: i32) -> (r: Actuation)
    ensures
        r == (Actuation::Click {
            device_id: switch_table(s).device_id,
            command: switch_table(s).command,
            value,
        }),
{
    let i = get_switch_info(s);
    Actuation::Click { device_id: i.device_id, command: i.command, value }
}

/// Turn two-position switch `s` on, leaving it alone when it already is.
pub fn set_switch(s: Switch) -> (r: Actuation)
    ensures
        r == (Actuation::SwitchOn {
            device_id: switch_table(s).device_id,
            command: switch_table(s).command,
            argument: switch_table(s).argument,
        }),
{
    let i = get_switch_info(s);
    Actuation::SwitchOn { device_id: i.device_id, command: i.command, argument: i.argument }
}

/// The cockpit parameter that gives the canopy's position.
pub fn canopy_param() -> (r: Vec<u8>)
    ensures
        r@ == ascii_of("BASE_SENSOR_CANOPY_POS"@),
{
    proof { reveal_strlit("BASE_SENSOR_CANOPY_POS"); }
    crate::f16c50::str_bytes("BASE_SENSOR_CANOPY_POS")
}

/// Canopy closing, pumps, batteries, generators and inverters on.
pub open spec fn initial_batch() -> Seq<Actuation> {
    seq![
        Actuation::SwitchOn { device_id: 43, command: 3194, argument: 385 },
        Actuation::SwitchOn { device_id: 4, command: 3011, argument: 160 },
        Actuation::SwitchOn { device_id: 4, command: 3010, argument: 159 },
        Actuation::SwitchOn { device_id: 4, command: 3012, argument: 161 },
        Actuation::SwitchOn { device_id: 1, command: 3001, argument: 165 },
        Actuation::SwitchOn { device_id: 1, command: 3002, argument: 155 },
        Actuation::SwitchOn { device_id: 2, command: 3004, argument: 169 },
        Actuation::SwitchOn { device_id: 1, command: 3003, argument: 166 },
        Actuation::SwitchOn { device_id: 48, command: 3106, argument: 167 },
        Actuation::SwitchOn { device_id: 48, command: 3107, argument: 168 },
        Actuation::SwitchOn { device_id: 2, command: 3005, argument: 153 },
        Actuation::SwitchOn { device_id: 2, command: 3006, argument: 154 },
        Actuation::SwitchOn { device_id: 3, command: 3014, argument: 302 },
        Actuation::SwitchOn { device_id: 53, command: 3025, argument: 303 },
        Actuation::SwitchOn { device_id: 3, command: 3238, argument: 616 },
    ]
}

/// Canopy locked and sealed, engine start held.
pub open spec fn canopy_seal_batch() -> Seq<Actuation> {
    seq![
        Actuation::SwitchOn { device_id: 43, command: 3151, argument: 329 },
        Actuation::SwitchOn { device_id: 43, command: 3150, argument: 328 },
        Actuation::Click { device_id: 3, command: 3016, value: 1000i32 },
    ]
}

/// Starter released and the systems brought up.
pub open spec fn post_start_batch() -> Seq<Actuation> {
    seq![
        Actuation::Click { device_id: 3, command: 3016, value: 0i32 },
        Actuation::SwitchOn { device_id: 21, command: 3008, argument: 162 },
        Actuation::SwitchOn { device_id: 21, command: 3009, argument: 163 },
        Actuation::SwitchOn { device_id: 38, command: 3087, argument: 188 },
        Actuation::SwitchOn { device_id: 8, command: 3064, argument: 179 },
        Actuation::SwitchOn { device_id: 8, command: 3065, argument: 180 },
        Actuation::SwitchOn { device_id: 9, command: 3131, argument: 172 },
        Actuation::SwitchOn { device_id: 17, command: 3133, argument: 170 },
        Actuation::SwitchOn { device_id: 44, command: 3137, argument: 171 },
        Actuation::SwitchOn { device_id: 28, command: 3139, argument: 177 },
        Actuation::SwitchOn { device_id: 23, command: 3142, argument: 178 },
        Actuation::SwitchOn { device_id: 33, command: 3145, argument: 175 },
        Actuation::SwitchOn { device_id: 41, command: 3155, argument: 186 },
        Actuation::SwitchOn { device_id: 42, command: 3167, argument: 181 },
        Actuation::SwitchOn { device_id: 42, command: 3168, argument: 182 },
        Actuation::SwitchOn { device_id: 42, command: 3169, argument: 183 },
        Actuation::SwitchOn { device_id: 42, command: 3170, argument: 184 },
        Actuation::SwitchOn { device_id: 42, command: 3171, argument: 185 },
        Actuation::SwitchOn { device_id: 49, command: 3209, argument: 193 },
        Actuation::SwitchOn { device_id: 22, command: 3041, argument: 173 },
        Actuation::SwitchOn { device_id: 24, command: 3047, argument: 174 },
        Actuation::SwitchOn { device_id: 37, command: 3083, argument: 202 },
        Actuation::SwitchOn { device_id: 41, command: 3160, argument: 249 },
        Actuation::SwitchOn { device_id: 41, command: 3161, argument: 250 },
        Actuation::SwitchOn { device_id: 42, command: 3183, argument: 230 },
        Actuation::SwitchOn { device_id: 38, command: 3089, argument: 346 },
        Actuation::SwitchOn { device_id: 39, command: 3090, argument: 200 },
        Actuation::SwitchOn { device_id: 48, command: 3109, argument: 317 },
        Actuation::Click { device_id: 42, command: 3188, value: 700i32 },
        Actuation::Click { device_id: 42, command: 3184, value: 1000i32 },
        Actuation::Click { device_id: 40, command: 3094, value: 500i32 },
        Actuation::Click { device_id: 42, command: 3185, value: 1000i32 },
        Actuation::Click { device_id: 42, command: 3185, value: 0i32 },
    ]
}

/// Hydraulic pump adjustment held.
pub open spec fn npp_adjust_batch() -> Seq<Actuation> {
    seq![
        Actuation::Click { device_id: 23, command: 3143, value: 1000i32 },
    ]
}

/// Hydraulic pump adjustment released.
pub open spec fn npp_release_batch() -> Seq<Actuation> {
    seq![
        Actuation::Click { device_id: 23, command: 3143, value: 0i32 },
    ]
}

/// The MiG-21 cold-start procedure, step by step.
pub open spec fn mig21_procedure(r: Seq<Step>) -> bool {
    &&& r.len() == 9
    &&& is_actuate(r[0], initial_batch())
    &&& is_param_poll(r[1], ascii_of("BASE_SENSOR_CANOPY_POS"@), Comparison::Equal, 0)
    &&& is_actuate(r[2], canopy_seal_batch())
    &&& r[3] == (Step::PollUntil { device_id: 0, argument: 509, cmp: Comparison::AtLeast, threshold: 900 })
    &&& is_actuate(r[4], post_start_batch())
    &&& r[5] == (Step::PollUntil { device_id: 0, argument: 509, cmp: Comparison::AtMost, threshold: 100 })
    &&& is_actuate(r[6], npp_adjust_batch())
    &&& r[7] == (Step::Settle { duration: 6000 })
    &&& is_actuate(r[8], npp_release_batch())
}

/// The cold-start procedure: batteries, pumps and generators on and the
/// canopy closing; once it is closed, lock and seal it and hold engine
/// start; once the start light is on, release the starter and bring up the
/// systems; once the light is off, run the hydraulic pump adjustment for
/// six seconds.
#[verifier::rlimit(100)]
pub fn startup_procedure() -> (r: Vec<Step>)
    ensures
        mig21_procedure(r@),
{
    let mut steps: Vec<Step> = Vec::new();
    let mut acts: Vec<Actuation> = Vec::new();
    acts.push(set_switch(Switch::CanopyClose));
    acts.push(set_switch(Switch::FuelPump1));
    acts.push(set_switch(Switch::FuelPump3));
    acts.push(set_switch(Switch::FuelPumpDrain));
    acts.push(set_switch(Switch::BatteryOn));
    acts.push(set_switch(Switch::BatteryHeat));
    acts.push(set_switch(Switch::AcGenerator));
    acts.push(set_switch(Switch::DcGenerator));
    acts.push(set_switch(Switch::SprdPower));
    acts.push(set_switch(Switch::SprdDropPower));
    acts.push(set_switch(Switch::Po750Inverter1));
    acts.push(set_switch(Switch::Po750Inverter2));
    acts.push(set_switch(Switch::ApuPower));
    acts.push(set_switch(Switch::FireExtinguisherPower));
    acts.push(set_switch(Switch::ThrottleStopLock));
    proof {
        assert(acts@ =~= initial_batch());
    }
    steps.push(Step::Actuate(acts));
    steps.push(Step::PollParam { name: canopy_param(), cmp: Comparison::Equal, threshold: 0 });

    let mut acts: Vec<Actuation> = Vec::new();
    acts.push(set_switch(Switch::CanopyLock));
    acts.push(set_switch(Switch::CanopySeal));
    acts.push(set_switch_state(Switch::EngineStart, 1000));
    proof {
        assert(acts@ =~= canopy_seal_batch());
    }
    steps.push(Step::Actuate(acts));
    steps.push(Step::PollUntil { device_id: 0, argument: get_switch_info(Switch::EngineStartLight).argument, cmp: Comparison::AtLeast, threshold: 900 });

    let mut acts: Vec<Actuation> = Vec::new();
    acts.push(set_switch_state(Switch::EngineStart, 0));
    acts.push(set_switch(Switch::Gyro1));
    acts.push(set_switch(Switch::Gyro2));
    acts.push(set_switch(Switch::SrzoPower));
    acts.push(set_switch(Switch::SauPower));
    acts.push(set_switch(Switch::SauPitchPower));
    acts.push(set_switch(Switch::TrimmerPower));
    acts.push(set_switch(Switch::NoseconePower));
    acts.push(set_switch(Switch::EmergencyHydroPump));
    acts.push(set_switch(Switch::KppMainEmergencyToggle));
    acts.push(set_switch(Switch::NppPower));
    acts.push(set_switch(Switch::RadAltPower));
    acts.push(set_switch(Switch::AspPower));
    acts.push(set_switch(Switch::MissileHeatPower));
    acts.push(set_switch(Switch::MissileLaunchPower));
    acts.push(set_switch(Switch::InboardPylonPower));
    acts.push(set_switch(Switch::OutboardPylonPower));
    acts.push(set_switch(Switch::GunPower));
    acts.push(set_switch(Switch::FlightRecorderPower));
    acts.push(set_switch(Switch::RadioPower));
    acts.push(set_switch(Switch::ArkPower));
    acts.push(set_switch(Switch::SpoPower));
    acts.push(set_switch(Switch::PipperEnable));
    acts.push(set_switch(Switch::FixedNetEnable));
    acts.push(set_switch(Switch::WeaponModeAaAg));
    acts.push(set_switch(Switch::Srzo81Power));
    acts.push(set_switch(Switch::SodPower));
    acts.push(set_switch(Switch::SprdCover));
    acts.push(set_switch_state(Switch::WeaponSelect, 700));
    acts.push(set_switch_state(Switch::GuidedMissileMode, 1000));
    acts.push(set_switch_state(Switch::RadarPower, 500));
    acts.push(set_switch_state(Switch::GunPyro1, 1000));
    acts.push(set_switch_state(Switch::GunPyro1, 0));
    proof {
        assert(acts@ =~= post_start_batch());
    }
    steps.push(Step::Actuate(acts));
    steps.push(Step::PollUntil { device_id: 0, argument: get_switch_info(Switch::EngineStartLight).argument, cmp: Comparison::AtMost, threshold: 100 });

    let mut acts: Vec<Actuation> = Vec::new();
    acts.push(set_switch_state(Switch::NppAdjust, 1000));
    proof {
        assert(acts@ =~= npp_adjust_batch());
    }
    steps.push(Step::Actuate(acts));
    steps.push(Step::Settle { duration: 6000 });
    let mut acts: Vec<Actuation> = Vec::new();
    acts.push(set_switch_state(Switch::NppAdjust, 0));
    proof {
        assert(acts@ =~= npp_release_batch());
    }
    steps.push(Step::Actuate(acts));
    steps
}

/// What the MiG-21 procedure shows while it waits at step `i`.
pub open spec fn status_text(i: int) -> Seq<char> {
    if i == 1 {
        "Waiting for canopy to close"@
    } else if i == 3 {
        "Waiting for engine start sequence"@
    } else if i == 5 {
        "Waiting for engine start sequence to complete"@
    } else if i == 7 {
        "Waiting for NPP adjust"@
    } else {
        ""@
    }
}

/// The status text shown while the procedure waits at step `i`.
pub fn step_status(i: usize) -> (r: &'static str)
    ensures
        r@ == status_text(i as int),
{
    match i {
        1 => "Waiting for canopy to close",
        3 => "Waiting for engine start sequence",
        5 => "Waiting for engine start sequence to complete",
        7 => "Waiting for NPP adjust",
        _ => "",
    }
}

} // verus!
