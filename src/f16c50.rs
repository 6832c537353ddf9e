//! The F-16C block 50: its controls and its cold-start procedure.
use vstd::prelude::*;
use crate::aircraft::SwitchInfo;
use crate::sequence::{Actuation, Comparison, Step, TextCheck, is_actuate, is_scan, path_view};
use crate::indication::{is_space, skip_space, trim_start, lookup_tree, model_wf, walk, IndicationTree, TreeModel};

verus! {

/// The F-16's controls that procedures touch or read.
#[derive(Debug, Clone, Copy, PartialEq, Eq, Structural)]
pub enum Switch {
    MainPower,
    Jfs,
    CanopyRetract,
    CanopyValue,
    CanopyLock,
    EngineTachometer,
    MmcPower,
    StoresStationPower,
    MfdPower,
    UfcPower,
    GpsPower,
    MapPower,
    DlPower,
    MidsLvtControl,
    LeftHardpointPower,
    RightHardpointPower,
    FcrPower,
    RadAltPower,
    IffMasterKnob,
    UhfFunctionKnob,
    CmdsPower,
    CmdsJammerPower,
    CmdsMwsPower,
    CmdsExpendable1Power,
    CmdsExpendable2Power,
    CmdsExpendable3Power,
    CmdsExpendable4Power,
    CmdsProgramKnob,
    CmdsModeKnob,
    HudBrightnessKnob,
    HmdIntensityKnob,
    LaserArm,
    RwrPower,
    SaiCage,
    SaiPitchTrim,
    AntiSkid,
    EjectionSafety,
    AltimeterModeLever,
    InsKnob,
    Icp1,
    Icp2,
    Icp3,
    Icp4,
    Icp5,
    Icp6,
    Icp7,
    Icp8,
    Icp9,
    Icp0,
    IcpCom1,
    IcpCom2,
    IcpIff,
    IcpList,
    IcpAaMode,
    IcpAgMode,
    IcpRcl,
    IcpEnter,
    IcpDedInc,
    IcpDataRtnSeq,
    IcpDataUpDown,
}

/// A spring-loaded three-position switch: `info.command` pushes it down and
/// `command_up` pushes it up.
#[derive(Debug, Clone, Copy, PartialEq, Eq, Structural)]
pub struct SpringLoaded3PosInfo {
    pub info: SwitchInfo<Switch>,
    pub command_up: i32,
}

/// A three-position switch driven by two commands.
#[derive(Debug, Clone, Copy, PartialEq, Eq, Structural)]
pub struct DualCommand3PosInfo {
    pub device_id: i32,
    pub command_up: i32,
    pub command_down: i32,
    pub argument: i32,
}

/// How a control is driven.
#[derive(Debug, Clone, Copy, PartialEq, Eq, Structural)]
pub enum Info {
    Toggle(SwitchInfo<Switch>),
    MultiToggle(SwitchInfo<Switch>),
    Momentary(SwitchInfo<Switch>),
    SpringLoaded3Pos(SpringLoaded3PosInfo),
    DualCommand3Pos(DualCommand3PosInfo),
    FloatValue(SwitchInfo<Switch>),
    Axis(SwitchInfo<Switch>),
}

/// A position of a spring-loaded three-position switch.
#[derive(Debug, Clone, Copy, PartialEq, Eq, Structural)]
pub enum ThreePosState {
    Down,
    Stop,
    Up,
}

/// A position of a two-command three-position switch.
#[derive(Debug, Clone, Copy, PartialEq, Eq, Structural)]
pub enum ThreePosToggleState {
    Down,
    Middle,
    Up,
}

/// The cockpit's table of controls.
pub open spec fn switch_table(s: Switch) -> Info {
    match s {
        Switch::MainPower => Info::MultiToggle(SwitchInfo { switch: Switch::MainPower, device_id: 3, command: 3001, argument: 510 }),
        Switch::Jfs => Info::SpringLoaded3Pos(SpringLoaded3PosInfo { info: SwitchInfo { switch: Switch::Jfs, device_id: 6, command: 3006, argument: 447 }, command_up: 3005 }),
        Switch::CanopyRetract => Info::SpringLoaded3Pos(SpringLoaded3PosInfo { info: SwitchInfo { switch: Switch::CanopyRetract, device_id: 10, command: 3003, argument: 606 }, command_up: 3002 }),
        Switch::CanopyValue => Info::FloatValue(SwitchInfo { switch: Switch::CanopyValue, device_id: 0, command: 0, argument: 7 }),
        Switch::CanopyLock => Info::MultiToggle(SwitchInfo { switch: Switch::CanopyLock, device_id: 10, command: 3004, argument: 600 }),
        Switch::EngineTachometer => Info::FloatValue(SwitchInfo { switch: Switch::EngineTachometer, device_id: 0, command: 0, argument: 95 }),
        Switch::MmcPower => Info::Toggle(SwitchInfo { switch: Switch::MmcPower, device_id: 19, command: 3001, argument: 715 }),
        Switch::StoresStationPower => Info::Toggle(SwitchInfo { switch: Switch::StoresStationPower, device_id: 22, command: 3001, argument: 716 }),
        Switch::MfdPower => Info::Toggle(SwitchInfo { switch: Switch::MfdPower, device_id: 19, command: 3014, argument: 717 }),
        Switch::UfcPower => Info::Toggle(SwitchInfo { switch: Switch::UfcPower, device_id: 17, command: 3001, argument: 718 }),
        Switch::GpsPower => Info::Toggle(SwitchInfo { switch: Switch::GpsPower, device_id: 59, command: 3001, argument: 720 }),
        Switch::MapPower => Info::Toggle(SwitchInfo { switch: Switch::MapPower, device_id: 61, command: 3001, argument: 722 }),
        Switch::DlPower => Info::Toggle(SwitchInfo { switch: Switch::DlPower, device_id: 60, command: 3001, argument: 721 }),
        Switch::MidsLvtControl => Info::MultiToggle(SwitchInfo { switch: Switch::MidsLvtControl, device_id: 41, command: 3001, argument: 723 }),
        Switch::LeftHardpointPower => Info::Toggle(SwitchInfo { switch: Switch::LeftHardpointPower, device_id: 22, command: 3002, argument: 670 }),
        Switch::RightHardpointPower => Info::Toggle(SwitchInfo { switch: Switch::RightHardpointPower, device_id: 22, command: 3003, argument: 671 }),
        Switch::FcrPower => Info::Toggle(SwitchInfo { switch: Switch::FcrPower, device_id: 31, command: 3001, argument: 672 }),
        Switch::RadAltPower => Info::Toggle(SwitchInfo { switch: Switch::RadAltPower, device_id: 15, command: 3001, argument: 673 }),
        Switch::IffMasterKnob => Info::MultiToggle(SwitchInfo { switch: Switch::IffMasterKnob, device_id: 35, command: 3002, argument: 540 }),
        Switch::UhfFunctionKnob => Info::MultiToggle(SwitchInfo { switch: Switch::UhfFunctionKnob, device_id: 37, command: 3008, argument: 417 }),
        Switch::CmdsPower => Info::Toggle(SwitchInfo { switch: Switch::CmdsPower, device_id: 32, command: 3001, argument: 375 }),
        Switch::CmdsJammerPower => Info::Toggle(SwitchInfo { switch: Switch::CmdsJammerPower, device_id: 32, command: 3002, argument: 374 }),
        Switch::CmdsMwsPower => Info::Toggle(SwitchInfo { switch: Switch::CmdsMwsPower, device_id: 32, command: 3003, argument: 373 }),
        Switch::CmdsExpendable1Power => Info::Toggle(SwitchInfo { switch: Switch::CmdsExpendable1Power, device_id: 32, command: 3005, argument: 365 }),
        Switch::CmdsExpendable2Power => Info::Toggle(SwitchInfo { switch: Switch::CmdsExpendable2Power, device_id: 32, command: 3006, argument: 366 }),
        Switch::CmdsExpendable3Power => Info::Toggle(SwitchInfo { switch: Switch::CmdsExpendable3Power, device_id: 32, command: 3007, argument: 367 }),
        Switch::CmdsExpendable4Power => Info::Toggle(SwitchInfo { switch: Switch::CmdsExpendable4Power, device_id: 32, command: 3008, argument: 368 }),
        Switch::CmdsProgramKnob => Info::MultiToggle(SwitchInfo { switch: Switch::CmdsProgramKnob, device_id: 32, command: 3009, argument: 377 }),
        Switch::CmdsModeKnob => Info::MultiToggle(SwitchInfo { switch: Switch::CmdsModeKnob, device_id: 32, command: 3010, argument: 378 }),
        Switch::HudBrightnessKnob => Info::Axis(SwitchInfo { switch: Switch::HudBrightnessKnob, device_id: 17, command: 3022, argument: 190 }),
        Switch::HmdIntensityKnob => Info::Axis(SwitchInfo { switch: Switch::HmdIntensityKnob, device_id: 30, command: 3001, argument: 392 }),
        Switch::LaserArm => Info::Toggle(SwitchInfo { switch: Switch::LaserArm, device_id: 22, command: 3004, argument: 103 }),
        Switch::RwrPower => Info::Toggle(SwitchInfo { switch: Switch::RwrPower, device_id: 33, command: 3011, argument: 401 }),
        Switch::SaiCage => Info::Momentary(SwitchInfo { switch: Switch::SaiCage, device_id: 47, command: 3002, argument: 67 }),
        Switch::SaiPitchTrim => Info::Axis(SwitchInfo { switch: Switch::SaiPitchTrim, device_id: 47, command: 3003, argument: 66 }),
        Switch::AntiSkid => Info::DualCommand3Pos(DualCommand3PosInfo { device_id: 7, command_up: 3010, command_down: 3004, argument: 357 }),
        Switch::EjectionSafety => Info::Toggle(SwitchInfo { switch: Switch::EjectionSafety, device_id: 10, command: 3009, argument: 785 }),
        Switch::AltimeterModeLever => Info::SpringLoaded3Pos(SpringLoaded3PosInfo { info: SwitchInfo { switch: Switch::AltimeterModeLever, device_id: 45, command: 3002, argument: 60 }, command_up: 3001 }),
        Switch::InsKnob => Info::MultiToggle(SwitchInfo { switch: Switch::InsKnob, device_id: 14, command: 3001, argument: 719 }),
        Switch::Icp1 => Info::Momentary(SwitchInfo { switch: Switch::Icp1, device_id: 17, command: 3003, argument: 171 }),
        Switch::Icp2 => Info::Momentary(SwitchInfo { switch: Switch::Icp2, device_id: 17, command: 3004, argument: 172 }),
        Switch::Icp3 => Info::Momentary(SwitchInfo { switch: Switch::Icp3, device_id: 17, command: 3005, argument: 173 }),
        Switch::Icp4 => Info::Momentary(SwitchInfo { switch: Switch::Icp4, device_id: 17, command: 3006, argument: 175 }),
        Switch::Icp5 => Info::Momentary(SwitchInfo { switch: Switch::Icp5, device_id: 17, command: 3007, argument: 176 }),
        Switch::Icp6 => Info::Momentary(SwitchInfo { switch: Switch::Icp6, device_id: 17, command: 3008, argument: 177 }),
        Switch::Icp7 => Info::Momentary(SwitchInfo { switch: Switch::Icp7, device_id: 17, command: 3009, argument: 179 }),
        Switch::Icp8 => Info::Momentary(SwitchInfo { switch: Switch::Icp8, device_id: 17, command: 3010, argument: 180 }),
        Switch::Icp9 => Info::Momentary(SwitchInfo { switch: Switch::Icp9, device_id: 17, command: 3011, argument: 181 }),
        Switch::Icp0 => Info::Momentary(SwitchInfo { switch: Switch::Icp0, device_id: 17, command: 3002, argument: 182 }),
        Switch::IcpCom1 => Info::Momentary(SwitchInfo { switch: Switch::IcpCom1, device_id: 17, command: 3012, argument: 165 }),
        Switch::IcpCom2 => Info::Momentary(SwitchInfo { switch: Switch::IcpCom2, device_id: 17, command: 3013, argument: 166 }),
        Switch::IcpIff => Info::Momentary(SwitchInfo { switch: Switch::IcpIff, device_id: 17, command: 3014, argument: 167 }),
        Switch::IcpList => Info::Momentary(SwitchInfo { switch: Switch::IcpList, device_id: 17, command: 3015, argument: 168 }),
        Switch::IcpAaMode => Info::Momentary(SwitchInfo { switch: Switch::IcpAaMode, device_id: 17, command: 3018, argument: 169 }),
        Switch::IcpAgMode => Info::Momentary(SwitchInfo { switch: Switch::IcpAgMode, device_id: 17, command: 3019, argument: 170 }),
        Switch::IcpRcl => Info::Momentary(SwitchInfo { switch: Switch::IcpRcl, device_id: 17, command: 3017, argument: 174 }),
        Switch::IcpEnter => Info::Momentary(SwitchInfo { switch: Switch::IcpEnter, device_id: 17, command: 3016, argument: 178 }),
        Switch::IcpDedInc => Info::SpringLoaded3Pos(SpringLoaded3PosInfo { info: SwitchInfo { switch: Switch::IcpDedInc, device_id: 17, command: 3031, argument: 183 }, command_up: 3030 }),
        Switch::IcpDataRtnSeq => Info::SpringLoaded3Pos(SpringLoaded3PosInfo { info: SwitchInfo { switch: Switch::IcpDataRtnSeq, device_id: 17, command: 3032, argument: 184 }, command_up: 3033 }),
        Switch::IcpDataUpDown => Info::SpringLoaded3Pos(SpringLoaded3PosInfo { info: SwitchInfo { switch: Switch::IcpDataUpDown, device_id: 17, command: 3035, argument: 185 }, command_up: 3034 }),
    }
}

/// The table entry of `s`.
pub fn switch_entry(s: Switch) -> (r: Info)
    ensures
        r == switch_table(s),
{
    match s {
        Switch::MainPower => Info::MultiToggle(SwitchInfo { switch: Switch::MainPower, device_id: 3, command: 3001, argument: 510 }),
        Switch::Jfs => Info::SpringLoaded3Pos(SpringLoaded3PosInfo { info: SwitchInfo { switch: Switch::Jfs, device_id: 6, command: 3006, argument: 447 }, command_up: 3005 }),
        Switch::CanopyRetract => Info::SpringLoaded3Pos(SpringLoaded3PosInfo { info: SwitchInfo { switch: Switch::CanopyRetract, device_id: 10, command: 3003, argument: 606 }, command_up: 3002 }),
        Switch::CanopyValue => Info::FloatValue(SwitchInfo { switch: Switch::CanopyValue, device_id: 0, command: 0, argument: 7 }),
        Switch::CanopyLock => Info::MultiToggle(SwitchInfo { switch: Switch::CanopyLock, device_id: 10, command: 3004, argument: 600 }),
        Switch::EngineTachometer => Info::FloatValue(SwitchInfo { switch: Switch::EngineTachometer, device_id: 0, command: 0, argument: 95 }),
        Switch::MmcPower => Info::Toggle(SwitchInfo { switch: Switch::MmcPower, device_id: 19, command: 3001, argument: 715 }),
        Switch::StoresStationPower => Info::Toggle(SwitchInfo { switch: Switch::StoresStationPower, device_id: 22, command: 3001, argument: 716 }),
        Switch::MfdPower => Info::Toggle(SwitchInfo { switch: Switch::MfdPower, device_id: 19, command: 3014, argument: 717 }),
        Switch::UfcPower => Info::Toggle(SwitchInfo { switch: Switch::UfcPower, device_id: 17, command: 3001, argument: 718 }),
        Switch::GpsPower => Info::Toggle(SwitchInfo { switch: Switch::GpsPower, device_id: 59, command: 3001, argument: 720 }),
        Switch::MapPower => Info::Toggle(SwitchInfo { switch: Switch::MapPower, device_id: 61, command: 3001, argument: 722 }),
        Switch::DlPower => Info::Toggle(SwitchInfo { switch: Switch::DlPower, device_id: 60, command: 3001, argument: 721 }),
        Switch::MidsLvtControl => Info::MultiToggle(SwitchInfo { switch: Switch::MidsLvtControl, device_id: 41, command: 3001, argument: 723 }),
        Switch::LeftHardpointPower => Info::Toggle(SwitchInfo { switch: Switch::LeftHardpointPower, device_id: 22, command: 3002, argument: 670 }),
        Switch::RightHardpointPower => Info::Toggle(SwitchInfo { switch: Switch::RightHardpointPower, device_id: 22, command: 3003, argument: 671 }),
        Switch::FcrPower => Info::Toggle(SwitchInfo { switch: Switch::FcrPower, device_id: 31, command: 3001, argument: 672 }),
        Switch::RadAltPower => Info::Toggle(SwitchInfo { switch: Switch::RadAltPower, device_id: 15, command: 3001, argument: 673 }),
        Switch::IffMasterKnob => Info::MultiToggle(SwitchInfo { switch: Switch::IffMasterKnob, device_id: 35, command: 3002, argument: 540 }),
        Switch::UhfFunctionKnob => Info::MultiToggle(SwitchInfo { switch: Switch::UhfFunctionKnob, device_id: 37, command: 3008, argument: 417 }),
        Switch::CmdsPower => Info::Toggle(SwitchInfo { switch: Switch::CmdsPower, device_id: 32, command: 3001, argument: 375 }),
        Switch::CmdsJammerPower => Info::Toggle(SwitchInfo { switch: Switch::CmdsJammerPower, device_id: 32, command: 3002, argument: 374 }),
        Switch::CmdsMwsPower => Info::Toggle(SwitchInfo { switch: Switch::CmdsMwsPower, device_id: 32, command: 3003, argument: 373 }),
        Switch::CmdsExpendable1Power => Info::Toggle(SwitchInfo { switch: Switch::CmdsExpendable1Power, device_id: 32, command: 3005, argument: 365 }),
        Switch::CmdsExpendable2Power => Info::Toggle(SwitchInfo { switch: Switch::CmdsExpendable2Power, device_id: 32, command: 3006, argument: 366 }),
        Switch::CmdsExpendable3Power => Info::Toggle(SwitchInfo { switch: Switch::CmdsExpendable3Power, device_id: 32, command: 3007, argument: 367 }),
        Switch::CmdsExpendable4Power => Info::Toggle(SwitchInfo { switch: Switch::CmdsExpendable4Power, device_id: 32, command: 3008, argument: 368 }),
        Switch::CmdsProgramKnob => Info::MultiToggle(SwitchInfo { switch: Switch::CmdsProgramKnob, device_id: 32, command: 3009, argument: 377 }),
        Switch::CmdsModeKnob => Info::MultiToggle(SwitchInfo { switch: Switch::CmdsModeKnob, device_id: 32, command: 3010, argument: 378 }),
        Switch::HudBrightnessKnob => Info::Axis(SwitchInfo { switch: Switch::HudBrightnessKnob, device_id: 17, command: 3022, argument: 190 }),
        Switch::HmdIntensityKnob => Info::Axis(SwitchInfo { switch: Switch::HmdIntensityKnob, device_id: 30, command: 3001, argument: 392 }),
        Switch::LaserArm => Info::Toggle(SwitchInfo { switch: Switch::LaserArm, device_id: 22, command: 3004, argument: 103 }),
        Switch::RwrPower => Info::Toggle(SwitchInfo { switch: Switch::RwrPower, device_id: 33, command: 3011, argument: 401 }),
        Switch::SaiCage => Info::Momentary(SwitchInfo { switch: Switch::SaiCage, device_id: 47, command: 3002, argument: 67 }),
        Switch::SaiPitchTrim => Info::Axis(SwitchInfo { switch: Switch::SaiPitchTrim, device_id: 47, command: 3003, argument: 66 }),
        Switch::AntiSkid => Info::DualCommand3Pos(DualCommand3PosInfo { device_id: 7, command_up: 3010, command_down: 3004, argument: 357 }),
        Switch::EjectionSafety => Info::Toggle(SwitchInfo { switch: Switch::EjectionSafety, device_id: 10, command: 3009, argument: 785 }),
        Switch::AltimeterModeLever => Info::SpringLoaded3Pos(SpringLoaded3PosInfo { info: SwitchInfo { switch: Switch::AltimeterModeLever, device_id: 45, command: 3002, argument: 60 }, command_up: 3001 }),
        Switch::InsKnob => Info::MultiToggle(SwitchInfo { switch: Switch::InsKnob, device_id: 14, command: 3001, argument: 719 }),
        Switch::Icp1 => Info::Momentary(SwitchInfo { switch: Switch::Icp1, device_id: 17, command: 3003, argument: 171 }),
        Switch::Icp2 => Info::Momentary(SwitchInfo { switch: Switch::Icp2, device_id: 17, command: 3004, argument: 172 }),
        Switch::Icp3 => Info::Momentary(SwitchInfo { switch: Switch::Icp3, device_id: 17, command: 3005, argument: 173 }),
        Switch::Icp4 => Info::Momentary(SwitchInfo { switch: Switch::Icp4, device_id: 17, command: 3006, argument: 175 }),
        Switch::Icp5 => Info::Momentary(SwitchInfo { switch: Switch::Icp5, device_id: 17, command: 3007, argument: 176 }),
        Switch::Icp6 => Info::Momentary(SwitchInfo { switch: Switch::Icp6, device_id: 17, command: 3008, argument: 177 }),
        Switch::Icp7 => Info::Momentary(SwitchInfo { switch: Switch::Icp7, device_id: 17, command: 3009, argument: 179 }),
        Switch::Icp8 => Info::Momentary(SwitchInfo { switch: Switch::Icp8, device_id: 17, command: 3010, argument: 180 }),
        Switch::Icp9 => Info::Momentary(SwitchInfo { switch: Switch::Icp9, device_id: 17, command: 3011, argument: 181 }),
        Switch::Icp0 => Info::Momentary(SwitchInfo { switch: Switch::Icp0, device_id: 17, command: 3002, argument: 182 }),
        Switch::IcpCom1 => Info::Momentary(SwitchInfo { switch: Switch::IcpCom1, device_id: 17, command: 3012, argument: 165 }),
        Switch::IcpCom2 => Info::Momentary(SwitchInfo { switch: Switch::IcpCom2, device_id: 17, command: 3013, argument: 166 }),
        Switch::IcpIff => Info::Momentary(SwitchInfo { switch: Switch::IcpIff, device_id: 17, command: 3014, argument: 167 }),
        Switch::IcpList => Info::Momentary(SwitchInfo { switch: Switch::IcpList, device_id: 17, command: 3015, argument: 168 }),
        Switch::IcpAaMode => Info::Momentary(SwitchInfo { switch: Switch::IcpAaMode, device_id: 17, command: 3018, argument: 169 }),
        Switch::IcpAgMode => Info::Momentary(SwitchInfo { switch: Switch::IcpAgMode, device_id: 17, command: 3019, argument: 170 }),
        Switch::IcpRcl => Info::Momentary(SwitchInfo { switch: Switch::IcpRcl, device_id: 17, command: 3017, argument: 174 }),
        Switch::IcpEnter => Info::Momentary(SwitchInfo { switch: Switch::IcpEnter, device_id: 17, command: 3016, argument: 178 }),
        Switch::IcpDedInc => Info::SpringLoaded3Pos(SpringLoaded3PosInfo { info: SwitchInfo { switch: Switch::IcpDedInc, device_id: 17, command: 3031, argument: 183 }, command_up: 3030 }),
        Switch::IcpDataRtnSeq => Info::SpringLoaded3Pos(SpringLoaded3PosInfo { info: SwitchInfo { switch: Switch::IcpDataRtnSeq, device_id: 17, command: 3032, argument: 184 }, command_up: 3033 }),
        Switch::IcpDataUpDown => Info::SpringLoaded3Pos(SpringLoaded3PosInfo { info: SwitchInfo { switch: Switch::IcpDataUpDown, device_id: 17, command: 3035, argument: 185 }, command_up: 3034 }),
    }
}

/// The plain description of a control, for every kind that has one.
pub open spec fn info_of(i: Info) -> Option<SwitchInfo<Switch>> {
    match i {
        Info::Toggle(x) => Some(x),
        Info::MultiToggle(x) => Some(x),
        Info::Momentary(x) => Some(x),
        Info::FloatValue(x) => Some(x),
        Info::SpringLoaded3Pos(x) => Some(x.info),
        Info::Axis(x) => Some(x),
        Info::DualCommand3Pos(_) => None,
    }
}

/// The argument that reads a control back.
pub open spec fn argument_of(i: Info) -> i32 {
    match i {
        Info::Toggle(x) => x.argument,
        Info::MultiToggle(x) => x.argument,
        Info::Momentary(x) => x.argument,
        Info::FloatValue(x) => x.argument,
        Info::SpringLoaded3Pos(x) => x.info.argument,
        Info::Axis(x) => x.argument,
        Info::DualCommand3Pos(x) => x.argument,
    }
}

/// Device, command and argument of `s`; nothing for a two-command switch.
pub fn get_switch_info(s: Switch) -> (r: Option<SwitchInfo<Switch>>)
    ensures
        r == info_of(switch_table(s)),
{
    match switch_entry(s) {
        Info::Toggle(i) => Some(i),
        Info::MultiToggle(i) => Some(i),
        Info::Momentary(i) => Some(i),
        Info::FloatValue(i) => Some(i),
        Info::SpringLoaded3Pos(i) => Some(i.info),
        Info::Axis(i) => Some(i),
        Info::DualCommand3Pos(_) => None,
    }
}

/// The argument that reads `s` back.
pub fn get_switch_argument(s: Switch) -> (r: i32)
    ensures
        r == argument_of(switch_table(s)),
{
    match switch_entry(s) {
        Info::Toggle(i) => i.argument,
        Info::MultiToggle(i) => i.argument,
        Info::Momentary(i) => i.argument,
        Info::FloatValue(i) => i.argument,
        Info::SpringLoaded3Pos(i) => i.info.argument,
        Info::Axis(i) => i.argument,
        Info::DualCommand3Pos(i) => i.argument,
    }
}

/// The click that sets `s` to `value`, when `s` has a single command.
pub open spec fn click_of(s: Switch, value: i32) -> Option<Actuation> {
    match info_of(switch_table(s)) {
        Some(i) => Some(Actuation::Click { device_id: i.device_id, command: i.command, value }),
        None => None,
    }
}

/// Set `s` to `value` (in thousandths); nothing for a switch that has no
/// single command.
pub fn set_switch_state(s: Switch, value: i32) -> (r: Option<Actuation>)
    ensures
        r == click_of(s, value),
{
    match get_switch_info(s) {
        Some(i) => Some(Actuation::Click { device_id: i.device_id, command: i.command, value }),
        None => None,
    }
}

/// The clicks that move spring-loaded switch `s` to `state`: both commands
/// released, then the one for the chosen side held.
pub open spec fn springloaded_clicks(s: Switch, state: ThreePosState) -> Seq<Actuation> {
    match switch_table(s) {
        Info::SpringLoaded3Pos(i) => {
            let dev = i.info.device_id;
            let down = i.info.command;
            let up = i.command_up;
            let release = seq![
                Actuation::Click { device_id: dev, command: down, value: 0 },
                Actuation::Click { device_id: dev, command: up, value: 0 },
            ];
            match state {
                ThreePosState::Down => release.push(
                    Actuation::Click { device_id: dev, command: down, value: -1000i32 },
                ),
                ThreePosState::Stop => release,
                ThreePosState::Up => release.push(
                    Actuation::Click { device_id: dev, command: up, value: 1000 },
                ),
            }
        },
        _ => Seq::empty(),
    }
}

/// Move spring-loaded switch `s` to `state`; nothing for another kind.
pub fn set_three_pos_springloaded(s: Switch, state: ThreePosState) -> (r: Vec<Actuation>)
    ensures
        r@ == springloaded_clicks(s, state),
{
    let mut r: Vec<Actuation> = Vec::new();
    match switch_entry(s) {
        Info::SpringLoaded3Pos(i) => {
            let dev = i.info.device_id;
            let down = i.info.command;
            let up = i.command_up;
            r.push(Actuation::Click { device_id: dev, command: down, value: 0 });
            r.push(Actuation::Click { device_id: dev, command: up, value: 0 });
            match state {
                ThreePosState::Down => r.push(
                    Actuation::Click { device_id: dev, command: down, value: -1000i32 },
                ),
                ThreePosState::Stop => {},
                ThreePosState::Up => r.push(Actuation::Click { device_id: dev, command: up, value: 1000 }),
            }
            proof {
                assert(r@ =~= springloaded_clicks(s, state));
            }
        },
        _ => {
            proof {
                assert(r@ =~= springloaded_clicks(s, state));
            }
        },
    }
    r
}

/// The clicks that put two-command switch `s` in `state`. Up is held; it is
/// let go with [`release_three_pos`] once the switch has settled.
pub open spec fn dual_clicks(s: Switch, state: ThreePosToggleState) -> Seq<Actuation> {
    match switch_table(s) {
        Info::DualCommand3Pos(i) => match state {
            ThreePosToggleState::Down => seq![
                Actuation::Click { device_id: i.device_id, command: i.command_down, value: -1000i32 },
            ],
            ThreePosToggleState::Middle => seq![
                Actuation::Click { device_id: i.device_id, command: i.command_down, value: 0 },
                Actuation::Click { device_id: i.device_id, command: i.command_up, value: -1000i32 },
            ],
            ThreePosToggleState::Up => seq![
                Actuation::Click { device_id: i.device_id, command: i.command_up, value: 1000 },
            ],
        },
        _ => Seq::empty(),
    }
}

/// Put two-command switch `s` in `state`; nothing for another kind.
pub fn set_three_pos(s: Switch, state: ThreePosToggleState) -> (r: Vec<Actuation>)
    ensures
        r@ == dual_clicks(s, state),
{
    let mut r: Vec<Actuation> = Vec::new();
    match switch_entry(s) {
        Info::DualCommand3Pos(i) => {
            match state {
                ThreePosToggleState::Down => {
                    r.push(Actuation::Click { device_id: i.device_id, command: i.command_down, value: -1000i32 });
                },
                ThreePosToggleState::Middle => {
                    r.push(Actuation::Click { device_id: i.device_id, command: i.command_down, value: 0 });
                    r.push(Actuation::Click { device_id: i.device_id, command: i.command_up, value: -1000i32 });
                },
                ThreePosToggleState::Up => {
                    r.push(Actuation::Click { device_id: i.device_id, command: i.command_up, value: 1000 });
                },
            }
        },
        _ => {},
    }
    proof {
        assert(r@ =~= dual_clicks(s, state));
    }
    r
}

/// Let go of the up command of two-command switch `s`.
pub fn release_three_pos(s: Switch) -> (r: Option<Actuation>)
    ensures
        r == match switch_table(s) {
            Info::DualCommand3Pos(i) => Some(
                Actuation::Click { device_id: i.device_id, command: i.command_up, value: 0 },
            ),
            _ => None,
        },
{
    match switch_entry(s) {
        Info::DualCommand3Pos(i) => Some(
            Actuation::Click { device_id: i.device_id, command: i.command_up, value: 0 },
        ),
        _ => None,
    }
}

fn push_click(acts: &mut Vec<Actuation>, s: Switch, value: i32)
    ensures
        final(acts)@ == match click_of(s, value) {
            Some(a) => old(acts)@.push(a),
            None => old(acts)@,
        },
{
    match set_switch_state(s, value) {
        Some(a) => acts.push(a),
        None => {},
    }
}

fn push_all(acts: &mut Vec<Actuation>, more: Vec<Actuation>)
    ensures
        final(acts)@ == old(acts)@ + more@,
{
    let mut more = more;
    acts.append(&mut more);
}

/// The device number of the HUD's indication dump.
pub const HUD_DEVICE: i32 = 1;

/// The device number of the data entry display's indication dump.
pub const DED_DEVICE: i32 = 6;

/// The path to the HUD's alignment message.
pub fn hud_align_path() -> (r: Vec<Vec<u8>>)
    ensures
        path_view(r@) == hud_align_path_spec(),
{
    let mut r: Vec<Vec<u8>> = Vec::new();
    proof { reveal_strlit("HUD_BlankRoot_PH_com"); }
    r.push(str_bytes("HUD_BlankRoot_PH_com"));
    proof { reveal_strlit("HUD_Indication_bias"); }
    r.push(str_bytes("HUD_Indication_bias"));
    proof { reveal_strlit("HUD_Window7_origin"); }
    r.push(str_bytes("HUD_Window7_origin"));
    proof { reveal_strlit("HUD_AlignStatus_origin"); }
    r.push(str_bytes("HUD_AlignStatus_origin"));
    proof { reveal_strlit("HUD_Window7_AlignmentStatus"); }
    r.push(str_bytes("HUD_Window7_AlignmentStatus"));
    proof {
        assert(path_view(r@) =~= hud_align_path_spec());
    }
    r
}

/// The bytes of an ASCII text.
pub open spec fn ascii_of(s: Seq<char>) -> Seq<u8> {
    Seq::new(s.len(), |i: int| s[i] as u8)
}

/// The bytes of an ASCII string.
pub fn str_bytes(s: &str) -> (r: Vec<u8>)
    requires
        s.is_ascii(),
    ensures
        r@ == ascii_of(s@),
{
    let n = s.unicode_len();
    let mut r: Vec<u8> = Vec::new();
    let mut i: usize = 0;
    while i < n
        invariant
            s.is_ascii(),
            n == s@.len(),
            0 <= i <= n,
            r@.len() == i,
            forall|j: int| 0 <= j < i ==> r@[j] == s@[j] as u8,
        decreases n - i,
    {
        r.push(s.get_ascii(i));
        i = i + 1;
    }
    proof {
        assert(r@ =~= ascii_of(s@));
    }
    r
}

/// Power, canopy and starter held, and the initial switch positions.
pub open spec fn initial_batch() -> Seq<Actuation> {
    seq![
        Actuation::Click { device_id: 3, command: 3001, value: 1000i32 },
        Actuation::Click { device_id: 10, command: 3003, value: 0i32 },
        Actuation::Click { device_id: 10, command: 3002, value: 0i32 },
        Actuation::Click { device_id: 10, command: 3003, value: -1000i32 },
        Actuation::Click { device_id: 6, command: 3006, value: 0i32 },
        Actuation::Click { device_id: 6, command: 3005, value: 0i32 },
        Actuation::Click { device_id: 6, command: 3006, value: -1000i32 },
        Actuation::Click { device_id: 19, command: 3001, value: 1000i32 },
        Actuation::Click { device_id: 22, command: 3001, value: 1000i32 },
        Actuation::Click { device_id: 19, command: 3014, value: 1000i32 },
        Actuation::Click { device_id: 17, command: 3001, value: 1000i32 },
        Actuation::Click { device_id: 61, command: 3001, value: 1000i32 },
        Actuation::Click { device_id: 59, command: 3001, value: 1000i32 },
        Actuation::Click { device_id: 60, command: 3001, value: 1000i32 },
        Actuation::Click { device_id: 22, command: 3002, value: 1000i32 },
        Actuation::Click { device_id: 22, command: 3003, value: 1000i32 },
        Actuation::Click { device_id: 31, command: 3001, value: 1000i32 },
        Actuation::Click { device_id: 15, command: 3001, value: 1000i32 },
        Actuation::Click { device_id: 32, command: 3001, value: 1000i32 },
        Actuation::Click { device_id: 32, command: 3002, value: 1000i32 },
        Actuation::Click { device_id: 32, command: 3003, value: 1000i32 },
        Actuation::Click { device_id: 32, command: 3005, value: 1000i32 },
        Actuation::Click { device_id: 32, command: 3006, value: 1000i32 },
        Actuation::Click { device_id: 32, command: 3007, value: 1000i32 },
        Actuation::Click { device_id: 32, command: 3008, value: 1000i32 },
        Actuation::Click { device_id: 41, command: 3001, value: 200i32 },
        Actuation::Click { device_id: 35, command: 3002, value: 300i32 },
        Actuation::Click { device_id: 37, command: 3008, value: 200i32 },
        Actuation::Click { device_id: 32, command: 3009, value: 100i32 },
        Actuation::Click { device_id: 32, command: 3010, value: 200i32 },
        Actuation::Click { device_id: 17, command: 3022, value: 1000i32 },
        Actuation::Click { device_id: 30, command: 3001, value: 1000i32 },
        Actuation::Click { device_id: 22, command: 3004, value: 1000i32 },
        Actuation::Click { device_id: 33, command: 3011, value: 1000i32 },
        Actuation::Click { device_id: 10, command: 3009, value: 1000i32 },
        Actuation::Click { device_id: 14, command: 3001, value: 100i32 },
    ]
}

/// Let the canopy switch spring back.
pub open spec fn canopy_release_batch() -> Seq<Actuation> {
    seq![
        Actuation::Click { device_id: 10, command: 3003, value: 0i32 },
        Actuation::Click { device_id: 10, command: 3002, value: 0i32 },
    ]
}

/// Lock the canopy.
pub open spec fn canopy_lock_batch() -> Seq<Actuation> {
    seq![
        Actuation::Click { device_id: 10, command: 3004, value: 1000i32 },
    ]
}

/// Engine start, standby attitude indicator uncaged and trimmed, altimeter lever held.
pub open spec fn engine_start_batch() -> Seq<Actuation> {
    seq![
        Actuation::Lockon { command: 311i32 },
        Actuation::Click { device_id: 47, command: 3002, value: -1000i32 },
        Actuation::Click { device_id: 47, command: 3003, value: 504i32 },
        Actuation::Click { device_id: 47, command: 3002, value: 0i32 },
        Actuation::Click { device_id: 45, command: 3002, value: 0i32 },
        Actuation::Click { device_id: 45, command: 3001, value: 0i32 },
        Actuation::Click { device_id: 45, command: 3002, value: -1000i32 },
    ]
}

/// Anti-skid switch up.
pub open spec fn anti_skid_batch() -> Seq<Actuation> {
    seq![
        Actuation::Click { device_id: 7, command: 3010, value: 1000i32 },
    ]
}

/// Anti-skid and altimeter lever released.
pub open spec fn post_start_release_batch() -> Seq<Actuation> {
    seq![
        Actuation::Click { device_id: 7, command: 3010, value: 0i32 },
        Actuation::Click { device_id: 45, command: 3002, value: 0i32 },
        Actuation::Click { device_id: 45, command: 3001, value: 0i32 },
    ]
}

/// INS to navigate, DED return pressed.
pub open spec fn navigate_batch() -> Seq<Actuation> {
    seq![
        Actuation::Click { device_id: 14, command: 3001, value: 300i32 },
        Actuation::Click { device_id: 17, command: 3032, value: 0i32 },
        Actuation::Click { device_id: 17, command: 3033, value: 0i32 },
        Actuation::Click { device_id: 17, command: 3032, value: -1000i32 },
    ]
}

/// DED return released.
pub open spec fn ded_release_batch() -> Seq<Actuation> {
    seq![
        Actuation::Click { device_id: 17, command: 3032, value: 0i32 },
        Actuation::Click { device_id: 17, command: 3033, value: 0i32 },
    ]
}

/// The HUD alignment message's field path.
pub open spec fn hud_align_path_spec() -> Seq<Seq<u8>> {
    seq![
        ascii_of("HUD_BlankRoot_PH_com"@),
        ascii_of("HUD_Indication_bias"@),
        ascii_of("HUD_Window7_origin"@),
        ascii_of("HUD_AlignStatus_origin"@),
        ascii_of("HUD_Window7_AlignmentStatus"@),
    ]
}

/// The F-16 cold-start procedure, step by step.
pub open spec fn f16_procedure(r: Seq<Step>) -> bool {
    &&& r.len() == 16
    &&& is_actuate(r[0], initial_batch())
    &&& r[1] == (Step::PollUntil { device_id: 0, argument: 7, cmp: Comparison::Equal, threshold: 0i32 })
    &&& r[2] == (Step::Settle { duration: 2300 })
    &&& is_actuate(r[3], canopy_release_batch())
    &&& r[4] == (Step::PollUntil { device_id: 0, argument: 606, cmp: Comparison::AtLeast, threshold: 0i32 })
    &&& is_actuate(r[5], canopy_lock_batch())
    &&& r[6] == (Step::PollUntil { device_id: 0, argument: 600, cmp: Comparison::AtLeast, threshold: 1000i32 })
    &&& r[7] == (Step::PollUntil { device_id: 0, argument: 95, cmp: Comparison::AtLeast, threshold: 120i32 })
    &&& is_actuate(r[8], engine_start_batch())
    &&& is_scan(r[9], DED_DEVICE, Seq::empty(), (2, Seq::empty()))
    &&& is_actuate(r[10], anti_skid_batch())
    &&& r[11] == (Step::Settle { duration: 100 })
    &&& is_actuate(r[12], post_start_release_batch())
    &&& is_scan(r[13], HUD_DEVICE, hud_align_path_spec(), (0, ascii_of("ALIGN"@)))
    &&& is_scan(r[14], HUD_DEVICE, hud_align_path_spec(), (1, Seq::empty()))
    &&& is_actuate(r[15], navigate_batch() + ded_release_batch())
}

/// The cold-start procedure: power and initial switches with the canopy and
/// the jet fuel starter held down, canopy closed, settled, released and
/// locked, engine start once the starter has spun the engine up, generators
/// awaited, anti-skid on, INS alignment awaited; once the alignment message
/// is gone, the INS set to navigate and the DED return key pressed and let go.
#[verifier::rlimit(100)]
pub fn startup_procedure() -> (r: Vec<Step>)
    ensures
        f16_procedure(r@),
{
    let mut steps: Vec<Step> = Vec::new();

    let mut acts: Vec<Actuation> = Vec::new();
    push_click(&mut acts, Switch::MainPower, 1000);
    push_all(&mut acts, set_three_pos_springloaded(Switch::CanopyRetract, ThreePosState::Down));
    push_all(&mut acts, set_three_pos_springloaded(Switch::Jfs, ThreePosState::Down));
    push_click(&mut acts, Switch::MmcPower, 1000);
    push_click(&mut acts, Switch::StoresStationPower, 1000);
    push_click(&mut acts, Switch::MfdPower, 1000);
    push_click(&mut acts, Switch::UfcPower, 1000);
    push_click(&mut acts, Switch::MapPower, 1000);
    push_click(&mut acts, Switch::GpsPower, 1000);
    push_click(&mut acts, Switch::DlPower, 1000);
    push_click(&mut acts, Switch::LeftHardpointPower, 1000);
    push_click(&mut acts, Switch::RightHardpointPower, 1000);
    push_click(&mut acts, Switch::FcrPower, 1000);
    push_click(&mut acts, Switch::RadAltPower, 1000);
    push_click(&mut acts, Switch::CmdsPower, 1000);
    push_click(&mut acts, Switch::CmdsJammerPower, 1000);
    push_click(&mut acts, Switch::CmdsMwsPower, 1000);
    push_click(&mut acts, Switch::CmdsExpendable1Power, 1000);
    push_click(&mut acts, Switch::CmdsExpendable2Power, 1000);
    push_click(&mut acts, Switch::CmdsExpendable3Power, 1000);
    push_click(&mut acts, Switch::CmdsExpendable4Power, 1000);
    push_click(&mut acts, Switch::MidsLvtControl, 200);
    push_click(&mut acts, Switch::IffMasterKnob, 300);
    push_click(&mut acts, Switch::UhfFunctionKnob, 200);
    push_click(&mut acts, Switch::CmdsProgramKnob, 100);
    push_click(&mut acts, Switch::CmdsModeKnob, 200);
    push_click(&mut acts, Switch::HudBrightnessKnob, 1000);
    push_click(&mut acts, Switch::HmdIntensityKnob, 1000);
    push_click(&mut acts, Switch::LaserArm, 1000);
    push_click(&mut acts, Switch::RwrPower, 1000);
    push_click(&mut acts, Switch::EjectionSafety, 1000);
    push_click(&mut acts, Switch::InsKnob, 100);
    proof {
        assert(acts@ =~= initial_batch());
    }
    steps.push(Step::Actuate(acts));
    steps.push(Step::PollUntil { device_id: 0, argument: get_switch_argument(Switch::CanopyValue), cmp: Comparison::Equal, threshold: 0 });
    steps.push(Step::Settle { duration: 2300 });
    let acts = set_three_pos_springloaded(Switch::CanopyRetract, ThreePosState::Stop);
    proof {
        assert(acts@ =~= canopy_release_batch());
    }
    steps.push(Step::Actuate(acts));
    steps.push(Step::PollUntil { device_id: 0, argument: get_switch_argument(Switch::CanopyRetract), cmp: Comparison::AtLeast, threshold: 0 });

    let mut acts: Vec<Actuation> = Vec::new();
    push_click(&mut acts, Switch::CanopyLock, 1000);
    proof {
        assert(acts@ =~= canopy_lock_batch());
    }
    steps.push(Step::Actuate(acts));
    steps.push(Step::PollUntil { device_id: 0, argument: get_switch_argument(Switch::CanopyLock), cmp: Comparison::AtLeast, threshold: 1000 });
    steps.push(Step::PollUntil { device_id: 0, argument: get_switch_argument(Switch::EngineTachometer), cmp: Comparison::AtLeast, threshold: 120 });

    let mut acts: Vec<Actuation> = Vec::new();
    acts.push(Actuation::Lockon { command: 311 });
    push_click(&mut acts, Switch::SaiCage, -1000i32);
    push_click(&mut acts, Switch::SaiPitchTrim, 504);
    push_click(&mut acts, Switch::SaiCage, 0);
    push_all(&mut acts, set_three_pos_springloaded(Switch::AltimeterModeLever, ThreePosState::Down));
    proof {
        assert(acts@ =~= engine_start_batch());
    }
    steps.push(Step::Actuate(acts));
    let no_path: Vec<Vec<u8>> = Vec::new();
    proof {
        assert(path_view(no_path@) =~= Seq::<Seq<u8>>::empty());
    }
    steps.push(Step::ScanText { device: DED_DEVICE, path: no_path, check: TextCheck::NonEmpty });
    let acts = set_three_pos(Switch::AntiSkid, ThreePosToggleState::Up);
    proof {
        assert(acts@ =~= anti_skid_batch());
    }
    steps.push(Step::Actuate(acts));
    steps.push(Step::Settle { duration: 100 });

    let mut acts: Vec<Actuation> = Vec::new();
    match release_three_pos(Switch::AntiSkid) {
        Some(a) => acts.push(a),
        None => {},
    }
    push_all(&mut acts, set_three_pos_springloaded(Switch::AltimeterModeLever, ThreePosState::Stop));
    proof {
        assert(acts@ =~= post_start_release_batch());
    }
    steps.push(Step::Actuate(acts));
    proof { reveal_strlit("ALIGN"); }
    let align = str_bytes("ALIGN");
    steps.push(Step::ScanText { device: HUD_DEVICE, path: hud_align_path(), check: TextCheck::Equals(align) });
    steps.push(Step::ScanText { device: HUD_DEVICE, path: hud_align_path(), check: TextCheck::Absent });

    let mut acts: Vec<Actuation> = Vec::new();
    push_click(&mut acts, Switch::InsKnob, 300);
    push_all(&mut acts, set_three_pos_springloaded(Switch::IcpDataRtnSeq, ThreePosState::Down));
    push_all(&mut acts, set_three_pos_springloaded(Switch::IcpDataRtnSeq, ThreePosState::Stop));
    proof {
        assert(acts@ =~= navigate_batch() + ded_release_batch());
    }
    steps.push(Step::Actuate(acts));
    steps
}

/// How a switch state is shown: `ON` or `OFF`.
pub fn bool_to_on_off(state: bool) -> (r: &'static str)
    ensures
        r@ == if state { "ON"@ } else { "OFF"@ },
{
    if state {
        "ON"
    } else {
        "OFF"
    }
}

/// Reads a displayed `ON` or `OFF`; anything else is no switch state.
pub fn parse_bool(value: &[u8]) -> (r: Option<bool>)
    ensures
        r == if value@ == seq![79u8, 78] {
            Some(true)
        } else if value@ == seq![79u8, 70, 70] {
            Some(false)
        } else {
            None
        },
{
    if value.len() == 2 && value[0] == 79u8 && value[1] == 78u8 {
        proof {
            assert(value@ =~= seq![79u8, 78]);
        }
        Some(true)
    } else if value.len() == 3 && value[0] == 79u8 && value[1] == 70u8 && value[2] == 70u8 {
        proof {
            assert(value@ =~= seq![79u8, 70, 70]);
        }
        Some(false)
    } else {
        proof {
            if value@ == seq![79u8, 78] {
                assert(value@[0] == 79u8);
            }
            if value@ == seq![79u8, 70, 70] {
                assert(value@[0] == 79u8);
            }
        }
        None
    }
}

/// Remembers whether any field of a form was edited.
#[derive(Debug, Clone, Copy, PartialEq, Eq, Structural, Default)]
pub struct EditTracker {
    pub edited: bool,
}

impl EditTracker {
    /// Note whether one more field was edited; once edited, the form stays
    /// edited.
    pub fn update(&mut self, updated: bool)
        ensures
            final(self).edited == (old(self).edited || updated),
    {
        self.edited = self.edited || updated;
    }
}

/// The actuations of an optional click.
pub open spec fn opt_seq(a: Option<Actuation>) -> Seq<Actuation> {
    match a {
        Some(x) => seq![x],
        None => Seq::empty(),
    }
}

/// The poll that waits until `s` reads back exactly `value`.
pub open spec fn poll_equal(s: Switch, value: i32) -> Step {
    Step::PollUntil {
        device_id: 0,
        argument: argument_of(switch_table(s)),
        cmp: Comparison::Equal,
        threshold: value,
    }
}

/// Wait until `s` reads back exactly `value`.
pub fn wait_switch_state(s: Switch, value: i32) -> (r: Step)
    ensures
        r == poll_equal(s, value),
{
    Step::PollUntil {
        device_id: 0,
        argument: get_switch_argument(s),
        cmp: Comparison::Equal,
        threshold: value,
    }
}

/// Set `s` to `value` and wait until it reads so.
pub fn set_switch_and_wait(s: Switch, value: i32) -> (r: Vec<Step>)
    ensures
        r@.len() == 2,
        r@[0] matches Step::Actuate(a) && a@ == opt_seq(click_of(s, value)),
        r@[1] == poll_equal(s, value),
{
    let mut acts: Vec<Actuation> = Vec::new();
    push_click(&mut acts, s, value);
    proof {
        assert(acts@ =~= opt_seq(click_of(s, value)));
    }
    let mut r: Vec<Step> = Vec::new();
    r.push(Step::Actuate(acts));
    r.push(wait_switch_state(s, value));
    r
}

/// Press `s` to `value` and wait for it, then let go and wait for the
/// release.
pub open spec fn momentary_steps(r: Seq<Step>, s: Switch, value: i32) -> bool {
    &&& r.len() == 4
    &&& is_actuate(r[0], opt_seq(click_of(s, value)))
    &&& r[1] == poll_equal(s, value)
    &&& is_actuate(r[2], opt_seq(click_of(s, 0)))
    &&& r[3] == poll_equal(s, 0)
}

/// Hold spring-loaded `s` in `state` and wait for it, then let it spring
/// back and wait for the centre.
pub open spec fn spring_steps(r: Seq<Step>, s: Switch, state: ThreePosState) -> bool {
    &&& r.len() == 4
    &&& is_actuate(r[0], springloaded_clicks(s, state))
    &&& r[1] == poll_equal(s, three_pos_reading(state))
    &&& is_actuate(r[2], springloaded_clicks(s, ThreePosState::Stop))
    &&& r[3] == poll_equal(s, 0)
}

/// Press momentary switch `s` to `value`, then let it go, waiting for each.
pub fn actuate_momentary(s: Switch, value: i32) -> (r: Vec<Step>)
    ensures
        momentary_steps(r@, s, value),
{
    let mut r = set_switch_and_wait(s, value);
    let mut rest = set_switch_and_wait(s, 0);
    r.append(&mut rest);
    r
}

/// The reading of a spring-loaded switch held in `state`.
pub open spec fn three_pos_reading(state: ThreePosState) -> i32 {
    match state {
        ThreePosState::Down => -1000i32,
        ThreePosState::Stop => 0,
        ThreePosState::Up => 1000,
    }
}

/// Hold spring-loaded switch `s` in `state` until it reads so, then let it
/// spring back and wait for the centre.
pub fn actuate_3pos_spring(s: Switch, state: ThreePosState) -> (r: Vec<Step>)
    ensures
        spring_steps(r@, s, state),
{
    let held: i32 = match state {
        ThreePosState::Down => -1000,
        ThreePosState::Stop => 0,
        ThreePosState::Up => 1000,
    };
    let mut r: Vec<Step> = Vec::new();
    r.push(Step::Actuate(set_three_pos_springloaded(s, state)));
    r.push(wait_switch_state(s, held));
    r.push(Step::Actuate(set_three_pos_springloaded(s, ThreePosState::Stop)));
    r.push(wait_switch_state(s, 0));
    r
}

/// Return the DED to its main page.
pub fn ded_return() -> (r: Vec<Step>)
    ensures
        spring_steps(r@, Switch::IcpDataRtnSeq, ThreePosState::Down),
{
    actuate_3pos_spring(Switch::IcpDataRtnSeq, ThreePosState::Down)
}

/// Step the DED to the next sequence page.
pub fn ded_sequence() -> (r: Vec<Step>)
    ensures
        spring_steps(r@, Switch::IcpDataRtnSeq, ThreePosState::Up),
{
    actuate_3pos_spring(Switch::IcpDataRtnSeq, ThreePosState::Up)
}

/// Move the DED cursor down.
pub fn ded_down() -> (r: Vec<Step>)
    ensures
        momentary_steps(r@, Switch::IcpDataUpDown, -1000i32),
{
    actuate_momentary(Switch::IcpDataUpDown, -1000)
}

/// Move the DED cursor up.
pub fn ded_up() -> (r: Vec<Step>)
    ensures
        momentary_steps(r@, Switch::IcpDataUpDown, 1000),
{
    actuate_momentary(Switch::IcpDataUpDown, 1000)
}

/// Press the ICP's LIST key.
pub fn icp_list() -> (r: Vec<Step>)
    ensures
        momentary_steps(r@, Switch::IcpList, 1000),
{
    actuate_momentary(Switch::IcpList, 1000)
}

/// Rock the DED increment switch up.
pub fn ded_rocker_up() -> (r: Vec<Step>)
    ensures
        spring_steps(r@, Switch::IcpDedInc, ThreePosState::Up),
{
    actuate_3pos_spring(Switch::IcpDedInc, ThreePosState::Up)
}

/// Rock the DED increment switch down.
pub fn ded_rocker_down() -> (r: Vec<Step>)
    ensures
        spring_steps(r@, Switch::IcpDedInc, ThreePosState::Down),
{
    actuate_3pos_spring(Switch::IcpDedInc, ThreePosState::Down)
}

/// The ICP key for digit `number`.
pub open spec fn digit_key(number: i32) -> Option<Switch> {
    if number == 0 {
        Some(Switch::Icp0)
    } else if number == 1 {
        Some(Switch::Icp1)
    } else if number == 2 {
        Some(Switch::Icp2)
    } else if number == 3 {
        Some(Switch::Icp3)
    } else if number == 4 {
        Some(Switch::Icp4)
    } else if number == 5 {
        Some(Switch::Icp5)
    } else if number == 6 {
        Some(Switch::Icp6)
    } else if number == 7 {
        Some(Switch::Icp7)
    } else if number == 8 {
        Some(Switch::Icp8)
    } else if number == 9 {
        Some(Switch::Icp9)
    } else {
        None
    }
}

/// Press the ICP key for digit `number`; nothing for a number that is not a
/// single digit.
pub fn icp_number(number: i32) -> (r: Vec<Step>)
    ensures
        match digit_key(number) {
            Some(k) => momentary_steps(r@, k, 1000),
            None => r@.len() == 0,
        },
{
    let key = match number {
        0 => Switch::Icp0,
        1 => Switch::Icp1,
        2 => Switch::Icp2,
        3 => Switch::Icp3,
        4 => Switch::Icp4,
        5 => Switch::Icp5,
        6 => Switch::Icp6,
        7 => Switch::Icp7,
        8 => Switch::Icp8,
        9 => Switch::Icp9,
        _ => {
            return Vec::new();
        },
    };
    actuate_momentary(key, 1000)
}

pub open spec fn is_digit(b: u8) -> bool {
    48 <= b && b <= 57
}

/// The number written by decimal digits `s`.
pub open spec fn digits_value(s: Seq<u8>) -> int
    decreases s.len(),
{
    if s.len() == 0 {
        0
    } else {
        digits_value(s.drop_last()) * 10 + (s.last() - 48)
    }
}

/// Index just past the last byte before `j` that is not whitespace.
pub open spec fn end_of_text(s: Seq<u8>, j: int) -> int
    decreases j,
{
    if 0 < j <= s.len() && is_space(s[j - 1]) {
        end_of_text(s, j - 1)
    } else {
        j
    }
}

/// `s` without whitespace at either end.
pub open spec fn trim(s: Seq<u8>) -> Seq<u8> {
    let t = trim_start(s);
    t.subrange(0, end_of_text(t, t.len() as int))
}

/// Every byte of `d` is a decimal digit.
pub open spec fn all_digits(d: Seq<u8>) -> bool {
    forall|i: int| 0 <= i < d.len() ==> is_digit(#[trigger] d[i])
}

/// `t` without a leading sign.
pub open spec fn unsigned_part(t: Seq<u8>) -> Seq<u8> {
    if t.len() > 0 && (t[0] == 45u8 || t[0] == 43u8) {
        t.drop_first()
    } else {
        t
    }
}

/// The `i8` that `s` spells in decimal, with an optional sign and whitespace
/// around it; nothing for any other text or a number out of range.
pub open spec fn decimal_i8(s: Seq<u8>) -> Option<i8> {
    let t = trim(s);
    let neg = t.len() > 0 && t[0] == 45u8;
    let d = unsigned_part(t);
    let v = if neg {
        -digits_value(d)
    } else {
        digits_value(d)
    };
    if d.len() == 0 || !all_digits(d) {
        None
    } else if -128 <= v <= 127 {
        Some(v as i8)
    } else {
        None
    }
}

proof fn lemma_digits_nonneg(s: Seq<u8>)
    requires
        forall|i: int| 0 <= i < s.len() ==> is_digit(#[trigger] s[i]),
    ensures
        digits_value(s) >= 0,
    decreases s.len(),
{
    if s.len() > 0 {
        assert(is_digit(s[s.len() - 1]));
        lemma_digits_nonneg(s.drop_last());
    }
}

/// Read a small decimal number, as shown on a display.
pub fn parse_i8(value: &[u8]) -> (r: Option<i8>)
    ensures
        r == decimal_i8(value@),
{
    let n = value.len();
    let mut lo: usize = 0;
    while lo < n && (value[lo] == 32u8 || (9u8 <= value[lo] && value[lo] <= 13u8))
        invariant
            n == value@.len(),
            0 <= lo <= n,
            skip_space(value@, lo as int) == skip_space(value@, 0),
        decreases n - lo,
    {
        lo = lo + 1;
    }
    let ghost t = trim_start(value@);
    let mut hi: usize = n;
    while hi > lo && (value[hi - 1] == 32u8 || (9u8 <= value[hi - 1] && value[hi - 1] <= 13u8))
        invariant
            n == value@.len(),
            lo == skip_space(value@, 0),
            t == value@.subrange(lo as int, n as int),
            lo <= hi <= n,
            end_of_text(t, hi - lo) == end_of_text(t, t.len() as int),
        decreases hi,
    {
        proof {
            assert(t[hi - 1 - lo] == value@[hi - 1]);
        }
        hi = hi - 1;
    }
    proof {
        if hi > lo {
            assert(t[hi - 1 - lo] == value@[hi - 1]);
        }
        assert(trim(value@) =~= value@.subrange(lo as int, hi as int));
    }
    let ghost tt = value@.subrange(lo as int, hi as int);
    if lo == hi {
        return None;
    }
    let neg = value[lo] == 45u8;
    let mut i: usize = if value[lo] == 45u8 || value[lo] == 43u8 {
        lo + 1
    } else {
        lo
    };
    let start = i;
    let ghost d = value@.subrange(start as int, hi as int);
    proof {
        if value[lo as int] == 45u8 || value[lo as int] == 43u8 {
            assert(d =~= tt.drop_first());
        } else {
            assert(d =~= tt);
        }
    }
    if start == hi {
        return None;
    }
    let mut acc: u32 = 0;
    while i < hi
        invariant
            d == value@.subrange(start as int, hi as int),
            tt == trim(value@),
            d == unsigned_part(tt),
            start <= i <= hi <= n,
            n == value@.len(),
            forall|k: int| start <= k < i ==> is_digit(#[trigger] value@[k]),
            acc as int == if digits_value(value@.subrange(start as int, i as int)) > 1000 {
                1000
            } else {
                digits_value(value@.subrange(start as int, i as int))
            },
        decreases hi - i,
    {
        let b = value[i];
        if b < 48u8 || b > 57u8 {
            proof {
                assert(d[i - start] == b);
                assert(!is_digit(d[i - start]));
            }
            return None;
        }
        let ghost p = value@.subrange(start as int, i as int);
        let ghost q = value@.subrange(start as int, i + 1);
        proof {
            assert(q.drop_last() =~= p);
            assert(q.last() == b);
            assert forall|k: int| 0 <= k < p.len() implies is_digit(#[trigger] p[k]) by {
                assert(p[k] == value@[start + k]);
            }
            lemma_digits_nonneg(p);
        }
        let next: u32 = acc * 10 + (b - 48u8) as u32;
        acc = if next > 1000 {
            1000
        } else {
            next
        };
        proof {
            if digits_value(p) > 1000 {
                assert(digits_value(p) * 10 > 1000) by (nonlinear_arith)
                    requires
                        digits_value(p) > 1000,
                ;
            }
        }
        i = i + 1;
    }
    proof {
        assert forall|k: int| 0 <= k < d.len() implies is_digit(#[trigger] d[k]) by {
            assert(d[k] == value@[start + k]);
        }
        assert(value@.subrange(start as int, hi as int) == d);
    }
    if neg {
        if acc <= 128 {
            Some((0i32 - acc as i32) as i8)
        } else {
            None
        }
    } else {
        if acc <= 127 {
            Some(acc as i8)
        } else {
            None
        }
    }
}

/// The value at `path` in tree `m`.
pub open spec fn value_of(m: TreeModel, path: Seq<Seq<u8>>) -> Option<Seq<u8>> {
    match walk(m, 0, path) {
        Some(i) => Some(m.0[i].1),
        None => None,
    }
}

/// The number at `path` in tree `m`.
pub open spec fn quantity_of(m: TreeModel, path: Seq<Seq<u8>>) -> Option<i8> {
    match value_of(m, path) {
        Some(v) => decimal_i8(v),
        None => None,
    }
}

/// The switch state at `path` in tree `m`.
pub open spec fn flag_of(m: TreeModel, path: Seq<Seq<u8>>) -> Option<bool> {
    match value_of(m, path) {
        Some(v) => if v == seq![79u8, 78] {
            Some(true)
        } else if v == seq![79u8, 70, 70] {
            Some(false)
        } else {
            None
        },
        None => None,
    }
}

fn path_of(a: &str) -> (r: Vec<Vec<u8>>)
    requires
        a.is_ascii(),
    ensures
        r@.map_values(|v: Vec<u8>| v@) == seq![ascii_of(a@)],
{
    let mut r: Vec<Vec<u8>> = Vec::new();
    r.push(str_bytes(a));
    proof {
        assert(r@.map_values(|v: Vec<u8>| v@) =~= seq![ascii_of(a@)]);
    }
    r
}

fn path_of2(a: &str, b: &str) -> (r: Vec<Vec<u8>>)
    requires
        a.is_ascii(),
        b.is_ascii(),
    ensures
        r@.map_values(|v: Vec<u8>| v@) == seq![ascii_of(a@), ascii_of(b@)],
{
    let mut r: Vec<Vec<u8>> = Vec::new();
    r.push(str_bytes(a));
    r.push(str_bytes(b));
    proof {
        assert(r@.map_values(|v: Vec<u8>| v@) =~= seq![ascii_of(a@), ascii_of(b@)]);
    }
    r
}

fn value_in(tree: &IndicationTree, path: &Vec<Vec<u8>>) -> (r: Option<Vec<u8>>)
    requires
        model_wf(tree.model()),
    ensures
        match value_of(tree.model(), path@.map_values(|v: Vec<u8>| v@)) {
            Some(v) => r matches Some(x) && x@ == v,
            None => r.is_none(),
        },
{
    match lookup_tree(tree, path) {
        Some(node) => Some(node.value.clone()),
        None => None,
    }
}

fn quantity_in(tree: &IndicationTree, path: &Vec<Vec<u8>>) -> (r: Option<i8>)
    requires
        model_wf(tree.model()),
    ensures
        r == quantity_of(tree.model(), path@.map_values(|v: Vec<u8>| v@)),
{
    match value_in(tree, path) {
        Some(v) => parse_i8(v.as_slice()),
        None => None,
    }
}

fn flag_in(tree: &IndicationTree, path: &Vec<Vec<u8>>) -> (r: Option<bool>)
    requires
        model_wf(tree.model()),
    ensures
        r == flag_of(tree.model(), path@.map_values(|v: Vec<u8>| v@)),
{
    match value_in(tree, path) {
        Some(v) => parse_bool(v.as_slice()),
        None => None,
    }
}

/// The two kinds of expendables.
#[derive(Debug, Clone, Copy, PartialEq, Eq, Structural)]
pub enum Countermeasure {
    Chaff,
    Flare,
}

/// The program the countermeasures page of the DED shows, and for which
/// expendable; nothing when the DED shows another page.
pub open spec fn cmds_program_of(m: TreeModel) -> Option<(Countermeasure, i8)> {
    if value_of(m, seq![ascii_of("CMDS_Prog_label"@)]).is_none() {
        None
    } else {
        let prog = quantity_of(m, seq![ascii_of("CMDS_Selected_Program"@)]);
        if value_of(m, seq![ascii_of("CMDS_CHAFF_label"@)]) == Some(ascii_of("CMDS CHAFF"@)) {
            match prog {
                Some(p) => Some((Countermeasure::Chaff, p)),
                None => None,
            }
        } else if value_of(m, seq![ascii_of("CMDS_FLARE_label"@)]) == Some(
            ascii_of("CMDS FLARE"@),
        ) {
            match prog {
                Some(p) => Some((Countermeasure::Flare, p)),
                None => None,
            }
        } else {
            None
        }
    }
}

/// Read which countermeasures program the DED shows.
pub fn get_cmds_program(tree: &IndicationTree) -> (r: Option<(Countermeasure, i8)>)
    requires
        model_wf(tree.model()),
    ensures
        r == cmds_program_of(tree.model()),
{
    proof {
        reveal_strlit("CMDS_Prog_label");
        reveal_strlit("CMDS_Selected_Program");
        reveal_strlit("CMDS_CHAFF_label");
        reveal_strlit("CMDS_FLARE_label");
        reveal_strlit("CMDS CHAFF");
        reveal_strlit("CMDS FLARE");
    }
    if value_in(tree, &path_of("CMDS_Prog_label")).is_none() {
        return None;
    }
    let prog = quantity_in(tree, &path_of("CMDS_Selected_Program"));
    let chaff = str_bytes("CMDS CHAFF");
    let flare = str_bytes("CMDS FLARE");
    let is_chaff = match value_in(tree, &path_of("CMDS_CHAFF_label")) {
        Some(v) => crate::indication::bytes_eq(v.as_slice(), chaff.as_slice()),
        None => false,
    };
    if is_chaff {
        return match prog {
            Some(p) => Some((Countermeasure::Chaff, p)),
            None => None,
        };
    }
    let is_flare = match value_in(tree, &path_of("CMDS_FLARE_label")) {
        Some(v) => crate::indication::bytes_eq(v.as_slice(), flare.as_slice()),
        None => false,
    };
    if is_flare {
        match prog {
            Some(p) => Some((Countermeasure::Flare, p)),
            None => None,
        }
    } else {
        None
    }
}

/// The settings on the countermeasures bingo page.
#[derive(Debug, Clone, Copy, PartialEq, Eq, Structural)]
pub struct CmdsBingo {
    pub chaff: i8,
    pub flare: i8,
    pub feedback: bool,
    pub reqctr: bool,
    pub bingo: bool,
}

/// Read the countermeasures bingo page; nothing unless every entry is there
/// and readable.
pub fn read_cmds_bingo_page(tree: &IndicationTree) -> (r: Option<CmdsBingo>)
    requires
        model_wf(tree.model()),
    ensures
        match (
            quantity_of(tree.model(), seq![ascii_of("CMDS_CH_Scratchpad_placeholder"@), ascii_of("CMDS_CH_Scratchpad"@)]),
            quantity_of(tree.model(), seq![ascii_of("CMDS_FL_Scratchpad_placeholder"@), ascii_of("CMDS_FL_Scratchpad"@)]),
            flag_of(tree.model(), seq![ascii_of("CMDS_FDBK_value_placeholder"@), ascii_of("CMDS_FDBK_value"@)]),
            flag_of(tree.model(), seq![ascii_of("CMDS_REQCTR_value_placeholder"@), ascii_of("CMDS_REQCTR_value"@)]),
            flag_of(tree.model(), seq![ascii_of("CMDS_BINGO_value_placeholder"@), ascii_of("CMDS_BINGO_value"@)]),
        ) {
            (Some(c), Some(f), Some(fb), Some(rq), Some(b)) => r == Some(
                CmdsBingo { chaff: c, flare: f, feedback: fb, reqctr: rq, bingo: b },
            ),
            _ => r.is_none(),
        },
{
    proof {
        reveal_strlit("CMDS_CH_Scratchpad_placeholder");
        reveal_strlit("CMDS_CH_Scratchpad");
        reveal_strlit("CMDS_FL_Scratchpad_placeholder");
        reveal_strlit("CMDS_FL_Scratchpad");
        reveal_strlit("CMDS_FDBK_value_placeholder");
        reveal_strlit("CMDS_FDBK_value");
        reveal_strlit("CMDS_REQCTR_value_placeholder");
        reveal_strlit("CMDS_REQCTR_value");
        reveal_strlit("CMDS_BINGO_value_placeholder");
        reveal_strlit("CMDS_BINGO_value");
    }
    let chaff = quantity_in(tree, &path_of2("CMDS_CH_Scratchpad_placeholder", "CMDS_CH_Scratchpad"));
    let flare = quantity_in(tree, &path_of2("CMDS_FL_Scratchpad_placeholder", "CMDS_FL_Scratchpad"));
    let feedback = flag_in(tree, &path_of2("CMDS_FDBK_value_placeholder", "CMDS_FDBK_value"));
    let reqctr = flag_in(tree, &path_of2("CMDS_REQCTR_value_placeholder", "CMDS_REQCTR_value"));
    let bingo = flag_in(tree, &path_of2("CMDS_BINGO_value_placeholder", "CMDS_BINGO_value"));
    match (chaff, flare, feedback, reqctr, bingo) {
        (Some(c), Some(f), Some(fb), Some(rq), Some(b)) => Some(
            CmdsBingo { chaff: c, flare: f, feedback: fb, reqctr: rq, bingo: b },
        ),
        _ => None,
    }
}

/// The DED moves that bring the countermeasures page to chaff program 1
/// from the page showing `kind` and `program`: `None` once there, else
/// whether to step to the next sequence page and whether to rock the
/// program number down.
pub fn cmds_root_moves(kind: Countermeasure, program: i8) -> (r: Option<(bool, bool)>)
    ensures
        (kind == Countermeasure::Chaff && program == 1) ==> r.is_none(),
        !(kind == Countermeasure::Chaff && program == 1) ==> r == Some(
            (kind != Countermeasure::Chaff, program > 1),
        ),
{
    if kind == Countermeasure::Chaff && program == 1 {
        None
    } else {
        Some((kind != Countermeasure::Chaff, program > 1))
    }
}

/// What the F-16 procedure shows while it waits at step `i`.
pub open spec fn status_text(i: int) -> Seq<char> {
    if i == 1 {
        "Waiting for canopy to close"@
    } else if i == 2 {
        "Waiting for canopy to fully close"@
    } else if i == 4 {
        "Releasing canopy close switch"@
    } else if i == 6 {
        "Locking canopy"@
    } else if i == 7 {
        "Waiting for JFS"@
    } else if i == 9 {
        "Waiting for engine to spool"@
    } else if i == 11 {
        "Switching on anti-skid"@
    } else if i == 13 {
        "Waiting for INS alignment"@
    } else if i == 14 {
        "Waiting for INS alignment"@
    } else {
        ""@
    }
}

/// The status text shown while the procedure waits at step `i`.
pub fn step_status(i: usize) -> (r: &'static str)
    ensures
        r@ == status_text(i as int),
{
    match i {
        1 => "Waiting for canopy to close",
        2 => "Waiting for canopy to fully close",
        4 => "Releasing canopy close switch",
        6 => "Locking canopy",
        7 => "Waiting for JFS",
        9 => "Waiting for engine to spool",
        11 => "Switching on anti-skid",
        13 => "Waiting for INS alignment",
        14 => "Waiting for INS alignment",
        _ => "",
    }
}

/// One countermeasures program slot. The intervals are kept as the display
/// shows them.
#[derive(Debug, PartialEq, Eq)]
pub struct CmdsProgramSlot {
    pub burst_quantity: i8,
    pub burst_interval: Vec<u8>,
    pub sequence_quantity: i8,
    pub sequence_interval: Vec<u8>,
}

/// The trimmed text at `path` in tree `m`.
pub open spec fn text_of(m: TreeModel, path: Seq<Seq<u8>>) -> Option<Seq<u8>> {
    match value_of(m, path) {
        Some(v) => Some(trim(v)),
        None => None,
    }
}

/// A copy of `v` without whitespace at either end.
pub fn trim_bytes(v: &[u8]) -> (r: Vec<u8>)
    ensures
        r@ == trim(v@),
{
    let n = v.len();
    let mut lo: usize = 0;
    while lo < n && (v[lo] == 32u8 || (9u8 <= v[lo] && v[lo] <= 13u8))
        invariant
            n == v@.len(),
            0 <= lo <= n,
            skip_space(v@, lo as int) == skip_space(v@, 0),
        decreases n - lo,
    {
        lo = lo + 1;
    }
    let ghost t = trim_start(v@);
    let mut hi: usize = n;
    while hi > lo && (v[hi - 1] == 32u8 || (9u8 <= v[hi - 1] && v[hi - 1] <= 13u8))
        invariant
            n == v@.len(),
            lo == skip_space(v@, 0),
            t == v@.subrange(lo as int, n as int),
            lo <= hi <= n,
            end_of_text(t, hi - lo) == end_of_text(t, t.len() as int),
        decreases hi,
    {
        proof {
            assert(t[hi - 1 - lo] == v@[hi - 1]);
        }
        hi = hi - 1;
    }
    proof {
        if hi > lo {
            assert(t[hi - 1 - lo] == v@[hi - 1]);
        }
        assert(trim(v@) =~= v@.subrange(lo as int, hi as int));
    }
    crate::indication::copy_range(v, lo, hi)
}

fn text_in(tree: &IndicationTree, path: &Vec<Vec<u8>>) -> (r: Option<Vec<u8>>)
    requires
        model_wf(tree.model()),
    ensures
        match text_of(tree.model(), path@.map_values(|v: Vec<u8>| v@)) {
            Some(v) => r matches Some(x) && x@ == v,
            None => r.is_none(),
        },
{
    match value_in(tree, path) {
        Some(v) => Some(trim_bytes(v.as_slice())),
        None => None,
    }
}

/// Read a countermeasures program page; nothing when the DED shows another
/// page or an entry is missing or unreadable.
pub fn parse_cmds_program_page(tree: &IndicationTree) -> (r: Option<CmdsProgramSlot>)
    requires
        model_wf(tree.model()),
    ensures
        match (
            value_of(tree.model(), seq![ascii_of("CMDS_Prog_label"@)]),
            quantity_of(tree.model(), seq![ascii_of("CMDS_BQ_Scratchpad_placeholder"@), ascii_of("CMDS_BQ_Scratchpad"@)]),
            text_of(tree.model(), seq![ascii_of("CMDS_BI_Scratchpad_placeholder"@), ascii_of("CMDS_BI_Scratchpad"@)]),
            quantity_of(tree.model(), seq![ascii_of("CMDS_SQ_Scratchpad_placeholder"@), ascii_of("CMDS_SQ_Scratchpad"@)]),
            text_of(tree.model(), seq![ascii_of("CMDS_SI_Scratchpad_placeholder"@), ascii_of("CMDS_SI_Scratchpad"@)]),
        ) {
            (Some(_), Some(bq), Some(bi), Some(sq), Some(si)) => r matches Some(slot) && slot.burst_quantity == bq
                && slot.burst_interval@ == bi && slot.sequence_quantity == sq && slot.sequence_interval@ == si,
            _ => r.is_none(),
        },
{
    proof {
        reveal_strlit("CMDS_Prog_label");
        reveal_strlit("CMDS_BQ_Scratchpad_placeholder");
        reveal_strlit("CMDS_BQ_Scratchpad");
        reveal_strlit("CMDS_BI_Scratchpad_placeholder");
        reveal_strlit("CMDS_BI_Scratchpad");
        reveal_strlit("CMDS_SQ_Scratchpad_placeholder");
        reveal_strlit("CMDS_SQ_Scratchpad");
        reveal_strlit("CMDS_SI_Scratchpad_placeholder");
        reveal_strlit("CMDS_SI_Scratchpad");
    }
    if value_in(tree, &path_of("CMDS_Prog_label")).is_none() {
        return None;
    }
    let bq = quantity_in(tree, &path_of2("CMDS_BQ_Scratchpad_placeholder", "CMDS_BQ_Scratchpad"));
    let bi = text_in(tree, &path_of2("CMDS_BI_Scratchpad_placeholder", "CMDS_BI_Scratchpad"));
    let sq = quantity_in(tree, &path_of2("CMDS_SQ_Scratchpad_placeholder", "CMDS_SQ_Scratchpad"));
    let si = text_in(tree, &path_of2("CMDS_SI_Scratchpad_placeholder", "CMDS_SI_Scratchpad"));
    match (bq, bi, sq, si) {
        (Some(bq), Some(bi), Some(sq), Some(si)) => Some(
            CmdsProgramSlot {
                burst_quantity: bq,
                burst_interval: bi,
                sequence_quantity: sq,
                sequence_interval: si,
            },
        ),
        _ => None,
    }
}

} // verus!
