//! The aircraft a session may fly, and the messages that reach the
//! orchestrator about them.
use vstd::prelude::*;
use vstd::string::StrSliceExecFns;
use crate::sequence::FsmMessage;

verus! {

/// The aircraft types the host reports, by the name it gives them.
#[derive(Debug, PartialEq, Eq)]
#[allow(non_camel_case_types)]
pub enum AircraftId {
    A_10C,
    A_10C_2,
    AH_64D_BLK_II,
    AJS37,
    AV8BNA,
    F_14B,
    F_15ESE,
    F_15ESE_WSO,
    F_16C_50,
    FA_18C_hornet,
    M_2000C,
    Mi_24P,
    Mi_8MT,
    Mi_8MT_Copilot,
    Mi_8MT_FO,
    MiG_21Bis,
    SA342L,
    Su_25,
    Su_25T,
    UH_1H,
    /// A type this library has no entry for, with the host's name for it.
    Unknown(String),
}

/// The known aircraft whose host name is `name`.
pub open spec fn ship_of_name(name: Seq<char>) -> Option<AircraftId> {
    if name == seq!['A', '-', '1', '0', 'C'] {
        Some(AircraftId::A_10C)
    } else if name == seq!['A', '-', '1', '0', 'C', '_', '2'] {
        Some(AircraftId::A_10C_2)
    } else if name == seq!['A', 'H', '-', '6', '4', 'D', '_', 'B', 'L', 'K', '_', 'I', 'I'] {
        Some(AircraftId::AH_64D_BLK_II)
    } else if name == seq!['A', 'J', 'S', '3', '7'] {
        Some(AircraftId::AJS37)
    } else if name == seq!['A', 'V', '8', 'B', 'N', 'A'] {
        Some(AircraftId::AV8BNA)
    } else if name == seq!['F', '-', '1', '4', 'B'] {
        Some(AircraftId::F_14B)
    } else if name == seq!['F', '-', '1', '5', 'E', 'S', 'E'] {
        Some(AircraftId::F_15ESE)
    } else if name == seq!['F', '-', '1', '5', 'E', 'S', 'E', ' ', 'W', 'S', 'O'] {
        Some(AircraftId::F_15ESE_WSO)
    } else if name == seq!['F', '-', '1', '6', 'C', '_', '5', '0'] {
        Some(AircraftId::F_16C_50)
    } else if name == seq!['F', 'A', '-', '1', '8', 'C', '_', 'h', 'o', 'r', 'n', 'e', 't'] {
        Some(AircraftId::FA_18C_hornet)
    } else if name == seq!['M', '-', '2', '0', '0', '0', 'C'] {
        Some(AircraftId::M_2000C)
    } else if name == seq!['M', 'i', '-', '2', '4', 'P'] {
        Some(AircraftId::Mi_24P)
    } else if name == seq!['M', 'i', '-', '8', 'M', 'T'] {
        Some(AircraftId::Mi_8MT)
    } else if name == seq!['M', 'i', '-', '8', 'M', 'T', ' ', 'C', 'o', 'p', 'i', 'l', 'o', 't'] {
        Some(AircraftId::Mi_8MT_Copilot)
    } else if name == seq!['M', 'i', '-', '8', 'M', 'T', ' ', 'F', 'O'] {
        Some(AircraftId::Mi_8MT_FO)
    } else if name == seq!['M', 'i', 'G', '-', '2', '1', 'B', 'i', 's'] {
        Some(AircraftId::MiG_21Bis)
    } else if name == seq!['S', 'A', '3', '4', '2', 'L'] {
        Some(AircraftId::SA342L)
    } else if name == seq!['S', 'u', '-', '2', '5'] {
        Some(AircraftId::Su_25)
    } else if name == seq!['S', 'u', '-', '2', '5', 'T'] {
        Some(AircraftId::Su_25T)
    } else if name == seq!['U', 'H', '-', '1', 'H'] {
        Some(AircraftId::UH_1H)
    } else {
        None
    }
}

/// The name shown to the user for a known aircraft.
pub open spec fn display_name_of(kind: AircraftId) -> Seq<char> {
    match kind {
        AircraftId::A_10C => "A-10C"@,
        AircraftId::A_10C_2 => "A-10C II"@,
        AircraftId::AH_64D_BLK_II => "AH-64D Apache"@,
        AircraftId::AJS37 => "AJS37 Viggen"@,
        AircraftId::AV8BNA => "AV8BNA Harrier"@,
        AircraftId::F_14B => "F-14B Tomcat"@,
        AircraftId::F_15ESE => "F-15E Strike Eagle"@,
        AircraftId::F_15ESE_WSO => "F-15E Strike Eagle (WSO)"@,
        AircraftId::F_16C_50 => "F-16C block 50"@,
        AircraftId::FA_18C_hornet => "F/A-18C Hornet"@,
        AircraftId::M_2000C => "Mirage 2000C"@,
        AircraftId::Mi_24P => "Mi-24P \"Hind E\""@,
        AircraftId::Mi_8MT => "Mi-8MT \"Hip\""@,
        AircraftId::Mi_8MT_Copilot => "Mi-8MT \"Hip\" (Copilot)"@,
        AircraftId::Mi_8MT_FO => "Mi-8MT \"Hip\" (First Officer)"@,
        AircraftId::MiG_21Bis => "MiG-21Bis"@,
        AircraftId::SA342L => "SA342L Gazelle"@,
        AircraftId::Su_25 => "Su-25 \"Frogfoot\""@,
        AircraftId::Su_25T => "Su-25T \"Frogfoot\""@,
        AircraftId::UH_1H => "UH-1H Huey"@,
        AircraftId::Unknown(s) => s@,
    }
}

/// Whether two strings hold the same characters.
pub fn str_eq(a: &str, b: &str) -> (r: bool)
    ensures
        r == (a@ == b@),
{
    let n = a.unicode_len();
    if n != b.unicode_len() {
        return false;
    }
    let mut i: usize = 0;
    while i < n
        invariant
            n == a@.len(),
            n == b@.len(),
            0 <= i <= n,
            forall|j: int| 0 <= j < i ==> a@[j] == b@[j],
        decreases n - i,
    {
        if a.get_char(i) != b.get_char(i) {
            return false;
        }
        i = i + 1;
    }
    proof {
        assert(a@ =~= b@);
    }
    true
}

/// The aircraft the host calls `name`; a name it does not know is kept as
/// it is.
pub fn str_to_ship_enum(name: &str) -> (r: AircraftId)
    ensures
        match ship_of_name(name@) {
            Some(id) => r == id,
            None => r matches AircraftId::Unknown(s) && s@ == name@,
        },
{
    proof {
        reveal_strlit("A-10C");
        assert("A-10C"@ =~= seq!['A', '-', '1', '0', 'C']);
        reveal_strlit("A-10C_2");
        assert("A-10C_2"@ =~= seq!['A', '-', '1', '0', 'C', '_', '2']);
        reveal_strlit("AH-64D_BLK_II");
        assert("AH-64D_BLK_II"@ =~= seq!['A', 'H', '-', '6', '4', 'D', '_', 'B', 'L', 'K', '_', 'I', 'I']);
        reveal_strlit("AJS37");
        assert("AJS37"@ =~= seq!['A', 'J', 'S', '3', '7']);
        reveal_strlit("AV8BNA");
        assert("AV8BNA"@ =~= seq!['A', 'V', '8', 'B', 'N', 'A']);
        reveal_strlit("F-14B");
        assert("F-14B"@ =~= seq!['F', '-', '1', '4', 'B']);
        reveal_strlit("F-15ESE");
        assert("F-15ESE"@ =~= seq!['F', '-', '1', '5', 'E', 'S', 'E']);
        reveal_strlit("F-15ESE WSO");
        assert("F-15ESE WSO"@ =~= seq!['F', '-', '1', '5', 'E', 'S', 'E', ' ', 'W', 'S', 'O']);
        reveal_strlit("F-16C_50");
        assert("F-16C_50"@ =~= seq!['F', '-', '1', '6', 'C', '_', '5', '0']);
        reveal_strlit("FA-18C_hornet");
        assert("FA-18C_hornet"@ =~= seq!['F', 'A', '-', '1', '8', 'C', '_', 'h', 'o', 'r', 'n', 'e', 't']);
        reveal_strlit("M-2000C");
        assert("M-2000C"@ =~= seq!['M', '-', '2', '0', '0', '0', 'C']);
        reveal_strlit("Mi-24P");
        assert("Mi-24P"@ =~= seq!['M', 'i', '-', '2', '4', 'P']);
        reveal_strlit("Mi-8MT");
        assert("Mi-8MT"@ =~= seq!['M', 'i', '-', '8', 'M', 'T']);
        reveal_strlit("Mi-8MT Copilot");
        assert("Mi-8MT Copilot"@ =~= seq!['M', 'i', '-', '8', 'M', 'T', ' ', 'C', 'o', 'p', 'i', 'l', 'o', 't']);
        reveal_strlit("Mi-8MT FO");
        assert("Mi-8MT FO"@ =~= seq!['M', 'i', '-', '8', 'M', 'T', ' ', 'F', 'O']);
        reveal_strlit("MiG-21Bis");
        assert("MiG-21Bis"@ =~= seq!['M', 'i', 'G', '-', '2', '1', 'B', 'i', 's']);
        reveal_strlit("SA342L");
        assert("SA342L"@ =~= seq!['S', 'A', '3', '4', '2', 'L']);
        reveal_strlit("Su-25");
        assert("Su-25"@ =~= seq!['S', 'u', '-', '2', '5']);
        reveal_strlit("Su-25T");
        assert("Su-25T"@ =~= seq!['S', 'u', '-', '2', '5', 'T']);
        reveal_strlit("UH-1H");
        assert("UH-1H"@ =~= seq!['U', 'H', '-', '1', 'H']);
    }
    if str_eq(name, "A-10C") {
        return AircraftId::A_10C;
    }
    if str_eq(name, "A-10C_2") {
        return AircraftId::A_10C_2;
    }
    if str_eq(name, "AH-64D_BLK_II") {
        return AircraftId::AH_64D_BLK_II;
    }
    if str_eq(name, "AJS37") {
        return AircraftId::AJS37;
    }
    if str_eq(name, "AV8BNA") {
        return AircraftId::AV8BNA;
    }
    if str_eq(name, "F-14B") {
        return AircraftId::F_14B;
    }
    if str_eq(name, "F-15ESE") {
        return AircraftId::F_15ESE;
    }
    if str_eq(name, "F-15ESE WSO") {
        return AircraftId::F_15ESE_WSO;
    }
    if str_eq(name, "F-16C_50") {
        return AircraftId::F_16C_50;
    }
    if str_eq(name, "FA-18C_hornet") {
        return AircraftId::FA_18C_hornet;
    }
    if str_eq(name, "M-2000C") {
        return AircraftId::M_2000C;
    }
    if str_eq(name, "Mi-24P") {
        return AircraftId::Mi_24P;
    }
    if str_eq(name, "Mi-8MT") {
        return AircraftId::Mi_8MT;
    }
    if str_eq(name, "Mi-8MT Copilot") {
        return AircraftId::Mi_8MT_Copilot;
    }
    if str_eq(name, "Mi-8MT FO") {
        return AircraftId::Mi_8MT_FO;
    }
    if str_eq(name, "MiG-21Bis") {
        return AircraftId::MiG_21Bis;
    }
    if str_eq(name, "SA342L") {
        return AircraftId::SA342L;
    }
    if str_eq(name, "Su-25") {
        return AircraftId::Su_25;
    }
    if str_eq(name, "Su-25T") {
        return AircraftId::Su_25T;
    }
    if str_eq(name, "UH-1H") {
        return AircraftId::UH_1H;
    }
    AircraftId::Unknown(name.to_string())
}

/// The name shown to the user for `kind`.
pub fn aircraft_display_name(kind: AircraftId) -> (r: String)
    ensures
        r@ == display_name_of(kind),
{
    match kind {
        AircraftId::A_10C => "A-10C".to_string(),
        AircraftId::A_10C_2 => "A-10C II".to_string(),
        AircraftId::AH_64D_BLK_II => "AH-64D Apache".to_string(),
        AircraftId::AJS37 => "AJS37 Viggen".to_string(),
        AircraftId::AV8BNA => "AV8BNA Harrier".to_string(),
        AircraftId::F_14B => "F-14B Tomcat".to_string(),
        AircraftId::F_15ESE => "F-15E Strike Eagle".to_string(),
        AircraftId::F_15ESE_WSO => "F-15E Strike Eagle (WSO)".to_string(),
        AircraftId::F_16C_50 => "F-16C block 50".to_string(),
        AircraftId::FA_18C_hornet => "F/A-18C Hornet".to_string(),
        AircraftId::M_2000C => "Mirage 2000C".to_string(),
        AircraftId::Mi_24P => "Mi-24P \"Hind E\"".to_string(),
        AircraftId::Mi_8MT => "Mi-8MT \"Hip\"".to_string(),
        AircraftId::Mi_8MT_Copilot => "Mi-8MT \"Hip\" (Copilot)".to_string(),
        AircraftId::Mi_8MT_FO => "Mi-8MT \"Hip\" (First Officer)".to_string(),
        AircraftId::MiG_21Bis => "MiG-21Bis".to_string(),
        AircraftId::SA342L => "SA342L Gazelle".to_string(),
        AircraftId::Su_25 => "Su-25 \"Frogfoot\"".to_string(),
        AircraftId::Su_25T => "Su-25T \"Frogfoot\"".to_string(),
        AircraftId::UH_1H => "UH-1H Huey".to_string(),
        AircraftId::Unknown(s) => s,
    }
}

/// A message to the orchestrator thread.
#[derive(Debug, PartialEq, Eq)]
pub enum AppMessage {
    /// The player now flies another aircraft.
    AircraftChanged(AircraftId),
    /// An input for the running procedure.
    FsmEvent(FsmMessage),
}

/// Where a control lives on the host: the device that owns it, the command
/// that moves it, and the argument that reads it back.
#[derive(Debug, Clone, Copy, PartialEq, Eq, Structural)]
pub struct SwitchInfo<SwitchT> {
    pub switch: SwitchT,
    pub device_id: i32,
    pub command: i32,
    pub argument: i32,
}

impl<SwitchT> SwitchInfo<SwitchT> {
    pub fn new(switch: SwitchT, device_id: i32, command: i32, argument: i32) -> (r: Self)
        ensures
            r == (SwitchInfo { switch, device_id, command, argument }),
    {
        SwitchInfo { switch, device_id, command, argument }
    }

    /// A control that is only read back, never moved.
    pub fn new_float(switch: SwitchT, argument: i32) -> (r: Self)
        ensures
            r == (SwitchInfo { switch, device_id: 0, command: 0, argument }),
    {
        SwitchInfo { switch, device_id: 0, command: 0, argument }
    }
}

/// Simulator-wide commands.
#[derive(Debug, Clone, Copy, PartialEq, Eq, Structural)]
pub enum LockonCommand {
    LeftEngineStart,
    RightEngineStart,
    LeftEngineStop,
    RightEngineStop,
}

pub open spec fn lockon_code(c: LockonCommand) -> i32 {
    match c {
        LockonCommand::LeftEngineStart => 311,
        LockonCommand::RightEngineStart => 312,
        LockonCommand::LeftEngineStop => 313,
        LockonCommand::RightEngineStop => 314,
    }
}

impl LockonCommand {
    /// The host's number for this command.
    pub fn code(self) -> (r: i32)
        ensures
            r == lockon_code(self),
    {
        match self {
            LockonCommand::LeftEngineStart => 311,
            LockonCommand::RightEngineStart => 312,
            LockonCommand::LeftEngineStop => 313,
            LockonCommand::RightEngineStop => 314,
        }
    }
}

/// Settings handed over by the host when the library starts.
#[derive(Debug)]
pub struct Config {
    pub write_dir: String,
    pub lua_path: String,
    pub dll_path: String,
    pub log_level: String,
}

impl Default for Config {
    fn default() -> (r: Self)
        ensures
            r.write_dir@.len() == 0,
            r.lua_path@.len() == 0,
            r.dll_path@.len() == 0,
            r.log_level@.len() == 0,
    {
        Config {
            write_dir: String::new(),
            lua_path: String::new(),
            dll_path: String::new(),
            log_level: String::new(),
        }
    }
}

} // verus!
