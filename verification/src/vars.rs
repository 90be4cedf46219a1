//! The catalog of device variables: their wire names, the values each one
//! takes, and the parsing of user-supplied literals.

use vstd::prelude::*;
use crate::error::{Error, ErrorView};
use crate::text::{decimal_u8, parse_u8, str_eq};
use crate::value::{Value, ValueView};

verus! {

/// The wire name of a device variable.
pub type VarName = &'static str;

/// `Pow`: power state of the device (0: off, 1: on).
pub const POW: VarName = "Pow";

/// `Mod`: mode of operation (0: auto, 1: cool, 2: dry, 3: fan, 4: heat).
pub const MOD: VarName = "Mod";

/// `SetTem`: the set temperature, in the unit that `TemUn` selects.
pub const SET_TEM: VarName = "SetTem";

/// `TemUn`: temperature unit (0: Celsius, 1: Fahrenheit).
pub const TEM_UN: VarName = "TemUn";

/// `WdSpd`: fan speed, from 0 (auto) and 1 (low) to 5 (high).
pub const WD_SPD: VarName = "WdSpd";

/// `Air`: state of the fresh air valve (0: off, 1: on).
pub const AIR: VarName = "Air";

/// `Blo`: "Blow" or "X-Fan", keeps the fan running for a while after shutdown.
pub const BLO: VarName = "Blo";

/// `Health`: "cold plasma" mode (0: off, 1: on).
pub const HEALTH: VarName = "Health";

/// `SwhSlp`: sleep mode (0: off, 1: on).
pub const SWH_SLP: VarName = "SwhSlp";

/// `Lig`: indicators and display of the unit (0: off, 1: on).
pub const LIG: VarName = "Lig";

/// `SwingLfRig`: swing mode of the horizontal air blades.
pub const SWING_LF_RIG: VarName = "SwingLfRig";

/// `SwUpDn`: swing mode of the vertical air blades.
pub const SW_UP_DN: VarName = "SwUpDn";

/// `Quiet`: quiet mode (0: off, 1: on).
pub const QUIET: VarName = "Quiet";

/// `Tur`: turbo, the maximum fan speed (0: off, 1: on).
pub const TUR: VarName = "Tur";

/// `StHt`: keeps the room at 8°C to protect it from freezing (0: off, 1: on).
pub const ST_HT: VarName = "StHt";

/// `HeatCoolType`: meaning unknown.
pub const HEAT_COOL_TYPE: VarName = "HeatCoolType";

/// `TemRec`: tells two Fahrenheit values apart that share one Celsius value.
pub const TEM_REC: VarName = "TemRec";

/// `SvSt`: energy saving mode (0: off, 1: on).
pub const SV_ST: VarName = "SvSt";

/// `TemSen`: internal temperature sensor, in Celsius plus 40 (read only).
pub const TEM_SEN: VarName = "TemSen";

/// `time`: the device's clock, as in "2018-05-11 19:42:01".
pub const TIME: VarName = "time";

/// The two states of a switch.
#[derive(Debug, Clone, Copy, PartialEq, Eq, Structural)]
pub enum OnOff {
    Off,
    On,
}

/// The values of `Pow`.
pub type Pow = OnOff;

/// The values of `Air`.
pub type Air = OnOff;

/// The values of `Blo`.
pub type Blo = OnOff;

/// The values of `Health`.
pub type Health = OnOff;

/// The values of `SwhSlp`.
pub type SwhSlp = OnOff;

/// The values of `Lig`.
pub type Lig = OnOff;

/// The values of `Quiet`.
pub type Quiet = OnOff;

/// The values of `Tur`.
pub type Tur = OnOff;

/// The values of `SvSt`.
pub type SvSt = OnOff;

/// The values of `Mod`: the modes of operation.
#[derive(Debug, Clone, Copy, PartialEq, Eq, Structural)]
pub enum Mod {
    Auto,
    Cool,
    Dry,
    Fan,
    Heat,
}

/// The values of `TemUn`: the temperature units.
#[derive(Debug, Clone, Copy, PartialEq, Eq, Structural)]
pub enum TemUn {
    Celsius,
    Fahrenheit,
}

/// The values of `WdSpd`: the fan speeds. Units with three speeds have no
/// `MediumLow` and no `MediumHigh`.
#[derive(Debug, Clone, Copy, PartialEq, Eq, Structural)]
pub enum WdSpd {
    Auto,
    Low,
    MediumLow,
    Medium,
    MediumHigh,
    High,
}

/// The values of `SwingLfRig`: the default, the full swing, and five fixed
/// positions from the leftmost to the rightmost.
#[derive(Debug, Clone, Copy, PartialEq, Eq, Structural)]
pub enum SwingLfRig {
    Default,
    Full,
    Pos0,
    Pos1,
    Pos2,
    Pos3,
    Pos4,
}

/// The values of `SwUpDn`: the default, the full swing, five fixed positions
/// from the upmost to the lowest, and five swings from the downmost region
/// to the upmost.
#[derive(Debug, Clone, Copy, PartialEq, Eq, Structural)]
pub enum SwUpDn {
    Default,
    Full,
    Fixed1,
    Fixed2,
    Fixed3,
    Fixed4,
    Fixed5,
    Swing5,
    Swing4,
    Swing3,
    Swing2,
    Swing1,
}

impl OnOff {
    /// The number that stands for the state on the wire.
    pub open spec fn spec_code(self) -> i32 {
        match self {
            OnOff::Off => 0,
            OnOff::On => 1,
        }
    }

    /// The number that stands for the state on the wire.
    #[verifier::when_used_as_spec(spec_code)]
    pub fn code(self) -> (c: i32)
        ensures
            c == self.spec_code(),
    {
        match self {
            OnOff::Off => 0,
            OnOff::On => 1,
        }
    }
}

impl Mod {
    /// The number that stands for the mode on the wire.
    pub open spec fn spec_code(self) -> i32 {
        match self {
            Mod::Auto => 0,
            Mod::Cool => 1,
            Mod::Dry => 2,
            Mod::Fan => 3,
            Mod::Heat => 4,
        }
    }

    /// The number that stands for the mode on the wire.
    #[verifier::when_used_as_spec(spec_code)]
    pub fn code(self) -> (c: i32)
        ensures
            c == self.spec_code(),
    {
        match self {
            Mod::Auto => 0,
            Mod::Cool => 1,
            Mod::Dry => 2,
            Mod::Fan => 3,
            Mod::Heat => 4,
        }
    }
}

impl TemUn {
    /// The number that stands for the unit on the wire.
    pub open spec fn spec_code(self) -> i32 {
        match self {
            TemUn::Celsius => 0,
            TemUn::Fahrenheit => 1,
        }
    }

    /// The number that stands for the unit on the wire.
    #[verifier::when_used_as_spec(spec_code)]
    pub fn code(self) -> (c: i32)
        ensures
            c == self.spec_code(),
    {
        match self {
            TemUn::Celsius => 0,
            TemUn::Fahrenheit => 1,
        }
    }
}

impl WdSpd {
    /// The number that stands for the speed on the wire.
    pub open spec fn spec_code(self) -> i32 {
        match self {
            WdSpd::Auto => 0,
            WdSpd::Low => 1,
            WdSpd::MediumLow => 2,
            WdSpd::Medium => 3,
            WdSpd::MediumHigh => 4,
            WdSpd::High => 5,
        }
    }

    /// The number that stands for the speed on the wire.
    #[verifier::when_used_as_spec(spec_code)]
    pub fn code(self) -> (c: i32)
        ensures
            c == self.spec_code(),
    {
        match self {
            WdSpd::Auto => 0,
            WdSpd::Low => 1,
            WdSpd::MediumLow => 2,
            WdSpd::Medium => 3,
            WdSpd::MediumHigh => 4,
            WdSpd::High => 5,
        }
    }
}

impl SwingLfRig {
    /// The number that stands for the swing on the wire.
    pub open spec fn spec_code(self) -> i32 {
        match self {
            SwingLfRig::Default => 0,
            SwingLfRig::Full => 1,
            SwingLfRig::Pos0 => 2,
            SwingLfRig::Pos1 => 3,
            SwingLfRig::Pos2 => 4,
            SwingLfRig::Pos3 => 5,
            SwingLfRig::Pos4 => 6,
        }
    }

    /// The number that stands for the swing on the wire.
    #[verifier::when_used_as_spec(spec_code)]
    pub fn code(self) -> (c: i32)
        ensures
            c == self.spec_code(),
    {
        match self {
            SwingLfRig::Default => 0,
            SwingLfRig::Full => 1,
            SwingLfRig::Pos0 => 2,
            SwingLfRig::Pos1 => 3,
            SwingLfRig::Pos2 => 4,
            SwingLfRig::Pos3 => 5,
            SwingLfRig::Pos4 => 6,
        }
    }
}

impl SwUpDn {
    /// The number that stands for the swing on the wire.
    pub open spec fn spec_code(self) -> i32 {
        match self {
            SwUpDn::Default => 0,
            SwUpDn::Full => 1,
            SwUpDn::Fixed1 => 2,
            SwUpDn::Fixed2 => 3,
            SwUpDn::Fixed3 => 4,
            SwUpDn::Fixed4 => 5,
            SwUpDn::Fixed5 => 6,
            SwUpDn::Swing5 => 7,
            SwUpDn::Swing4 => 8,
            SwUpDn::Swing3 => 9,
            SwUpDn::Swing2 => 10,
            SwUpDn::Swing1 => 11,
        }
    }

    /// The number that stands for the swing on the wire.
    #[verifier::when_used_as_spec(spec_code)]
    pub fn code(self) -> (c: i32)
        ensures
            c == self.spec_code(),
    {
        match self {
            SwUpDn::Default => 0,
            SwUpDn::Full => 1,
            SwUpDn::Fixed1 => 2,
            SwUpDn::Fixed2 => 3,
            SwUpDn::Fixed3 => 4,
            SwUpDn::Fixed4 => 5,
            SwUpDn::Fixed5 => 6,
            SwUpDn::Swing5 => 7,
            SwUpDn::Swing4 => 8,
            SwUpDn::Swing3 => 9,
            SwUpDn::Swing2 => 10,
            SwUpDn::Swing1 => 11,
        }
    }
}

/// Every variable of the catalog, in the order of the constants above.
pub const ALL: [VarName; 20] = [
    POW,
    MOD,
    SET_TEM,
    TEM_UN,
    WD_SPD,
    AIR,
    BLO,
    HEALTH,
    SWH_SLP,
    LIG,
    SWING_LF_RIG,
    SW_UP_DN,
    QUIET,
    TUR,
    ST_HT,
    HEAT_COOL_TYPE,
    TEM_REC,
    SV_ST,
    TEM_SEN,
    TIME,
];

/// The catalog entry spelled `n`, if there is one.
pub open spec fn known_name(n: Seq<char>) -> Option<VarName> {
    if n == POW@ {
        Some(POW)
    } else if n == MOD@ {
        Some(MOD)
    } else if n == SET_TEM@ {
        Some(SET_TEM)
    } else if n == TEM_UN@ {
        Some(TEM_UN)
    } else if n == WD_SPD@ {
        Some(WD_SPD)
    } else if n == AIR@ {
        Some(AIR)
    } else if n == BLO@ {
        Some(BLO)
    } else if n == HEALTH@ {
        Some(HEALTH)
    } else if n == SWH_SLP@ {
        Some(SWH_SLP)
    } else if n == LIG@ {
        Some(LIG)
    } else if n == SWING_LF_RIG@ {
        Some(SWING_LF_RIG)
    } else if n == SW_UP_DN@ {
        Some(SW_UP_DN)
    } else if n == QUIET@ {
        Some(QUIET)
    } else if n == TUR@ {
        Some(TUR)
    } else if n == ST_HT@ {
        Some(ST_HT)
    } else if n == HEAT_COOL_TYPE@ {
        Some(HEAT_COOL_TYPE)
    } else if n == TEM_REC@ {
        Some(TEM_REC)
    } else if n == SV_ST@ {
        Some(SV_ST)
    } else if n == TEM_SEN@ {
        Some(TEM_SEN)
    } else if n == TIME@ {
        Some(TIME)
    } else {
        None
    }
}

/// Internalizes the name of a variable: the catalog's own constant for `n`,
/// or `None` where the catalog has no such name.
pub fn name_of(n: &str) -> (r: Option<VarName>)
    ensures
        r == known_name(n@),
{
    if str_eq(n, POW) {
        Some(POW)
    } else if str_eq(n, MOD) {
        Some(MOD)
    } else if str_eq(n, SET_TEM) {
        Some(SET_TEM)
    } else if str_eq(n, TEM_UN) {
        Some(TEM_UN)
    } else if str_eq(n, WD_SPD) {
        Some(WD_SPD)
    } else if str_eq(n, AIR) {
        Some(AIR)
    } else if str_eq(n, BLO) {
        Some(BLO)
    } else if str_eq(n, HEALTH) {
        Some(HEALTH)
    } else if str_eq(n, SWH_SLP) {
        Some(SWH_SLP)
    } else if str_eq(n, LIG) {
        Some(LIG)
    } else if str_eq(n, SWING_LF_RIG) {
        Some(SWING_LF_RIG)
    } else if str_eq(n, SW_UP_DN) {
        Some(SW_UP_DN)
    } else if str_eq(n, QUIET) {
        Some(QUIET)
    } else if str_eq(n, TUR) {
        Some(TUR)
    } else if str_eq(n, ST_HT) {
        Some(ST_HT)
    } else if str_eq(n, HEAT_COOL_TYPE) {
        Some(HEAT_COOL_TYPE)
    } else if str_eq(n, TEM_REC) {
        Some(TEM_REC)
    } else if str_eq(n, SV_ST) {
        Some(SV_ST)
    } else if str_eq(n, TEM_SEN) {
        Some(TEM_SEN)
    } else if str_eq(n, TIME) {
        Some(TIME)
    } else {
        None
    }
}

/// Whether `name` is an on/off variable, which takes 0 and 1 only.
pub open spec fn is_flag(name: Seq<char>) -> bool {
    name == POW@ || name == TEM_UN@ || name == AIR@ || name == BLO@ || name == HEALTH@
        || name == SWH_SLP@ || name == LIG@ || name == QUIET@ || name == TUR@ || name == SV_ST@
        || name == ST_HT@
}

/// Whether `name` is a variable that takes any byte.
pub open spec fn is_byte(name: Seq<char>) -> bool {
    name == MOD@ || name == SET_TEM@ || name == TEM_REC@ || name == WD_SPD@
        || name == SWING_LF_RIG@ || name == SW_UP_DN@
}

/// The value that the literal `value` gives the variable `name`, or `None`
/// where the variable does not take it. The device's clock and every variable
/// without a declared domain take the literal as a string.
pub open spec fn parsed_value(name: Seq<char>, value: Seq<char>) -> Option<ValueView> {
    if name == TIME@ {
        Some(ValueView::Text(value))
    } else if is_flag(name) {
        match decimal_u8(value) {
            Some(w) => if w <= 1 {
                Some(ValueView::Number(w as i64))
            } else {
                None
            },
            None => None,
        }
    } else if is_byte(name) {
        match decimal_u8(value) {
            Some(w) => Some(ValueView::Number(w as i64)),
            None => None,
        }
    } else {
        Some(ValueView::Text(value))
    }
}

/// Whether `name` is an on/off variable.
fn takes_flag(name: &str) -> (r: bool)
    ensures
        r == is_flag(name@),
{
    str_eq(name, POW) || str_eq(name, TEM_UN) || str_eq(name, AIR) || str_eq(name, BLO) || str_eq(
        name,
        HEALTH,
    ) || str_eq(name, SWH_SLP) || str_eq(name, LIG) || str_eq(name, QUIET) || str_eq(name, TUR)
        || str_eq(name, SV_ST) || str_eq(name, ST_HT)
}

/// Whether `name` is a variable that takes any byte.
fn takes_byte(name: &str) -> (r: bool)
    ensures
        r == is_byte(name@),
{
    str_eq(name, MOD) || str_eq(name, SET_TEM) || str_eq(name, TEM_REC) || str_eq(name, WD_SPD)
        || str_eq(name, SWING_LF_RIG) || str_eq(name, SW_UP_DN)
}

/// Parses the literal `value` for the variable `name`. A literal outside the
/// variable's domain is refused as `InvalidValue`, with the name and the literal.
pub fn parse_value(name: VarName, value: &str) -> (r: Result<Value, Error>)
    ensures
        match r {
            Ok(v) => parsed_value(name@, value@) == Some(v@),
            Err(e) => parsed_value(name@, value@) is None && e@ == ErrorView::InvalidValue(
                name@,
                value@,
            ),
        },
{
    if str_eq(name, TIME) {
        Ok(Value::text(value))
    } else if takes_flag(name) {
        match parse_u8(value) {
            Some(w) => if w > 1 {
                Err(Error::invalid_value(name, value))
            } else {
                Ok(Value::number(w))
            },
            None => Err(Error::invalid_value(name, value)),
        }
    } else if takes_byte(name) {
        match parse_u8(value) {
            Some(w) => Ok(Value::number(w)),
            None => Err(Error::invalid_value(name, value)),
        }
    } else {
        Ok(Value::text(value))
    }
}

} // verus!
