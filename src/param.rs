//! The table of parameters that the effect exposes to a host.
//!
//! A host addresses parameters by an integer index; indices outside the table
//! are answered with neutral values rather than an error, since hosts probe.

use vstd::prelude::*;

verus! {

/// Number of parameters the effect exposes to a host.
pub const PARAM_NUM: i32 = 4;

/// The effect's parameters, in host index order.
#[derive(Clone, Copy, Debug, PartialEq, Eq, Structural)]
pub enum ParamId {
    /// Hard-clip threshold, a linear amplitude.
    ClampThreshold,
    /// Precision-reduction toggle, on above one half.
    LosePrecision,
    /// Dry/wet ratio.
    Mix,
    /// Post-clip boost, a linear factor.
    Gain,
}

/// How a parameter's value is written for a host.
#[derive(Clone, Copy, Debug, PartialEq, Eq, Structural)]
pub enum TextFormat {
    /// The value in decibels, with the unit.
    Decibels,
    /// "on" when the value is above one half, "off" otherwise.
    Switch,
    /// The value as a percentage, with the sign.
    Percentage,
}

impl ParamId {
    pub open spec fn spec_index(self) -> int {
        match self {
            ParamId::ClampThreshold => 0,
            ParamId::LosePrecision => 1,
            ParamId::Mix => 2,
            ParamId::Gain => 3,
        }
    }

    pub open spec fn spec_name(self) -> Seq<char> {
        match self {
            ParamId::ClampThreshold => "Chocolate!"@,
            ParamId::LosePrecision => "8-bitify"@,
            ParamId::Mix => "Mix"@,
            ParamId::Gain => "Gain"@,
        }
    }

    pub open spec fn spec_text_format(self) -> TextFormat {
        match self {
            ParamId::ClampThreshold | ParamId::Gain => TextFormat::Decibels,
            ParamId::LosePrecision => TextFormat::Switch,
            ParamId::Mix => TextFormat::Percentage,
        }
    }

    /// The parameter at a host index, if any.
    pub fn from_index(index: i32) -> (r: Option<ParamId>)
        ensures
            r is Some <==> 0 <= index < PARAM_NUM,
            r matches Some(p) ==> p.spec_index() == index,
    {
        match index {
            0 => Some(ParamId::ClampThreshold),
            1 => Some(ParamId::LosePrecision),
            2 => Some(ParamId::Mix),
            3 => Some(ParamId::Gain),
            _ => None,
        }
    }

    /// The host index of the parameter.
    pub fn index(self) -> (r: i32)
        ensures
            r == self.spec_index(),
            0 <= r < PARAM_NUM,
    {
        match self {
            ParamId::ClampThreshold => 0,
            ParamId::LosePrecision => 1,
            ParamId::Mix => 2,
            ParamId::Gain => 3,
        }
    }

    /// The name the host shows for the parameter.
    pub fn name(self) -> (r: &'static str)
        ensures
            r@ == self.spec_name(),
    {
        match self {
            ParamId::ClampThreshold => "Chocolate!",
            ParamId::LosePrecision => "8-bitify",
            ParamId::Mix => "Mix",
            ParamId::Gain => "Gain",
        }
    }

    /// How the parameter's value is written for the host.
    pub fn text_format(self) -> (r: TextFormat)
        ensures
            r == self.spec_text_format(),
    {
        match self {
            ParamId::ClampThreshold | ParamId::Gain => TextFormat::Decibels,
            ParamId::LosePrecision => TextFormat::Switch,
            ParamId::Mix => TextFormat::Percentage,
        }
    }
}

/// The text a switch parameter shows.
pub open spec fn spec_switch_text(on: bool) -> Seq<char> {
    if on {
        "on"@
    } else {
        "off"@
    }
}

/// The text a switch parameter shows: "on" or "off".
pub fn switch_text(on: bool) -> (r: &'static str)
    ensures
        r@ == spec_switch_text(on),
{
    if on {
        "on"
    } else {
        "off"
    }
}

/// The name of the parameter at a host index; empty where the index names none.
pub open spec fn name_of(index: int) -> Seq<char> {
    if index == 0 {
        ParamId::ClampThreshold.spec_name()
    } else if index == 1 {
        ParamId::LosePrecision.spec_name()
    } else if index == 2 {
        ParamId::Mix.spec_name()
    } else if index == 3 {
        ParamId::Gain.spec_name()
    } else {
        Seq::empty()
    }
}

/// The name a host shows for the parameter at `index`: empty for an index
/// outside the table.
pub fn parameter_name(index: i32) -> (r: String)
    ensures
        r@ == name_of(index as int),
{
    broadcast use vstd::string::group_string_axioms;

    match ParamId::from_index(index) {
        Some(p) => p.name().to_string(),
        None => String::new(),
    }
}

} // verus!
