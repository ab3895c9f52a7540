//! The flag configuration data model and its validation.
//!
//! A configuration names a rotation delay, two display toggles, and an
//! ordered list of flags, each an ordered list of named colors. The
//! renderer divides by the number of colors and the rotation wraps the
//! flag index, so validation rejects a flag without colors and a
//! configuration without flags, and it rejects a negative rotation delay;
//! every accepted configuration renders without arithmetic hazards.

use vstd::prelude::*;

verus! {

/// One stripe of a flag: a named color.
#[derive(Clone, Debug)]
pub struct FlagColor {
    pub name: String,
    pub r: u8,
    pub g: u8,
    pub b: u8,
}

/// A named flag: its colors in left-to-right stripe order.
#[derive(Clone, Debug)]
pub struct PrideFlag {
    pub name: String,
    pub colors: Vec<FlagColor>,
}

/// The loaded configuration: rotation delay in seconds, initial display
/// toggles, and the flags in rotation order.
#[derive(Debug)]
pub struct FlagsConfig {
    pub rotation_delay_seconds: i64,
    pub show_flag_name: bool,
    pub show_color_names: bool,
    pub flags: Vec<PrideFlag>,
}

/// A flag is renderable when it has at least one color: the stripe layout
/// divides the width by the number of colors.
pub open spec fn flag_wf(flag: PrideFlag) -> bool {
    flag.colors.len() >= 1
}

/// A configuration is well formed when the rotation delay is not negative,
/// there is at least one flag to display, and every flag is renderable.
pub open spec fn config_wf(config: FlagsConfig) -> bool {
    &&& config.rotation_delay_seconds >= 0
    &&& config.flags.len() >= 1
    &&& forall|i: int| 0 <= i < config.flags@.len() ==> flag_wf(#[trigger] config.flags@[i])
}

/// Why a configuration was rejected.
#[derive(Clone, Copy, PartialEq, Eq, Structural, Debug)]
pub enum ConfigError {
    /// The rotation delay is negative.
    NegativeRotationDelay,
    /// The configuration holds no flags, so there is nothing to display.
    NoFlags,
    /// The flag at `index` has no colors, so its stripe layout is undefined.
    EmptyFlag { index: usize },
}

/// Checks a loaded configuration before it is displayed. Returns `Ok` exactly
/// on well-formed configurations; otherwise reports the first violation, in
/// the order: negative delay, no flags, first flag without colors.
pub fn validate(config: &FlagsConfig) -> (result: Result<(), ConfigError>)
    ensures
        result is Ok <==> config_wf(*config),
        result == Err::<(), ConfigError>(ConfigError::NegativeRotationDelay) <==> config.rotation_delay_seconds < 0,
        result == Err::<(), ConfigError>(ConfigError::NoFlags) <==> (config.rotation_delay_seconds >= 0
            && config.flags.len() == 0),
        forall|i: usize| result == Err::<(), ConfigError>(ConfigError::EmptyFlag { index: i })
            <==> (config.rotation_delay_seconds >= 0
                && 0 <= i < config.flags@.len()
                && !flag_wf(config.flags@[i as int])
                && (forall|j: int| 0 <= j < i ==> flag_wf(#[trigger] config.flags@[j]))),
{
    if config.rotation_delay_seconds < 0 {
        return Err(ConfigError::NegativeRotationDelay);
    }
    if config.flags.len() == 0 {
        return Err(ConfigError::NoFlags);
    }
    let mut i: usize = 0;
    while i < config.flags.len()
        invariant
            0 <= i <= config.flags@.len(),
            config.rotation_delay_seconds >= 0,
            config.flags@.len() >= 1,
            forall|j: int| 0 <= j < i ==> flag_wf(#[trigger] config.flags@[j]),
        decreases config.flags@.len() - i,
    {
        if config.flags[i].colors.len() == 0 {
            return Err(ConfigError::EmptyFlag { index: i });
        }
        i = i + 1;
    }
    Ok(())
}

} // verus!
