//! The table of host-visible parameters: stable ids, names, modules, ranges
//! and defaults. Ranges and defaults are exact decimal values kept in
//! thousandths (`milli`), which the host layer turns into its own numbers.

use vstd::prelude::*;

use crate::state::STATE_VALUE_COUNT;

verus! {

/// Parameter id for the Tension macro.
pub const PARAM_TENSION_ID: u32 = 1;
/// Parameter id for pull rate (Hz).
pub const PARAM_PULL_RATE_ID: u32 = 2;
/// Parameter id for pull shape selection.
pub const PARAM_PULL_SHAPE_ID: u32 = 3;
/// Parameter id for legacy hold/suspend behavior.
pub const PARAM_HOLD_ID: u32 = 4;
/// Parameter id for grain/continuity macro.
pub const PARAM_GRAIN_CONTINUITY_ID: u32 = 5;
/// Parameter id for pitch coupling amount.
pub const PARAM_PITCH_COUPLING_ID: u32 = 6;
/// Parameter id for stereo width.
pub const PARAM_WIDTH_ID: u32 = 7;
/// Parameter id for space diffusion.
pub const PARAM_DIFFUSION_ID: u32 = 8;
/// Parameter id for air damping amount.
pub const PARAM_AIR_DAMPING_ID: u32 = 9;
/// Parameter id for air damping compensation toggle.
pub const PARAM_AIR_COMP_ID: u32 = 10;
/// Parameter id for pull direction map axis.
pub const PARAM_PULL_DIRECTION_ID: u32 = 11;
/// Parameter id for elasticity (map Y axis).
pub const PARAM_ELASTICITY_ID: u32 = 12;
/// Parameter id for momentary pull trigger.
pub const PARAM_PULL_TRIGGER_ID: u32 = 13;
/// Parameter id for release rebound amount.
pub const PARAM_REBOUND_ID: u32 = 14;
/// Parameter id for character mode (legacy clean/dirty id).
pub const PARAM_CLEAN_DIRTY_ID: u32 = 15;
/// Parameter id for controlled feedback amount.
pub const PARAM_FEEDBACK_ID: u32 = 16;
/// Parameter id for free-vs-sync timing mode.
pub const PARAM_TIME_MODE_ID: u32 = 17;
/// Parameter id for synced pull division.
pub const PARAM_PULL_DIVISION_ID: u32 = 18;
/// Parameter id for timing swing amount.
pub const PARAM_SWING_ID: u32 = 19;
/// Parameter id for pull latch toggle.
pub const PARAM_PULL_LATCH_ID: u32 = 20;
/// Parameter id for pull trigger quantization.
pub const PARAM_PULL_QUANTIZE_ID: u32 = 21;
/// Parameter id for warp spectral color mode.
pub const PARAM_WARP_COLOR_ID: u32 = 22;
/// Parameter id for warp motion intensity.
pub const PARAM_WARP_MOTION_ID: u32 = 23;
/// Parameter id for feedback ducking amount.
pub const PARAM_DUCKING_ID: u32 = 24;
/// Parameter id for output trim in decibels.
pub const PARAM_OUTPUT_TRIM_DB_ID: u32 = 25;
/// Parameter id for mod matrix run toggle.
pub const PARAM_MOD_RUN_ID: u32 = 26;
/// Parameter id for modulation source A shape.
pub const PARAM_MOD_A_SHAPE_ID: u32 = 27;
/// Parameter id for modulation source A rate mode.
pub const PARAM_MOD_A_RATE_MODE_ID: u32 = 28;
/// Parameter id for modulation source A free rate.
pub const PARAM_MOD_A_RATE_HZ_ID: u32 = 29;
/// Parameter id for modulation source A sync division.
pub const PARAM_MOD_A_DIVISION_ID: u32 = 30;
/// Parameter id for modulation source A depth.
pub const PARAM_MOD_A_DEPTH_ID: u32 = 31;
/// Parameter id for modulation source B shape.
pub const PARAM_MOD_B_SHAPE_ID: u32 = 32;
/// Parameter id for modulation source B rate mode.
pub const PARAM_MOD_B_RATE_MODE_ID: u32 = 33;
/// Parameter id for modulation source B free rate.
pub const PARAM_MOD_B_RATE_HZ_ID: u32 = 34;
/// Parameter id for modulation source B sync division.
pub const PARAM_MOD_B_DIVISION_ID: u32 = 35;
/// Parameter id for modulation source B depth.
pub const PARAM_MOD_B_DEPTH_ID: u32 = 36;
/// Parameter id for route depth from source A to Tension.
pub const PARAM_MOD_A_TO_TENSION_ID: u32 = 37;
/// Parameter id for route depth from source A to Direction.
pub const PARAM_MOD_A_TO_DIRECTION_ID: u32 = 38;
/// Parameter id for route depth from source A to Grain.
pub const PARAM_MOD_A_TO_GRAIN_ID: u32 = 39;
/// Parameter id for route depth from source A to Width.
pub const PARAM_MOD_A_TO_WIDTH_ID: u32 = 40;
/// Parameter id for route depth from source A to Warp Motion.
pub const PARAM_MOD_A_TO_WARP_MOTION_ID: u32 = 41;
/// Parameter id for route depth from source A to Feedback.
pub const PARAM_MOD_A_TO_FEEDBACK_ID: u32 = 42;
/// Parameter id for route depth from source B to Tension.
pub const PARAM_MOD_B_TO_TENSION_ID: u32 = 43;
/// Parameter id for route depth from source B to Direction.
pub const PARAM_MOD_B_TO_DIRECTION_ID: u32 = 44;
/// Parameter id for route depth from source B to Grain.
pub const PARAM_MOD_B_TO_GRAIN_ID: u32 = 45;
/// Parameter id for route depth from source B to Width.
pub const PARAM_MOD_B_TO_WIDTH_ID: u32 = 46;
/// Parameter id for route depth from source B to Warp Motion.
pub const PARAM_MOD_B_TO_WARP_MOTION_ID: u32 = 47;
/// Parameter id for route depth from source B to Feedback.
pub const PARAM_MOD_B_TO_FEEDBACK_ID: u32 = 48;
/// Parameter id for cycle tension-bias macro.
pub const PARAM_TENSION_BIAS_ID: u32 = 49;
/// Parameter id for release snap contour amount.
pub const PARAM_RELEASE_SNAP_ID: u32 = 50;
/// Parameter id for soft energy ceiling amount.
pub const PARAM_ENERGY_CEILING_ID: u32 = 51;

/// One host-visible parameter.
#[derive(Debug, Copy, Clone)]
pub struct ParamDef {
    /// Stable id used by automation and the host.
    pub id: u32,
    /// Display name.
    pub name: &'static str,
    /// Group shown by the host.
    pub module: &'static str,
    /// Lowest value, in thousandths.
    pub min_milli: i32,
    /// Highest value, in thousandths.
    pub max_milli: i32,
    /// Default value, in thousandths.
    pub default_milli: i32,
    /// Takes whole-number steps that name a choice (a toggle or an enumeration).
    pub stepped: bool,
}

/// Number of host-visible parameters.
pub const PARAM_COUNT: usize = 51;

/// The parameter at `index` in table order.
pub open spec fn spec_param_def(index: usize) -> Option<ParamDef> {
    match index {
        0 => Some(
            ParamDef {
                id: PARAM_TENSION_ID,
                name: "Tension",
                module: "Perform",
                min_milli: 0,
                max_milli: 1000,
                default_milli: 500,
                stepped: false,
            },
        ),
        1 => Some(
            ParamDef {
                id: PARAM_PULL_RATE_ID,
                name: "Pull Rate",
                module: "Perform",
                min_milli: 20,
                max_milli: 4000,
                default_milli: 350,
                stepped: false,
            },
        ),
        2 => Some(
            ParamDef {
                id: PARAM_PULL_SHAPE_ID,
                name: "Pull Shape",
                module: "Perform",
                min_milli: 0,
                max_milli: 4000,
                default_milli: 1000,
                stepped: true,
            },
        ),
        3 => Some(
            ParamDef {
                id: PARAM_HOLD_ID,
                name: "Hold",
                module: "Perform",
                min_milli: 0,
                max_milli: 1000,
                default_milli: 0,
                stepped: true,
            },
        ),
        4 => Some(
            ParamDef {
                id: PARAM_GRAIN_CONTINUITY_ID,
                name: "Grain",
                module: "Tone",
                min_milli: 0,
                max_milli: 1000,
                default_milli: 280,
                stepped: false,
            },
        ),
        5 => Some(
            ParamDef {
                id: PARAM_PITCH_COUPLING_ID,
                name: "Pitch Coupling",
                module: "Tone",
                min_milli: 0,
                max_milli: 1000,
                default_milli: 200,
                stepped: false,
            },
        ),
        6 => Some(
            ParamDef {
                id: PARAM_WIDTH_ID,
                name: "Width",
                module: "Space",
                min_milli: 0,
                max_milli: 1000,
                default_milli: 600,
                stepped: false,
            },
        ),
        7 => Some(
            ParamDef {
                id: PARAM_DIFFUSION_ID,
                name: "Diffusion",
                module: "Space",
                min_milli: 0,
                max_milli: 1000,
                default_milli: 550,
                stepped: false,
            },
        ),
        8 => Some(
            ParamDef {
                id: PARAM_AIR_DAMPING_ID,
                name: "Air Damping",
                module: "Space",
                min_milli: 0,
                max_milli: 1000,
                default_milli: 350,
                stepped: false,
            },
        ),
        9 => Some(
            ParamDef {
                id: PARAM_AIR_COMP_ID,
                name: "Air Comp",
                module: "Space",
                min_milli: 0,
                max_milli: 1000,
                default_milli: 1000,
                stepped: true,
            },
        ),
        10 => Some(
            ParamDef {
                id: PARAM_PULL_DIRECTION_ID,
                name: "Direction",
                module: "Perform",
                min_milli: 0,
                max_milli: 1000,
                default_milli: 500,
                stepped: false,
            },
        ),
        11 => Some(
            ParamDef {
                id: PARAM_ELASTICITY_ID,
                name: "Elasticity",
                module: "Perform",
                min_milli: 0,
                max_milli: 1000,
                default_milli: 650,
                stepped: false,
            },
        ),
        12 => Some(
            ParamDef {
                id: PARAM_PULL_TRIGGER_ID,
                name: "Pull",
                module: "Perform",
                min_milli: 0,
                max_milli: 1000,
                default_milli: 0,
                stepped: true,
            },
        ),
        13 => Some(
            ParamDef {
                id: PARAM_REBOUND_ID,
                name: "Rebound",
                module: "Perform",
                min_milli: 0,
                max_milli: 1000,
                default_milli: 550,
                stepped: false,
            },
        ),
        14 => Some(
            ParamDef {
                id: PARAM_CLEAN_DIRTY_ID,
                name: "Character",
                module: "Tone",
                min_milli: 0,
                max_milli: 2000,
                default_milli: 0,
                stepped: true,
            },
        ),
        15 => Some(
            ParamDef {
                id: PARAM_FEEDBACK_ID,
                name: "Feedback",
                module: "Space",
                min_milli: 0,
                max_milli: 700,
                default_milli: 120,
                stepped: false,
            },
        ),
        16 => Some(
            ParamDef {
                id: PARAM_TIME_MODE_ID,
                name: "Time Mode",
                module: "Rhythm",
                min_milli: 0,
                max_milli: 1000,
                default_milli: 1000,
                stepped: true,
            },
        ),
        17 => Some(
            ParamDef {
                id: PARAM_PULL_DIVISION_ID,
                name: "Pull Division",
                module: "Rhythm",
                min_milli: 0,
                max_milli: 7000,
                default_milli: 4000,
                stepped: true,
            },
        ),
        18 => Some(
            ParamDef {
                id: PARAM_SWING_ID,
                name: "Swing",
                module: "Rhythm",
                min_milli: 0,
                max_milli: 1000,
                default_milli: 0,
                stepped: false,
            },
        ),
        19 => Some(
            ParamDef {
                id: PARAM_PULL_LATCH_ID,
                name: "Pull Latch",
                module: "Rhythm",
                min_milli: 0,
                max_milli: 1000,
                default_milli: 0,
                stepped: true,
            },
        ),
        20 => Some(
            ParamDef {
                id: PARAM_PULL_QUANTIZE_ID,
                name: "Pull Quant",
                module: "Rhythm",
                min_milli: 0,
                max_milli: 3000,
                default_milli: 1000,
                stepped: true,
            },
        ),
        21 => Some(
            ParamDef {
                id: PARAM_WARP_COLOR_ID,
                name: "Warp Color",
                module: "Tone",
                min_milli: 0,
                max_milli: 2000,
                default_milli: 0,
                stepped: true,
            },
        ),
        22 => Some(
            ParamDef {
                id: PARAM_WARP_MOTION_ID,
                name: "Warp Motion",
                module: "Tone",
                min_milli: 0,
                max_milli: 1000,
                default_milli: 350,
                stepped: false,
            },
        ),
        23 => Some(
            ParamDef {
                id: PARAM_DUCKING_ID,
                name: "Ducking",
                module: "Space",
                min_milli: 0,
                max_milli: 1000,
                default_milli: 0,
                stepped: false,
            },
        ),
        24 => Some(
            ParamDef {
                id: PARAM_OUTPUT_TRIM_DB_ID,
                name: "Output Trim",
                module: "Space",
                min_milli: -12000i32,
                max_milli: 6000,
                default_milli: 0,
                stepped: false,
            },
        ),
        25 => Some(
            ParamDef {
                id: PARAM_MOD_RUN_ID,
                name: "Mod Run",
                module: "Mod",
                min_milli: 0,
                max_milli: 1000,
                default_milli: 1000,
                stepped: true,
            },
        ),
        26 => Some(
            ParamDef {
                id: PARAM_MOD_A_SHAPE_ID,
                name: "Mod A Shape",
                module: "Mod",
                min_milli: 0,
                max_milli: 3000,
                default_milli: 0,
                stepped: true,
            },
        ),
        27 => Some(
            ParamDef {
                id: PARAM_MOD_A_RATE_MODE_ID,
                name: "Mod A Rate Mode",
                module: "Mod",
                min_milli: 0,
                max_milli: 1000,
                default_milli: 1000,
                stepped: true,
            },
        ),
        28 => Some(
            ParamDef {
                id: PARAM_MOD_A_RATE_HZ_ID,
                name: "Mod A Rate",
                module: "Mod",
                min_milli: 10,
                max_milli: 4000,
                default_milli: 180,
                stepped: false,
            },
        ),
        29 => Some(
            ParamDef {
                id: PARAM_MOD_A_DIVISION_ID,
                name: "Mod A Div",
                module: "Mod",
                min_milli: 0,
                max_milli: 7000,
                default_milli: 5000,
                stepped: true,
            },
        ),
        30 => Some(
            ParamDef {
                id: PARAM_MOD_A_DEPTH_ID,
                name: "Mod A Depth",
                module: "Mod",
                min_milli: 0,
                max_milli: 1000,
                default_milli: 220,
                stepped: false,
            },
        ),
        31 => Some(
            ParamDef {
                id: PARAM_MOD_B_SHAPE_ID,
                name: "Mod B Shape",
                module: "Mod",
                min_milli: 0,
                max_milli: 3000,
                default_milli: 2000,
                stepped: true,
            },
        ),
        32 => Some(
            ParamDef {
                id: PARAM_MOD_B_RATE_MODE_ID,
                name: "Mod B Rate Mode",
                module: "Mod",
                min_milli: 0,
                max_milli: 1000,
                default_milli: 1000,
                stepped: true,
            },
        ),
        33 => Some(
            ParamDef {
                id: PARAM_MOD_B_RATE_HZ_ID,
                name: "Mod B Rate",
                module: "Mod",
                min_milli: 10,
                max_milli: 4000,
                default_milli: 90,
                stepped: false,
            },
        ),
        34 => Some(
            ParamDef {
                id: PARAM_MOD_B_DIVISION_ID,
                name: "Mod B Div",
                module: "Mod",
                min_milli: 0,
                max_milli: 7000,
                default_milli: 6000,
                stepped: true,
            },
        ),
        35 => Some(
            ParamDef {
                id: PARAM_MOD_B_DEPTH_ID,
                name: "Mod B Depth",
                module: "Mod",
                min_milli: 0,
                max_milli: 1000,
                default_milli: 200,
                stepped: false,
            },
        ),
        36 => Some(
            ParamDef {
                id: PARAM_MOD_A_TO_TENSION_ID,
                name: "A>Tension",
                module: "Mod Matrix",
                min_milli: -1000i32,
                max_milli: 1000,
                default_milli: 350,
                stepped: false,
            },
        ),
        37 => Some(
            ParamDef {
                id: PARAM_MOD_A_TO_DIRECTION_ID,
                name: "A>Direction",
                module: "Mod Matrix",
                min_milli: -1000i32,
                max_milli: 1000,
                default_milli: 250,
                stepped: false,
            },
        ),
        38 => Some(
            ParamDef {
                id: PARAM_MOD_A_TO_GRAIN_ID,
                name: "A>Grain",
                module: "Mod Matrix",
                min_milli: -1000i32,
                max_milli: 1000,
                default_milli: 0,
                stepped: false,
            },
        ),
        39 => Some(
            ParamDef {
                id: PARAM_MOD_A_TO_WIDTH_ID,
                name: "A>Width",
                module: "Mod Matrix",
                min_milli: -1000i32,
                max_milli: 1000,
                default_milli: 0,
                stepped: false,
            },
        ),
        40 => Some(
            ParamDef {
                id: PARAM_MOD_A_TO_WARP_MOTION_ID,
                name: "A>Warp Motion",
                module: "Mod Matrix",
                min_milli: -1000i32,
                max_milli: 1000,
                default_milli: 0,
                stepped: false,
            },
        ),
        41 => Some(
            ParamDef {
                id: PARAM_MOD_A_TO_FEEDBACK_ID,
                name: "A>Feedback",
                module: "Mod Matrix",
                min_milli: -1000i32,
                max_milli: 1000,
                default_milli: 0,
                stepped: false,
            },
        ),
        42 => Some(
            ParamDef {
                id: PARAM_MOD_B_TO_TENSION_ID,
                name: "B>Tension",
                module: "Mod Matrix",
                min_milli: -1000i32,
                max_milli: 1000,
                default_milli: 0,
                stepped: false,
            },
        ),
        43 => Some(
            ParamDef {
                id: PARAM_MOD_B_TO_DIRECTION_ID,
                name: "B>Direction",
                module: "Mod Matrix",
                min_milli: -1000i32,
                max_milli: 1000,
                default_milli: 0,
                stepped: false,
            },
        ),
        44 => Some(
            ParamDef {
                id: PARAM_MOD_B_TO_GRAIN_ID,
                name: "B>Grain",
                module: "Mod Matrix",
                min_milli: -1000i32,
                max_milli: 1000,
                default_milli: 250,
                stepped: false,
            },
        ),
        45 => Some(
            ParamDef {
                id: PARAM_MOD_B_TO_WIDTH_ID,
                name: "B>Width",
                module: "Mod Matrix",
                min_milli: -1000i32,
                max_milli: 1000,
                default_milli: 180,
                stepped: false,
            },
        ),
        46 => Some(
            ParamDef {
                id: PARAM_MOD_B_TO_WARP_MOTION_ID,
                name: "B>Warp Motion",
                module: "Mod Matrix",
                min_milli: -1000i32,
                max_milli: 1000,
                default_milli: 200,
                stepped: false,
            },
        ),
        47 => Some(
            ParamDef {
                id: PARAM_MOD_B_TO_FEEDBACK_ID,
                name: "B>Feedback",
                module: "Mod Matrix",
                min_milli: -1000i32,
                max_milli: 1000,
                default_milli: 0,
                stepped: false,
            },
        ),
        48 => Some(
            ParamDef {
                id: PARAM_TENSION_BIAS_ID,
                name: "Tension Bias",
                module: "Rhythm",
                min_milli: 0,
                max_milli: 1000,
                default_milli: 500,
                stepped: false,
            },
        ),
        49 => Some(
            ParamDef {
                id: PARAM_RELEASE_SNAP_ID,
                name: "Release Snap",
                module: "Rhythm",
                min_milli: 0,
                max_milli: 1000,
                default_milli: 350,
                stepped: false,
            },
        ),
        50 => Some(
            ParamDef {
                id: PARAM_ENERGY_CEILING_ID,
                name: "Energy Ceiling",
                module: "Safety",
                min_milli: 0,
                max_milli: 1000,
                default_milli: 700,
                stepped: false,
            },
        ),
        _ => None,
    }
}

/// The parameter at `index` in table order, if there is one.
pub fn param_def(index: usize) -> (r: Option<ParamDef>)
    ensures
        r == spec_param_def(index),
{
    match index {
            0 => Some(
                ParamDef {
                    id: PARAM_TENSION_ID,
                    name: "Tension",
                    module: "Perform",
                    min_milli: 0,
                    max_milli: 1000,
                    default_milli: 500,
                    stepped: false,
                },
            ),
            1 => Some(
                ParamDef {
                    id: PARAM_PULL_RATE_ID,
                    name: "Pull Rate",
                    module: "Perform",
                    min_milli: 20,
                    max_milli: 4000,
                    default_milli: 350,
                    stepped: false,
                },
            ),
            2 => Some(
                ParamDef {
                    id: PARAM_PULL_SHAPE_ID,
                    name: "Pull Shape",
                    module: "Perform",
                    min_milli: 0,
                    max_milli: 4000,
                    default_milli: 1000,
                    stepped: true,
                },
            ),
            3 => Some(
                ParamDef {
                    id: PARAM_HOLD_ID,
                    name: "Hold",
                    module: "Perform",
                    min_milli: 0,
                    max_milli: 1000,
                    default_milli: 0,
                    stepped: true,
                },
            ),
            4 => Some(
                ParamDef {
                    id: PARAM_GRAIN_CONTINUITY_ID,
                    name: "Grain",
                    module: "Tone",
                    min_milli: 0,
                    max_milli: 1000,
                    default_milli: 280,
                    stepped: false,
                },
            ),
            5 => Some(
                ParamDef {
                    id: PARAM_PITCH_COUPLING_ID,
                    name: "Pitch Coupling",
                    module: "Tone",
                    min_milli: 0,
                    max_milli: 1000,
                    default_milli: 200,
                    stepped: false,
                },
            ),
            6 => Some(
                ParamDef {
                    id: PARAM_WIDTH_ID,
                    name: "Width",
                    module: "Space",
                    min_milli: 0,
                    max_milli: 1000,
                    default_milli: 600,
                    stepped: false,
                },
            ),
            7 => Some(
                ParamDef {
                    id: PARAM_DIFFUSION_ID,
                    name: "Diffusion",
                    module: "Space",
                    min_milli: 0,
                    max_milli: 1000,
                    default_milli: 550,
                    stepped: false,
                },
            ),
            8 => Some(
                ParamDef {
                    id: PARAM_AIR_DAMPING_ID,
                    name: "Air Damping",
                    module: "Space",
                    min_milli: 0,
                    max_milli: 1000,
                    default_milli: 350,
                    stepped: false,
                },
            ),
            9 => Some(
                ParamDef {
                    id: PARAM_AIR_COMP_ID,
                    name: "Air Comp",
                    module: "Space",
                    min_milli: 0,
                    max_milli: 1000,
                    default_milli: 1000,
                    stepped: true,
                },
            ),
            10 => Some(
                ParamDef {
                    id: PARAM_PULL_DIRECTION_ID,
                    name: "Direction",
                    module: "Perform",
                    min_milli: 0,
                    max_milli: 1000,
                    default_milli: 500,
                    stepped: false,
                },
            ),
            11 => Some(
                ParamDef {
                    id: PARAM_ELASTICITY_ID,
                    name: "Elasticity",
                    module: "Perform",
                    min_milli: 0,
                    max_milli: 1000,
                    default_milli: 650,
                    stepped: false,
                },
            ),
            12 => Some(
                ParamDef {
                    id: PARAM_PULL_TRIGGER_ID,
                    name: "Pull",
                    module: "Perform",
                    min_milli: 0,
                    max_milli: 1000,
                    default_milli: 0,
                    stepped: true,
                },
            ),
            13 => Some(
                ParamDef {
                    id: PARAM_REBOUND_ID,
                    name: "Rebound",
                    module: "Perform",
                    min_milli: 0,
                    max_milli: 1000,
                    default_milli: 550,
                    stepped: false,
                },
            ),
            14 => Some(
                ParamDef {
                    id: PARAM_CLEAN_DIRTY_ID,
                    name: "Character",
                    module: "Tone",
                    min_milli: 0,
                    max_milli: 2000,
                    default_milli: 0,
                    stepped: true,
                },
            ),
            15 => Some(
                ParamDef {
                    id: PARAM_FEEDBACK_ID,
                    name: "Feedback",
                    module: "Space",
                    min_milli: 0,
                    max_milli: 700,
                    default_milli: 120,
                    stepped: false,
                },
            ),
            16 => Some(
                ParamDef {
                    id: PARAM_TIME_MODE_ID,
                    name: "Time Mode",
                    module: "Rhythm",
                    min_milli: 0,
                    max_milli: 1000,
                    default_milli: 1000,
                    stepped: true,
                },
            ),
            17 => Some(
                ParamDef {
                    id: PARAM_PULL_DIVISION_ID,
                    name: "Pull Division",
                    module: "Rhythm",
                    min_milli: 0,
                    max_milli: 7000,
                    default_milli: 4000,
                    stepped: true,
                },
            ),
            18 => Some(
                ParamDef {
                    id: PARAM_SWING_ID,
                    name: "Swing",
                    module: "Rhythm",
                    min_milli: 0,
                    max_milli: 1000,
                    default_milli: 0,
                    stepped: false,
                },
            ),
            19 => Some(
                ParamDef {
                    id: PARAM_PULL_LATCH_ID,
                    name: "Pull Latch",
                    module: "Rhythm",
                    min_milli: 0,
                    max_milli: 1000,
                    default_milli: 0,
                    stepped: true,
                },
            ),
            20 => Some(
                ParamDef {
                    id: PARAM_PULL_QUANTIZE_ID,
                    name: "Pull Quant",
                    module: "Rhythm",
                    min_milli: 0,
                    max_milli: 3000,
                    default_milli: 1000,
                    stepped: true,
                },
            ),
            21 => Some(
                ParamDef {
                    id: PARAM_WARP_COLOR_ID,
                    name: "Warp Color",
                    module: "Tone",
                    min_milli: 0,
                    max_milli: 2000,
                    default_milli: 0,
                    stepped: true,
                },
            ),
            22 => Some(
                ParamDef {
                    id: PARAM_WARP_MOTION_ID,
                    name: "Warp Motion",
                    module: "Tone",
                    min_milli: 0,
                    max_milli: 1000,
                    default_milli: 350,
                    stepped: false,
                },
            ),
            23 => Some(
                ParamDef {
                    id: PARAM_DUCKING_ID,
                    name: "Ducking",
                    module: "Space",
                    min_milli: 0,
                    max_milli: 1000,
                    default_milli: 0,
                    stepped: false,
                },
            ),
            24 => Some(
                ParamDef {
                    id: PARAM_OUTPUT_TRIM_DB_ID,
                    name: "Output Trim",
                    module: "Space",
                    min_milli: -12000i32,
                    max_milli: 6000,
                    default_milli: 0,
                    stepped: false,
                },
            ),
            25 => Some(
                ParamDef {
                    id: PARAM_MOD_RUN_ID,
                    name: "Mod Run",
                    module: "Mod",
                    min_milli: 0,
                    max_milli: 1000,
                    default_milli: 1000,
                    stepped: true,
                },
            ),
            26 => Some(
                ParamDef {
                    id: PARAM_MOD_A_SHAPE_ID,
                    name: "Mod A Shape",
                    module: "Mod",
                    min_milli: 0,
                    max_milli: 3000,
                    default_milli: 0,
                    stepped: true,
                },
            ),
            27 => Some(
                ParamDef {
                    id: PARAM_MOD_A_RATE_MODE_ID,
                    name: "Mod A Rate Mode",
                    module: "Mod",
                    min_milli: 0,
                    max_milli: 1000,
                    default_milli: 1000,
                    stepped: true,
                },
            ),
            28 => Some(
                ParamDef {
                    id: PARAM_MOD_A_RATE_HZ_ID,
                    name: "Mod A Rate",
                    module: "Mod",
                    min_milli: 10,
                    max_milli: 4000,
                    default_milli: 180,
                    stepped: false,
                },
            ),
            29 => Some(
                ParamDef {
                    id: PARAM_MOD_A_DIVISION_ID,
                    name: "Mod A Div",
                    module: "Mod",
                    min_milli: 0,
                    max_milli: 7000,
                    default_milli: 5000,
                    stepped: true,
                },
            ),
            30 => Some(
                ParamDef {
                    id: PARAM_MOD_A_DEPTH_ID,
                    name: "Mod A Depth",
                    module: "Mod",
                    min_milli: 0,
                    max_milli: 1000,
                    default_milli: 220,
                    stepped: false,
                },
            ),
            31 => Some(
                ParamDef {
                    id: PARAM_MOD_B_SHAPE_ID,
                    name: "Mod B Shape",
                    module: "Mod",
                    min_milli: 0,
                    max_milli: 3000,
                    default_milli: 2000,
                    stepped: true,
                },
            ),
            32 => Some(
                ParamDef {
                    id: PARAM_MOD_B_RATE_MODE_ID,
                    name: "Mod B Rate Mode",
                    module: "Mod",
                    min_milli: 0,
                    max_milli: 1000,
                    default_milli: 1000,
                    stepped: true,
                },
            ),
            33 => Some(
                ParamDef {
                    id: PARAM_MOD_B_RATE_HZ_ID,
                    name: "Mod B Rate",
                    module: "Mod",
                    min_milli: 10,
                    max_milli: 4000,
                    default_milli: 90,
                    stepped: false,
                },
            ),
            34 => Some(
                ParamDef {
                    id: PARAM_MOD_B_DIVISION_ID,
                    name: "Mod B Div",
                    module: "Mod",
                    min_milli: 0,
                    max_milli: 7000,
                    default_milli: 6000,
                    stepped: true,
                },
            ),
            35 => Some(
                ParamDef {
                    id: PARAM_MOD_B_DEPTH_ID,
                    name: "Mod B Depth",
                    module: "Mod",
                    min_milli: 0,
                    max_milli: 1000,
                    default_milli: 200,
                    stepped: false,
                },
            ),
            36 => Some(
                ParamDef {
                    id: PARAM_MOD_A_TO_TENSION_ID,
                    name: "A>Tension",
                    module: "Mod Matrix",
                    min_milli: -1000i32,
                    max_milli: 1000,
                    default_milli: 350,
                    stepped: false,
                },
            ),
            37 => Some(
                ParamDef {
                    id: PARAM_MOD_A_TO_DIRECTION_ID,
                    name: "A>Direction",
                    module: "Mod Matrix",
                    min_milli: -1000i32,
                    max_milli: 1000,
                    default_milli: 250,
                    stepped: false,
                },
            ),
            38 => Some(
                ParamDef {
                    id: PARAM_MOD_A_TO_GRAIN_ID,
                    name: "A>Grain",
                    module: "Mod Matrix",
                    min_milli: -1000i32,
                    max_milli: 1000,
                    default_milli: 0,
                    stepped: false,
                },
            ),
            39 => Some(
                ParamDef {
                    id: PARAM_MOD_A_TO_WIDTH_ID,
                    name: "A>Width",
                    module: "Mod Matrix",
                    min_milli: -1000i32,
                    max_milli: 1000,
                    default_milli: 0,
                    stepped: false,
                },
            ),
            40 => Some(
                ParamDef {
                    id: PARAM_MOD_A_TO_WARP_MOTION_ID,
                    name: "A>Warp Motion",
                    module: "Mod Matrix",
                    min_milli: -1000i32,
                    max_milli: 1000,
                    default_milli: 0,
                    stepped: false,
                },
            ),
            41 => Some(
                ParamDef {
                    id: PARAM_MOD_A_TO_FEEDBACK_ID,
                    name: "A>Feedback",
                    module: "Mod Matrix",
                    min_milli: -1000i32,
                    max_milli: 1000,
                    default_milli: 0,
                    stepped: false,
                },
            ),
            42 => Some(
                ParamDef {
                    id: PARAM_MOD_B_TO_TENSION_ID,
                    name: "B>Tension",
                    module: "Mod Matrix",
                    min_milli: -1000i32,
                    max_milli: 1000,
                    default_milli: 0,
                    stepped: false,
                },
            ),
            43 => Some(
                ParamDef {
                    id: PARAM_MOD_B_TO_DIRECTION_ID,
                    name: "B>Direction",
                    module: "Mod Matrix",
                    min_milli: -1000i32,
                    max_milli: 1000,
                    default_milli: 0,
                    stepped: false,
                },
            ),
            44 => Some(
                ParamDef {
                    id: PARAM_MOD_B_TO_GRAIN_ID,
                    name: "B>Grain",
                    module: "Mod Matrix",
                    min_milli: -1000i32,
                    max_milli: 1000,
                    default_milli: 250,
                    stepped: false,
                },
            ),
            45 => Some(
                ParamDef {
                    id: PARAM_MOD_B_TO_WIDTH_ID,
                    name: "B>Width",
                    module: "Mod Matrix",
                    min_milli: -1000i32,
                    max_milli: 1000,
                    default_milli: 180,
                    stepped: false,
                },
            ),
            46 => Some(
                ParamDef {
                    id: PARAM_MOD_B_TO_WARP_MOTION_ID,
                    name: "B>Warp Motion",
                    module: "Mod Matrix",
                    min_milli: -1000i32,
                    max_milli: 1000,
                    default_milli: 200,
                    stepped: false,
                },
            ),
            47 => Some(
                ParamDef {
                    id: PARAM_MOD_B_TO_FEEDBACK_ID,
                    name: "B>Feedback",
                    module: "Mod Matrix",
                    min_milli: -1000i32,
                    max_milli: 1000,
                    default_milli: 0,
                    stepped: false,
                },
            ),
            48 => Some(
                ParamDef {
                    id: PARAM_TENSION_BIAS_ID,
                    name: "Tension Bias",
                    module: "Rhythm",
                    min_milli: 0,
                    max_milli: 1000,
                    default_milli: 500,
                    stepped: false,
                },
            ),
            49 => Some(
                ParamDef {
                    id: PARAM_RELEASE_SNAP_ID,
                    name: "Release Snap",
                    module: "Rhythm",
                    min_milli: 0,
                    max_milli: 1000,
                    default_milli: 350,
                    stepped: false,
                },
            ),
            50 => Some(
                ParamDef {
                    id: PARAM_ENERGY_CEILING_ID,
                    name: "Energy Ceiling",
                    module: "Safety",
                    min_milli: 0,
                    max_milli: 1000,
                    default_milli: 700,
                    stepped: false,
                },
            ),
        _ => None,
    }
}

/// Number of host-visible parameters; saved state holds one value for each.
pub fn param_count() -> (r: u32)
    ensures
        r == PARAM_COUNT,
        r == STATE_VALUE_COUNT,
{
    PARAM_COUNT as u32
}

/// The table is dense and well-ordered: the parameter at index `i` has id
/// `i + 1`, and every default lies inside its range.
pub proof fn lemma_param_table(i: usize)
    requires
        i < PARAM_COUNT,
    ensures
        spec_param_def(i) is Some,
        spec_param_def(i)->0.id == i + 1,
        spec_param_def(i)->0.min_milli <= spec_param_def(i)->0.default_milli
            <= spec_param_def(i)->0.max_milli,
{
}

/// Ids are unique: two table entries with the same id are the same entry.
pub proof fn lemma_param_ids_unique(i: usize, j: usize)
    requires
        i < PARAM_COUNT,
        j < PARAM_COUNT,
        spec_param_def(i)->0.id == spec_param_def(j)->0.id,
    ensures
        i == j,
{
    lemma_param_table(i);
    lemma_param_table(j);
}

/// The table index of the parameter with id `id`.
pub fn param_index(id: u32) -> (r: Option<usize>)
    ensures
        match r {
            Some(i) => i < PARAM_COUNT && spec_param_def(i)->0.id == id,
            None => forall|i: usize| i < PARAM_COUNT ==> spec_param_def(i)->0.id != id,
        },
{
    let mut k: usize = 0;
    while k < PARAM_COUNT
        invariant
            k <= PARAM_COUNT,
            forall|i: usize| i < k ==> spec_param_def(i)->0.id != id,
        decreases PARAM_COUNT - k,
    {
        proof {
            lemma_param_table(k);
        }
        match param_def(k) {
            Some(def) => {
                if def.id == id {
                    return Some(k);
                }
            },
            None => {},
        }
        k += 1;
    }
    None
}

} // verus!
