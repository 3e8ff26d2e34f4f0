//! Editor vocabulary that does not depend on drawing: the tabs and the
//! preset bank.

use vstd::prelude::*;

use crate::param_defs::{
    PARAM_CLEAN_DIRTY_ID, PARAM_DIFFUSION_ID, PARAM_DUCKING_ID, PARAM_ELASTICITY_ID, PARAM_ENERGY_CEILING_ID, PARAM_FEEDBACK_ID, PARAM_GRAIN_CONTINUITY_ID, PARAM_PULL_DIRECTION_ID, PARAM_PULL_DIVISION_ID, PARAM_PULL_LATCH_ID, PARAM_PULL_QUANTIZE_ID, PARAM_PULL_SHAPE_ID, PARAM_RELEASE_SNAP_ID, PARAM_SWING_ID, PARAM_TENSION_BIAS_ID, PARAM_TENSION_ID, PARAM_WARP_COLOR_ID, PARAM_WARP_MOTION_ID, PARAM_WIDTH_ID, spec_param_def,
};

verus! {

/// The editor's tabs.
#[derive(Debug, Copy, Clone, PartialEq, Eq, Structural)]
pub enum ActiveTab {
    /// Main performance controls.
    Perform,
    /// Timing and trigger controls.
    Rhythm,
    /// Tone shaping and the modulation matrix.
    Tone,
    /// Safety limits and output.
    Safety,
}

impl ActiveTab {
    /// Stable identifier of the tab.
    pub fn key(self) -> (r: &'static str)
        ensures
            r@ == (match self {
                ActiveTab::Perform => "perform"@,
                ActiveTab::Rhythm => "rhythm"@,
                ActiveTab::Tone => "tone"@,
                ActiveTab::Safety => "safety"@,
            }),
    {
        match self {
            ActiveTab::Perform => "perform",
            ActiveTab::Rhythm => "rhythm",
            ActiveTab::Tone => "tone",
            ActiveTab::Safety => "safety",
        }
    }

    /// Title shown on the tab.
    pub fn title(self) -> (r: &'static str)
        ensures
            r@ == (match self {
                ActiveTab::Perform => "Perform"@,
                ActiveTab::Rhythm => "Rhythm"@,
                ActiveTab::Tone => "Tone + Mod"@,
                ActiveTab::Safety => "Safety + Out"@,
            }),
    {
        match self {
            ActiveTab::Perform => "Perform",
            ActiveTab::Rhythm => "Rhythm",
            ActiveTab::Tone => "Tone + Mod",
            ActiveTab::Safety => "Safety + Out",
        }
    }

    /// Every tab, in display order.
    pub fn all() -> (r: [Self; 4])
        ensures
            r@ == seq![ActiveTab::Perform, ActiveTab::Rhythm, ActiveTab::Tone, ActiveTab::Safety],
    {
        [ActiveTab::Perform, ActiveTab::Rhythm, ActiveTab::Tone, ActiveTab::Safety]
    }
}

/// Ready-made starting points for performance.
#[derive(Debug, Copy, Clone, PartialEq, Eq, Structural)]
pub enum TensionPreset {
    /// The "Pulse Drive" preset.
    PulseDrive,
    /// The "Ratchet Pressure" preset.
    RatchetPressure,
    /// The "Pre-Drop Coil" preset.
    PreDropCoil,
    /// The "Elastic Surge" preset.
    ElasticSurge,
    /// The "Forward Strain" preset.
    ForwardStrain,
    /// The "Triplet Anxiety" preset.
    TripletAnxiety,
    /// The "Ghost Lift" preset.
    GhostLift,
    /// The "Crush Squeeze" preset.
    CrushSqueeze,
    /// The "Wide Panic" preset.
    WidePanic,
    /// The "Aftershock Tail" preset.
    AftershockTail,
}

impl TensionPreset {
    /// Every preset, in display order.
    pub fn all() -> (r: [Self; 10])
        ensures
            r@ == seq![
                TensionPreset::PulseDrive,
                TensionPreset::RatchetPressure,
                TensionPreset::PreDropCoil,
                TensionPreset::ElasticSurge,
                TensionPreset::ForwardStrain,
                TensionPreset::TripletAnxiety,
                TensionPreset::GhostLift,
                TensionPreset::CrushSqueeze,
                TensionPreset::WidePanic,
                TensionPreset::AftershockTail,
            ],
    {
        [
            TensionPreset::PulseDrive,
            TensionPreset::RatchetPressure,
            TensionPreset::PreDropCoil,
            TensionPreset::ElasticSurge,
            TensionPreset::ForwardStrain,
            TensionPreset::TripletAnxiety,
            TensionPreset::GhostLift,
            TensionPreset::CrushSqueeze,
            TensionPreset::WidePanic,
            TensionPreset::AftershockTail,
        ]
    }

    /// The display label.
    pub open spec fn spec_label(self) -> Seq<char> {
        match self {
            TensionPreset::PulseDrive => "Pulse Drive"@,
            TensionPreset::RatchetPressure => "Ratchet Pressure"@,
            TensionPreset::PreDropCoil => "Pre-Drop Coil"@,
            TensionPreset::ElasticSurge => "Elastic Surge"@,
            TensionPreset::ForwardStrain => "Forward Strain"@,
            TensionPreset::TripletAnxiety => "Triplet Anxiety"@,
            TensionPreset::GhostLift => "Ghost Lift"@,
            TensionPreset::CrushSqueeze => "Crush Squeeze"@,
            TensionPreset::WidePanic => "Wide Panic"@,
            TensionPreset::AftershockTail => "Aftershock Tail"@,
        }
    }

    /// The display label.
    pub fn label(self) -> (r: &'static str)
        ensures
            r@ == self.spec_label(),
    {
        match self {
            TensionPreset::PulseDrive => "Pulse Drive",
            TensionPreset::RatchetPressure => "Ratchet Pressure",
            TensionPreset::PreDropCoil => "Pre-Drop Coil",
            TensionPreset::ElasticSurge => "Elastic Surge",
            TensionPreset::ForwardStrain => "Forward Strain",
            TensionPreset::TripletAnxiety => "Triplet Anxiety",
            TensionPreset::GhostLift => "Ghost Lift",
            TensionPreset::CrushSqueeze => "Crush Squeeze",
            TensionPreset::WidePanic => "Wide Panic",
            TensionPreset::AftershockTail => "Aftershock Tail",
        }
    }

    /// The parameter values the preset sets, as `(parameter id, value in thousandths)`.
    pub open spec fn spec_updates(self) -> Seq<(u32, i32)> {
        match self {
            TensionPreset::PulseDrive => seq![
                (PARAM_TENSION_ID, 740i32),
                (PARAM_PULL_SHAPE_ID, 4000i32),
                (PARAM_PULL_DIVISION_ID, 4000i32),
                (PARAM_PULL_QUANTIZE_ID, 1000i32),
                (PARAM_TENSION_BIAS_ID, 750i32),
                (PARAM_RELEASE_SNAP_ID, 620i32),
                (PARAM_WARP_MOTION_ID, 560i32),
                (PARAM_FEEDBACK_ID, 260i32),
            ],
            TensionPreset::RatchetPressure => seq![
                (PARAM_TENSION_ID, 670i32),
                (PARAM_PULL_SHAPE_ID, 2000i32),
                (PARAM_PULL_DIVISION_ID, 2000i32),
                (PARAM_TENSION_BIAS_ID, 640i32),
                (PARAM_GRAIN_CONTINUITY_ID, 540i32),
                (PARAM_WARP_MOTION_ID, 580i32),
                (PARAM_CLEAN_DIRTY_ID, 1000i32),
            ],
            TensionPreset::PreDropCoil => seq![
                (PARAM_TENSION_ID, 780i32),
                (PARAM_PULL_DIVISION_ID, 6000i32),
                (PARAM_PULL_LATCH_ID, 1000i32),
                (PARAM_TENSION_BIAS_ID, 820i32),
                (PARAM_RELEASE_SNAP_ID, 740i32),
                (PARAM_FEEDBACK_ID, 340i32),
                (PARAM_DUCKING_ID, 320i32),
            ],
            TensionPreset::ElasticSurge => seq![
                (PARAM_TENSION_ID, 720i32),
                (PARAM_PULL_DIVISION_ID, 5000i32),
                (PARAM_SWING_ID, 180i32),
                (PARAM_ELASTICITY_ID, 820i32),
                (PARAM_WARP_MOTION_ID, 510i32),
                (PARAM_DIFFUSION_ID, 640i32),
            ],
            TensionPreset::ForwardStrain => seq![
                (PARAM_TENSION_ID, 700i32),
                (PARAM_PULL_DIRECTION_ID, 840i32),
                (PARAM_TENSION_BIAS_ID, 690i32),
                (PARAM_PULL_QUANTIZE_ID, 2000i32),
                (PARAM_RELEASE_SNAP_ID, 580i32),
                (PARAM_WARP_COLOR_ID, 1000i32),
            ],
            TensionPreset::TripletAnxiety => seq![
                (PARAM_TENSION_ID, 650i32),
                (PARAM_PULL_DIVISION_ID, 3000i32),
                (PARAM_PULL_QUANTIZE_ID, 1000i32),
                (PARAM_SWING_ID, 220i32),
                (PARAM_TENSION_BIAS_ID, 600i32),
                (PARAM_WARP_MOTION_ID, 610i32),
            ],
            TensionPreset::GhostLift => seq![
                (PARAM_TENSION_ID, 520i32),
                (PARAM_PULL_SHAPE_ID, 0i32),
                (PARAM_PULL_DIVISION_ID, 4000i32),
                (PARAM_RELEASE_SNAP_ID, 440i32),
                (PARAM_DIFFUSION_ID, 660i32),
                (PARAM_WIDTH_ID, 750i32),
            ],
            TensionPreset::CrushSqueeze => seq![
                (PARAM_TENSION_ID, 730i32),
                (PARAM_CLEAN_DIRTY_ID, 2000i32),
                (PARAM_GRAIN_CONTINUITY_ID, 570i32),
                (PARAM_WARP_MOTION_ID, 670i32),
                (PARAM_FEEDBACK_ID, 220i32),
                (PARAM_ENERGY_CEILING_ID, 520i32),
            ],
            TensionPreset::WidePanic => seq![
                (PARAM_TENSION_ID, 640i32),
                (PARAM_WIDTH_ID, 900i32),
                (PARAM_DIFFUSION_ID, 740i32),
                (PARAM_PULL_DIVISION_ID, 2000i32),
                (PARAM_TENSION_BIAS_ID, 580i32),
                (PARAM_FEEDBACK_ID, 180i32),
            ],
            TensionPreset::AftershockTail => seq![
                (PARAM_TENSION_ID, 680i32),
                (PARAM_PULL_LATCH_ID, 1000i32),
                (PARAM_PULL_DIVISION_ID, 5000i32),
                (PARAM_FEEDBACK_ID, 410i32),
                (PARAM_DUCKING_ID, 380i32),
                (PARAM_ENERGY_CEILING_ID, 660i32),
            ],
        }
    }

    /// The parameter values the preset sets, as `(parameter id, value in thousandths)`.
    pub fn updates(self) -> (r: Vec<(u32, i32)>)
        ensures
            r@ == self.spec_updates(),
    {
        let mut r: Vec<(u32, i32)> = Vec::new();
        match self {
            TensionPreset::PulseDrive => {
                r.push((PARAM_TENSION_ID, 740));
                r.push((PARAM_PULL_SHAPE_ID, 4000));
                r.push((PARAM_PULL_DIVISION_ID, 4000));
                r.push((PARAM_PULL_QUANTIZE_ID, 1000));
                r.push((PARAM_TENSION_BIAS_ID, 750));
                r.push((PARAM_RELEASE_SNAP_ID, 620));
                r.push((PARAM_WARP_MOTION_ID, 560));
                r.push((PARAM_FEEDBACK_ID, 260));
            },
            TensionPreset::RatchetPressure => {
                r.push((PARAM_TENSION_ID, 670));
                r.push((PARAM_PULL_SHAPE_ID, 2000));
                r.push((PARAM_PULL_DIVISION_ID, 2000));
                r.push((PARAM_TENSION_BIAS_ID, 640));
                r.push((PARAM_GRAIN_CONTINUITY_ID, 540));
                r.push((PARAM_WARP_MOTION_ID, 580));
                r.push((PARAM_CLEAN_DIRTY_ID, 1000));
            },
            TensionPreset::PreDropCoil => {
                r.push((PARAM_TENSION_ID, 780));
                r.push((PARAM_PULL_DIVISION_ID, 6000));
                r.push((PARAM_PULL_LATCH_ID, 1000));
                r.push((PARAM_TENSION_BIAS_ID, 820));
                r.push((PARAM_RELEASE_SNAP_ID, 740));
                r.push((PARAM_FEEDBACK_ID, 340));
                r.push((PARAM_DUCKING_ID, 320));
            },
            TensionPreset::ElasticSurge => {
                r.push((PARAM_TENSION_ID, 720));
                r.push((PARAM_PULL_DIVISION_ID, 5000));
                r.push((PARAM_SWING_ID, 180));
                r.push((PARAM_ELASTICITY_ID, 820));
                r.push((PARAM_WARP_MOTION_ID, 510));
                r.push((PARAM_DIFFUSION_ID, 640));
            },
            TensionPreset::ForwardStrain => {
                r.push((PARAM_TENSION_ID, 700));
                r.push((PARAM_PULL_DIRECTION_ID, 840));
                r.push((PARAM_TENSION_BIAS_ID, 690));
                r.push((PARAM_PULL_QUANTIZE_ID, 2000));
                r.push((PARAM_RELEASE_SNAP_ID, 580));
                r.push((PARAM_WARP_COLOR_ID, 1000));
            },
            TensionPreset::TripletAnxiety => {
                r.push((PARAM_TENSION_ID, 650));
                r.push((PARAM_PULL_DIVISION_ID, 3000));
                r.push((PARAM_PULL_QUANTIZE_ID, 1000));
                r.push((PARAM_SWING_ID, 220));
                r.push((PARAM_TENSION_BIAS_ID, 600));
                r.push((PARAM_WARP_MOTION_ID, 610));
            },
            TensionPreset::GhostLift => {
                r.push((PARAM_TENSION_ID, 520));
                r.push((PARAM_PULL_SHAPE_ID, 0));
                r.push((PARAM_PULL_DIVISION_ID, 4000));
                r.push((PARAM_RELEASE_SNAP_ID, 440));
                r.push((PARAM_DIFFUSION_ID, 660));
                r.push((PARAM_WIDTH_ID, 750));
            },
            TensionPreset::CrushSqueeze => {
                r.push((PARAM_TENSION_ID, 730));
                r.push((PARAM_CLEAN_DIRTY_ID, 2000));
                r.push((PARAM_GRAIN_CONTINUITY_ID, 570));
                r.push((PARAM_WARP_MOTION_ID, 670));
                r.push((PARAM_FEEDBACK_ID, 220));
                r.push((PARAM_ENERGY_CEILING_ID, 520));
            },
            TensionPreset::WidePanic => {
                r.push((PARAM_TENSION_ID, 640));
                r.push((PARAM_WIDTH_ID, 900));
                r.push((PARAM_DIFFUSION_ID, 740));
                r.push((PARAM_PULL_DIVISION_ID, 2000));
                r.push((PARAM_TENSION_BIAS_ID, 580));
                r.push((PARAM_FEEDBACK_ID, 180));
            },
            TensionPreset::AftershockTail => {
                r.push((PARAM_TENSION_ID, 680));
                r.push((PARAM_PULL_LATCH_ID, 1000));
                r.push((PARAM_PULL_DIVISION_ID, 5000));
                r.push((PARAM_FEEDBACK_ID, 410));
                r.push((PARAM_DUCKING_ID, 380));
                r.push((PARAM_ENERGY_CEILING_ID, 660));
            },
        }
        assert(r@ =~= self.spec_updates());
        r
    }
}

/// Every value a preset sets belongs to a parameter of the table and lies
/// inside that parameter's range.
pub proof fn lemma_preset_values_in_range(p: TensionPreset, k: int)
    requires
        0 <= k < p.spec_updates().len(),
    ensures
        1 <= p.spec_updates()[k].0 <= 51,
        spec_param_def((p.spec_updates()[k].0 - 1) as usize) is Some,
        spec_param_def((p.spec_updates()[k].0 - 1) as usize)->0.id == p.spec_updates()[k].0,
        spec_param_def((p.spec_updates()[k].0 - 1) as usize)->0.min_milli <= p.spec_updates()[k].1,
        p.spec_updates()[k].1 <= spec_param_def((p.spec_updates()[k].0 - 1) as usize)->0.max_milli,
{
}

} // verus!
