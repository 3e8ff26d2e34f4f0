//! The modulation matrix's routing: two sources, six destinations, and the
//! host parameter that carries each route depth.

use vstd::prelude::*;

use crate::param_defs::{PARAM_MOD_A_TO_TENSION_ID, spec_param_def};

verus! {

/// Number of modulation destinations.
pub const DEST_COUNT: usize = 6;

/// One of the two modulation sources.
#[derive(Debug, Copy, Clone, PartialEq, Eq, Structural)]
pub enum ModSource {
    /// Source A.
    A,
    /// Source B.
    B,
}

impl ModSource {
    /// Row of the source in the route-depth matrix.
    pub open spec fn spec_index(self) -> nat {
        match self {
            ModSource::A => 0,
            ModSource::B => 1,
        }
    }
}

/// A destination of the modulation matrix.
#[derive(Debug, Copy, Clone, PartialEq, Eq, Structural)]
pub enum ModDestination {
    /// Tension macro offset.
    Tension,
    /// Pull direction offset.
    Direction,
    /// Grain/continuity offset.
    Grain,
    /// Stereo width offset.
    Width,
    /// Warp motion offset.
    WarpMotion,
    /// Feedback amount offset.
    Feedback,
}

impl ModDestination {
    /// Column of the destination in the route-depth matrix.
    pub open spec fn spec_index(self) -> nat {
        match self {
            ModDestination::Tension => 0,
            ModDestination::Direction => 1,
            ModDestination::Grain => 2,
            ModDestination::Width => 3,
            ModDestination::WarpMotion => 4,
            ModDestination::Feedback => 5,
        }
    }

    /// Column of the destination in the route-depth matrix.
    pub fn index(self) -> (r: usize)
        ensures
            r == self.spec_index(),
            r < DEST_COUNT,
    {
        match self {
            ModDestination::Tension => 0,
            ModDestination::Direction => 1,
            ModDestination::Grain => 2,
            ModDestination::Width => 3,
            ModDestination::WarpMotion => 4,
            ModDestination::Feedback => 5,
        }
    }

    /// The destination in column `index`.
    pub fn from_index(index: usize) -> (r: Option<Self>)
        ensures
            index < DEST_COUNT <==> r is Some,
            r matches Some(d) ==> d.spec_index() == index,
    {
        match index {
            0 => Some(ModDestination::Tension),
            1 => Some(ModDestination::Direction),
            2 => Some(ModDestination::Grain),
            3 => Some(ModDestination::Width),
            4 => Some(ModDestination::WarpMotion),
            5 => Some(ModDestination::Feedback),
            _ => None,
        }
    }

    /// Whether the destination's combined value passes through the softened
    /// mid-bias power curve (tension, warp motion and feedback) rather than
    /// the identity.
    pub fn uses_soft_curve(self) -> (r: bool)
        ensures
            r == (self == ModDestination::Tension || self == ModDestination::WarpMotion || self
                == ModDestination::Feedback),
    {
        match self {
            ModDestination::Tension | ModDestination::WarpMotion | ModDestination::Feedback => true,
            _ => false,
        }
    }

    /// Per-sample smoothing coefficient of the destination, in thousandths.
    pub fn smoothing_milli(self) -> (r: u32)
        ensures
            r == (match self {
                ModDestination::Tension => 70u32,
                ModDestination::Direction => 60u32,
                ModDestination::Grain => 50u32,
                ModDestination::Width => 50u32,
                ModDestination::WarpMotion => 80u32,
                ModDestination::Feedback => 90u32,
            }),
    {
        match self {
            ModDestination::Tension => 70,
            ModDestination::Direction => 60,
            ModDestination::Grain => 50,
            ModDestination::Width => 50,
            ModDestination::WarpMotion => 80,
            ModDestination::Feedback => 90,
        }
    }
}

/// The host parameter id of the route depth from `source` to `dest`.
pub open spec fn spec_route_param_id(source: ModSource, dest: ModDestination) -> u32 {
    (PARAM_MOD_A_TO_TENSION_ID + DEST_COUNT * source.spec_index() + dest.spec_index()) as u32
}

/// The host parameter id of the route depth from `source` to `dest`.
pub fn route_param_id(source: ModSource, dest: ModDestination) -> (r: u32)
    ensures
        r == spec_route_param_id(source, dest),
{
    let row: u32 = match source {
        ModSource::A => 0,
        ModSource::B => 1,
    };
    PARAM_MOD_A_TO_TENSION_ID + 6 * row + dest.index() as u32
}

/// The route whose depth the parameter `id` carries, if it carries one.
pub fn route_of_param(id: u32) -> (r: Option<(ModSource, ModDestination)>)
    ensures
        match r {
            Some((s, d)) => spec_route_param_id(s, d) == id,
            None => forall|s: ModSource, d: ModDestination| spec_route_param_id(s, d) != id,
        },
{
    if id < PARAM_MOD_A_TO_TENSION_ID || id >= PARAM_MOD_A_TO_TENSION_ID + 12 {
        return None;
    }
    let offset = id - PARAM_MOD_A_TO_TENSION_ID;
    let source = if offset < 6 {
        ModSource::A
    } else {
        ModSource::B
    };
    let column = (offset % 6) as usize;
    match ModDestination::from_index(column) {
        Some(d) => Some((source, d)),
        None => None,
    }
}

/// Route-depth parameters are the twelve table entries that follow the
/// source settings, each inside `[-1, 1]`.
pub proof fn lemma_route_params_in_table(source: ModSource, dest: ModDestination)
    ensures
        spec_param_def((spec_route_param_id(source, dest) - 1) as usize) is Some,
        spec_param_def((spec_route_param_id(source, dest) - 1) as usize)->0.id
            == spec_route_param_id(source, dest),
        spec_param_def((spec_route_param_id(source, dest) - 1) as usize)->0.min_milli == -1000,
        spec_param_def((spec_route_param_id(source, dest) - 1) as usize)->0.max_milli == 1000,
{
}

} // verus!
