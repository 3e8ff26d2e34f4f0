//! Parameter encodings: the host-facing numeric values, display labels and
//! text parsing of every enumerated control.

use vstd::prelude::*;

use crate::text::{folded, is_key, lemma_trimmed_plain, matches_key};

verus! {

/// Shape of the periodic pull gesture.
#[derive(Debug, Copy, Clone, PartialEq, Eq, Structural)]
pub enum PullShape {
    /// Constant-rate drag.
    Linear,
    /// Smooth ease-in/out spring profile.
    Rubber,
    /// Quantized steps with soft transitions.
    Ratchet,
    /// Slow sinusoidal pull.
    Wave,
    /// Pulsed staccato shape with short high-tension windows.
    Pulse,
}

impl PullShape {
    /// The numeric encoding used by the host and by saved state.
    pub open spec fn spec_value(self) -> u32 {
        match self {
            PullShape::Linear => 0,
            PullShape::Rubber => 1,
            PullShape::Ratchet => 2,
            PullShape::Wave => 3,
            PullShape::Pulse => 4,
        }
    }

    /// Decode a rounded numeric value; values outside the encoding select `Linear`.
    pub fn from_value(value: i32) -> (r: Self)
        ensures
            0 <= value < 5 ==> r.spec_value() == value,
            !(0 <= value < 5) ==> r == PullShape::Linear,
    {
        match value {
            1 => PullShape::Rubber,
            2 => PullShape::Ratchet,
            3 => PullShape::Wave,
            4 => PullShape::Pulse,
            _ => PullShape::Linear,
        }
    }

    /// Encode as the numeric value.
    pub fn as_value(self) -> (r: u32)
        ensures
            r == self.spec_value(),
    {
        match self {
            PullShape::Linear => 0,
            PullShape::Rubber => 1,
            PullShape::Ratchet => 2,
            PullShape::Wave => 3,
            PullShape::Pulse => 4,
        }
    }

    /// The display label.
    pub open spec fn spec_label(self) -> Seq<char> {
        match self {
            PullShape::Linear => "Linear"@,
            PullShape::Rubber => "Rubber"@,
            PullShape::Ratchet => "Ratchet"@,
            PullShape::Wave => "Wave"@,
            PullShape::Pulse => "Pulse"@,
        }
    }

    /// The display label.
    pub fn label(self) -> (r: &'static str)
        ensures
            r@ == self.spec_label(),
    {
        match self {
            PullShape::Linear => "Linear",
            PullShape::Rubber => "Rubber",
            PullShape::Ratchet => "Ratchet",
            PullShape::Wave => "Wave",
            PullShape::Pulse => "Pulse",
        }
    }

    /// The variant that host text names, by index or by name.
    pub open spec fn spec_parse(s: Seq<char>) -> Option<Self> {
        if is_key(s, "0"@) || is_key(s, "linear"@) {
            Some(PullShape::Linear)
        } else if is_key(s, "1"@) || is_key(s, "rubber"@) {
            Some(PullShape::Rubber)
        } else if is_key(s, "2"@) || is_key(s, "ratchet"@) {
            Some(PullShape::Ratchet)
        } else if is_key(s, "3"@) || is_key(s, "wave"@) {
            Some(PullShape::Wave)
        } else if is_key(s, "4"@) || is_key(s, "pulse"@) {
            Some(PullShape::Pulse)
        } else {
            None
        }
    }

    /// Parse host text: surrounding whitespace is ignored and letters match in any case.
    pub fn parse(raw: &str) -> (r: Option<Self>)
        ensures
            r == Self::spec_parse(raw@),
    {
        if matches_key(raw, "0") || matches_key(raw, "linear") {
            Some(PullShape::Linear)
        } else if matches_key(raw, "1") || matches_key(raw, "rubber") {
            Some(PullShape::Rubber)
        } else if matches_key(raw, "2") || matches_key(raw, "ratchet") {
            Some(PullShape::Ratchet)
        } else if matches_key(raw, "3") || matches_key(raw, "wave") {
            Some(PullShape::Wave)
        } else if matches_key(raw, "4") || matches_key(raw, "pulse") {
            Some(PullShape::Pulse)
        } else {
            None
        }
    }
}

/// Timing source of the pull gesture.
#[derive(Debug, Copy, Clone, PartialEq, Eq, Structural)]
pub enum TimeMode {
    /// Pull rate follows free-running Hertz values.
    FreeHz,
    /// Pull rate follows host-synced musical divisions.
    SyncDivision,
}

impl TimeMode {
    /// The numeric encoding used by the host and by saved state.
    pub open spec fn spec_value(self) -> u32 {
        match self {
            TimeMode::FreeHz => 0,
            TimeMode::SyncDivision => 1,
        }
    }

    /// Decode a rounded numeric value: one and above select `SyncDivision`.
    pub fn from_value(value: i32) -> (r: Self)
        ensures
            r == (if value >= 1 { TimeMode::SyncDivision } else { TimeMode::FreeHz }),
    {
        if value >= 1 {
            TimeMode::SyncDivision
        } else {
            TimeMode::FreeHz
        }
    }

    /// Encode as the numeric value.
    pub fn as_value(self) -> (r: u32)
        ensures
            r == self.spec_value(),
    {
        match self {
            TimeMode::FreeHz => 0,
            TimeMode::SyncDivision => 1,
        }
    }

    /// The display label.
    pub open spec fn spec_label(self) -> Seq<char> {
        match self {
            TimeMode::FreeHz => "Free Hz"@,
            TimeMode::SyncDivision => "Sync Div"@,
        }
    }

    /// The display label.
    pub fn label(self) -> (r: &'static str)
        ensures
            r@ == self.spec_label(),
    {
        match self {
            TimeMode::FreeHz => "Free Hz",
            TimeMode::SyncDivision => "Sync Div",
        }
    }

    /// The variant that host text names, by index or by name.
    pub open spec fn spec_parse(s: Seq<char>) -> Option<Self> {
        if is_key(s, "0"@) || is_key(s, "free"@) || is_key(s, "free hz"@) || is_key(s, "hz"@) {
            Some(TimeMode::FreeHz)
        } else if is_key(s, "1"@) || is_key(s, "sync"@) || is_key(s, "division"@) || is_key(s, "sync div"@) {
            Some(TimeMode::SyncDivision)
        } else {
            None
        }
    }

    /// Parse host text: surrounding whitespace is ignored and letters match in any case.
    pub fn parse(raw: &str) -> (r: Option<Self>)
        ensures
            r == Self::spec_parse(raw@),
    {
        if matches_key(raw, "0") || matches_key(raw, "free") || matches_key(raw, "free hz") || matches_key(raw, "hz") {
            Some(TimeMode::FreeHz)
        } else if matches_key(raw, "1") || matches_key(raw, "sync") || matches_key(raw, "division") || matches_key(raw, "sync div") {
            Some(TimeMode::SyncDivision)
        } else {
            None
        }
    }
}

/// Musical pull-rate divisions used in sync mode.
#[derive(Debug, Copy, Clone, PartialEq, Eq, Structural)]
pub enum PullDivision {
    /// 1/16 note.
    Div1_16,
    /// 1/8 triplet.
    Div1_8T,
    /// 1/8 note.
    Div1_8,
    /// 1/4 triplet.
    Div1_4T,
    /// 1/4 note.
    Div1_4,
    /// 1/2 note.
    Div1_2,
    /// One full bar in 4/4.
    Div1Bar,
    /// Two bars in 4/4.
    Div2Bar,
}

impl PullDivision {
    /// The numeric encoding used by the host and by saved state.
    pub open spec fn spec_value(self) -> u32 {
        match self {
            PullDivision::Div1_16 => 0,
            PullDivision::Div1_8T => 1,
            PullDivision::Div1_8 => 2,
            PullDivision::Div1_4T => 3,
            PullDivision::Div1_4 => 4,
            PullDivision::Div1_2 => 5,
            PullDivision::Div1Bar => 6,
            PullDivision::Div2Bar => 7,
        }
    }

    /// Decode a rounded numeric value; values outside the encoding select `Div1_16`.
    pub fn from_value(value: i32) -> (r: Self)
        ensures
            0 <= value < 8 ==> r.spec_value() == value,
            !(0 <= value < 8) ==> r == PullDivision::Div1_16,
    {
        match value {
            1 => PullDivision::Div1_8T,
            2 => PullDivision::Div1_8,
            3 => PullDivision::Div1_4T,
            4 => PullDivision::Div1_4,
            5 => PullDivision::Div1_2,
            6 => PullDivision::Div1Bar,
            7 => PullDivision::Div2Bar,
            _ => PullDivision::Div1_16,
        }
    }

    /// Encode as the numeric value.
    pub fn as_value(self) -> (r: u32)
        ensures
            r == self.spec_value(),
    {
        match self {
            PullDivision::Div1_16 => 0,
            PullDivision::Div1_8T => 1,
            PullDivision::Div1_8 => 2,
            PullDivision::Div1_4T => 3,
            PullDivision::Div1_4 => 4,
            PullDivision::Div1_2 => 5,
            PullDivision::Div1Bar => 6,
            PullDivision::Div2Bar => 7,
        }
    }

    /// The display label.
    pub open spec fn spec_label(self) -> Seq<char> {
        match self {
            PullDivision::Div1_16 => "1/16"@,
            PullDivision::Div1_8T => "1/8T"@,
            PullDivision::Div1_8 => "1/8"@,
            PullDivision::Div1_4T => "1/4T"@,
            PullDivision::Div1_4 => "1/4"@,
            PullDivision::Div1_2 => "1/2"@,
            PullDivision::Div1Bar => "1 Bar"@,
            PullDivision::Div2Bar => "2 Bar"@,
        }
    }

    /// The display label.
    pub fn label(self) -> (r: &'static str)
        ensures
            r@ == self.spec_label(),
    {
        match self {
            PullDivision::Div1_16 => "1/16",
            PullDivision::Div1_8T => "1/8T",
            PullDivision::Div1_8 => "1/8",
            PullDivision::Div1_4T => "1/4T",
            PullDivision::Div1_4 => "1/4",
            PullDivision::Div1_2 => "1/2",
            PullDivision::Div1Bar => "1 Bar",
            PullDivision::Div2Bar => "2 Bar",
        }
    }

    /// The variant that host text names, by index or by name.
    pub open spec fn spec_parse(s: Seq<char>) -> Option<Self> {
        if is_key(s, "0"@) || is_key(s, "1/16"@) {
            Some(PullDivision::Div1_16)
        } else if is_key(s, "1"@) || is_key(s, "1/8t"@) {
            Some(PullDivision::Div1_8T)
        } else if is_key(s, "2"@) || is_key(s, "1/8"@) {
            Some(PullDivision::Div1_8)
        } else if is_key(s, "3"@) || is_key(s, "1/4t"@) {
            Some(PullDivision::Div1_4T)
        } else if is_key(s, "4"@) || is_key(s, "1/4"@) {
            Some(PullDivision::Div1_4)
        } else if is_key(s, "5"@) || is_key(s, "1/2"@) {
            Some(PullDivision::Div1_2)
        } else if is_key(s, "6"@) || is_key(s, "1 bar"@) || is_key(s, "1bar"@) {
            Some(PullDivision::Div1Bar)
        } else if is_key(s, "7"@) || is_key(s, "2 bar"@) || is_key(s, "2bar"@) {
            Some(PullDivision::Div2Bar)
        } else {
            None
        }
    }

    /// Parse host text: surrounding whitespace is ignored and letters match in any case.
    pub fn parse(raw: &str) -> (r: Option<Self>)
        ensures
            r == Self::spec_parse(raw@),
    {
        if matches_key(raw, "0") || matches_key(raw, "1/16") {
            Some(PullDivision::Div1_16)
        } else if matches_key(raw, "1") || matches_key(raw, "1/8t") {
            Some(PullDivision::Div1_8T)
        } else if matches_key(raw, "2") || matches_key(raw, "1/8") {
            Some(PullDivision::Div1_8)
        } else if matches_key(raw, "3") || matches_key(raw, "1/4t") {
            Some(PullDivision::Div1_4T)
        } else if matches_key(raw, "4") || matches_key(raw, "1/4") {
            Some(PullDivision::Div1_4)
        } else if matches_key(raw, "5") || matches_key(raw, "1/2") {
            Some(PullDivision::Div1_2)
        } else if matches_key(raw, "6") || matches_key(raw, "1 bar") || matches_key(raw, "1bar") {
            Some(PullDivision::Div1Bar)
        } else if matches_key(raw, "7") || matches_key(raw, "2 bar") || matches_key(raw, "2bar") {
            Some(PullDivision::Div2Bar)
        } else {
            None
        }
    }
}

/// Grid that pull trigger launches wait for.
#[derive(Debug, Copy, Clone, PartialEq, Eq, Structural)]
pub enum PullQuantize {
    /// Trigger immediately.
    Off,
    /// Quantize to sixteenth notes.
    Div1_16,
    /// Quantize to eighth notes.
    Div1_8,
    /// Quantize to quarter notes.
    Div1_4,
}

impl PullQuantize {
    /// The numeric encoding used by the host and by saved state.
    pub open spec fn spec_value(self) -> u32 {
        match self {
            PullQuantize::Off => 0,
            PullQuantize::Div1_16 => 1,
            PullQuantize::Div1_8 => 2,
            PullQuantize::Div1_4 => 3,
        }
    }

    /// Decode a rounded numeric value; values outside the encoding select `Off`.
    pub fn from_value(value: i32) -> (r: Self)
        ensures
            0 <= value < 4 ==> r.spec_value() == value,
            !(0 <= value < 4) ==> r == PullQuantize::Off,
    {
        match value {
            1 => PullQuantize::Div1_16,
            2 => PullQuantize::Div1_8,
            3 => PullQuantize::Div1_4,
            _ => PullQuantize::Off,
        }
    }

    /// Encode as the numeric value.
    pub fn as_value(self) -> (r: u32)
        ensures
            r == self.spec_value(),
    {
        match self {
            PullQuantize::Off => 0,
            PullQuantize::Div1_16 => 1,
            PullQuantize::Div1_8 => 2,
            PullQuantize::Div1_4 => 3,
        }
    }

    /// The display label.
    pub open spec fn spec_label(self) -> Seq<char> {
        match self {
            PullQuantize::Off => "None"@,
            PullQuantize::Div1_16 => "1/16"@,
            PullQuantize::Div1_8 => "1/8"@,
            PullQuantize::Div1_4 => "1/4"@,
        }
    }

    /// The display label.
    pub fn label(self) -> (r: &'static str)
        ensures
            r@ == self.spec_label(),
    {
        match self {
            PullQuantize::Off => "None",
            PullQuantize::Div1_16 => "1/16",
            PullQuantize::Div1_8 => "1/8",
            PullQuantize::Div1_4 => "1/4",
        }
    }

    /// The variant that host text names, by index or by name.
    pub open spec fn spec_parse(s: Seq<char>) -> Option<Self> {
        if is_key(s, "0"@) || is_key(s, "none"@) {
            Some(PullQuantize::Off)
        } else if is_key(s, "1"@) || is_key(s, "1/16"@) {
            Some(PullQuantize::Div1_16)
        } else if is_key(s, "2"@) || is_key(s, "1/8"@) {
            Some(PullQuantize::Div1_8)
        } else if is_key(s, "3"@) || is_key(s, "1/4"@) {
            Some(PullQuantize::Div1_4)
        } else {
            None
        }
    }

    /// Parse host text: surrounding whitespace is ignored and letters match in any case.
    pub fn parse(raw: &str) -> (r: Option<Self>)
        ensures
            r == Self::spec_parse(raw@),
    {
        if matches_key(raw, "0") || matches_key(raw, "none") {
            Some(PullQuantize::Off)
        } else if matches_key(raw, "1") || matches_key(raw, "1/16") {
            Some(PullQuantize::Div1_16)
        } else if matches_key(raw, "2") || matches_key(raw, "1/8") {
            Some(PullQuantize::Div1_8)
        } else if matches_key(raw, "3") || matches_key(raw, "1/4") {
            Some(PullQuantize::Div1_4)
        } else {
            None
        }
    }
}

/// Spectral color families of the warp stage.
#[derive(Debug, Copy, Clone, PartialEq, Eq, Structural)]
pub enum WarpColor {
    /// Balanced damping and compensation.
    Neutral,
    /// Darker, heavier drag.
    DarkDrag,
    /// Brighter, shearing motion.
    BrightShear,
}

impl WarpColor {
    /// The numeric encoding used by the host and by saved state.
    pub open spec fn spec_value(self) -> u32 {
        match self {
            WarpColor::Neutral => 0,
            WarpColor::DarkDrag => 1,
            WarpColor::BrightShear => 2,
        }
    }

    /// Decode a rounded numeric value; values outside the encoding select `Neutral`.
    pub fn from_value(value: i32) -> (r: Self)
        ensures
            0 <= value < 3 ==> r.spec_value() == value,
            !(0 <= value < 3) ==> r == WarpColor::Neutral,
    {
        match value {
            1 => WarpColor::DarkDrag,
            2 => WarpColor::BrightShear,
            _ => WarpColor::Neutral,
        }
    }

    /// Encode as the numeric value.
    pub fn as_value(self) -> (r: u32)
        ensures
            r == self.spec_value(),
    {
        match self {
            WarpColor::Neutral => 0,
            WarpColor::DarkDrag => 1,
            WarpColor::BrightShear => 2,
        }
    }

    /// The display label.
    pub open spec fn spec_label(self) -> Seq<char> {
        match self {
            WarpColor::Neutral => "Neutral"@,
            WarpColor::DarkDrag => "Dark Drag"@,
            WarpColor::BrightShear => "Bright Shear"@,
        }
    }

    /// The display label.
    pub fn label(self) -> (r: &'static str)
        ensures
            r@ == self.spec_label(),
    {
        match self {
            WarpColor::Neutral => "Neutral",
            WarpColor::DarkDrag => "Dark Drag",
            WarpColor::BrightShear => "Bright Shear",
        }
    }

    /// The variant that host text names, by index or by name.
    pub open spec fn spec_parse(s: Seq<char>) -> Option<Self> {
        if is_key(s, "0"@) || is_key(s, "neutral"@) {
            Some(WarpColor::Neutral)
        } else if is_key(s, "1"@) || is_key(s, "dark"@) || is_key(s, "dark drag"@) {
            Some(WarpColor::DarkDrag)
        } else if is_key(s, "2"@) || is_key(s, "bright"@) || is_key(s, "bright shear"@) {
            Some(WarpColor::BrightShear)
        } else {
            None
        }
    }

    /// Parse host text: surrounding whitespace is ignored and letters match in any case.
    pub fn parse(raw: &str) -> (r: Option<Self>)
        ensures
            r == Self::spec_parse(raw@),
    {
        if matches_key(raw, "0") || matches_key(raw, "neutral") {
            Some(WarpColor::Neutral)
        } else if matches_key(raw, "1") || matches_key(raw, "dark") || matches_key(raw, "dark drag") {
            Some(WarpColor::DarkDrag)
        } else if matches_key(raw, "2") || matches_key(raw, "bright") || matches_key(raw, "bright shear") {
            Some(WarpColor::BrightShear)
        } else {
            None
        }
    }
}

/// Global coloration mode of the elastic and warp stages.
#[derive(Debug, Copy, Clone, PartialEq, Eq, Structural)]
pub enum CharacterMode {
    /// Cleanest processing path.
    Clean,
    /// Adds subtle noise and stronger drift movement.
    Dirty,
    /// Adds dirty behavior plus lightweight sample quantization.
    Crush,
}

impl CharacterMode {
    /// The numeric encoding used by the host and by saved state.
    pub open spec fn spec_value(self) -> u32 {
        match self {
            CharacterMode::Clean => 0,
            CharacterMode::Dirty => 1,
            CharacterMode::Crush => 2,
        }
    }

    /// Decode a rounded numeric value; values outside the encoding select `Clean`.
    pub fn from_value(value: i32) -> (r: Self)
        ensures
            0 <= value < 3 ==> r.spec_value() == value,
            !(0 <= value < 3) ==> r == CharacterMode::Clean,
    {
        match value {
            1 => CharacterMode::Dirty,
            2 => CharacterMode::Crush,
            _ => CharacterMode::Clean,
        }
    }

    /// Encode as the numeric value.
    pub fn as_value(self) -> (r: u32)
        ensures
            r == self.spec_value(),
    {
        match self {
            CharacterMode::Clean => 0,
            CharacterMode::Dirty => 1,
            CharacterMode::Crush => 2,
        }
    }

    /// The display label.
    pub open spec fn spec_label(self) -> Seq<char> {
        match self {
            CharacterMode::Clean => "Clean"@,
            CharacterMode::Dirty => "Dirty"@,
            CharacterMode::Crush => "Crush"@,
        }
    }

    /// The display label.
    pub fn label(self) -> (r: &'static str)
        ensures
            r@ == self.spec_label(),
    {
        match self {
            CharacterMode::Clean => "Clean",
            CharacterMode::Dirty => "Dirty",
            CharacterMode::Crush => "Crush",
        }
    }

    /// The variant that host text names, by index or by name.
    pub open spec fn spec_parse(s: Seq<char>) -> Option<Self> {
        if is_key(s, "0"@) || is_key(s, "clean"@) {
            Some(CharacterMode::Clean)
        } else if is_key(s, "1"@) || is_key(s, "dirty"@) {
            Some(CharacterMode::Dirty)
        } else if is_key(s, "2"@) || is_key(s, "crush"@) {
            Some(CharacterMode::Crush)
        } else {
            None
        }
    }

    /// Parse host text: surrounding whitespace is ignored and letters match in any case.
    pub fn parse(raw: &str) -> (r: Option<Self>)
        ensures
            r == Self::spec_parse(raw@),
    {
        if matches_key(raw, "0") || matches_key(raw, "clean") {
            Some(CharacterMode::Clean)
        } else if matches_key(raw, "1") || matches_key(raw, "dirty") {
            Some(CharacterMode::Dirty)
        } else if matches_key(raw, "2") || matches_key(raw, "crush") {
            Some(CharacterMode::Crush)
        } else {
            None
        }
    }
}

/// Shape of a modulation source.
#[derive(Debug, Copy, Clone, PartialEq, Eq, Structural)]
pub enum ModSourceShape {
    /// Sine LFO.
    Sine,
    /// Triangle LFO.
    Triangle,
    /// Smoothed random walk.
    RandomWalk,
    /// Audio input envelope follower.
    Envelope,
}

impl ModSourceShape {
    /// The numeric encoding used by the host and by saved state.
    pub open spec fn spec_value(self) -> u32 {
        match self {
            ModSourceShape::Sine => 0,
            ModSourceShape::Triangle => 1,
            ModSourceShape::RandomWalk => 2,
            ModSourceShape::Envelope => 3,
        }
    }

    /// Decode a rounded numeric value; values outside the encoding select `Sine`.
    pub fn from_value(value: i32) -> (r: Self)
        ensures
            0 <= value < 4 ==> r.spec_value() == value,
            !(0 <= value < 4) ==> r == ModSourceShape::Sine,
    {
        match value {
            1 => ModSourceShape::Triangle,
            2 => ModSourceShape::RandomWalk,
            3 => ModSourceShape::Envelope,
            _ => ModSourceShape::Sine,
        }
    }

    /// Encode as the numeric value.
    pub fn as_value(self) -> (r: u32)
        ensures
            r == self.spec_value(),
    {
        match self {
            ModSourceShape::Sine => 0,
            ModSourceShape::Triangle => 1,
            ModSourceShape::RandomWalk => 2,
            ModSourceShape::Envelope => 3,
        }
    }

    /// The display label.
    pub open spec fn spec_label(self) -> Seq<char> {
        match self {
            ModSourceShape::Sine => "Sine"@,
            ModSourceShape::Triangle => "Triangle"@,
            ModSourceShape::RandomWalk => "Random Walk"@,
            ModSourceShape::Envelope => "Envelope"@,
        }
    }

    /// The display label.
    pub fn label(self) -> (r: &'static str)
        ensures
            r@ == self.spec_label(),
    {
        match self {
            ModSourceShape::Sine => "Sine",
            ModSourceShape::Triangle => "Triangle",
            ModSourceShape::RandomWalk => "Random Walk",
            ModSourceShape::Envelope => "Envelope",
        }
    }

    /// The variant that host text names, by index or by name.
    pub open spec fn spec_parse(s: Seq<char>) -> Option<Self> {
        if is_key(s, "0"@) || is_key(s, "sine"@) {
            Some(ModSourceShape::Sine)
        } else if is_key(s, "1"@) || is_key(s, "triangle"@) {
            Some(ModSourceShape::Triangle)
        } else if is_key(s, "2"@) || is_key(s, "random"@) || is_key(s, "random walk"@) || is_key(s, "walk"@) {
            Some(ModSourceShape::RandomWalk)
        } else if is_key(s, "3"@) || is_key(s, "env"@) || is_key(s, "envelope"@) {
            Some(ModSourceShape::Envelope)
        } else {
            None
        }
    }

    /// Parse host text: surrounding whitespace is ignored and letters match in any case.
    pub fn parse(raw: &str) -> (r: Option<Self>)
        ensures
            r == Self::spec_parse(raw@),
    {
        if matches_key(raw, "0") || matches_key(raw, "sine") {
            Some(ModSourceShape::Sine)
        } else if matches_key(raw, "1") || matches_key(raw, "triangle") {
            Some(ModSourceShape::Triangle)
        } else if matches_key(raw, "2") || matches_key(raw, "random") || matches_key(raw, "random walk") || matches_key(raw, "walk") {
            Some(ModSourceShape::RandomWalk)
        } else if matches_key(raw, "3") || matches_key(raw, "env") || matches_key(raw, "envelope") {
            Some(ModSourceShape::Envelope)
        } else {
            None
        }
    }
}

/// Timing mode of a modulation source's rate.
#[derive(Debug, Copy, Clone, PartialEq, Eq, Structural)]
pub enum ModRateMode {
    /// Free-running Hertz rate.
    FreeHz,
    /// Host-synced musical division.
    SyncDivision,
}

impl ModRateMode {
    /// The numeric encoding used by the host and by saved state.
    pub open spec fn spec_value(self) -> u32 {
        match self {
            ModRateMode::FreeHz => 0,
            ModRateMode::SyncDivision => 1,
        }
    }

    /// Decode a rounded numeric value: one and above select `SyncDivision`.
    pub fn from_value(value: i32) -> (r: Self)
        ensures
            r == (if value >= 1 { ModRateMode::SyncDivision } else { ModRateMode::FreeHz }),
    {
        if value >= 1 {
            ModRateMode::SyncDivision
        } else {
            ModRateMode::FreeHz
        }
    }

    /// Encode as the numeric value.
    pub fn as_value(self) -> (r: u32)
        ensures
            r == self.spec_value(),
    {
        match self {
            ModRateMode::FreeHz => 0,
            ModRateMode::SyncDivision => 1,
        }
    }

    /// The display label.
    pub open spec fn spec_label(self) -> Seq<char> {
        match self {
            ModRateMode::FreeHz => "Free Hz"@,
            ModRateMode::SyncDivision => "Sync Div"@,
        }
    }

    /// The display label.
    pub fn label(self) -> (r: &'static str)
        ensures
            r@ == self.spec_label(),
    {
        match self {
            ModRateMode::FreeHz => "Free Hz",
            ModRateMode::SyncDivision => "Sync Div",
        }
    }

    /// The variant that host text names, by index or by name.
    pub open spec fn spec_parse(s: Seq<char>) -> Option<Self> {
        if is_key(s, "0"@) || is_key(s, "free"@) || is_key(s, "hz"@) {
            Some(ModRateMode::FreeHz)
        } else if is_key(s, "1"@) || is_key(s, "sync"@) || is_key(s, "division"@) {
            Some(ModRateMode::SyncDivision)
        } else {
            None
        }
    }

    /// Parse host text: surrounding whitespace is ignored and letters match in any case.
    pub fn parse(raw: &str) -> (r: Option<Self>)
        ensures
            r == Self::spec_parse(raw@),
    {
        if matches_key(raw, "0") || matches_key(raw, "free") || matches_key(raw, "hz") {
            Some(ModRateMode::FreeHz)
        } else if matches_key(raw, "1") || matches_key(raw, "sync") || matches_key(raw, "division") {
            Some(ModRateMode::SyncDivision)
        } else {
            None
        }
    }
}

impl PullDivision {
    /// Cycle length in quarter-note beats, as `(numerator, denominator)`.
    pub open spec fn spec_beats(self) -> (u32, u32) {
        match self {
            PullDivision::Div1_16 => (1, 4),
            PullDivision::Div1_8T => (1, 3),
            PullDivision::Div1_8 => (1, 2),
            PullDivision::Div1_4T => (2, 3),
            PullDivision::Div1_4 => (1, 1),
            PullDivision::Div1_2 => (2, 1),
            PullDivision::Div1Bar => (4, 1),
            PullDivision::Div2Bar => (8, 1),
        }
    }

    /// Cycle length in quarter-note beats, as `(numerator, denominator)`.
    pub fn beats_per_cycle(self) -> (r: (u32, u32))
        ensures
            r == self.spec_beats(),
            r.1 > 0,
    {
        match self {
            PullDivision::Div1_16 => (1, 4),
            PullDivision::Div1_8T => (1, 3),
            PullDivision::Div1_8 => (1, 2),
            PullDivision::Div1_4T => (2, 3),
            PullDivision::Div1_4 => (1, 1),
            PullDivision::Div1_2 => (2, 1),
            PullDivision::Div1Bar => (4, 1),
            PullDivision::Div2Bar => (8, 1),
        }
    }
}

impl PullQuantize {
    /// Grid spacing in quarter-note beats as `(numerator, denominator)`;
    /// `None` when launches are not quantized.
    pub open spec fn spec_beats(self) -> Option<(u32, u32)> {
        match self {
            PullQuantize::Off => Option::None,
            PullQuantize::Div1_16 => Some((1, 4)),
            PullQuantize::Div1_8 => Some((1, 2)),
            PullQuantize::Div1_4 => Some((1, 1)),
        }
    }

    /// Grid spacing in quarter-note beats as `(numerator, denominator)`;
    /// `None` when launches are not quantized.
    pub fn beats(self) -> (r: Option<(u32, u32)>)
        ensures
            r == self.spec_beats(),
    {
        match self {
            PullQuantize::Off => Option::None,
            PullQuantize::Div1_16 => Some((1, 4)),
            PullQuantize::Div1_8 => Some((1, 2)),
            PullQuantize::Div1_4 => Some((1, 1)),
        }
    }

    /// Whether launches wait for a grid boundary.
    pub fn is_quantized(self) -> (r: bool)
        ensures
            r == (self.spec_beats() is Some),
    {
        match self {
            PullQuantize::Off => false,
            _ => true,
        }
    }
}

/// What host text says of a toggle, if it names a state.
pub open spec fn spec_parse_toggle(s: Seq<char>) -> Option<bool> {
    if is_key(s, "1"@) || is_key(s, "on"@) || is_key(s, "true"@) || is_key(s, "yes"@) {
        Some(true)
    } else if is_key(s, "0"@) || is_key(s, "off"@) || is_key(s, "false"@) || is_key(s, "no"@) {
        Some(false)
    } else {
        Option::None
    }
}

/// Parse a toggle from host text: `1/on/true/yes` or `0/off/false/no`, in any case.
pub fn parse_toggle(raw: &str) -> (r: Option<bool>)
    ensures
        r == spec_parse_toggle(raw@),
{
    if matches_key(raw, "1") || matches_key(raw, "on") || matches_key(raw, "true") || matches_key(
        raw,
        "yes",
    ) {
        Some(true)
    } else if matches_key(raw, "0") || matches_key(raw, "off") || matches_key(raw, "false")
        || matches_key(raw, "no") {
        Some(false)
    } else {
        Option::None
    }
}

/// Store a flag as a word: one for set, zero for clear.
pub fn bool_to_u32(value: bool) -> (r: u32)
    ensures
        r == (if value {
            1u32
        } else {
            0u32
        }),
{
    if value {
        1
    } else {
        0
    }
}

/// Read a flag from a word: any nonzero word is set.
pub fn u32_to_bool(value: u32) -> (r: bool)
    ensures
        r == (value != 0),
{
    value != 0
}

/// Every pull shape's label, as the host displays it, parses back to that pull shape.
pub proof fn lemma_pull_shape_label_parses(x: PullShape)
    ensures
        PullShape::spec_parse(x.spec_label()) == Some(x),
{
    reveal_strlit("0");
    reveal_strlit("1");
    reveal_strlit("2");
    reveal_strlit("3");
    reveal_strlit("4");
    reveal_strlit("Linear");
    reveal_strlit("Pulse");
    reveal_strlit("Ratchet");
    reveal_strlit("Rubber");
    reveal_strlit("Wave");
    reveal_strlit("linear");
    reveal_strlit("pulse");
    reveal_strlit("ratchet");
    reveal_strlit("rubber");
    reveal_strlit("wave");
    let l = x.spec_label();
    lemma_trimmed_plain(l);
    match x {
        PullShape::Linear => {
            assert(folded(l).len() != folded("0"@).len());
            assert(folded(l) =~= folded("linear"@));
        },
        PullShape::Rubber => {
            assert(folded(l).len() != folded("0"@).len());
            assert(folded(l)[0] != folded("linear"@)[0]);
            assert(folded(l).len() != folded("1"@).len());
            assert(folded(l) =~= folded("rubber"@));
        },
        PullShape::Ratchet => {
            assert(folded(l).len() != folded("0"@).len());
            assert(folded(l).len() != folded("linear"@).len());
            assert(folded(l).len() != folded("1"@).len());
            assert(folded(l).len() != folded("rubber"@).len());
            assert(folded(l).len() != folded("2"@).len());
            assert(folded(l) =~= folded("ratchet"@));
        },
        PullShape::Wave => {
            assert(folded(l).len() != folded("0"@).len());
            assert(folded(l).len() != folded("linear"@).len());
            assert(folded(l).len() != folded("1"@).len());
            assert(folded(l).len() != folded("rubber"@).len());
            assert(folded(l).len() != folded("2"@).len());
            assert(folded(l).len() != folded("ratchet"@).len());
            assert(folded(l).len() != folded("3"@).len());
            assert(folded(l) =~= folded("wave"@));
        },
        PullShape::Pulse => {
            assert(folded(l).len() != folded("0"@).len());
            assert(folded(l).len() != folded("linear"@).len());
            assert(folded(l).len() != folded("1"@).len());
            assert(folded(l).len() != folded("rubber"@).len());
            assert(folded(l).len() != folded("2"@).len());
            assert(folded(l).len() != folded("ratchet"@).len());
            assert(folded(l).len() != folded("3"@).len());
            assert(folded(l).len() != folded("wave"@).len());
            assert(folded(l).len() != folded("4"@).len());
            assert(folded(l) =~= folded("pulse"@));
        },
    }
}

/// Every time mode's label, as the host displays it, parses back to that time mode.
pub proof fn lemma_time_mode_label_parses(x: TimeMode)
    ensures
        TimeMode::spec_parse(x.spec_label()) == Some(x),
{
    reveal_strlit("0");
    reveal_strlit("1");
    reveal_strlit("Free Hz");
    reveal_strlit("Sync Div");
    reveal_strlit("division");
    reveal_strlit("free");
    reveal_strlit("free hz");
    reveal_strlit("hz");
    reveal_strlit("sync");
    reveal_strlit("sync div");
    let l = x.spec_label();
    lemma_trimmed_plain(l);
    match x {
        TimeMode::FreeHz => {
            assert(folded(l).len() != folded("0"@).len());
            assert(folded(l).len() != folded("free"@).len());
            assert(folded(l) =~= folded("free hz"@));
        },
        TimeMode::SyncDivision => {
            assert(folded(l).len() != folded("0"@).len());
            assert(folded(l).len() != folded("free"@).len());
            assert(folded(l).len() != folded("free hz"@).len());
            assert(folded(l).len() != folded("hz"@).len());
            assert(folded(l).len() != folded("1"@).len());
            assert(folded(l).len() != folded("sync"@).len());
            assert(folded(l)[0] != folded("division"@)[0]);
            assert(folded(l) =~= folded("sync div"@));
        },
    }
}

/// Every pull division's label, as the host displays it, parses back to that pull division.
pub proof fn lemma_pull_division_label_parses(x: PullDivision)
    ensures
        PullDivision::spec_parse(x.spec_label()) == Some(x),
{
    reveal_strlit("0");
    reveal_strlit("1");
    reveal_strlit("1 Bar");
    reveal_strlit("1 bar");
    reveal_strlit("1/16");
    reveal_strlit("1/2");
    reveal_strlit("1/4");
    reveal_strlit("1/4T");
    reveal_strlit("1/4t");
    reveal_strlit("1/8");
    reveal_strlit("1/8T");
    reveal_strlit("1/8t");
    reveal_strlit("1bar");
    reveal_strlit("2");
    reveal_strlit("2 Bar");
    reveal_strlit("2 bar");
    reveal_strlit("2bar");
    reveal_strlit("3");
    reveal_strlit("4");
    reveal_strlit("5");
    reveal_strlit("6");
    reveal_strlit("7");
    let l = x.spec_label();
    lemma_trimmed_plain(l);
    match x {
        PullDivision::Div1_16 => {
            assert(folded(l).len() != folded("0"@).len());
            assert(folded(l) =~= folded("1/16"@));
        },
        PullDivision::Div1_8T => {
            assert(folded(l).len() != folded("0"@).len());
            assert(folded(l)[2] != folded("1/16"@)[2]);
            assert(folded(l).len() != folded("1"@).len());
            assert(folded(l) =~= folded("1/8t"@));
        },
        PullDivision::Div1_8 => {
            assert(folded(l).len() != folded("0"@).len());
            assert(folded(l).len() != folded("1/16"@).len());
            assert(folded(l).len() != folded("1"@).len());
            assert(folded(l).len() != folded("1/8t"@).len());
            assert(folded(l).len() != folded("2"@).len());
            assert(folded(l) =~= folded("1/8"@));
        },
        PullDivision::Div1_4T => {
            assert(folded(l).len() != folded("0"@).len());
            assert(folded(l)[2] != folded("1/16"@)[2]);
            assert(folded(l).len() != folded("1"@).len());
            assert(folded(l)[2] != folded("1/8t"@)[2]);
            assert(folded(l).len() != folded("2"@).len());
            assert(folded(l).len() != folded("1/8"@).len());
            assert(folded(l).len() != folded("3"@).len());
            assert(folded(l) =~= folded("1/4t"@));
        },
        PullDivision::Div1_4 => {
            assert(folded(l).len() != folded("0"@).len());
            assert(folded(l).len() != folded("1/16"@).len());
            assert(folded(l).len() != folded("1"@).len());
            assert(folded(l).len() != folded("1/8t"@).len());
            assert(folded(l).len() != folded("2"@).len());
            assert(folded(l)[2] != folded("1/8"@)[2]);
            assert(folded(l).len() != folded("3"@).len());
            assert(folded(l).len() != folded("1/4t"@).len());
            assert(folded(l).len() != folded("4"@).len());
            assert(folded(l) =~= folded("1/4"@));
        },
        PullDivision::Div1_2 => {
            assert(folded(l).len() != folded("0"@).len());
            assert(folded(l).len() != folded("1/16"@).len());
            assert(folded(l).len() != folded("1"@).len());
            assert(folded(l).len() != folded("1/8t"@).len());
            assert(folded(l).len() != folded("2"@).len());
            assert(folded(l)[2] != folded("1/8"@)[2]);
            assert(folded(l).len() != folded("3"@).len());
            assert(folded(l).len() != folded("1/4t"@).len());
            assert(folded(l).len() != folded("4"@).len());
            assert(folded(l)[2] != folded("1/4"@)[2]);
            assert(folded(l).len() != folded("5"@).len());
            assert(folded(l) =~= folded("1/2"@));
        },
        PullDivision::Div1Bar => {
            assert(folded(l).len() != folded("0"@).len());
            assert(folded(l).len() != folded("1/16"@).len());
            assert(folded(l).len() != folded("1"@).len());
            assert(folded(l).len() != folded("1/8t"@).len());
            assert(folded(l).len() != folded("2"@).len());
            assert(folded(l).len() != folded("1/8"@).len());
            assert(folded(l).len() != folded("3"@).len());
            assert(folded(l).len() != folded("1/4t"@).len());
            assert(folded(l).len() != folded("4"@).len());
            assert(folded(l).len() != folded("1/4"@).len());
            assert(folded(l).len() != folded("5"@).len());
            assert(folded(l).len() != folded("1/2"@).len());
            assert(folded(l).len() != folded("6"@).len());
            assert(folded(l) =~= folded("1 bar"@));
        },
        PullDivision::Div2Bar => {
            assert(folded(l).len() != folded("0"@).len());
            assert(folded(l).len() != folded("1/16"@).len());
            assert(folded(l).len() != folded("1"@).len());
            assert(folded(l).len() != folded("1/8t"@).len());
            assert(folded(l).len() != folded("2"@).len());
            assert(folded(l).len() != folded("1/8"@).len());
            assert(folded(l).len() != folded("3"@).len());
            assert(folded(l).len() != folded("1/4t"@).len());
            assert(folded(l).len() != folded("4"@).len());
            assert(folded(l).len() != folded("1/4"@).len());
            assert(folded(l).len() != folded("5"@).len());
            assert(folded(l).len() != folded("1/2"@).len());
            assert(folded(l).len() != folded("6"@).len());
            assert(folded(l)[0] != folded("1 bar"@)[0]);
            assert(folded(l).len() != folded("1bar"@).len());
            assert(folded(l).len() != folded("7"@).len());
            assert(folded(l) =~= folded("2 bar"@));
        },
    }
}

/// Every quantize grid's label, as the host displays it, parses back to that quantize grid.
pub proof fn lemma_pull_quantize_label_parses(x: PullQuantize)
    ensures
        PullQuantize::spec_parse(x.spec_label()) == Some(x),
{
    reveal_strlit("0");
    reveal_strlit("1");
    reveal_strlit("1/16");
    reveal_strlit("1/4");
    reveal_strlit("1/8");
    reveal_strlit("2");
    reveal_strlit("3");
    reveal_strlit("None");
    reveal_strlit("none");
    let l = x.spec_label();
    lemma_trimmed_plain(l);
    match x {
        PullQuantize::Off => {
            assert(folded(l).len() != folded("0"@).len());
            assert(folded(l) =~= folded("none"@));
        },
        PullQuantize::Div1_16 => {
            assert(folded(l).len() != folded("0"@).len());
            assert(folded(l)[0] != folded("none"@)[0]);
            assert(folded(l).len() != folded("1"@).len());
            assert(folded(l) =~= folded("1/16"@));
        },
        PullQuantize::Div1_8 => {
            assert(folded(l).len() != folded("0"@).len());
            assert(folded(l).len() != folded("none"@).len());
            assert(folded(l).len() != folded("1"@).len());
            assert(folded(l).len() != folded("1/16"@).len());
            assert(folded(l).len() != folded("2"@).len());
            assert(folded(l) =~= folded("1/8"@));
        },
        PullQuantize::Div1_4 => {
            assert(folded(l).len() != folded("0"@).len());
            assert(folded(l).len() != folded("none"@).len());
            assert(folded(l).len() != folded("1"@).len());
            assert(folded(l).len() != folded("1/16"@).len());
            assert(folded(l).len() != folded("2"@).len());
            assert(folded(l)[2] != folded("1/8"@)[2]);
            assert(folded(l).len() != folded("3"@).len());
            assert(folded(l) =~= folded("1/4"@));
        },
    }
}

/// Every warp color's label, as the host displays it, parses back to that warp color.
pub proof fn lemma_warp_color_label_parses(x: WarpColor)
    ensures
        WarpColor::spec_parse(x.spec_label()) == Some(x),
{
    reveal_strlit("0");
    reveal_strlit("1");
    reveal_strlit("2");
    reveal_strlit("Bright Shear");
    reveal_strlit("Dark Drag");
    reveal_strlit("Neutral");
    reveal_strlit("bright");
    reveal_strlit("bright shear");
    reveal_strlit("dark");
    reveal_strlit("dark drag");
    reveal_strlit("neutral");
    let l = x.spec_label();
    lemma_trimmed_plain(l);
    match x {
        WarpColor::Neutral => {
            assert(folded(l).len() != folded("0"@).len());
            assert(folded(l) =~= folded("neutral"@));
        },
        WarpColor::DarkDrag => {
            assert(folded(l).len() != folded("0"@).len());
            assert(folded(l).len() != folded("neutral"@).len());
            assert(folded(l).len() != folded("1"@).len());
            assert(folded(l).len() != folded("dark"@).len());
            assert(folded(l) =~= folded("dark drag"@));
        },
        WarpColor::BrightShear => {
            assert(folded(l).len() != folded("0"@).len());
            assert(folded(l).len() != folded("neutral"@).len());
            assert(folded(l).len() != folded("1"@).len());
            assert(folded(l).len() != folded("dark"@).len());
            assert(folded(l).len() != folded("dark drag"@).len());
            assert(folded(l).len() != folded("2"@).len());
            assert(folded(l).len() != folded("bright"@).len());
            assert(folded(l) =~= folded("bright shear"@));
        },
    }
}

/// Every character mode's label, as the host displays it, parses back to that character mode.
pub proof fn lemma_character_mode_label_parses(x: CharacterMode)
    ensures
        CharacterMode::spec_parse(x.spec_label()) == Some(x),
{
    reveal_strlit("0");
    reveal_strlit("1");
    reveal_strlit("2");
    reveal_strlit("Clean");
    reveal_strlit("Crush");
    reveal_strlit("Dirty");
    reveal_strlit("clean");
    reveal_strlit("crush");
    reveal_strlit("dirty");
    let l = x.spec_label();
    lemma_trimmed_plain(l);
    match x {
        CharacterMode::Clean => {
            assert(folded(l).len() != folded("0"@).len());
            assert(folded(l) =~= folded("clean"@));
        },
        CharacterMode::Dirty => {
            assert(folded(l).len() != folded("0"@).len());
            assert(folded(l)[0] != folded("clean"@)[0]);
            assert(folded(l).len() != folded("1"@).len());
            assert(folded(l) =~= folded("dirty"@));
        },
        CharacterMode::Crush => {
            assert(folded(l).len() != folded("0"@).len());
            assert(folded(l)[1] != folded("clean"@)[1]);
            assert(folded(l).len() != folded("1"@).len());
            assert(folded(l)[0] != folded("dirty"@)[0]);
            assert(folded(l).len() != folded("2"@).len());
            assert(folded(l) =~= folded("crush"@));
        },
    }
}

/// Every modulation source shape's label, as the host displays it, parses back to that modulation source shape.
pub proof fn lemma_mod_source_shape_label_parses(x: ModSourceShape)
    ensures
        ModSourceShape::spec_parse(x.spec_label()) == Some(x),
{
    reveal_strlit("0");
    reveal_strlit("1");
    reveal_strlit("2");
    reveal_strlit("3");
    reveal_strlit("Envelope");
    reveal_strlit("Random Walk");
    reveal_strlit("Sine");
    reveal_strlit("Triangle");
    reveal_strlit("env");
    reveal_strlit("envelope");
    reveal_strlit("random");
    reveal_strlit("random walk");
    reveal_strlit("sine");
    reveal_strlit("triangle");
    reveal_strlit("walk");
    let l = x.spec_label();
    lemma_trimmed_plain(l);
    match x {
        ModSourceShape::Sine => {
            assert(folded(l).len() != folded("0"@).len());
            assert(folded(l) =~= folded("sine"@));
        },
        ModSourceShape::Triangle => {
            assert(folded(l).len() != folded("0"@).len());
            assert(folded(l).len() != folded("sine"@).len());
            assert(folded(l).len() != folded("1"@).len());
            assert(folded(l) =~= folded("triangle"@));
        },
        ModSourceShape::RandomWalk => {
            assert(folded(l).len() != folded("0"@).len());
            assert(folded(l).len() != folded("sine"@).len());
            assert(folded(l).len() != folded("1"@).len());
            assert(folded(l).len() != folded("triangle"@).len());
            assert(folded(l).len() != folded("2"@).len());
            assert(folded(l).len() != folded("random"@).len());
            assert(folded(l) =~= folded("random walk"@));
        },
        ModSourceShape::Envelope => {
            assert(folded(l).len() != folded("0"@).len());
            assert(folded(l).len() != folded("sine"@).len());
            assert(folded(l).len() != folded("1"@).len());
            assert(folded(l)[0] != folded("triangle"@)[0]);
            assert(folded(l).len() != folded("2"@).len());
            assert(folded(l).len() != folded("random"@).len());
            assert(folded(l).len() != folded("random walk"@).len());
            assert(folded(l).len() != folded("walk"@).len());
            assert(folded(l).len() != folded("3"@).len());
            assert(folded(l).len() != folded("env"@).len());
            assert(folded(l) =~= folded("envelope"@));
        },
    }
}

} // verus!
