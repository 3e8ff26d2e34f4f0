use tension_field::param_defs::{
    param_count, param_def, param_index, PARAM_COUNT, PARAM_ENERGY_CEILING_ID, PARAM_FEEDBACK_ID,
    PARAM_OUTPUT_TRIM_DB_ID, PARAM_TENSION_ID,
};
use tension_field::params::{
    bool_to_u32, parse_toggle, u32_to_bool, CharacterMode, ModRateMode, ModSourceShape,
    PullDivision, PullQuantize, PullShape, TimeMode, WarpColor,
};
use tension_field::text::{matches_key, trim};

#[test]
fn pull_shape_parse_handles_names_and_indexes() {
    assert_eq!(PullShape::parse("linear"), Some(PullShape::Linear));
    assert_eq!(PullShape::parse("2"), Some(PullShape::Ratchet));
    assert_eq!(PullShape::parse("wave"), Some(PullShape::Wave));
    assert_eq!(PullShape::parse("pulse"), Some(PullShape::Pulse));
    assert_eq!(PullShape::parse("bad"), None);
}

#[test]
fn toggle_parser_handles_common_variants() {
    assert_eq!(parse_toggle("on"), Some(true));
    assert_eq!(parse_toggle("false"), Some(false));
    assert_eq!(parse_toggle("unknown"), None);
}

#[test]
fn enum_parsers_cover_core_labels() {
    assert_eq!(TimeMode::parse("sync"), Some(TimeMode::SyncDivision));
    assert_eq!(PullDivision::parse("1/4"), Some(PullDivision::Div1_4));
    assert_eq!(PullQuantize::parse("1/8"), Some(PullQuantize::Div1_8));
    assert_eq!(WarpColor::parse("dark drag"), Some(WarpColor::DarkDrag));
    assert_eq!(CharacterMode::parse("crush"), Some(CharacterMode::Crush));
    assert_eq!(ModSourceShape::parse("env"), Some(ModSourceShape::Envelope));
    assert_eq!(ModRateMode::parse("hz"), Some(ModRateMode::FreeHz));
}

#[test]
fn parse_ignores_surrounding_whitespace_and_case() {
    assert_eq!(PullShape::parse("  RuBBer \t"), Some(PullShape::Rubber));
    assert_eq!(PullDivision::parse("1/8T"), Some(PullDivision::Div1_8T));
    assert_eq!(PullDivision::parse(" 2 Bar\n"), Some(PullDivision::Div2Bar));
    assert_eq!(PullDivision::parse("2bar"), Some(PullDivision::Div2Bar));
    assert_eq!(WarpColor::parse("\u{a0}Bright\u{3000}"), Some(WarpColor::BrightShear));
    assert_eq!(parse_toggle(" YES "), Some(true));
    assert_eq!(parse_toggle(""), None);
    assert_eq!(parse_toggle("o n"), None);
}

#[test]
fn trim_and_key_matching() {
    assert_eq!(trim("  a b  "), "a b");
    assert_eq!(trim("\n\t"), "");
    assert_eq!(trim("x"), "x");
    assert!(matches_key(" FREE HZ ", "free hz"));
    assert!(!matches_key("free", "free hz"));
    assert!(!matches_key("\u{e9}", "e"));
}

#[test]
fn labels_parse_back_to_their_variant() {
    for shape in [
        PullShape::Linear,
        PullShape::Rubber,
        PullShape::Ratchet,
        PullShape::Wave,
        PullShape::Pulse,
    ] {
        assert_eq!(PullShape::parse(shape.label()), Some(shape));
    }
    assert_eq!(TimeMode::parse(TimeMode::FreeHz.label()), Some(TimeMode::FreeHz));
    assert_eq!(PullDivision::parse(PullDivision::Div1Bar.label()), Some(PullDivision::Div1Bar));
    assert_eq!(ModSourceShape::parse("Random Walk"), Some(ModSourceShape::RandomWalk));
    assert_eq!(ModRateMode::parse(ModRateMode::FreeHz.label()), None);
    assert_eq!(PullQuantize::Off.label(), "None");
    assert_eq!(WarpColor::DarkDrag.label(), "Dark Drag");
    assert_eq!(CharacterMode::Dirty.label(), "Dirty");
}

#[test]
fn numeric_values_round_trip_and_fall_back() {
    assert_eq!(PullShape::from_value(3), PullShape::Wave);
    assert_eq!(PullShape::from_value(9), PullShape::Linear);
    assert_eq!(PullShape::from_value(-1), PullShape::Linear);
    assert_eq!(PullShape::Pulse.as_value(), 4);
    assert_eq!(PullDivision::from_value(7), PullDivision::Div2Bar);
    assert_eq!(PullDivision::Div1_4T.as_value(), 3);
    assert_eq!(TimeMode::from_value(1), TimeMode::SyncDivision);
    assert_eq!(TimeMode::from_value(5), TimeMode::SyncDivision);
    assert_eq!(TimeMode::from_value(0), TimeMode::FreeHz);
    assert_eq!(ModRateMode::from_value(-3), ModRateMode::FreeHz);
    assert_eq!(ModSourceShape::from_value(3), ModSourceShape::Envelope);
    assert_eq!(CharacterMode::from_value(2), CharacterMode::Crush);
    assert_eq!(WarpColor::from_value(1), WarpColor::DarkDrag);
    assert_eq!(PullQuantize::from_value(4), PullQuantize::Off);
}

#[test]
fn division_and_grid_lengths() {
    assert_eq!(PullDivision::Div1_8T.beats_per_cycle(), (1, 3));
    assert_eq!(PullDivision::Div2Bar.beats_per_cycle(), (8, 1));
    assert_eq!(PullDivision::Div1_16.beats_per_cycle(), (1, 4));
    assert_eq!(PullQuantize::Off.beats(), None);
    assert_eq!(PullQuantize::Div1_8.beats(), Some((1, 2)));
    assert!(!PullQuantize::Off.is_quantized());
    assert!(PullQuantize::Div1_4.is_quantized());
}

#[test]
fn flag_words() {
    assert_eq!(bool_to_u32(true), 1);
    assert_eq!(bool_to_u32(false), 0);
    assert!(u32_to_bool(7));
    assert!(!u32_to_bool(0));
}

#[test]
fn parameter_table_lookup() {
    assert_eq!(param_count(), 51);
    assert_eq!(PARAM_COUNT, 51);
    let tension = param_def(0).unwrap();
    assert_eq!(tension.id, PARAM_TENSION_ID);
    assert_eq!(tension.name, "Tension");
    assert_eq!(tension.default_milli, 500);
    assert!(param_def(51).is_none());
    let feedback = param_def(param_index(PARAM_FEEDBACK_ID).unwrap()).unwrap();
    assert_eq!(feedback.max_milli, 700);
    assert_eq!(feedback.default_milli, 120);
    let trim_def = param_def(param_index(PARAM_OUTPUT_TRIM_DB_ID).unwrap()).unwrap();
    assert_eq!((trim_def.min_milli, trim_def.max_milli), (-12000, 6000));
    assert_eq!(param_index(PARAM_ENERGY_CEILING_ID), Some(50));
    assert_eq!(param_index(0), None);
    assert_eq!(param_index(52), None);
    assert!(param_def(2).unwrap().stepped);
}
