use tension_field::frames::min_len;
use tension_field::gesture::{TriggerInput, TriggerPhase, TriggerState};
use tension_field::modulation::{route_of_param, route_param_id, ModDestination, ModSource};
use tension_field::param_defs::{
    param_def, param_index, PARAM_MOD_A_TO_TENSION_ID, PARAM_MOD_B_TO_FEEDBACK_ID,
    PARAM_MOD_B_TO_WIDTH_ID, PARAM_PULL_SHAPE_ID, PARAM_TENSION_ID,
};
use tension_field::params::PullQuantize;
use tension_field::ring::{wrap_index, RingBuffer};
use tension_field::rng::{Lcg32, XorShift32};
use tension_field::ui::{ActiveTab, TensionPreset};

fn input(trigger: bool, latch: bool, quantize: PullQuantize) -> TriggerInput {
    TriggerInput {
        trigger,
        latch,
        quantize,
        playing: true,
        crossed_boundary: false,
        one_shot_len: 5280,
    }
}

#[test]
fn latch_holds_after_trigger_release() {
    let mut state = TriggerState::new();
    assert!(state.step(input(true, true, PullQuantize::Off)));
    assert!(state.step(input(false, true, PullQuantize::Off)));
    assert_eq!(state.phase(), TriggerPhase::LatchedActive);
    for _ in 0..10_000 {
        assert!(state.step(input(false, true, PullQuantize::Off)));
    }
    state.step(input(false, false, PullQuantize::Off));
    assert!(!state.latched);
}

#[test]
fn one_shot_window_runs_its_length() {
    let mut state = TriggerState::new();
    let mut press = input(true, false, PullQuantize::Off);
    press.one_shot_len = 3;
    let mut release = press;
    release.trigger = false;
    assert!(state.step(press));
    assert_eq!(state.one_shot_left, 2);
    assert!(state.step(release));
    assert!(state.step(release));
    assert_eq!(state.phase(), TriggerPhase::Idle);
    assert!(!state.step(release));
}

#[test]
fn quantized_press_waits_for_boundary() {
    let mut state = TriggerState::new();
    let mut press = input(true, false, PullQuantize::Div1_16);
    press.one_shot_len = 4;
    assert!(state.step(press));
    assert!(state.armed);
    assert_eq!(state.one_shot_left, 0);
    let mut release = press;
    release.trigger = false;
    assert!(!state.step(release));
    assert_eq!(state.phase(), TriggerPhase::ArmedQuantized);
    release.crossed_boundary = true;
    assert!(state.step(release));
    assert!(!state.armed);
    assert_eq!(state.one_shot_left, 3);
}

#[test]
fn stopped_transport_launches_at_once() {
    let mut state = TriggerState::new();
    let mut press = input(true, false, PullQuantize::Div1_4);
    press.playing = false;
    press.one_shot_len = 2;
    assert!(state.step(press));
    assert!(!state.armed);
    assert_eq!(state.phase(), TriggerPhase::OneShotActive);
}

#[test]
fn held_trigger_is_not_a_new_edge() {
    let mut state = TriggerState::new();
    let mut press = input(true, false, PullQuantize::Off);
    press.one_shot_len = 1;
    state.step(press);
    assert_eq!(state.one_shot_left, 0);
    assert!(state.step(press));
    assert_eq!(state.one_shot_left, 0);
}

#[test]
fn ring_buffer_wraps_negative_indices() {
    assert_eq!(wrap_index(-1, 100), 99);
    assert_eq!(wrap_index(-100, 100), 0);
    assert_eq!(wrap_index(-101, 100), 99);
    assert_eq!(wrap_index(250, 100), 50);
    assert_eq!(wrap_index(0, 1), 0);
    let mut ring = RingBuffer::new(4, 0i32);
    for v in 1..=4 {
        ring.write_current(v);
        ring.advance();
    }
    assert_eq!(ring.position(), 0);
    assert_eq!(ring.window4(0), (4, 1, 2, 3));
    assert_eq!(ring.window4(3), (3, 4, 1, 2));
    assert_eq!(ring.get_wrapped(-2), 3);
}

#[test]
fn exchange_delays_by_the_length() {
    let mut ring = RingBuffer::new(3, 0i32);
    let out: Vec<i32> = (1..=7).map(|v| ring.exchange(v)).collect();
    assert_eq!(out, vec![0, 0, 0, 1, 2, 3, 4]);
    assert_eq!(ring.len(), 3);
    assert_eq!(ring.current(), 5);
}

#[test]
fn xorshift_sequence() {
    let mut rng = XorShift32::new(0);
    assert_eq!(rng.next_u32(), 0x510c_4619);
    assert_eq!(rng.next_u32(), 0xe02e_553e);
    let mut one = XorShift32::new(1);
    assert_eq!(one.next_u32(), 0x0004_2021);
}

#[test]
fn lcg_sequence() {
    let mut rng = Lcg32::new(0xA5A5_9151);
    assert_eq!(rng.next_u24(), 0x00ce_a69a);
}

#[test]
fn block_length_is_shortest_present_buffer() {
    assert_eq!(min_len(&[Some(64), None, Some(32), Some(128)]), Some(32));
    assert_eq!(min_len(&[None, None]), None);
    assert_eq!(min_len(&[]), None);
    assert_eq!(min_len(&[Some(16), Some(0)]), None);
    assert_eq!(min_len(&[None, Some(7)]), Some(7));
}

#[test]
fn modulation_routes_map_to_parameters() {
    assert_eq!(
        route_param_id(ModSource::A, ModDestination::Tension),
        PARAM_MOD_A_TO_TENSION_ID
    );
    assert_eq!(
        route_param_id(ModSource::B, ModDestination::Width),
        PARAM_MOD_B_TO_WIDTH_ID
    );
    assert_eq!(
        route_of_param(PARAM_MOD_B_TO_FEEDBACK_ID),
        Some((ModSource::B, ModDestination::Feedback))
    );
    assert_eq!(route_of_param(PARAM_TENSION_ID), None);
    assert_eq!(route_of_param(49), None);
    assert!(ModDestination::WarpMotion.uses_soft_curve());
    assert!(!ModDestination::Grain.uses_soft_curve());
    assert_eq!(ModDestination::Feedback.smoothing_milli(), 90);
    assert_eq!(ModDestination::from_index(6), None);
    assert_eq!(ModDestination::from_index(3), Some(ModDestination::Width));
    assert_eq!(ModDestination::Direction.index(), 1);
}

#[test]
fn tabs_and_presets() {
    let tabs = ActiveTab::all();
    assert_eq!(tabs.len(), 4);
    assert_eq!(tabs[2].key(), "tone");
    assert_eq!(tabs[3].title(), "Safety + Out");
    let presets = TensionPreset::all();
    assert_eq!(presets.len(), 10);
    assert_eq!(presets[0].label(), "Pulse Drive");
    assert_eq!(presets[9].label(), "Aftershock Tail");
    let updates = TensionPreset::PulseDrive.updates();
    assert_eq!(updates[0], (PARAM_TENSION_ID, 740));
    assert_eq!(updates[1], (PARAM_PULL_SHAPE_ID, 4000));
    for preset in presets {
        for (id, value) in preset.updates() {
            let def = param_def(param_index(id).unwrap()).unwrap();
            assert!(def.min_milli <= value && value <= def.max_milli);
        }
    }
}
