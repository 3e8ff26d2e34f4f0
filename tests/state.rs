use tension_field::param_defs::{param_def, PARAM_COUNT};
use tension_field::state::{
    is_finite_word, read_snapshot, read_u32, write_snapshot, PluginStateSnapshot,
    StateDecodeError, METER_COUNT, STATE_MAGIC, STATE_VALUE_COUNT, STATE_VERSION,
};

fn default_words() -> Vec<u32> {
    (0..PARAM_COUNT)
        .map(|i| (param_def(i).unwrap().default_milli as f32 / 1000.0).to_bits())
        .collect()
}

#[test]
fn roundtrip_preserves_snapshot() {
    let params: Vec<u32> = (0..STATE_VALUE_COUNT)
        .map(|index| (index as f32 * 0.125).to_bits())
        .collect();
    let meters: Vec<u32> = (0..METER_COUNT)
        .map(|index| (index as f32 * 0.05).to_bits())
        .collect();

    let expected = PluginStateSnapshot {
        param_values: params,
        meter_values: meters,
    };

    let data = write_snapshot(&expected);
    let actual = read_snapshot(&data, &default_words()).expect("state should deserialize");

    assert_eq!(actual.param_values, expected.param_values);
    assert_eq!(actual.meter_values, expected.meter_values);
}

#[test]
fn invalid_magic_is_rejected() {
    let mut data = Vec::new();
    data.extend_from_slice(&0xDEADBEEFu32.to_le_bytes());
    data.extend_from_slice(&STATE_VERSION.to_le_bytes());
    data.extend_from_slice(&(STATE_VALUE_COUNT as u32).to_le_bytes());
    data.extend_from_slice(&(METER_COUNT as u32).to_le_bytes());
    data.resize(data.len() + (STATE_VALUE_COUNT + METER_COUNT) * 4, 0);

    let error = read_snapshot(&data, &default_words()).expect_err("invalid magic must fail");
    assert_eq!(error, StateDecodeError::InvalidPayload);
}

#[test]
fn invalid_version_is_rejected() {
    let mut data = Vec::new();
    data.extend_from_slice(&STATE_MAGIC.to_le_bytes());
    data.extend_from_slice(&99u32.to_le_bytes());
    data.extend_from_slice(&(STATE_VALUE_COUNT as u32).to_le_bytes());
    data.extend_from_slice(&(METER_COUNT as u32).to_le_bytes());
    data.resize(data.len() + (STATE_VALUE_COUNT + METER_COUNT) * 4, 0);

    let error = read_snapshot(&data, &default_words()).expect_err("invalid version must fail");
    assert_eq!(error, StateDecodeError::UnsupportedVersion);
}

#[test]
fn v2_snapshot_migrates_missing_param_values() {
    let legacy_param_count = STATE_VALUE_COUNT as u32 - 3;
    let mut data = Vec::new();
    data.extend_from_slice(&STATE_MAGIC.to_le_bytes());
    data.extend_from_slice(&2u32.to_le_bytes());
    data.extend_from_slice(&legacy_param_count.to_le_bytes());
    data.extend_from_slice(&(METER_COUNT as u32).to_le_bytes());

    for index in 0..legacy_param_count {
        data.extend_from_slice(&((index as f32) * 0.01).to_le_bytes());
    }
    for _ in 0..METER_COUNT {
        data.extend_from_slice(&0.0f32.to_le_bytes());
    }

    let defaults = default_words();
    let snapshot = read_snapshot(&data, &defaults).expect("v2 state should migrate");

    let value = |i: usize| f32::from_bits(snapshot.param_values[i]);
    assert!((value(0) - 0.0).abs() < 1.0e-6);
    assert!((value(legacy_param_count as usize - 1) - 0.47).abs() < 1.0e-6);
    assert!(snapshot.param_values[(legacy_param_count as usize)..]
        .iter()
        .all(|bits| f32::from_bits(*bits).is_finite()));
    assert_eq!(
        &snapshot.param_values[(legacy_param_count as usize)..],
        &defaults[(legacy_param_count as usize)..]
    );
}

fn header(version: u32, params: u32, meters: u32) -> Vec<u8> {
    let mut data = Vec::new();
    for word in [STATE_MAGIC, version, params, meters] {
        data.extend_from_slice(&word.to_le_bytes());
    }
    data
}

#[test]
fn written_payload_layout() {
    let snapshot = PluginStateSnapshot {
        param_values: vec![0x3f00_0000; STATE_VALUE_COUNT],
        meter_values: vec![0; METER_COUNT],
    };
    let data = write_snapshot(&snapshot);
    assert_eq!(data.len(), 4 * (4 + STATE_VALUE_COUNT + METER_COUNT));
    assert_eq!(&data[0..4], b"TFST");
    assert_eq!(read_u32(&data, 4), Ok(3));
    assert_eq!(read_u32(&data, 8), Ok(51));
    assert_eq!(read_u32(&data, 12), Ok(9));
    assert_eq!(&data[16..20], &[0x00, 0x00, 0x00, 0x3f]);
}

#[test]
fn short_payloads_are_io_errors() {
    assert_eq!(read_snapshot(&[], &default_words()).unwrap_err(), StateDecodeError::Io);
    let mut data = header(3, 51, 9);
    data.resize(data.len() + 10 * 4, 0);
    assert_eq!(read_snapshot(&data, &default_words()).unwrap_err(), StateDecodeError::Io);
    assert_eq!(read_u32(&[1, 2, 3], 0), Err(StateDecodeError::Io));
    assert_eq!(read_u32(&[1, 2, 3, 4, 5], 1), Ok(0x0504_0302));
    assert_eq!(read_u32(&[1, 2, 3, 4], 9), Err(StateDecodeError::Io));
}

#[test]
fn bad_counts_are_invalid_payloads() {
    let mut data = header(3, 50, 9);
    data.resize(data.len() + 59 * 4, 0);
    assert_eq!(
        read_snapshot(&data, &default_words()).unwrap_err(),
        StateDecodeError::InvalidPayload
    );
    let mut data = header(2, 52, 9);
    data.resize(data.len() + 61 * 4, 0);
    assert_eq!(
        read_snapshot(&data, &default_words()).unwrap_err(),
        StateDecodeError::InvalidPayload
    );
    let mut data = header(3, 51, 8);
    data.resize(data.len() + 59 * 4, 0);
    assert_eq!(
        read_snapshot(&data, &default_words()).unwrap_err(),
        StateDecodeError::InvalidPayload
    );
}

#[test]
fn non_finite_values_are_rejected() {
    let mut data = header(3, 51, 9);
    for index in 0..(STATE_VALUE_COUNT + METER_COUNT) {
        let value = if index == 5 { f32::NAN } else { 0.25 };
        data.extend_from_slice(&value.to_le_bytes());
    }
    assert_eq!(
        read_snapshot(&data, &default_words()).unwrap_err(),
        StateDecodeError::NonFiniteValue
    );
    assert!(!is_finite_word(f32::INFINITY.to_bits()));
    assert!(!is_finite_word(f32::NEG_INFINITY.to_bits()));
    assert!(is_finite_word(f32::MAX.to_bits()));
    assert!(is_finite_word(0));
}

#[test]
fn error_messages() {
    assert_eq!(
        StateDecodeError::Io.as_message(),
        "Could not read Tension Field plugin state"
    );
    assert_eq!(
        StateDecodeError::UnsupportedVersion.as_message(),
        "Unsupported Tension Field state version"
    );
    assert_eq!(
        StateDecodeError::NonFiniteValue.as_message(),
        StateDecodeError::InvalidPayload.as_message()
    );
}
