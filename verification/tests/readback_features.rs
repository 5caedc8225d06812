//! The readback protocol over recorded poll events, byte decoding, and an
//! end-to-end pass of a synthetic detection through the compaction and
//! readback model.

use orb_core::error::DeviceError;
use orb_core::features::{count_from_bytes, parse_features, parse_u32s, u32_from_le, OrbData};
use orb_core::readback::{
    await_completion, readback_begin, readback_decision, readback_step, PollEvent,
    ReadbackOutcome, ReadbackState,
};
use orb_core::scatter::{compact_results, take_prefix};

#[test]
fn words_are_assembled_little_endian() {
    assert_eq!(u32_from_le(0x78, 0x56, 0x34, 0x12), 0x1234_5678);
    assert_eq!(u32_from_le(0xff, 0xff, 0xff, 0xff), u32::MAX);
    assert_eq!(count_from_bytes(&vec![7, 0, 0, 0]), 7);
    assert_eq!(parse_u32s(&vec![1, 0, 0, 0, 2, 0, 0, 0]), vec![1, 2]);
}

#[test]
fn feature_records_decode_as_coordinate_pairs() {
    let bytes = vec![10, 0, 0, 0, 20, 0, 0, 0, 3, 1, 0, 0, 4, 1, 0, 0];
    let feats = parse_features(&bytes);
    assert_eq!(feats.len(), 2);
    assert_eq!(feats[0], OrbData { x: 10, y: 20 });
    assert_eq!(feats[1], OrbData { x: 259, y: 260 });
}

#[test]
fn readback_blocks_until_the_signal_fires() {
    // A test double that delays the signal by N poll iterations keeps the
    // protocol waiting for all N of them; a value appears only once the
    // signal has fired, never a stale or zeroed one.
    let n = 7;
    let bytes = vec![42, 0, 0, 0];
    let mut state = readback_begin();
    for i in 0..n {
        assert_eq!(readback_decision(state, &bytes), ReadbackOutcome::KeepPolling);
        state = readback_step(state, PollEvent::Pending);
        assert_eq!(state, ReadbackState::Waiting { polls: (i + 1) as u32 });
    }
    assert_eq!(readback_decision(state, &bytes), ReadbackOutcome::KeepPolling);
    state = readback_step(state, PollEvent::SignalOk);
    assert_eq!(state, ReadbackState::Ready);
    assert_eq!(
        readback_decision(state, &bytes),
        ReadbackOutcome::Value { value: 42 }
    );
}

#[test]
fn await_completion_consumes_exactly_to_the_signal() {
    let mut events = vec![PollEvent::Pending; 5];
    events.push(PollEvent::SignalOk);
    events.push(PollEvent::Pending);
    let (state, consumed) = await_completion(&events);
    assert_eq!(state, ReadbackState::Ready);
    assert_eq!(consumed, 6);
}

#[test]
fn await_completion_without_signal_stays_blocked() {
    let events = vec![PollEvent::Pending; 4];
    let (state, consumed) = await_completion(&events);
    assert_eq!(state, ReadbackState::Waiting { polls: 4 });
    assert_eq!(consumed, 4);
}

#[test]
fn device_errors_surface_at_the_readback_point() {
    let events = vec![
        PollEvent::Pending,
        PollEvent::SignalErr { error: DeviceError::DeviceLost },
    ];
    let (state, consumed) = await_completion(&events);
    assert_eq!(state, ReadbackState::Failed { error: DeviceError::DeviceLost });
    assert_eq!(consumed, 2);
    let bytes = vec![0, 0, 0, 0];
    assert_eq!(
        readback_decision(state, &bytes),
        ReadbackOutcome::Error { error: DeviceError::DeviceLost }
    );
}

#[test]
fn single_bright_pixel_flows_through_compaction_and_readback() {
    // A synthetic 64x64 field with one detection at (10, 20): the pixel
    // lies in the 8x8 chunk at grid (1, 2), chunk index 17 of 64. Exactly
    // one entry survives compaction, at the head of the output, and the
    // readback reports a count of 1.
    let chunks = 64usize;
    let k = 64usize;
    let mut data = vec![OrbData { x: 0, y: 0 }; chunks * k];
    let mut counts = vec![0u32; chunks];
    data[17 * k] = OrbData { x: 10, y: 20 };
    counts[17] = 1;
    let (out, total) = compact_results(&data, &counts, k);
    assert_eq!(total, 1);
    let capped = take_prefix(&out, 16);
    assert_eq!(capped.len(), 1);
    assert_eq!(capped[0], OrbData { x: 10, y: 20 });

    // The count crosses the completion boundary as four little-endian
    // bytes of a mapped staging buffer.
    let staging = total.to_le_bytes().to_vec();
    let events = vec![PollEvent::Pending, PollEvent::SignalOk];
    let (state, _) = await_completion(&events);
    assert_eq!(
        readback_decision(state, &staging),
        ReadbackOutcome::Value { value: 1 }
    );
}
