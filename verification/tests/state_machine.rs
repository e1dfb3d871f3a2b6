use flac_adapter::AdapterState;
use flac_adapter::FlacEncoder;
use flac_adapter::FlacError;

#[test]
fn construct_records_config() {
    let enc = FlacEncoder::new(44100, 16, 2, 0, 5);
    assert_eq!(enc.sample_rate(), 44100);
    assert_eq!(enc.bits_per_sample(), 16);
    assert_eq!(enc.channels(), 2);
    assert_eq!(enc.frame_length(), 0);
    assert_eq!(enc.compression_level(), 5);
    assert_eq!(enc.state(), AdapterState::Constructed);
    assert_eq!(enc.pending_len(), 0);
}

#[test]
fn init_accepted_becomes_initialized() {
    let mut enc = FlacEncoder::new(48000, 24, 2, 4096, 8);
    assert_eq!(enc.init(true, 0), Ok(()));
    assert_eq!(enc.state(), AdapterState::Initialized);
}

#[test]
fn init_rejected_reports_status() {
    let mut enc = FlacEncoder::new(8000, 32, 1, 0, 0);
    assert_eq!(
        enc.init(false, 3),
        Err(FlacError::InitializationFailure { status: 3 })
    );
    assert_eq!(enc.state(), AdapterState::Degraded);
}

#[test]
fn encode_i16_is_not_implemented() {
    let mut enc = FlacEncoder::new(44100, 16, 2, 0, 5);
    enc.init(true, 0).unwrap();
    let samples: Vec<i16> = vec![1, -2, 3, -4];
    let mut output = vec![7u8; 8];
    assert_eq!(
        enc.encode_i16(&samples, &mut output),
        Err(FlacError::NotImplemented)
    );
    assert_eq!(output, vec![7u8; 8]);
    assert_eq!(enc.state(), AdapterState::Initialized);
}

#[test]
fn encode_begin_computes_frame_count() {
    let mut enc = FlacEncoder::new(44100, 16, 2, 0, 5);
    enc.init(true, 0).unwrap();
    assert_eq!(enc.encode_i32_begin(6), Ok(3));
}

#[test]
fn encode_begin_rejects_ragged_input() {
    let mut enc = FlacEncoder::new(44100, 16, 2, 0, 5);
    enc.init(true, 0).unwrap();
    enc.push_encoded_bytes(&[9, 9]);
    assert_eq!(
        enc.encode_i32_begin(7),
        Err(FlacError::InvalidInput {
            sample_count: 7,
            channels: 2
        })
    );
    assert_eq!(enc.pending_len(), 2);
    assert_eq!(enc.state(), AdapterState::Initialized);
}

#[test]
fn encode_begin_clears_previous_output() {
    let mut enc = FlacEncoder::new(44100, 16, 2, 0, 5);
    enc.init(true, 0).unwrap();
    enc.push_encoded_bytes(&[1, 2, 3]);
    assert_eq!(enc.encode_i32_begin(4), Ok(2));
    assert_eq!(enc.pending_len(), 0);
}

#[test]
fn callback_chunks_concatenate_in_order() {
    let mut enc = FlacEncoder::new(44100, 16, 2, 0, 5);
    enc.init(true, 0).unwrap();
    enc.encode_i32_begin(2).unwrap();
    enc.push_encoded_bytes(&[0x66, 0x4c]);
    enc.push_encoded_bytes(&[]);
    enc.push_encoded_bytes(&[0x61, 0x43]);
    assert_eq!(enc.pending_len(), 4);
    assert_eq!(enc.pending_bytes(), vec![0x66, 0x4c, 0x61, 0x43]);
}

#[test]
fn finish_copies_bytes_and_reports_count() {
    let mut enc = FlacEncoder::new(44100, 16, 2, 0, 5);
    enc.init(true, 0).unwrap();
    enc.encode_i32_begin(2).unwrap();
    enc.push_encoded_bytes(&[5, 6, 7]);
    let mut out = vec![0u8; 5];
    assert_eq!(enc.encode_i32_finish(true, 0, &mut out), Ok(3));
    assert_eq!(out, vec![5, 6, 7, 0, 0]);
}

#[test]
fn finish_buffer_too_small_leaves_output_unmodified() {
    let mut enc = FlacEncoder::new(44100, 16, 2, 0, 5);
    enc.init(true, 0).unwrap();
    enc.encode_i32_begin(2).unwrap();
    enc.push_encoded_bytes(&[8, 9, 10]);
    let mut out = vec![1u8, 2u8];
    assert_eq!(
        enc.encode_i32_finish(true, 0, &mut out),
        Err(FlacError::BufferTooSmall {
            needed: 3,
            capacity: 2
        })
    );
    assert_eq!(out, vec![1, 2]);
}

#[test]
fn finish_processing_failure_reports_engine_state() {
    let mut enc = FlacEncoder::new(44100, 16, 2, 0, 5);
    enc.init(true, 0).unwrap();
    enc.encode_i32_begin(2).unwrap();
    let mut out = vec![3u8; 16];
    assert_eq!(
        enc.encode_i32_finish(false, 2, &mut out),
        Err(FlacError::ProcessingFailure { state: 2 })
    );
    assert_eq!(out, vec![3u8; 16]);
}

#[test]
fn reset_preserves_config_and_readiness() {
    let mut enc = FlacEncoder::new(44100, 16, 2, 4096, 5);
    enc.init(true, 0).unwrap();
    assert_eq!(enc.encode_i32_begin(8), Ok(4));
    enc.push_encoded_bytes(&[1, 2]);
    let mut out = vec![0u8; 4];
    assert_eq!(enc.encode_i32_finish(true, 0, &mut out), Ok(2));
    assert_eq!(enc.reset(true, 0), Ok(()));
    assert_eq!(enc.state(), AdapterState::Initialized);
    assert_eq!(enc.sample_rate(), 44100);
    assert_eq!(enc.bits_per_sample(), 16);
    assert_eq!(enc.channels(), 2);
    assert_eq!(enc.frame_length(), 4096);
    assert_eq!(enc.compression_level(), 5);
    assert_eq!(enc.encode_i32_begin(8), Ok(4));
}

#[test]
fn reset_rejected_reports_engine_state() {
    let mut enc = FlacEncoder::new(44100, 16, 2, 0, 5);
    enc.init(true, 0).unwrap();
    assert_eq!(enc.reset(false, 4), Err(FlacError::ResetFailure { state: 4 }));
    assert_eq!(enc.state(), AdapterState::Degraded);
}

#[test]
fn repeated_resets_keep_adapter_usable() {
    let mut enc = FlacEncoder::new(44100, 16, 2, 0, 5);
    enc.init(true, 0).unwrap();
    assert_eq!(enc.reset(true, 0), Ok(()));
    assert_eq!(enc.reset(true, 0), Ok(()));
    assert_eq!(enc.reset(true, 0), Ok(()));
    assert_eq!(enc.state(), AdapterState::Initialized);
    assert_eq!(enc.encode_i32_begin(6), Ok(3));
    enc.push_encoded_bytes(&[11, 12]);
    let mut out = vec![0u8; 2];
    assert_eq!(enc.encode_i32_finish(true, 0, &mut out), Ok(2));
    assert_eq!(out, vec![11, 12]);
}

#[test]
fn stereo_second_of_samples_fits_one_mebibyte() {
    let mut enc = FlacEncoder::new(44100, 16, 2, 0, 5);
    enc.init(true, 0).unwrap();
    assert_eq!(enc.encode_i32_begin(88200), Ok(44100));
    let chunk = [0xAAu8; 1000];
    let mut pushed = 0usize;
    while pushed < 40_000 {
        enc.push_encoded_bytes(&chunk);
        pushed += chunk.len();
    }
    let mut out = vec![0u8; 1_048_576];
    let n = enc.encode_i32_finish(true, 0, &mut out).unwrap();
    assert_eq!(n, 40_000);
    assert!(0 < n && n < 1_048_576);
    assert_eq!(&out[..4], &[0xAA, 0xAA, 0xAA, 0xAA]);
    assert_eq!(out[40_000], 0);
}
