use raw_loader::{
    assemble, begin, invert_sample, libraw_data_t, libraw_image_sizes_t, DecodeReport, ImageResult,
    LoadAction, LoadError, LoadEvent, LoadState,
};

/// A stand-in for the native decoder that records every call made to it.
struct MockDecoder {
    open_ok: bool,
    report: DecodeReport,
    bytes: Vec<u8>,
    metadata: libraw_data_t,
    open_calls: u32,
    handles: u32,
    decode_calls: u32,
    closes: u32,
}

impl MockDecoder {
    fn new(open_ok: bool, report: DecodeReport, bytes: Vec<u8>) -> MockDecoder {
        MockDecoder {
            open_ok,
            report,
            bytes,
            metadata: metadata(0, 0),
            open_calls: 0,
            handles: 0,
            decode_calls: 0,
            closes: 0,
        }
    }
}

fn metadata(width: u16, height: u16) -> libraw_data_t {
    libraw_data_t { sizes: libraw_image_sizes_t { width, height } }
}

fn report(status: i32, buffer_present: bool, len: i32, width: i32, height: i32) -> DecodeReport {
    DecodeReport { status, buffer_present, len, width, height }
}

fn drive(path: &str, mock: &mut MockDecoder) -> Result<ImageResult, LoadError> {
    let (mut state, mut action): (LoadState, LoadAction) = begin(path);
    loop {
        let event = match action {
            LoadAction::Finish(result) => return result,
            LoadAction::Open => {
                mock.open_calls += 1;
                if mock.open_ok {
                    mock.handles += 1;
                }
                LoadEvent::Opened { handle_valid: mock.open_ok }
            }
            LoadAction::Decode => {
                mock.decode_calls += 1;
                LoadEvent::Decoded(mock.report)
            }
            LoadAction::CopyOut { len } => {
                let n = len.min(mock.bytes.len());
                LoadEvent::Copied { pixels: mock.bytes[..n].to_vec(), metadata: mock.metadata }
            }
            LoadAction::Close => {
                mock.closes += 1;
                LoadEvent::Closed
            }
        };
        let (next, act) = state.step(event);
        state = next;
        action = act;
    }
}

fn expect_err(result: Result<ImageResult, LoadError>) -> LoadError {
    match result {
        Ok(_) => panic!("expected an error"),
        Err(e) => e,
    }
}

#[test]
fn two_by_two_buffer_is_copied_unchanged() {
    let bytes: Vec<u8> = vec![255, 0, 0, 0, 255, 0, 0, 0, 255, 255, 255, 255];
    let mut mock = MockDecoder::new(true, report(0, true, 12, 2, 2), bytes.clone());
    mock.metadata = metadata(2, 2);
    let image = match drive("photo.cr2", &mut mock) {
        Ok(image) => image,
        Err(e) => panic!("load failed: {}", e.message()),
    };
    assert_eq!(image.width(), 2);
    assert_eq!(image.height(), 2);
    assert_eq!(image.pixels(), &bytes);
    assert_eq!(image.metadata.sizes.width, 2);
    assert_eq!(image.metadata.sizes.height, 2);
    assert_eq!(mock.handles, 1);
    assert_eq!(mock.closes, 1);
}

#[test]
fn successful_load_has_three_samples_per_pixel() {
    let bytes: Vec<u8> = (0..36u8).collect();
    let mut mock = MockDecoder::new(true, report(0, true, 36, 4, 3), bytes.clone());
    let image = match drive("/data/img.nef", &mut mock) {
        Ok(image) => image,
        Err(e) => panic!("load failed: {}", e.message()),
    };
    assert!(image.width() > 0 && image.height() > 0);
    assert_eq!(image.width(), 4);
    assert_eq!(image.height(), 3);
    assert_eq!(image.pixels().len(), (image.width() * image.height() * 3) as usize);
    assert_eq!(image.pixels(), &bytes);
    assert_eq!(mock.closes, 1);
}

#[test]
fn missing_file_fails_to_open_without_release() {
    let mut mock = MockDecoder::new(false, report(0, true, 12, 2, 2), vec![0; 12]);
    let err = expect_err(drive("/no/such/file.raw", &mut mock));
    assert_eq!(err, LoadError::OpenFailed);
    assert_eq!(mock.open_calls, 1);
    assert_eq!(mock.decode_calls, 0);
    assert_eq!(mock.closes, 0);
}

#[test]
fn nonzero_status_fails_decode_with_one_release() {
    let mut mock = MockDecoder::new(true, report(-4, true, 12, 2, 2), vec![0; 12]);
    let err = expect_err(drive("broken.dng", &mut mock));
    assert_eq!(err, LoadError::DecodeFailed);
    assert_eq!(mock.handles, 1);
    assert_eq!(mock.closes, 1);
}

#[test]
fn null_buffer_fails_decode_with_one_release() {
    let mut mock = MockDecoder::new(true, report(0, false, 12, 2, 2), vec![0; 12]);
    let err = expect_err(drive("a.raw", &mut mock));
    assert_eq!(err, LoadError::DecodeFailed);
    assert_eq!(mock.closes, 1);
}

#[test]
fn empty_buffer_fails_decode_with_one_release() {
    for len in [0, -1, i32::MIN] {
        let mut mock = MockDecoder::new(true, report(0, true, len, 2, 2), vec![]);
        let err = expect_err(drive("a.raw", &mut mock));
        assert_eq!(err, LoadError::DecodeFailed);
        assert_eq!(mock.closes, 1);
    }
}

#[test]
fn size_mismatch_fails_construction_with_one_release() {
    let mut mock = MockDecoder::new(true, report(0, true, 12, 3, 2), vec![7; 12]);
    let err = expect_err(drive("a.raw", &mut mock));
    assert_eq!(err, LoadError::BufferConstructionFailed);
    assert_eq!(mock.closes, 1);
}

#[test]
fn longer_buffer_than_image_is_refused_not_truncated() {
    let mut mock = MockDecoder::new(true, report(0, true, 15, 2, 2), vec![7; 15]);
    let err = expect_err(drive("a.raw", &mut mock));
    assert_eq!(err, LoadError::BufferConstructionFailed);
    assert_eq!(mock.closes, 1);
}

#[test]
fn negative_dimensions_fail_construction() {
    let mut mock = MockDecoder::new(true, report(0, true, 12, -2, -2), vec![7; 12]);
    let err = expect_err(drive("a.raw", &mut mock));
    assert_eq!(err, LoadError::BufferConstructionFailed);
    assert_eq!(mock.closes, 1);
}

#[test]
fn short_copy_fails_construction() {
    let mut mock = MockDecoder::new(true, report(0, true, 12, 2, 2), vec![7; 9]);
    let err = expect_err(drive("a.raw", &mut mock));
    assert_eq!(err, LoadError::BufferConstructionFailed);
    assert_eq!(mock.closes, 1);
}

#[test]
fn release_balance_over_random_sequences() {
    let mut seed: u64 = 0x2545_f491_4f6c_dd1d;
    for _ in 0..500 {
        seed = seed.wrapping_mul(6364136223846793005).wrapping_add(1442695040888963407);
        let pick = (seed >> 33) % 6;
        let (open_ok, rep, bytes) = match pick {
            0 => (false, report(0, true, 12, 2, 2), vec![1; 12]),
            1 => (true, report(3, true, 12, 2, 2), vec![1; 12]),
            2 => (true, report(0, false, 12, 2, 2), vec![1; 12]),
            3 => (true, report(0, true, 0, 2, 2), vec![]),
            4 => (true, report(0, true, 12, 1, 2), vec![1; 12]),
            _ => (true, report(0, true, 6, 1, 2), vec![1; 6]),
        };
        let mut mock = MockDecoder::new(open_ok, rep, bytes);
        let result = drive("seq.raw", &mut mock);
        assert!(mock.handles <= 1);
        assert_eq!(mock.closes, mock.handles);
        assert_eq!(result.is_ok(), pick == 5);
    }
}

#[test]
fn nul_in_path_is_refused_before_opening() {
    let mut mock = MockDecoder::new(true, report(0, true, 12, 2, 2), vec![0; 12]);
    let err = expect_err(drive("bad\0path.raw", &mut mock));
    assert_eq!(err, LoadError::InvalidPath);
    assert_eq!(mock.open_calls, 0);
    assert_eq!(mock.closes, 0);
}

#[test]
fn plain_and_empty_paths_are_opened() {
    for path in ["", "x.raw", "/tmp/ünïcode.raw"] {
        let (state, action) = begin(path);
        assert!(matches!(state, LoadState::Opening));
        assert!(matches!(action, LoadAction::Open));
    }
}

#[test]
fn trailing_nul_is_refused() {
    let (state, action) = begin("x.raw\0");
    assert!(matches!(state, LoadState::Done));
    assert!(matches!(action, LoadAction::Finish(Err(LoadError::InvalidPath))));
}

#[test]
fn assemble_keeps_metadata_and_bytes() {
    let bytes: Vec<u8> = vec![1, 2, 3];
    let image = match assemble(1, 1, 3, bytes.clone(), metadata(10, 20)) {
        Ok(image) => image,
        Err(e) => panic!("assemble failed: {}", e.message()),
    };
    assert_eq!(image.pixels(), &bytes);
    assert_eq!(image.width(), 1);
    assert_eq!(image.height(), 1);
    assert_eq!(image.metadata.sizes.width, 10);
    assert_eq!(image.metadata.sizes.height, 20);
}

#[test]
fn assemble_refuses_zero_and_mismatched_sizes() {
    assert_eq!(expect_err(assemble(0, 1, 3, vec![1, 2, 3], metadata(0, 0))), LoadError::BufferConstructionFailed);
    assert_eq!(expect_err(assemble(1, 1, 3, vec![1, 2], metadata(0, 0))), LoadError::BufferConstructionFailed);
    assert_eq!(expect_err(assemble(1, 1, 4, vec![1, 2, 3, 4], metadata(0, 0))), LoadError::BufferConstructionFailed);
    assert_eq!(
        expect_err(assemble(i32::MAX, i32::MAX, 12, vec![0; 12], metadata(0, 0))),
        LoadError::BufferConstructionFailed
    );
}

#[test]
fn error_messages() {
    assert_eq!(LoadError::OpenFailed.message(), "Failed to open image with LibRaw");
    assert_eq!(LoadError::DecodeFailed.message(), "Failed to extract image data");
    assert_eq!(LoadError::BufferConstructionFailed.message(), "Failed to construct image");
    assert!(!LoadError::InvalidPath.message().is_empty());
}

#[test]
fn invert_sample_values() {
    assert_eq!(invert_sample(0), 255);
    assert_eq!(invert_sample(255), 0);
    assert_eq!(invert_sample(100), 155);
}
