use dxcapture::Capture;
use dxcapture::CaptureError;
use dxcapture::RawFrameData;
use dxcapture::StagingTexture;
use dxcapture::TextureDesc;
use dxcapture::capture::extract_packed;
use dxcapture::capture::validate_desc;

fn staging_desc(width: u32, height: u32) -> TextureDesc {
    TextureDesc {
        width,
        height,
        format: 87,
        usage: 3,
        bind_flags: 0,
        cpu_access_flags: 0x20000,
        misc_flags: 0,
    }
}

#[test]
fn valid_staging_desc_accepted() {
    assert!(validate_desc(&staging_desc(4, 4)).is_ok());
}

#[test]
fn unsupported_format_rejected() {
    let mut desc = staging_desc(4, 4);
    desc.format = 10;
    assert_eq!(
        validate_desc(&desc).unwrap_err(),
        CaptureError::UnsupportedPixelFormat(10)
    );
}

#[test]
fn non_staging_usage_rejected() {
    let mut desc = staging_desc(4, 4);
    desc.usage = 0;
    assert_eq!(validate_desc(&desc).unwrap_err(), CaptureError::UnsupportedBufferType);
}

#[test]
fn missing_cpu_read_rejected() {
    let mut desc = staging_desc(4, 4);
    desc.cpu_access_flags = 0;
    assert_eq!(validate_desc(&desc).unwrap_err(), CaptureError::DeniedAccessCpuRead);
}

#[test]
fn format_is_checked_before_usage() {
    let mut desc = staging_desc(4, 4);
    desc.format = 28;
    desc.usage = 0;
    desc.cpu_access_flags = 0;
    assert_eq!(
        validate_desc(&desc).unwrap_err(),
        CaptureError::UnsupportedPixelFormat(28)
    );
}

#[test]
fn usage_is_checked_before_cpu_access() {
    let mut desc = staging_desc(4, 4);
    desc.usage = 1;
    desc.cpu_access_flags = 0;
    assert_eq!(validate_desc(&desc).unwrap_err(), CaptureError::UnsupportedBufferType);
}

#[test]
fn to_staging_derives_readable_copy_description() {
    let frame_desc = TextureDesc {
        width: 640,
        height: 480,
        format: 87,
        usage: 0,
        bind_flags: 8,
        cpu_access_flags: 0,
        misc_flags: 2,
    };
    let staging = frame_desc.to_staging();
    assert_eq!(staging.width, 640);
    assert_eq!(staging.height, 480);
    assert_eq!(staging.format, 87);
    assert_eq!(staging.usage, 3);
    assert_eq!(staging.bind_flags, 0);
    assert_eq!(staging.cpu_access_flags, 0x20000);
    assert_eq!(staging.misc_flags, 0);
}

#[test]
fn extraction_with_identity_pitch_copies_all_bytes() {
    let bytes: Vec<u8> = (0u8..24).collect();
    let texture = StagingTexture { desc: staging_desc(3, 2), row_pitch: 12, bytes: bytes.clone() };
    assert_eq!(extract_packed(&texture), bytes);
}

#[test]
fn row_pitch_padding_is_removed() {
    // Width 2 means 8 packed bytes per row; a pitch of 12 leaves 4 bytes of
    // hardware padding after each row, which must not reach the output.
    let mut bytes = Vec::new();
    for row in 0u8..3 {
        for col in 0u8..8 {
            bytes.push(10 * row + col);
        }
        bytes.extend_from_slice(&[0xEE, 0xEE, 0xEE, 0xEE]);
    }
    let texture = StagingTexture { desc: staging_desc(2, 3), row_pitch: 12, bytes };
    let packed = extract_packed(&texture);
    let expected: Vec<u8> = vec![
        0, 1, 2, 3, 4, 5, 6, 7, 10, 11, 12, 13, 14, 15, 16, 17, 20, 21, 22, 23, 24, 25, 26, 27,
    ];
    assert_eq!(packed, expected);
}

#[test]
fn surface_to_data_packs_and_sizes_the_frame() {
    let capture = Capture::new(Ok(())).unwrap();
    let mut bytes = vec![0u8; 3 * 16];
    for (i, b) in bytes.iter_mut().enumerate() {
        *b = i as u8;
    }
    let texture = StagingTexture { desc: staging_desc(2, 3), row_pitch: 16, bytes };
    let frame = capture.surface_to_data(&texture).unwrap();
    assert_eq!(frame.width, 2);
    assert_eq!(frame.height, 3);
    assert_eq!(frame.data.len(), 2 * 3 * 4);
    assert_eq!(
        frame.data,
        vec![0, 1, 2, 3, 4, 5, 6, 7, 16, 17, 18, 19, 20, 21, 22, 23, 32, 33, 34, 35, 36, 37, 38, 39]
    );
}

#[test]
fn surface_to_data_rejects_bad_descriptions() {
    let capture = Capture::new(Ok(())).unwrap();
    let mut desc = staging_desc(1, 1);
    desc.format = 2;
    let texture = StagingTexture { desc, row_pitch: 8, bytes: vec![0; 8] };
    assert_eq!(
        capture.surface_to_data(&texture).unwrap_err(),
        CaptureError::UnsupportedPixelFormat(2)
    );
}

#[test]
fn zero_sized_frame_extracts_to_empty_buffer() {
    let texture = StagingTexture { desc: staging_desc(0, 0), row_pitch: 0, bytes: Vec::new() };
    let capture = Capture::new(Ok(())).unwrap();
    let frame = capture.surface_to_data(&texture).unwrap();
    assert_eq!(frame.width, 0);
    assert_eq!(frame.height, 0);
    assert!(frame.data.is_empty());
}

#[test]
fn to_rgba_swaps_blue_and_red() {
    let frame = RawFrameData { width: 2, height: 1, data: vec![1, 2, 3, 4, 5, 6, 7, 8] };
    assert_eq!(frame.to_rgba(), vec![3, 2, 1, 4, 7, 6, 5, 8]);
}

#[test]
fn default_frame_is_empty() {
    let frame = RawFrameData::default();
    assert_eq!(frame.width, 0);
    assert_eq!(frame.height, 0);
    assert!(frame.data.is_empty());
}
