use overlay_shell::readback::{
    aligned_row_stride, extract_frame, from_mapped, solid_staging, staging_buffer_size,
    ReadbackError, Rgba,
};

#[test]
fn stride_is_aligned_and_covers_row() {
    for &w in &[0u32, 1, 2, 63, 64, 65, 100, 256, 1920, 3840] {
        let s = aligned_row_stride(w);
        assert!(s >= (w as u64) * 4);
        assert_eq!(s % 256, 0);
        assert!(s < (w as u64) * 4 + 256);
    }
}

#[test]
fn stride_exact_values() {
    assert_eq!(aligned_row_stride(0), 0);
    assert_eq!(aligned_row_stride(1), 256);
    assert_eq!(aligned_row_stride(64), 256);
    assert_eq!(aligned_row_stride(65), 512);
    assert_eq!(aligned_row_stride(100), 512);
    assert_eq!(aligned_row_stride(1920), 7680);
}

#[test]
fn extract_strips_row_padding() {
    // width 2: tight row is 8 bytes, aligned row is 256 bytes
    let width = 2u32;
    let height = 2u32;
    let stride = aligned_row_stride(width) as usize;
    assert_eq!(stride, 256);
    let mut bytes = vec![0xAAu8; stride * height as usize];
    for row in 0..height as usize {
        for i in 0..8 {
            bytes[row * stride + i] = (row * 8 + i) as u8;
        }
    }
    let staging = from_mapped(width, height, bytes).unwrap();
    let fb = extract_frame(&staging);
    assert_eq!(fb.width, width);
    assert_eq!(fb.height, height);
    assert_eq!(
        fb.bytes,
        vec![0u8, 1, 2, 3, 4, 5, 6, 7, 8, 9, 10, 11, 12, 13, 14, 15]
    );
    // exactly stride - width*4 bytes dropped per row
    assert_eq!(
        staging.bytes.len() - fb.bytes.len(),
        (stride - width as usize * 4) * height as usize
    );
}

#[test]
fn staging_size_is_stride_times_height() {
    assert_eq!(staging_buffer_size(100, 4), Some(2048));
    assert_eq!(staging_buffer_size(0, 7), Some(0));
    // u32::MAX wide and high exceeds 64-bit buffer sizes
    assert_eq!(staging_buffer_size(u32::MAX, u32::MAX), None);
}

#[test]
fn from_mapped_rejects_wrong_length() {
    let r = from_mapped(2, 2, vec![0u8; 100]);
    assert_eq!(r.unwrap_err(), ReadbackError::SizeMismatch);
    assert!(from_mapped(2, 2, vec![0u8; 512]).is_ok());
}

#[test]
fn solid_clear_color_round_trip() {
    let color = Rgba { r: 10, g: 20, b: 30, a: 40 };
    let staging = solid_staging(3, 2, color).unwrap();
    let fb = extract_frame(&staging);
    assert_eq!(fb.bytes.len(), 3 * 4 * 2);
    for pixel in fb.bytes.chunks(4) {
        assert_eq!(pixel, &[10, 20, 30, 40]);
    }
}

#[test]
fn zero_height_frame_is_empty() {
    let staging = from_mapped(5, 0, Vec::new()).unwrap();
    let fb = extract_frame(&staging);
    assert!(fb.bytes.is_empty());
}
