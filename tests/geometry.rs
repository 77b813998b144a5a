use face_ident::error::FaceError;
use face_ident::image::{FaceLocation, Image, PixelRect, UNIT};

fn frame() -> Vec<Vec<u8>> {
    let mut rows = Vec::new();
    for r in 0..300usize {
        let mut row = Vec::new();
        for c in 0..900usize {
            row.push(((r * 7 + c) % 251) as u8);
        }
        rows.push(row);
    }
    rows
}

#[test]
fn coords_map_tenth_and_half() {
    let loc = FaceLocation::new(100_000_000, 100_000_000, 500_000_000, 500_000_000);
    assert_eq!(loc.coords(), (30, 30, 150, 150));
}

#[test]
fn coords_truncate_toward_zero() {
    // 0.3333334 * 300 = 100.00002; -0.001 * 300 = -0.3; -0.01 * 300 = -3
    let loc = FaceLocation::new(333_333_400, -1_000_000, -10_000_000, 1_999_999);
    assert_eq!(loc.coords(), (100, 0, -3, 0));
}

#[test]
fn coords_full_frame() {
    let loc = FaceLocation::new(0, 0, UNIT, UNIT);
    assert_eq!(loc.coords(), (0, 0, 300, 300));
    assert_eq!(loc.to_rect(), Ok(PixelRect { x: 0, y: 0, width: 300, height: 300 }));
}

#[test]
fn coords_extreme_values_do_not_overflow() {
    let loc = FaceLocation::new(i64::MAX, i64::MIN, 0, 0);
    let (x, y, _, _) = loc.coords();
    assert_eq!(x, (i64::MAX as i128 * 300 / 1_000_000_000) as i64);
    assert_eq!(y, (i64::MIN as i128 * 300 / 1_000_000_000) as i64);
    assert_eq!(loc.to_rect(), Err(FaceError::RegionOutOfBounds));
}

#[test]
fn rect_past_right_edge_is_rejected() {
    // 270 + 150 > 300: rejected, not clamped
    let loc = FaceLocation::new(900_000_000, 0, 500_000_000, 500_000_000);
    assert_eq!(loc.to_rect(), Err(FaceError::RegionOutOfBounds));
}

#[test]
fn rect_past_bottom_edge_is_rejected() {
    let loc = FaceLocation::new(0, 600_000_000, 100_000_000, 400_000_000 + 3_400_000);
    assert_eq!(loc.coords(), (0, 180, 30, 121));
    assert_eq!(loc.to_rect(), Err(FaceError::RegionOutOfBounds));
}

#[test]
fn rect_with_negative_origin_is_rejected() {
    let loc = FaceLocation::new(-100_000_000, 0, 500_000_000, 500_000_000);
    assert_eq!(loc.to_rect(), Err(FaceError::RegionOutOfBounds));
}

#[test]
fn empty_rect_is_rejected() {
    let loc = FaceLocation::new(100_000_000, 100_000_000, 3_000_000, 500_000_000);
    assert_eq!(loc.coords(), (30, 30, 0, 150));
    assert_eq!(loc.to_rect(), Err(FaceError::RegionOutOfBounds));
}

#[test]
fn frame_of_wrong_shape_is_refused() {
    let mut rows = frame();
    rows.pop();
    assert!(matches!(Image::from_rows(rows), Err(FaceError::ImageDecode)));
    let mut rows = frame();
    rows[17].push(0);
    assert!(matches!(Image::from_rows(rows), Err(FaceError::ImageDecode)));
    assert!(Image::from_rows(frame()).is_ok());
}

#[test]
fn extract_face_cuts_the_rectangle() {
    let rows = frame();
    let image = Image::from_rows(rows.clone()).ok().unwrap();
    let loc = FaceLocation::new(100_000_000, 200_000_000, 50_000_000, 10_000_000);
    let region = image.extract_face(loc).ok().unwrap();
    assert_eq!(region.bounds(), PixelRect { x: 30, y: 60, width: 15, height: 3 });
    let cut = region.rows();
    assert_eq!(cut.len(), 3);
    for i in 0..3 {
        assert_eq!(cut[i], rows[60 + i][90..135].to_vec());
    }
}

#[test]
fn extract_face_out_of_frame() {
    let image = Image::from_rows(frame()).ok().unwrap();
    let loc = FaceLocation::new(500_000_000, 500_000_000, 600_000_000, 100_000_000);
    assert!(matches!(image.extract_face(loc), Err(FaceError::RegionOutOfBounds)));
}
