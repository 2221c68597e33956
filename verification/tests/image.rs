use dos_like::video::{blit_source_fits, poly_points_ok, Font, Image};
use dos_like::FileError;

fn sample_image() -> Image {
    let palette = vec![0u8; 768];
    let data = vec![0u8; 4 * 3];
    Image::from_parts(4, 3, 16, palette, data).expect("well-formed parts")
}

#[test]
fn from_parts_accepts_well_formed_parts() {
    let img = sample_image();
    assert_eq!(img.width(), 4);
    assert_eq!(img.height(), 3);
    assert_eq!(img.palette_count(), 16);
    assert_eq!(img.data().len(), 12);
    assert_eq!(img.raw_palette().len(), 768);
    assert_eq!(img.palette().len(), 16 * 3);
}

#[test]
fn from_parts_rejects_short_palette() {
    assert!(Image::from_parts(4, 3, 16, vec![0u8; 767], vec![0u8; 12]).is_none());
}

#[test]
fn from_parts_rejects_palette_count_over_256() {
    assert!(Image::from_parts(4, 3, 257, vec![0u8; 768], vec![0u8; 12]).is_none());
}

#[test]
fn from_parts_rejects_data_length_mismatch() {
    assert!(Image::from_parts(4, 3, 16, vec![0u8; 768], vec![0u8; 11]).is_none());
    assert!(Image::from_parts(4, 3, 16, vec![0u8; 768], vec![0u8; 13]).is_none());
}

#[test]
fn from_parts_accepts_largest_palette() {
    let img = Image::from_parts(1, 1, 256, vec![7u8; 768], vec![0u8; 1]).expect("full palette");
    assert_eq!(img.palette().len(), 768);
    assert_eq!(img.palette_color(255), (7, 7, 7));
}

#[test]
fn from_parts_accepts_empty_image() {
    let img = Image::from_parts(0, 0, 0, vec![0u8; 768], Vec::new()).expect("empty image");
    assert_eq!(img.data().len(), 0);
    assert_eq!(img.palette().len(), 0);
}

#[test]
fn pixel_round_trip() {
    let mut img = sample_image();
    img.set_pixel(2, 1, 9);
    assert_eq!(img.pixel(2, 1), 9);
    assert_eq!(img.pixel(0, 0), 0);
    assert_eq!(img.data()[1 * 4 + 2], 9);
}

#[test]
fn palette_round_trip() {
    let mut img = sample_image();
    img.set_palette_color(5, 10, 20, 30);
    assert_eq!(img.palette_color(5), (10, 20, 30));
    assert_eq!(img.palette_color(4), (0, 0, 0));
    assert_eq!(img.palette()[15..18], [10, 20, 30]);
}

#[test]
fn mutable_views_write_through() {
    let mut img = sample_image();
    img.data_mut()[5] = 3;
    assert_eq!(img.data()[5], 3);
    assert_eq!(img.pixel(1, 1), 3);
    img.raw_palette_mut()[9] = 40;
    assert_eq!(img.raw_palette()[9], 40);
    assert_eq!(img.palette_color(3), (40, 0, 0));
}

#[test]
fn blit_source_fits_boundary() {
    assert!(blit_source_fits(4, 3, 12));
    assert!(blit_source_fits(4, 3, 13));
    assert!(!blit_source_fits(4, 3, 11));
    assert!(blit_source_fits(0, 0, 0));
    assert!(!blit_source_fits(u16::MAX, u16::MAX, 4294836224));
    assert!(blit_source_fits(u16::MAX, u16::MAX, 4294836225));
}

#[test]
fn poly_points_rules() {
    assert!(!poly_points_ok(0));
    assert!(poly_points_ok(2));
    assert!(!poly_points_ok(3));
    assert!(poly_points_ok(8));
}

#[test]
fn font_defaults_and_ids() {
    assert_eq!(Font::default_8x8().id(), 1);
    assert_eq!(Font::default_8x16().id(), 2);
    assert_eq!(Font::default_9x16().id(), 3);
}

#[test]
fn font_from_id_rejects_zero() {
    assert!(Font::from_id(0).is_none());
    let f = Font::from_id(5).expect("non-zero id");
    assert_eq!(f.id(), 5);
}

#[test]
fn font_install_sentinel() {
    assert!(matches!(Font::from_install_id(0), Err(FileError::FileNotFound)));
    let f = Font::from_install_id(4).expect("non-zero id");
    assert_eq!(f.id(), 4);
}
