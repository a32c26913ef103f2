use corporation::buffer::stage_image_rows;
use corporation::error::GpuError;
use corporation::image::{Image, Kind, Loader, RGBA_IMAGE_STRIDE};

fn image(width: u32, height: u32) -> Image {
    let pixels: Vec<u8> = (0..(width * height * 4)).map(|i| (i % 251) as u8).collect();
    Image::from_rgba8(width, height, pixels).unwrap()
}

#[test]
fn row_pitch_is_aligned_not_tight() {
    let image = image(3, 2);
    assert_eq!(image.row_pitch(255), 256);
    assert_ne!(image.row_pitch(255), 12);
}

#[test]
fn row_pitch_of_aligned_row_is_the_row() {
    assert_eq!(image(64, 1).row_pitch(255), 256);
    assert_eq!(image(65, 1).row_pitch(255), 512);
    assert_eq!(image(3, 1).row_pitch(0), 12);
    assert_eq!(image(3, 1).row_pitch(3), 12);
    assert_eq!(image(3, 1).row_pitch(7), 16);
    assert_eq!(image(0, 0).row_pitch(255), 0);
}

#[test]
fn upload_size_is_pitch_times_height_each_time() {
    let image = image(3, 5);
    let first = image.get_upload_size(255);
    let second = image.get_upload_size(255);
    assert_eq!(first, second);
    assert_eq!(first, 256 * 5);
    assert_eq!(first, image.row_pitch(255) as u64 * 5);
}

#[test]
fn checked_upload_size_is_there_for_every_mask() {
    let image = image(3, 5);
    assert_eq!(image.checked_upload_size(255), Some(256 * 5));
    assert_eq!(image.checked_upload_size(255), image.checked_upload_size(255));
    assert_eq!(image.checked_upload_size(255), Some(image.get_upload_size(255)));
    assert_eq!(image.checked_upload_size(u32::MAX - 12), Some(60));
    assert_eq!(image.checked_upload_size(u32::MAX - 11), None);
    assert_eq!(image.checked_upload_size(u32::MAX), None);
    assert_eq!(image.get_dimensions(), (3, 5));
}

#[test]
fn upload_size_does_not_wrap_at_32_bits() {
    let tall = Image::from_rgba8(0, 0x8000_0000, Vec::new()).unwrap();
    assert_eq!(tall.get_upload_size(0), 0);
    let image = image(1, 3);
    assert_eq!(image.get_upload_size(0x7FFF_FFFF), 3 * 0x8000_0000u64);
}

#[test]
fn row_range_covers_one_tight_row() {
    let image = image(3, 4);
    assert_eq!(image.row_range(0), 0..12);
    assert_eq!(image.row_range(2), 24..36);
    assert_eq!(image.row_range(3).end, image.get_image().len());
}

#[test]
fn dimensions_and_kind_follow_the_pixels() {
    let image = image(7, 2);
    assert_eq!(image.get_dimensions(), (7, 2));
    assert_eq!(*image.get_kind(), Kind::D2(7, 2, 1, 1));
    assert_eq!(image.get_image().len(), 7 * 2 * RGBA_IMAGE_STRIDE);
    assert_eq!(image.get_image()[5], 5);
}

#[test]
fn pixels_must_fill_the_image() {
    assert_eq!(Image::from_rgba8(2, 2, vec![0; 15]).err(), Some(GpuError::Asset));
    assert_eq!(Image::from_rgba8(2, 2, vec![0; 17]).err(), Some(GpuError::Asset));
    assert_eq!(Image::from_rgba8(2, 2, vec![0; 12]).err(), Some(GpuError::Asset));
    assert!(Image::from_rgba8(2, 2, vec![0; 16]).is_ok());
    assert!(Image::from_rgba8(0, 9, Vec::new()).is_ok());
    assert_eq!(Image::from_rgba8(0xFFFF_FFFF, 0xFFFF_FFFF, vec![0; 4]).err(), Some(GpuError::Asset));
}

#[test]
fn rows_are_staged_one_pitch_apart() {
    let image = Image::from_rgba8(1, 3, vec![1, 2, 3, 4, 5, 6, 7, 8, 9, 10, 11, 12]).unwrap();
    let staged = stage_image_rows(&image, 7).unwrap();
    assert_eq!(
        staged,
        vec![1, 2, 3, 4, 0, 0, 0, 0, 5, 6, 7, 8, 0, 0, 0, 0, 9, 10, 11, 12, 0, 0, 0, 0]
    );
}

#[test]
fn tight_rows_are_staged_unchanged() {
    let image = image(2, 2);
    let staged = stage_image_rows(&image, 3).unwrap();
    assert_eq!(&staged, image.get_image());
    assert_eq!(stage_image_rows(&image, 0).unwrap().len() as u64, image.get_upload_size(0));
}

#[test]
fn staged_size_is_the_upload_size() {
    let image = image(3, 4);
    let staged = stage_image_rows(&image, 255).unwrap();
    assert_eq!(staged.len() as u64, image.get_upload_size(255));
    for y in 0..4usize {
        let range = image.row_range(y);
        assert_eq!(&staged[y * 256..y * 256 + 12], &image.get_image()[range]);
        assert!(staged[y * 256 + 12..(y + 1) * 256].iter().all(|b| *b == 0));
    }
}

#[test]
fn loader_takes_decoded_pixels() {
    let image = Loader::from_rgba8(2, 1, vec![10, 20, 30, 255, 40, 50, 60, 255]).expect("an image");
    assert_eq!(image.get_dimensions(), (2, 1));
    assert_eq!(image.get_image(), &vec![10, 20, 30, 255, 40, 50, 60, 255]);
    assert_eq!(*image.get_kind(), Kind::D2(2, 1, 1, 1));
}

#[test]
fn loader_refuses_pixels_that_do_not_fill_the_image() {
    assert!(Loader::from_rgba8(2, 1, vec![0; 7]).is_none());
    assert!(Loader::from_rgba8(2, 1, Vec::new()).is_none());
    assert!(Loader::from_rgba8(65536, 32768, vec![0; 4]).is_none());
    assert!(Loader::from_rgba8(0, 0, Vec::new()).is_some());
}
