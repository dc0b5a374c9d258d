use gl_text_pipe::atlas::{
    resolve_atlas_size, ClearCommand, GlGlyphTexture, Region, SubImage, CLEAR_SENTINEL, MAX_EXTENT,
};

#[test]
fn new_texture_keeps_name_and_size() {
    let texture = GlGlyphTexture::new((256, 128), 7);
    assert_eq!(texture.name, 7);
    assert_eq!(texture.dimensions(), (256, 128));
}

#[test]
fn storage_is_one_clamped_linear_red_channel() {
    let texture = GlGlyphTexture::new((256, 128), 7);
    let spec = texture.storage();
    assert_eq!(spec.name, 7);
    assert_eq!(spec.pixel_store, (gl::UNPACK_ALIGNMENT, 1));
    assert_eq!(spec.target, gl::TEXTURE_2D);
    assert_eq!(
        spec.parameters,
        [
            (gl::TEXTURE_WRAP_S, gl::CLAMP_TO_EDGE as i32),
            (gl::TEXTURE_WRAP_T, gl::CLAMP_TO_EDGE as i32),
            (gl::TEXTURE_MIN_FILTER, gl::LINEAR as i32),
            (gl::TEXTURE_MAG_FILTER, gl::LINEAR as i32),
        ]
    );
    assert_eq!(spec.level, 0);
    assert_eq!(spec.internal_format, gl::RED as i32);
    assert_eq!(spec.width, 256);
    assert_eq!(spec.height, 128);
    assert_eq!(spec.border, 0);
    assert_eq!(spec.format, gl::RED);
    assert_eq!(spec.pixel_type, gl::UNSIGNED_BYTE);
}

#[test]
fn storage_at_the_largest_extent() {
    let texture = GlGlyphTexture::new((MAX_EXTENT, 1), 1);
    let spec = texture.storage();
    assert_eq!(spec.width, i32::MAX);
    assert_eq!(spec.height, 1);
}

#[test]
fn clear_fills_with_the_sentinel() {
    let texture = GlGlyphTexture::new((64, 64), 3);
    assert_eq!(CLEAR_SENTINEL, 12);
    assert_eq!(
        texture.clear(),
        ClearCommand {
            name: 3,
            target: gl::TEXTURE_2D,
            level: 0,
            format: gl::RED,
            pixel_type: gl::UNSIGNED_BYTE,
            value: 12,
        }
    );
}

#[test]
fn region_inside_the_texture_fits() {
    let texture = GlGlyphTexture::new((64, 32), 3);
    let region = Region { min: (10, 4), max: (30, 14) };
    assert!(texture.fits(region, 200));
    assert!(texture.fits(Region { min: (0, 0), max: (64, 32) }, 64 * 32));
    assert!(texture.fits(Region { min: (5, 5), max: (5, 5) }, 0));
}

#[test]
fn region_beyond_the_texture_does_not_fit() {
    let texture = GlGlyphTexture::new((64, 32), 3);
    assert!(!texture.fits(Region { min: (60, 0), max: (65, 1) }, 5));
    assert!(!texture.fits(Region { min: (0, 30), max: (1, 33) }, 3));
}

#[test]
fn region_with_wrong_data_length_does_not_fit() {
    let texture = GlGlyphTexture::new((64, 32), 3);
    let region = Region { min: (10, 4), max: (30, 14) };
    assert!(!texture.fits(region, 199));
    assert!(!texture.fits(region, 201));
    assert!(!texture.fits(region, 0));
}

#[test]
fn region_with_swapped_corners_does_not_fit() {
    let texture = GlGlyphTexture::new((64, 32), 3);
    assert!(!texture.fits(Region { min: (30, 4), max: (10, 14) }, 200));
    assert!(!texture.fits(Region { min: (10, 14), max: (30, 4) }, 200));
}

#[test]
fn upload_region_uses_offset_and_extent() {
    let texture = GlGlyphTexture::new((64, 32), 9);
    let region = Region { min: (10, 4), max: (30, 14) };
    assert_eq!(
        texture.upload_region(region, 200),
        SubImage {
            name: 9,
            target: gl::TEXTURE_2D,
            level: 0,
            x: 10,
            y: 4,
            width: 20,
            height: 10,
            format: gl::RED,
            pixel_type: gl::UNSIGNED_BYTE,
        }
    );
}

#[test]
fn destroy_gives_the_name_to_delete() {
    let texture = GlGlyphTexture::new((64, 32), 9);
    assert_eq!(texture.destroy(), 9);
}

#[test]
fn suggestion_within_device_max_is_taken() {
    assert_eq!(resolve_atlas_size((512, 512), (256, 256), 4096), (512, 512));
    assert_eq!(resolve_atlas_size((4096, 4096), (2048, 2048), 4096), (4096, 4096));
    assert_eq!(resolve_atlas_size((512, 1024), (256, 256), 4096), (512, 1024));
}

#[test]
fn oversized_suggestion_grows_to_device_max() {
    assert_eq!(resolve_atlas_size((8192, 8192), (2048, 2048), 4096), (4096, 4096));
    assert_eq!(resolve_atlas_size((8192, 100), (2048, 2048), 4096), (4096, 4096));
    assert_eq!(resolve_atlas_size((100, 8192), (4096, 2048), 4096), (4096, 4096));
    assert_eq!(resolve_atlas_size((4097, 4096), (4095, 4096), 4096), (4096, 4096));
}

#[test]
fn oversized_suggestion_on_exhausted_device_is_taken() {
    assert_eq!(resolve_atlas_size((8192, 8192), (4096, 4096), 4096), (8192, 8192));
    assert_eq!(resolve_atlas_size((8192, 8192), (8192, 4096), 4096), (8192, 8192));
}
