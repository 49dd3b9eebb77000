use vulpix::decimal::Decimal;
use vulpix::geometry::{face_crop_region, BoundingBox, CropRegion, ImageSize};
use vulpix::params::ImgParams;

fn no_params() -> ImgParams {
    ImgParams {
        w: None,
        h: None,
        format: None,
        blur: None,
        sharpen: None,
        enhance: None,
        facecrop: None,
        facepad: None,
    }
}

fn millis(thousandths: u32) -> Option<Decimal> {
    Some(Decimal { thousandths })
}

#[test]
fn face_crop_without_target_dimensions() {
    let size = ImageSize { width: 1000, height: 800 };
    let face = BoundingBox {
        width: Some(500_000),
        height: Some(300_000),
        left: Some(250_000),
        top: Some(100_000),
    };
    // The face is 500 by 240 pixels and wider than high, so the crop is 500
    // wide and 500 / 1.25 = 400 high. It begins at x = 250 and at
    // y = 80 - (400 - 240) / 1.5 = -26.67, cut to -26.
    assert_eq!(
        face_crop_region(size, &no_params(), &face),
        CropRegion { width: 500, height: 400, x: 250, y: -26 }
    );
}

#[test]
fn face_crop_of_a_tall_face() {
    let size = ImageSize { width: 1000, height: 800 };
    let face = BoundingBox {
        width: Some(100_000),
        height: Some(500_000),
        left: Some(400_000),
        top: Some(200_000),
    };
    // The face is 100 by 400 pixels: the crop is 400 high and 400 * 1.25 = 500
    // wide. x = 400 - (500 - 100) / 1.5 = 133.33, y = 160.
    assert_eq!(
        face_crop_region(size, &no_params(), &face),
        CropRegion { width: 500, height: 400, x: 133, y: 160 }
    );
}

#[test]
fn face_crop_with_padding() {
    let size = ImageSize { width: 1000, height: 800 };
    let face = BoundingBox {
        width: Some(500_000),
        height: Some(300_000),
        left: Some(250_000),
        top: Some(100_000),
    };
    let mut params = no_params();
    params.facepad = millis(1500);
    // Crop 500 by 400, padded to 750 by 600.
    // x = 250 - 0.5 * 500 / 2 = 125, y = 80 - 0.5 * 400 / 2 - 160 / 1.5 = -126.67.
    assert_eq!(
        face_crop_region(size, &params, &face),
        CropRegion { width: 750, height: 600, x: 125, y: -126 }
    );
}

#[test]
fn face_crop_with_target_aspect() {
    let size = ImageSize { width: 1000, height: 800 };
    let face = BoundingBox {
        width: Some(500_000),
        height: Some(300_000),
        left: Some(250_000),
        top: Some(100_000),
    };
    let mut params = no_params();
    params.w = millis(200_000);
    params.h = millis(400_000);
    // Aspect 0.5: the crop is 500 wide and 1000 high, held to 800.
    // y = 80 - (800 - 240) / 1.5 = -293.33.
    assert_eq!(
        face_crop_region(size, &params, &face),
        CropRegion { width: 500, height: 800, x: 250, y: -293 }
    );
}

#[test]
fn face_crop_with_missing_fields_takes_the_whole_image() {
    let size = ImageSize { width: 640, height: 480 };
    let face = BoundingBox { width: None, height: None, left: None, top: None };
    // The box is the whole image, 640 by 480; it is wider than high, so the
    // crop is 640 by 640 / (640 / 480) = 480, at the origin.
    assert_eq!(
        face_crop_region(size, &no_params(), &face),
        CropRegion { width: 640, height: 480, x: 0, y: 0 }
    );
}

#[test]
fn face_crop_with_shrinking_padding() {
    let size = ImageSize { width: 1000, height: 800 };
    let face = BoundingBox {
        width: Some(500_000),
        height: Some(300_000),
        left: Some(250_000),
        top: Some(100_000),
    };
    let mut params = no_params();
    params.facepad = millis(500);
    // Padded to 250 by 200. x = 250 + 0.5 * 500 / 2 = 375,
    // y = 80 + 0.5 * 400 / 2 - 106.67 = 73.33.
    assert_eq!(
        face_crop_region(size, &params, &face),
        CropRegion { width: 250, height: 200, x: 375, y: 73 }
    );
}

#[test]
fn validity_of_sizes_and_boxes() {
    assert!(ImageSize { width: 1, height: 1 }.is_valid());
    assert!(ImageSize { width: 4_294_967, height: 4_294_967 }.is_valid());
    assert!(!ImageSize { width: 0, height: 10 }.is_valid());
    assert!(!ImageSize { width: 10, height: 4_294_968 }.is_valid());
    assert!(BoundingBox { width: Some(1_000_000), height: None, left: Some(0), top: None }.is_valid());
    assert!(!BoundingBox { width: Some(1_000_001), height: None, left: None, top: None }.is_valid());
}

#[test]
fn face_crop_is_held_to_the_width_of_the_image() {
    let size = ImageSize { width: 1000, height: 800 };
    let face = BoundingBox {
        width: Some(100_000),
        height: Some(500_000),
        left: Some(400_000),
        top: Some(200_000),
    };
    let mut params = no_params();
    params.w = millis(3_000_000);
    params.h = millis(1_000_000);
    // The face is 100 by 400: the crop is 400 high and 400 * 3 = 1200 wide,
    // held to 1000. x = 400 - (1000 - 100) / 1.5 = -200, y = 160.
    assert_eq!(
        face_crop_region(size, &params, &face),
        CropRegion { width: 1000, height: 400, x: -200, y: 160 }
    );
}

#[test]
fn face_crop_of_an_empty_face() {
    let size = ImageSize { width: 1000, height: 800 };
    let face = BoundingBox { width: Some(0), height: Some(0), left: Some(500_000), top: Some(500_000) };
    assert_eq!(
        face_crop_region(size, &no_params(), &face),
        CropRegion { width: 0, height: 0, x: 500, y: 400 }
    );
}

#[test]
fn face_crop_without_padding_at_all() {
    let size = ImageSize { width: 1000, height: 800 };
    let face = BoundingBox {
        width: Some(500_000),
        height: Some(300_000),
        left: Some(250_000),
        top: Some(100_000),
    };
    let mut params = no_params();
    params.facepad = millis(0);
    // Padded to nothing. x = 250 + 500 / 2 = 500, y = 80 + 400 / 2 - 106.67 = 173.33.
    assert_eq!(
        face_crop_region(size, &params, &face),
        CropRegion { width: 0, height: 0, x: 500, y: 173 }
    );
}

#[test]
fn face_crop_at_the_limits() {
    let size = ImageSize { width: 4_294_967, height: 4_294_967 };
    let whole = BoundingBox {
        width: Some(1_000_000),
        height: Some(1_000_000),
        left: Some(1_000_000),
        top: Some(1_000_000),
    };
    let mut params = no_params();
    params.facepad = millis(1_000_000);
    // The crop is the whole image, padded a thousandfold.
    // x = 4294967 - 999 * 4294967 / 2 = -2141041049.5
    assert_eq!(
        face_crop_region(size, &params, &whole),
        CropRegion {
            width: 4_294_967_000,
            height: 4_294_967_000,
            x: -2_141_041_049,
            y: -2_141_041_049,
        }
    );
    params.w = millis(u32::MAX);
    params.h = millis(1);
    let wide = face_crop_region(size, &params, &whole);
    assert_eq!(wide.width, 4_294_967_000);
    assert_eq!(wide.height, 4_294_967_000);
    params.w = millis(1);
    params.h = millis(u32::MAX);
    // The face is as wide as high, so the crop is as high as the face and
    // height * (1 / 4294967295) wide: a thousandth of a pixel, padded to
    // just under one.
    let tall = face_crop_region(size, &params, &whole);
    assert_eq!(tall.width, 0);
    assert_eq!(tall.height, 4_294_967_000);
    let flat = BoundingBox {
        width: Some(1_000_000),
        height: Some(999_999),
        left: Some(0),
        top: Some(0),
    };
    // The face is wider than high: the crop is as wide as the image and
    // width / (1 / 4294967295) high, held to the image.
    let held = face_crop_region(size, &params, &flat);
    assert_eq!(held.width, 4_294_967_000);
    assert_eq!(held.height, 4_294_967_000);
    params.w = millis(u32::MAX);
    params.h = millis(1);
    params.facepad = millis(1000);
    // Now the crop is width / 4294967295 high: a thousandth of a pixel.
    let thin = face_crop_region(size, &params, &flat);
    assert_eq!(thin.width, 4_294_967);
    assert_eq!(thin.height, 0);
    // y = 0 - (0.001 - 4294962.7) / 1.5 = 2863308.47
    assert_eq!(thin.x, 0);
    assert_eq!(thin.y, 2_863_308);
}
