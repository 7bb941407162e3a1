use magna_middleware::preprocess::imagenet::{check_raw_rgb, crop_origin, input_shape, planar_crop};

#[test]
fn raw_rgb_wrong_size_fails() {
    let data = vec![0u8; 100];
    assert!(check_raw_rgb(data.len(), 320, 240).is_err());
}

#[test]
fn raw_rgb_size_check_message_and_success() {
    let e = check_raw_rgb(100, 320, 240).unwrap_err();
    assert_eq!(
        e.to_string(),
        "Preprocessing failed: Raw RGB data size mismatch: got 100 bytes, expected 230400 for 320x240"
    );
    assert!(check_raw_rgb(320 * 240 * 3, 320, 240).is_ok());
}

#[test]
fn crop_origin_centres_or_keeps() {
    assert_eq!(crop_origin(224, 224, 224, 224), None);
    assert_eq!(crop_origin(299, 256, 224, 224), Some((37, 16)));
    assert_eq!(crop_origin(100, 300, 224, 224), Some((0, 38)));
    assert_eq!(input_shape(224, 160), vec![1, 3, 160, 224]);
}

#[test]
fn planar_crop_moves_channels_to_planes() {
    let w = 4usize;
    let h = 4usize;
    let mut rgb = Vec::new();
    for y in 0..h {
        for x in 0..w {
            rgb.push((10 * y + x) as u8);
            rgb.push(100 + (10 * y + x) as u8);
            rgb.push(200u8.wrapping_add((y + x) as u8));
        }
    }
    let out = planar_crop(&rgb, w, h, 2, 1);
    assert_eq!(out.len(), 12);
    assert_eq!(&out[0..4], &[11, 12, 21, 22]);
    assert_eq!(&out[4..8], &[111, 112, 121, 122]);
    assert_eq!(&out[8..12], &[202, 203, 203, 204]);
}

#[test]
fn imagenet_raw_rgb_preprocessing() {
    let w = 320u32;
    let h = 240u32;
    let data = vec![128u8; (w * h * 3) as usize];
    assert!(check_raw_rgb(data.len(), w, h).is_ok());
    assert_eq!(input_shape(224, 224), vec![1, 3, 224, 224]);
}
