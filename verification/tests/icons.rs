use aircut_desktop::icon_cache::{
    decode_icon, icon_from_decoded, icon_from_file, IconCache, IconError, IconImage,
};
use aircut_desktop::tray::{first_icon, FirstIcon};

// A 2 by 2 image with an alpha channel.
const RGBA_PNG: [u8; 79] = [
    0x89, 0x50, 0x4e, 0x47, 0x0d, 0x0a, 0x1a, 0x0a, 0x00, 0x00, 0x00, 0x0d,
    0x49, 0x48, 0x44, 0x52, 0x00, 0x00, 0x00, 0x02, 0x00, 0x00, 0x00, 0x02,
    0x08, 0x06, 0x00, 0x00, 0x00, 0x72, 0xb6, 0x0d, 0x24, 0x00, 0x00, 0x00,
    0x16, 0x49, 0x44, 0x41, 0x54, 0x78, 0xda, 0x63, 0xf8, 0xcf, 0xc0, 0xf0,
    0x1f, 0x08, 0x1b, 0x18, 0x40, 0x34, 0x97, 0x88, 0x9c, 0x06, 0x00, 0x36,
    0xa9, 0x04, 0xe1, 0x64, 0xdb, 0x4d, 0x7e, 0x00, 0x00, 0x00, 0x00, 0x49,
    0x45, 0x4e, 0x44, 0xae, 0x42, 0x60, 0x82,
];

// A 3 by 1 image without one.
const RGB_PNG: [u8; 75] = [
    0x89, 0x50, 0x4e, 0x47, 0x0d, 0x0a, 0x1a, 0x0a, 0x00, 0x00, 0x00, 0x0d,
    0x49, 0x48, 0x44, 0x52, 0x00, 0x00, 0x00, 0x03, 0x00, 0x00, 0x00, 0x01,
    0x08, 0x02, 0x00, 0x00, 0x00, 0x94, 0x82, 0x83, 0xe3, 0x00, 0x00, 0x00,
    0x12, 0x49, 0x44, 0x41, 0x54, 0x78, 0xda, 0x63, 0x60, 0x64, 0x62, 0x66,
    0x61, 0x65, 0x63, 0xe7, 0xe0, 0x04, 0x00, 0x00, 0xaf, 0x00, 0x2e, 0x63,
    0x8d, 0x34, 0x5e, 0x00, 0x00, 0x00, 0x00, 0x49, 0x45, 0x4e, 0x44, 0xae,
    0x42, 0x60, 0x82,
];

fn rgba_pixels() -> Vec<u8> {
    vec![255, 0, 0, 255, 0, 255, 0, 128, 0, 0, 255, 0, 10, 20, 30, 40]
}

#[test]
fn new_icon_takes_pixels_that_fill_it() {
    let icon = IconImage::new(rgba_pixels(), 2, 2).unwrap();
    assert_eq!(icon.width(), 2);
    assert_eq!(icon.height(), 2);
    assert_eq!(icon.rgba(), &rgba_pixels());
    assert_eq!(icon.into_parts(), (rgba_pixels(), 2, 2));
}

#[test]
fn new_icon_takes_the_empty_image() {
    assert!(IconImage::new(Vec::new(), 0, 7).is_ok());
    assert!(IconImage::new(Vec::new(), 7, 0).is_ok());
    assert!(IconImage::new(Vec::new(), 0, 0).is_ok());
}

#[test]
fn new_icon_refuses_pixels_that_do_not_fill_it() {
    assert_eq!(IconImage::new(rgba_pixels(), 2, 3), Err(IconError::BadDimensions));
    assert_eq!(IconImage::new(rgba_pixels(), 4, 4), Err(IconError::BadDimensions));
    assert_eq!(IconImage::new(vec![0; 15], 2, 2), Err(IconError::BadDimensions));
    assert_eq!(IconImage::new(vec![0; 17], 2, 2), Err(IconError::BadDimensions));
    assert_eq!(IconImage::new(vec![0; 3], 1, 1), Err(IconError::BadDimensions));
    assert_eq!(IconImage::new(Vec::new(), 1, 1), Err(IconError::BadDimensions));
    assert_eq!(IconImage::new(vec![0; 4], 0, 0), Err(IconError::BadDimensions));
}

#[test]
fn new_icon_refuses_the_largest_dimensions() {
    assert_eq!(
        IconImage::new(vec![0; 4], u32::MAX, u32::MAX),
        Err(IconError::BadDimensions)
    );
    assert_eq!(IconImage::new(Vec::new(), 1 << 31, 1 << 31), Err(IconError::BadDimensions));
    assert_eq!(IconImage::new(Vec::new(), 1 << 16, 1 << 16), Err(IconError::BadDimensions));
}

#[test]
fn clone_keeps_pixels_and_size() {
    let icon = IconImage::new(rgba_pixels(), 4, 1).unwrap();
    assert_eq!(icon.clone(), icon);
}

#[test]
fn decoder_failure_becomes_undecodable() {
    assert_eq!(
        icon_from_decoded(Err(String::from("no such format"))),
        Err(IconError::Undecodable(String::from("no such format")))
    );
}

#[test]
fn decoded_pixels_become_an_icon() {
    let icon = icon_from_decoded(Ok((rgba_pixels(), 1, 4))).unwrap();
    assert_eq!(icon.into_parts(), (rgba_pixels(), 1, 4));
}

#[test]
fn decoded_pixels_of_wrong_size_are_refused() {
    assert_eq!(icon_from_decoded(Ok((rgba_pixels(), 3, 3))), Err(IconError::BadDimensions));
}

#[test]
fn decodes_a_png_with_alpha() {
    let icon = decode_icon(&RGBA_PNG).unwrap();
    assert_eq!(icon.width(), 2);
    assert_eq!(icon.height(), 2);
    assert_eq!(icon.rgba(), &rgba_pixels());
}

#[test]
fn decodes_a_png_without_alpha_as_opaque() {
    let icon = decode_icon(&RGB_PNG).unwrap();
    assert_eq!(icon.width(), 3);
    assert_eq!(icon.height(), 1);
    assert_eq!(icon.rgba(), &vec![1, 2, 3, 255, 4, 5, 6, 255, 7, 8, 9, 255]);
}

#[test]
fn what_is_no_image_is_undecodable() {
    for bytes in [&b""[..], &b"not an image"[..], &RGBA_PNG[..40]] {
        match decode_icon(bytes) {
            Err(IconError::Undecodable(reason)) => assert!(!reason.is_empty()),
            other => panic!("expected a decoder failure, got {:?}", other),
        }
    }
}

#[test]
fn new_cache_is_empty() {
    let cache = IconCache::new();
    assert!(!cache.contains("icons/tray-ready-light.png"));
    assert_eq!(cache.get("icons/tray-ready-light.png"), None);
}

#[test]
fn first_stored_icon_stays() {
    let first = IconImage::new(rgba_pixels(), 2, 2).unwrap();
    let second = IconImage::new(vec![9; 4], 1, 1).unwrap();
    let mut cache = IconCache::new();
    assert_eq!(cache.store("a.png", first.clone()), first);
    assert_eq!(cache.store("a.png", second.clone()), first);
    assert_eq!(cache.get("a.png"), Some(first.clone()));
    assert_eq!(cache.store("b.png", second.clone()), second);
    assert_eq!(cache.get("b.png"), Some(second));
    assert_eq!(cache.get("a.png"), Some(first));
    assert!(!cache.contains("c.png"));
}

#[test]
fn file_that_was_read_is_decoded() {
    let icon = icon_from_file(Ok(RGBA_PNG.to_vec())).unwrap();
    assert_eq!(icon.into_parts(), (rgba_pixels(), 2, 2));
    assert!(matches!(icon_from_file(Ok(b"junk".to_vec())), Err(IconError::Undecodable(_))));
}

#[test]
fn file_that_was_not_read_is_unreadable() {
    assert_eq!(
        icon_from_file(Err(String::from("permission denied"))),
        Err(IconError::Unreadable(String::from("permission denied")))
    );
}

#[test]
fn load_decodes_once_and_then_answers_from_the_cache() {
    let mut cache = IconCache::new();
    let first = cache.load("icons/tray-ready-dark.png", Ok(RGBA_PNG.to_vec())).unwrap();
    assert_eq!(first.rgba(), &rgba_pixels());
    assert!(cache.contains("icons/tray-ready-dark.png"));
    // Whatever is read under the same path later, the icon that is kept is returned.
    let again = cache.load("icons/tray-ready-dark.png", Ok(RGB_PNG.to_vec())).unwrap();
    assert_eq!(again, first);
    let broken = cache.load("icons/tray-ready-dark.png", Ok(b"garbage".to_vec())).unwrap();
    assert_eq!(broken, first);
    let gone = cache.load("icons/tray-ready-dark.png", Err(String::from("gone"))).unwrap();
    assert_eq!(gone, first);
}

#[test]
fn failed_load_leaves_the_cache_alone() {
    let mut cache = IconCache::new();
    assert!(matches!(
        cache.load("x.png", Ok(b"garbage".to_vec())),
        Err(IconError::Undecodable(_))
    ));
    assert!(!cache.contains("x.png"));
    assert_eq!(
        cache.load("x.png", Err(String::from("no such file"))),
        Err(IconError::Unreadable(String::from("no such file")))
    );
    assert!(!cache.contains("x.png"));
    let icon = cache.load("x.png", Ok(RGB_PNG.to_vec())).unwrap();
    assert_eq!(icon.width(), 3);
    assert_eq!(cache.get("x.png"), Some(icon));
}

#[test]
fn keep_decoded_passes_failures_on() {
    let mut cache = IconCache::new();
    assert_eq!(
        cache.keep_decoded("x.png", Err(IconError::BadDimensions)),
        Err(IconError::BadDimensions)
    );
    assert!(!cache.contains("x.png"));
    let icon = IconImage::new(vec![0; 8], 2, 1).unwrap();
    assert_eq!(cache.keep_decoded("x.png", Ok(icon.clone())), Ok(icon.clone()));
    let other = IconImage::new(vec![1; 8], 1, 2).unwrap();
    assert_eq!(cache.keep_decoded("x.png", Ok(other)), Ok(icon));
}

#[test]
fn first_icon_is_the_loaded_one_or_the_default() {
    let icon = IconImage::new(rgba_pixels(), 2, 2).unwrap();
    assert_eq!(first_icon(Some(Ok(icon.clone()))), FirstIcon::Loaded(icon));
    assert_eq!(first_icon(Some(Err(IconError::BadDimensions))), FirstIcon::WindowDefault);
    assert_eq!(
        first_icon(Some(Err(IconError::Undecodable(String::from("bad"))))),
        FirstIcon::WindowDefault
    );
    assert_eq!(
        first_icon(Some(Err(IconError::Unreadable(String::from("locked"))))),
        FirstIcon::WindowDefault
    );
    assert_eq!(first_icon(None), FirstIcon::WindowDefault);
}
