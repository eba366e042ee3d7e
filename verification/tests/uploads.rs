use app_catalog::upload::fresh_stem;
use app_catalog::upload::image_part_filename;
use app_catalog::upload::image_path;
use app_catalog::upload::stored_filename;

#[test]
fn png_gets_png_extension() {
    let name = stored_filename("stem", "image/png");
    assert_eq!(name, "stem.png");
}

#[test]
fn unknown_type_gets_no_extension() {
    let name = stored_filename("stem", "application/x-no-such-type");
    assert_eq!(name, "stem");
    assert!(!name.contains('.'));
}

#[test]
fn jpeg_gets_known_extension() {
    let name = stored_filename("stem", "image/jpeg");
    let ext = name.strip_prefix("stem.").expect("an extension is appended");
    assert!(!ext.is_empty());
    assert!(!ext.contains('.'));
}

#[test]
fn fresh_stem_shape() {
    let a = fresh_stem();
    let b = fresh_stem();
    assert_eq!(a.chars().count(), 36);
    assert!(!a.contains('.'));
    assert_ne!(a, b); // two draws collide only with negligible probability
}

#[test]
fn only_the_image_part_is_stored() {
    let f = image_part_filename("image", "image/png", "abc");
    assert_eq!(f, Some("abc.png".to_string()));
    assert_eq!(image_part_filename("avatar", "image/png", "abc"), None);
    assert_eq!(image_part_filename("", "image/png", "abc"), None);
}

#[test]
fn storage_path_layout() {
    assert_eq!(image_path("app", "abc.png"), "./media/images/app/abc.png");
}
