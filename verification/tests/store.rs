use image_upload::error::ErrorKind;
use image_upload::ident::check_identifier;
use image_upload::naming::ImageKind;
use image_upload::store::{Store, Tier, UserRequest};

fn store() -> Store {
    Store::new("/srv/images", "/srv/trash")
}

#[test]
fn store_keeps_its_directories() {
    let store = store();
    assert_eq!(store.root, "/srv/images");
    assert_eq!(store.trash, "/srv/trash");
}

#[test]
fn user_directory_is_below_the_root() {
    assert_eq!(store().user_dir("u1"), "/srv/images/u1");
    let request = UserRequest { user_id: "u2".to_string() };
    assert_eq!(store().requested_dir(&request), "/srv/images/u2");
}

#[test]
fn user_file_is_in_the_user_directory() {
    assert_eq!(store().user_file("u1", "abc_720.png"), "/srv/images/u1/abc_720.png");
}

#[test]
fn staging_file_carries_the_tmp_marker() {
    assert_eq!(store().staging_file("u1", "abc", "png"), "/srv/images/u1/abc.tmp.png");
}

#[test]
fn published_files_carry_the_tier() {
    assert_eq!(store().artifact_file("u1", "abc", Tier::Medium, "jpg"), "/srv/images/u1/abc_720.jpg");
    assert_eq!(store().artifact_file("u1", "abc", Tier::Small, "jpg"), "/srv/images/u1/abc_320.jpg");
    assert_eq!(Tier::Medium.suffix_text(), "_720");
    assert_eq!(Tier::Small.suffix_text(), "_320");
}

#[test]
fn trash_is_flat() {
    assert_eq!(store().trash_file("abc", Tier::Medium, "png"), "/srv/trash/abc_720.png");
    assert_eq!(store().trash_file("abc", Tier::Small, "png"), "/srv/trash/abc_320.png");
}

#[test]
fn retiring_renames_small_then_medium() {
    let (first, second) = store().move_trash("u1", "abc", "png");
    assert_eq!(first.from, "/srv/images/u1/abc_320.png");
    assert_eq!(first.to, "/srv/trash/abc_320.png");
    assert_eq!(second.from, "/srv/images/u1/abc_720.png");
    assert_eq!(second.to, "/srv/trash/abc_720.png");
    let one = store().trash_move("u9", "x", Tier::Medium, "jpeg");
    assert_eq!(one.from, "/srv/images/u9/x_720.jpeg");
    assert_eq!(one.to, "/srv/trash/x_720.jpeg");
}

#[test]
fn image_props_keep_only_the_extension_of_the_filename() {
    let props = store().image_props(Some("holiday.jpeg"), "u1", "abc").unwrap();
    assert_eq!(props.img_name, "abc");
    assert_eq!(props.img_ext, "jpeg");
    assert_eq!(props.kind, ImageKind::Jpeg);
    assert_eq!(props.tmp_path, "/srv/images/u1/abc.tmp.jpeg");
}

#[test]
fn image_props_reject_a_bad_filename() {
    let missing = store().image_props(None, "u1", "abc").unwrap_err();
    assert_eq!(missing.get_kind(), ErrorKind::Validation);
    assert_eq!(missing.get_message(), "could not get metadata filename.");
    let split = store().image_props(Some("holiday"), "u1", "abc").unwrap_err();
    assert_eq!(split.get_message(), "error in splitting filename.");
    let ext = store().image_props(Some("holiday.bmp"), "u1", "abc").unwrap_err();
    assert_eq!(ext.get_message(), "INVALID_EXT");
}

#[test]
fn create_url_names_the_image_afresh() {
    let first = store().create_url(Some("holiday.png"), "u1").unwrap();
    let second = store().create_url(Some("holiday.png"), "u1").unwrap();
    assert!(check_identifier(&first.img_name));
    assert!(check_identifier(&second.img_name));
    assert!(first.img_name != second.img_name);
    assert_eq!(first.img_ext, "png");
    assert_eq!(first.kind, ImageKind::Png);
    assert_eq!(first.tmp_path, format!("/srv/images/u1/{}.tmp.png", first.img_name));
}

#[test]
fn create_url_rejects_a_bad_filename() {
    assert_eq!(store().create_url(None, "u1").unwrap_err().get_message(), "could not get metadata filename.");
    assert_eq!(store().create_url(Some("a.b.png"), "u1").unwrap_err().get_message(), "error in splitting filename.");
    assert_eq!(store().create_url(Some("a.txt"), "u1").unwrap_err().get_message(), "INVALID_EXT");
}

#[test]
fn flat_files_are_directly_below_the_root() {
    assert_eq!(store().flat_staging_file("abc", "png"), "/srv/images/abc.tmp.png");
    assert_eq!(store().flat_file("abc", "png"), "/srv/images/abc.png");
    let slashed = Store::new("/srv/images/", "/srv/trash");
    assert_eq!(slashed.flat_file("abc", "jpg"), "/srv/images//abc.jpg");
}
