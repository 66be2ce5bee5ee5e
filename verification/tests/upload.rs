use image_upload::demux::{Action, Phase, Rejection};
use image_upload::error::ErrorKind;
use image_upload::geometry::CropRect;
use image_upload::ident::check_identifier;
use image_upload::metadata::{RequestMetadata, RequestMetadataUpdate};
use image_upload::naming::ImageKind;
use image_upload::publish::{
    directory_outcome, publish_plan, respond, retire_plan, staging_outcome, DirAttempt, FsStep,
};
use image_upload::raster::Raster;
use image_upload::store::Store;
use image_upload::upload::Upload;
use std::collections::BTreeMap;
use std::io::Cursor;

fn store() -> Store {
    Store::new("/srv/images", "/srv/trash")
}

fn staged_png(width: u32, height: u32) -> Vec<u8> {
    let picture = image::RgbaImage::from_fn(width, height, |x, y| {
        image::Rgba([(x % 256) as u8, (y % 256) as u8, 7, 255])
    });
    let mut sink = Cursor::new(Vec::new());
    picture.write_to(&mut sink, image::ImageFormat::Png).unwrap();
    sink.into_inner()
}

fn metadata(x: u32, y: u32, width: u32, height: u32, user: &str) -> RequestMetadata {
    RequestMetadata { x, y, width, height, user_id: user.to_string(), post_id: None }
}

fn run_plan(files: &mut BTreeMap<String, Vec<u8>>, plan: &[FsStep]) -> bool {
    for step in plan {
        match step {
            FsStep::Write { path, bytes } => {
                files.insert(path.clone(), bytes.clone());
            }
            FsStep::Remove { path } => {
                if files.remove(path).is_none() {
                    return false;
                }
            }
            FsStep::Rename { from, to } => match files.remove(from) {
                Some(bytes) => {
                    files.insert(to.clone(), bytes);
                }
                None => return false,
            },
        }
    }
    true
}

#[test]
fn upload_runs_from_metadata_to_response() {
    let store = store();
    let mut upload = Upload::new();
    assert_eq!(upload.phase, Phase::Start);
    assert_eq!(upload.on_field(Some("metadata")), Action::ParseMetadata);
    upload.on_metadata(&metadata(0, 0, 1000, 800, "u1"));
    assert_eq!(upload.phase, Phase::AwaitingImage);
    assert_eq!(upload.crop, Some(CropRect { x: 0, y: 0, width: 1000, height: 800 }));
    assert_eq!(upload.on_field(Some("image")), Action::StageImage);
    let plan = upload.on_image(&store, Some("holiday.png")).unwrap();
    assert_eq!(plan.ensure_dir.as_deref(), Some("/srv/images/u1"));
    let props = upload.props.clone().unwrap();
    assert!(check_identifier(&props.img_name));
    assert_eq!(props.img_ext, "png");
    assert_eq!(props.kind, ImageKind::Png);
    assert_eq!(plan.tmp_path, format!("/srv/images/u1/{}.tmp.png", props.img_name));
    assert!(upload.on_staged(4).is_ok());
    assert_eq!(upload.phase, Phase::Complete);

    let staged = staged_png(1000, 800);
    let (steps, body) = upload.conclude(&store, &staged).unwrap();
    assert_eq!(body.img_name, props.img_name);
    assert_eq!(body.img_ext, "png");
    assert_eq!(body.img_md, Some(576));
    assert_eq!(body.img_sm, Some(256));
    assert_eq!(body.img_lg, None);
    assert_eq!(steps.len(), 3);
    match &steps[0] {
        FsStep::Write { path, bytes } => {
            assert_eq!(*path, format!("/srv/images/u1/{}_720.png", props.img_name));
            assert_eq!(image::load_from_memory(bytes).unwrap().into_rgba8().dimensions(), (720, 576));
        }
        other => panic!("unexpected step {:?}", other),
    }
    match &steps[1] {
        FsStep::Write { path, bytes } => {
            assert_eq!(*path, format!("/srv/images/u1/{}_320.png", props.img_name));
            assert_eq!(image::load_from_memory(bytes).unwrap().into_rgba8().dimensions(), (320, 256));
        }
        other => panic!("unexpected step {:?}", other),
    }
    match &steps[2] {
        FsStep::Remove { path } => assert_eq!(*path, plan.tmp_path),
        other => panic!("unexpected step {:?}", other),
    }
}

#[test]
fn staging_file_is_gone_after_a_successful_upload() {
    let store = store();
    let mut upload = Upload::new();
    upload.on_field(Some("metadata"));
    upload.on_metadata(&metadata(10, 10, 100, 80, "u1"));
    upload.on_field(Some("image"));
    let plan = upload.on_image(&store, Some("a.png")).unwrap();
    upload.on_staged(1).unwrap();
    let staged = staged_png(200, 100);
    let mut files = BTreeMap::new();
    files.insert(plan.tmp_path.clone(), staged.clone());
    let (steps, body) = upload.conclude(&store, &staged).unwrap();
    assert!(run_plan(&mut files, &steps));
    assert!(!files.contains_key(&plan.tmp_path));
    assert!(files.contains_key(&format!("/srv/images/u1/{}_720.png", body.img_name)));
    assert!(files.contains_key(&format!("/srv/images/u1/{}_320.png", body.img_name)));
    assert_eq!(files.len(), 2);
    assert_eq!(body.img_md, Some(80));
    assert_eq!(body.img_sm, Some(80));
}

#[test]
fn update_publishes_the_new_image_and_then_retires_the_old_one() {
    let store = store();
    let mut upload = Upload::new();
    assert_eq!(upload.on_field(Some("metadata")), Action::ParseMetadata);
    upload.on_metadata_update(&RequestMetadataUpdate {
        x: 0,
        y: 0,
        width: 50,
        height: 40,
        user_id: "u1".to_string(),
        img_ext: "png".to_string(),
        img_name: "old".to_string(),
    });
    assert_eq!(upload.on_field(Some("image")), Action::StageImage);
    let plan = upload.on_image(&store, Some("new.png")).unwrap();
    assert_eq!(plan.ensure_dir, None);
    upload.on_staged(2).unwrap();
    let staged = staged_png(50, 40);

    let mut files = BTreeMap::new();
    files.insert(plan.tmp_path.clone(), staged.clone());
    files.insert("/srv/images/u1/old_720.png".to_string(), vec![1]);
    files.insert("/srv/images/u1/old_320.png".to_string(), vec![2]);

    let (steps, body) = upload.conclude(&store, &staged).unwrap();
    assert_eq!(steps.len(), 5);
    assert!(matches!(steps[0], FsStep::Write { .. }));
    assert!(matches!(steps[1], FsStep::Write { .. }));
    assert!(matches!(steps[2], FsStep::Remove { .. }));
    match &steps[3] {
        FsStep::Rename { from, to } => {
            assert_eq!(from, "/srv/images/u1/old_320.png");
            assert_eq!(to, "/srv/trash/old_320.png");
        }
        other => panic!("unexpected step {:?}", other),
    }
    match &steps[4] {
        FsStep::Rename { from, to } => {
            assert_eq!(from, "/srv/images/u1/old_720.png");
            assert_eq!(to, "/srv/trash/old_720.png");
        }
        other => panic!("unexpected step {:?}", other),
    }
    assert!(run_plan(&mut files, &steps));
    assert!(!files.contains_key("/srv/images/u1/old_720.png"));
    assert!(!files.contains_key("/srv/images/u1/old_320.png"));
    assert_eq!(files.get("/srv/trash/old_720.png"), Some(&vec![1]));
    assert_eq!(files.get("/srv/trash/old_320.png"), Some(&vec![2]));
    assert!(!files.contains_key(&plan.tmp_path));
    assert!(files.contains_key(&format!("/srv/images/u1/{}_720.png", body.img_name)));
    assert!(files.contains_key(&format!("/srv/images/u1/{}_320.png", body.img_name)));
}

#[test]
fn image_field_before_metadata_is_rejected_before_anything_is_staged() {
    let store = store();
    let mut upload = Upload::new();
    assert_eq!(upload.on_field(Some("image")), Action::Reject(Rejection::ImageBeforeMetadata));
    assert_eq!(upload.phase, Phase::Failed);
    assert!(upload.props.is_none());
    assert_eq!(upload.on_field(Some("metadata")), Action::Stop);
    upload.on_metadata(&metadata(0, 0, 1, 1, "u1"));
    assert_eq!(upload.phase, Phase::Failed);
    assert_eq!(upload.on_field(Some("image")), Action::Stop);
    let error = upload.on_image(&store, Some("a.png")).unwrap_err();
    assert_eq!(error.get_kind(), ErrorKind::Validation);
    assert!(upload.props.is_none());
    let end = upload.conclude(&store, &staged_png(4, 4)).unwrap_err();
    assert_eq!(end.get_kind(), ErrorKind::Validation);
    assert_eq!(end.get_message(), "Could not save image");
}

#[test]
fn image_accepted_out_of_turn_fails_the_request() {
    let store = store();
    let mut upload = Upload::new();
    let error = upload.on_image(&store, Some("a.png")).unwrap_err();
    assert_eq!(error.get_kind(), ErrorKind::Validation);
    assert_eq!(error.get_message(), "image field before metadata field.");
    assert_eq!(upload.phase, Phase::Failed);
}

#[test]
fn field_without_a_name_fails_the_upload() {
    let mut upload = Upload::new();
    upload.on_field(Some("metadata"));
    upload.on_metadata(&metadata(0, 0, 1, 1, "u1"));
    assert_eq!(upload.on_field(None), Action::Reject(Rejection::NoFieldName));
    assert_eq!(upload.phase, Phase::Failed);
}

#[test]
fn other_fields_are_discarded_and_first_metadata_wins() {
    let store = store();
    let mut upload = Upload::new();
    assert_eq!(upload.on_field(Some("comment")), Action::Discard);
    assert_eq!(upload.phase, Phase::AwaitingMetadata);
    assert_eq!(upload.on_field(Some("metadata")), Action::ParseMetadata);
    upload.on_metadata(&metadata(1, 2, 3, 4, "first"));
    assert_eq!(upload.on_field(Some("metadata")), Action::Discard);
    upload.on_metadata(&metadata(5, 6, 7, 8, "second"));
    assert_eq!(upload.crop, Some(CropRect { x: 1, y: 2, width: 3, height: 4 }));
    assert_eq!(upload.user_id.as_deref(), Some("first"));
    assert_eq!(upload.on_field(Some("image")), Action::StageImage);
    let plan = upload.on_image(&store, Some("a.png")).unwrap();
    assert_eq!(plan.ensure_dir.as_deref(), Some("/srv/images/first"));
    upload.on_staged(1).unwrap();
    assert_eq!(upload.on_field(Some("image")), Action::Discard);
    assert_eq!(upload.on_field(Some("metadata")), Action::Discard);
    assert_eq!(upload.phase, Phase::Complete);
}

#[test]
fn bad_filename_fails_the_upload() {
    let store = store();
    for (filename, message) in [
        (None, "could not get metadata filename."),
        (Some("holiday"), "error in splitting filename."),
        (Some("holiday.tiff"), "INVALID_EXT"),
    ] {
        let mut upload = Upload::new();
        upload.on_field(Some("metadata"));
        upload.on_metadata(&metadata(0, 0, 1, 1, "u1"));
        upload.on_field(Some("image"));
        let error = upload.on_image(&store, filename).unwrap_err();
        assert_eq!(error.get_kind(), ErrorKind::Validation);
        assert_eq!(error.get_message(), message);
        assert_eq!(upload.phase, Phase::Failed);
        assert!(upload.props.is_none());
    }
}

#[test]
fn image_field_without_bytes_fails_the_upload() {
    let store = store();
    let mut upload = Upload::new();
    upload.on_field(Some("metadata"));
    upload.on_metadata(&metadata(0, 0, 1, 1, "u1"));
    upload.on_field(Some("image"));
    upload.on_image(&store, Some("a.png")).unwrap();
    let error = upload.on_staged(0).unwrap_err();
    assert_eq!(error.get_kind(), ErrorKind::Io);
    assert_eq!(error.get_message(), "Could not save image.");
    assert_eq!(upload.phase, Phase::Failed);
}

#[test]
fn staging_reported_for_an_image_never_accepted_fails_the_upload() {
    let mut upload = Upload::new();
    upload.on_field(Some("metadata"));
    upload.on_metadata(&metadata(0, 0, 1, 1, "u1"));
    let error = upload.on_staged(3).unwrap_err();
    assert_eq!(error.get_kind(), ErrorKind::Validation);
    assert_eq!(upload.phase, Phase::Failed);
}

#[test]
fn stream_that_ends_before_the_image_is_incomplete() {
    let store = store();
    let mut upload = Upload::new();
    let nothing = upload.conclude(&store, &[]).unwrap_err();
    assert_eq!(nothing.get_message(), "Could not save image");
    upload.on_field(Some("metadata"));
    upload.on_metadata(&metadata(0, 0, 1, 1, "u1"));
    let error = upload.conclude(&store, &[]).unwrap_err();
    assert_eq!(error.get_kind(), ErrorKind::Validation);
    assert_eq!(error.get_message(), "Could not save image");
}

#[test]
fn failure_of_the_runner_fails_the_upload() {
    let mut upload = Upload::new();
    upload.on_field(Some("metadata"));
    upload.on_broken();
    assert_eq!(upload.phase, Phase::Failed);
    assert_eq!(upload.on_field(Some("image")), Action::Stop);
}

#[test]
fn crop_outside_the_staged_image_fails_the_upload() {
    let store = store();
    let mut upload = Upload::new();
    upload.on_field(Some("metadata"));
    upload.on_metadata(&metadata(900, 0, 500, 100, "u1"));
    upload.on_field(Some("image"));
    upload.on_image(&store, Some("a.png")).unwrap();
    upload.on_staged(1).unwrap();
    let error = upload.conclude(&store, &staged_png(1000, 800)).unwrap_err();
    assert_eq!(error.get_kind(), ErrorKind::Geometry);
}

#[test]
fn staged_bytes_that_are_no_image_fail_the_upload() {
    let store = store();
    let mut upload = Upload::new();
    upload.on_field(Some("metadata"));
    upload.on_metadata(&metadata(0, 0, 1, 1, "u1"));
    upload.on_field(Some("image"));
    upload.on_image(&store, Some("a.png")).unwrap();
    upload.on_staged(1).unwrap();
    let error = upload.conclude(&store, b"plain text").unwrap_err();
    assert_eq!(error.get_kind(), ErrorKind::Decode);
}

#[test]
fn image_named_as_another_format_fails_the_upload() {
    let store = store();
    let mut upload = Upload::new();
    upload.on_field(Some("metadata"));
    upload.on_metadata(&metadata(0, 0, 4, 4, "u1"));
    upload.on_field(Some("image"));
    upload.on_image(&store, Some("a.jpg")).unwrap();
    upload.on_staged(1).unwrap();
    let error = upload.conclude(&store, &staged_png(8, 8)).unwrap_err();
    assert_eq!(error.get_kind(), ErrorKind::Decode);
}

#[test]
fn decoded_image_concludes_the_upload() {
    let store = store();
    let mut upload = Upload::new();
    upload.on_field(Some("metadata"));
    upload.on_metadata(&metadata(1, 1, 2, 2, "u1"));
    upload.on_field(Some("image"));
    let plan = upload.on_image(&store, Some("a.png")).unwrap();
    upload.on_staged(1).unwrap();
    let pixels: Vec<u8> = (0..64).collect();
    let source = Raster { width: 4, height: 4, pixels };
    let (steps, body) = upload.conclude_decoded(&store, &source).unwrap();
    assert_eq!(body.img_md, Some(2));
    assert_eq!(body.img_sm, Some(2));
    assert_eq!(steps.len(), 3);
    match &steps[0] {
        FsStep::Write { path, bytes } => {
            assert_eq!(*path, format!("/srv/images/u1/{}_720.png", body.img_name));
            let written = image::load_from_memory(bytes).unwrap().into_rgba8();
            assert_eq!(written.dimensions(), (2, 2));
            assert_eq!(
                written.into_raw(),
                vec![20, 21, 22, 23, 24, 25, 26, 27, 36, 37, 38, 39, 40, 41, 42, 43]
            );
        }
        other => panic!("unexpected step {:?}", other),
    }
    match &steps[2] {
        FsStep::Remove { path } => assert_eq!(*path, plan.tmp_path),
        other => panic!("unexpected step {:?}", other),
    }
    let malformed = Raster { width: 4, height: 4, pixels: vec![0; 3] };
    let error = upload.conclude_decoded(&store, &malformed).unwrap_err();
    assert_eq!(error.get_kind(), ErrorKind::Decode);
}

#[test]
fn rejected_filename_draws_no_name() {
    let store = store();
    assert!(store.create_url(Some("a.b.c"), "u1").is_err());
    assert!(store.create_url(None, "u1").is_err());
    let props = store.create_url(Some("a.png"), "u1").unwrap();
    assert!(check_identifier(&props.img_name));
}

#[test]
fn directory_that_exists_is_no_error() {
    assert!(directory_outcome(DirAttempt::Present, "").is_ok());
    assert!(directory_outcome(DirAttempt::Created, "").is_ok());
    assert!(directory_outcome(DirAttempt::AlreadyExists, "File exists (os error 17)").is_ok());
    let error = directory_outcome(DirAttempt::Refused, "Permission denied (os error 13)").unwrap_err();
    assert_eq!(error.get_kind(), ErrorKind::Io);
    assert_eq!(error.get_message(), "Permission denied (os error 13)");
}

#[test]
fn two_first_uploads_of_one_user_both_pass_the_directory_step() {
    let mut directories = std::collections::BTreeSet::new();
    let dir = store().user_dir("newcomer");
    let first = if directories.insert(dir.clone()) { DirAttempt::Created } else { DirAttempt::AlreadyExists };
    let second = if directories.insert(dir.clone()) { DirAttempt::Created } else { DirAttempt::AlreadyExists };
    assert_eq!(first, DirAttempt::Created);
    assert_eq!(second, DirAttempt::AlreadyExists);
    assert!(directory_outcome(first, "").is_ok());
    assert!(directory_outcome(second, "File exists (os error 17)").is_ok());
    assert_eq!(directories.len(), 1);
}

#[test]
fn staging_needs_at_least_one_chunk() {
    assert!(staging_outcome(1).is_ok());
    assert!(staging_outcome(usize::MAX).is_ok());
    let error = staging_outcome(0).unwrap_err();
    assert_eq!(error.get_kind(), ErrorKind::Io);
    assert_eq!(error.get_message(), "Could not save image.");
}

#[test]
fn publish_plan_writes_both_files_before_it_deletes_the_staging_file() {
    let store = store();
    let props = store.image_props(Some("a.png"), "u1", "abc").unwrap();
    let files = image_upload::derivation::derive(
        &staged_png(20, 10),
        CropRect { x: 0, y: 0, width: 20, height: 10 },
        ImageKind::Png,
    )
    .unwrap();
    let medium = files.medium.clone();
    let small = files.small.clone();
    let plan = publish_plan(&store, "u1", &props, files);
    assert_eq!(plan.len(), 3);
    match (&plan[0], &plan[1], &plan[2]) {
        (
            FsStep::Write { path: first, bytes: first_bytes },
            FsStep::Write { path: second, bytes: second_bytes },
            FsStep::Remove { path: third },
        ) => {
            assert_eq!(first, "/srv/images/u1/abc_720.png");
            assert_eq!(*first_bytes, medium);
            assert_eq!(second, "/srv/images/u1/abc_320.png");
            assert_eq!(*second_bytes, small);
            assert_eq!(third, "/srv/images/u1/abc.tmp.png");
        }
        other => panic!("unexpected plan {:?}", other),
    }
}

#[test]
fn retire_plan_is_two_renames() {
    let plan = retire_plan(&store(), "u1", "abc", "jpg");
    assert_eq!(plan.len(), 2);
    match (&plan[0], &plan[1]) {
        (FsStep::Rename { from: a, to: b }, FsStep::Rename { from: c, to: d }) => {
            assert_eq!(a, "/srv/images/u1/abc_320.jpg");
            assert_eq!(b, "/srv/trash/abc_320.jpg");
            assert_eq!(c, "/srv/images/u1/abc_720.jpg");
            assert_eq!(d, "/srv/trash/abc_720.jpg");
        }
        other => panic!("unexpected plan {:?}", other),
    }
}

#[test]
fn response_reports_the_two_heights() {
    let props = store().image_props(Some("a.jpg"), "u1", "abc").unwrap();
    let sizes = image_upload::geometry::derive_sizes(1000, 800);
    let body = respond(&props, sizes);
    assert_eq!(body.img_name, "abc");
    assert_eq!(body.img_ext, "jpg");
    assert_eq!(body.img_md, Some(576));
    assert_eq!(body.img_sm, Some(256));
    assert_eq!(body.img_lg, None);
}

#[test]
fn metadata_gives_its_crop() {
    let meta = metadata(1, 2, 3, 4, "u1");
    assert_eq!(meta.crop(), CropRect { x: 1, y: 2, width: 3, height: 4 });
}
