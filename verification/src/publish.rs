use crate::derivation::Artifacts;
use crate::error::{Error, ErrorKind};
use crate::geometry::DerivedSizes;
use crate::store::{artifact_path, trash_path, ImageProps, Store, Tier};
use vstd::prelude::*;

verus! {

/// One change to the files on disk.
#[derive(Clone, Debug)]
pub enum FsStep {
    /// Write `bytes` to the file at `path`, replacing what is there.
    Write { path: String, bytes: Vec<u8> },
    /// Delete the file at `path`.
    Remove { path: String },
    /// Rename the file at `from` to `to`. No copy is made.
    Rename { from: String, to: String },
}

/// A change to the files on disk, as plain values.
pub enum StepView {
    Write { path: Seq<char>, bytes: Seq<u8> },
    Remove { path: Seq<char> },
    Rename { from: Seq<char>, to: Seq<char> },
}

impl View for FsStep {
    type V = StepView;

    open spec fn view(&self) -> StepView {
        match self {
            FsStep::Write { path, bytes } => StepView::Write { path: path@, bytes: bytes@ },
            FsStep::Remove { path } => StepView::Remove { path: path@ },
            FsStep::Rename { from, to } => StepView::Rename { from: from@, to: to@ },
        }
    }
}

/// The steps of a plan as plain values.
pub open spec fn views(steps: Seq<FsStep>) -> Seq<StepView> {
    steps.map_values(|step: FsStep| step@)
}

/// The body of a success response.
#[derive(Clone, Debug)]
pub struct UploadResponse {
    pub img_name: String,
    pub img_ext: String,
    pub img_md: Option<u32>,
    pub img_sm: Option<u32>,
    pub img_lg: Option<u32>,
}

/// Message of the error for a staging file that received no bytes.
pub const NO_DATA_MESSAGE: &'static str = "Could not save image.";

/// How an attempt to create a directory ended.
#[derive(Clone, Copy, Debug, PartialEq, Eq, Structural)]
pub enum DirAttempt {
    /// The directory was there already and no attempt was made.
    Present,
    /// The directory was created.
    Created,
    /// Creation was refused because the directory exists: another request
    /// created it in the meantime.
    AlreadyExists,
    /// Creation failed for another reason.
    Refused,
}

/// How publishing goes: the medium file is written, then the small one, and
/// only then the staging file is deleted.
pub open spec fn publish_steps(
    root: Seq<char>,
    user: Seq<char>,
    id: Seq<char>,
    ext: Seq<char>,
    staging: Seq<char>,
    medium: Seq<u8>,
    small: Seq<u8>,
) -> Seq<StepView> {
    seq![
        StepView::Write { path: artifact_path(root, user, id, Tier::Medium, ext), bytes: medium },
        StepView::Write { path: artifact_path(root, user, id, Tier::Small, ext), bytes: small },
        StepView::Remove { path: staging },
    ]
}

/// How a published image is retired: its small file is renamed into the
/// trash, then its medium file.
pub open spec fn retire_steps(
    root: Seq<char>,
    trash: Seq<char>,
    user: Seq<char>,
    id: Seq<char>,
    ext: Seq<char>,
) -> Seq<StepView> {
    seq![
        StepView::Rename {
            from: artifact_path(root, user, id, Tier::Small, ext),
            to: trash_path(trash, id, Tier::Small, ext),
        },
        StepView::Rename {
            from: artifact_path(root, user, id, Tier::Medium, ext),
            to: trash_path(trash, id, Tier::Medium, ext),
        },
    ]
}

/// What an attempt to create a user's directory means for the request. A
/// directory that exists, whoever created it, is no error.
pub fn directory_outcome(attempt: DirAttempt, cause: &str) -> (out: Result<(), Error>)
    ensures
        out is Ok <==> attempt != DirAttempt::Refused,
        out matches Err(e) ==> e.kind == ErrorKind::Io && e.message@ == cause@,
{
    match attempt {
        DirAttempt::Refused => Err(Error::new(ErrorKind::Io, cause)),
        _ => Ok(()),
    }
}

/// What the end of the image field means for the request: a field that
/// brought no chunk at all has failed, since no bytes are no image.
pub fn staging_outcome(chunks: usize) -> (out: Result<(), Error>)
    ensures
        out is Ok <==> chunks > 0,
        out matches Err(e) ==> e.kind == ErrorKind::Io && e.message@ == NO_DATA_MESSAGE@,
{
    if chunks > 0 {
        Ok(())
    } else {
        Err(Error::new(ErrorKind::Io, NO_DATA_MESSAGE))
    }
}

/// The steps that publish the derived files of an image and then delete its
/// staging file, in the order they are to be made.
pub fn publish_plan(store: &Store, user: &str, props: &ImageProps, files: Artifacts) -> (plan: Vec<
    FsStep,
>)
    ensures
        views(plan@) == publish_steps(
            store.root@,
            user@,
            props.img_name@,
            props.img_ext@,
            props.tmp_path@,
            files.medium@,
            files.small@,
        ),
{
    let id: &str = props.img_name.as_str();
    let ext: &str = props.img_ext.as_str();
    let mut plan: Vec<FsStep> = Vec::new();
    plan.push(
        FsStep::Write {
            path: store.artifact_file(user, id, Tier::Medium, ext),
            bytes: files.medium,
        },
    );
    plan.push(
        FsStep::Write { path: store.artifact_file(user, id, Tier::Small, ext), bytes: files.small },
    );
    plan.push(FsStep::Remove { path: props.tmp_path.clone() });
    assert(views(plan@) =~= publish_steps(
        store.root@,
        user@,
        props.img_name@,
        props.img_ext@,
        props.tmp_path@,
        files.medium@,
        files.small@,
    ));
    plan
}

/// The steps that retire a published image, in the order they are to be
/// made.
pub fn retire_plan(store: &Store, user: &str, id: &str, ext: &str) -> (plan: Vec<FsStep>)
    ensures
        views(plan@) == retire_steps(store.root@, store.trash@, user@, id@, ext@),
{
    let moves = store.move_trash(user, id, ext);
    let mut plan: Vec<FsStep> = Vec::new();
    plan.push(FsStep::Rename { from: moves.0.from, to: moves.0.to });
    plan.push(FsStep::Rename { from: moves.1.from, to: moves.1.to });
    assert(views(plan@) =~= retire_steps(store.root@, store.trash@, user@, id@, ext@));
    plan
}

/// The success response for an image stored as `props` says, with the
/// heights of its medium and small files. No large file is made.
pub fn respond(props: &ImageProps, sizes: DerivedSizes) -> (body: UploadResponse)
    ensures
        body.img_name@ == props.img_name@,
        body.img_ext@ == props.img_ext@,
        body.img_md == Some(sizes.medium_height),
        body.img_sm == Some(sizes.small_height),
        body.img_lg is None,
{
    UploadResponse {
        img_name: props.img_name.clone(),
        img_ext: props.img_ext.clone(),
        img_md: Some(sizes.medium_height),
        img_sm: Some(sizes.small_height),
        img_lg: None,
    }
}

} // verus!
