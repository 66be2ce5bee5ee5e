use crate::error::Error;
use crate::ident::next_id;
use crate::error::ErrorKind;
use crate::ident::is_identifier;
use crate::naming::{checked_extension, checked_filename, ImageKind};
use vstd::prelude::*;
use vstd::string::StringExecFns;

verus! {

/// The two sizes an image is published in.
#[derive(Clone, Copy, Debug, PartialEq, Eq, Structural)]
pub enum Tier {
    /// Nominally 720 pixels wide.
    Medium,
    /// Nominally 320 pixels wide.
    Small,
}

impl Tier {
    /// What a tier adds to the base name of its file.
    pub open spec fn suffix(self) -> Seq<char> {
        match self {
            Tier::Medium => "_720"@,
            Tier::Small => "_320"@,
        }
    }

    /// The suffix as text.
    pub fn suffix_text(self) -> (text: &'static str)
        ensures
            text@ == self.suffix(),
    {
        match self {
            Tier::Medium => "_720",
            Tier::Small => "_320",
        }
    }
}

/// Path of a user's directory: `<root>/<user>`.
pub open spec fn user_dir_path(root: Seq<char>, user: Seq<char>) -> Seq<char> {
    root + "/"@ + user
}

/// Path of a file in a user's directory: `<root>/<user>/<file>`.
pub open spec fn user_file_path(root: Seq<char>, user: Seq<char>, file: Seq<char>) -> Seq<char> {
    user_dir_path(root, user) + "/"@ + file
}

/// Path of the staging file: `<root>/<user>/<id>.tmp.<ext>`.
pub open spec fn staging_path(
    root: Seq<char>,
    user: Seq<char>,
    id: Seq<char>,
    ext: Seq<char>,
) -> Seq<char> {
    user_dir_path(root, user) + "/"@ + id + ".tmp."@ + ext
}

/// Path of a staging file kept directly below the root:
/// `<root>/<id>.tmp.<ext>`.
pub open spec fn flat_staging_path(root: Seq<char>, id: Seq<char>, ext: Seq<char>) -> Seq<char> {
    root + "/"@ + id + ".tmp."@ + ext
}

/// Path of an image kept directly below the root: `<root>/<id>.<ext>`.
pub open spec fn flat_path(root: Seq<char>, id: Seq<char>, ext: Seq<char>) -> Seq<char> {
    root + "/"@ + id + "."@ + ext
}

/// Name of a published file: `<id>_720.<ext>` or `<id>_320.<ext>`.
pub open spec fn artifact_name(id: Seq<char>, tier: Tier, ext: Seq<char>) -> Seq<char> {
    id + tier.suffix() + "."@ + ext
}

/// Path of a published file: `<root>/<user>/<id>_720.<ext>` or
/// `<root>/<user>/<id>_320.<ext>`.
pub open spec fn artifact_path(
    root: Seq<char>,
    user: Seq<char>,
    id: Seq<char>,
    tier: Tier,
    ext: Seq<char>,
) -> Seq<char> {
    user_dir_path(root, user) + "/"@ + artifact_name(id, tier, ext)
}

/// Path of a retired file: `<trash>/<id>_720.<ext>` or
/// `<trash>/<id>_320.<ext>`. The trash directory is flat: the user is not
/// part of the path.
pub open spec fn trash_path(trash: Seq<char>, id: Seq<char>, tier: Tier, ext: Seq<char>) -> Seq<
    char,
> {
    trash + "/"@ + artifact_name(id, tier, ext)
}

/// Where images are kept: the root of the per-user directories and the
/// trash directory.
#[derive(Clone, Debug)]
pub struct Store {
    pub root: String,
    pub trash: String,
}

/// A request that names a user.
#[derive(Clone, Debug)]
pub struct UserRequest {
    pub user_id: String,
}

/// What is known of an image once its field has been accepted: the base
/// name it will be stored under, its extension and format, and the path of
/// its staging file.
#[derive(Clone, Debug)]
pub struct ImageProps {
    pub img_name: String,
    pub img_ext: String,
    pub kind: ImageKind,
    pub tmp_path: String,
}

/// One rename that retires a published file.
#[derive(Clone, Debug)]
pub struct TrashMove {
    pub from: String,
    pub to: String,
}

impl Store {
    /// A store with the given root and trash directories.
    pub fn new(root: &str, trash: &str) -> (store: Store)
        ensures
            store.root@ == root@,
            store.trash@ == trash@,
    {
        Store { root: root.to_owned(), trash: trash.to_owned() }
    }

    /// The directory of `user`.
    pub fn user_dir(&self, user: &str) -> (path: String)
        ensures
            path@ == user_dir_path(self.root@, user@),
    {
        let mut path: String = self.root.clone();
        path.append("/");
        path.append(user);
        path
    }

    /// The directory of the user that `request` names.
    pub fn requested_dir(&self, request: &UserRequest) -> (path: String)
        ensures
            path@ == user_dir_path(self.root@, request.user_id@),
    {
        self.user_dir(request.user_id.as_str())
    }

    /// The path of `file` in the directory of `user`.
    pub fn user_file(&self, user: &str, file: &str) -> (path: String)
        ensures
            path@ == user_file_path(self.root@, user@, file@),
    {
        let mut path: String = self.user_dir(user);
        path.append("/");
        path.append(file);
        path
    }

    /// The path of the staging file of image `id` of `user`.
    pub fn staging_file(&self, user: &str, id: &str, ext: &str) -> (path: String)
        ensures
            path@ == staging_path(self.root@, user@, id@, ext@),
    {
        let mut path: String = self.user_dir(user);
        path.append("/");
        path.append(id);
        path.append(".tmp.");
        path.append(ext);
        path
    }

    /// The path of the staging file of image `id`, directly below the root.
    pub fn flat_staging_file(&self, id: &str, ext: &str) -> (path: String)
        ensures
            path@ == flat_staging_path(self.root@, id@, ext@),
    {
        let mut path: String = self.root.clone();
        path.append("/");
        path.append(id);
        path.append(".tmp.");
        path.append(ext);
        path
    }

    /// The path of image `id`, directly below the root.
    pub fn flat_file(&self, id: &str, ext: &str) -> (path: String)
        ensures
            path@ == flat_path(self.root@, id@, ext@),
    {
        let mut path: String = self.root.clone();
        path.append("/");
        path.append(id);
        path.append(".");
        path.append(ext);
        path
    }

    /// The path that image `id` of `user` is published under in `tier`.
    pub fn artifact_file(&self, user: &str, id: &str, tier: Tier, ext: &str) -> (path: String)
        ensures
            path@ == artifact_path(self.root@, user@, id@, tier, ext@),
    {
        let mut name: String = id.to_owned();
        name.append(tier.suffix_text());
        name.append(".");
        name.append(ext);
        let mut path: String = self.user_dir(user);
        path.append("/");
        path.append(name.as_str());
        path
    }

    /// The path that image `id` is retired to in `tier`.
    pub fn trash_file(&self, id: &str, tier: Tier, ext: &str) -> (path: String)
        ensures
            path@ == trash_path(self.trash@, id@, tier, ext@),
    {
        let mut name: String = id.to_owned();
        name.append(tier.suffix_text());
        name.append(".");
        name.append(ext);
        let mut path: String = self.trash.clone();
        path.append("/");
        path.append(name.as_str());
        path
    }

    /// The rename that retires the file of one tier of image `id` of
    /// `user`: from its published path to its path in the trash.
    pub fn trash_move(&self, user: &str, id: &str, tier: Tier, ext: &str) -> (step: TrashMove)
        ensures
            step.from@ == artifact_path(self.root@, user@, id@, tier, ext@),
            step.to@ == trash_path(self.trash@, id@, tier, ext@),
    {
        TrashMove {
            from: self.artifact_file(user, id, tier, ext),
            to: self.trash_file(id, tier, ext),
        }
    }

    /// The two renames that retire a published image, in the order they are
    /// to be made: the small file first, then the medium one.
    pub fn move_trash(&self, user: &str, id: &str, ext: &str) -> (steps: (TrashMove, TrashMove))
        ensures
            steps.0.from@ == artifact_path(self.root@, user@, id@, Tier::Small, ext@),
            steps.0.to@ == trash_path(self.trash@, id@, Tier::Small, ext@),
            steps.1.from@ == artifact_path(self.root@, user@, id@, Tier::Medium, ext@),
            steps.1.to@ == trash_path(self.trash@, id@, Tier::Medium, ext@),
    {
        (
            self.trash_move(user, id, Tier::Small, ext),
            self.trash_move(user, id, Tier::Medium, ext),
        )
    }

    /// What an image field with the given filename is stored as under base
    /// name `id`. The filename must be a stem, one dot and an accepted
    /// extension; only the extension is kept.
    pub fn image_props(&self, filename: Option<&str>, user: &str, id: &str) -> (props: Result<
        ImageProps,
        Error,
    >)
        ensures
            match checked_filename(filename) {
                Ok((ext, kind)) => props matches Ok(p) && p.img_name@ == id@ && p.img_ext@ == ext
                    && p.kind == kind && p.tmp_path@ == staging_path(self.root@, user@, id@, ext),
                Err(message) => props matches Err(e) && e.kind == ErrorKind::Validation
                    && e.message@ == message,
            },
    {
        match checked_extension(filename) {
            Ok((ext, kind)) => {
                let tmp_path: String = self.staging_file(user, id, ext.as_str());
                Ok(ImageProps { img_name: id.to_owned(), img_ext: ext, kind, tmp_path })
            },
            Err(e) => Err(e),
        }
    }

    /// Accepts an image field: checks its filename and then, only if it is
    /// accepted, gives the image a fresh base name. Which name that is
    /// cannot be said beforehand; it is an identifier, and the staging path
    /// is built from it.
    pub fn create_url(&self, filename: Option<&str>, user: &str) -> (props: Result<
        ImageProps,
        Error,
    >)
        ensures
            match checked_filename(filename) {
                Ok((ext, kind)) => props matches Ok(p) && is_identifier(p.img_name@) && p.img_ext@
                    == ext && p.kind == kind && p.tmp_path@ == staging_path(
                    self.root@,
                    user@,
                    p.img_name@,
                    ext,
                ),
                Err(message) => props matches Err(e) && e.kind == ErrorKind::Validation
                    && e.message@ == message,
            },
    {
        match checked_extension(filename) {
            Ok((ext, kind)) => {
                let id: String = next_id();
                let tmp_path: String = self.staging_file(user, id.as_str(), ext.as_str());
                Ok(ImageProps { img_name: id, img_ext: ext, kind, tmp_path })
            },
            Err(e) => Err(e),
        }
    }
}

} // verus!
