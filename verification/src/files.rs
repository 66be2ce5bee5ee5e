use crate::ident::{is_hyphen_position, is_identifier, is_lower_hex};
use crate::naming::kind_of_extension;
use crate::publish::{publish_steps, retire_steps, StepView};
use crate::store::{artifact_name, artifact_path, staging_path, trash_path, user_dir_path, Tier};
use vstd::prelude::*;

verus! {

/// The files on disk: what is stored under each path.
pub type Files = Map<Seq<char>, Seq<u8>>;

/// Whether `step` can be made on `files`: a file can be deleted or renamed
/// only if it is there.
pub open spec fn can_apply(files: Files, step: StepView) -> bool {
    match step {
        StepView::Write { path, bytes } => true,
        StepView::Remove { path } => files.contains_key(path),
        StepView::Rename { from, to } => files.contains_key(from),
    }
}

/// The files after `step`.
pub open spec fn apply(files: Files, step: StepView) -> Files {
    match step {
        StepView::Write { path, bytes } => files.insert(path, bytes),
        StepView::Remove { path } => files.remove(path),
        StepView::Rename { from, to } => files.remove(from).insert(to, files[from]),
    }
}

/// The files after `steps`, made one after the other.
pub open spec fn after(files: Files, steps: Seq<StepView>) -> Files
    decreases steps.len(),
{
    if steps.len() == 0 {
        files
    } else {
        apply(after(files, steps.drop_last()), steps.last())
    }
}

/// Whether each of `steps` can be made in its turn.
pub open spec fn succeeds(files: Files, steps: Seq<StepView>) -> bool
    decreases steps.len(),
{
    if steps.len() == 0 {
        true
    } else {
        succeeds(files, steps.drop_last()) && can_apply(
            after(files, steps.drop_last()),
            steps.last(),
        )
    }
}

/// Two texts that end in tails of one length are equal only if their heads
/// are equal and their tails are.
pub proof fn lemma_equal_tails(x: Seq<char>, a: Seq<char>, y: Seq<char>, b: Seq<char>)
    requires
        x + a == y + b,
        a.len() == b.len(),
    ensures
        x == y,
        a == b,
{
    assert((x + a).len() == (y + b).len());
    assert(x =~= (x + a).subrange(0, x.len() as int));
    assert(y =~= (y + b).subrange(0, y.len() as int));
    assert(a =~= (x + a).subrange(x.len() as int, (x + a).len() as int));
    assert(b =~= (y + b).subrange(y.len() as int, (y + b).len() as int));
}

/// The two files of one image have different names, of one length.
pub proof fn lemma_tier_names_differ(id: Seq<char>, ext: Seq<char>)
    ensures
        artifact_name(id, Tier::Medium, ext) != artifact_name(id, Tier::Small, ext),
        artifact_name(id, Tier::Medium, ext).len() == artifact_name(id, Tier::Small, ext).len(),
        artifact_name(id, Tier::Medium, ext).len() == id.len() + 5 + ext.len(),
{
    reveal_strlit("_720");
    reveal_strlit("_320");
    reveal_strlit(".");
    let medium = artifact_name(id, Tier::Medium, ext);
    let small = artifact_name(id, Tier::Small, ext);
    assert(medium[id.len() as int + 1] == '7');
    assert(small[id.len() as int + 1] == '3');
}

/// The staging file of an image is neither of its published files.
pub proof fn lemma_staging_is_no_artifact(
    root: Seq<char>,
    user: Seq<char>,
    id: Seq<char>,
    ext: Seq<char>,
    tier: Tier,
)
    ensures
        staging_path(root, user, id, ext) != artifact_path(root, user, id, tier, ext),
{
    reveal_strlit("_720");
    reveal_strlit("_320");
    reveal_strlit(".");
    reveal_strlit(".tmp.");
    let head = user_dir_path(root, user) + "/"@;
    let staged = staging_path(root, user, id, ext);
    let published = artifact_path(root, user, id, tier, ext);
    let at: int = head.len() as int + id.len() as int;
    assert(staged[at] == '.');
    assert(artifact_name(id, tier, ext)[id.len() as int] == '_');
    assert(published[at] == artifact_name(id, tier, ext)[id.len() as int]);
}

/// A published file and a retired file are one only if the user's
/// directory is the trash directory.
pub proof fn lemma_trash_is_elsewhere(
    root: Seq<char>,
    trash: Seq<char>,
    user: Seq<char>,
    id: Seq<char>,
    ext: Seq<char>,
    published: Tier,
    retired: Tier,
)
    requires
        user_dir_path(root, user) != trash,
    ensures
        artifact_path(root, user, id, published, ext) != trash_path(trash, id, retired, ext),
{
    lemma_tier_names_differ(id, ext);
    let a = "/"@ + artifact_name(id, published, ext);
    let b = "/"@ + artifact_name(id, retired, ext);
    assert(artifact_path(root, user, id, published, ext) =~= user_dir_path(root, user) + a);
    assert(trash_path(trash, id, retired, ext) =~= trash + b);
    if user_dir_path(root, user) + a == trash + b {
        lemma_equal_tails(user_dir_path(root, user), a, trash, b);
    }
}

/// After an image is published, its staging file is gone and its two files
/// hold what was derived: wherever every step of publishing can be made,
/// whatever was on disk before.
pub proof fn lemma_publish_cleans_up(
    files: Files,
    root: Seq<char>,
    user: Seq<char>,
    id: Seq<char>,
    ext: Seq<char>,
    medium: Seq<u8>,
    small: Seq<u8>,
)
    requires
        succeeds(
            files,
            publish_steps(root, user, id, ext, staging_path(root, user, id, ext), medium, small),
        ),
    ensures
        ({
            let done = after(
                files,
                publish_steps(
                    root,
                    user,
                    id,
                    ext,
                    staging_path(root, user, id, ext),
                    medium,
                    small,
                ),
            );
            &&& !done.contains_key(staging_path(root, user, id, ext))
            &&& done.contains_key(artifact_path(root, user, id, Tier::Medium, ext))
            &&& done[artifact_path(root, user, id, Tier::Medium, ext)] == medium
            &&& done.contains_key(artifact_path(root, user, id, Tier::Small, ext))
            &&& done[artifact_path(root, user, id, Tier::Small, ext)] == small
        }),
{
    let staging = staging_path(root, user, id, ext);
    let steps = publish_steps(root, user, id, ext, staging, medium, small);
    let medium_path = artifact_path(root, user, id, Tier::Medium, ext);
    let small_path = artifact_path(root, user, id, Tier::Small, ext);
    lemma_staging_is_no_artifact(root, user, id, ext, Tier::Medium);
    lemma_staging_is_no_artifact(root, user, id, ext, Tier::Small);
    lemma_tier_names_differ(id, ext);
    assert(medium_path != small_path) by {
        let head = user_dir_path(root, user) + "/"@;
        if medium_path == small_path {
            lemma_equal_tails(
                head,
                artifact_name(id, Tier::Medium, ext),
                head,
                artifact_name(id, Tier::Small, ext),
            );
        }
    }
    lemma_after_three(files, steps);
}

/// The files after three steps are the files after the first, then the
/// second, then the third.
pub proof fn lemma_after_three(files: Files, steps: Seq<StepView>)
    requires
        steps.len() == 3,
    ensures
        after(files, steps) == apply(apply(apply(files, steps[0]), steps[1]), steps[2]),
{
    let two = steps.drop_last();
    let one = two.drop_last();
    assert(one.drop_last().len() == 0);
    assert(after(files, one.drop_last()) == files);
    assert(after(files, one) == apply(files, steps[0]));
    assert(after(files, two) == apply(after(files, one), steps[1]));
}

/// The files after two lists of steps, one after the other.
pub proof fn lemma_after_both(files: Files, first: Seq<StepView>, second: Seq<StepView>)
    ensures
        after(files, first + second) == after(after(files, first), second),
        succeeds(files, first + second) == (succeeds(files, first) && succeeds(
            after(files, first),
            second,
        )),
    decreases second.len(),
{
    if second.len() == 0 {
        assert(first + second =~= first);
    } else {
        assert((first + second).drop_last() =~= first + second.drop_last());
        assert((first + second).last() == second.last());
        lemma_after_both(files, first, second.drop_last());
    }
}

/// After an update, the image that was replaced is in the trash and no
/// longer where it was published: wherever every step of publishing the new
/// image and retiring the old one can be made. The trash directory must be
/// another directory than the user's: an image retired into the directory
/// it is published in would not have moved.
pub proof fn lemma_update_retires_previous(
    files: Files,
    root: Seq<char>,
    trash: Seq<char>,
    user: Seq<char>,
    id: Seq<char>,
    ext: Seq<char>,
    medium: Seq<u8>,
    small: Seq<u8>,
    old_id: Seq<char>,
    old_ext: Seq<char>,
)
    requires
        user_dir_path(root, user) != trash,
        succeeds(
            files,
            publish_steps(root, user, id, ext, staging_path(root, user, id, ext), medium, small)
                + retire_steps(root, trash, user, old_id, old_ext),
        ),
    ensures
        ({
            let done = after(
                files,
                publish_steps(
                    root,
                    user,
                    id,
                    ext,
                    staging_path(root, user, id, ext),
                    medium,
                    small,
                ) + retire_steps(root, trash, user, old_id, old_ext),
            );
            &&& !done.contains_key(artifact_path(root, user, old_id, Tier::Medium, old_ext))
            &&& !done.contains_key(artifact_path(root, user, old_id, Tier::Small, old_ext))
            &&& done.contains_key(trash_path(trash, old_id, Tier::Medium, old_ext))
            &&& done.contains_key(trash_path(trash, old_id, Tier::Small, old_ext))
        }),
{
    let publish = publish_steps(
        root,
        user,
        id,
        ext,
        staging_path(root, user, id, ext),
        medium,
        small,
    );
    let retire = retire_steps(root, trash, user, old_id, old_ext);
    lemma_after_both(files, publish, retire);
    let published = after(files, publish);
    let one = retire.drop_last();
    assert(one.drop_last().len() == 0);
    assert(after(published, one.drop_last()) == published);
    assert(after(published, one) == apply(published, retire[0]));
    assert(after(published, retire) == apply(after(published, one), retire[1]));
    lemma_trash_is_elsewhere(root, trash, user, old_id, old_ext, Tier::Medium, Tier::Small);
    lemma_trash_is_elsewhere(root, trash, user, old_id, old_ext, Tier::Small, Tier::Medium);
    lemma_trash_is_elsewhere(root, trash, user, old_id, old_ext, Tier::Small, Tier::Small);
    lemma_trash_is_elsewhere(root, trash, user, old_id, old_ext, Tier::Medium, Tier::Medium);
    lemma_tier_names_differ(old_id, old_ext);
    let head = user_dir_path(root, user) + "/"@;
    if artifact_path(root, user, old_id, Tier::Medium, old_ext) == artifact_path(
        root,
        user,
        old_id,
        Tier::Small,
        old_ext,
    ) {
        lemma_equal_tails(
            head,
            artifact_name(old_id, Tier::Medium, old_ext),
            head,
            artifact_name(old_id, Tier::Small, old_ext),
        );
    }
    let bin = trash + "/"@;
    if trash_path(trash, old_id, Tier::Medium, old_ext) == trash_path(
        trash,
        old_id,
        Tier::Small,
        old_ext,
    ) {
        lemma_equal_tails(
            bin,
            artifact_name(old_id, Tier::Medium, old_ext),
            bin,
            artifact_name(old_id, Tier::Small, old_ext),
        );
    }
}

/// While publishing has not made all of its steps, the staging file is
/// kept: if a write fails, what was uploaded is still on disk.
pub proof fn lemma_staging_kept_until_published(
    files: Files,
    root: Seq<char>,
    user: Seq<char>,
    id: Seq<char>,
    ext: Seq<char>,
    medium: Seq<u8>,
    small: Seq<u8>,
    made: int,
)
    requires
        files.contains_key(staging_path(root, user, id, ext)),
        0 <= made < 3,
    ensures
        ({
            let staging = staging_path(root, user, id, ext);
            let steps = publish_steps(root, user, id, ext, staging, medium, small);
            &&& after(files, steps.take(made)).contains_key(staging)
            &&& after(files, steps.take(made))[staging] == files[staging]
        }),
{
    let staging = staging_path(root, user, id, ext);
    let steps = publish_steps(root, user, id, ext, staging, medium, small);
    lemma_staging_is_no_artifact(root, user, id, ext, Tier::Medium);
    lemma_staging_is_no_artifact(root, user, id, ext, Tier::Small);
    let none = steps.take(0);
    let one = steps.take(1);
    let two = steps.take(2);
    assert(after(files, none) == files);
    assert(one.drop_last() =~= none);
    assert(after(files, one) == apply(files, steps[0]));
    assert(two.drop_last() =~= one);
    assert(after(files, two) == apply(after(files, one), steps[1]));
}

/// Whether `text` holds no `mark`.
pub open spec fn lacks(text: Seq<char>, mark: char) -> bool {
    forall|i: int| 0 <= i < text.len() ==> text[i] != mark
}

/// Two paths whose last segments hold no slash are equal only if their
/// directories are equal and their last segments are.
pub proof fn lemma_last_separator(x: Seq<char>, a: Seq<char>, y: Seq<char>, b: Seq<char>)
    requires
        x + "/"@ + a == y + "/"@ + b,
        lacks(a, '/'),
        lacks(b, '/'),
    ensures
        x == y,
        a == b,
{
    reveal_strlit("/");
    let left = x + "/"@ + a;
    let right = y + "/"@ + b;
    assert(left.len() == x.len() + 1 + a.len());
    assert(right.len() == y.len() + 1 + b.len());
    assert(left[x.len() as int] == '/');
    assert(right[y.len() as int] == '/');
    if x.len() < y.len() {
        assert(left[y.len() as int] == a[y.len() - x.len() - 1]);
    }
    if y.len() < x.len() {
        assert(right[x.len() as int] == b[x.len() - y.len() - 1]);
    }
    assert(left =~= x + ("/"@ + a));
    assert(right =~= y + ("/"@ + b));
    lemma_equal_tails(x, "/"@ + a, y, "/"@ + b);
    assert(a =~= ("/"@ + a).subrange(1, 1 + a.len() as int));
    assert(b =~= ("/"@ + b).subrange(1, 1 + b.len() as int));
}

/// An accepted extension holds neither a slash nor an underscore.
pub proof fn lemma_accepted_extension_is_plain(ext: Seq<char>)
    requires
        kind_of_extension(ext) is Some,
    ensures
        lacks(ext, '/'),
        lacks(ext, '_'),
{
    reveal_strlit("jpg");
    reveal_strlit("jpeg");
    reveal_strlit("png");
    if ext == "jpg"@ {
        assert(ext.len() == 3);
    } else if ext == "jpeg"@ {
        assert(ext.len() == 4);
    } else {
        assert(ext == "png"@);
        assert(ext.len() == 3);
    }
}

/// The name of a staging file holds neither a slash nor an underscore.
pub proof fn lemma_staging_name_is_plain(id: Seq<char>, ext: Seq<char>)
    requires
        is_identifier(id),
        kind_of_extension(ext) is Some,
    ensures
        lacks(id + ".tmp."@ + ext, '/'),
        lacks(id + ".tmp."@ + ext, '_'),
{
    reveal_strlit(".tmp.");
    lemma_accepted_extension_is_plain(ext);
    let name = id + ".tmp."@ + ext;
    assert forall|i: int| 0 <= i < name.len() implies name[i] != '/' && name[i] != '_' by {
        if i < id.len() {
            assert(name[i] == id[i]);
            if is_hyphen_position(i) {
                assert(id[i] == '-');
            } else {
                assert(is_lower_hex(id[i]));
            }
        } else if i < id.len() + 5 {
            assert(name[i] == ".tmp."@[i - id.len()]);
        } else {
            assert(name[i] == ext[i - id.len() - 5]);
        }
    }
}

/// The name of a published file holds an underscore, and no slash if its
/// base name and its extension hold none.
pub proof fn lemma_artifact_name_is_marked(id: Seq<char>, tier: Tier, ext: Seq<char>)
    ensures
        artifact_name(id, tier, ext).len() == id.len() + 5 + ext.len(),
        artifact_name(id, tier, ext)[id.len() as int] == '_',
        lacks(id, '/') && lacks(ext, '/') ==> lacks(artifact_name(id, tier, ext), '/'),
{
    reveal_strlit("_720");
    reveal_strlit("_320");
    reveal_strlit(".");
    let name = artifact_name(id, tier, ext);
    if lacks(id, '/') && lacks(ext, '/') {
        assert forall|i: int| 0 <= i < name.len() implies name[i] != '/' by {
            if i < id.len() {
                assert(name[i] == id[i]);
            } else if i < id.len() + 4 {
                assert(name[i] == tier.suffix()[i - id.len()]);
            } else if i == id.len() + 4 {
                assert(name[i] == '.');
            } else {
                assert(name[i] == ext[i - id.len() - 5]);
            }
        }
    }
}

/// The staging file of a new image is no file in the trash, whatever the
/// trash directory is, as long as the retired image's base name and
/// extension hold no slash.
pub proof fn lemma_staging_is_not_in_trash(
    root: Seq<char>,
    trash: Seq<char>,
    user: Seq<char>,
    id: Seq<char>,
    ext: Seq<char>,
    old_id: Seq<char>,
    old_ext: Seq<char>,
    tier: Tier,
)
    requires
        is_identifier(id),
        kind_of_extension(ext) is Some,
        lacks(old_id, '/'),
        lacks(old_ext, '/'),
    ensures
        staging_path(root, user, id, ext) != trash_path(trash, old_id, tier, old_ext),
{
    let name = id + ".tmp."@ + ext;
    let old_name = artifact_name(old_id, tier, old_ext);
    lemma_staging_name_is_plain(id, ext);
    lemma_artifact_name_is_marked(old_id, tier, old_ext);
    assert(staging_path(root, user, id, ext) =~= user_dir_path(root, user) + "/"@ + name);
    if staging_path(root, user, id, ext) == trash_path(trash, old_id, tier, old_ext) {
        lemma_last_separator(user_dir_path(root, user), name, trash, old_name);
        assert(name[old_id.len() as int] == '_');
    }
}

/// After an update, too, the staging file is gone: wherever every step of
/// publishing the new image and retiring the old one can be made. The
/// retired image's base name and extension must hold no slash, or its place
/// in the trash could be any path at all.
pub proof fn lemma_update_cleans_up(
    files: Files,
    root: Seq<char>,
    trash: Seq<char>,
    user: Seq<char>,
    id: Seq<char>,
    ext: Seq<char>,
    medium: Seq<u8>,
    small: Seq<u8>,
    old_id: Seq<char>,
    old_ext: Seq<char>,
)
    requires
        is_identifier(id),
        kind_of_extension(ext) is Some,
        lacks(old_id, '/'),
        lacks(old_ext, '/'),
        succeeds(
            files,
            publish_steps(root, user, id, ext, staging_path(root, user, id, ext), medium, small)
                + retire_steps(root, trash, user, old_id, old_ext),
        ),
    ensures
        !after(
            files,
            publish_steps(root, user, id, ext, staging_path(root, user, id, ext), medium, small)
                + retire_steps(root, trash, user, old_id, old_ext),
        ).contains_key(staging_path(root, user, id, ext)),
{
    let staging = staging_path(root, user, id, ext);
    let publish = publish_steps(root, user, id, ext, staging, medium, small);
    let retire = retire_steps(root, trash, user, old_id, old_ext);
    lemma_after_both(files, publish, retire);
    lemma_publish_cleans_up(files, root, user, id, ext, medium, small);
    let published = after(files, publish);
    lemma_after_two(published, retire);
    lemma_staging_is_not_in_trash(root, trash, user, id, ext, old_id, old_ext, Tier::Medium);
    lemma_staging_is_not_in_trash(root, trash, user, id, ext, old_id, old_ext, Tier::Small);
}

/// The files after two steps are the files after the first, then the
/// second.
pub proof fn lemma_after_two(files: Files, steps: Seq<StepView>)
    requires
        steps.len() == 2,
    ensures
        after(files, steps) == apply(apply(files, steps[0]), steps[1]),
        succeeds(files, steps) == (can_apply(files, steps[0]) && can_apply(
            apply(files, steps[0]),
            steps[1],
        )),
{
    let one = steps.drop_last();
    assert(one.drop_last().len() == 0);
    assert(after(files, one.drop_last()) == files);
    assert(after(files, one) == apply(files, steps[0]));
    assert(succeeds(files, one.drop_last()));
    assert(succeeds(files, one) == can_apply(files, steps[0]));
}

/// Two images whose base names are identifiers have a file in common only
/// if they have the same base name.
pub proof fn lemma_fresh_name_gives_fresh_files(
    id: Seq<char>,
    tier: Tier,
    ext: Seq<char>,
    old_id: Seq<char>,
    old_tier: Tier,
    old_ext: Seq<char>,
)
    requires
        is_identifier(id),
        is_identifier(old_id),
        id != old_id,
    ensures
        artifact_name(id, tier, ext) != artifact_name(old_id, old_tier, old_ext),
{
    let new_name = artifact_name(id, tier, ext);
    let old_name = artifact_name(old_id, old_tier, old_ext);
    lemma_artifact_name_is_marked(id, tier, ext);
    lemma_artifact_name_is_marked(old_id, old_tier, old_ext);
    if new_name == old_name {
        assert(id =~= new_name.subrange(0, 36));
        assert(old_id =~= old_name.subrange(0, 36));
    }
}

/// After an update, the trash holds what the replaced image's two files
/// held: wherever every step of publishing the new image and retiring the
/// old one can be made, the trash directory is another directory than the
/// user's, and the new image's files are not the old image's files, which
/// writing the new ones would overwrite.
pub proof fn lemma_update_keeps_previous_bytes(
    files: Files,
    root: Seq<char>,
    trash: Seq<char>,
    user: Seq<char>,
    id: Seq<char>,
    ext: Seq<char>,
    medium: Seq<u8>,
    small: Seq<u8>,
    old_id: Seq<char>,
    old_ext: Seq<char>,
)
    requires
        user_dir_path(root, user) != trash,
        forall|tier: Tier, old_tier: Tier| #[trigger]
            artifact_name(id, tier, ext) != #[trigger] artifact_name(old_id, old_tier, old_ext),
        succeeds(
            files,
            publish_steps(root, user, id, ext, staging_path(root, user, id, ext), medium, small)
                + retire_steps(root, trash, user, old_id, old_ext),
        ),
    ensures
        ({
            let done = after(
                files,
                publish_steps(
                    root,
                    user,
                    id,
                    ext,
                    staging_path(root, user, id, ext),
                    medium,
                    small,
                ) + retire_steps(root, trash, user, old_id, old_ext),
            );
            let old_medium = artifact_path(root, user, old_id, Tier::Medium, old_ext);
            let old_small = artifact_path(root, user, old_id, Tier::Small, old_ext);
            &&& files.contains_key(old_medium)
            &&& files.contains_key(old_small)
            &&& done.contains_key(trash_path(trash, old_id, Tier::Medium, old_ext))
            &&& done[trash_path(trash, old_id, Tier::Medium, old_ext)] == files[old_medium]
            &&& done.contains_key(trash_path(trash, old_id, Tier::Small, old_ext))
            &&& done[trash_path(trash, old_id, Tier::Small, old_ext)] == files[old_small]
        }),
{
    let staging = staging_path(root, user, id, ext);
    let publish = publish_steps(root, user, id, ext, staging, medium, small);
    let retire = retire_steps(root, trash, user, old_id, old_ext);
    let head = user_dir_path(root, user) + "/"@;
    let bin = trash + "/"@;
    let old_medium = artifact_path(root, user, old_id, Tier::Medium, old_ext);
    let old_small = artifact_path(root, user, old_id, Tier::Small, old_ext);
    lemma_after_both(files, publish, retire);
    lemma_after_three(files, publish);
    let published = after(files, publish);
    lemma_after_two(published, retire);
    lemma_trash_is_elsewhere(root, trash, user, old_id, old_ext, Tier::Medium, Tier::Small);
    lemma_trash_is_elsewhere(root, trash, user, old_id, old_ext, Tier::Small, Tier::Medium);
    lemma_trash_is_elsewhere(root, trash, user, old_id, old_ext, Tier::Small, Tier::Small);
    lemma_trash_is_elsewhere(root, trash, user, old_id, old_ext, Tier::Medium, Tier::Medium);
    lemma_tier_names_differ(old_id, old_ext);
    if old_medium == old_small {
        lemma_equal_tails(
            head,
            artifact_name(old_id, Tier::Medium, old_ext),
            head,
            artifact_name(old_id, Tier::Small, old_ext),
        );
    }
    if trash_path(trash, old_id, Tier::Medium, old_ext) == trash_path(
        trash,
        old_id,
        Tier::Small,
        old_ext,
    ) {
        lemma_equal_tails(
            bin,
            artifact_name(old_id, Tier::Medium, old_ext),
            bin,
            artifact_name(old_id, Tier::Small, old_ext),
        );
    }
    assert forall|tier: Tier, old_tier: Tier|
        artifact_path(root, user, id, tier, ext) != artifact_path(
            root,
            user,
            old_id,
            old_tier,
            old_ext,
        ) by {
        lemma_artifact_name_is_marked(id, tier, ext);
        lemma_artifact_name_is_marked(old_id, old_tier, old_ext);
        assert(artifact_name(id, tier, ext) != artifact_name(old_id, old_tier, old_ext));
        if artifact_path(root, user, id, tier, ext) == artifact_path(
            root,
            user,
            old_id,
            old_tier,
            old_ext,
        ) {
            let a = artifact_name(id, tier, ext);
            let b = artifact_name(old_id, old_tier, old_ext);
            assert((head + a).len() == (head + b).len());
            lemma_equal_tails(head, a, head, b);
        }
    }
    assert(artifact_path(root, user, id, Tier::Medium, ext) != old_medium);
    assert(artifact_path(root, user, id, Tier::Medium, ext) != old_small);
    assert(artifact_path(root, user, id, Tier::Small, ext) != old_medium);
    assert(artifact_path(root, user, id, Tier::Small, ext) != old_small);
}

} // verus!
