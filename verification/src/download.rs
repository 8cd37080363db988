//! Where a download writes, what stands in its way, and what it fetches.
use crate::error::{ErrorView, FabCliError};
use crate::json::{str_view, Json, JsonView};
use crate::paths;
use crate::paths::{
    climbs, has_drive, is_drive, is_portable, is_relative, is_rooted, is_tidy, is_tidy_name,
    is_verbatim, joined, parts_spec, parts_view, placed, slashed, stays_inside, Part, PartView,
};
use crate::text;
use crate::text::{
    debug_text, decimal_spec, is_sorted_unique_of, lookup_spec, opt_text, sorted_unique_spec,
    starts_with_spec, texts,
};
use vstd::prelude::*;

verus! {

/// The program's own scratch directory within the output directory. No
/// collision is looked for in it.
pub const CHUNK_DIR_NAME: &'static str = ".fabcli-chunks";

/// How many conflicts a report lists.
pub const COLLISION_REPORT_LIMIT: usize = 20;

/// What stands where a file is to be written.
#[derive(Debug, Clone, Copy, PartialEq, Eq, Structural)]
pub enum ConflictKind {
    /// A file, or anything else that is no directory.
    FileExists,
    /// A directory.
    IsDirectory,
    /// Nothing, but a directory above it is a regular file.
    ParentIsFile,
}

/// One collision in the output directory.
#[derive(Debug)]
pub struct Conflict {
    /// Relative to the output directory.
    pub path: String,
    pub kind: ConflictKind,
}

/// The mathematical value of a [`Conflict`].
#[verifier::ext_equal]
pub struct ConflictView {
    pub path: Seq<char>,
    pub kind: ConflictKind,
}

impl View for Conflict {
    type V = ConflictView;

    open spec fn view(&self) -> ConflictView {
        ConflictView { path: self.path@, kind: self.kind }
    }
}

/// The values of a list of conflicts.
pub open spec fn conflicts_view(v: Seq<Conflict>) -> Seq<ConflictView> {
    v.map_values(|c: Conflict| c@)
}

/// The word for a kind of conflict.
pub open spec fn conflict_kind_name(kind: ConflictKind) -> Seq<char> {
    match kind {
        ConflictKind::FileExists => "file_exists"@,
        ConflictKind::IsDirectory => "is_directory"@,
        ConflictKind::ParentIsFile => "parent_is_file"@,
    }
}

/// A conflict as JSON.
pub open spec fn conflict_json_spec(c: ConflictView) -> JsonView {
    JsonView::Object(
        map!["path"@ => str_view(c.path), "kind"@ => str_view(conflict_kind_name(c.kind))],
    )
}

impl Conflict {
    /// The conflict as JSON.
    pub fn to_json(&self) -> (r: Json)
        ensures
            r@ == conflict_json_spec(self@),
    {
        let kind = match self.kind {
            ConflictKind::FileExists => "file_exists",
            ConflictKind::IsDirectory => "is_directory",
            ConflictKind::ParentIsFile => "parent_is_file",
        };
        Json::object().with("path", Json::text(self.path.as_str())).with("kind", Json::text(kind))
    }
}

// ---------------------------------------------------------------------------
// Names in a manifest
// ---------------------------------------------------------------------------

/// A step that can fail, by its value.
pub open spec fn unit_view(r: Result<(), FabCliError>) -> Result<(), ErrorView> {
    match r {
        Ok(_) => Ok(()),
        Err(e) => Err(e@),
    }
}

/// The error for a name that climbs out of the output directory.
pub open spec fn traversal_error(filename: Seq<char>) -> ErrorView {
    ErrorView::Generic("path traversal in manifest filename: "@ + debug_text(filename))
}

/// The error for a name that does not begin at the output directory.
pub open spec fn absolute_error(filename: Seq<char>) -> ErrorView {
    ErrorView::Generic("absolute path in manifest filename: "@ + debug_text(filename))
}

/// `parts` begins at a root or with a drive.
pub open spec fn begins_outside(parts: Seq<PartView>) -> bool {
    parts.len() > 0 && (parts[0] is RootDir || parts[0] is Prefix)
}

/// What is held against the name `filename`, of which the platform says whether
/// it is absolute, and which it reads as `parts`. A root, a drive letter and a
/// parent directory between slashes count whatever the platform says.
pub open spec fn check_name_spec(
    filename: Seq<char>,
    absolute: bool,
    parts: Seq<PartView>,
) -> Result<(), ErrorView> {
    if absolute || is_rooted(filename) || has_drive(filename) || begins_outside(parts) {
        Err(absolute_error(filename))
    } else if climbs(parts_spec(filename)) || climbs(parts) {
        Err(traversal_error(filename))
    } else {
        Ok(())
    }
}

/// What is held against a portable name: it begins at the root, or it climbs to
/// a parent directory.
pub open spec fn portable_name_spec(filename: Seq<char>) -> Result<(), ErrorView> {
    if is_rooted(filename) {
        Err(absolute_error(filename))
    } else if climbs(parts_spec(filename)) {
        Err(traversal_error(filename))
    } else {
        Ok(())
    }
}

fn traversal(filename: &str) -> (r: FabCliError)
    ensures
        r@ == traversal_error(filename@),
{
    let mut m = "path traversal in manifest filename: ".to_owned();
    m.append(text::quoted(filename).as_str());
    FabCliError::Generic(m)
}

/// Refuses a name that is absolute, that begins with a drive letter, or that
/// climbs to a parent directory.
pub fn check_name(filename: &str, absolute: bool, parts: &Vec<Part>) -> (r: Result<
    (),
    FabCliError,
>)
    ensures
        unit_view(r) == check_name_spec(filename@, absolute, parts_view(parts@)),
{
    let outside = parts.len() > 0 && matches!(parts[0], Part::RootDir | Part::Prefix);
    assert(parts@.len() > 0 ==> parts_view(parts@)[0] == parts@[0]@);
    if absolute || paths::is_anchored(filename) || outside {
        let mut m = "absolute path in manifest filename: ".to_owned();
        m.append(text::quoted(filename).as_str());
        return Err(FabCliError::Generic(m));
    }
    if paths::climbs_by_slashes(filename) {
        return Err(traversal(filename));
    }
    let mut i: usize = 0;
    while i < parts.len()
        invariant
            i <= parts@.len(),
            check_name_spec(filename@, absolute, parts_view(parts@)) == (if climbs(
                parts_view(parts@),
            ) {
                Err(traversal_error(filename@))
            } else {
                Ok::<(), ErrorView>(())
            }),
            forall|j: int| 0 <= j < i ==> parts_view(parts@)[j] != PartView::ParentDir,
        decreases parts.len() - i,
    {
        if matches!(parts[i], Part::ParentDir) {
            assert(parts_view(parts@)[i as int] == PartView::ParentDir);
            return Err(traversal(filename));
        }
        i = i + 1;
    }
    Ok(())
}

/// Whether a name was accepted, by the result of placing it.
pub open spec fn verdict_of(r: Result<String, FabCliError>) -> Result<(), ErrorView> {
    match r {
        Ok(_) => Ok(()),
        Err(e) => Err(e@),
    }
}

/// A text or an error, by its value.
pub open spec fn text_result(r: Result<String, FabCliError>) -> Result<Seq<char>, ErrorView> {
    match r {
        Ok(s) => Ok(s@),
        Err(e) => Err(e@),
    }
}

/// Where a manifest's name is written: `target` is the output directory with
/// the name behind it, and `inside` whether that lies in the output directory.
pub open spec fn judge_target_spec(
    filename: Seq<char>,
    absolute: bool,
    parts: Seq<PartView>,
    target: Seq<char>,
    inside: bool,
) -> Result<Seq<char>, ErrorView> {
    match check_name_spec(filename, absolute, parts) {
        Err(e) => Err(e),
        Ok(_) => if inside {
            Ok(target)
        } else {
            Err(traversal_error(filename))
        },
    }
}

/// Accepts the path `target` for a manifest's name that is not absolute and
/// does not climb to a parent directory, where it lies in the output directory.
pub fn judge_target(
    filename: &str,
    absolute: bool,
    parts: &Vec<Part>,
    target: String,
    inside: bool,
) -> (r: Result<String, FabCliError>)
    ensures
        text_result(r) == judge_target_spec(
            filename@,
            absolute,
            parts_view(parts@),
            target@,
            inside,
        ),
{
    match check_name(filename, absolute, parts) {
        Err(e) => Err(e),
        Ok(_) => {
            if !inside {
                return Err(traversal(filename));
            }
            Ok(target)
        },
    }
}

/// A name that no platform takes to lead out: it begins neither at a root nor
/// with a drive, and climbs neither where backslashes separate nor where they do
/// not.
pub open spec fn is_safe_name(filename: Seq<char>) -> bool {
    is_relative(filename) && !climbs(parts_spec(filename)) && !climbs(
        parts_spec(slashed(filename)),
    )
}

/// Putting the manifest's name `filename` behind `base` came to `r`.
///
/// A name that begins at the root or with a drive letter, or that has a parent
/// directory between its slashes, is refused; a safe name is not. A portable
/// name is refused for no other reason. What is accepted is the name put behind
/// `base`.
pub open spec fn is_placement(
    base: Seq<char>,
    filename: Seq<char>,
    r: Result<String, FabCliError>,
) -> bool {
    &&& is_rooted(filename) || has_drive(filename) ==> verdict_of(r) == Err::<(), ErrorView>(
        absolute_error(filename),
    )
    &&& climbs(parts_spec(filename)) ==> r is Err
    &&& is_safe_name(filename) ==> r is Ok
    &&& is_relative(filename) ==> (r matches Err(e) ==> e@ == traversal_error(filename))
    &&& is_portable(filename) ==> verdict_of(r) == portable_name_spec(filename)
    &&& r matches Err(e) ==> e@ == absolute_error(filename) || e@ == traversal_error(filename)
    &&& r matches Ok(target) ==> if is_relative(filename) {
        placed(base, filename, target@)
    } else {
        joined(base, filename, target@)
    }
}

/// An accepted name never leaves the directory that it is put behind: a portable
/// one where slashes alone separate, and a safe one where backslashes do too.
pub proof fn accepted_names_stay_inside(
    base: Seq<char>,
    filename: Seq<char>,
    r: Result<String, FabCliError>,
)
    requires
        is_placement(base, filename, r),
        r is Ok,
    ensures
        !is_verbatim(base) && is_portable(filename) && is_portable(r->Ok_0@) ==> stays_inside(
            base,
            r->Ok_0@,
        ),
        is_safe_name(filename) && !is_drive(base) && (is_verbatim(base) ==> is_tidy(base)
            && is_tidy_name(filename)) ==> stays_inside(slashed(base), slashed(r->Ok_0@)),
{
    let target = r->Ok_0@;
    if !is_verbatim(base) && is_portable(filename) && is_portable(target) {
        paths::portable_paths_read_alike(filename);
        paths::joined_names_stay_inside(base, filename, target);
    }
    if is_safe_name(filename) && !is_drive(base) && (is_verbatim(base) ==> is_tidy(base)
        && is_tidy_name(filename)) {
        paths::placed_names_stay_inside(base, filename, target);
    }
}

proof fn lemma_placement(
    base: Seq<char>,
    filename: Seq<char>,
    absolute: bool,
    parts: Seq<PartView>,
    target: Seq<char>,
    inside: bool,
    r: Result<String, FabCliError>,
)
    requires
        text_result(r) == judge_target_spec(filename, absolute, parts, target, inside),
        is_relative(filename) ==> !absolute && inside && placed(base, filename, target),
        is_relative(filename) ==> parts == parts_spec(filename) || parts == parts_spec(
            slashed(filename),
        ),
        !is_relative(filename) && inside ==> joined(base, filename, target),
    ensures
        is_placement(base, filename, r),
{
    if is_relative(filename) {
        paths::relative_paths_have_no_root(filename);
        assert(!is_rooted(slashed(filename)));
        paths::relative_paths_have_no_root(slashed(filename));
    }
    if is_portable(filename) {
        paths::portable_paths_read_alike(filename);
    }
}

/// `base` with a manifest's name behind it. A name that is absolute, begins with
/// a drive letter or climbs to a parent directory is refused.
pub fn safe_join(base: &str, filename: &str) -> (r: Result<String, FabCliError>)
    ensures
        is_placement(base@, filename@, r),
        exists|absolute: bool, parts: Seq<PartView>, target: Seq<char>, inside: bool|
            #[trigger] judge_target_spec(filename@, absolute, parts, target, inside)
                == text_result(r),
{
    let absolute = paths::is_absolute(filename);
    let parts = paths::components(filename);
    let target = paths::join(base, filename);
    let inside = paths::relative(filename) || paths::is_joined(base, filename, target.as_str());
    let ghost place = target@;
    let r = judge_target(filename, absolute, &parts, target, inside);
    proof {
        lemma_placement(base@, filename@, absolute, parts_view(parts@), place, inside, r);
    }
    r
}

/// Where the file `filename` of a manifest is written: in the output directory
/// or not at all.
pub fn plan_target(base: &str, filename: &str) -> (r: Result<String, FabCliError>)
    ensures
        is_placement(base@, filename@, r),
        exists|absolute: bool, parts: Seq<PartView>, target: Seq<char>, inside: bool|
            #[trigger] judge_target_spec(filename@, absolute, parts, target, inside)
                == text_result(r),
{
    let absolute = paths::is_absolute(filename);
    let parts = paths::components(filename);
    let target = paths::join(base, filename);
    let inside = paths::relative(filename) || (paths::is_joined(base, filename, target.as_str())
        && paths::lies_in(target.as_str(), base));
    let ghost place = target@;
    let r = judge_target(filename, absolute, &parts, target, inside);
    proof {
        lemma_placement(base@, filename@, absolute, parts_view(parts@), place, inside, r);
    }
    r
}

/// No name that begins at the root or with a drive letter, or that has a parent
/// directory between its slashes or as the platform reads it, is accepted,
/// whatever else holds of it.
pub proof fn names_that_lead_out_are_refused(
    filename: Seq<char>,
    absolute: bool,
    parts: Seq<PartView>,
)
    requires
        is_rooted(filename) || has_drive(filename) || climbs(parts_spec(filename)) || climbs(parts),
    ensures
        check_name_spec(filename, absolute, parts) is Err,
{
}

// ---------------------------------------------------------------------------
// The output directory
// ---------------------------------------------------------------------------

/// How a download treats what stands in the output directory.
#[derive(Debug, Clone, Copy, PartialEq, Eq, Structural)]
pub enum OverwriteMode {
    /// Refuse where a file to be written collides with what is there.
    Default,
    /// Write over what is there.
    Force,
    /// Refuse where anything but the scratch directory is there.
    IntoEmpty,
}

/// What stands at a path.
#[derive(Debug, Clone, Copy, PartialEq, Eq, Structural)]
pub enum Found {
    Nothing,
    Directory,
    Other,
}

/// A directory above a path, on the way up.
#[derive(Debug, Clone, Copy, PartialEq, Eq, Structural)]
pub enum Above {
    /// The output directory itself.
    OutputDir,
    /// A regular file.
    File,
    /// A directory, or nothing yet.
    Other,
}

/// A path that a download will write, and what is there now.
#[derive(Debug)]
pub struct PlannedTarget {
    /// Relative to the output directory; `None` where it does not lie in it.
    pub rel: Option<String>,
    pub found: Found,
    /// What stands above it, the nearest first.
    pub above: Vec<Above>,
}

/// `rel` is the scratch directory, or lies in it by its slashes.
pub open spec fn in_chunk_dir_spec(rel: Seq<char>) -> bool {
    rel == CHUNK_DIR_NAME@ || starts_with_spec(rel, CHUNK_DIR_NAME@.push('/'))
}

/// `flag` says whether `rel` lies in the scratch directory. Behind the
/// directory's name a backslash is a separator where the platform says so.
pub open spec fn is_chunk_dir_flag(rel: Seq<char>, flag: bool) -> bool {
    &&& in_chunk_dir_spec(rel) ==> flag
    &&& flag ==> in_chunk_dir_spec(rel) || starts_with_spec(rel, CHUNK_DIR_NAME@.push('\\'))
}

/// Whether `rel`, relative to the output directory, lies in the scratch
/// directory.
pub fn is_in_chunk_dir(rel: &str) -> (r: bool)
    ensures
        is_chunk_dir_flag(rel@, r),
{
    let rest = match text::strip_prefix(rel, CHUNK_DIR_NAME) {
        Some(rest) => rest,
        None => {
            proof {
                if starts_with_spec(rel@, CHUNK_DIR_NAME@.push('/')) {
                    text::lemma_shorter_prefix(rel@, CHUNK_DIR_NAME@, '/');
                }
                assert(rel@.take(rel@.len() as int) =~= rel@);
            }
            return false;
        },
    };
    let behind = text::to_chars(rest.as_str());
    let ghost n: int = CHUNK_DIR_NAME@.len() as int;
    assert(rel@ =~= CHUNK_DIR_NAME@ + rest@);
    if behind.len() == 0 {
        assert(rel@ =~= CHUNK_DIR_NAME@);
        return true;
    }
    assert(rel@[n] == behind@[0]);
    assert(starts_with_spec(rel@, CHUNK_DIR_NAME@.push('/')) ==> rel@[n] == '/') by {
        assert(rel@.take(n + 1)[n] == rel@[n]);
    }
    if behind[0] == '/' {
        assert(rel@.take(n + 1) =~= CHUNK_DIR_NAME@.push('/'));
        return true;
    }
    if behind[0] != '\\' {
        return false;
    }
    assert(rel@.take(n + 1) =~= CHUNK_DIR_NAME@.push('\\'));
    let parts = paths::components(rel);
    if parts.len() == 0 {
        return false;
    }
    match &parts[0] {
        Part::Normal(name) => text::same(name.as_str(), CHUNK_DIR_NAME),
        _ => false,
    }
}

/// A regular file stands on the way up, below the output directory.
pub open spec fn has_file_ancestor_spec(above: Seq<Above>) -> bool
    decreases above.len(),
{
    if above.len() == 0 {
        false
    } else if above[0] == Above::OutputDir {
        false
    } else if above[0] == Above::File {
        true
    } else {
        has_file_ancestor_spec(above.skip(1))
    }
}

/// Whether a regular file stands on the way up, below the output directory.
pub fn has_file_ancestor(above: &Vec<Above>) -> (r: bool)
    ensures
        r == has_file_ancestor_spec(above@),
{
    let mut i: usize = 0;
    assert(above@.skip(0) =~= above@);
    while i < above.len()
        invariant
            i <= above@.len(),
            has_file_ancestor_spec(above@) == has_file_ancestor_spec(above@.skip(i as int)),
        decreases above.len() - i,
    {
        match above[i] {
            Above::OutputDir => {
                return false;
            },
            Above::File => {
                return true;
            },
            Above::Other => {},
        }
        assert(above@.skip(i as int).skip(1) =~= above@.skip(i + 1));
        i = i + 1;
    }
    false
}

/// The conflict that `target` is, where it is one.
pub open spec fn conflict_of_spec(target: PlannedTarget, in_chunk_dir: bool) -> Option<
    ConflictView,
> {
    match target.rel {
        None => None,
        Some(rel) => if in_chunk_dir {
            None
        } else {
            match target.found {
                Found::Directory => Some(
                    ConflictView { path: rel@, kind: ConflictKind::IsDirectory },
                ),
                Found::Other => Some(ConflictView { path: rel@, kind: ConflictKind::FileExists }),
                Found::Nothing => if has_file_ancestor_spec(target.above@) {
                    Some(ConflictView { path: rel@, kind: ConflictKind::ParentIsFile })
                } else {
                    None
                },
            }
        },
    }
}

/// A conflict that may be there, by its value.
pub open spec fn opt_conflict(c: Option<Conflict>) -> Option<ConflictView> {
    match c {
        Some(x) => Some(x@),
        None => None,
    }
}

/// The conflict that `target` is, where it is one.
pub fn conflict_of(target: &PlannedTarget, in_chunk_dir: bool) -> (r: Option<Conflict>)
    ensures
        opt_conflict(r) == conflict_of_spec(*target, in_chunk_dir),
{
    match &target.rel {
        None => None,
        Some(rel) => {
            if in_chunk_dir {
                return None;
            }
            match target.found {
                Found::Directory => Some(
                    Conflict { path: rel.clone(), kind: ConflictKind::IsDirectory },
                ),
                Found::Other => Some(
                    Conflict { path: rel.clone(), kind: ConflictKind::FileExists },
                ),
                Found::Nothing => {
                    if has_file_ancestor(&target.above) {
                        Some(Conflict { path: rel.clone(), kind: ConflictKind::ParentIsFile })
                    } else {
                        None
                    }
                },
            }
        },
    }
}

/// The conflicts among `targets`, in their order.
pub open spec fn collisions_spec(targets: Seq<PlannedTarget>, in_chunk_dir: Seq<bool>) -> Seq<
    ConflictView,
>
    decreases targets.len(),
{
    if targets.len() == 0 {
        Seq::empty()
    } else {
        let before = collisions_spec(targets.drop_last(), in_chunk_dir.drop_last());
        match conflict_of_spec(targets.last(), in_chunk_dir.last()) {
            Some(c) => before.push(c),
            None => before,
        }
    }
}

/// `flags` tells of each target whether it lies in the scratch directory.
pub open spec fn chunk_dir_flags(targets: Seq<PlannedTarget>, flags: Seq<bool>) -> bool {
    &&& flags.len() == targets.len()
    &&& forall|i: int|
        0 <= i < targets.len() ==> (#[trigger] targets[i].rel matches Some(rel)
            ==> is_chunk_dir_flag(rel@, flags[i]))
}

/// The collisions between what a download will write and what is there, all of
/// them, in the order of the targets.
pub fn preflight_collisions(targets: &Vec<PlannedTarget>) -> (r: Vec<Conflict>)
    ensures
        exists|flags: Seq<bool>| #[trigger]
            chunk_dir_flags(targets@, flags) && conflicts_view(r@) == collisions_spec(
                targets@,
                flags,
            ),
{
    let mut out: Vec<Conflict> = Vec::new();
    let mut i: usize = 0;
    let ghost mut flags: Seq<bool> = Seq::empty();
    assert(conflicts_view(out@) =~= collisions_spec(targets@.take(0), flags));
    while i < targets.len()
        invariant
            i <= targets@.len(),
            chunk_dir_flags(targets@.take(i as int), flags),
            conflicts_view(out@) == collisions_spec(targets@.take(i as int), flags),
        decreases targets.len() - i,
    {
        let target = &targets[i];
        let flag = match &target.rel {
            Some(rel) => is_in_chunk_dir(rel.as_str()),
            None => false,
        };
        let ghost next = targets@.take(i + 1);
        let ghost prior = out@;
        proof {
            assert(next.drop_last() =~= targets@.take(i as int));
            assert(next.last() == *target);
            assert(flags.push(flag).drop_last() =~= flags);
            assert forall|j: int| 0 <= j < next.len() implies (#[trigger] next[j].rel matches Some(
                rel,
            ) ==> is_chunk_dir_flag(rel@, flags.push(flag)[j])) by {
                if j < i {
                    assert(targets@.take(i as int)[j].rel == next[j].rel);
                }
            }
            flags = flags.push(flag);
        }
        match conflict_of(target, flag) {
            Some(c) => {
                out.push(c);
                assert(conflicts_view(out@) =~= conflicts_view(prior).push(c@));
            },
            None => {},
        }
        i = i + 1;
    }
    assert(targets@.take(targets@.len() as int) =~= targets@);
    out
}

/// Those of `entries` that are not the scratch directory.
pub open spec fn unexpected_spec(entries: Seq<Seq<char>>, in_chunk_dir: Seq<bool>) -> Seq<
    Seq<char>,
>
    decreases entries.len(),
{
    if entries.len() == 0 {
        Seq::empty()
    } else {
        let before = unexpected_spec(entries.drop_last(), in_chunk_dir.drop_last());
        if in_chunk_dir.last() {
            before
        } else {
            before.push(entries.last())
        }
    }
}

/// `flags` tells of each entry whether it is the scratch directory.
pub open spec fn entry_flags(entries: Seq<Seq<char>>, flags: Seq<bool>) -> bool {
    &&& flags.len() == entries.len()
    &&& forall|i: int|
        0 <= i < entries.len() ==> is_chunk_dir_flag(#[trigger] entries[i], flags[i])
}

/// The entries of the output directory that are not the scratch directory.
/// Where there are none, a download into an empty directory can go on.
pub fn preflight_into_empty(entries: &Vec<String>) -> (r: Vec<String>)
    ensures
        exists|flags: Seq<bool>| #[trigger]
            entry_flags(texts(entries@), flags) && texts(r@) == unexpected_spec(
                texts(entries@),
                flags,
            ),
{
    let mut out: Vec<String> = Vec::new();
    let mut i: usize = 0;
    let ghost mut flags: Seq<bool> = Seq::empty();
    let ghost all = texts(entries@);
    assert(texts(out@) =~= unexpected_spec(all.take(0), flags));
    while i < entries.len()
        invariant
            i <= entries@.len(),
            all == texts(entries@),
            entry_flags(all.take(i as int), flags),
            texts(out@) == unexpected_spec(all.take(i as int), flags),
        decreases entries.len() - i,
    {
        let flag = is_in_chunk_dir(entries[i].as_str());
        let ghost next = all.take(i + 1);
        proof {
            assert(next.drop_last() =~= all.take(i as int));
            assert(next.last() == entries@[i as int]@);
            assert(flags.push(flag).drop_last() =~= flags);
            assert forall|j: int| 0 <= j < next.len() implies is_chunk_dir_flag(
                #[trigger] next[j],
                flags.push(flag)[j],
            ) by {
                if j < i {
                    assert(all.take(i as int)[j] == next[j]);
                }
            }
            flags = flags.push(flag);
        }
        if !flag {
            let name = entries[i].clone();
            proof {
                text::lemma_texts_push(out@, name);
            }
            out.push(name);
        }
        i = i + 1;
    }
    assert(all.take(all.len() as int) =~= all);
    out
}

/// The refusal of an output directory that is not empty.
pub open spec fn not_empty_error(output_dir: Seq<char>, unexpected: Seq<Seq<char>>) -> ErrorView {
    ErrorView::OutputNotEmpty {
        message: "--into-empty requires "@ + output_dir
            + " to contain only `.fabcli-chunks/`; found "@ + decimal_spec(unexpected.len())
            + " other "@ + (if unexpected.len() == 1 {
            "entry"@
        } else {
            "entries"@
        }),
        unexpected_entries: unexpected,
        output_dir,
    }
}

/// The refusal of an output directory with collisions.
pub open spec fn collision_error(output_dir: Seq<char>, conflicts: Seq<ConflictView>) -> ErrorView {
    ErrorView::OutputCollision {
        message: if conflicts.len() > COLLISION_REPORT_LIMIT {
            output_dir + " has "@ + decimal_spec(conflicts.len()) + " conflicts; first "@
                + decimal_spec(COLLISION_REPORT_LIMIT as nat) + " listed"@
        } else {
            output_dir + " has "@ + decimal_spec(conflicts.len()) + " "@ + (if conflicts.len()
                == 1 {
                "conflict"@
            } else {
                "conflicts"@
            })
        },
        conflicts,
        total_conflicts: conflicts.len() as usize,
        output_dir,
    }
}

/// What is held against an output directory whose unexpected entries and
/// collisions are these.
pub open spec fn check_output_spec(
    mode: OverwriteMode,
    output_dir: Seq<char>,
    unexpected: Seq<Seq<char>>,
    conflicts: Seq<ConflictView>,
) -> Result<(), ErrorView> {
    match mode {
        OverwriteMode::Force => Ok(()),
        OverwriteMode::IntoEmpty => if unexpected.len() > 0 {
            Err(not_empty_error(output_dir, unexpected))
        } else {
            Ok(())
        },
        OverwriteMode::Default => if conflicts.len() > 0 {
            Err(collision_error(output_dir, conflicts))
        } else {
            Ok(())
        },
    }
}

/// Refuses an output directory in whose way something stands.
pub fn check_output(
    mode: OverwriteMode,
    output_dir: &str,
    unexpected: Vec<String>,
    conflicts: Vec<Conflict>,
) -> (r: Result<(), FabCliError>)
    ensures
        unit_view(r) == check_output_spec(
            mode,
            output_dir@,
            texts(unexpected@),
            conflicts_view(conflicts@),
        ),
{
    match mode {
        OverwriteMode::Force => Ok(()),
        OverwriteMode::IntoEmpty => {
            if unexpected.len() == 0 {
                return Ok(());
            }
            let mut m = "--into-empty requires ".to_owned();
            m.append(output_dir);
            m.append(" to contain only `.fabcli-chunks/`; found ");
            m.append(text::decimal(unexpected.len() as u64).as_str());
            m.append(" other ");
            m.append(
                if unexpected.len() == 1 {
                    "entry"
                } else {
                    "entries"
                },
            );
            Err(
                FabCliError::OutputNotEmpty {
                    message: m,
                    unexpected_entries: unexpected,
                    output_dir: output_dir.to_owned(),
                },
            )
        },
        OverwriteMode::Default => {
            let total = conflicts.len();
            if total == 0 {
                return Ok(());
            }
            let mut m = output_dir.to_owned();
            m.append(" has ");
            m.append(text::decimal(total as u64).as_str());
            if total > COLLISION_REPORT_LIMIT {
                m.append(" conflicts; first ");
                m.append(text::decimal(COLLISION_REPORT_LIMIT as u64).as_str());
                m.append(" listed");
            } else {
                m.append(" ");
                m.append(
                    if total == 1 {
                        "conflict"
                    } else {
                        "conflicts"
                    },
                );
            }
            Err(
                FabCliError::OutputCollision {
                    message: m,
                    conflicts,
                    total_conflicts: total,
                    output_dir: output_dir.to_owned(),
                },
            )
        },
    }
}

/// Decides, before anything is fetched, whether a download may write into the
/// output directory: by its entries where it is to be empty, by the planned
/// targets where nothing is to be overwritten.
pub fn preflight_output(
    mode: OverwriteMode,
    output_dir: &str,
    entries: &Vec<String>,
    targets: &Vec<PlannedTarget>,
) -> (r: Result<(), FabCliError>)
    ensures
        mode == OverwriteMode::Force ==> r is Ok,
        mode == OverwriteMode::IntoEmpty ==> exists|flags: Seq<bool>| #[trigger]
            entry_flags(texts(entries@), flags) && unit_view(r) == check_output_spec(
                mode,
                output_dir@,
                unexpected_spec(texts(entries@), flags),
                Seq::empty(),
            ),
        mode == OverwriteMode::Default ==> exists|flags: Seq<bool>| #[trigger]
            chunk_dir_flags(targets@, flags) && unit_view(r) == check_output_spec(
                mode,
                output_dir@,
                Seq::empty(),
                collisions_spec(targets@, flags),
            ),
{
    match mode {
        OverwriteMode::Force => Ok(()),
        OverwriteMode::IntoEmpty => {
            let unexpected = preflight_into_empty(entries);
            let none: Vec<Conflict> = Vec::new();
            assert(conflicts_view(none@) =~= Seq::<ConflictView>::empty());
            check_output(mode, output_dir, unexpected, none)
        },
        OverwriteMode::Default => {
            let conflicts = preflight_collisions(targets);
            let none: Vec<String> = Vec::new();
            assert(texts(none@) =~= Seq::<Seq<char>>::empty());
            check_output(mode, output_dir, none, conflicts)
        },
    }
}

/// What lies in the scratch directory never collides.
pub proof fn scratch_never_collides(target: PlannedTarget)
    ensures
        conflict_of_spec(target, true) is None,
{
}

proof fn lemma_collisions_empty(targets: Seq<PlannedTarget>, flags: Seq<bool>)
    requires
        flags.len() == targets.len(),
    ensures
        collisions_spec(targets, flags).len() == 0 <==> forall|i: int|
            0 <= i < targets.len() ==> conflict_of_spec(#[trigger] targets[i], flags[i]) is None,
    decreases targets.len(),
{
    if targets.len() > 0 {
        let t0 = targets.drop_last();
        let f0 = flags.drop_last();
        lemma_collisions_empty(t0, f0);
        assert forall|i: int| 0 <= i < t0.len() implies t0[i] == targets[i] && f0[i]
            == flags[i] by {}
        if collisions_spec(targets, flags).len() == 0 {
            assert forall|i: int| 0 <= i < targets.len() implies conflict_of_spec(
                #[trigger] targets[i],
                flags[i],
            ) is None by {
                if i < t0.len() {
                    assert(conflict_of_spec(t0[i], f0[i]) is None);
                }
            }
        }
        if forall|i: int|
            0 <= i < targets.len() ==> conflict_of_spec(#[trigger] targets[i], flags[i]) is None {
            assert(conflict_of_spec(targets[targets.len() - 1], flags[flags.len() - 1]) is None);
            assert forall|i: int| 0 <= i < t0.len() implies conflict_of_spec(
                #[trigger] t0[i],
                f0[i],
            ) is None by {
                assert(conflict_of_spec(targets[i], flags[i]) is None);
            }
        }
    }
}

/// Without leave to overwrite, a download goes on exactly where no target
/// collides.
pub proof fn default_mode_refuses_any_collision(
    output_dir: Seq<char>,
    targets: Seq<PlannedTarget>,
    flags: Seq<bool>,
)
    requires
        flags.len() == targets.len(),
    ensures
        check_output_spec(
            OverwriteMode::Default,
            output_dir,
            Seq::empty(),
            collisions_spec(targets, flags),
        ) is Ok <==> forall|i: int|
            0 <= i < targets.len() ==> conflict_of_spec(#[trigger] targets[i], flags[i]) is None,
{
    lemma_collisions_empty(targets, flags);
}

/// Without leave to overwrite, a download never goes on where something stands
/// at the place of a target, unless the target's path begins with the name of
/// the scratch directory.
pub proof fn nothing_is_overwritten_unasked(
    output_dir: Seq<char>,
    targets: Seq<PlannedTarget>,
    flags: Seq<bool>,
    at: int,
)
    requires
        chunk_dir_flags(targets, flags),
        0 <= at < targets.len(),
        targets[at].rel is Some,
        !starts_with_spec(targets[at].rel->0@, CHUNK_DIR_NAME@),
        targets[at].found != Found::Nothing,
    ensures
        check_output_spec(
            OverwriteMode::Default,
            output_dir,
            Seq::empty(),
            collisions_spec(targets, flags),
        ) is Err,
{
    let rel = targets[at].rel->0@;
    if starts_with_spec(rel, CHUNK_DIR_NAME@.push('/')) {
        text::lemma_shorter_prefix(rel, CHUNK_DIR_NAME@, '/');
    }
    if starts_with_spec(rel, CHUNK_DIR_NAME@.push('\\')) {
        text::lemma_shorter_prefix(rel, CHUNK_DIR_NAME@, '\\');
    }
    assert(rel.take(rel.len() as int) =~= rel);
    assert(conflict_of_spec(targets[at], flags[at]) is Some);
    default_mode_refuses_any_collision(output_dir, targets, flags);
}

proof fn lemma_unexpected_empty(entries: Seq<Seq<char>>, flags: Seq<bool>)
    requires
        flags.len() == entries.len(),
    ensures
        unexpected_spec(entries, flags).len() == 0 <==> forall|i: int|
            0 <= i < entries.len() ==> #[trigger] flags[i],
    decreases entries.len(),
{
    if entries.len() > 0 {
        let e0 = entries.drop_last();
        let f0 = flags.drop_last();
        lemma_unexpected_empty(e0, f0);
        assert forall|i: int| 0 <= i < f0.len() implies f0[i] == flags[i] by {}
        if unexpected_spec(entries, flags).len() == 0 {
            assert forall|i: int| 0 <= i < entries.len() implies #[trigger] flags[i] by {
                if i < f0.len() {
                    assert(f0[i]);
                }
            }
        }
        if forall|i: int| 0 <= i < entries.len() ==> #[trigger] flags[i] {
            assert(flags[flags.len() - 1]);
            assert forall|i: int| 0 <= i < e0.len() implies #[trigger] f0[i] by {
                assert(flags[i]);
            }
        }
    }
}

/// Where an empty directory is asked for, a download goes on exactly where
/// nothing but the scratch directory is there.
pub proof fn empty_mode_refuses_any_other_entry(
    output_dir: Seq<char>,
    entries: Seq<Seq<char>>,
    flags: Seq<bool>,
)
    requires
        flags.len() == entries.len(),
    ensures
        check_output_spec(
            OverwriteMode::IntoEmpty,
            output_dir,
            unexpected_spec(entries, flags),
            Seq::empty(),
        ) is Ok <==> forall|i: int| 0 <= i < entries.len() ==> #[trigger] flags[i],
{
    lemma_unexpected_empty(entries, flags);
}

// ---------------------------------------------------------------------------
// Sizes
// ---------------------------------------------------------------------------

/// `x` divided by `m`, rounded to the nearest whole number, from the middle to
/// the even one.
pub open spec fn half_even(x: nat, m: nat) -> nat {
    let q = x / m;
    let r = x % m;
    if 2 * r < m || (2 * r == m && q % 2 == 0) {
        q
    } else {
        q + 1
    }
}

/// How far apart the numbers with a mantissa of 53 bits are at `x`.
pub open spec fn spacing(x: nat) -> nat
    decreases x,
{
    if x < 0x20_0000_0000_0000 {
        1
    } else {
        2 * spacing(x / 2)
    }
}

/// The number with a mantissa of 53 bits that is nearest to `x`.
pub open spec fn nearest_double(x: nat) -> nat {
    half_even(x, spacing(x)) * spacing(x)
}

/// Bytes as whole megabytes.
pub open spec fn megabytes(bytes: nat) -> nat {
    half_even(nearest_double(bytes), 0x10_0000)
}

/// Bytes as megabytes with one decimal.
pub open spec fn megabytes_text(bytes: nat) -> Seq<char> {
    let tenths = half_even(nearest_double(bytes) * 10, 0x10_0000);
    decimal_spec(tenths / 10) + "."@ + decimal_spec(tenths % 10)
}

fn round_half_even(x: u128, m: u128) -> (r: u128)
    requires
        0 < m <= 0x1_0000_0000_0000,
        x < 0x10_0000_0000_0000_0000_0000,
    ensures
        r == half_even(x as nat, m as nat),
{
    let q: u128 = x / m;
    let r: u128 = x % m;
    assert(q <= x) by (nonlinear_arith)
        requires
            q == x / m,
            m > 0,
    ;
    if 2 * r < m || (2 * r == m && q % 2 == 0) {
        q
    } else {
        q + 1
    }
}

fn as_double(x: u64) -> (r: u128)
    ensures
        r == nearest_double(x as nat),
        r <= 0x2_0000_0000_0000_0000,
{
    let mut y: u64 = x;
    let mut step: u64 = 1;
    while y >= 0x20_0000_0000_0000
        invariant
            1 <= step,
            step * y <= x,
            step == 1 || 2 * y + 1 >= 0x20_0000_0000_0000,
            spacing(x as nat) == step * spacing(y as nat),
        decreases y,
    {
        let ghost half = y / 2;
        assert(step <= 2048) by (nonlinear_arith)
            requires
                step * y <= x,
                y >= 0x20_0000_0000_0000,
                x <= 0xffff_ffff_ffff_ffff,
        ;
        assert((2 * step) * half <= step * y) by (nonlinear_arith)
            requires
                half == y / 2,
                step >= 1,
        ;
        assert(step * (2 * spacing(half as nat)) == (2 * step) * spacing(half as nat))
            by (nonlinear_arith);
        y = y / 2;
        step = step * 2;
    }
    assert(step * 1 == step);
    assert(step <= 4096) by (nonlinear_arith)
        requires
            step * y <= x,
            step == 1 || 2 * y + 1 >= 0x20_0000_0000_0000,
            x <= 0xffff_ffff_ffff_ffff,
    ;
    let q = round_half_even(x as u128, step as u128);
    assert(q * step <= x + step) by (nonlinear_arith)
        requires
            q <= x / step + 1,
            step >= 1,
    ;
    q * (step as u128)
}

/// Bytes as whole megabytes.
pub fn whole_megabytes(bytes: u64) -> (r: u64)
    ensures
        r == megabytes(bytes as nat),
{
    let d = as_double(bytes);
    let m = round_half_even(d, 0x10_0000);
    m as u64
}

/// Bytes as megabytes with one decimal.
pub fn decimal_megabytes(bytes: u64) -> (r: String)
    ensures
        r@ == megabytes_text(bytes as nat),
{
    let d = as_double(bytes);
    let tenths = round_half_even(d * 10, 0x10_0000) as u64;
    let mut out = text::decimal(tenths / 10);
    out.append(".");
    out.append(text::decimal(tenths % 10).as_str());
    out
}

/// What is held against the free space of an output directory; where the
/// space is known and enough, the line that says so. Twice the size is needed,
/// for the fetched pieces and for the files made of them.
pub open spec fn check_space_spec(
    total_size: nat,
    available: Option<u64>,
    output_dir: Seq<char>,
) -> Result<Option<Seq<char>>, ErrorView> {
    match available {
        None => Ok(None),
        Some(free) => if free < 2 * total_size {
            Err(
                ErrorView::Generic(
                    "insufficient disk space: need ~"@ + decimal_spec(megabytes(2 * total_size))
                        + " MB (2x asset size for temp chunks + final files), only "@
                        + decimal_spec(megabytes(free as nat)) + " MB available on "@ + output_dir,
                ),
            )
        } else {
            Ok(
                Some(
                    "[download] Disk space: "@ + decimal_spec(megabytes(free as nat))
                        + " MB available"@,
                ),
            )
        },
    }
}

/// A note or an error, by its value.
pub open spec fn note_view(r: Result<Option<String>, FabCliError>) -> Result<
    Option<Seq<char>>,
    ErrorView,
> {
    match r {
        Ok(n) => Ok(opt_text(n)),
        Err(e) => Err(e@),
    }
}

/// Refuses a download for which the space does not suffice. Where the free
/// space is not known the download goes on.
pub fn check_space(total_size: u64, available: Option<u64>, output_dir: &str) -> (r: Result<
    Option<String>,
    FabCliError,
>)
    requires
        2 * total_size <= u64::MAX,
    ensures
        note_view(r) == check_space_spec(total_size as nat, available, output_dir@),
{
    let required: u64 = total_size * 2;
    match available {
        None => Ok(None),
        Some(free) => {
            if free < required {
                let mut m = "insufficient disk space: need ~".to_owned();
                m.append(text::decimal(whole_megabytes(required)).as_str());
                m.append(" MB (2x asset size for temp chunks + final files), only ");
                m.append(text::decimal(whole_megabytes(free)).as_str());
                m.append(" MB available on ");
                m.append(output_dir);
                Err(FabCliError::Generic(m))
            } else {
                let mut m = "[download] Disk space: ".to_owned();
                m.append(text::decimal(whole_megabytes(free)).as_str());
                m.append(" MB available");
                Ok(Some(m))
            }
        },
    }
}

/// The line that announces a download.
pub open spec fn announcement_spec(files: nat, chunks: nat, total_size: nat) -> Seq<char> {
    "[download] "@ + decimal_spec(files) + " files, "@ + decimal_spec(chunks) + " chunks, "@
        + megabytes_text(total_size) + " MB to download"@
}

/// The line that announces a download.
pub fn announcement(files: usize, chunks: usize, total_size: u64) -> (r: String)
    ensures
        r@ == announcement_spec(files as nat, chunks as nat, total_size as nat),
{
    let mut m = "[download] ".to_owned();
    m.append(text::decimal(files as u64).as_str());
    m.append(" files, ");
    m.append(text::decimal(chunks as u64).as_str());
    m.append(" chunks, ");
    m.append(decimal_megabytes(total_size).as_str());
    m.append(" MB to download");
    m
}

/// The line that closes a download; `seconds` is how long it took.
pub fn completion(files: usize, written: u64, seconds: &str) -> (r: String)
    ensures
        r@ == "[download] Complete: "@ + decimal_spec(files as nat) + " files, "@ + megabytes_text(
            written as nat,
        ) + " MB in "@ + seconds@ + "s"@,
{
    let mut m = "[download] Complete: ".to_owned();
    m.append(text::decimal(files as u64).as_str());
    m.append(" files, ");
    m.append(decimal_megabytes(written).as_str());
    m.append(" MB in ");
    m.append(seconds);
    m.append("s");
    m
}

// ---------------------------------------------------------------------------
// What is fetched
// ---------------------------------------------------------------------------

/// A stretch of a chunk that goes into a file.
#[derive(Debug)]
pub struct ChunkPart {
    pub guid: String,
    pub link: Option<String>,
    pub offset: u128,
    pub size: u128,
}

/// A file of a manifest.
#[derive(Debug)]
pub struct FileManifest {
    pub filename: String,
    pub parts: Vec<ChunkPart>,
}

/// The manifest that is read: the first distribution point of the first answer.
pub open spec fn manifest_url_spec(infos: Seq<Vec<String>>) -> Result<Seq<char>, ErrorView> {
    if infos.len() == 0 {
        Err(ErrorView::NotFound("no download info returned for this asset"@))
    } else if infos[0]@.len() == 0 {
        Err(ErrorView::NotFound("no distribution points available"@))
    } else {
        Ok(infos[0]@[0]@)
    }
}

/// The URL of the manifest that is read: that of the first distribution point
/// of the first answer. `infos` lists the manifest URLs of each answer.
pub fn manifest_url(infos: &Vec<Vec<String>>) -> (r: Result<String, FabCliError>)
    ensures
        text_result(r) == manifest_url_spec(infos@),
{
    if infos.len() == 0 {
        return Err(
            FabCliError::NotFound("no download info returned for this asset".to_owned()),
        );
    }
    let points = &infos[0];
    if points.len() == 0 {
        return Err(FabCliError::NotFound("no distribution points available".to_owned()));
    }
    Ok(points[0].clone())
}

/// The refusal of a manifest without files.
pub open spec fn no_files_error() -> ErrorView {
    ErrorView::NotFound("manifest contains no files"@)
}

/// Refuses a manifest without files.
pub fn check_files(files: &Vec<FileManifest>) -> (r: Result<(), FabCliError>)
    ensures
        r is Err <==> files@.len() == 0,
        r matches Err(e) ==> e@ == no_files_error(),
{
    if files.len() == 0 {
        Err(FabCliError::NotFound("manifest contains no files".to_owned()))
    } else {
        Ok(())
    }
}

/// The chunks that the parts name, in their order.
pub open spec fn part_guids(parts: Seq<ChunkPart>) -> Seq<Seq<char>> {
    parts.map_values(|p: ChunkPart| p.guid@)
}

/// The chunks that the files name, in their order.
pub open spec fn all_guids(files: Seq<FileManifest>) -> Seq<Seq<char>>
    decreases files.len(),
{
    if files.len() == 0 {
        Seq::empty()
    } else {
        all_guids(files.drop_last()) + part_guids(files.last().parts@)
    }
}

/// The chunks that a download fetches, each once.
pub fn needed_chunks(files: &Vec<FileManifest>) -> (r: Vec<String>)
    ensures
        is_sorted_unique_of(texts(r@), all_guids(files@)),
        texts(r@) == sorted_unique_spec(all_guids(files@)),
{
    let mut all: Vec<String> = Vec::new();
    let mut i: usize = 0;
    assert(texts(all@) =~= all_guids(files@.take(0)));
    while i < files.len()
        invariant
            i <= files@.len(),
            texts(all@) == all_guids(files@.take(i as int)),
        decreases files.len() - i,
    {
        let parts = &files[i].parts;
        let ghost start = texts(all@);
        let ghost guids = part_guids(parts@);
        let mut j: usize = 0;
        assert(start + guids.take(0) =~= start);
        while j < parts.len()
            invariant
                j <= parts@.len(),
                guids == part_guids(parts@),
                texts(all@) == start + guids.take(j as int),
            decreases parts.len() - j,
        {
            let guid = parts[j].guid.clone();
            proof {
                text::lemma_texts_push(all@, guid);
                assert((start + guids.take(j as int)).push(guid@) =~= start + guids.take(j + 1));
            }
            all.push(guid);
            j = j + 1;
        }
        assert(guids.take(guids.len() as int) =~= guids);
        assert(files@.take(i + 1).drop_last() =~= files@.take(i as int));
        assert(files@.take(i + 1).last() == files@[i as int]);
        i = i + 1;
    }
    assert(files@.take(files@.len() as int) =~= files@);
    text::sorted_unique(&all)
}

/// The last link that `parts` give for the chunk `guid`.
pub open spec fn link_in_parts(parts: Seq<ChunkPart>, guid: Seq<char>) -> Option<Seq<char>>
    decreases parts.len(),
{
    if parts.len() == 0 {
        None
    } else if parts.last().guid@ == guid && parts.last().link is Some {
        Some(parts.last().link->0@)
    } else {
        link_in_parts(parts.drop_last(), guid)
    }
}

/// The last link that `files` give for the chunk `guid`.
pub open spec fn link_in_files(files: Seq<FileManifest>, guid: Seq<char>) -> Option<Seq<char>>
    decreases files.len(),
{
    if files.len() == 0 {
        None
    } else {
        match link_in_parts(files.last().parts@, guid) {
            Some(link) => Some(link),
            None => link_in_files(files.drop_last(), guid),
        }
    }
}

/// Where the chunk `guid` is fetched from: the last link that the files give
/// for it.
pub fn chunk_url(files: &Vec<FileManifest>, guid: &str) -> (r: Option<String>)
    ensures
        opt_text(r) == link_in_files(files@, guid@),
{
    let mut n: usize = files.len();
    assert(files@.take(n as int) =~= files@);
    while n > 0
        invariant
            n <= files@.len(),
            link_in_files(files@, guid@) == link_in_files(files@.take(n as int), guid@),
        decreases n,
    {
        let ghost head = files@.take(n as int);
        assert(head.drop_last() =~= files@.take(n - 1));
        assert(head.last() == files@[n - 1]);
        let parts = &files[n - 1].parts;
        let mut m: usize = parts.len();
        assert(parts@.take(m as int) =~= parts@);
        while m > 0
            invariant
                m <= parts@.len(),
                0 < n <= files@.len(),
                *parts == files@[n - 1].parts,
                link_in_files(files@, guid@) == link_in_files(files@.take(n as int), guid@),
                files@.take(n as int).last() == files@[n - 1],
                link_in_parts(parts@, guid@) == link_in_parts(parts@.take(m as int), guid@),
            decreases m,
        {
            let ghost stretch = parts@.take(m as int);
            assert(stretch.drop_last() =~= parts@.take(m - 1));
            assert(stretch.last() == parts@[m - 1]);
            if text::same(parts[m - 1].guid.as_str(), guid) {
                match &parts[m - 1].link {
                    Some(link) => {
                        return Some(link.clone());
                    },
                    None => {},
                }
            }
            m = m - 1;
        }
        n = n - 1;
    }
    None
}

/// One chunk to fetch.
#[derive(Debug)]
pub struct ChunkJob {
    pub guid: String,
    pub url: String,
    /// The SHA-1 of the decoded chunk, where the manifest gives it.
    pub expected_sha: Option<String>,
    /// The name of the scratch file.
    pub file_name: String,
}

/// The mathematical value of a [`ChunkJob`].
#[verifier::ext_equal]
pub struct JobView {
    pub guid: Seq<char>,
    pub url: Seq<char>,
    pub expected_sha: Option<Seq<char>>,
    pub file_name: Seq<char>,
}

impl View for ChunkJob {
    type V = JobView;

    open spec fn view(&self) -> JobView {
        JobView {
            guid: self.guid@,
            url: self.url@,
            expected_sha: opt_text(self.expected_sha),
            file_name: self.file_name@,
        }
    }
}

/// The values of a list of jobs.
pub open spec fn jobs_view(jobs: Seq<ChunkJob>) -> Seq<JobView> {
    jobs.map_values(|j: ChunkJob| j@)
}

/// The job for the chunk `guid`.
pub open spec fn job_spec(
    files: Seq<FileManifest>,
    shas: Seq<(String, String)>,
    guid: Seq<char>,
) -> Result<JobView, ErrorView> {
    match link_in_files(files, guid) {
        None => Err(ErrorView::Generic("no download URL for chunk "@ + guid)),
        Some(url) => Ok(
            JobView {
                guid,
                url,
                expected_sha: lookup_spec(shas, guid),
                file_name: guid + ".chunk"@,
            },
        ),
    }
}

/// The jobs for the chunks `guids`, or the error of the first that has none.
pub open spec fn jobs_spec(
    files: Seq<FileManifest>,
    shas: Seq<(String, String)>,
    guids: Seq<Seq<char>>,
) -> Result<Seq<JobView>, ErrorView>
    decreases guids.len(),
{
    if guids.len() == 0 {
        Ok(Seq::empty())
    } else {
        match jobs_spec(files, shas, guids.drop_last()) {
            Err(e) => Err(e),
            Ok(jobs) => match job_spec(files, shas, guids.last()) {
                Err(e) => Err(e),
                Ok(job) => Ok(jobs.push(job)),
            },
        }
    }
}

/// A list of jobs or an error, by its value.
pub open spec fn jobs_result(r: Result<Vec<ChunkJob>, FabCliError>) -> Result<
    Seq<JobView>,
    ErrorView,
> {
    match r {
        Ok(jobs) => Ok(jobs_view(jobs@)),
        Err(e) => Err(e@),
    }
}

proof fn lemma_jobs_fail(
    files: Seq<FileManifest>,
    shas: Seq<(String, String)>,
    guids: Seq<Seq<char>>,
    n: int,
    e: ErrorView,
)
    requires
        0 <= n <= guids.len(),
        jobs_spec(files, shas, guids.take(n)) == Err::<Seq<JobView>, ErrorView>(e),
    ensures
        jobs_spec(files, shas, guids) == Err::<Seq<JobView>, ErrorView>(e),
    decreases guids.len() - n,
{
    if n == guids.len() {
        assert(guids.take(n) =~= guids);
    } else {
        assert(guids.take(n + 1).drop_last() =~= guids.take(n));
        lemma_jobs_fail(files, shas, guids, n + 1, e);
    }
}

/// The chunks to fetch for `files`: each chunk once, with where it comes from
/// and the SHA-1 that the manifest gives for it. `shas` are the manifest's
/// pairs of chunk and SHA-1.
pub fn plan_chunks(files: &Vec<FileManifest>, shas: &Vec<(String, String)>) -> (r: Result<
    Vec<ChunkJob>,
    FabCliError,
>)
    ensures
        jobs_result(r) == jobs_spec(files@, shas@, sorted_unique_spec(all_guids(files@))),
{
    let guids = needed_chunks(files);
    let ghost all = texts(guids@);
    let mut jobs: Vec<ChunkJob> = Vec::new();
    let mut i: usize = 0;
    assert(jobs_view(jobs@) =~= Seq::<JobView>::empty());
    assert(all.take(0) =~= Seq::<Seq<char>>::empty());
    while i < guids.len()
        invariant
            i <= guids@.len(),
            all == texts(guids@),
            all == sorted_unique_spec(all_guids(files@)),
            jobs_spec(files@, shas@, all.take(i as int)) == Ok::<Seq<JobView>, ErrorView>(
                jobs_view(jobs@),
            ),
        decreases guids.len() - i,
    {
        let guid = guids[i].clone();
        assert(all.take(i + 1).drop_last() =~= all.take(i as int));
        assert(all.take(i + 1).last() == guid@);
        match chunk_url(files, guid.as_str()) {
            None => {
                let mut m = "no download URL for chunk ".to_owned();
                m.append(guid.as_str());
                let e = FabCliError::Generic(m);
                proof {
                    lemma_jobs_fail(files@, shas@, all, i + 1, e@);
                }
                return Err(e);
            },
            Some(url) => {
                let mut file_name = guid.clone();
                file_name.append(".chunk");
                let expected_sha = text::lookup(shas, guid.as_str());
                let job = ChunkJob { guid, url, expected_sha, file_name };
                let ghost prior = jobs@;
                jobs.push(job);
                assert(jobs_view(jobs@) =~= jobs_view(prior).push(job@));
            },
        }
        i = i + 1;
    }
    assert(all.take(all.len() as int) =~= all);
    Ok(jobs)
}

// ---------------------------------------------------------------------------
// What is planned, fetched and reported
// ---------------------------------------------------------------------------

/// A chunk is in the list of chunks exactly where some part of some file is of
/// it.
pub proof fn every_part_has_its_chunk(files: Seq<FileManifest>, guid: Seq<char>)
    ensures
        all_guids(files).contains(guid) <==> exists|f: int, p: int|
            0 <= f < files.len() && 0 <= p < files[f].parts@.len()
                && #[trigger] files[f].parts@[p].guid@ == guid,
    decreases files.len(),
{
    if files.len() > 0 {
        let head = files.drop_last();
        let last = files.len() - 1;
        let a = all_guids(head);
        let b = part_guids(files.last().parts@);
        every_part_has_its_chunk(head, guid);
        if (a + b).contains(guid) {
            let k = choose|k: int| 0 <= k < (a + b).len() && (a + b)[k] == guid;
            if k < a.len() {
                assert(a[k] == guid);
                let (f, p) = choose|f: int, p: int|
                    0 <= f < head.len() && 0 <= p < head[f].parts@.len()
                        && #[trigger] head[f].parts@[p].guid@ == guid;
                assert(files[f].parts@[p].guid@ == guid);
            } else {
                assert(b[k - a.len()] == guid);
                assert(files[last].parts@[k - a.len()].guid@ == guid);
            }
        }
        if exists|f: int, p: int|
            0 <= f < files.len() && 0 <= p < files[f].parts@.len()
                && #[trigger] files[f].parts@[p].guid@ == guid {
            let (f, p) = choose|f: int, p: int|
                0 <= f < files.len() && 0 <= p < files[f].parts@.len()
                    && #[trigger] files[f].parts@[p].guid@ == guid;
            if f < last {
                assert(head[f].parts@[p].guid@ == guid);
                let k = choose|k: int| 0 <= k < a.len() && a[k] == guid;
                assert((a + b)[k] == guid);
            } else {
                assert(b[p] == guid);
                assert((a + b)[a.len() + p] == guid);
            }
        }
    }
}

proof fn lemma_no_link(parts: Seq<ChunkPart>, guid: Seq<char>)
    requires
        forall|j: int|
            0 <= j < parts.len() ==> !((#[trigger] parts[j]).guid@ == guid && parts[j].link
                is Some),
    ensures
        link_in_parts(parts, guid) is None,
    decreases parts.len(),
{
    if parts.len() > 0 {
        let head = parts.drop_last();
        assert(!(parts[parts.len() - 1].guid@ == guid && parts[parts.len() - 1].link is Some));
        assert forall|j: int| 0 <= j < head.len() implies !((#[trigger] head[j]).guid@ == guid
            && head[j].link is Some) by {
            assert(head[j] == parts[j]);
        }
        lemma_no_link(head, guid);
    }
}

proof fn lemma_link_at(parts: Seq<ChunkPart>, guid: Seq<char>, p: int)
    requires
        0 <= p < parts.len(),
        parts[p].guid@ == guid,
        parts[p].link is Some,
        forall|j: int|
            p < j < parts.len() ==> !((#[trigger] parts[j]).guid@ == guid && parts[j].link
                is Some),
    ensures
        link_in_parts(parts, guid) == Some(parts[p].link->0@),
    decreases parts.len(),
{
    if p < parts.len() - 1 {
        let head = parts.drop_last();
        assert(!(parts[parts.len() - 1].guid@ == guid && parts[parts.len() - 1].link is Some));
        assert forall|j: int| p < j < head.len() implies !((#[trigger] head[j]).guid@ == guid
            && head[j].link is Some) by {
            assert(head[j] == parts[j]);
        }
        assert(head[p] == parts[p]);
        lemma_link_at(head, guid, p);
    }
}

/// A chunk is fetched from the last link that any part gives for it.
pub proof fn the_last_link_counts(files: Seq<FileManifest>, guid: Seq<char>, f: int, p: int)
    requires
        0 <= f < files.len(),
        0 <= p < files[f].parts@.len(),
        files[f].parts@[p].guid@ == guid,
        files[f].parts@[p].link is Some,
        forall|j: int|
            p < j < files[f].parts@.len() ==> !((#[trigger] files[f].parts@[j]).guid@ == guid
                && files[f].parts@[j].link is Some),
        forall|g: int, j: int|
            f < g < files.len() && 0 <= j < files[g].parts@.len() ==> !(
            #[trigger] files[g].parts@[j].guid@ == guid && files[g].parts@[j].link is Some),
    ensures
        link_in_files(files, guid) == Some(files[f].parts@[p].link->0@),
    decreases files.len(),
{
    if f == files.len() - 1 {
        lemma_link_at(files[f].parts@, guid, p);
    } else {
        let head = files.drop_last();
        let last = files.len() - 1;
        let parts = files[last].parts@;
        assert forall|j: int| 0 <= j < parts.len() implies !((#[trigger] parts[j]).guid@ == guid
            && parts[j].link is Some) by {
            assert(!(files[last].parts@[j].guid@ == guid && files[last].parts@[j].link is Some));
        }
        lemma_no_link(parts, guid);
        assert forall|g: int, j: int|
            f < g < head.len() && 0 <= j < head[g].parts@.len() implies !(
        #[trigger] head[g].parts@[j].guid@ == guid && head[g].parts@[j].link is Some) by {
            assert(!(files[g].parts@[j].guid@ == guid && files[g].parts@[j].link is Some));
        }
        assert(head[f] == files[f]);
        the_last_link_counts(head, guid, f, p);
    }
}

/// A chunk for which no part gives a link has none.
pub proof fn chunks_may_lack_a_link(files: Seq<FileManifest>, guid: Seq<char>)
    requires
        forall|g: int, j: int|
            0 <= g < files.len() && 0 <= j < files[g].parts@.len() ==> !(
            #[trigger] files[g].parts@[j].guid@ == guid && files[g].parts@[j].link is Some),
    ensures
        link_in_files(files, guid) is None,
    decreases files.len(),
{
    if files.len() > 0 {
        let head = files.drop_last();
        let last = files.len() - 1;
        let parts = files[last].parts@;
        assert forall|j: int| 0 <= j < parts.len() implies !((#[trigger] parts[j]).guid@ == guid
            && parts[j].link is Some) by {
            assert(!(files[last].parts@[j].guid@ == guid && files[last].parts@[j].link is Some));
        }
        lemma_no_link(parts, guid);
        assert forall|g: int, j: int|
            0 <= g < head.len() && 0 <= j < head[g].parts@.len() implies !(
        #[trigger] head[g].parts@[j].guid@ == guid && head[g].parts@[j].link is Some) by {
            assert(!(files[g].parts@[j].guid@ == guid && files[g].parts@[j].link is Some));
        }
        chunks_may_lack_a_link(head, guid);
    }
}

/// Where every chunk has a link, there is one job for each, in their order: it
/// fetches that chunk from its link, holds it against the hash that the manifest
/// gives for it, and keeps it in a file named after it.
pub proof fn jobs_fetch_their_chunks(
    files: Seq<FileManifest>,
    shas: Seq<(String, String)>,
    guids: Seq<Seq<char>>,
    i: int,
)
    requires
        forall|j: int|
            0 <= j < guids.len() ==> link_in_files(files, #[trigger] guids[j]) is Some,
        0 <= i < guids.len(),
    ensures
        jobs_spec(files, shas, guids) matches Ok(jobs) && {
            &&& jobs.len() == guids.len()
            &&& jobs[i].guid == guids[i]
            &&& Some(jobs[i].url) == link_in_files(files, guids[i])
            &&& jobs[i].expected_sha == lookup_spec(shas, guids[i])
            &&& jobs[i].file_name == guids[i] + ".chunk"@
        },
    decreases guids.len(),
{
    let head = guids.drop_last();
    assert forall|j: int| 0 <= j < head.len() implies link_in_files(
        files,
        #[trigger] head[j],
    ) is Some by {
        assert(head[j] == guids[j]);
    }
    assert(link_in_files(files, guids[guids.len() - 1]) is Some);
    if i < head.len() {
        jobs_fetch_their_chunks(files, shas, head, i);
        assert(head[i] == guids[i]);
    } else if head.len() > 0 {
        jobs_fetch_their_chunks(files, shas, head, 0);
    }
}

/// Where chunk `n` is the first without a link, nothing is fetched, and the
/// error names that chunk.
pub proof fn chunks_without_link_are_named(
    files: Seq<FileManifest>,
    shas: Seq<(String, String)>,
    guids: Seq<Seq<char>>,
    n: int,
)
    requires
        0 <= n < guids.len(),
        forall|j: int| 0 <= j < n ==> link_in_files(files, #[trigger] guids[j]) is Some,
        link_in_files(files, guids[n]) is None,
    ensures
        jobs_spec(files, shas, guids) == Err::<Seq<JobView>, ErrorView>(
            ErrorView::Generic("no download URL for chunk "@ + guids[n]),
        ),
    decreases guids.len(),
{
    let head = guids.drop_last();
    if n < head.len() {
        assert forall|j: int| 0 <= j < n implies link_in_files(files, #[trigger] head[j])
            is Some by {
            assert(head[j] == guids[j]);
        }
        assert(head[n] == guids[n]);
        chunks_without_link_are_named(files, shas, head, n);
    } else {
        assert forall|j: int| 0 <= j < head.len() implies link_in_files(
            files,
            #[trigger] head[j],
        ) is Some by {
            assert(head[j] == guids[j]);
        }
        if head.len() > 0 {
            jobs_fetch_their_chunks(files, shas, head, 0);
        }
    }
}

/// The manifest is fetched from the first distribution point of the first
/// answer; without an answer or a point there is nothing to fetch.
pub proof fn manifests_come_from_the_first_point(infos: Seq<Vec<String>>)
    ensures
        manifest_url_spec(infos) is Ok <==> infos.len() > 0 && infos[0]@.len() > 0,
        infos.len() > 0 && infos[0]@.len() > 0 ==> manifest_url_spec(infos) == Ok::<
            Seq<char>,
            ErrorView,
        >(infos[0]@[0]@),
        manifest_url_spec(infos) matches Err(e) ==> e is NotFound,
{
}

/// A download needs twice its size in free space: it goes on exactly where that
/// is there, or where nothing is known of the space.
pub proof fn downloads_need_twice_their_size(
    total_size: nat,
    available: Option<u64>,
    output_dir: Seq<char>,
)
    ensures
        check_space_spec(total_size, available, output_dir) is Ok <==> (available matches Some(free)
            ==> free >= total_size + total_size),
        available is None ==> check_space_spec(total_size, available, output_dir) == Ok::<
            Option<Seq<char>>,
            ErrorView,
        >(None),
        available is Some ==> (check_space_spec(total_size, available, output_dir) matches Ok(note)
            ==> note is Some),
        check_space_spec(total_size, available, output_dir) matches Err(e) ==> e is Generic,
{
}

/// Rounding to a whole number takes the nearest, and of two that are equally
/// near the even one.
pub proof fn rounding_takes_the_nearest(x: nat, m: nat)
    requires
        m > 0,
    ensures
        2 * x <= 2 * (half_even(x, m) * m) + m,
        2 * (half_even(x, m) * m) <= 2 * x + m,
        (2 * x == 2 * (half_even(x, m) * m) + m || 2 * (half_even(x, m) * m) == 2 * x + m)
            ==> half_even(x, m) % 2 == 0,
{
    let q = x / m;
    let r = x % m;
    assert(x == q * m + r && r < m) by (nonlinear_arith)
        requires
            m > 0,
            q == x / m,
            r == x % m,
    ;
    assert((q + 1) * m == q * m + m) by (nonlinear_arith);
}

/// The whole numbers that a double can hold: below the fifty-third power of two
/// all of them; above that their distance doubles each time their size does.
pub proof fn doubles_hold_fifty_three_bits(x: nat)
    ensures
        x < 0x20_0000_0000_0000 ==> nearest_double(x) == x,
        x >= 0x20_0000_0000_0000 ==> {
            &&& x < 0x20_0000_0000_0000 * spacing(x)
            &&& 0x10_0000_0000_0000 * spacing(x) <= x
        },
    decreases x,
{
    if x < 0x20_0000_0000_0000 {
        assert(spacing(x) == 1);
        assert(x / 1 == x && x % 1 == 0);
        assert(half_even(x, 1) == x);
        assert(nearest_double(x) == x * 1);
    } else {
        let h = x / 2;
        let s = spacing(h);
        doubles_hold_fifty_three_bits(h);
        assert(x < 0x20_0000_0000_0000 * (2 * s) && 0x10_0000_0000_0000 * (2 * s) <= x) by (
        nonlinear_arith)
            requires
                h == x / 2,
                h < 0x20_0000_0000_0000 * s,
                0x10_0000_0000_0000 * s <= h,
        ;
    }
}

/// What stands in the way of a target that is not scratch: a directory of its
/// name, anything else of its name, or a file where one of its directories
/// should be; and nothing else.
pub proof fn conflicts_say_what_is_there(target: PlannedTarget, rel: String)
    requires
        target.rel == Some(rel),
    ensures
        target.found == Found::Directory ==> conflict_of_spec(target, false) == Some(
            ConflictView { path: rel@, kind: ConflictKind::IsDirectory },
        ),
        target.found == Found::Other ==> conflict_of_spec(target, false) == Some(
            ConflictView { path: rel@, kind: ConflictKind::FileExists },
        ),
        target.found == Found::Nothing && has_file_ancestor_spec(target.above@)
            ==> conflict_of_spec(target, false) == Some(
            ConflictView { path: rel@, kind: ConflictKind::ParentIsFile },
        ),
        target.found == Found::Nothing && !has_file_ancestor_spec(target.above@)
            ==> conflict_of_spec(target, false) is None,
        conflict_of_spec(target, true) is None,
{
}

/// A file that is met on the way up, before the output directory, stands above a
/// target.
pub proof fn files_are_met_on_the_way_up(above: Seq<Above>, k: int)
    requires
        0 <= k < above.len(),
        above[k] == Above::File,
        forall|j: int| 0 <= j < k ==> #[trigger] above[j] == Above::Other,
    ensures
        has_file_ancestor_spec(above),
    decreases above.len(),
{
    if k > 0 {
        let rest = above.skip(1);
        assert(above[0] == Above::Other);
        assert forall|j: int| 0 <= j < k - 1 implies #[trigger] rest[j] == Above::Other by {
            assert(rest[j] == above[j + 1]);
        }
        assert(rest[k - 1] == above[k]);
        files_are_met_on_the_way_up(rest, k - 1);
    }
}

/// Where the way up comes to the output directory, or to its end, without a
/// file, none stands above the target, whatever lies further up.
pub proof fn the_way_up_ends_at_the_output_directory(above: Seq<Above>, k: int)
    requires
        0 <= k <= above.len(),
        k < above.len() ==> above[k] == Above::OutputDir,
        forall|j: int| 0 <= j < k ==> #[trigger] above[j] == Above::Other,
    ensures
        !has_file_ancestor_spec(above),
    decreases above.len(),
{
    if k > 0 {
        let rest = above.skip(1);
        assert(above[0] == Above::Other);
        assert forall|j: int| 0 <= j < k - 1 implies #[trigger] rest[j] == Above::Other by {
            assert(rest[j] == above[j + 1]);
        }
        if k < above.len() {
            assert(rest[k - 1] == above[k]);
        }
        the_way_up_ends_at_the_output_directory(rest, k - 1);
    }
}

/// The collisions of two runs of targets are those of the one and then those of
/// the other: each target's conflict is reported, in the order of the targets.
pub proof fn every_collision_is_reported(
    a: Seq<PlannedTarget>,
    b: Seq<PlannedTarget>,
    in_a: Seq<bool>,
    in_b: Seq<bool>,
    target: PlannedTarget,
    flag: bool,
)
    requires
        a.len() == in_a.len(),
        b.len() == in_b.len(),
    ensures
        collisions_spec(a + b, in_a + in_b) == collisions_spec(a, in_a) + collisions_spec(b, in_b),
        collisions_spec(seq![target], seq![flag]) == match conflict_of_spec(target, flag) {
            Some(c) => seq![c],
            None => Seq::empty(),
        },
    decreases b.len(),
{
    assert(seq![target].drop_last() =~= Seq::<PlannedTarget>::empty());
    assert(collisions_spec(seq![target].drop_last(), seq![flag].drop_last()) =~= Seq::<
        ConflictView,
    >::empty());
    assert(collisions_spec(seq![target], seq![flag]) =~= match conflict_of_spec(target, flag) {
        Some(c) => seq![c],
        None => Seq::empty(),
    });
    if b.len() == 0 {
        assert(a + b =~= a);
        assert(in_a + in_b =~= in_a);
        assert(collisions_spec(a, in_a) + collisions_spec(b, in_b) =~= collisions_spec(a, in_a));
    } else {
        every_collision_is_reported(a, b.drop_last(), in_a, in_b.drop_last(), target, flag);
        assert((a + b).drop_last() =~= a + b.drop_last());
        assert((in_a + in_b).drop_last() =~= in_a + in_b.drop_last());
        assert((a + b).last() == b.last());
        assert((in_a + in_b).last() == in_b.last());
        assert(collisions_spec(a + b, in_a + in_b) =~= collisions_spec(a, in_a) + collisions_spec(
            b,
            in_b,
        ));
    }
}

/// The entries that should not be there are all that are not scratch, in their
/// order.
pub proof fn every_other_entry_is_reported(
    a: Seq<Seq<char>>,
    b: Seq<Seq<char>>,
    in_a: Seq<bool>,
    in_b: Seq<bool>,
    entry: Seq<char>,
)
    requires
        a.len() == in_a.len(),
        b.len() == in_b.len(),
    ensures
        unexpected_spec(a + b, in_a + in_b) == unexpected_spec(a, in_a) + unexpected_spec(b, in_b),
        unexpected_spec(seq![entry], seq![false]) == seq![entry],
        unexpected_spec(seq![entry], seq![true]) == Seq::<Seq<char>>::empty(),
    decreases b.len(),
{
    assert(seq![entry].drop_last() =~= Seq::<Seq<char>>::empty());
    assert(unexpected_spec(seq![entry].drop_last(), seq![false].drop_last()) =~= Seq::<
        Seq<char>,
    >::empty());
    assert(unexpected_spec(seq![entry].drop_last(), seq![true].drop_last()) =~= Seq::<
        Seq<char>,
    >::empty());
    assert(unexpected_spec(seq![entry], seq![false]) =~= seq![entry]);
    if b.len() == 0 {
        assert(a + b =~= a);
        assert(in_a + in_b =~= in_a);
        assert(unexpected_spec(a, in_a) + unexpected_spec(b, in_b) =~= unexpected_spec(a, in_a));
    } else {
        every_other_entry_is_reported(a, b.drop_last(), in_a, in_b.drop_last(), entry);
        assert((a + b).drop_last() =~= a + b.drop_last());
        assert((in_a + in_b).drop_last() =~= in_a + in_b.drop_last());
        assert((a + b).last() == b.last());
        assert((in_a + in_b).last() == in_b.last());
        assert(unexpected_spec(a + b, in_a + in_b) =~= unexpected_spec(a, in_a) + unexpected_spec(
            b,
            in_b,
        ));
    }
}

/// Which modes refuse: the default one any conflict, that for empty directories
/// any entry, the forced one nothing; and the error holds all that was found.
pub proof fn modes_refuse_what_they_must(
    mode: OverwriteMode,
    output_dir: Seq<char>,
    unexpected: Seq<Seq<char>>,
    conflicts: Seq<ConflictView>,
)
    requires
        conflicts.len() <= usize::MAX,
    ensures
        mode == OverwriteMode::Force ==> check_output_spec(mode, output_dir, unexpected, conflicts)
            is Ok,
        mode == OverwriteMode::Default ==> (check_output_spec(
            mode,
            output_dir,
            unexpected,
            conflicts,
        ) is Ok <==> conflicts.len() == 0),
        mode == OverwriteMode::IntoEmpty ==> (check_output_spec(
            mode,
            output_dir,
            unexpected,
            conflicts,
        ) is Ok <==> unexpected.len() == 0),
        mode == OverwriteMode::Default && conflicts.len() > 0 ==> (check_output_spec(
            mode,
            output_dir,
            unexpected,
            conflicts,
        ) matches Err(
            ErrorView::OutputCollision { conflicts: told, total_conflicts, output_dir: dir, .. },
        ) && told == conflicts && total_conflicts == conflicts.len() && dir == output_dir),
        mode == OverwriteMode::IntoEmpty && unexpected.len() > 0 ==> (check_output_spec(
            mode,
            output_dir,
            unexpected,
            conflicts,
        ) matches Err(ErrorView::OutputNotEmpty { unexpected_entries, output_dir: dir, .. })
            && unexpected_entries == unexpected && dir == output_dir),
{
}

/// Scratch is the directory of its name and what lies below it, and not what
/// merely begins with that name.
pub proof fn scratch_is_one_directory(rest: Seq<char>, c: char)
    ensures
        in_chunk_dir_spec(".fabcli-chunks"@),
        in_chunk_dir_spec(".fabcli-chunks"@.push('/') + rest),
        c != '/' ==> !in_chunk_dir_spec(".fabcli-chunks"@.push(c) + rest),
        in_chunk_dir_spec(rest) ==> starts_with_spec(rest, ".fabcli-chunks"@),
{
    let name = ".fabcli-chunks"@;
    let inside = name.push('/') + rest;
    let other = name.push(c) + rest;
    assert(inside.take(name.len() as int + 1) =~= name.push('/'));
    if c != '/' && starts_with_spec(other, name.push('/')) {
        assert(other.take(name.len() as int + 1)[name.len() as int] == '/');
        assert(other[name.len() as int] == c);
    }
    assert(other.len() > name.len());
    if rest == name {
        assert(rest.take(name.len() as int) =~= name);
    } else if starts_with_spec(rest, name.push('/')) {
        crate::text::lemma_shorter_prefix(rest, name, '/');
    }
}

/// Sizes are given in megabytes of 2^20 bytes, as the nearest whole number or
/// the nearest tenth.
pub proof fn sizes_are_given_in_megabytes(bytes: nat)
    requires
        bytes < 0x20_0000_0000_0000,
    ensures
        2 * bytes <= 2 * (megabytes(bytes) * 0x10_0000) + 0x10_0000,
        2 * (megabytes(bytes) * 0x10_0000) <= 2 * bytes + 0x10_0000,
        exists|tenths: nat|
            megabytes_text(bytes) == #[trigger] decimal_spec(tenths / 10) + "."@ + decimal_spec(
                tenths % 10,
            ) && 20 * bytes <= 2 * (tenths * 0x10_0000) + 0x10_0000 && 2 * (tenths * 0x10_0000)
                <= 20 * bytes + 0x10_0000,
{
    doubles_hold_fifty_three_bits(bytes);
    rounding_takes_the_nearest(bytes, 0x10_0000);
    let tenths = half_even(bytes * 10, 0x10_0000);
    rounding_takes_the_nearest(bytes * 10, 0x10_0000);
    assert(megabytes_text(bytes) == decimal_spec(tenths / 10) + "."@ + decimal_spec(tenths % 10));
}

/// What a refusal says: the directory and how many conflicts or entries there
/// are.
pub proof fn refusals_say_how_many(
    output_dir: Seq<char>,
    unexpected: Seq<Seq<char>>,
    conflicts: Seq<ConflictView>,
)
    ensures
        text::contains_spec(
            crate::error::message_spec(collision_error(output_dir, conflicts)),
            output_dir + " has "@ + decimal_spec(conflicts.len()),
        ),
        text::contains_spec(
            crate::error::message_spec(not_empty_error(output_dir, unexpected)),
            decimal_spec(unexpected.len()),
        ),
        text::contains_spec(
            crate::error::message_spec(not_empty_error(output_dir, unexpected)),
            output_dir,
        ),
{
    let none = Seq::<char>::empty();
    let head = output_dir + " has "@ + decimal_spec(conflicts.len());
    let long = " conflicts; first "@ + decimal_spec(COLLISION_REPORT_LIMIT as nat) + " listed"@;
    let short = " "@ + (if conflicts.len() == 1 {
        "conflict"@
    } else {
        "conflicts"@
    });
    text::parts_are_found(none, head, long, none);
    text::parts_are_found(none, head, short, none);
    let m = crate::error::message_spec(collision_error(output_dir, conflicts));
    assert(m =~= none + head + (if conflicts.len() > COLLISION_REPORT_LIMIT {
        long
    } else {
        short
    }));
    let a = "--into-empty requires "@;
    let b = " to contain only `.fabcli-chunks/`; found "@;
    let count = decimal_spec(unexpected.len());
    let c = " other "@ + (if unexpected.len() == 1 {
        "entry"@
    } else {
        "entries"@
    });
    let n = crate::error::message_spec(not_empty_error(output_dir, unexpected));
    text::parts_are_found(a + output_dir + b, count, c, none);
    assert(n =~= a + output_dir + b + count + c);
    text::parts_are_found(a, output_dir, b + count + c, none);
    assert(n =~= a + output_dir + (b + count + c));
}

/// What is announced: the numbers of files and chunks and the size; and where
/// the space does not suffice, what is needed and what is there.
pub proof fn announcements_hold_the_numbers(
    files: nat,
    chunks: nat,
    total_size: nat,
    free: u64,
    output_dir: Seq<char>,
)
    ensures
        announcement_spec(files, chunks, total_size) == "[download] "@ + decimal_spec(files)
            + " files, "@ + decimal_spec(chunks) + " chunks, "@ + megabytes_text(total_size)
            + " MB to download"@,
        check_space_spec(total_size, Some(free), output_dir) matches Err(e) ==> text::contains_spec(
            crate::error::message_spec(e),
            decimal_spec(megabytes(total_size + total_size)),
        ) && text::contains_spec(
            crate::error::message_spec(e),
            decimal_spec(megabytes(free as nat)),
        ) && text::contains_spec(crate::error::message_spec(e), output_dir),
{
    let none = Seq::<char>::empty();
    let a = "insufficient disk space: need ~"@;
    let b = " MB (2x asset size for temp chunks + final files), only "@;
    let c = " MB available on "@;
    let x = decimal_spec(megabytes(2 * total_size));
    let y = decimal_spec(megabytes(free as nat));
    let m = a + x + b + y + c + output_dir;
    assert(2 * total_size == total_size + total_size);
    text::parts_are_found(a, x, b + y + c + output_dir, none);
    assert(m =~= a + x + (b + y + c + output_dir));
    text::parts_are_found(a + x + b, y, c + output_dir, none);
    assert(m =~= a + x + b + y + (c + output_dir));
    text::parts_are_found(a + x + b + y + c, output_dir, none, none);
    assert(m =~= a + x + b + y + c + output_dir + none);
}

} // verus!
