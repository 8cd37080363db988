//! The parts that a path is made of.
//!
//! How a path is read differs between platforms: a backslash is a separator on
//! some and a character like any other elsewhere, and so are drive letters and
//! network roots. A portable path is one that every platform reads alike. Of a
//! path with backslashes that has neither a drive nor a network root both
//! readings are stated, and of all paths what their texts tell.
use crate::text;
use crate::text::{free_of, split_spec, texts};
use vstd::prelude::*;

verus! {

/// A part of a path.
#[derive(Debug, PartialEq, Eq)]
pub enum Part {
    /// A drive letter or network root.
    Prefix,
    /// The root directory.
    RootDir,
    /// `.` at the beginning.
    CurDir,
    /// `..`
    ParentDir,
    /// A name.
    Normal(String),
}

/// The mathematical value of a [`Part`].
pub enum PartView {
    Prefix,
    RootDir,
    CurDir,
    ParentDir,
    Normal(Seq<char>),
}

impl View for Part {
    type V = PartView;

    open spec fn view(&self) -> PartView {
        match self {
            Part::Prefix => PartView::Prefix,
            Part::RootDir => PartView::RootDir,
            Part::CurDir => PartView::CurDir,
            Part::ParentDir => PartView::ParentDir,
            Part::Normal(n) => PartView::Normal(n@),
        }
    }
}

/// The values of a list of parts.
pub open spec fn parts_view(parts: Seq<Part>) -> Seq<PartView> {
    parts.map_values(|p: Part| p@)
}

/// A character that is a separator on some platform.
pub open spec fn is_separator(c: char) -> bool {
    c == '/' || c == '\\'
}

/// A letter that names a drive.
pub open spec fn is_letter(c: char) -> bool {
    ('a' <= c && c <= 'z') || ('A' <= c && c <= 'Z')
}

/// A path that begins with a drive letter.
pub open spec fn has_drive(path: Seq<char>) -> bool {
    path.len() >= 2 && is_letter(path[0]) && path[1] == ':'
}

/// A path that begins as a network root does.
pub open spec fn has_two_separators(path: Seq<char>) -> bool {
    path.len() >= 2 && is_separator(path[0]) && is_separator(path[1])
}

/// A path without a drive and a network root.
pub open spec fn has_no_prefix(path: Seq<char>) -> bool {
    !has_drive(path) && !has_two_separators(path)
}

/// A path that on no platform begins at a root or with a drive.
pub open spec fn is_relative(path: Seq<char>) -> bool {
    !(path.len() > 0 && is_separator(path[0])) && !has_drive(path)
}

/// A path that every platform reads alike: no backslash is in it, and neither
/// two slashes nor a drive letter are at its beginning.
pub open spec fn is_portable(path: Seq<char>) -> bool {
    &&& forall|i: int| 0 <= i < path.len() ==> #[trigger] path[i] != '\\'
    &&& has_no_prefix(path)
}

/// A path that begins at the root.
pub open spec fn is_rooted(path: Seq<char>) -> bool {
    path.len() > 0 && path[0] == '/'
}

/// `path` with slashes for its backslashes: as a platform reads it on which
/// those are separators.
pub open spec fn slashed(path: Seq<char>) -> Seq<char> {
    path.map_values(
        |c: char|
            if c == '\\' {
                '/'
            } else {
                c
            },
    )
}

/// A portable path has one reading.
pub proof fn portable_paths_read_alike(path: Seq<char>)
    requires
        is_portable(path),
    ensures
        slashed(path) == path,
        !is_rooted(path) ==> is_relative(path),
{
    assert(slashed(path) =~= path);
}

/// Whether `path` on no platform begins at a root or with a drive.
pub fn relative(path: &str) -> (r: bool)
    ensures
        r == is_relative(path@),
{
    let chars = text::to_chars(path);
    !(chars.len() > 0 && (chars[0] == '/' || chars[0] == '\\')) && !begins_with_drive(&chars)
}

fn begins_with_drive(chars: &Vec<char>) -> (r: bool)
    ensures
        r == has_drive(chars@),
{
    if chars.len() < 2 || chars[1] != ':' {
        return false;
    }
    let c = chars[0];
    ('a' <= c && c <= 'z') || ('A' <= c && c <= 'Z')
}

/// Whether `path` begins at the root or with a drive letter.
pub fn is_anchored(path: &str) -> (r: bool)
    ensures
        r == (is_rooted(path@) || has_drive(path@)),
{
    let chars = text::to_chars(path);
    (chars.len() > 0 && chars[0] == '/') || begins_with_drive(&chars)
}

/// The parts that the pieces between the slashes stand for: an empty piece and
/// a later `.` stand for none.
pub open spec fn piece_parts(pieces: Seq<Seq<char>>) -> Seq<PartView>
    decreases pieces.len(),
{
    if pieces.len() == 0 {
        Seq::empty()
    } else {
        let before = piece_parts(pieces.drop_last());
        let piece = pieces.last();
        if piece.len() == 0 {
            before
        } else if piece == seq!['.'] {
            if pieces.len() == 1 {
                before.push(PartView::CurDir)
            } else {
                before
            }
        } else if piece == seq!['.', '.'] {
            before.push(PartView::ParentDir)
        } else {
            before.push(PartView::Normal(piece))
        }
    }
}

/// The parts of a portable path.
pub open spec fn parts_spec(path: Seq<char>) -> Seq<PartView> {
    if is_rooted(path) {
        seq![PartView::RootDir] + piece_parts(split_spec(path, '/'))
    } else {
        piece_parts(split_spec(path, '/'))
    }
}

/// `parts` climbs to a parent directory somewhere.
pub open spec fn climbs(parts: Seq<PartView>) -> bool {
    parts.contains(PartView::ParentDir)
}

proof fn lemma_climbing_pieces(pieces: Seq<Seq<char>>)
    ensures
        climbs(piece_parts(pieces)) <==> pieces.contains(seq!['.', '.']),
    decreases pieces.len(),
{
    if pieces.len() > 0 {
        let init = pieces.drop_last();
        lemma_climbing_pieces(init);
        let before = piece_parts(init);
        let all = piece_parts(pieces);
        if pieces.contains(seq!['.', '.']) {
            let k = choose|k: int| 0 <= k < pieces.len() && pieces[k] == seq!['.', '.'];
            if k < init.len() {
                assert(init[k] == seq!['.', '.']);
                let j = choose|j: int| 0 <= j < before.len() && before[j] == PartView::ParentDir;
                assert(all[j] == PartView::ParentDir);
            } else {
                assert(pieces.last()[1] == '.');
                assert(all[all.len() - 1] == PartView::ParentDir);
            }
        }
        if climbs(all) {
            let j = choose|j: int| 0 <= j < all.len() && all[j] == PartView::ParentDir;
            if j < before.len() {
                assert(before[j] == PartView::ParentDir);
                let k = choose|k: int| 0 <= k < init.len() && init[k] == seq!['.', '.'];
                assert(pieces[k] == seq!['.', '.']);
            } else {
                assert(pieces[pieces.len() - 1] == seq!['.', '.']);
            }
        }
    }
}

proof fn lemma_climbing(path: Seq<char>)
    ensures
        climbs(parts_spec(path)) <==> split_spec(path, '/').contains(seq!['.', '.']),
{
    let pieces = split_spec(path, '/');
    let inner = piece_parts(pieces);
    lemma_climbing_pieces(pieces);
    if is_rooted(path) {
        let all = parts_spec(path);
        if climbs(inner) {
            let j = choose|j: int| 0 <= j < inner.len() && inner[j] == PartView::ParentDir;
            assert(all[j + 1] == PartView::ParentDir);
        }
        if climbs(all) {
            let j = choose|j: int| 0 <= j < all.len() && all[j] == PartView::ParentDir;
            assert(inner[j - 1] == PartView::ParentDir);
        }
    }
}

/// No part of a path that does not begin at the root is a root.
pub proof fn relative_paths_have_no_root(path: Seq<char>)
    requires
        !is_rooted(path),
    ensures
        forall|i: int|
            0 <= i < parts_spec(path).len() ==> !(#[trigger] parts_spec(path)[i] is RootDir)
                && !(parts_spec(path)[i] is Prefix),
{
    lemma_pieces_have_no_root(split_spec(path, '/'));
}

proof fn lemma_pieces_have_no_root(pieces: Seq<Seq<char>>)
    ensures
        forall|i: int|
            0 <= i < piece_parts(pieces).len() ==> !(#[trigger] piece_parts(pieces)[i] is RootDir)
                && !(piece_parts(pieces)[i] is Prefix),
    decreases pieces.len(),
{
    if pieces.len() > 0 {
        lemma_pieces_have_no_root(pieces.drop_last());
    }
}

/// A name without slashes is one piece.
pub proof fn names_without_slashes_are_one_piece(name: Seq<char>)
    requires
        free_of(name, '/'),
    ensures
        split_spec(name, '/') =~= seq![name],
    decreases name.len(),
{
    if name.len() > 0 {
        names_without_slashes_are_one_piece(name.drop_last());
        assert(name.drop_last().push(name.last()) =~= name);
    } else {
        assert(name =~= Seq::<char>::empty());
    }
}

/// A name of more than two characters without a slash neither begins at the root
/// nor climbs.
pub proof fn longer_names_do_not_climb(name: Seq<char>)
    requires
        free_of(name, '/'),
        name.len() > 2,
    ensures
        !is_rooted(name),
        !climbs(parts_spec(name)),
{
    names_without_slashes_are_one_piece(name);
    lemma_climbing(name);
    assert(seq!['.', '.'].len() == 2);
}

/// Whether `path`, read by its slashes, climbs to a parent directory somewhere.
pub fn climbs_by_slashes(path: &str) -> (r: bool)
    ensures
        r == climbs(parts_spec(path@)),
{
    let pieces = text::split(path, '/');
    let ghost all = texts(pieces@);
    proof {
        lemma_climbing(path@);
        reveal_strlit("..");
        assert(".."@ =~= seq!['.', '.']);
    }
    let mut i: usize = 0;
    while i < pieces.len()
        invariant
            i <= pieces@.len(),
            all == texts(pieces@),
            all == split_spec(path@, '/'),
            ".."@ == seq!['.', '.'],
            climbs(parts_spec(path@)) <==> all.contains(seq!['.', '.']),
            forall|j: int| 0 <= j < i ==> #[trigger] all[j] != seq!['.', '.'],
        decreases pieces.len() - i,
    {
        assert(all[i as int] == pieces@[i as int]@);
        if text::same(pieces[i].as_str(), "..") {
            return true;
        }
        i = i + 1;
    }
    false
}

/// The parts of `path`, by `std::path::Path::components`. On a path without a
/// drive and a network root they are the names between the separators, `..`
/// being the parent directory; whether backslashes separate as slashes do is the
/// platform's. Paths with a drive or a network root are read as the platform
/// reads them, and nothing is stated.
#[verifier::external_body]
pub(crate) fn components(path: &str) -> (r: Vec<Part>)
    ensures
        is_portable(path@) ==> parts_view(r@) == parts_spec(path@),
        has_no_prefix(path@) ==> parts_view(r@) == parts_spec(path@) || parts_view(r@)
            == parts_spec(slashed(path@)),
{
    std::path::Path::new(path).components().map(|c| match c {
        std::path::Component::Prefix(_) => Part::Prefix,
        std::path::Component::RootDir => Part::RootDir,
        std::path::Component::CurDir => Part::CurDir,
        std::path::Component::ParentDir => Part::ParentDir,
        std::path::Component::Normal(n) => Part::Normal(n.to_string_lossy().into_owned()),
    }).collect()
}

/// Whether `path` is absolute, by `std::path::Path::is_absolute`. No path is
/// that begins neither at a root nor with a drive. (On a platform with drive
/// letters one that begins at the root is not absolute either.)
#[verifier::external_body]
pub(crate) fn is_absolute(path: &str) -> (r: bool)
    ensures
        is_relative(path@) ==> !r,
{
    std::path::Path::new(path).is_absolute()
}

/// A drive letter and nothing else.
pub open spec fn is_drive(path: Seq<char>) -> bool {
    path.len() == 2 && has_drive(path)
}

/// `base` with `name` behind it: a separator stands between them where `base`
/// does not end in one. Behind a drive letter there may be none.
pub open spec fn joined(base: Seq<char>, name: Seq<char>, r: Seq<char>) -> bool {
    if base.len() == 0 || base.last() == '/' {
        r == base + name
    } else {
        ||| r == base.push('/') + name
        ||| r == base.push('\\') + name
        ||| (base.last() == '\\' || is_drive(base)) && r == base + name
    }
}

/// A path that a platform may take as it is, and put names behind in its own
/// way.
pub open spec fn is_verbatim(path: Seq<char>) -> bool {
    path.len() >= 3 && has_two_separators(path) && path[2] == '?'
}

/// Behind the backslash at `at` stands a piece that is `.` or `..`.
pub open spec fn dots_behind(path: Seq<char>, at: int) -> bool {
    &&& at + 1 < path.len() && path[at + 1] == '.'
    &&& {
        ||| at + 2 == path.len()
        ||| path[at + 2] == '\\'
        ||| path[at + 2] == '.' && (at + 3 == path.len() || path[at + 3] == '\\')
    }
}

/// A verbatim directory in which there is nothing to tidy up: no empty piece,
/// and none that is `.` or `..`.
pub open spec fn is_tidy(path: Seq<char>) -> bool {
    &&& is_verbatim(path) && path.len() >= 5
    &&& !is_separator(path.last()) && path.last() != ':'
    &&& forall|i: int|
        3 <= i < path.len() && #[trigger] path[i] == '\\' ==> i + 1 < path.len() && path[i + 1]
            != '\\' && !dots_behind(path, i)
}

/// A name in which there is nothing to tidy up, whichever characters separate:
/// no empty piece, and none that is `.` or `..`.
pub open spec fn is_tidy_name(name: Seq<char>) -> bool {
    forall|i: int|
        0 <= i < split_spec(slashed(name), '/').len() ==> {
            let piece = #[trigger] split_spec(slashed(name), '/')[i];
            piece.len() > 0 && piece != seq!['.'] && piece != seq!['.', '.']
        }
}

/// `base`, a separator and `name`, some of whose separators may be others.
pub open spec fn joined_alike(base: Seq<char>, name: Seq<char>, r: Seq<char>) -> bool {
    &&& r.len() == base.len() + 1 + name.len()
    &&& base.is_prefix_of(r)
    &&& is_separator(r[base.len() as int])
    &&& slashed(r.skip(base.len() as int + 1)) == slashed(name)
}

/// `r` is `name` put behind `base`: one behind the other, with a separator
/// between them where `base` does not end in one. Behind a verbatim directory
/// the name may be tidied up and its separators be changed; where there is
/// nothing to tidy up, no more than that.
pub open spec fn placed(base: Seq<char>, name: Seq<char>, r: Seq<char>) -> bool {
    if is_verbatim(base) {
        is_tidy(base) && is_tidy_name(name) ==> joined_alike(base, name, r)
    } else {
        joined(base, name, r)
    }
}

/// Whether `path` is `name` put behind `base` as they are.
pub fn is_joined(base: &str, name: &str, path: &str) -> (r: bool)
    ensures
        r == joined(base@, name@, path@),
{
    let chars = text::to_chars(base);
    let mut direct = base.to_owned();
    direct.append(name);
    if chars.len() == 0 || chars[chars.len() - 1] == '/' {
        return text::same(path, direct.as_str());
    }
    let mut by_slash = base.to_owned();
    by_slash.push('/');
    by_slash.append(name);
    let mut by_backslash = base.to_owned();
    by_backslash.push('\\');
    by_backslash.append(name);
    let adjoins = chars[chars.len() - 1] == '\\' || (chars.len() == 2 && begins_with_drive(&chars));
    text::same(path, by_slash.as_str()) || text::same(path, by_backslash.as_str()) || (adjoins
        && text::same(path, direct.as_str()))
}

/// `path` lies in `base`, by their texts: something stands behind `base` and a
/// separator.
pub open spec fn lies_behind(base: Seq<char>, path: Seq<char>) -> bool {
    &&& base.is_prefix_of(path)
    &&& base.len() < path.len()
    &&& base.len() == 0 || is_separator(base.last()) || is_drive(base) || is_separator(
        path[base.len() as int],
    )
}

/// The portable path `path` lies in `base` or is it: the parts of `base` come
/// first, and none of the others leads out again.
pub open spec fn stays_inside(base: Seq<char>, path: Seq<char>) -> bool {
    &&& parts_spec(base).is_prefix_of(parts_spec(path))
    &&& forall|i: int|
        parts_spec(base).len() <= i < parts_spec(path).len() ==> #[trigger] parts_spec(path)[i]
            is Normal || parts_spec(path)[i] is CurDir
}

/// A name put behind a directory lies in it.
pub proof fn placed_names_lie_behind(base: Seq<char>, name: Seq<char>, path: Seq<char>)
    requires
        placed(base, name, path),
        name.len() > 0,
        is_verbatim(base) ==> is_tidy(base) && is_tidy_name(name),
    ensures
        lies_behind(base, path),
{
}

/// What lies in a directory that lies in another lies in that one.
pub proof fn lying_behind_is_transitive(a: Seq<char>, b: Seq<char>, c: Seq<char>)
    requires
        lies_behind(a, b),
        lies_behind(b, c),
    ensures
        lies_behind(a, c),
{
    assert(forall|i: int| 0 <= i < b.len() ==> #[trigger] c[i] == b[i]);
}

proof fn lemma_parts_behind(front: Seq<Seq<char>>, back: Seq<Seq<char>>)
    ensures
        piece_parts(front).is_prefix_of(piece_parts(front + back)),
        forall|i: int|
            piece_parts(front).len() <= i < piece_parts(front + back).len() ==> {
                ||| #[trigger] piece_parts(front + back)[i] is Normal
                ||| piece_parts(front + back)[i] is CurDir
                ||| back.contains(seq!['.', '.'])
            },
    decreases back.len(),
{
    if back.len() == 0 {
        assert(front + back =~= front);
    } else {
        let init = back.drop_last();
        lemma_parts_behind(front, init);
        assert((front + back).drop_last() =~= front + init);
        assert((front + back).last() == back.last());
        if init.contains(seq!['.', '.']) {
            let k = choose|k: int| 0 <= k < init.len() && init[k] == seq!['.', '.'];
            assert(back[k] == seq!['.', '.']);
        }
        if back.last() == seq!['.', '.'] {
            assert(back[back.len() - 1] == seq!['.', '.']);
        }
    }
}

proof fn lemma_split_behind(base: Seq<char>, name: Seq<char>)
    requires
        base.len() > 0,
        base.last() == '/',
    ensures
        split_spec(base, '/').len() > 0,
        split_spec(base, '/').last() =~= Seq::<char>::empty(),
        split_spec(name, '/').len() > 0,
        split_spec(base + name, '/') =~= split_spec(base, '/').drop_last() + split_spec(name, '/'),
    decreases name.len(),
{
    if name.len() == 0 {
        assert(base + name =~= base);
        let pieces = split_spec(base, '/');
        assert(pieces =~= pieces.drop_last().push(pieces.last()));
    } else {
        let head = name.drop_last();
        lemma_split_behind(base, head);
        assert((base + name).drop_last() =~= base + head);
        assert((base + name).last() == name.last());
    }
}

proof fn lemma_trailing_slash(base: Seq<char>)
    requires
        base.len() > 0,
    ensures
        parts_spec(base.push('/')) == parts_spec(base),
{
    let longer = base.push('/');
    assert(longer.drop_last() =~= base);
    let pieces = split_spec(longer, '/');
    assert(pieces.drop_last() =~= split_spec(base, '/'));
    assert(pieces.last() =~= Seq::<char>::empty());
    assert(piece_parts(pieces) == piece_parts(split_spec(base, '/')));
    assert(longer[0] == base[0]);
}

proof fn lemma_behind_slash(base: Seq<char>, name: Seq<char>)
    requires
        base.len() > 0,
        base.last() == '/',
        !climbs(parts_spec(name)),
    ensures
        stays_inside(base, base + name),
{
    let whole = base + name;
    lemma_split_behind(base, name);
    lemma_climbing(name);
    let pieces = split_spec(base, '/');
    let front = pieces.drop_last();
    let back = split_spec(name, '/');
    assert(piece_parts(pieces) == piece_parts(front));
    assert(split_spec(whole, '/') =~= front + back);
    lemma_parts_behind(front, back);
    assert(whole[0] == base[0]);
    let n = piece_parts(front).len();
    let inner = piece_parts(front + back);
    if is_rooted(base) {
        assert(parts_spec(base).is_prefix_of(parts_spec(whole)));
        assert forall|i: int| n + 1 <= i < parts_spec(whole).len() implies (
        #[trigger] parts_spec(whole)[i] is Normal || parts_spec(whole)[i] is CurDir) by {
            assert(parts_spec(whole)[i] == inner[i - 1]);
        }
    }
}

proof fn lemma_joined_by_slash(base: Seq<char>, name: Seq<char>, path: Seq<char>)
    requires
        !climbs(parts_spec(name)),
        !is_rooted(name),
        base.len() == 0 || base.last() == '/' ==> path == base + name,
        base.len() > 0 && base.last() != '/' ==> path == base.push('/') + name,
    ensures
        stays_inside(base, path),
{
    if base.len() == 0 {
        assert(path =~= name);
        let back = split_spec(name, '/');
        let front = Seq::<Seq<char>>::empty();
        assert(front + back =~= back);
        lemma_parts_behind(front, back);
        lemma_climbing(name);
        assert(split_spec(base, '/') =~= seq![Seq::<char>::empty()]);
        reveal_with_fuel(piece_parts, 2);
        assert(parts_spec(base) =~= Seq::<PartView>::empty());
        assert(piece_parts(front) =~= Seq::<PartView>::empty());
    } else if base.last() == '/' {
        lemma_behind_slash(base, name);
    } else {
        lemma_trailing_slash(base);
        lemma_behind_slash(base.push('/'), name);
    }
}

/// A name that is relative and does not climb, put behind a directory, stays
/// inside it where slashes alone separate: there the whole path is portable.
pub proof fn joined_names_stay_inside(base: Seq<char>, name: Seq<char>, path: Seq<char>)
    requires
        !is_rooted(name),
        !climbs(parts_spec(name)),
        joined(base, name, path),
        is_portable(path),
    ensures
        stays_inside(base, path),
{
    if base.len() > 0 && base.last() != '/' && path != base.push('/') + name {
        if path == base.push('\\') + name {
            assert(path[base.len() as int] == '\\');
        } else if base.last() == '\\' {
            assert(path[base.len() - 1] == '\\');
        } else {
            assert(path[0] == base[0] && path[1] == base[1]);
        }
    }
    lemma_joined_by_slash(base, name, path);
}

/// A name that is relative and does not climb, put behind a directory, stays
/// inside it where backslashes separate too.
pub proof fn placed_names_stay_inside(base: Seq<char>, name: Seq<char>, path: Seq<char>)
    requires
        is_relative(name),
        !climbs(parts_spec(slashed(name))),
        placed(base, name, path),
        !is_drive(base),
        is_verbatim(base) ==> is_tidy(base) && is_tidy_name(name),
    ensures
        stays_inside(slashed(base), slashed(path)),
{
    let b = slashed(base);
    let n = slashed(name);
    let p = slashed(path);
    assert(!is_rooted(n));
    if base.len() > 0 {
        assert(b.last() == '/' <==> is_separator(base.last()));
    }
    if is_verbatim(base) {
        assert(path =~= base + seq![path[base.len() as int]] + path.skip(base.len() as int + 1));
        assert(p =~= b.push('/') + slashed(path.skip(base.len() as int + 1)));
        lemma_joined_by_slash(b, n, p);
    } else if base.len() == 0 || base.last() == '/' {
        assert(p =~= b + n);
        lemma_joined_by_slash(b, n, p);
    } else if base.last() == '\\' {
        if path == base + name {
            assert(p =~= b + n);
            lemma_behind_slash(b, n);
        } else {
            assert(p =~= b.push('/') + n);
            lemma_trailing_slash(b);
            lemma_behind_slash(b.push('/'), n);
        }
    } else {
        assert(p =~= b.push('/') + n);
        lemma_joined_by_slash(b, n, p);
    }
}

/// `base` with `name` behind it, by `std::path::Path::join`: for a name that
/// begins neither at a root nor with a drive the two stand one behind the other,
/// with the platform's separator between them where the base does not end in
/// one. Behind a verbatim base (`\\?\`) a platform tidies the path up: where the
/// two hold nothing to tidy up, separators are all that may differ.
#[verifier::external_body]
pub(crate) fn join(base: &str, name: &str) -> (r: String)
    ensures
        is_relative(name@) ==> placed(base@, name@, r@),
{
    std::path::Path::new(base).join(name).to_string_lossy().into_owned()
}

/// A portable path that has a directory: its last part is no root.
pub open spec fn parent_spec(path: Seq<char>) -> bool {
    parts_spec(path).len() > 0 && parts_spec(path).last() != PartView::RootDir
}

/// `r` is the directory of `path`, where it has one.
pub open spec fn is_parent(path: Seq<char>, r: Option<String>) -> bool {
    match r {
        Some(dir) => parent_spec(path) && is_portable(dir@) && parts_spec(dir@) == parts_spec(
            path,
        ).drop_last(),
        None => !parent_spec(path),
    }
}

/// `path` is `dir` and something behind it.
pub open spec fn begins(dir: Seq<char>, path: Seq<char>) -> bool {
    dir.len() < path.len() && dir.is_prefix_of(path)
}

/// A path whose last part is a name on every platform.
pub open spec fn ends_in_a_name(path: Seq<char>) -> bool {
    &&& path.len() > 0
    &&& !is_separator(path.last()) && path.last() != ':' && path.last() != '.'
    &&& !has_two_separators(path)
}

/// Where the last separator of `path` is, before all where there is none;
/// `backslash` says whether backslashes separate too.
pub open spec fn last_separator(path: Seq<char>, backslash: bool) -> int
    decreases path.len(),
{
    if path.len() == 0 {
        -1
    } else if path.last() == '/' || (backslash && path.last() == '\\') {
        path.len() - 1
    } else {
        last_separator(path.drop_last(), backslash)
    }
}

/// What stands before the last separator of `path`.
pub open spec fn before_separator(path: Seq<char>, backslash: bool) -> Seq<char> {
    let at = last_separator(path, backslash);
    if at < 0 {
        Seq::empty()
    } else {
        path.take(at)
    }
}

/// Before the last separator of `path`, where it has one, a name ends.
pub open spec fn name_before_separator(path: Seq<char>, backslash: bool) -> bool {
    let at = last_separator(path, backslash);
    at < 0 || (at > 0 && !is_separator(path[at - 1]) && path[at - 1] != ':' && path[at - 1] != '.')
}

/// A path made of a directory, a separator and a name, or of a name alone,
/// whether backslashes separate or not.
pub open spec fn is_plain_file(path: Seq<char>) -> bool {
    &&& ends_in_a_name(path)
    &&& name_before_separator(path, false) && name_before_separator(path, true)
    &&& has_drive(path) ==> last_separator(path, true) >= 0
}

/// `dir` is, by its text, the directory of `path`: it stands at the beginning of
/// `path`, and of a plain file before the last separator.
pub open spec fn is_directory_text(path: Seq<char>, dir: Seq<char>) -> bool {
    &&& begins(dir, path)
    &&& is_plain_file(path) ==> dir == before_separator(path, false) || dir == before_separator(
        path,
        true,
    )
}

/// `path` without its last part, by `std::path::Path::parent`; nothing where it
/// is empty or ends in a root. What is left is the beginning of the path; where
/// that is a directory, a separator and a name, it is the directory. Whether
/// backslashes separate is the platform's.
#[verifier::external_body]
pub(crate) fn parent(path: &str) -> (r: Option<String>)
    ensures
        is_portable(path@) ==> is_parent(path@, r),
        r matches Some(dir) ==> is_directory_text(path@, dir@),
        ends_in_a_name(path@) ==> r is Some,
{
    std::path::Path::new(path).parent().map(|p| p.to_string_lossy().into_owned())
}

/// Whether `path` lies in or is `base`, by `std::path::Path::starts_with`. On
/// portable paths: the parts of `base` are the first parts of `path`.
#[verifier::external_body]
pub(crate) fn lies_in(path: &str, base: &str) -> (r: bool)
    ensures
        is_portable(path@) && is_portable(base@) ==> r == parts_spec(base@).is_prefix_of(
            parts_spec(path@),
        ),
{
    std::path::Path::new(path).starts_with(base)
}

/// A path climbs exactly where one of the pieces between its slashes is two
/// dots.
pub proof fn two_dots_climb(path: Seq<char>)
    ensures
        climbs(parts_spec(path)) <==> split_spec(path, '/').contains(seq!['.', '.']),
{
    lemma_pieces_climb(split_spec(path, '/'));
    let parts = piece_parts(split_spec(path, '/'));
    if is_rooted(path) {
        let all = seq![PartView::RootDir] + parts;
        if all.contains(PartView::ParentDir) {
            let k = choose|k: int| 0 <= k < all.len() && all[k] == PartView::ParentDir;
            assert(k > 0);
            assert(parts[k - 1] == PartView::ParentDir);
        }
        if parts.contains(PartView::ParentDir) {
            let k = choose|k: int| 0 <= k < parts.len() && parts[k] == PartView::ParentDir;
            assert(all[k + 1] == PartView::ParentDir);
        }
    }
}

proof fn lemma_pieces_climb(pieces: Seq<Seq<char>>)
    ensures
        piece_parts(pieces).contains(PartView::ParentDir) <==> pieces.contains(seq!['.', '.']),
    decreases pieces.len(),
{
    if pieces.len() > 0 {
        let head = pieces.drop_last();
        let before = piece_parts(head);
        let all = piece_parts(pieces);
        lemma_pieces_climb(head);
        assert(seq!['.', '.'].len() == 2 && seq!['.'].len() == 1);
        if before.contains(PartView::ParentDir) {
            let k = choose|k: int| 0 <= k < before.len() && before[k] == PartView::ParentDir;
            assert(all[k] == PartView::ParentDir);
            let h = choose|h: int| 0 <= h < head.len() && head[h] == seq!['.', '.'];
            assert(pieces[h] == seq!['.', '.']);
        }
        if pieces.last() == seq!['.', '.'] {
            assert(pieces[pieces.len() - 1] == seq!['.', '.']);
            assert(all[before.len() as int] == PartView::ParentDir);
        }
        if all.contains(PartView::ParentDir) {
            let k = choose|k: int| 0 <= k < all.len() && all[k] == PartView::ParentDir;
            if k < before.len() {
                assert(before[k] == PartView::ParentDir);
            }
        }
        if pieces.contains(seq!['.', '.']) {
            let h = choose|h: int| 0 <= h < pieces.len() && pieces[h] == seq!['.', '.'];
            if h < head.len() {
                assert(head[h] == seq!['.', '.']);
            }
        }
    }
}

} // verus!
