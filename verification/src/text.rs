//! Text as a sequence of characters: trimming, splitting, searching, joining,
//! decimal numbers, and the order in which names are listed.
use vstd::prelude::*;
use vstd::utf8::{decode_utf8, encode_utf8, is_char_boundary, valid_utf8};

verus! {

/// `String::push` appends one character.
pub assume_specification[ String::push ](s: &mut String, c: char)
    ensures
        final(s)@ == old(s)@.push(c),
;

/// The characters of `s`, one by one.
pub fn to_chars(s: &str) -> (r: Vec<char>)
    ensures
        r@ == s@,
{
    broadcast use vstd::string::axiom_spec_iter;

    let mut v: Vec<char> = Vec::new();
    for c in it: s.chars()
        invariant
            it.seq() == s@,
            v@ == s@.take(it.index() as int),
    {
        v.push(c);
        assert(s@.take(it.index() as int).push(c) =~= s@.take(it.index() as int + 1));
    }
    assert(s@.take(s@.len() as int) =~= s@);
    v
}

/// The text made of `chars[from..to]`.
pub fn slice_text(chars: &Vec<char>, from: usize, to: usize) -> (r: String)
    requires
        from <= to <= chars@.len(),
    ensures
        r@ == chars@.subrange(from as int, to as int),
{
    let mut out = String::new();
    let mut i: usize = from;
    assert(out@ =~= chars@.subrange(from as int, i as int));
    while i < to
        invariant
            from <= i <= to <= chars@.len(),
            out@ == chars@.subrange(from as int, i as int),
        decreases to - i,
    {
        out.push(chars[i]);
        assert(chars@.subrange(from as int, i as int).push(chars@[i as int]) =~= chars@.subrange(
            from as int,
            i + 1,
        ));
        i = i + 1;
    }
    out
}

/// The text that may be there.
pub open spec fn opt_str(s: Option<&str>) -> Option<Seq<char>> {
    match s {
        Some(t) => Some(t@),
        None => None,
    }
}

/// The text that may be there.
pub open spec fn opt_text(s: Option<String>) -> Option<Seq<char>> {
    match s {
        Some(t) => Some(t@),
        None => None,
    }
}

/// A second list of the same texts.
pub fn copy_texts(list: &Vec<String>) -> (r: Vec<String>)
    ensures
        texts(r@) == texts(list@),
{
    let mut out: Vec<String> = Vec::new();
    let mut i: usize = 0;
    while i < list.len()
        invariant
            i <= list@.len(),
            texts(out@) == texts(list@).take(i as int),
        decreases list.len() - i,
    {
        let item = list[i].clone();
        proof {
            lemma_texts_push(out@, item);
            assert(texts(list@).take(i + 1) =~= texts(list@).take(i as int).push(item@));
        }
        out.push(item);
        i = i + 1;
    }
    assert(texts(list@).take(list@.len() as int) =~= texts(list@));
    out
}

/// Whether `x` is one of `list`.
pub fn is_one_of(list: &Vec<String>, x: &str) -> (r: bool)
    ensures
        r == texts(list@).contains(x@),
{
    let mut i: usize = 0;
    while i < list.len()
        invariant
            i <= list@.len(),
            forall|j: int| 0 <= j < i ==> texts(list@)[j] != x@,
        decreases list.len() - i,
    {
        if same(list[i].as_str(), x) {
            assert(texts(list@)[i as int] == x@);
            return true;
        }
        i = i + 1;
    }
    false
}

/// The value of the first pair of `pairs` whose key is `key`.
pub open spec fn lookup_spec(pairs: Seq<(String, String)>, key: Seq<char>) -> Option<Seq<char>>
    decreases pairs.len(),
{
    if pairs.len() == 0 {
        None
    } else if pairs[0].0@ == key {
        Some(pairs[0].1@)
    } else {
        lookup_spec(pairs.skip(1), key)
    }
}

/// The value of the first pair of `pairs` whose key is `key`.
pub fn lookup(pairs: &Vec<(String, String)>, key: &str) -> (r: Option<String>)
    ensures
        opt_text(r) == lookup_spec(pairs@, key@),
{
    let mut i: usize = 0;
    assert(pairs@.skip(0) =~= pairs@);
    while i < pairs.len()
        invariant
            i <= pairs@.len(),
            lookup_spec(pairs@, key@) == lookup_spec(pairs@.skip(i as int), key@),
        decreases pairs.len() - i,
    {
        if same(pairs[i].0.as_str(), key) {
            return Some(pairs[i].1.clone());
        }
        assert(pairs@.skip(i as int).skip(1) =~= pairs@.skip(i + 1));
        i = i + 1;
    }
    None
}

/// Whether two texts hold the same characters.
pub fn same(a: &str, b: &str) -> (r: bool)
    ensures
        r == (a@ == b@),
{
    let left = to_chars(a);
    let right = to_chars(b);
    if left.len() != right.len() {
        return false;
    }
    let mut i: usize = 0;
    while i < left.len()
        invariant
            i <= left.len(),
            left@ == a@,
            right@ == b@,
            left@.len() == right@.len(),
            forall|j: int| 0 <= j < i ==> left@[j] == right@[j],
        decreases left.len() - i,
    {
        if left[i] != right[i] {
            return false;
        }
        i = i + 1;
    }
    assert(a@ =~= b@);
    true
}

// ---------------------------------------------------------------------------
// The beginning of a text
// ---------------------------------------------------------------------------

/// The last place, up to `limit`, at which a character of `bytes` begins or the
/// last one ends.
pub open spec fn last_boundary(bytes: Seq<u8>, limit: int) -> int
    decreases limit,
{
    if limit <= 0 {
        0
    } else if is_char_boundary(bytes, limit) {
        limit
    } else {
        last_boundary(bytes, limit - 1)
    }
}

/// The characters of `s` that fit in its first `limit` bytes.
pub open spec fn head_within_spec(s: Seq<char>, limit: int) -> Seq<char> {
    let bytes = encode_utf8(s);
    decode_utf8(bytes.subrange(0, last_boundary(bytes, limit)))
}

proof fn lemma_last_boundary(bytes: Seq<u8>, limit: int)
    requires
        valid_utf8(bytes),
        0 <= limit <= bytes.len(),
    ensures
        0 <= last_boundary(bytes, limit) <= limit,
        is_char_boundary(bytes, last_boundary(bytes, limit)),
    decreases limit,
{
    vstd::utf8::is_char_boundary_start_end_of_seq(bytes);
    if limit > 0 && !is_char_boundary(bytes, limit) {
        lemma_last_boundary(bytes, limit - 1);
    }
}

/// What fits in the first bytes of a text is its beginning, and no longer than
/// the limit.
pub proof fn heads_are_prefixes(s: Seq<char>, limit: int)
    requires
        0 <= limit <= encode_utf8(s).len(),
    ensures
        head_within_spec(s, limit).is_prefix_of(s),
        encode_utf8(head_within_spec(s, limit)).len() == last_boundary(encode_utf8(s), limit),
        0 <= last_boundary(encode_utf8(s), limit) <= limit,
{
    let bytes = encode_utf8(s);
    let at = last_boundary(bytes, limit);
    vstd::utf8::encode_utf8_valid_utf8(s);
    lemma_last_boundary(bytes, limit);
    vstd::utf8::encode_utf8_decode_utf8(s);
    vstd::utf8::valid_utf8_split(bytes, at);
    vstd::utf8::decode_utf8_split(bytes, at);
    vstd::utf8::decode_utf8_encode_utf8(bytes.subrange(0, at));
}

/// The characters of `s` that fit in its first `limit` bytes, and how many bytes
/// they take.
pub fn head_within(s: &str, limit: usize) -> (r: (String, usize))
    requires
        limit <= encode_utf8(s@).len(),
    ensures
        r.0@ == head_within_spec(s@, limit as int),
        r.1 == last_boundary(encode_utf8(s@), limit as int),
        r.1 <= limit,
{
    let ghost bytes = encode_utf8(s@);
    let mut at: usize = limit;
    proof {
        vstd::utf8::encode_utf8_valid_utf8(s@);
        lemma_last_boundary(bytes, limit as int);
    }
    while at > 0 && !s.is_char_boundary(at)
        invariant
            at <= limit,
            bytes == encode_utf8(s@),
            last_boundary(bytes, at as int) == last_boundary(bytes, limit as int),
        decreases at,
    {
        at = at - 1;
    }
    let (head, _) = s.split_at(at);
    proof {
        vstd::utf8::encode_utf8_decode_utf8(head@);
    }
    (head.to_owned(), at)
}

// ---------------------------------------------------------------------------
// Prefixes and substrings
// ---------------------------------------------------------------------------

/// `s` begins with `prefix`.
pub open spec fn starts_with_spec(s: Seq<char>, prefix: Seq<char>) -> bool {
    prefix.len() <= s.len() && s.take(prefix.len() as int) == prefix
}

/// What begins with a text and one more character begins with the text.
pub proof fn lemma_shorter_prefix(s: Seq<char>, prefix: Seq<char>, c: char)
    requires
        starts_with_spec(s, prefix.push(c)),
    ensures
        starts_with_spec(s, prefix),
{
    let n = prefix.len() as int;
    assert(s.take(n) =~= s.take(n + 1).take(n));
    assert(prefix.push(c).take(n) =~= prefix);
}

/// What is left of `s` behind `prefix`, where `s` begins with it.
pub open spec fn strip_prefix_spec(s: Seq<char>, prefix: Seq<char>) -> Option<Seq<char>> {
    if starts_with_spec(s, prefix) {
        Some(s.skip(prefix.len() as int))
    } else {
        None
    }
}

/// `needle` stands in `s` at position `at`.
pub open spec fn found_at(s: Seq<char>, needle: Seq<char>, at: int) -> bool {
    0 <= at && at + needle.len() <= s.len() && s.subrange(at, at + needle.len()) == needle
}

/// `needle` stands somewhere in `s`.
pub open spec fn contains_spec(s: Seq<char>, needle: Seq<char>) -> bool {
    exists|at: int| found_at(s, needle, at)
}

fn matches_at(s: &Vec<char>, needle: &Vec<char>, at: usize) -> (r: bool)
    requires
        at <= s@.len(),
    ensures
        r == found_at(s@, needle@, at as int),
{
    if s.len() - at < needle.len() {
        return false;
    }
    let mut i: usize = 0;
    while i < needle.len()
        invariant
            i <= needle@.len(),
            at + needle@.len() <= s.len(),
            forall|j: int| 0 <= j < i ==> s@[at + j] == needle@[j],
        decreases needle.len() - i,
    {
        if s[at + i] != needle[i] {
            assert(s@.subrange(at as int, at + needle@.len())[i as int] != needle@[i as int]);
            return false;
        }
        i = i + 1;
    }
    assert(s@.subrange(at as int, at + needle@.len()) =~= needle@);
    true
}

/// Whether `s` begins with `prefix`.
pub fn starts_with(s: &str, prefix: &str) -> (r: bool)
    ensures
        r == starts_with_spec(s@, prefix@),
{
    let chars = to_chars(s);
    let head = to_chars(prefix);
    let r = matches_at(&chars, &head, 0);
    assert(prefix@.len() <= s@.len() ==> s@.subrange(0, prefix@.len() as int) == s@.take(
        prefix@.len() as int,
    ));
    r
}

/// `s` without `prefix`, or `None` where `s` does not begin with it.
pub fn strip_prefix(s: &str, prefix: &str) -> (r: Option<String>)
    ensures
        r is Some <==> strip_prefix_spec(s@, prefix@) is Some,
        r matches Some(rest) ==> strip_prefix_spec(s@, prefix@) == Some(rest@),
{
    if starts_with(s, prefix) {
        let chars = to_chars(s);
        let head = to_chars(prefix);
        let rest = slice_text(&chars, head.len(), chars.len());
        assert(rest@ =~= s@.skip(prefix@.len() as int));
        Some(rest)
    } else {
        None
    }
}

/// Whether `needle` stands somewhere in `s`.
pub fn contains(s: &str, needle: &str) -> (r: bool)
    ensures
        r == contains_spec(s@, needle@),
{
    let chars = to_chars(s);
    let pattern = to_chars(needle);
    let mut at: usize = 0;
    while at < chars.len()
        invariant
            at <= chars@.len(),
            chars@ == s@,
            pattern@ == needle@,
            forall|j: int| 0 <= j < at ==> !#[trigger] found_at(s@, needle@, j),
        decreases chars.len() - at,
    {
        if matches_at(&chars, &pattern, at) {
            return true;
        }
        at = at + 1;
    }
    matches_at(&chars, &pattern, at)
}

/// The first `n` characters of `s`, or all of them.
pub open spec fn preview_spec(s: Seq<char>, n: int) -> Seq<char> {
    if s.len() <= n {
        s
    } else {
        s.take(n)
    }
}

/// The first `n` characters of `s`, or all of them where there are no more.
pub fn preview(s: &str, n: usize) -> (r: String)
    ensures
        r@ == preview_spec(s@, n as int),
{
    let chars = to_chars(s);
    let end = if chars.len() <= n {
        chars.len()
    } else {
        n
    };
    let r = slice_text(&chars, 0, end);
    assert(r@ =~= preview_spec(s@, n as int));
    r
}

// ---------------------------------------------------------------------------
// White space
// ---------------------------------------------------------------------------

/// The characters with Unicode's White_Space property.
pub open spec fn is_space_spec(c: char) -> bool {
    ||| '\u{9}' <= c && c <= '\u{d}'
    ||| c == ' '
    ||| c == '\u{85}'
    ||| c == '\u{a0}'
    ||| c == '\u{1680}'
    ||| '\u{2000}' <= c && c <= '\u{200a}'
    ||| c == '\u{2028}'
    ||| c == '\u{2029}'
    ||| c == '\u{202f}'
    ||| c == '\u{205f}'
    ||| c == '\u{3000}'
}

/// Whether `c` has Unicode's White_Space property.
pub fn is_space(c: char) -> (r: bool)
    ensures
        r == is_space_spec(c),
{
    ('\u{9}' <= c && c <= '\u{d}') || c == ' ' || c == '\u{85}' || c == '\u{a0}' || c == '\u{1680}'
        || ('\u{2000}' <= c && c <= '\u{200a}') || c == '\u{2028}' || c == '\u{2029}' || c
        == '\u{202f}' || c == '\u{205f}' || c == '\u{3000}'
}

/// `s` without the white space it begins with.
pub open spec fn trim_start_spec(s: Seq<char>) -> Seq<char>
    decreases s.len(),
{
    if s.len() > 0 && is_space_spec(s[0]) {
        trim_start_spec(s.skip(1))
    } else {
        s
    }
}

/// `s` without the white space it ends with.
pub open spec fn trim_end_spec(s: Seq<char>) -> Seq<char>
    decreases s.len(),
{
    if s.len() > 0 && is_space_spec(s.last()) {
        trim_end_spec(s.drop_last())
    } else {
        s
    }
}

/// `s` without white space at either end.
pub open spec fn trim_spec(s: Seq<char>) -> Seq<char> {
    trim_end_spec(trim_start_spec(s))
}

fn trimmed_end(chars: &Vec<char>, from: usize) -> (end: usize)
    requires
        from <= chars@.len(),
    ensures
        from <= end <= chars@.len(),
        chars@.subrange(from as int, end as int) == trim_end_spec(
            chars@.subrange(from as int, chars@.len() as int),
        ),
{
    let mut end: usize = chars.len();
    while end > from && is_space(chars[end - 1])
        invariant
            from <= end <= chars@.len(),
            trim_end_spec(chars@.subrange(from as int, end as int)) == trim_end_spec(
                chars@.subrange(from as int, chars@.len() as int),
            ),
        decreases end,
    {
        assert(chars@.subrange(from as int, end as int).drop_last() =~= chars@.subrange(
            from as int,
            end - 1,
        ));
        end = end - 1;
    }
    end
}

/// `s` without white space at either end.
pub fn trim(s: &str) -> (r: String)
    ensures
        r@ == trim_spec(s@),
{
    let chars = to_chars(s);
    let mut from: usize = 0;
    assert(chars@.subrange(0, chars@.len() as int) =~= s@);
    while from < chars.len() && is_space(chars[from])
        invariant
            from <= chars@.len(),
            trim_start_spec(chars@.subrange(from as int, chars@.len() as int)) == trim_start_spec(
                s@,
            ),
        decreases chars.len() - from,
    {
        assert(chars@.subrange(from as int, chars@.len() as int).skip(1) =~= chars@.subrange(
            from + 1,
            chars@.len() as int,
        ));
        from = from + 1;
    }
    let end = trimmed_end(&chars, from);
    slice_text(&chars, from, end)
}

/// `s` without the characters `c` that it begins with.
pub open spec fn trim_start_char_spec(s: Seq<char>, c: char) -> Seq<char>
    decreases s.len(),
{
    if s.len() > 0 && s[0] == c {
        trim_start_char_spec(s.skip(1), c)
    } else {
        s
    }
}

/// `s` without the characters `c` that it begins with.
pub fn trim_start_char(s: &str, c: char) -> (r: String)
    ensures
        r@ == trim_start_char_spec(s@, c),
{
    let chars = to_chars(s);
    let mut from: usize = 0;
    assert(chars@.subrange(0, chars@.len() as int) =~= s@);
    while from < chars.len() && chars[from] == c
        invariant
            from <= chars@.len(),
            trim_start_char_spec(chars@.subrange(from as int, chars@.len() as int), c)
                == trim_start_char_spec(s@, c),
        decreases chars.len() - from,
    {
        assert(chars@.subrange(from as int, chars@.len() as int).skip(1) =~= chars@.subrange(
            from + 1,
            chars@.len() as int,
        ));
        from = from + 1;
    }
    slice_text(&chars, from, chars.len())
}

/// `s` without any character `c`.
pub open spec fn remove_char_spec(s: Seq<char>, c: char) -> Seq<char>
    decreases s.len(),
{
    if s.len() == 0 {
        s
    } else if s.last() == c {
        remove_char_spec(s.drop_last(), c)
    } else {
        remove_char_spec(s.drop_last(), c).push(s.last())
    }
}

/// `s` without any character `c`.
pub fn remove_char(s: &str, c: char) -> (r: String)
    ensures
        r@ == remove_char_spec(s@, c),
{
    let chars = to_chars(s);
    let mut out = String::new();
    let mut i: usize = 0;
    assert(out@ =~= remove_char_spec(s@.take(0), c));
    while i < chars.len()
        invariant
            i <= chars@.len(),
            chars@ == s@,
            out@ == remove_char_spec(s@.take(i as int), c),
        decreases chars.len() - i,
    {
        assert(s@.take(i + 1).drop_last() =~= s@.take(i as int));
        assert(s@.take(i + 1).last() == s@[i as int]);
        if chars[i] != c {
            out.push(chars[i]);
        }
        i = i + 1;
    }
    assert(s@.take(s@.len() as int) =~= s@);
    out
}

/// `s` with the ASCII letters `A` to `Z` in lower case.
pub open spec fn ascii_lower_char(c: char) -> char {
    if 'A' <= c && c <= 'Z' {
        ((c as u8) + 32) as char
    } else {
        c
    }
}

/// `s` with the ASCII letters `A` to `Z` in lower case.
pub open spec fn ascii_lower_spec(s: Seq<char>) -> Seq<char> {
    s.map_values(|c: char| ascii_lower_char(c))
}

/// `s` with the ASCII letters `A` to `Z` in lower case.
pub fn ascii_lower(s: &str) -> (r: String)
    ensures
        r@ == ascii_lower_spec(s@),
{
    let chars = to_chars(s);
    let mut out = String::new();
    let mut i: usize = 0;
    while i < chars.len()
        invariant
            i <= chars@.len(),
            chars@ == s@,
            out@.len() == i,
            forall|j: int| 0 <= j < i ==> out@[j] == ascii_lower_char(s@[j]),
        decreases chars.len() - i,
    {
        let c = chars[i];
        if 'A' <= c && c <= 'Z' {
            out.push(((c as u8) + 32) as char);
        } else {
            out.push(c);
        }
        i = i + 1;
    }
    assert(out@ =~= ascii_lower_spec(s@));
    out
}

/// What `str::to_lowercase` makes of `s`.
pub uninterp spec fn lower_text(s: Seq<char>) -> Seq<char>;

/// `s` in lower case by `str::to_lowercase`, a function of the text. On ASCII
/// text it changes the letters `A` to `Z` only.
#[verifier::external_body]
pub(crate) fn lower(s: &str) -> (r: String)
    ensures
        r@ == lower_text(s@),
        vstd::utf8::is_ascii_chars(s@) ==> r@ == ascii_lower_spec(s@),
{
    s.to_lowercase()
}

/// What `{:?}` writes for the text `s`: `s` in quotes, with escapes.
pub uninterp spec fn debug_text(s: Seq<char>) -> Seq<char>;

/// `s` as `{:?}` writes it, a function of the text.
#[verifier::external_body]
pub(crate) fn quoted(s: &str) -> (r: String)
    ensures
        r@ == debug_text(s@),
{
    format!("{:?}", s)
}

// ---------------------------------------------------------------------------
// Splitting and joining
// ---------------------------------------------------------------------------

/// The pieces of `s` between its characters `sep`, in order; one more than
/// there are separators.
pub open spec fn split_spec(s: Seq<char>, sep: char) -> Seq<Seq<char>>
    decreases s.len(),
{
    if s.len() == 0 {
        seq![Seq::empty()]
    } else {
        let before = split_spec(s.drop_last(), sep);
        if s.last() == sep {
            before.push(Seq::empty())
        } else {
            before.drop_last().push(before.last().push(s.last()))
        }
    }
}

/// The texts of `parts`.
pub open spec fn texts(parts: Seq<String>) -> Seq<Seq<char>> {
    parts.map_values(|p: String| p@)
}

/// The texts of a list with one more text at its end.
pub proof fn lemma_texts_push(parts: Seq<String>, p: String)
    ensures
        texts(parts.push(p)) == texts(parts).push(p@),
{
    assert(texts(parts.push(p)) =~= texts(parts).push(p@));
}

/// A split text has at least one piece.
pub proof fn lemma_split_nonempty(s: Seq<char>, sep: char)
    ensures
        split_spec(s, sep).len() >= 1,
    decreases s.len(),
{
    if s.len() > 0 {
        lemma_split_nonempty(s.drop_last(), sep);
    }
}

/// The pieces of `s` between its characters `sep`.
pub fn split(s: &str, sep: char) -> (r: Vec<String>)
    ensures
        texts(r@) == split_spec(s@, sep),
        r@.len() >= 1,
{
    let chars = to_chars(s);
    let mut out: Vec<String> = Vec::new();
    let mut piece = String::new();
    let mut i: usize = 0;
    assert(texts(out@).push(piece@) =~= split_spec(s@.take(0), sep));
    while i < chars.len()
        invariant
            i <= chars@.len(),
            chars@ == s@,
            texts(out@).push(piece@) == split_spec(s@.take(i as int), sep),
        decreases chars.len() - i,
    {
        assert(s@.take(i + 1).drop_last() =~= s@.take(i as int));
        assert(s@.take(i + 1).last() == s@[i as int]);
        let c = chars[i];
        if c == sep {
            proof {
                lemma_texts_push(out@, piece);
            }
            out.push(piece);
            piece = String::new();
            assert(piece@ =~= Seq::<char>::empty());
        } else {
            assert(texts(out@).push(piece@).drop_last() =~= texts(out@));
            piece.push(c);
        }
        i = i + 1;
    }
    assert(s@.take(s@.len() as int) =~= s@);
    proof {
        lemma_texts_push(out@, piece);
    }
    out.push(piece);
    out
}

/// `parts` one behind the other with `sep` between neighbours.
pub open spec fn join_spec(parts: Seq<Seq<char>>, sep: Seq<char>) -> Seq<char>
    decreases parts.len(),
{
    if parts.len() == 0 {
        Seq::empty()
    } else if parts.len() == 1 {
        parts[0]
    } else {
        join_spec(parts.drop_last(), sep) + sep + parts.last()
    }
}

/// `parts` one behind the other with `sep` between neighbours.
pub fn join(parts: &Vec<String>, sep: &str) -> (r: String)
    ensures
        r@ == join_spec(texts(parts@), sep@),
{
    let mut out = String::new();
    let mut i: usize = 0;
    assert(out@ =~= join_spec(texts(parts@).take(0), sep@));
    while i < parts.len()
        invariant
            i <= parts@.len(),
            out@ == join_spec(texts(parts@).take(i as int), sep@),
        decreases parts.len() - i,
    {
        let ghost next = texts(parts@).take(i + 1);
        assert(next.drop_last() =~= texts(parts@).take(i as int));
        assert(next.last() == parts@[i as int]@);
        if i == 0 {
            out = parts[i].clone();
            assert(next[0] == parts@[0]@);
        } else {
            out.append(sep);
            out.append(parts[i].as_str());
        }
        i = i + 1;
    }
    assert(texts(parts@).take(parts@.len() as int) =~= texts(parts@));
    out
}

/// Joining the pieces of a split text with its separator gives the text back.
pub proof fn split_then_join(s: Seq<char>, sep: char)
    ensures
        join_spec(split_spec(s, sep), seq![sep]) == s,
    decreases s.len(),
{
    let pieces = split_spec(s, sep);
    if s.len() == 0 {
        assert(pieces[0] =~= s);
    } else {
        let before = split_spec(s.drop_last(), sep);
        lemma_split_nonempty(s.drop_last(), sep);
        split_then_join(s.drop_last(), sep);
        assert(s =~= s.drop_last().push(s.last()));
        if s.last() == sep {
            assert(pieces.drop_last() =~= before);
            assert(join_spec(before, seq![sep]) + seq![sep] + Seq::<char>::empty() =~= s);
        } else {
            assert(pieces.drop_last() =~= before.drop_last());
            if before.len() == 1 {
                assert(pieces[0] =~= before[0].push(s.last()));
            } else {
                assert(join_spec(before.drop_last(), seq![sep]) + seq![sep] + before.last().push(
                    s.last(),
                ) =~= s);
            }
        }
    }
}

/// Whether `sep` stands nowhere in `s`.
pub open spec fn free_of(s: Seq<char>, sep: char) -> bool {
    forall|i: int| 0 <= i < s.len() ==> s[i] != sep
}

/// `head` and `tail` are what stands before and behind the first `sep` of `s`.
pub open spec fn splits_once(s: Seq<char>, sep: char, head: Seq<char>, tail: Seq<char>) -> bool {
    free_of(head, sep) && s == head.push(sep) + tail
}

/// What stands before and behind the first character `sep` of `s`; `None`
/// where there is no such character.
pub fn split_once(s: &str, sep: char) -> (r: Option<(String, String)>)
    ensures
        r is None <==> free_of(s@, sep),
        r matches Some(p) ==> splits_once(s@, sep, p.0@, p.1@),
{
    let chars = to_chars(s);
    let mut i: usize = 0;
    while i < chars.len()
        invariant
            i <= chars@.len(),
            chars@ == s@,
            forall|j: int| 0 <= j < i ==> s@[j] != sep,
        decreases chars.len() - i,
    {
        if chars[i] == sep {
            let head = slice_text(&chars, 0, i);
            let tail = slice_text(&chars, i + 1, chars.len());
            assert(head@.push(sep) + tail@ =~= s@);
            assert(s@[i as int] == sep);
            return Some((head, tail));
        }
        i = i + 1;
    }
    None
}

/// A text splits once in one way only.
pub proof fn split_once_unique(
    s: Seq<char>,
    sep: char,
    head1: Seq<char>,
    tail1: Seq<char>,
    head2: Seq<char>,
    tail2: Seq<char>,
)
    requires
        splits_once(s, sep, head1, tail1),
        splits_once(s, sep, head2, tail2),
    ensures
        head1 == head2,
        tail1 == tail2,
{
    assert(s[head1.len() as int] == sep) by {
        assert((head1.push(sep) + tail1)[head1.len() as int] == sep);
    }
    assert(s[head2.len() as int] == sep) by {
        assert((head2.push(sep) + tail2)[head2.len() as int] == sep);
    }
    if head1.len() < head2.len() {
        assert((head2.push(sep) + tail2)[head1.len() as int] == head2[head1.len() as int]);
    }
    if head2.len() < head1.len() {
        assert((head1.push(sep) + tail1)[head2.len() as int] == head1[head2.len() as int]);
    }
    assert(head1 =~= s.take(head1.len() as int));
    assert(head2 =~= s.take(head2.len() as int));
    assert(tail1 =~= s.skip(head1.len() as int + 1));
    assert(tail2 =~= s.skip(head2.len() as int + 1));
}

/// A line without the carriage return that stands before its line feed.
pub open spec fn without_cr(line: Seq<char>) -> Seq<char> {
    if line.len() > 0 && line.last() == '\r' {
        line.drop_last()
    } else {
        line
    }
}

/// The lines of `s`: what ends in a line feed, or in a carriage return and a
/// line feed, without that ending; behind the last line feed a further line
/// where anything stands there.
pub open spec fn lines_spec(s: Seq<char>) -> Seq<Seq<char>> {
    let pieces = split_spec(s, '\n');
    let ended = pieces.drop_last().map_values(|p: Seq<char>| without_cr(p));
    if pieces.last().len() == 0 {
        ended
    } else {
        ended.push(pieces.last())
    }
}

fn strip_cr(s: &str) -> (r: String)
    ensures
        r@ == without_cr(s@),
{
    let chars = to_chars(s);
    if chars.len() > 0 && chars[chars.len() - 1] == '\r' {
        let r = slice_text(&chars, 0, chars.len() - 1);
        assert(r@ =~= s@.drop_last());
        r
    } else {
        s.to_owned()
    }
}

/// The lines of `s`.
pub fn lines(s: &str) -> (r: Vec<String>)
    ensures
        texts(r@) == lines_spec(s@),
{
    let pieces = split(s, '\n');
    let mut out: Vec<String> = Vec::new();
    let mut i: usize = 0;
    let last: usize = pieces.len() - 1;
    let ghost ended = texts(pieces@).drop_last().map_values(|p: Seq<char>| without_cr(p));
    while i < last
        invariant
            i <= last,
            last == pieces@.len() - 1,
            ended == texts(pieces@).drop_last().map_values(|p: Seq<char>| without_cr(p)),
            texts(out@) == ended.take(i as int),
        decreases last - i,
    {
        let line = strip_cr(pieces[i].as_str());
        proof {
            lemma_texts_push(out@, line);
            assert(ended.take(i as int).push(line@) =~= ended.take(i + 1));
        }
        out.push(line);
        i = i + 1;
    }
    assert(ended.take(last as int) =~= ended);
    let tail = pieces[last].clone();
    assert(tail@ == texts(pieces@).last());
    if !tail.as_str().is_empty() {
        proof {
            lemma_texts_push(out@, tail);
        }
        out.push(tail);
    }
    out
}

/// The words of `s`: its longest runs without white space, in order.
pub open spec fn words_spec(s: Seq<char>) -> Seq<Seq<char>>
    decreases s.len(),
{
    if s.len() == 0 {
        Seq::empty()
    } else if is_space_spec(s.last()) {
        words_spec(s.drop_last())
    } else if s.len() == 1 || is_space_spec(s[s.len() - 2]) {
        words_spec(s.drop_last()).push(seq![s.last()])
    } else {
        let before = words_spec(s.drop_last());
        before.drop_last().push(before.last().push(s.last()))
    }
}

/// The words of `s`.
pub fn words(s: &str) -> (r: Vec<String>)
    ensures
        texts(r@) == words_spec(s@),
{
    let chars = to_chars(s);
    let mut out: Vec<String> = Vec::new();
    let mut word = String::new();
    let mut open = false;
    let mut i: usize = 0;
    assert(texts(out@) =~= words_spec(s@.take(0)));
    while i < chars.len()
        invariant
            i <= chars@.len(),
            chars@ == s@,
            open == (i > 0 && !is_space_spec(s@[i - 1])),
            open ==> texts(out@).push(word@) == words_spec(s@.take(i as int)),
            !open ==> texts(out@) == words_spec(s@.take(i as int)) && word@.len() == 0,
        decreases chars.len() - i,
    {
        let ghost next = s@.take(i + 1);
        assert(next.drop_last() =~= s@.take(i as int));
        assert(next.last() == s@[i as int]);
        let c = chars[i];
        if is_space(c) {
            if open {
                proof {
                    lemma_texts_push(out@, word);
                }
                out.push(word);
                word = String::new();
            }
            open = false;
        } else {
            assert(i > 0 ==> next[next.len() - 2] == s@[i - 1]);
            if open {
                assert(texts(out@).push(word@).drop_last() =~= texts(out@));
            } else {
                assert(word@.push(c) =~= seq![c]);
            }
            word.push(c);
            open = true;
        }
        i = i + 1;
    }
    assert(s@.take(s@.len() as int) =~= s@);
    if open {
        proof {
            lemma_texts_push(out@, word);
        }
        out.push(word);
    }
    out
}

// ---------------------------------------------------------------------------
// Decimal numbers
// ---------------------------------------------------------------------------

/// The digit that stands for `d`.
pub open spec fn digit(d: nat) -> char {
    if d == 0 {
        '0'
    } else if d == 1 {
        '1'
    } else if d == 2 {
        '2'
    } else if d == 3 {
        '3'
    } else if d == 4 {
        '4'
    } else if d == 5 {
        '5'
    } else if d == 6 {
        '6'
    } else if d == 7 {
        '7'
    } else if d == 8 {
        '8'
    } else {
        '9'
    }
}

/// `n` written in decimal.
pub open spec fn decimal_spec(n: nat) -> Seq<char>
    decreases n,
{
    if n < 10 {
        seq![digit(n)]
    } else {
        decimal_spec(n / 10).push(digit(n % 10))
    }
}

fn digit_char(d: u64) -> (c: char)
    requires
        d < 10,
    ensures
        c == digit(d as nat),
{
    match d {
        0 => '0',
        1 => '1',
        2 => '2',
        3 => '3',
        4 => '4',
        5 => '5',
        6 => '6',
        7 => '7',
        8 => '8',
        _ => '9',
    }
}

/// `n` written in decimal.
pub fn decimal(n: u64) -> (r: String)
    ensures
        r@ == decimal_spec(n as nat),
    decreases n,
{
    if n < 10 {
        let mut s = String::new();
        s.push(digit_char(n));
        assert(s@ =~= seq![digit(n as nat)]);
        s
    } else {
        let mut s = decimal(n / 10);
        s.push(digit_char(n % 10));
        s
    }
}

/// The number a digit stands for.
pub open spec fn digit_value(c: char) -> nat {
    (c as int - '0' as int) as nat
}

/// Whether `c` is one of the ten ASCII digits.
pub open spec fn is_digit_spec(c: char) -> bool {
    '0' <= c && c <= '9'
}

/// Whether every character of `s` is an ASCII digit.
pub open spec fn all_digits(s: Seq<char>) -> bool {
    forall|i: int| 0 <= i < s.len() ==> is_digit_spec(#[trigger] s[i])
}

/// The number that the digits of `s` stand for.
pub open spec fn digits_value(s: Seq<char>) -> nat
    decreases s.len(),
{
    if s.len() == 0 {
        0
    } else {
        digits_value(s.drop_last()) * 10 + digit_value(s.last())
    }
}

/// `s` without the plus sign that it may begin with.
pub open spec fn without_plus(s: Seq<char>) -> Seq<char> {
    if s.len() > 0 && s[0] == '+' {
        s.skip(1)
    } else {
        s
    }
}

/// The unsigned 64-bit number that `s` spells: digits, at least one, behind
/// an optional plus sign, with a value that fits.
pub open spec fn parse_u64_spec(s: Seq<char>) -> Option<u64> {
    let digits = without_plus(s);
    if digits.len() > 0 && all_digits(digits) && digits_value(digits) <= u64::MAX {
        Some(digits_value(digits) as u64)
    } else {
        None
    }
}

proof fn lemma_digits_value_monotone(s: Seq<char>, n: int)
    requires
        0 <= n <= s.len(),
    ensures
        digits_value(s.take(n)) <= digits_value(s),
    decreases s.len(),
{
    if n == s.len() {
        assert(s.take(n) =~= s);
    } else {
        lemma_digits_value_monotone(s.drop_last(), n);
        assert(s.drop_last().take(n) =~= s.take(n));
    }
}

/// The unsigned 64-bit number that `s` spells.
pub fn parse_u64(s: &str) -> (r: Option<u64>)
    ensures
        r == parse_u64_spec(s@),
{
    let chars = to_chars(s);
    let from: usize = if chars.len() > 0 && chars[0] == '+' {
        1
    } else {
        0
    };
    let ghost digits = without_plus(s@);
    assert(digits =~= chars@.skip(from as int));
    if from == chars.len() {
        return None;
    }
    let mut i: usize = from;
    let mut value: u64 = 0;
    assert(digits.take(0) =~= Seq::<char>::empty());
    while i < chars.len()
        invariant
            from <= i <= chars@.len(),
            from <= 1,
            digits == chars@.skip(from as int),
            digits == without_plus(s@),
            all_digits(digits.take(i - from)),
            value == digits_value(digits.take(i - from)),
        decreases chars.len() - i,
    {
        let c = chars[i];
        let ghost at: int = i - from;
        assert(digits[at] == c);
        if !('0' <= c && c <= '9') {
            assert(!is_digit_spec(digits[at]));
            return None;
        }
        let d: u64 = (c as u64) - ('0' as u64);
        assert(digits.take(at + 1).drop_last() =~= digits.take(at));
        assert(digits_value(digits.take(at + 1)) == value * 10 + d);
        proof {
            lemma_digits_value_monotone(digits, at + 1);
        }
        if value > 1844674407370955161 || (value == 1844674407370955161 && d > 5) {
            return None;
        }
        value = value * 10 + d;
        assert(all_digits(digits.take(at + 1))) by {
            assert forall|j: int| 0 <= j < at + 1 implies is_digit_spec(
                #[trigger] digits.take(at + 1)[j],
            ) by {
                if j < at {
                    assert(digits.take(at)[j] == digits.take(at + 1)[j]);
                }
            }
        }
        i = i + 1;
    }
    assert(digits.take(digits.len() as int) =~= digits);
    Some(value)
}

proof fn lemma_decimal_reads_back(n: nat)
    ensures
        decimal_spec(n).len() > 0,
        all_digits(decimal_spec(n)),
        digits_value(decimal_spec(n)) == n,
    decreases n,
{
    let s = decimal_spec(n);
    if n < 10 {
        assert(s.drop_last() =~= Seq::<char>::empty());
        assert(digits_value(s.drop_last()) == 0);
    } else {
        lemma_decimal_reads_back(n / 10);
        assert(s.drop_last() =~= decimal_spec(n / 10));
    }
}

/// A number written in decimal reads back as that number.
pub proof fn decimal_then_parse(n: u64)
    ensures
        parse_u64_spec(decimal_spec(n as nat)) == Some(n),
{
    lemma_decimal_reads_back(n as nat);
    let s = decimal_spec(n as nat);
    assert(is_digit_spec(s[0]));
    assert(without_plus(s) == s);
}

// ---------------------------------------------------------------------------
// Order
// ---------------------------------------------------------------------------

/// `a` comes before `b`: character by character in the order of the code
/// points, a text before what it is the beginning of. (The bytes of UTF-8
/// order texts in the same way.)
pub open spec fn before(a: Seq<char>, b: Seq<char>) -> bool
    decreases a.len(),
{
    if b.len() == 0 {
        false
    } else if a.len() == 0 {
        true
    } else if a[0] == b[0] {
        before(a.skip(1), b.skip(1))
    } else {
        a[0] < b[0]
    }
}

/// Whether `a` comes before `b`.
pub fn is_before(a: &str, b: &str) -> (r: bool)
    ensures
        r == before(a@, b@),
{
    let left = to_chars(a);
    let right = to_chars(b);
    let mut i: usize = 0;
    assert(a@.skip(0) =~= a@ && b@.skip(0) =~= b@);
    while i < left.len() && i < right.len() && left[i] == right[i]
        invariant
            i <= left@.len(),
            i <= right@.len(),
            left@ == a@,
            right@ == b@,
            before(a@, b@) == before(a@.skip(i as int), b@.skip(i as int)),
        decreases left.len() - i,
    {
        assert(a@.skip(i as int).skip(1) =~= a@.skip(i + 1));
        assert(b@.skip(i as int).skip(1) =~= b@.skip(i + 1));
        i = i + 1;
    }
    if i == right.len() {
        false
    } else if i == left.len() {
        true
    } else {
        left[i] < right[i]
    }
}

/// No text comes before itself.
pub proof fn before_irreflexive(a: Seq<char>)
    ensures
        !before(a, a),
    decreases a.len(),
{
    if a.len() > 0 {
        before_irreflexive(a.skip(1));
    }
}

/// Of two different texts one comes before the other.
pub proof fn before_total(a: Seq<char>, b: Seq<char>)
    ensures
        a == b || before(a, b) || before(b, a),
    decreases a.len(),
{
    if a.len() == 0 || b.len() == 0 {
        if a.len() == 0 && b.len() == 0 {
            assert(a =~= b);
        }
    } else if a[0] == b[0] {
        before_total(a.skip(1), b.skip(1));
        if a.skip(1) == b.skip(1) {
            assert(a =~= seq![a[0]] + a.skip(1));
            assert(b =~= seq![b[0]] + b.skip(1));
        }
    }
}

/// What comes before a text comes before all that follow that text.
pub proof fn before_transitive(a: Seq<char>, b: Seq<char>, c: Seq<char>)
    requires
        before(a, b),
        before(b, c),
    ensures
        before(a, c),
    decreases a.len(),
{
    if a.len() > 0 && a[0] == b[0] && b[0] == c[0] {
        before_transitive(a.skip(1), b.skip(1), c.skip(1));
    }
}

/// `s` is in order and holds nothing twice.
pub open spec fn strictly_ordered(s: Seq<Seq<char>>) -> bool {
    forall|i: int, j: int| 0 <= i < j < s.len() ==> before(#[trigger] s[i], #[trigger] s[j])
}

/// `r` holds what `s` holds, each once and in order.
pub open spec fn is_sorted_unique_of(r: Seq<Seq<char>>, s: Seq<Seq<char>>) -> bool {
    &&& strictly_ordered(r)
    &&& forall|x: Seq<char>| #[trigger] r.contains(x) <==> s.contains(x)
}

proof fn lemma_insert_ordered(s: Seq<Seq<char>>, at: int, x: Seq<char>)
    requires
        strictly_ordered(s),
        0 <= at <= s.len(),
        at > 0 ==> before(s[at - 1], x),
        at < s.len() ==> before(x, s[at]),
    ensures
        strictly_ordered(s.insert(at, x)),
        forall|y: Seq<char>| #[trigger]
            s.insert(at, x).contains(y) <==> s.contains(y) || y == x,
{
    let t = s.insert(at, x);
    assert forall|i: int, j: int| 0 <= i < j < t.len() implies before(
        #[trigger] t[i],
        #[trigger] t[j],
    ) by {
        let i0 = if i < at {
            i
        } else {
            i - 1
        };
        let j0 = if j < at {
            j
        } else {
            j - 1
        };
        if i != at && j != at {
            assert(t[i] == s[i0] && t[j] == s[j0]);
        } else if j == at {
            assert(t[i] == s[i]);
            if i < at - 1 {
                before_transitive(s[i], s[at - 1], x);
            }
        } else {
            assert(t[j] == s[j - 1]);
            if j - 1 > at {
                before_transitive(x, s[at], s[j - 1]);
            }
        }
    }
    assert forall|y: Seq<char>| #[trigger] t.contains(y) <==> s.contains(y) || y == x by {
        if t.contains(y) {
            let i = choose|i: int| 0 <= i < t.len() && t[i] == y;
            if i < at {
                assert(s[i] == y);
            } else if i > at {
                assert(s[i - 1] == y);
            }
        }
        if s.contains(y) {
            let i = choose|i: int| 0 <= i < s.len() && s[i] == y;
            if i < at {
                assert(t[i] == y);
            } else {
                assert(t[i + 1] == y);
            }
        }
        if y == x {
            assert(t[at] == y);
        }
    }
}

fn insert_unique(list: &mut Vec<String>, x: &str)
    requires
        strictly_ordered(texts(old(list)@)),
    ensures
        strictly_ordered(texts(final(list)@)),
        forall|y: Seq<char>| #[trigger]
            texts(final(list)@).contains(y) <==> texts(old(list)@).contains(y) || y == x@,
{
    let mut at: usize = 0;
    while at < list.len() && is_before(list[at].as_str(), x)
        invariant
            at <= list@.len(),
            list@ == old(list)@,
            at > 0 ==> before(texts(list@)[at - 1], x@),
        decreases list.len() - at,
    {
        at = at + 1;
    }
    if at < list.len() && same(list[at].as_str(), x) {
        assert(texts(list@)[at as int] == x@);
        return;
    }
    proof {
        if at < list@.len() {
            before_total(list@[at as int]@, x@);
        }
        lemma_insert_ordered(texts(list@), at as int, x@);
    }
    let ghost prior = texts(list@);
    list.insert(at, x.to_owned());
    assert(texts(list@) =~= prior.insert(at as int, x@));
}

/// Two ordered lists that hold the same texts are one list.
pub proof fn ordered_lists_agree(a: Seq<Seq<char>>, b: Seq<Seq<char>>)
    requires
        strictly_ordered(a),
        strictly_ordered(b),
        forall|x: Seq<char>| #[trigger] a.contains(x) <==> b.contains(x),
    ensures
        a == b,
    decreases a.len(),
{
    if a.len() == 0 {
        if b.len() > 0 {
            assert(b.contains(b[0]));
            assert(a.contains(b[0]));
        }
        assert(a =~= b);
    } else {
        assert(a.contains(a.last()));
        let ka = choose|k: int| 0 <= k < b.len() && b[k] == a.last();
        assert(b.contains(b.last()));
        assert(a.contains(b.last()));
        let kb = choose|k: int| 0 <= k < a.len() && a[k] == b.last();
        if ka < b.len() - 1 {
            assert(before(b[ka], b[b.len() - 1]));
            if kb < a.len() - 1 {
                assert(before(a[kb], a[a.len() - 1]));
                before_transitive(a.last(), b.last(), a.last());
            }
            before_irreflexive(a.last());
        }
        assert(a.last() == b.last());
        let a0 = a.drop_last();
        let b0 = b.drop_last();
        assert forall|x: Seq<char>| #[trigger] a0.contains(x) <==> b0.contains(x) by {
            if a0.contains(x) {
                let k = choose|k: int| 0 <= k < a0.len() && a0[k] == x;
                assert(a[k] == x && before(a[k], a[a.len() - 1]));
                assert(a.contains(x));
                let m = choose|m: int| 0 <= m < b.len() && b[m] == x;
                if m == b.len() - 1 {
                    before_irreflexive(x);
                }
                assert(b0[m] == x);
            }
            if b0.contains(x) {
                let k = choose|k: int| 0 <= k < b0.len() && b0[k] == x;
                assert(b[k] == x && before(b[k], b[b.len() - 1]));
                assert(b.contains(x));
                assert(a.contains(x));
                let m = choose|m: int| 0 <= m < a.len() && a[m] == x;
                if m == a.len() - 1 {
                    before_irreflexive(x);
                }
                assert(a0[m] == x);
            }
        }
        ordered_lists_agree(a0, b0);
        assert(a =~= a0.push(a.last()));
        assert(b =~= b0.push(b.last()));
    }
}

/// What `s` holds, each text once and in order.
pub open spec fn sorted_unique_spec(s: Seq<Seq<char>>) -> Seq<Seq<char>> {
    choose|r: Seq<Seq<char>>| is_sorted_unique_of(r, s)
}

proof fn lemma_insert_text(r: Seq<Seq<char>>, x: Seq<char>, at: int) -> (t: Seq<Seq<char>>)
    requires
        strictly_ordered(r),
        0 <= at <= r.len(),
        at > 0 ==> before(r[at - 1], x),
    ensures
        strictly_ordered(t),
        forall|y: Seq<char>| #[trigger] t.contains(y) <==> r.contains(y) || y == x,
    decreases r.len() - at,
{
    if at < r.len() && before(r[at], x) {
        lemma_insert_text(r, x, at + 1)
    } else if at < r.len() && r[at] == x {
        r
    } else {
        if at < r.len() {
            before_total(r[at], x);
        }
        lemma_insert_ordered(r, at, x);
        r.insert(at, x)
    }
}

proof fn lemma_sorted_unique_of(s: Seq<Seq<char>>) -> (r: Seq<Seq<char>>)
    ensures
        is_sorted_unique_of(r, s),
    decreases s.len(),
{
    if s.len() == 0 {
        s
    } else {
        let r0 = lemma_sorted_unique_of(s.drop_last());
        let r = lemma_insert_text(r0, s.last(), 0);
        assert forall|y: Seq<char>| #[trigger] r.contains(y) <==> s.contains(y) by {
            let init = s.drop_last();
            if init.contains(y) {
                let k = choose|k: int| 0 <= k < init.len() && init[k] == y;
                assert(s[k] == y);
            }
            if y == s.last() {
                assert(s[s.len() - 1] == y);
            }
            if s.contains(y) {
                let k = choose|k: int| 0 <= k < s.len() && s[k] == y;
                if k < init.len() {
                    assert(init[k] == y);
                }
            }
            assert(r0.contains(y) <==> init.contains(y));
        }
        r
    }
}

/// Every list has its texts once and in order, and one list of that kind only.
pub proof fn sorted_unique_is_the_only_one(s: Seq<Seq<char>>, r: Seq<Seq<char>>)
    ensures
        is_sorted_unique_of(sorted_unique_spec(s), s),
        is_sorted_unique_of(r, s) ==> r == sorted_unique_spec(s),
{
    let some = lemma_sorted_unique_of(s);
    assert(is_sorted_unique_of(some, s));
    let chosen = sorted_unique_spec(s);
    if is_sorted_unique_of(r, s) {
        assert forall|x: Seq<char>| #[trigger] r.contains(x) <==> chosen.contains(x) by {
            assert(s.contains(x) <==> chosen.contains(x));
        }
        ordered_lists_agree(r, chosen);
    }
}

/// What `list` holds, each text once and in order.
pub fn sorted_unique(list: &Vec<String>) -> (r: Vec<String>)
    ensures
        is_sorted_unique_of(texts(r@), texts(list@)),
        texts(r@) == sorted_unique_spec(texts(list@)),
{
    let mut out: Vec<String> = Vec::new();
    let mut i: usize = 0;
    while i < list.len()
        invariant
            i <= list@.len(),
            is_sorted_unique_of(texts(out@), texts(list@).take(i as int)),
        decreases list.len() - i,
    {
        let ghost prior = texts(out@);
        insert_unique(&mut out, list[i].as_str());
        proof {
            let s = texts(list@);
            let x = list@[i as int]@;
            assert forall|y: Seq<char>| #[trigger] texts(out@).contains(y) <==> s.take(
                i + 1,
            ).contains(y) by {
                let shorter = s.take(i as int);
                let longer = s.take(i + 1);
                if shorter.contains(y) {
                    let k = choose|k: int| 0 <= k < shorter.len() && shorter[k] == y;
                    assert(longer[k] == y);
                }
                if y == x {
                    assert(longer[i as int] == y);
                }
                if longer.contains(y) {
                    let k = choose|k: int| 0 <= k < longer.len() && longer[k] == y;
                    if k < i {
                        assert(shorter[k] == y);
                    }
                }
                assert(prior.contains(y) <==> shorter.contains(y));
            }
        }
        i = i + 1;
    }
    assert(texts(list@).take(list@.len() as int) =~= texts(list@));
    proof {
        sorted_unique_is_the_only_one(texts(list@), texts(out@));
    }
    out
}

// ---------------------------------------------------------------------------
// What the operations do
// ---------------------------------------------------------------------------

/// A sorted list holds each text of the list it was made from, no other, and
/// none twice, in order.
pub proof fn sorted_lists_hold_everything_once(s: Seq<Seq<char>>, x: Seq<char>)
    ensures
        sorted_unique_spec(s).contains(x) <==> s.contains(x),
        strictly_ordered(sorted_unique_spec(s)),
{
    let r = lemma_sorted_unique_of(s);
    assert(is_sorted_unique_of(r, s));
    assert(is_sorted_unique_of(sorted_unique_spec(s), s));
}

/// A lookup gives the value of pair `k` where no pair before it has the key.
pub proof fn lookups_find_the_first_pair(pairs: Seq<(String, String)>, key: Seq<char>, k: int)
    requires
        0 <= k < pairs.len(),
        pairs[k].0@ == key,
        forall|j: int| 0 <= j < k ==> (#[trigger] pairs[j]).0@ != key,
    ensures
        lookup_spec(pairs, key) == Some(pairs[k].1@),
    decreases pairs.len(),
{
    if k > 0 {
        let rest = pairs.skip(1);
        assert(pairs[0].0@ != key);
        assert forall|j: int| 0 <= j < k - 1 implies (#[trigger] rest[j]).0@ != key by {
            assert(rest[j] == pairs[j + 1]);
        }
        assert(rest[k - 1] == pairs[k]);
        lookups_find_the_first_pair(rest, key, k - 1);
    }
}

/// A lookup finds nothing exactly where no pair has the key.
pub proof fn lookups_miss_absent_keys(pairs: Seq<(String, String)>, key: Seq<char>)
    ensures
        lookup_spec(pairs, key) is None <==> (forall|j: int|
            0 <= j < pairs.len() ==> (#[trigger] pairs[j]).0@ != key),
    decreases pairs.len(),
{
    if pairs.len() > 0 {
        let rest = pairs.skip(1);
        lookups_miss_absent_keys(rest, key);
        if lookup_spec(pairs, key) is None {
            assert forall|j: int| 0 <= j < pairs.len() implies (#[trigger] pairs[j]).0@
                != key by {
                if j > 0 {
                    assert(rest[j - 1] == pairs[j]);
                }
            }
        } else if pairs[0].0@ != key {
            let j = choose|j: int| 0 <= j < rest.len() && (#[trigger] rest[j]).0@ == key;
            assert(pairs[j + 1] == rest[j]);
        }
    }
}

/// A text begins with what it was put together from, and what is left behind
/// that is the rest.
pub proof fn prefixes_come_off(prefix: Seq<char>, rest: Seq<char>)
    ensures
        starts_with_spec(prefix + rest, prefix),
        strip_prefix_spec(prefix + rest, prefix) == Some(rest),
{
    assert((prefix + rest).take(prefix.len() as int) =~= prefix);
    assert((prefix + rest).skip(prefix.len() as int) =~= rest);
}

/// Where a text begins with a prefix, prefix and rest make up the text.
pub proof fn stripped_prefixes_go_back(s: Seq<char>, prefix: Seq<char>)
    ensures
        starts_with_spec(s, prefix) <==> strip_prefix_spec(s, prefix) is Some,
        strip_prefix_spec(s, prefix) matches Some(rest) ==> s == prefix + rest,
{
    if starts_with_spec(s, prefix) {
        assert(s =~= prefix + s.skip(prefix.len() as int));
    }
}

/// A text holds what stands in it, and where it holds something it is made of
/// what stands before that, of that, and of what stands behind it.
pub proof fn parts_are_found(head: Seq<char>, needle: Seq<char>, tail: Seq<char>, s: Seq<char>)
    ensures
        contains_spec(head + needle + tail, needle),
        contains_spec(s, needle) ==> exists|a: Seq<char>, b: Seq<char>| s == #[trigger] (a + needle
            + b),
{
    let whole = head + needle + tail;
    assert(whole.subrange(head.len() as int, (head.len() + needle.len()) as int) =~= needle);
    assert(found_at(whole, needle, head.len() as int));
    if contains_spec(s, needle) {
        let at = choose|at: int| found_at(s, needle, at);
        let a = s.take(at);
        let b = s.skip(at + needle.len() as int);
        assert(s =~= a + needle + b);
    }
}

proof fn lemma_trim_start(lead: Seq<char>, rest: Seq<char>)
    requires
        forall|i: int| 0 <= i < lead.len() ==> is_space_spec(#[trigger] lead[i]),
    ensures
        trim_start_spec(lead + rest) == trim_start_spec(rest),
    decreases lead.len(),
{
    if lead.len() == 0 {
        assert(lead + rest =~= rest);
    } else {
        let less = lead.skip(1);
        assert forall|i: int| 0 <= i < less.len() implies is_space_spec(#[trigger] less[i]) by {
            assert(less[i] == lead[i + 1]);
        }
        assert((lead + rest)[0] == lead[0]);
        assert((lead + rest).skip(1) =~= less + rest);
        lemma_trim_start(less, rest);
    }
}

proof fn lemma_trim_end(rest: Seq<char>, trail: Seq<char>)
    requires
        forall|i: int| 0 <= i < trail.len() ==> is_space_spec(#[trigger] trail[i]),
    ensures
        trim_end_spec(rest + trail) == trim_end_spec(rest),
    decreases trail.len(),
{
    if trail.len() == 0 {
        assert(rest + trail =~= rest);
    } else {
        let less = trail.drop_last();
        assert forall|i: int| 0 <= i < less.len() implies is_space_spec(#[trigger] less[i]) by {
            assert(less[i] == trail[i]);
        }
        assert((rest + trail).last() == trail[trail.len() - 1]);
        assert((rest + trail).drop_last() =~= rest + less);
        lemma_trim_end(rest, less);
    }
}

/// Trimming takes off the white space at both ends, all of it and nothing else.
pub proof fn trimming_takes_space_off_both_ends(
    lead: Seq<char>,
    core: Seq<char>,
    trail: Seq<char>,
)
    requires
        forall|i: int| 0 <= i < lead.len() ==> is_space_spec(#[trigger] lead[i]),
        forall|i: int| 0 <= i < trail.len() ==> is_space_spec(#[trigger] trail[i]),
        core.len() > 0 ==> !is_space_spec(core[0]) && !is_space_spec(core.last()),
    ensures
        trim_spec(lead + core + trail) == core,
{
    assert(lead + core + trail =~= lead + (core + trail));
    lemma_trim_start(lead, core + trail);
    if core.len() == 0 {
        assert(core + trail =~= trail + core);
        lemma_trim_start(trail, core);
        assert(trim_spec(lead + core + trail) =~= core);
    } else {
        assert((core + trail)[0] == core[0]);
        lemma_trim_end(core, trail);
    }
}

/// The white space of ASCII: blanks and the control characters from the
/// horizontal tab to the carriage return.
pub proof fn ascii_white_space(c: char)
    requires
        (c as u32) < 128,
    ensures
        is_space_spec(c) <==> c == ' ' || c == '\t' || c == '\n' || c == '\u{b}' || c == '\u{c}'
            || c == '\r',
{
}

/// Taking the leading characters `c` off takes off all of them and no other.
pub proof fn leading_characters_come_off(n: nat, c: char, rest: Seq<char>)
    requires
        rest.len() > 0 ==> rest[0] != c,
    ensures
        trim_start_char_spec(Seq::new(n, |i: int| c) + rest, c) == rest,
    decreases n,
{
    let s = Seq::new(n, |i: int| c) + rest;
    if n == 0 {
        assert(s =~= rest);
    } else {
        assert(s[0] == c);
        assert(s.skip(1) =~= Seq::new((n - 1) as nat, |i: int| c) + rest);
        leading_characters_come_off((n - 1) as nat, c, rest);
    }
}

/// Removing a character works piece by piece, leaves a text without it alone,
/// and leaves nothing of a text that is it.
pub proof fn removed_characters_are_gone(a: Seq<char>, b: Seq<char>, c: char)
    ensures
        remove_char_spec(a + b, c) == remove_char_spec(a, c) + remove_char_spec(b, c),
        free_of(a, c) ==> remove_char_spec(a, c) == a,
        remove_char_spec(seq![c], c) == Seq::<char>::empty(),
        free_of(remove_char_spec(a, c), c),
    decreases a.len() + b.len(),
{
    assert(seq![c].drop_last() =~= Seq::<char>::empty());
    assert(remove_char_spec(seq![c].drop_last(), c) == Seq::<char>::empty());
    if a.len() > 0 {
        removed_characters_are_gone(a.drop_last(), Seq::empty(), c);
        if free_of(a, c) {
            assert forall|i: int| 0 <= i < a.drop_last().len() implies a.drop_last()[i] != c by {
                assert(a.drop_last()[i] == a[i]);
            }
            assert(a.last() != c);
            assert(a =~= a.drop_last().push(a.last()));
        }
    }
    if b.len() == 0 {
        assert(a + b =~= a);
        assert(remove_char_spec(a, c) + remove_char_spec(b, c) =~= remove_char_spec(a, c));
    } else {
        removed_characters_are_gone(a, b.drop_last(), c);
        assert((a + b).drop_last() =~= a + b.drop_last());
        assert((a + b).last() == b.last());
        assert(remove_char_spec(a + b, c) =~= remove_char_spec(a, c) + remove_char_spec(b, c));
    }
}

/// Lower case of ASCII: a letter from A to Z becomes the one that stands as far
/// behind a, any other character stays, and none is added or lost.
pub proof fn ascii_letters_become_small(s: Seq<char>, i: int)
    requires
        0 <= i < s.len(),
    ensures
        ascii_lower_spec(s).len() == s.len(),
        'A' <= s[i] && s[i] <= 'Z' ==> ascii_lower_spec(s)[i] as u32 - 'a' as u32 == s[i] as u32
            - 'A' as u32,
        !('A' <= s[i] && s[i] <= 'Z') ==> ascii_lower_spec(s)[i] == s[i],
{
}

proof fn lemma_split_cons(head: Seq<char>, sep: char, tail: Seq<char>)
    requires
        free_of(head, sep),
    ensures
        split_spec(head, sep) == seq![head],
        split_spec(head.push(sep) + tail, sep) == seq![head] + split_spec(tail, sep),
    decreases head.len() + tail.len(),
{
    if head.len() == 0 {
        assert(head =~= Seq::<char>::empty());
        assert(split_spec(head, sep) =~= seq![head]);
    } else {
        let less = head.drop_last();
        assert forall|i: int| 0 <= i < less.len() implies less[i] != sep by {
            assert(less[i] == head[i]);
        }
        lemma_split_cons(less, sep, Seq::empty());
        assert(head.last() != sep);
        assert(seq![less].drop_last() =~= Seq::<Seq<char>>::empty());
        assert(less.push(head.last()) =~= head);
        assert(split_spec(head, sep) =~= seq![head]);
    }
    let s = head.push(sep) + tail;
    if tail.len() == 0 {
        assert(s.drop_last() =~= head);
        assert(s.last() == sep);
        assert(split_spec(s, sep) == seq![head].push(Seq::empty()));
        assert(split_spec(tail, sep) == seq![Seq::<char>::empty()]);
        assert(split_spec(s, sep) =~= seq![head] + split_spec(tail, sep));
    } else {
        lemma_split_cons(head, sep, tail.drop_last());
        lemma_split_nonempty(tail.drop_last(), sep);
        assert(s.drop_last() =~= head.push(sep) + tail.drop_last());
        assert(s.last() == tail.last());
        let before = split_spec(tail.drop_last(), sep);
        assert((seq![head] + before).last() == before.last());
        assert((seq![head] + before).drop_last() =~= seq![head] + before.drop_last());
        if tail.last() == sep {
            assert(split_spec(s, sep) =~= seq![head] + split_spec(tail, sep));
        } else {
            let grown = before.last().push(tail.last());
            assert(split_spec(tail, sep) == before.drop_last().push(grown));
            assert(split_spec(s, sep) == (seq![head] + before).drop_last().push(grown));
            assert(split_spec(s, sep) =~= seq![head] + split_spec(tail, sep));
        }
    }
}

/// A text without the separator is one piece; what stands before the first
/// separator is the first piece, and the others are those of what stands behind
/// it.
pub proof fn pieces_end_at_the_separator(head: Seq<char>, sep: char, tail: Seq<char>)
    requires
        free_of(head, sep),
    ensures
        split_spec(head, sep) == seq![head],
        split_spec(head.push(sep) + tail, sep) == seq![head] + split_spec(tail, sep),
{
    lemma_split_cons(head, sep, tail);
}

/// The first line ends at the first line feed, a carriage return before that
/// belongs to the ending, and the other lines are those of the rest. A last line
/// needs no ending.
pub proof fn lines_end_at_line_feeds(line: Seq<char>, rest: Seq<char>)
    requires
        free_of(line, '\n'),
    ensures
        line.len() > 0 ==> lines_spec(line) == seq![line],
        line.len() == 0 ==> lines_spec(line) == Seq::<Seq<char>>::empty(),
        (line.len() == 0 || line.last() != '\r') ==> lines_spec(line.push('\n') + rest)
            == seq![line] + lines_spec(rest),
        lines_spec(line.push('\r').push('\n') + rest) == seq![line] + lines_spec(rest),
{
    lemma_split_cons(line, '\n', rest);
    assert(seq![line].drop_last() =~= Seq::<Seq<char>>::empty());
    assert(lines_spec(line) =~= if line.len() > 0 {
        seq![line]
    } else {
        Seq::<Seq<char>>::empty()
    });
    let pieces = split_spec(rest, '\n');
    lemma_split_nonempty(rest, '\n');
    assert((seq![line] + pieces).drop_last() =~= seq![line] + pieces.drop_last());
    assert((seq![line] + pieces).last() == pieces.last());
    if line.len() == 0 || line.last() != '\r' {
        assert(lines_spec(line.push('\n') + rest) =~= seq![line] + lines_spec(rest));
    }
    let ended = line.push('\r');
    lemma_split_cons(ended, '\n', rest);
    assert((seq![ended] + pieces).drop_last() =~= seq![ended] + pieces.drop_last());
    assert((seq![ended] + pieces).last() == pieces.last());
    assert(ended.drop_last() =~= line);
    assert(lines_spec(ended.push('\n') + rest) =~= seq![line] + lines_spec(rest));
}

proof fn lemma_word(word: Seq<char>)
    requires
        word.len() > 0,
        forall|i: int| 0 <= i < word.len() ==> !is_space_spec(#[trigger] word[i]),
    ensures
        words_spec(word) == seq![word],
    decreases word.len(),
{
    let less = word.drop_last();
    assert(word.last() == word[word.len() - 1]);
    if word.len() == 1 {
        assert(less =~= Seq::<char>::empty());
        assert(seq![word.last()] =~= word);
        assert(words_spec(less) == Seq::<Seq<char>>::empty());
        assert(words_spec(word) =~= seq![word]);
    } else {
        assert forall|i: int| 0 <= i < less.len() implies !is_space_spec(#[trigger] less[i]) by {
            assert(less[i] == word[i]);
        }
        lemma_word(less);
        assert(!is_space_spec(word[word.len() - 2]));
        assert(seq![less].drop_last() =~= Seq::<Seq<char>>::empty());
        assert(less.push(word.last()) =~= word);
        assert(words_spec(word) == seq![less].drop_last().push(word));
        assert(words_spec(word) =~= seq![word]);
    }
}

proof fn lemma_words_nonempty(s: Seq<char>)
    requires
        s.len() > 0,
        !is_space_spec(s.last()),
    ensures
        words_spec(s).len() > 0,
{
}

proof fn lemma_words_cons(word: Seq<char>, c: char, rest: Seq<char>)
    requires
        word.len() > 0,
        forall|i: int| 0 <= i < word.len() ==> !is_space_spec(#[trigger] word[i]),
        is_space_spec(c),
    ensures
        words_spec(word.push(c) + rest) == seq![word] + words_spec(rest),
    decreases rest.len(),
{
    let s = word.push(c) + rest;
    if rest.len() == 0 {
        lemma_word(word);
        assert(s.last() == c);
        assert(s.drop_last() =~= word);
        assert(words_spec(s) =~= seq![word] + words_spec(rest));
    } else {
        let less = rest.drop_last();
        lemma_words_cons(word, c, less);
        assert(s.drop_last() =~= word.push(c) + less);
        assert(s.last() == rest.last());
        let before = words_spec(less);
        if is_space_spec(rest.last()) {
        } else if rest.len() == 1 {
            assert(s[s.len() - 2] == c);
            assert(less =~= Seq::<char>::empty());
        } else {
            assert(s[s.len() - 2] == rest[rest.len() - 2]);
            if !is_space_spec(rest[rest.len() - 2]) {
                assert(less.last() == rest[rest.len() - 2]);
                lemma_words_nonempty(less);
                assert((seq![word] + before).last() == before.last());
                assert((seq![word] + before).drop_last() =~= seq![word] + before.drop_last());
            }
        }
        assert(words_spec(s) =~= seq![word] + words_spec(rest));
    }
}

proof fn lemma_words_skip(c: char, rest: Seq<char>)
    requires
        is_space_spec(c),
    ensures
        words_spec(seq![c] + rest) == words_spec(rest),
    decreases rest.len(),
{
    let s = seq![c] + rest;
    if rest.len() == 0 {
        assert(s.last() == c);
        assert(s.drop_last() =~= rest);
    } else {
        lemma_words_skip(c, rest.drop_last());
        assert(s.drop_last() =~= seq![c] + rest.drop_last());
        assert(s.last() == rest.last());
        if rest.len() == 1 {
            assert(s[s.len() - 2] == c);
        } else {
            assert(s[s.len() - 2] == rest[rest.len() - 2]);
        }
    }
}

/// A run without white space is one word; white space ends a word, and more of
/// it counts for nothing.
pub proof fn words_end_at_white_space(word: Seq<char>, c: char, rest: Seq<char>)
    requires
        word.len() > 0,
        forall|i: int| 0 <= i < word.len() ==> !is_space_spec(#[trigger] word[i]),
        is_space_spec(c),
    ensures
        words_spec(word) == seq![word],
        words_spec(word.push(c) + rest) == seq![word] + words_spec(rest),
        words_spec(seq![c] + rest) == words_spec(rest),
{
    lemma_word(word);
    lemma_words_cons(word, c, rest);
    lemma_words_skip(c, rest);
}

/// What two lists are joined to stands one behind the other with the separator
/// between; one text is joined to itself, and no text to nothing.
pub proof fn joined_lists_join(a: Seq<Seq<char>>, b: Seq<Seq<char>>, sep: Seq<char>, s: Seq<char>)
    requires
        a.len() > 0,
        b.len() > 0,
    ensures
        join_spec(a + b, sep) == join_spec(a, sep) + sep + join_spec(b, sep),
        join_spec(seq![s], sep) == s,
        join_spec(Seq::empty(), sep) == Seq::<char>::empty(),
    decreases b.len(),
{
    assert((a + b).last() == b.last());
    if b.len() == 1 {
        assert((a + b).drop_last() =~= a);
        assert(b[0] == b.last());
    } else {
        joined_lists_join(a, b.drop_last(), sep, s);
        assert((a + b).drop_last() =~= a + b.drop_last());
        assert(join_spec(a + b, sep) =~= join_spec(a, sep) + sep + join_spec(b, sep));
    }
}

/// The order of texts: where two first differ, the smaller code point comes
/// first; and a text comes before what it is the beginning of.
pub proof fn the_first_difference_decides(
    common: Seq<char>,
    c: char,
    d: char,
    a: Seq<char>,
    b: Seq<char>,
)
    requires
        c < d,
    ensures
        before(common.push(c) + a, common.push(d) + b),
        !before(common.push(d) + b, common.push(c) + a),
        before(common, common.push(c) + a),
        !before(common.push(c) + a, common),
    decreases common.len(),
{
    let x = common.push(c) + a;
    let y = common.push(d) + b;
    if common.len() == 0 {
        assert(x[0] == c && y[0] == d);
    } else {
        let less = common.skip(1);
        the_first_difference_decides(less, c, d, a, b);
        assert(x[0] == common[0] && y[0] == common[0]);
        assert(x.skip(1) =~= less.push(c) + a);
        assert(y.skip(1) =~= less.push(d) + b);
    }
}

/// A preview is the beginning of a text: all of a short one, so many characters
/// of a long one.
pub proof fn previews_are_beginnings(s: Seq<char>, n: int)
    requires
        0 <= n,
    ensures
        s.len() <= n ==> preview_spec(s, n) == s,
        s.len() > n ==> preview_spec(s, n).len() == n,
        forall|i: int|
            0 <= i < preview_spec(s, n).len() ==> #[trigger] preview_spec(s, n)[i] == s[i],
{
}

/// A number is read from its digits, with or without a plus sign; anything else
/// in a text, or nothing at all, is no number.
pub proof fn numbers_are_digits(n: u64, s: Seq<char>)
    ensures
        parse_u64_spec(decimal_spec(n as nat)) == Some(n),
        parse_u64_spec(seq!['+'] + decimal_spec(n as nat)) == Some(n),
        s.len() == 0 ==> parse_u64_spec(s) is None,
        (exists|i: int| 0 <= i < s.len() && !('0' <= #[trigger] s[i] && s[i] <= '9') && !(i == 0
            && s[i] == '+')) ==> parse_u64_spec(s) is None,
        parse_u64_spec(seq!['+']) is None,
{
    decimal_then_parse(n);
    lemma_decimal_reads_back(n as nat);
    let d = decimal_spec(n as nat);
    let p = seq!['+'] + d;
    assert(p.skip(1) =~= d);
    assert(is_digit_spec(d[0]));
    assert(without_plus(d) == d);
    assert(seq!['+'].skip(1) =~= Seq::<char>::empty());
    if exists|i: int| 0 <= i < s.len() && !('0' <= #[trigger] s[i] && s[i] <= '9') && !(i == 0
        && s[i] == '+') {
        let i = choose|i: int|
            0 <= i < s.len() && !('0' <= #[trigger] s[i] && s[i] <= '9') && !(i == 0 && s[i]
                == '+');
        let digits = without_plus(s);
        if s[0] == '+' {
            assert(digits[i - 1] == s[i]);
            assert(!is_digit_spec(digits[i - 1]));
        } else {
            assert(!is_digit_spec(digits[i]));
        }
    }
}

/// No white space stands in a number.
pub proof fn decimal_has_no_space(n: nat)
    ensures
        decimal_spec(n).len() > 0,
        forall|i: int|
            0 <= i < decimal_spec(n).len() ==> '0' <= #[trigger] decimal_spec(n)[i]
                && decimal_spec(n)[i] <= '9' && !is_space_spec(decimal_spec(n)[i]),
        !is_space_spec(decimal_spec(n)[0]),
        !is_space_spec(decimal_spec(n).last()),
    decreases n,
{
    if n >= 10 {
        decimal_has_no_space(n / 10);
        let before = decimal_spec(n / 10);
        assert forall|i: int| 0 <= i < decimal_spec(n).len() implies '0' <= #[trigger] decimal_spec(
            n,
        )[i] && decimal_spec(n)[i] <= '9' && !is_space_spec(decimal_spec(n)[i]) by {
            if i < before.len() {
                assert(decimal_spec(n)[i] == before[i]);
            }
        }
    }
}

} // verus!
