//! Received chunks, and the files made of them.
use crate::digest::{sha1_hex, sha1_of};
use crate::download::{ChunkPart, FileManifest};
use crate::error::{ErrorView, FabCliError};
use crate::text;
use crate::text::{decimal_spec, lookup_spec, lower_text, opt_str};
use vstd::prelude::*;

verus! {

/// The four bytes of `b` from `at` on as a number, the lowest byte first.
pub open spec fn le32(b: Seq<u8>, at: int) -> int {
    b[at] + 0x100 * b[at + 1] + 0x1_0000 * b[at + 2] + 0x100_0000 * b[at + 3]
}

/// The number that a chunk begins with.
pub const CHUNK_MAGIC: u32 = 0xB1FE_3AA2;

/// A received chunk that is long enough to be looked at: it does not begin
/// with the magic number, or it holds the header that its version asks for.
pub open spec fn decodable_spec(wire: Seq<u8>) -> bool {
    &&& wire.len() >= 4
    &&& le32(wire, 0) == CHUNK_MAGIC ==> {
        &&& wire.len() >= 41
        &&& le32(wire, 4) >= 2 ==> wire.len() >= 62
        &&& le32(wire, 4) >= 3 ==> wire.len() >= 66
    }
}

fn read_le32(b: &Vec<u8>, at: usize) -> (r: u32)
    requires
        at + 4 <= b.len(),
    ensures
        r == le32(b@, at as int),
{
    (b[at] as u32) + 0x100 * (b[at + 1] as u32) + 0x1_0000 * (b[at + 2] as u32) + 0x100_0000 * (
    b[at + 3] as u32)
}

/// Whether a received chunk is long enough to be looked at.
pub fn is_decodable(wire: &Vec<u8>) -> (r: bool)
    ensures
        r == decodable_spec(wire@),
{
    if wire.len() < 4 {
        return false;
    }
    if read_le32(wire, 0) != CHUNK_MAGIC {
        return true;
    }
    if wire.len() < 41 {
        return false;
    }
    let version = read_le32(wire, 4);
    !(version >= 2 && wire.len() < 62) && !(version >= 3 && wire.len() < 66)
}

/// The data of the chunk `wire`, or nothing where it is no chunk: what
/// `egs_api::api::types::chunk::Chunk::from_vec` makes of it.
pub uninterp spec fn chunk_data(wire: Seq<u8>) -> Option<Seq<u8>>;

/// Bytes that may be there, by their value.
pub open spec fn opt_bytes(b: Option<Vec<u8>>) -> Option<Seq<u8>> {
    match b {
        Some(v) => Some(v@),
        None => None,
    }
}

/// Decodes a chunk with `egs_api::api::types::chunk::Chunk::from_vec`, which
/// reads the header, unpacks the data where the header says that they are
/// packed, and gives nothing for a wrong magic number or broken packing. The
/// result is a function of the bytes. It indexes the header without looking at
/// the length, hence the condition.
#[verifier::external_body]
fn decode_chunk(wire: Vec<u8>) -> (r: Option<Vec<u8>>)
    requires
        decodable_spec(wire@),
    ensures
        opt_bytes(r) == chunk_data(wire@),
{
    egs_api::api::types::chunk::Chunk::from_vec(wire).map(|c| c.data)
}

/// Bytes or an error, by their value.
pub open spec fn bytes_result(r: Result<Vec<u8>, FabCliError>) -> Result<Seq<u8>, ErrorView> {
    match r {
        Ok(b) => Ok(b@),
        Err(e) => Err(e@),
    }
}

/// The HTTP statuses that mean success.
pub open spec fn is_success(status: u16) -> bool {
    200 <= status <= 299
}

/// What becomes of a decoded chunk: refused where the manifest gives another
/// SHA-1. `expected` is the manifest's SHA-1 as it stands there and in lower
/// case.
pub open spec fn judge_chunk_spec(
    guid: Seq<char>,
    wire_len: nat,
    data: Option<Seq<u8>>,
    expected: Option<(Seq<char>, Seq<char>)>,
    actual: Seq<char>,
) -> Result<Seq<u8>, ErrorView> {
    match data {
        None => Err(
            ErrorView::Generic(
                "failed to parse BPS chunk "@ + guid + " ("@ + decimal_spec(wire_len)
                    + " wire bytes)"@,
            ),
        ),
        Some(bytes) => match expected {
            Some((given, lower)) => if actual != lower {
                Err(
                    ErrorView::Generic(
                        "hash mismatch for chunk "@ + guid + ": expected "@ + given + ", got "@
                            + actual,
                    ),
                )
            } else {
                Ok(bytes)
            },
            None => Ok(bytes),
        },
    }
}

/// The data of what was received: none where it is cut short, or is no chunk.
pub open spec fn received_data(wire: Seq<u8>) -> Option<Seq<u8>> {
    if decodable_spec(wire) {
        chunk_data(wire)
    } else {
        None
    }
}

/// What becomes of the answer to a request for a chunk.
pub open spec fn receive_chunk_spec(
    guid: Seq<char>,
    status: u16,
    status_text: Seq<char>,
    wire: Seq<u8>,
    expected: Option<Seq<char>>,
) -> Result<Seq<u8>, ErrorView> {
    if !is_success(status) {
        Err(
            ErrorView::Generic(
                "chunk "@ + guid + " download failed: HTTP "@ + status_text,
            ),
        )
    } else {
        let data = received_data(wire);
        judge_chunk_spec(
            guid,
            wire.len(),
            data,
            match expected {
                Some(given) => Some((given, lower_text(given))),
                None => None,
            },
            match data {
                Some(bytes) => sha1_hex(bytes),
                None => Seq::empty(),
            },
        )
    }
}

/// A pair of texts that may be there, by its value.
pub open spec fn opt_pair(p: Option<(&str, &str)>) -> Option<(Seq<char>, Seq<char>)> {
    match p {
        Some((a, b)) => Some((a@, b@)),
        None => None,
    }
}

/// Accepts the decoded chunk, or says why not: it could not be decoded, or its
/// SHA-1 `actual` is not the manifest's. `expected` is that of the manifest, as
/// it stands there and in lower case.
pub fn judge_chunk(
    guid: &str,
    wire_len: usize,
    data: Option<Vec<u8>>,
    expected: Option<(&str, &str)>,
    actual: &str,
) -> (r: Result<Vec<u8>, FabCliError>)
    ensures
        bytes_result(r) == judge_chunk_spec(
            guid@,
            wire_len as nat,
            opt_bytes(data),
            opt_pair(expected),
            actual@,
        ),
{
    match data {
        None => {
            let mut m = "failed to parse BPS chunk ".to_owned();
            m.append(guid);
            m.append(" (");
            m.append(text::decimal(wire_len as u64).as_str());
            m.append(" wire bytes)");
            Err(FabCliError::Generic(m))
        },
        Some(bytes) => {
            match expected {
                Some((given, lower)) => {
                    if !text::same(actual, lower) {
                        let mut m = "hash mismatch for chunk ".to_owned();
                        m.append(guid);
                        m.append(": expected ");
                        m.append(given);
                        m.append(", got ");
                        m.append(actual);
                        return Err(FabCliError::Generic(m));
                    }
                },
                None => {},
            }
            Ok(bytes)
        },
    }
}

/// The data of a received chunk, or why there are none: an HTTP status that is
/// no success, bytes that are cut short or are no chunk, or a SHA-1 that is not
/// the manifest's.
pub fn receive_chunk(
    guid: &str,
    status: u16,
    status_text: &str,
    wire: Vec<u8>,
    expected: Option<&str>,
) -> (r: Result<Vec<u8>, FabCliError>)
    ensures
        bytes_result(r) == receive_chunk_spec(
            guid@,
            status,
            status_text@,
            wire@,
            opt_str(expected),
        ),
{
    if !(200 <= status && status <= 299) {
        let mut m = "chunk ".to_owned();
        m.append(guid);
        m.append(" download failed: HTTP ");
        m.append(status_text);
        return Err(FabCliError::Generic(m));
    }
    let wire_len = wire.len();
    let data = if is_decodable(&wire) {
        decode_chunk(wire)
    } else {
        None
    };
    let actual = match &data {
        Some(bytes) => sha1_of(bytes.as_slice()),
        None => String::new(),
    };
    assert(data is None ==> actual@ =~= Seq::<char>::empty());
    match expected {
        Some(given) => {
            let lower = text::lower(given);
            judge_chunk(guid, wire_len, data, Some((given, lower.as_str())), actual.as_str())
        },
        None => judge_chunk(guid, wire_len, data, None, actual.as_str()),
    }
}

/// A chunk for which the manifest gives a SHA-1 is accepted only with data of
/// that SHA-1.
pub proof fn accepted_chunks_have_the_expected_hash(
    guid: Seq<char>,
    status: u16,
    status_text: Seq<char>,
    wire: Seq<u8>,
    expected: Seq<char>,
)
    ensures
        receive_chunk_spec(guid, status, status_text, wire, Some(expected)) matches Ok(data)
            ==> received_data(wire) == Some(data) && sha1_hex(data) == lower_text(expected),
{
}

/// The error for a request for a chunk that could not be sent.
pub fn chunk_request_error(guid: &str, message: &str) -> (r: FabCliError)
    ensures
        r@ == ErrorView::Network("chunk "@ + guid@ + ": "@ + message@),
{
    let mut m = "chunk ".to_owned();
    m.append(guid);
    m.append(": ");
    m.append(message);
    FabCliError::Network(m)
}

/// The error for a chunk whose body could not be read.
pub fn chunk_body_error(guid: &str, message: &str) -> (r: FabCliError)
    ensures
        r@ == ErrorView::Network("chunk "@ + guid@ + " body: "@ + message@),
{
    let mut m = "chunk ".to_owned();
    m.append(guid);
    m.append(" body: ");
    m.append(message);
    FabCliError::Network(m)
}

// ---------------------------------------------------------------------------
// Files
// ---------------------------------------------------------------------------

/// Copies `size` bytes of the scratch file `path`, from `offset` on, to the
/// end of the file that is being made.
#[derive(Debug)]
pub struct CopyStep {
    pub path: String,
    pub offset: u64,
    pub size: usize,
}

/// The mathematical value of a [`CopyStep`].
pub struct StepView {
    pub path: Seq<char>,
    pub offset: u64,
    pub size: usize,
}

impl View for CopyStep {
    type V = StepView;

    open spec fn view(&self) -> StepView {
        StepView { path: self.path@, offset: self.offset, size: self.size }
    }
}

/// The values of a list of steps.
pub open spec fn steps_view(steps: Seq<CopyStep>) -> Seq<StepView> {
    steps.map_values(|s: CopyStep| s@)
}

/// The steps that make a file of `parts`, up to the first part whose chunk is
/// missing; and the error for that part. `have` are the pairs of chunk and
/// scratch file.
pub open spec fn file_steps_spec(
    filename: Seq<char>,
    parts: Seq<ChunkPart>,
    have: Seq<(String, String)>,
) -> (Seq<StepView>, Option<ErrorView>)
    decreases parts.len(),
{
    if parts.len() == 0 {
        (Seq::empty(), None)
    } else {
        let (steps, error) = file_steps_spec(filename, parts.drop_last(), have);
        let part = parts.last();
        if error is Some {
            (steps, error)
        } else {
            match lookup_spec(have, part.guid@) {
                Some(path) => (
                    steps.push(
                        StepView { path, offset: part.offset as u64, size: part.size as usize },
                    ),
                    None,
                ),
                None => (
                    steps,
                    Some(
                        ErrorView::Generic(
                            "missing chunk "@ + part.guid@ + " for file "@ + filename,
                        ),
                    ),
                ),
            }
        }
    }
}

proof fn lemma_steps_stop(
    filename: Seq<char>,
    parts: Seq<ChunkPart>,
    have: Seq<(String, String)>,
    n: int,
)
    requires
        0 <= n <= parts.len(),
        file_steps_spec(filename, parts.take(n), have).1 is Some,
    ensures
        file_steps_spec(filename, parts, have) == file_steps_spec(filename, parts.take(n), have),
    decreases parts.len() - n,
{
    if n == parts.len() {
        assert(parts.take(n) =~= parts);
    } else {
        assert(parts.take(n + 1).drop_last() =~= parts.take(n));
        lemma_steps_stop(filename, parts, have, n + 1);
    }
}

/// An error that may be there, by its value.
pub open spec fn opt_error(e: Option<FabCliError>) -> Option<ErrorView> {
    match e {
        Some(x) => Some(x@),
        None => None,
    }
}

/// The steps that make the file `file`, in order. Where a chunk is missing,
/// the steps before it and the error.
pub fn file_steps(file: &FileManifest, have: &Vec<(String, String)>) -> (r: (
    Vec<CopyStep>,
    Option<FabCliError>,
))
    ensures
        steps_view(r.0@) == file_steps_spec(file.filename@, file.parts@, have@).0,
        opt_error(r.1) == file_steps_spec(file.filename@, file.parts@, have@).1,
{
    let parts = &file.parts;
    let mut steps: Vec<CopyStep> = Vec::new();
    let mut i: usize = 0;
    assert(steps_view(steps@) =~= file_steps_spec(file.filename@, parts@.take(0), have@).0);
    while i < parts.len()
        invariant
            i <= parts@.len(),
            *parts == file.parts,
            file_steps_spec(file.filename@, parts@.take(i as int), have@) == (
                steps_view(steps@),
                None::<ErrorView>,
            ),
        decreases parts.len() - i,
    {
        assert(parts@.take(i + 1).drop_last() =~= parts@.take(i as int));
        assert(parts@.take(i + 1).last() == parts@[i as int]);
        let part = &parts[i];
        match text::lookup(have, part.guid.as_str()) {
            Some(path) => {
                let step = CopyStep {
                    path,
                    offset: #[verifier::truncate] (part.offset as u64),
                    size: #[verifier::truncate] (part.size as usize),
                };
                let ghost prior = steps@;
                steps.push(step);
                assert(steps_view(steps@) =~= steps_view(prior).push(step@));
            },
            None => {
                let mut m = "missing chunk ".to_owned();
                m.append(part.guid.as_str());
                m.append(" for file ");
                m.append(file.filename.as_str());
                let e = FabCliError::Generic(m);
                proof {
                    lemma_steps_stop(file.filename@, parts@, have@, i + 1);
                }
                return (steps, Some(e));
            },
        }
        i = i + 1;
    }
    assert(parts@.take(parts@.len() as int) =~= parts@);
    (steps, None)
}

/// How many bytes the steps write.
pub open spec fn written_spec(steps: Seq<StepView>) -> nat
    decreases steps.len(),
{
    if steps.len() == 0 {
        0
    } else {
        written_spec(steps.drop_last()) + steps.last().size as nat
    }
}

proof fn lemma_written_monotone(steps: Seq<StepView>, n: int)
    requires
        0 <= n <= steps.len(),
    ensures
        written_spec(steps.take(n)) <= written_spec(steps),
    decreases steps.len(),
{
    if n == steps.len() {
        assert(steps.take(n) =~= steps);
    } else {
        lemma_written_monotone(steps.drop_last(), n);
        assert(steps.drop_last().take(n) =~= steps.take(n));
    }
}

/// The bytes written so far and those that the steps write.
pub fn add_written(total: u64, steps: &Vec<CopyStep>) -> (r: u64)
    requires
        total + written_spec(steps_view(steps@)) <= u64::MAX,
    ensures
        r == total + written_spec(steps_view(steps@)),
{
    let mut sum: u64 = total;
    let mut i: usize = 0;
    let ghost views = steps_view(steps@);
    while i < steps.len()
        invariant
            i <= steps@.len(),
            views == steps_view(steps@),
            total + written_spec(views) <= u64::MAX,
            sum == total + written_spec(views.take(i as int)),
        decreases steps.len() - i,
    {
        assert(views.take(i + 1).drop_last() =~= views.take(i as int));
        assert(views.take(i + 1).last() == steps@[i as int]@);
        proof {
            lemma_written_monotone(views, i + 1);
        }
        sum = sum + steps[i].size as u64;
        i = i + 1;
    }
    assert(views.take(views.len() as int) =~= views);
    sum
}

/// Where every chunk of a file was fetched, the file is made whole: one step
/// for each part, in order.
pub proof fn fetched_files_are_complete(
    filename: Seq<char>,
    parts: Seq<ChunkPart>,
    have: Seq<(String, String)>,
)
    requires
        forall|i: int|
            0 <= i < parts.len() ==> lookup_spec(have, (#[trigger] parts[i]).guid@) is Some,
    ensures
        file_steps_spec(filename, parts, have).1 is None,
        file_steps_spec(filename, parts, have).0.len() == parts.len(),
    decreases parts.len(),
{
    if parts.len() > 0 {
        let head = parts.drop_last();
        assert forall|i: int| 0 <= i < head.len() implies lookup_spec(
            have,
            (#[trigger] head[i]).guid@,
        ) is Some by {
            assert(head[i] == parts[i]);
        }
        fetched_files_are_complete(filename, head, have);
        assert(parts.last() == parts[parts.len() - 1]);
    }
}

/// Where every chunk of a file is there, its step `i` copies from the scratch
/// file of part `i`'s chunk, exactly that part's bytes: from its offset, as many
/// as its size. (An offset or a size that the machine cannot address is cut.)
pub proof fn steps_copy_their_parts(
    filename: Seq<char>,
    parts: Seq<ChunkPart>,
    have: Seq<(String, String)>,
    i: int,
)
    requires
        forall|j: int|
            0 <= j < parts.len() ==> lookup_spec(have, (#[trigger] parts[j]).guid@) is Some,
        0 <= i < parts.len(),
    ensures
        file_steps_spec(filename, parts, have).1 is None,
        file_steps_spec(filename, parts, have).0.len() == parts.len(),
        Some(file_steps_spec(filename, parts, have).0[i].path) == lookup_spec(
            have,
            parts[i].guid@,
        ),
        parts[i].offset <= u64::MAX ==> file_steps_spec(filename, parts, have).0[i].offset
            == parts[i].offset,
        parts[i].size <= usize::MAX ==> file_steps_spec(filename, parts, have).0[i].size
            == parts[i].size,
    decreases parts.len(),
{
    let head = parts.drop_last();
    assert forall|j: int| 0 <= j < head.len() implies lookup_spec(
        have,
        (#[trigger] head[j]).guid@,
    ) is Some by {
        assert(head[j] == parts[j]);
    }
    fetched_files_are_complete(filename, head, have);
    fetched_files_are_complete(filename, parts, have);
    assert(parts.last() == parts[parts.len() - 1]);
    if i < head.len() {
        steps_copy_their_parts(filename, head, have, i);
        assert(head[i] == parts[i]);
    }
}

/// The scratch file that a step copies from is the one that was recorded first
/// for its chunk.
pub proof fn steps_read_recorded_files(
    filename: Seq<char>,
    parts: Seq<ChunkPart>,
    have: Seq<(String, String)>,
    i: int,
    k: int,
)
    requires
        forall|j: int|
            0 <= j < parts.len() ==> lookup_spec(have, (#[trigger] parts[j]).guid@) is Some,
        0 <= i < parts.len(),
        0 <= k < have.len(),
        have[k].0@ == parts[i].guid@,
        forall|j: int| 0 <= j < k ==> (#[trigger] have[j]).0@ != parts[i].guid@,
    ensures
        file_steps_spec(filename, parts, have).0[i].path == have[k].1@,
{
    steps_copy_their_parts(filename, parts, have, i);
    crate::text::lookups_find_the_first_pair(have, parts[i].guid@, k);
}

/// Where part `n` is the first whose chunk is missing, the steps are those of
/// the parts before it, and the error names the chunk and the file.
pub proof fn steps_end_at_a_missing_chunk(
    filename: Seq<char>,
    parts: Seq<ChunkPart>,
    have: Seq<(String, String)>,
    n: int,
)
    requires
        0 <= n < parts.len(),
        forall|j: int|
            0 <= j < n ==> lookup_spec(have, (#[trigger] parts[j]).guid@) is Some,
        lookup_spec(have, parts[n].guid@) is None,
    ensures
        file_steps_spec(filename, parts, have).0.len() == n,
        file_steps_spec(filename, parts, have).0 == file_steps_spec(
            filename,
            parts.take(n),
            have,
        ).0,
        file_steps_spec(filename, parts, have).1 == Some(
            ErrorView::Generic("missing chunk "@ + parts[n].guid@ + " for file "@ + filename),
        ),
{
    let head = parts.take(n);
    let upto = parts.take(n + 1);
    assert forall|j: int| 0 <= j < head.len() implies lookup_spec(
        have,
        (#[trigger] head[j]).guid@,
    ) is Some by {
        assert(head[j] == parts[j]);
    }
    fetched_files_are_complete(filename, head, have);
    assert(upto.drop_last() =~= head);
    assert(upto.last() == parts[n]);
    lemma_steps_stop(filename, parts, have, n + 1);
}

/// What is written for two runs of steps is what is written for the one and for
/// the other; a step writes as many bytes as its size.
pub proof fn written_bytes_add_up(a: Seq<StepView>, b: Seq<StepView>, s: StepView)
    ensures
        written_spec(a + b) == written_spec(a) + written_spec(b),
        written_spec(seq![s]) == s.size,
    decreases b.len(),
{
    assert(seq![s].drop_last() =~= Seq::<StepView>::empty());
    assert(written_spec(seq![s].drop_last()) == 0);
    if b.len() == 0 {
        assert(a + b =~= a);
    } else {
        written_bytes_add_up(a, b.drop_last(), s);
        assert((a + b).drop_last() =~= a + b.drop_last());
        assert((a + b).last() == b.last());
    }
}

/// A chunk is accepted exactly where the service answered with success, the
/// bytes decode, and their hash is the expected one in lower case or none was
/// given; what is accepted is what the bytes decode to.
pub proof fn chunks_are_accepted_exactly(
    guid: Seq<char>,
    status: u16,
    status_text: Seq<char>,
    wire: Seq<u8>,
    expected: Option<Seq<char>>,
)
    ensures
        receive_chunk_spec(guid, status, status_text, wire, expected) is Ok <==> 200 <= status
            && status <= 299 && wire.len() >= 4 && (received_data(wire) matches Some(data) && (
        expected matches Some(h) ==> sha1_hex(data) == lower_text(h))),
        receive_chunk_spec(guid, status, status_text, wire, expected) matches Ok(data)
            ==> chunk_data(wire) == Some(data),
        received_data(wire) matches Some(data) ==> chunk_data(wire) == Some(data),
        !(200 <= status <= 299) ==> receive_chunk_spec(guid, status, status_text, wire, expected)
            == Err::<Seq<u8>, ErrorView>(
            ErrorView::Generic("chunk "@ + guid + " download failed: HTTP "@ + status_text),
        ),
{
}

/// Bytes that do not begin with the chunk format's magic number, lowest byte
/// first, are handed on whatever their length; those that do must hold the whole
/// header of their version.
pub proof fn cut_headers_are_refused(wire: Seq<u8>)
    requires
        wire.len() >= 4,
    ensures
        !(wire[0] == 0xA2 && wire[1] == 0x3A && wire[2] == 0xFE && wire[3] == 0xB1)
            ==> received_data(wire) == chunk_data(wire),
        wire[0] == 0xA2 && wire[1] == 0x3A && wire[2] == 0xFE && wire[3] == 0xB1 ==> {
            &&& wire.len() < 41 ==> received_data(wire) is None
            &&& wire.len() >= 66 ==> received_data(wire) == chunk_data(wire)
            &&& wire.len() < 62 && wire[4] >= 2 ==> received_data(wire) is None
            &&& wire.len() < 66 && wire[4] >= 3 ==> received_data(wire) is None
            &&& 41 <= wire.len() < 62 && wire[4] <= 1 && wire[5] == 0 && wire[6] == 0 && wire[7]
                == 0 ==> received_data(wire) == chunk_data(wire)
            &&& 62 <= wire.len() < 66 && wire[4] <= 2 && wire[5] == 0 && wire[6] == 0 && wire[7]
                == 0 ==> received_data(wire) == chunk_data(wire)
        },
{
}

/// A chunk is accepted where it decodes and has the expected hash, or none is
/// expected, and then as it decoded.
pub proof fn chunks_are_judged_by_their_hash(
    guid: Seq<char>,
    wire_len: nat,
    data: Option<Seq<u8>>,
    expected: Option<(Seq<char>, Seq<char>)>,
    actual: Seq<char>,
)
    ensures
        judge_chunk_spec(guid, wire_len, data, expected, actual) is Ok <==> data is Some && (
        expected matches Some(h) ==> actual == h.1),
        judge_chunk_spec(guid, wire_len, data, expected, actual) matches Ok(bytes) ==> data == Some(
            bytes,
        ),
        judge_chunk_spec(guid, wire_len, data, expected, actual) matches Err(e) ==> e is Generic,
{
}

/// A chunk that does not decode is named.
pub proof fn undecoded_chunks_are_named(
    guid: Seq<char>,
    wire_len: nat,
    expected: Option<(Seq<char>, Seq<char>)>,
    actual: Seq<char>,
)
    ensures
        judge_chunk_spec(guid, wire_len, None, expected, actual) matches Err(e)
            && crate::text::contains_spec(crate::error::message_spec(e), guid),
{
    let head = "failed to parse BPS chunk "@;
    let tail = " ("@ + decimal_spec(wire_len) + " wire bytes)"@;
    crate::text::parts_are_found(head, guid, tail, Seq::empty());
    assert(head + guid + " ("@ + decimal_spec(wire_len) + " wire bytes)"@ =~= head + guid + tail);
}

/// Of a chunk with another hash than the expected one both hashes are named.
pub proof fn mismatched_chunks_are_named(
    guid: Seq<char>,
    wire_len: nat,
    data: Seq<u8>,
    given: Seq<char>,
    lower: Seq<char>,
    actual: Seq<char>,
)
    requires
        actual != lower,
    ensures
        judge_chunk_spec(guid, wire_len, Some(data), Some((given, lower)), actual) matches Err(e)
            && crate::text::contains_spec(
            crate::error::message_spec(e),
            guid + ": expected "@ + given + ", got "@ + actual,
        ),
{
    let head = "hash mismatch for chunk "@;
    let told = guid + ": expected "@ + given + ", got "@ + actual;
    lemma_behind(head, guid, ": expected "@ + given + ", got "@ + actual);
    lemma_regroup(head + guid, ": expected "@, given, ", got "@, actual);
    lemma_regroup(guid, ": expected "@, given, ", got "@, actual);
    lemma_ends_with(head, told);
}

proof fn lemma_behind(a: Seq<char>, b: Seq<char>, c: Seq<char>)
    ensures
        a + b + c == a + (b + c),
{
    assert(a + b + c =~= a + (b + c));
}

proof fn lemma_regroup(a: Seq<char>, b: Seq<char>, c: Seq<char>, d: Seq<char>, e: Seq<char>)
    ensures
        a + b + c + d + e == a + (b + c + d + e),
{
    lemma_behind(a, b, c);
    lemma_behind(a, b + c, d);
    lemma_behind(a, b + c + d, e);
}

proof fn lemma_ends_with(a: Seq<char>, b: Seq<char>)
    ensures
        crate::text::contains_spec(a + b, b),
{
    crate::text::parts_are_found(a, b, Seq::empty(), Seq::empty());
    assert(a + b + Seq::<char>::empty() =~= a + b);
}

} // verus!
