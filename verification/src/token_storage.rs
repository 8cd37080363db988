//! The stored session: an encrypted file, and the key it is sealed with.
//!
//! The file begins with a magic number, a version and a nonce; behind them
//! stands the session, sealed with AES-256-GCM. The key lives in the keystore
//! of the operating system, as base64 text.
use crate::chunks::bytes_result;
use crate::error::{ErrorView, FabCliError};
use crate::text;
use crate::text::decimal_spec;
use vstd::prelude::*;

verus! {

/// What the file begins with.
pub open spec fn magic_spec() -> Seq<u8> {
    seq![70u8, 65u8, 66u8, 67u8, 76u8, 73u8, 0xb1u8, 0xc1u8]
}

/// The version of the format.
pub const FORMAT_VERSION: u8 = 1;

/// The length of a key.
pub const AES_KEY_LEN: usize = 32;

/// The length of a nonce.
pub const GCM_NONCE_LEN: usize = 12;

/// The length of what stands before the sealed session.
pub const HEADER_LEN: usize = 21;

/// The length of the tag behind what is sealed.
pub const TAG_LEN: usize = 16;

/// The longest session that is sealed.
pub const LONGEST_SEALED: u64 = 0x10_0000_0000;

/// What AES-256-GCM makes of `plain` under `key` and `nonce`, or the message of
/// its failure.
pub uninterp spec fn sealed(key: Seq<u8>, nonce: Seq<u8>, plain: Seq<u8>) -> Result<
    Seq<u8>,
    Seq<char>,
>;

/// What AES-256-GCM makes of `cipher` under `key` and `nonce`; nothing where its
/// tag does not verify.
pub uninterp spec fn opened(key: Seq<u8>, nonce: Seq<u8>, cipher: Seq<u8>) -> Option<Seq<u8>>;

/// Bytes or a message, by their value.
pub open spec fn sealed_view(r: Result<Vec<u8>, String>) -> Result<Seq<u8>, Seq<char>> {
    match r {
        Ok(b) => Ok(b@),
        Err(e) => Err(e@),
    }
}

/// What `r` holds opens to `plain`.
pub open spec fn opens_to(
    key: Seq<u8>,
    nonce: Seq<u8>,
    r: Result<Vec<u8>, String>,
    plain: Seq<u8>,
) -> bool {
    match r {
        Ok(b) => opened(key, nonce, b@) == Some(plain) && b@.len() == plain.len() + TAG_LEN,
        Err(_) => true,
    }
}

/// `other` is `bytes` with another tag, that is with other last bytes.
pub open spec fn with_another_tag(bytes: Seq<u8>, other: Seq<u8>) -> bool {
    &&& bytes.len() >= TAG_LEN
    &&& other.len() == bytes.len()
    &&& other.take(bytes.len() - TAG_LEN) == bytes.take(bytes.len() - TAG_LEN)
    &&& other != bytes
}

/// What `r` holds opens with no other tag.
pub open spec fn opens_with_its_tag_only(
    key: Seq<u8>,
    nonce: Seq<u8>,
    r: Result<Vec<u8>, String>,
) -> bool {
    match r {
        Ok(b) => forall|other: Seq<u8>|
            with_another_tag(b@, other) ==> #[trigger] opened(key, nonce, other) is None,
        Err(_) => true,
    }
}

/// What `r` holds opens under no other nonce.
pub open spec fn opens_with_its_nonce_only(
    key: Seq<u8>,
    nonce: Seq<u8>,
    r: Result<Vec<u8>, String>,
) -> bool {
    match r {
        Ok(b) => forall|other: Seq<u8>|
            other.len() == GCM_NONCE_LEN && other != nonce ==> #[trigger] opened(key, other, b@)
                is None,
        Err(_) => true,
    }
}

/// Seals `plain` with `aes_gcm::Aes256Gcm` (`Aead::encrypt`): a function of the
/// key, the nonce and the text. What is sealed is longer by a tag of sixteen
/// bytes, and opens to what was sealed. With another tag it does not open, since
/// the tag is compared with the one computed from the rest. Under another nonce
/// it does not either: the tag is masked with the enciphered nonce, and the
/// cipher takes no two blocks to one. (That a change of what stands before the
/// tag is noticed is a matter of chance, and not claimed.) It fails for more
/// than 2^36 bytes (`P_MAX`) and for nothing else. A nonce of another length
/// than twelve bytes would panic.
#[verifier::external_body]
fn aead_seal(key: &[u8; 32], nonce: &Vec<u8>, plain: &Vec<u8>) -> (r: Result<Vec<u8>, String>)
    requires
        nonce@.len() == 12,
    ensures
        sealed_view(r) == sealed(key@, nonce@, plain@),
        opens_to(key@, nonce@, r, plain@),
        opens_with_its_tag_only(key@, nonce@, r),
        opens_with_its_nonce_only(key@, nonce@, r),
        r is Ok <==> plain@.len() <= LONGEST_SEALED,
{
    let cipher = <aes_gcm::Aes256Gcm as aes_gcm::KeyInit>::new(key.into());
    let n = aes_gcm::Nonce::from_slice(nonce);
    aes_gcm::aead::Aead::encrypt(&cipher, n, plain.as_slice()).map_err(|e| e.to_string())
}

/// Opens `cipher_text` with `aes_gcm::Aes256Gcm` (`Aead::decrypt`): a function
/// of the key, the nonce and the bytes; nothing where the tag does not verify or
/// there is no room for one. What comes out is shorter by the tag.
/// A nonce of another length than twelve bytes would panic.
#[verifier::external_body]
fn aead_open(key: &[u8; 32], nonce: &Vec<u8>, cipher_text: &Vec<u8>) -> (r: Option<Vec<u8>>)
    requires
        nonce@.len() == 12,
    ensures
        crate::chunks::opt_bytes(r) == opened(key@, nonce@, cipher_text@),
        cipher_text@.len() < TAG_LEN ==> r is None,
        r matches Some(plain) ==> plain@.len() + TAG_LEN == cipher_text@.len(),
{
    let cipher = <aes_gcm::Aes256Gcm as aes_gcm::KeyInit>::new(key.into());
    let n = aes_gcm::Nonce::from_slice(nonce);
    aes_gcm::aead::Aead::decrypt(&cipher, n, cipher_text.as_slice()).ok()
}

/// `count` random bytes from `rand::rngs::OsRng`. They differ from call to
/// call; only their number is known. Where the operating system gives none,
/// whatever was asked for, `OsRng` panics.
#[verifier::external_body]
fn random_bytes(count: usize) -> (r: Vec<u8>)
    requires
        count <= AES_KEY_LEN,
    ensures
        r@.len() == count,
{
    let mut bytes = vec![0u8; count];
    rand::RngCore::fill_bytes(&mut rand::rngs::OsRng, &mut bytes);
    bytes
}

/// The bytes of a stored session.
pub open spec fn blob_spec(nonce: Seq<u8>, cipher: Seq<u8>) -> Seq<u8> {
    magic_spec() + seq![FORMAT_VERSION] + nonce + cipher
}

/// What is held against the bytes of a stored session before they are opened.
pub open spec fn header_spec(blob: Seq<u8>) -> Result<(), ErrorView> {
    if blob.len() < HEADER_LEN {
        Err(
            ErrorView::Generic(
                "token file is too short to be a valid encrypted blob — re-run 'fabcli auth login' to write a fresh token"@,
            ),
        )
    } else if blob.take(8) != magic_spec() {
        Err(
            ErrorView::Generic(
                "token file format not recognized (missing FabCLI magic header). Delete the file and re-run 'fabcli auth login' to write a fresh token."@,
            ),
        )
    } else if blob[8] != FORMAT_VERSION {
        Err(
            ErrorView::Generic(
                "token file format version "@ + decimal_spec(blob[8] as nat)
                    + " not supported (this build expects "@ + decimal_spec(FORMAT_VERSION as nat)
                    + "); re-run 'fabcli auth login' to write a fresh token"@,
            ),
        )
    } else {
        Ok(())
    }
}

/// The nonce in the bytes of a stored session.
pub open spec fn nonce_of(blob: Seq<u8>) -> Seq<u8> {
    blob.subrange(9, 21)
}

/// The sealed session in the bytes of a stored session.
pub open spec fn cipher_of(blob: Seq<u8>) -> Seq<u8> {
    blob.skip(21)
}

/// `other` is the bytes of a stored session with another nonce.
pub open spec fn with_another_nonce(blob: Seq<u8>, other: Seq<u8>) -> bool {
    &&& blob.len() >= HEADER_LEN
    &&& other.len() == blob.len()
    &&& other.take(9) == blob.take(9)
    &&& cipher_of(other) == cipher_of(blob)
    &&& other != blob
}

/// What the opened bytes, or that they could not be opened, are reported as.
pub open spec fn opened_result(data: Option<Seq<u8>>) -> Result<Seq<u8>, ErrorView> {
    match data {
        Some(plain) => Ok(plain),
        None => Err(
            ErrorView::Generic(
                "token decryption failed: authentication tag did not verify. The keystore key may have been rotated, the file may be corrupted, or the token may have been written on a different machine. Re-run 'fabcli auth login'."@,
            ),
        ),
    }
}

/// What the bytes of a stored session hold under a key.
pub open spec fn decrypt_spec(blob: Seq<u8>, key: Seq<u8>) -> Result<Seq<u8>, ErrorView> {
    match header_spec(blob) {
        Err(e) => Err(e),
        Ok(_) => opened_result(opened(key, nonce_of(blob), cipher_of(blob))),
    }
}

fn copy_range(bytes: &Vec<u8>, from: usize, to: usize) -> (r: Vec<u8>)
    requires
        from <= to <= bytes@.len(),
    ensures
        r@ == bytes@.subrange(from as int, to as int),
{
    let mut out: Vec<u8> = Vec::new();
    let mut i: usize = from;
    while i < to
        invariant
            from <= i <= to <= bytes@.len(),
            out@ == bytes@.subrange(from as int, i as int),
        decreases to - i,
    {
        out.push(bytes[i]);
        assert(bytes@.subrange(from as int, i as int).push(bytes@[i as int]) =~= bytes@.subrange(
            from as int,
            i + 1,
        ));
        i = i + 1;
    }
    out
}

/// Refuses bytes that are no stored session of this version: too few, without
/// the magic number, or of another version.
pub fn check_header(blob: &Vec<u8>) -> (r: Result<(), FabCliError>)
    ensures
        crate::download::unit_view(r) == header_spec(blob@),
{
    if blob.len() < HEADER_LEN {
        return Err(
            FabCliError::Generic(
                "token file is too short to be a valid encrypted blob — re-run 'fabcli auth login' to write a fresh token".to_owned(),
            ),
        );
    }
    let is_magic = blob[0] == 70 && blob[1] == 65 && blob[2] == 66 && blob[3] == 67 && blob[4] == 76
        && blob[5] == 73 && blob[6] == 0xb1 && blob[7] == 0xc1;
    proof {
        if is_magic {
            assert(blob@.take(8) =~= magic_spec());
        } else {
            assert(blob@.take(8)[0] == blob@[0] && blob@.take(8)[1] == blob@[1] && blob@.take(8)[2]
                == blob@[2] && blob@.take(8)[3] == blob@[3] && blob@.take(8)[4] == blob@[4]
                && blob@.take(8)[5] == blob@[5] && blob@.take(8)[6] == blob@[6] && blob@.take(8)[7]
                == blob@[7]);
            let m = magic_spec();
            assert(m[0] == 70 && m[1] == 65 && m[2] == 66 && m[3] == 67 && m[4] == 76 && m[5] == 73
                && m[6] == 0xb1 && m[7] == 0xc1);
        }
    }
    if !is_magic {
        return Err(
            FabCliError::Generic(
                "token file format not recognized (missing FabCLI magic header). Delete the file and re-run 'fabcli auth login' to write a fresh token.".to_owned(),
            ),
        );
    }
    if blob[8] != FORMAT_VERSION {
        let mut m = "token file format version ".to_owned();
        m.append(text::decimal(blob[8] as u64).as_str());
        m.append(" not supported (this build expects ");
        m.append(text::decimal(FORMAT_VERSION as u64).as_str());
        m.append("); re-run 'fabcli auth login' to write a fresh token");
        return Err(FabCliError::Generic(m));
    }
    Ok(())
}

/// What opening came to, or why it failed.
pub fn opened_or_error(data: Option<Vec<u8>>) -> (r: Result<Vec<u8>, FabCliError>)
    ensures
        bytes_result(r) == opened_result(crate::chunks::opt_bytes(data)),
{
    match data {
        Some(plain) => Ok(plain),
        None => Err(
            FabCliError::Generic(
                "token decryption failed: authentication tag did not verify. The keystore key may have been rotated, the file may be corrupted, or the token may have been written on a different machine. Re-run 'fabcli auth login'.".to_owned(),
            ),
        ),
    }
}

/// Opens the bytes of a stored session, whose header was checked.
pub fn decrypt_with_key(blob: &Vec<u8>, key: &[u8; 32]) -> (r: Result<Vec<u8>, FabCliError>)
    requires
        blob@.len() >= HEADER_LEN,
    ensures
        bytes_result(r) == opened_result(opened(key@, nonce_of(blob@), cipher_of(blob@))),
        r matches Ok(plain) ==> plain@.len() + HEADER_LEN + TAG_LEN == blob@.len(),
{
    let nonce = copy_range(blob, 9, HEADER_LEN);
    let cipher_text = copy_range(blob, HEADER_LEN, blob.len());
    assert(cipher_text@ =~= cipher_of(blob@));
    opened_or_error(aead_open(key, &nonce, &cipher_text))
}

/// Opens the bytes of a stored session.
pub fn decrypt(blob: &Vec<u8>, key: &[u8; 32]) -> (r: Result<Vec<u8>, FabCliError>)
    ensures
        bytes_result(r) == decrypt_spec(blob@, key@),
        r matches Ok(plain) ==> plain@.len() + HEADER_LEN + TAG_LEN == blob@.len(),
{
    match check_header(blob) {
        Err(e) => Err(e),
        Ok(_) => decrypt_with_key(blob, key),
    }
}

/// The bytes of a stored session: the header, the nonce and what was sealed
/// with it.
pub fn frame(nonce: &Vec<u8>, cipher_text: Vec<u8>) -> (r: Vec<u8>)
    ensures
        r@ == blob_spec(nonce@, cipher_text@),
{
    let mut out: Vec<u8> = vec![70, 65, 66, 67, 76, 73, 0xb1, 0xc1, FORMAT_VERSION];
    assert(out@ =~= magic_spec() + seq![FORMAT_VERSION]);
    let mut n = copy_range(nonce, 0, nonce.len());
    assert(n@ =~= nonce@);
    let mut c = cipher_text;
    out.append(&mut n);
    out.append(&mut c);
    out
}

/// Seals `plain` with a fresh nonce. What comes back holds the nonce that was
/// used and what was sealed with it, and opens to `plain`; where `plain` is too
/// long the error says so.
pub fn encrypt_with_key(plain: &Vec<u8>, key: &[u8; 32]) -> (r: Result<Vec<u8>, FabCliError>)
    ensures
        r is Ok <==> plain@.len() <= LONGEST_SEALED,
        exists|nonce: Seq<u8>| #[trigger]
            nonce.len() == GCM_NONCE_LEN && match sealed(key@, nonce, plain@) {
                Ok(cipher) => r matches Ok(blob) && blob@ == blob_spec(nonce, cipher),
                Err(e) => r matches Err(x) && x@ == ErrorView::Generic(
                    "AES-GCM encrypt failed: "@ + e,
                ),
            },
        r matches Ok(blob) ==> decrypt_spec(blob@, key@) == Ok::<Seq<u8>, ErrorView>(plain@),
        r matches Ok(blob) ==> forall|other: Seq<u8>|
            with_another_tag(blob@, other) || with_another_nonce(blob@, other)
                ==> #[trigger] decrypt_spec(other, key@) is Err,
        r matches Ok(blob) ==> blob@.len() == HEADER_LEN + plain@.len() + TAG_LEN,
{
    let nonce = random_bytes(GCM_NONCE_LEN);
    assert(nonce@.len() == GCM_NONCE_LEN);
    match aead_seal(key, &nonce, plain) {
        Ok(cipher_text) => {
            let ghost c = cipher_text@;
            let blob = frame(&nonce, cipher_text);
            proof {
                lemma_blob_parts(nonce@, c);
                assert forall|other: Seq<u8>|
                    with_another_tag(blob@, other) || with_another_nonce(
                        blob@,
                        other,
                    ) implies (#[trigger] decrypt_spec(other, key@) is Err) by {
                    if with_another_tag(blob@, other) {
                        lemma_another_tag(nonce@, c, other);
                    } else {
                        lemma_another_nonce(nonce@, c, other);
                    }
                }
            }
            Ok(blob)
        },
        Err(e) => {
            let mut m = "AES-GCM encrypt failed: ".to_owned();
            m.append(e.as_str());
            Err(FabCliError::Generic(m))
        },
    }
}

proof fn lemma_blob_parts(nonce: Seq<u8>, cipher: Seq<u8>)
    requires
        nonce.len() == GCM_NONCE_LEN,
    ensures
        header_spec(blob_spec(nonce, cipher)) == Ok::<(), ErrorView>(()),
        nonce_of(blob_spec(nonce, cipher)) == nonce,
        cipher_of(blob_spec(nonce, cipher)) == cipher,
        blob_spec(nonce, cipher).len() == HEADER_LEN + cipher.len(),
{
    let blob = blob_spec(nonce, cipher);
    assert(blob.take(8) =~= magic_spec());
    assert(blob[8] == FORMAT_VERSION);
    assert(nonce_of(blob) =~= nonce);
    assert(cipher_of(blob) =~= cipher);
}

proof fn lemma_another_tag(nonce: Seq<u8>, cipher: Seq<u8>, other: Seq<u8>)
    requires
        nonce.len() == GCM_NONCE_LEN,
        cipher.len() >= TAG_LEN,
        with_another_tag(blob_spec(nonce, cipher), other),
    ensures
        nonce_of(other) == nonce,
        with_another_tag(cipher, cipher_of(other)),
{
    let blob = blob_spec(nonce, cipher);
    let keep = blob.len() - TAG_LEN;
    lemma_blob_parts(nonce, cipher);
    assert forall|i: int| 0 <= i < keep implies #[trigger] other[i] == blob[i] by {
        assert(other.take(keep)[i] == blob.take(keep)[i]);
    }
    assert(nonce_of(other) =~= nonce_of(blob));
    assert(cipher_of(other).take(cipher.len() - TAG_LEN) =~= cipher_of(blob).take(
        cipher.len() - TAG_LEN,
    ));
    if cipher_of(other) == cipher {
        assert forall|i: int| 0 <= i < blob.len() implies other[i] == blob[i] by {
            if i >= HEADER_LEN {
                assert(other[i] == cipher_of(other)[i - HEADER_LEN]);
                assert(blob[i] == cipher_of(blob)[i - HEADER_LEN]);
            }
        }
        assert(other =~= blob);
    }
}

proof fn lemma_another_nonce(nonce: Seq<u8>, cipher: Seq<u8>, other: Seq<u8>)
    requires
        nonce.len() == GCM_NONCE_LEN,
        with_another_nonce(blob_spec(nonce, cipher), other),
    ensures
        nonce_of(other).len() == GCM_NONCE_LEN,
        nonce_of(other) != nonce,
        cipher_of(other) == cipher,
{
    let blob = blob_spec(nonce, cipher);
    lemma_blob_parts(nonce, cipher);
    if nonce_of(other) == nonce {
        assert forall|i: int| 0 <= i < blob.len() implies other[i] == blob[i] by {
            if i < 9 {
                assert(other.take(9)[i] == blob.take(9)[i]);
            } else if i < HEADER_LEN {
                assert(nonce_of(other)[i - 9] == nonce_of(blob)[i - 9]);
            } else {
                assert(cipher_of(other)[i - HEADER_LEN] == cipher_of(blob)[i - HEADER_LEN]);
            }
        }
        assert(other =~= blob);
    }
}

/// Bytes that do not begin with the magic number and the version are refused,
/// whatever the key: no file of another kind is taken for a session.
pub proof fn other_headers_are_refused(blob: Seq<u8>, key: Seq<u8>)
    requires
        blob.len() < HEADER_LEN || blob.take(9) != magic_spec() + seq![FORMAT_VERSION],
    ensures
        decrypt_spec(blob, key) is Err,
{
    if blob.len() >= HEADER_LEN && blob.take(8) == magic_spec() && blob[8] == FORMAT_VERSION {
        assert forall|i: int| 0 <= i < 9 implies blob.take(9)[i] == (magic_spec()
            + seq![FORMAT_VERSION])[i] by {
            if i < 8 {
                assert(blob.take(8)[i] == blob[i]);
            }
        }
        assert(blob.take(9) =~= magic_spec() + seq![FORMAT_VERSION]);
    }
}

/// What a nonce and sealed bytes are framed to is taken apart into the same,
/// and its header is accepted.
pub proof fn frames_read_back(nonce: Seq<u8>, cipher: Seq<u8>, key: Seq<u8>)
    requires
        nonce.len() == GCM_NONCE_LEN,
    ensures
        header_spec(blob_spec(nonce, cipher)) is Ok,
        decrypt_spec(blob_spec(nonce, cipher), key) == opened_result(opened(key, nonce, cipher)),
{
    lemma_blob_parts(nonce, cipher);
}

// ---------------------------------------------------------------------------
// The key
// ---------------------------------------------------------------------------

/// The standard base64 text of `bytes`.
pub uninterp spec fn base64_text(bytes: Seq<u8>) -> Seq<char>;

/// The bytes that the standard base64 text `s` stands for, or the message that
/// says why it stands for none.
pub uninterp spec fn base64_bytes(s: Seq<char>) -> Result<Seq<u8>, Seq<char>>;

/// A reading that gives `bytes`.
pub open spec fn decoded_as(bytes: Seq<u8>) -> Result<Seq<u8>, Seq<char>> {
    Ok(bytes)
}

/// `bytes` as base64 text, by `base64::engine::general_purpose::STANDARD`
/// (`Engine::encode`): a function of the bytes, which decodes to them.
#[verifier::external_body]
pub(crate) fn encode_base64(bytes: &[u8]) -> (r: String)
    ensures
        r@ == base64_text(bytes@),
        base64_bytes(r@) == decoded_as(bytes@),
{
    base64::Engine::encode(&base64::engine::general_purpose::STANDARD, bytes)
}

/// The bytes of base64 text, by `base64::engine::general_purpose::STANDARD`
/// (`Engine::decode`), or the error's message: a function of the text.
#[verifier::external_body]
fn decode_base64(s: &str) -> (r: Result<Vec<u8>, String>)
    ensures
        sealed_view(r) == base64_bytes(s@),
{
    base64::Engine::decode(&base64::engine::general_purpose::STANDARD, s).map_err(|e| e.to_string())
}

/// The key that decoded bytes are: they must be as many as a key has.
pub open spec fn key_spec(decoded: Result<Seq<u8>, Seq<char>>) -> Result<Seq<u8>, ErrorView> {
    match decoded {
        Err(e) => Err(ErrorView::Generic("keystore key decode failed: "@ + e)),
        Ok(bytes) => if bytes.len() != AES_KEY_LEN {
            Err(
                ErrorView::Generic(
                    "keystore key has wrong length ("@ + decimal_spec(bytes.len())
                        + ", expected "@ + decimal_spec(AES_KEY_LEN as nat)
                        + ") — keystore entry may be corrupt; delete it and re-run 'fabcli auth login'"@,
                ),
            )
        } else {
            Ok(bytes)
        },
    }
}

/// A key or an error, by its value.
pub open spec fn key_result(r: Result<[u8; 32], FabCliError>) -> Result<Seq<u8>, ErrorView> {
    match r {
        Ok(k) => Ok(k@),
        Err(e) => Err(e@),
    }
}

fn to_key(bytes: &Vec<u8>) -> (r: [u8; 32])
    requires
        bytes@.len() == 32,
    ensures
        r@ == bytes@,
{
    let mut key = [0u8;32];
    let mut i: usize = 0;
    while i < 32
        invariant
            i <= 32,
            bytes@.len() == 32,
            key@.len() == 32,
            forall|j: int| 0 <= j < i ==> key@[j] == bytes@[j],
        decreases 32 - i,
    {
        key[i] = bytes[i];
        i = i + 1;
    }
    assert(key@ =~= bytes@);
    key
}

/// The key that decoded bytes are.
pub fn key_from_bytes(decoded: Result<Vec<u8>, String>) -> (r: Result<[u8; 32], FabCliError>)
    ensures
        key_result(r) == key_spec(sealed_view(decoded)),
{
    match decoded {
        Err(e) => {
            let mut m = "keystore key decode failed: ".to_owned();
            m.append(e.as_str());
            Err(FabCliError::Generic(m))
        },
        Ok(bytes) => {
            if bytes.len() != AES_KEY_LEN {
                let mut m = "keystore key has wrong length (".to_owned();
                m.append(text::decimal(bytes.len() as u64).as_str());
                m.append(", expected ");
                m.append(text::decimal(AES_KEY_LEN as u64).as_str());
                m.append(
                    ") — keystore entry may be corrupt; delete it and re-run 'fabcli auth login'",
                );
                return Err(FabCliError::Generic(m));
            }
            Ok(to_key(&bytes))
        },
    }
}

/// The key that the text of a keystore entry stands for.
pub fn key_from_b64(b64: &str) -> (r: Result<[u8; 32], FabCliError>)
    ensures
        key_result(r) == key_spec(base64_bytes(b64@)),
{
    key_from_bytes(decode_base64(b64))
}

/// A new key, and the text that is stored for it.
pub fn new_key() -> (r: ([u8; 32], String))
    ensures
        r.1@ == base64_text(r.0@),
        key_spec(base64_bytes(r.1@)) == Ok::<Seq<u8>, ErrorView>(r.0@),
{
    let bytes = random_bytes(AES_KEY_LEN);
    let key = to_key(&bytes);
    let stored = encode_base64(key.as_slice());
    (key, stored)
}

/// What the keystore answered.
#[derive(Debug)]
pub enum KeystoreAnswer {
    /// There is no keystore.
    Unavailable(String),
    /// The entry's text.
    Found(String),
    NoEntry,
    /// Reading failed.
    Failed(String),
}

/// What getting the key does next.
#[derive(Debug)]
pub enum KeyAction {
    /// Ask the keystore.
    Ask,
    /// The key is known.
    Use([u8; 32]),
    /// Make a key and store it.
    Create,
    Fail(FabCliError),
}

/// The mathematical value of a [`KeyAction`].
#[verifier::ext_equal]
pub enum KeyView {
    Ask,
    Use(Seq<u8>),
    Create,
    Fail(ErrorView),
}

impl View for KeyAction {
    type V = KeyView;

    open spec fn view(&self) -> KeyView {
        match self {
            KeyAction::Ask => KeyView::Ask,
            KeyAction::Use(k) => KeyView::Use(k@),
            KeyAction::Create => KeyView::Create,
            KeyAction::Fail(e) => KeyView::Fail(e@),
        }
    }
}

/// A key that may be there, by its value.
pub open spec fn opt_key(k: Option<[u8; 32]>) -> Option<Seq<u8>> {
    match k {
        Some(x) => Some(x@),
        None => None,
    }
}

/// What getting the key does next: `cached` is the key that is known already,
/// `answer` what the keystore answered, `create` whether a missing key is made.
pub open spec fn key_next_spec(
    create: bool,
    cached: Option<Seq<u8>>,
    answer: Option<KeystoreAnswer>,
) -> KeyView {
    match cached {
        Some(k) => KeyView::Use(k),
        None => match answer {
            None => KeyView::Ask,
            Some(KeystoreAnswer::Unavailable(e)) => KeyView::Fail(
                ErrorView::Generic(
                    "OS keystore unavailable: "@ + e@
                        + ". Start a keystore daemon (gnome-keyring-daemon or kwalletd5 on Linux; DPAPI is always available on Windows 10+)."@,
                ),
            ),
            Some(KeystoreAnswer::Found(b64)) => match key_spec(base64_bytes(b64@)) {
                Ok(k) => KeyView::Use(k),
                Err(e) => KeyView::Fail(e),
            },
            Some(KeystoreAnswer::NoEntry) => if create {
                KeyView::Create
            } else {
                KeyView::Fail(
                    ErrorView::Generic(
                        "no encryption key in OS keystore for FabCLI. The token may have been written on a different machine or under a different user account. Re-run 'fabcli auth login'."@,
                    ),
                )
            },
            Some(KeystoreAnswer::Failed(e)) => KeyView::Fail(
                ErrorView::Generic("OS keystore read failed: "@ + e@),
            ),
        },
    }
}

/// What getting the key does next. For writing a missing key is made, for
/// reading it is an error.
pub fn key_next(create: bool, cached: Option<[u8; 32]>, answer: &Option<KeystoreAnswer>) -> (r:
    KeyAction)
    ensures
        r@ == key_next_spec(create, opt_key(cached), *answer),
{
    if let Some(k) = cached {
        return KeyAction::Use(k);
    }
    match answer {
        None => KeyAction::Ask,
        Some(KeystoreAnswer::Unavailable(e)) => {
            let mut m = "OS keystore unavailable: ".to_owned();
            m.append(e.as_str());
            m.append(
                ". Start a keystore daemon (gnome-keyring-daemon or kwalletd5 on Linux; DPAPI is always available on Windows 10+).",
            );
            KeyAction::Fail(FabCliError::Generic(m))
        },
        Some(KeystoreAnswer::Found(b64)) => match key_from_b64(b64.as_str()) {
            Ok(k) => KeyAction::Use(k),
            Err(e) => KeyAction::Fail(e),
        },
        Some(KeystoreAnswer::NoEntry) => {
            if create {
                KeyAction::Create
            } else {
                KeyAction::Fail(
                    FabCliError::Generic(
                        "no encryption key in OS keystore for FabCLI. The token may have been written on a different machine or under a different user account. Re-run 'fabcli auth login'.".to_owned(),
                    ),
                )
            }
        },
        Some(KeystoreAnswer::Failed(e)) => {
            let mut m = "OS keystore read failed: ".to_owned();
            m.append(e.as_str());
            KeyAction::Fail(FabCliError::Generic(m))
        },
    }
}

/// The error for a new key that could not be stored.
pub fn key_store_error(message: &str) -> (r: FabCliError)
    ensures
        r@ == ErrorView::Generic(
            "could not write encryption key to OS keystore: "@ + message@,
        ),
{
    let mut m = "could not write encryption key to OS keystore: ".to_owned();
    m.append(message);
    FabCliError::Generic(m)
}

/// The error for a key that could not be deleted.
pub fn key_delete_error(message: &str) -> (r: FabCliError)
    ensures
        r@ == ErrorView::Generic("could not delete OS keystore entry: "@ + message@),
{
    let mut m = "could not delete OS keystore entry: ".to_owned();
    m.append(message);
    FabCliError::Generic(m)
}

/// A key that is known is used, whatever the keystore says: one process seals
/// and opens with one key.
pub proof fn known_keys_are_kept(create: bool, key: Seq<u8>, answer: Option<KeystoreAnswer>)
    ensures
        key_next_spec(create, Some(key), answer) == KeyView::Use(key),
{
}

/// Reading never makes a key.
pub proof fn reading_makes_no_key(cached: Option<Seq<u8>>, answer: Option<KeystoreAnswer>)
    ensures
        key_next_spec(false, cached, answer) != KeyView::Create,
{
}

/// Bytes are taken for a stored session exactly where they are long enough, and
/// begin with the eight bytes of the magic number and the byte of the version.
pub proof fn stored_sessions_are_known_by_their_header(blob: Seq<u8>)
    ensures
        header_spec(blob) is Ok <==> blob.len() >= 21 && blob[0] == 70 && blob[1] == 65 && blob[2]
            == 66 && blob[3] == 67 && blob[4] == 76 && blob[5] == 73 && blob[6] == 0xb1 && blob[7]
            == 0xc1 && blob[8] == FORMAT_VERSION,
        header_spec(blob) matches Err(e) ==> e is Generic,
{
    if blob.len() >= 21 {
        let m = magic_spec();
        assert(m[0] == 70 && m[1] == 65 && m[2] == 66 && m[3] == 67 && m[4] == 76 && m[5] == 73
            && m[6] == 0xb1 && m[7] == 0xc1);
        if blob.take(8) == m {
            assert forall|i: int| 0 <= i < 8 implies blob[i] == m[i] by {
                assert(blob.take(8)[i] == blob[i]);
            }
            assert(blob[0] == m[0] && blob[1] == m[1] && blob[2] == m[2] && blob[3] == m[3]
                && blob[4] == m[4] && blob[5] == m[5] && blob[6] == m[6] && blob[7] == m[7]);
        } else if blob[0] == 70 && blob[1] == 65 && blob[2] == 66 && blob[3] == 67 && blob[4] == 76
            && blob[5] == 73 && blob[6] == 0xb1 && blob[7] == 0xc1 {
            assert(blob.take(8) =~= m);
        }
    }
}

/// Where the nonce and the sealed session stand: behind the nine bytes of magic
/// number and version twelve bytes of nonce, and then the rest.
pub proof fn nonce_and_session_stand_behind_the_header(blob: Seq<u8>, i: int)
    requires
        blob.len() >= 21,
    ensures
        nonce_of(blob).len() == 12,
        cipher_of(blob).len() == blob.len() - 21,
        0 <= i < 12 ==> nonce_of(blob)[i] == blob[9 + i],
        0 <= i < blob.len() - 21 ==> cipher_of(blob)[i] == blob[21 + i],
{
}

/// What was opened is handed on as it is; what could not be opened is a failure.
pub proof fn opened_sessions_are_handed_on(plain: Seq<u8>)
    ensures
        opened_result(Some(plain)) == Ok::<Seq<u8>, ErrorView>(plain),
        opened_result(None) matches Err(ErrorView::Generic(_)),
{
}

/// A key is thirty-two bytes, taken as they are; more or fewer, and what is no
/// base64, are refused.
pub proof fn keys_are_thirty_two_bytes(bytes: Seq<u8>, message: Seq<char>)
    ensures
        bytes.len() == 32 ==> key_spec(Ok(bytes)) == Ok::<Seq<u8>, ErrorView>(bytes),
        bytes.len() != 32 ==> key_spec(Ok(bytes)) is Err,
        key_spec(Err(message)) is Err,
{
}

/// The course of getting the key: one that is known is used; else the keystore
/// is asked; one that it has is used where it is a key; and where it has none,
/// one is made exactly where that is wanted.
pub proof fn keys_are_got_in_order(
    create: bool,
    cached: Option<Seq<u8>>,
    answer: Option<KeystoreAnswer>,
    key: Seq<u8>,
)
    ensures
        key_next_spec(create, cached, answer) is Ask <==> cached is None && answer is None,
        key_next_spec(create, cached, answer) is Create <==> cached is None && create && (answer
            matches Some(a) && a is NoEntry),
        key_next_spec(create, cached, answer) == KeyView::Use(key) <==> cached == Some(key) || (
        cached is None && (answer matches Some(a) && (a matches KeystoreAnswer::Found(text)
            && base64_bytes(text@) == Ok::<Seq<u8>, Seq<char>>(key) && key.len() == 32))),
        cached is None ==> (answer matches Some(a) ==> (a is Unavailable || a is Failed ==> (
        key_next_spec(create, cached, answer) matches KeyView::Fail(e) && e is Generic))),
{
}

} // verus!
