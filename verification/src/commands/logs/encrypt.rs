use crate::error::ConfigError;
use byteorder::ByteOrder;
use byteorder::LittleEndian;
use vstd::array::ArrayAdditionalExecFns;
use vstd::bytes::spec_u64_from_le_bytes;
use vstd::bytes::spec_u64_to_le_bytes;
use vstd::prelude::*;

verus! {

/// The 32 bytes that `blake3::keyed_hash` gives for a key and an input.
pub uninterp spec fn keyed_hash(key: Seq<u8>, input: Seq<u8>) -> Seq<u8>;

/// The bytes that `hex::decode` reads from a text, where it accepts the text.
pub uninterp spec fn hex_decoded(text: Seq<char>) -> Option<Seq<u8>>;

#[verifier::external_type_specification]
#[verifier::external_body]
pub struct ExFromHexError(hex::FromHexError);

/// The lower-case character of one hexadecimal digit.
pub open spec fn hex_digit(d: nat) -> char {
    if d < 10 {
        crate::text::digit_char(d)
    } else if d == 10 {
        'a'
    } else if d == 11 {
        'b'
    } else if d == 12 {
        'c'
    } else if d == 13 {
        'd'
    } else if d == 14 {
        'e'
    } else {
        'f'
    }
}

/// Bytes in lower-case hexadecimal, two characters for each byte, high digit first.
pub open spec fn hex_lower(bytes: Seq<u8>) -> Seq<char>
    decreases bytes.len(),
{
    if bytes.len() == 0 {
        Seq::empty()
    } else {
        hex_lower(bytes.drop_last()).push(hex_digit(bytes.last() as nat / 16)).push(
            hex_digit(bytes.last() as nat % 16),
        )
    }
}

/// `LittleEndian::write_u64` of byteorder, on a fresh buffer of eight bytes:
/// the number's bytes, lowest first.
#[verifier::external_body]
pub(crate) fn le_bytes(n: u64) -> (raw: Vec<u8>)
    ensures
        raw@ == spec_u64_to_le_bytes(n),
        raw@.len() == 8,
{
    let mut raw = [0u8; 8];
    LittleEndian::write_u64(&mut raw, n);
    raw.to_vec()
}

/// `LittleEndian::read_u64` of byteorder: the number whose lowest byte comes
/// first, read from the first eight bytes. It panics on a shorter buffer.
#[verifier::external_body]
pub(crate) fn le_number(raw: &[u8]) -> (n: u64)
    requires
        raw@.len() >= 8,
    ensures
        n == spec_u64_from_le_bytes(raw@.subrange(0, 8)),
{
    LittleEndian::read_u64(raw)
}

/// `blake3::keyed_hash`, with the digest taken out as plain bytes.
#[verifier::external_body]
pub(crate) fn blake3_keyed(key: &[u8; 32], input: &[u8]) -> (digest: [u8; 32])
    ensures
        digest@ == keyed_hash(key@, input@),
{
    *blake3::keyed_hash(key, input).as_bytes()
}

/// `blake3::Hash::to_hex`: the digest in lower-case hexadecimal.
#[verifier::external_body]
pub(crate) fn digest_hex(digest: &[u8; 32]) -> (text: String)
    ensures
        text@ == hex_lower(digest@),
{
    blake3::Hash::from_bytes(*digest).to_hex().to_string()
}

/// `hex::decode` on a text: the bytes, or the crate's error where the text is
/// no hexadecimal of even length.
#[verifier::external_body]
pub(crate) fn hex_decode(text: &str) -> (decoded: Result<Vec<u8>, hex::FromHexError>)
    ensures
        match decoded {
            Ok(bytes) => hex_decoded(text@) == Some(bytes@),
            Err(_) => hex_decoded(text@) is None,
        },
{
    hex::decode(text)
}

/// A secret from decoded bytes: exactly 32 of them.
pub fn secret_from_bytes(decoded: Option<Vec<u8>>) -> (res: Result<[u8; 32], ConfigError>)
    ensures
        match decoded {
            None => res matches Err(e) && e is MalformedSecret,
            Some(bytes) => if bytes@.len() == 32 {
                res matches Ok(key) && key@ == bytes@
            } else {
                res matches Err(e) && e is SecretLength
            },
        },
{
    match decoded {
        None => Err(ConfigError::MalformedSecret),
        Some(bytes) => {
            if bytes.len() != 32 {
                return Err(ConfigError::SecretLength);
            }
            let mut key: [u8; 32] = [0u8; 32];
            let mut i: usize = 0;
            while i < 32
                invariant
                    i <= 32,
                    bytes@.len() == 32,
                    forall|k: int| 0 <= k < i ==> key@[k] == bytes@[k],
                decreases 32 - i,
            {
                key.set(i, bytes[i]);
                i += 1;
            }
            assert(key@ =~= bytes@);
            Ok(key)
        },
    }
}

/// Reads the process-wide secret from its hexadecimal form.
///
/// Succeeds exactly when the text is hexadecimal for 32 bytes.
pub fn load_secret(text: &str) -> (res: Result<[u8; 32], ConfigError>)
    ensures
        match hex_decoded(text@) {
            None => res matches Err(e) && e is MalformedSecret,
            Some(bytes) => if bytes.len() == 32 {
                res matches Ok(key) && key@ == bytes
            } else {
                res matches Err(e) && e is SecretLength
            },
        },
{
    match hex_decode(text) {
        Ok(bytes) => secret_from_bytes(Some(bytes)),
        Err(_) => secret_from_bytes(None),
    }
}

/// What is hashed for an attachment: the message id, then the attachment id,
/// each as eight bytes, lowest first.
pub open spec fn attachment_input(mid: u64, aid: u64) -> Seq<u8> {
    spec_u64_to_le_bytes(mid) + spec_u64_to_le_bytes(aid)
}

/// The public key of an attachment: the keyed hash of the two ids, in
/// lower-case hexadecimal. It is the same for the same ids and secret, and
/// nothing but the ids and the secret goes into it.
pub fn img_hash_secret(key: &[u8; 32], mid: u64, aid: u64) -> (text: String)
    ensures
        text@ == hex_lower(keyed_hash(key@, attachment_input(mid, aid))),
{
    let mut input = le_bytes(mid);
    let mut second = le_bytes(aid);
    input.append(&mut second);
    let digest = blake3_keyed(key, input.as_slice());
    digest_hex(&digest)
}

/// The symmetric key of one message: the keyed hash of its id.
pub fn msg_enc_key(key: &[u8; 32], mid: u64) -> (derived: [u8; 32])
    ensures
        derived@ == keyed_hash(key@, spec_u64_to_le_bytes(mid)),
{
    let input = le_bytes(mid);
    blake3_keyed(key, input.as_slice())
}

/// Each byte of `data` combined with the byte of `stream` at the same place.
pub open spec fn xor_bytes(data: Seq<u8>, stream: Seq<u8>) -> Seq<u8>
    recommends
        stream.len() >= data.len(),
{
    Seq::new(data.len(), |i: int| data[i] ^ stream[i])
}

/// A sealed snapshot: the nonce, then the encrypted bytes.
pub open spec fn sealed(nonce: Seq<u8>, plain: Seq<u8>, stream: Seq<u8>) -> Seq<u8> {
    nonce + xor_bytes(plain, stream)
}

/// Combines data with a key stream. Fails where the stream is too short.
pub fn apply_keystream(data: &[u8], stream: &[u8]) -> (out: Option<Vec<u8>>)
    ensures
        match out {
            Some(bytes) => stream@.len() >= data@.len() && bytes@ == xor_bytes(data@, stream@),
            None => stream@.len() < data@.len(),
        },
{
    if stream.len() < data.len() {
        return None;
    }
    let mut out: Vec<u8> = Vec::new();
    let mut i: usize = 0;
    while i < data.len()
        invariant
            i <= data.len(),
            data@.len() <= stream@.len(),
            out@.len() == i,
            forall|k: int| 0 <= k < i ==> out@[k] == data@[k] ^ stream@[k],
        decreases data.len() - i,
    {
        out.push(data[i] ^ stream[i]);
        i += 1;
    }
    assert(out@ =~= xor_bytes(data@, stream@));
    Some(out)
}

/// Seals a serialized snapshot: the 16-byte nonce goes first, as it is, and
/// the bytes follow, combined with the key stream drawn for this nonce.
pub fn seal(nonce: &[u8; 16], plain: &[u8], stream: &[u8]) -> (out: Option<Vec<u8>>)
    ensures
        match out {
            Some(bytes) => stream@.len() >= plain@.len() && bytes@ == sealed(
                nonce@,
                plain@,
                stream@,
            ),
            None => stream@.len() < plain@.len(),
        },
{
    match apply_keystream(plain, stream) {
        None => None,
        Some(mut body) => {
            let mut out: Vec<u8> = Vec::new();
            let mut i: usize = 0;
            while i < 16
                invariant
                    i <= 16,
                    out@ == nonce@.take(i as int),
                decreases 16 - i,
            {
                out.push(nonce[i]);
                assert(out@ =~= nonce@.take(i + 1));
                i += 1;
            }
            assert(nonce@.take(16) =~= nonce@);
            out.append(&mut body);
            Some(out)
        },
    }
}

/// The nonce of a sealed snapshot and the encrypted bytes behind it. Fails
/// where the value is too short to hold a nonce.
pub fn split_sealed(blob: &[u8]) -> (parts: Option<(Vec<u8>, Vec<u8>)>)
    ensures
        match parts {
            Some(p) => blob@.len() >= 16 && p.0@ == blob@.subrange(0, 16) && p.1@
                == blob@.subrange(16, blob@.len() as int),
            None => blob@.len() < 16,
        },
{
    if blob.len() < 16 {
        return None;
    }
    let mut nonce: Vec<u8> = Vec::new();
    let mut body: Vec<u8> = Vec::new();
    let mut i: usize = 0;
    while i < blob.len()
        invariant
            i <= blob.len(),
            blob@.len() >= 16,
            i <= 16 ==> nonce@ == blob@.subrange(0, i as int) && body@.len() == 0,
            i >= 16 ==> nonce@ == blob@.subrange(0, 16) && body@ == blob@.subrange(16, i as int),
        decreases blob.len() - i,
    {
        if i < 16 {
            nonce.push(blob[i]);
            assert(nonce@ =~= blob@.subrange(0, i + 1));
            assert(i + 1 == 16 ==> body@ =~= blob@.subrange(16, 16));
        } else {
            body.push(blob[i]);
            assert(body@ =~= blob@.subrange(16, i + 1));
        }
        i += 1;
    }
    Some((nonce, body))
}

/// Applying the same key stream twice gives the data back.
pub proof fn lemma_keystream_round_trip(data: Seq<u8>, stream: Seq<u8>)
    requires
        stream.len() >= data.len(),
    ensures
        xor_bytes(xor_bytes(data, stream), stream) == data,
{
    assert forall|i: int| 0 <= i < data.len() implies (data[i] ^ stream[i]) ^ stream[i]
        == data[i] by {
        let a = data[i];
        let b = stream[i];
        assert((a ^ b) ^ b == a) by (bit_vector);
    }
    assert(xor_bytes(xor_bytes(data, stream), stream) =~= data);
}

/// Unsealing what was sealed, under the key stream of the same message id,
/// secret and nonce, gives the nonce and the serialized snapshot back, byte
/// for byte.
pub proof fn lemma_seal_round_trip(nonce: Seq<u8>, plain: Seq<u8>, stream: Seq<u8>)
    requires
        nonce.len() == 16,
        stream.len() >= plain.len(),
    ensures
        sealed(nonce, plain, stream).subrange(0, 16) == nonce,
        xor_bytes(
            sealed(nonce, plain, stream).subrange(16, sealed(nonce, plain, stream).len() as int),
            stream,
        ) == plain,
{
    let blob = sealed(nonce, plain, stream);
    assert(blob.subrange(0, 16) =~= nonce);
    assert(blob.subrange(16, blob.len() as int) =~= xor_bytes(plain, stream));
    lemma_keystream_round_trip(plain, stream);
}

} // verus!
