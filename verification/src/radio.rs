//! Radio messages: the encrypted frame that carries a message over LoRa,
//! sealed and opened with ChaCha20-Poly1305.

use chacha20poly1305::{aead::Aead, ChaCha20Poly1305, KeyInit, Nonce};
use vstd::prelude::*;

verus! {

/// Length of the authentication tag that follows the ciphertext.
pub const TAG_LEN: usize = 16;

/// Length of the frame counter that precedes the ciphertext.
pub const COUNTER_LEN: usize = 4;

/// What ChaCha20-Poly1305 with `key` and `nonce` makes of `plaintext`: the
/// ciphertext followed by the tag.
pub uninterp spec fn chacha20poly1305_seal(key: Seq<u8>, nonce: Seq<u8>, plaintext: Seq<u8>) -> Seq<u8>;

/// What ChaCha20-Poly1305 with `key` and `nonce` makes of a ciphertext
/// followed by its tag: the plaintext, or `None` when the tag does not match.
pub uninterp spec fn chacha20poly1305_open(key: Seq<u8>, nonce: Seq<u8>, sealed: Seq<u8>) -> Option<Seq<u8>>;

/// The longest plaintext that ChaCha20-Poly1305 encrypts: fewer than
/// 2^32 - 1 blocks of 64 bytes.
pub open spec fn sealable(plaintext: Seq<u8>) -> bool {
    plaintext.len() / 64 < u32::MAX
}

/// Encrypts with `ChaCha20Poly1305::new(key)` and `Aead::encrypt` under
/// `nonce`. The crate fails only for a plaintext of 2^32 - 1 blocks or more,
/// which `requires` rules out; the result is the ciphertext (as long as the
/// plaintext) followed by the 16-byte tag.
#[verifier::external_body]
fn aead_seal(key: &[u8; 32], nonce: &[u8; 12], plaintext: &[u8]) -> (sealed: Vec<u8>)
    requires
        sealable(plaintext@),
    ensures
        sealed@ == chacha20poly1305_seal(key@, nonce@, plaintext@),
        sealed@.len() == plaintext@.len() + TAG_LEN,
{
    ChaCha20Poly1305::new(key.into()).encrypt(Nonce::from_slice(nonce), plaintext).unwrap()
}

/// Decrypts with `ChaCha20Poly1305::new(key)` and `Aead::decrypt` under
/// `nonce`, mapping the crate's error to `None`. A result has the length of
/// the input less the tag; an input shorter than the tag fails; and what
/// `aead_seal` made with the same key and nonce decrypts to its plaintext.
#[verifier::external_body]
fn aead_open(key: &[u8; 32], nonce: &[u8; 12], sealed: &[u8]) -> (plaintext: Option<Vec<u8>>)
    ensures
        (match plaintext {
            Some(p) => chacha20poly1305_open(key@, nonce@, sealed@) == Some(p@),
            None => chacha20poly1305_open(key@, nonce@, sealed@) is None,
        }),
        plaintext matches Some(p) ==> p@.len() + TAG_LEN == sealed@.len(),
        sealed@.len() < TAG_LEN ==> plaintext is None,
        forall|m: Seq<u8>|
            sealable(m) && sealed@ == #[trigger] chacha20poly1305_seal(key@, nonce@, m)
                ==> plaintext is Some && plaintext.unwrap()@ == m,
{
    ChaCha20Poly1305::new(key.into()).decrypt(Nonce::from_slice(nonce), sealed).ok()
}

/// The four little-endian bytes of `v`.
pub open spec fn le_u32_bytes(v: u32) -> Seq<u8> {
    seq![(v % 256) as u8, ((v / 256) % 256) as u8, ((v / 65536) % 256) as u8, (v / 16777216) as u8]
}

/// The value of four little-endian bytes.
pub open spec fn le_u32_value(b: Seq<u8>) -> int {
    b[0] + 256 * b[1] + 65536 * b[2] + 16777216 * b[3]
}

/// The nonce of frame `counter`: the counter's little-endian bytes, then
/// eight zero bytes.
pub open spec fn frame_nonce(counter: u32) -> Seq<u8> {
    le_u32_bytes(counter) + Seq::new(8, |i: int| 0u8)
}

/// The nonce of frame `counter` holds the counter's four bytes, least
/// significant first, in bytes 0 to 3, and zeros in bytes 4 to 11.
pub proof fn lemma_frame_nonce_layout(counter: u32)
    ensures
        frame_nonce(counter).len() == 12,
        frame_nonce(counter)[0] == counter & 0xff,
        frame_nonce(counter)[1] == (counter >> 8u32) & 0xff,
        frame_nonce(counter)[2] == (counter >> 16u32) & 0xff,
        frame_nonce(counter)[3] == (counter >> 24u32) & 0xff,
        forall|i: int| 4 <= i < 12 ==> #[trigger] frame_nonce(counter)[i] == 0,
{
    lemma_le_u32_bytes_layout(counter);
}

/// The little-endian bytes of a counter are its bits 0 to 7, 8 to 15, 16 to
/// 23 and 24 to 31, and read back as the counter.
pub proof fn lemma_le_u32_bytes_layout(v: u32)
    ensures
        le_u32_bytes(v).len() == 4,
        le_u32_bytes(v)[0] == v & 0xff,
        le_u32_bytes(v)[1] == (v >> 8u32) & 0xff,
        le_u32_bytes(v)[2] == (v >> 16u32) & 0xff,
        le_u32_bytes(v)[3] == (v >> 24u32) & 0xff,
        le_u32_value(le_u32_bytes(v)) == v,
{
    assert((v % 256) as u32 == v & 0xff && ((v / 256) % 256) as u32 == (v >> 8u32) & 0xff && ((v
        / 65536) % 256) as u32 == (v >> 16u32) & 0xff && (v / 16777216) as u32 == (v >> 24u32)
        & 0xff && v % 256 + 256 * ((v / 256) % 256) + 65536 * ((v / 65536) % 256) + 16777216 * (v
        / 16777216) == v) by (bit_vector);
}

/// The frame that carries `plaintext` as message number `counter`: the
/// counter's little-endian bytes, then the plaintext sealed under `key` and
/// the counter's nonce.
pub open spec fn sealed_frame(plaintext: Seq<u8>, counter: u32, key: Seq<u8>) -> Seq<u8> {
    le_u32_bytes(counter) + chacha20poly1305_seal(key, frame_nonce(counter), plaintext)
}

/// What a frame of `message_len` bytes of plaintext carries: `None` for a
/// frame of another length or one that does not decrypt, else its counter and
/// plaintext.
pub open spec fn opened_frame(raw: Seq<u8>, key: Seq<u8>, message_len: nat) -> Option<(u32, Seq<u8>)> {
    if raw.len() != COUNTER_LEN + message_len + TAG_LEN {
        None
    } else {
        let counter = le_u32_value(raw) as u32;
        match chacha20poly1305_open(key, frame_nonce(counter), raw.skip(COUNTER_LEN as int)) {
            Some(p) => Some((counter, p)),
            None => None,
        }
    }
}

/// The little-endian bytes of a counter.
fn counter_bytes(v: u32) -> (b: [u8; 4])
    ensures
        b@ == le_u32_bytes(v),
        le_u32_value(b@) == v,
{
    let b0 = (v & 0xff) as u8;
    let b1 = ((v >> 8) & 0xff) as u8;
    let b2 = ((v >> 16) & 0xff) as u8;
    let b3 = (v >> 24) as u8;
    assert(b0 == v % 256 && b1 == (v / 256) % 256 && b2 == (v / 65536) % 256 && b3 == v / 16777216
        && b0 + 256 * b1 + 65536 * b2 + 16777216 * b3 == v) by (bit_vector)
        requires
            b0 == (v & 0xff) as u8,
            b1 == ((v >> 8) & 0xff) as u8,
            b2 == ((v >> 16) & 0xff) as u8,
            b3 == (v >> 24) as u8,
    ;
    let b = [b0, b1, b2, b3];
    assert(b@ =~= le_u32_bytes(v));
    b
}

/// The nonce of frame `counter`.
fn nonce_for(counter: u32) -> (n: [u8; 12])
    ensures
        n@ == frame_nonce(counter),
{
    let c = counter_bytes(counter);
    let n = [c[0], c[1], c[2], c[3], 0, 0, 0, 0, 0, 0, 0, 0];
    assert(n@ =~= frame_nonce(counter));
    n
}

/// Encrypts `plaintext` into the frame of message number `counter`.
pub fn seal_frame(plaintext: &[u8], counter: u32, key: &[u8; 32]) -> (frame: Vec<u8>)
    requires
        sealable(plaintext@),
    ensures
        frame@ == sealed_frame(plaintext@, counter, key@),
        frame@.len() == COUNTER_LEN + plaintext@.len() + TAG_LEN,
{
    let nonce = nonce_for(counter);
    let sealed = aead_seal(key, &nonce, plaintext);
    let c = counter_bytes(counter);
    let mut frame: Vec<u8> = Vec::new();
    frame.push(c[0]);
    frame.push(c[1]);
    frame.push(c[2]);
    frame.push(c[3]);
    let mut i: usize = 0;
    while i < sealed.len()
        invariant
            i <= sealed@.len(),
            frame@ == le_u32_bytes(counter) + sealed@.take(i as int),
        decreases sealed@.len() - i,
    {
        assert(sealed@.take(i as int + 1) =~= sealed@.take(i as int).push(sealed@[i as int]));
        frame.push(sealed[i]);
        i += 1;
    }
    assert(sealed@.take(i as int) =~= sealed@);
    frame
}

/// Decrypts a frame that carries a message of `message_len` bytes: its
/// counter and plaintext, or `None` for a frame of another length or one that
/// does not decrypt. A frame that `seal_frame` made with the same key from a
/// message of that length gives back its counter and message.
pub fn open_frame(raw: &[u8], key: &[u8; 32], message_len: usize) -> (r: Option<(u32, Vec<u8>)>)
    ensures
        (match r {
            Some((counter, p)) => opened_frame(raw@, key@, message_len as nat) == Some((counter, p@)),
            None => opened_frame(raw@, key@, message_len as nat) is None,
        }),
        r matches Some((_, p)) ==> p@.len() == message_len,
        forall|m: Seq<u8>, c: u32|
            m.len() == message_len && sealable(m) && raw@.len() == COUNTER_LEN + message_len + TAG_LEN
                && raw@ == #[trigger] sealed_frame(m, c, key@)
                ==> (r matches Some((counter, p)) && counter == c && p@ == m),
{
    if raw.len() < COUNTER_LEN + TAG_LEN || raw.len() - (COUNTER_LEN + TAG_LEN) != message_len {
        return None;
    }
    let counter = (raw[0] as u32) | ((raw[1] as u32) << 8) | ((raw[2] as u32) << 16) | ((
    raw[3] as u32) << 24);
    let (b0, b1, b2, b3) = (raw[0], raw[1], raw[2], raw[3]);
    assert(counter == b0 + 256 * b1 + 65536 * b2 + 16777216 * b3) by (bit_vector)
        requires
            counter == (b0 as u32) | ((b1 as u32) << 8) | ((b2 as u32) << 16) | ((b3 as u32) << 24),
    ;
    let nonce = nonce_for(counter);
    let mut sealed: Vec<u8> = Vec::new();
    let mut i: usize = COUNTER_LEN;
    while i < raw.len()
        invariant
            COUNTER_LEN <= i <= raw@.len(),
            sealed@ == raw@.subrange(COUNTER_LEN as int, i as int),
        decreases raw@.len() - i,
    {
        sealed.push(raw[i]);
        i += 1;
    }
    assert(sealed@ =~= raw@.skip(COUNTER_LEN as int));
    proof {
        assert forall|m: Seq<u8>, c: u32|
            m.len() == message_len && sealable(m) && raw@.len() == COUNTER_LEN + message_len + TAG_LEN
                && raw@ == #[trigger] sealed_frame(m, c, key@)
                implies counter == c && sealed@ == chacha20poly1305_seal(key@, frame_nonce(c), m) by {
            let prefix = le_u32_bytes(c);
            assert(raw@.subrange(0, 4) =~= prefix);
            assert(raw@[0] == prefix[0] && raw@[1] == prefix[1] && raw@[2] == prefix[2] && raw@[3]
                == prefix[3]);
            assert(c % 256 + 256 * ((c / 256) % 256) + 65536 * ((c / 65536) % 256) + 16777216 * (c
                / 16777216) == c) by (bit_vector);
            assert(sealed@ =~= chacha20poly1305_seal(key@, frame_nonce(c), m));
        }
    }
    match aead_open(key, &nonce, sealed.as_slice()) {
        Some(p) => Some((counter, p)),
        None => None,
    }
}

} // verus!
