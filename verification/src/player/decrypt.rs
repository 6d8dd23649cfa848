//! Deezer stream decryption.
//!
//! Two schemes live here, isolated so they can be audited in one place:
//!
//! - the Blowfish-CBC "stripe" scheme of `media.get_url` streams: every third
//!   2048-byte chunk is encrypted, with a key derived from the track id;
//! - the historical `md5_origin` scheme: AES-128-CBC with a zero IV and the
//!   key `md5(md5_origin + license_token)`, behind [`StreamDecryptor`].

use aes::cipher::block_padding::NoPadding;
use aes::cipher::{BlockDecryptMut, KeyIvInit};
use md5::Digest;
use vstd::prelude::*;
use vstd::string::StringSliceAdditionalSpecFns;

verus! {

/// Deezer's Blowfish secret used to derive the key (`g4el58wc0zvf9na1`).
pub const DEEZER_SECRET: [u8; 16] = [
    103, 52, 101, 108, 53, 56, 119, 99, 48, 122, 118, 102, 57, 110, 97, 49,
];

/// Streaming chunks are 2048 bytes; every third chunk is encrypted.
pub const CHUNK_SIZE: usize = 2048;

/// Blowfish works on 8-byte blocks.
pub const BLOWFISH_BLOCK_SIZE: usize = 8;

/// The fixed Blowfish-CBC IV of Deezer streams.
pub const DEEZER_BLOWFISH_IV: [u8; 8] = [0, 1, 2, 3, 4, 5, 6, 7];

/// AES works on 16-byte blocks.
pub const AES_BLOCK_SIZE: usize = 16;

// ---------------------------------------------------------------------------
// Names for what the cryptographic crates compute
// ---------------------------------------------------------------------------

/// The MD5 digest of `data`, as `md5::Md5::digest` computes it.
pub uninterp spec fn md5(data: Seq<u8>) -> Seq<u8>;

/// Blowfish-CBC decryption of `data` (whole 8-byte blocks, no padding) under
/// `key` and `iv`, as `cbc::Decryptor<blowfish::Blowfish>` computes it.
pub uninterp spec fn blowfish_cbc_decrypt(key: Seq<u8>, iv: Seq<u8>, data: Seq<u8>) -> Seq<u8>;

/// AES-128-CBC decryption of `data` (whole 16-byte blocks, no padding) under
/// `key` and `iv`, as `cbc::Decryptor<aes::Aes128>` computes it.
pub uninterp spec fn aes128_cbc_decrypt(key: Seq<u8>, iv: Seq<u8>, data: Seq<u8>) -> Seq<u8>;

/// Why a cipher could not run: a key or IV of the wrong length, or input
/// that is not made of whole blocks.
enum CipherFailure {
    KeyLength,
    Unpad,
}

/// `md5::Md5::digest` (md-5 crate): the 16-byte MD5 digest of `bytes`.
#[verifier::external_body]
fn md5_digest(bytes: &[u8]) -> (d: [u8; 16])
    ensures
        d@ == md5(bytes@),
{
    let out = md5::Md5::digest(bytes);
    let mut d = [0u8; 16];
    d.copy_from_slice(&out[..16]);
    d
}

/// `cbc::Decryptor::<blowfish::Blowfish>::new_from_slices(key, iv)` followed by
/// `decrypt_padded_mut::<NoPadding>` on the first `len` bytes of `buf`, in
/// place. The cipher refuses keys outside 4..=56 bytes and IVs other than 8
/// bytes; with `NoPadding` and whole blocks the decryption itself cannot fail.
/// The rest of `buf` is left alone.
#[verifier::external_body]
fn blowfish_cbc_decrypt_prefix(key: &[u8], iv: &[u8], buf: &mut Vec<u8>, len: usize) -> (r: Result<(), CipherFailure>)
    requires
        len <= old(buf).len(),
        len % 8 == 0,
    ensures
        r is Err <==> !(4 <= key@.len() <= 56 && iv@.len() == 8),
        r matches Err(e) ==> e == CipherFailure::KeyLength && final(buf)@ == old(buf)@,
        r is Ok ==> final(buf)@ == blowfish_cbc_decrypt(key@, iv@, old(buf)@.take(len as int))
            + old(buf)@.skip(len as int),
        r is Ok ==> blowfish_cbc_decrypt(key@, iv@, old(buf)@.take(len as int)).len() == len,
{
    let cipher = match cbc::Decryptor::<blowfish::Blowfish>::new_from_slices(key, iv) {
        Ok(c) => c,
        Err(_) => return Err(CipherFailure::KeyLength),
    };
    match cipher.decrypt_padded_mut::<NoPadding>(&mut buf[..len]) {
        Ok(_) => Ok(()),
        Err(_) => Err(CipherFailure::Unpad),
    }
}

/// `cbc::Decryptor::<aes::Aes128>::new_from_slices(key, iv)` followed by
/// `decrypt_padded_mut::<NoPadding>` on a copy of `data`. The cipher refuses
/// keys and IVs other than 16 bytes; with `NoPadding` and whole blocks the
/// decryption itself cannot fail.
#[verifier::external_body]
fn aes128_cbc_decrypt_blocks(key: &[u8], iv: &[u8], data: &[u8]) -> (r: Result<Vec<u8>, CipherFailure>)
    requires
        data@.len() % 16 == 0,
    ensures
        r is Err <==> !(key@.len() == 16 && iv@.len() == 16),
        r matches Err(e) ==> e == CipherFailure::KeyLength,
        r matches Ok(v) ==> v@ == aes128_cbc_decrypt(key@, iv@, data@),
        r matches Ok(v) ==> v@.len() == data@.len(),
{
    let cipher = match cbc::Decryptor::<aes::Aes128>::new_from_slices(key, iv) {
        Ok(c) => c,
        Err(_) => return Err(CipherFailure::KeyLength),
    };
    let mut buf = data.to_vec();
    match cipher.decrypt_padded_mut::<NoPadding>(&mut buf) {
        Ok(_) => Ok(buf),
        Err(_) => Err(CipherFailure::Unpad),
    }
}

// ---------------------------------------------------------------------------
// Blowfish-CBC "stripe" decryption (media.get_url / BF_CBC_STRIPE streams)
// ---------------------------------------------------------------------------

/// The lowercase hexadecimal digit (ASCII) of a value below 16.
pub open spec fn hex_digit(n: int) -> u8 {
    if n < 10 {
        (48 + n) as u8
    } else {
        (87 + n) as u8
    }
}

/// Lowercase hexadecimal encoding (ASCII bytes), two digits per byte, high
/// nibble first.
pub open spec fn hex_lower(bytes: Seq<u8>) -> Seq<u8> {
    Seq::new(
        2 * bytes.len(),
        |i: int|
            if i % 2 == 0 {
                hex_digit(bytes[i / 2] as int / 16)
            } else {
                hex_digit(bytes[i / 2] as int % 16)
            },
    )
}

/// The Blowfish key of a track: the two halves of the hex MD5 of its id,
/// xored together and with the Deezer secret.
pub open spec fn blowfish_key_for(track_id: Seq<u8>) -> Seq<u8> {
    key_from_digest(md5(track_id))
}

fn hex_digit_of(n: u8) -> (c: u8)
    requires
        n < 16,
    ensures
        c == hex_digit(n as int),
{
    if n < 10 {
        48 + n
    } else {
        87 + n
    }
}

/// The Blowfish key made from an MD5 digest: the two halves of its lowercase
/// hex, xored together and with the Deezer secret.
pub open spec fn key_from_digest(d: Seq<u8>) -> Seq<u8> {
    let h = hex_lower(d);
    Seq::new(16, |i: int| h[i] ^ h[i + 16] ^ DEEZER_SECRET@[i])
}

/// The Blowfish key for an MD5 digest of a track id.
pub fn key_from_md5(digest: &[u8; 16]) -> (key: [u8; 16])
    ensures
        key@ == key_from_digest(digest@),
{
    let mut h: Vec<u8> = Vec::with_capacity(32);
    for i in 0..16
        invariant
            h@.len() == 2 * i,
            forall|j: int| 0 <= j < 2 * i ==> h@[j] == #[trigger] hex_lower(digest@)[j],
    {
        h.push(hex_digit_of(digest[i] / 16));
        h.push(hex_digit_of(digest[i] % 16));
    }
    assert(h@ =~= hex_lower(digest@));
    let mut key = [0u8; 16];
    for i in 0..16
        invariant
            h@ == hex_lower(digest@),
            h@.len() == 32,
            key@.len() == 16,
            forall|j: int| 0 <= j < i ==> key@[j] == #[trigger] key_from_digest(digest@)[j],
    {
        key[i] = h[i] ^ h[i + 16] ^ DEEZER_SECRET[i];
    }
    assert(key@ =~= key_from_digest(digest@));
    key
}

/// Derive the 16-byte Blowfish key from a numeric track id.
pub fn derive_blowfish_key(track_id: &str) -> (key: [u8; 16])
    ensures
        key@ == blowfish_key_for(track_id.spec_bytes()),
{
    let digest = md5_digest(track_id.as_bytes());
    key_from_md5(&digest)
}

/// The `j`-th character of the lowercase hexadecimal text of `d` (two digits
/// per byte, high nibble first), as an ASCII byte.
pub open spec fn lower_hex_at(d: Seq<u8>, j: int) -> u8 {
    let b = d[j / 2] as int;
    let nibble = if j % 2 == 0 { b / 16 } else { b % 16 };
    ("0123456789abcdef"@[nibble]) as u8
}

/// The digits of the lowercase alphabet `0123456789abcdef`.
proof fn lemma_hex_digit_alphabet(n: int)
    requires
        0 <= n < 16,
    ensures
        hex_digit(n) == ("0123456789abcdef"@[n]) as u8,
{
    reveal_strlit("0123456789abcdef");
}

/// Law: `hex_lower` is the lowercase hexadecimal text of the bytes, two
/// digits per byte, high nibble first, in the alphabet `0123456789abcdef`.
pub proof fn lemma_hex_lower_is_lowercase_hex(bytes: Seq<u8>)
    ensures
        hex_lower(bytes).len() == 2 * bytes.len(),
        forall|j: int| 0 <= j < 2 * bytes.len() ==> #[trigger] hex_lower(bytes)[j] == lower_hex_at(bytes, j),
{
    assert forall|j: int| 0 <= j < 2 * bytes.len() implies #[trigger] hex_lower(bytes)[j] == lower_hex_at(bytes, j) by {
        let b = bytes[j / 2] as int;
        lemma_hex_digit_alphabet(b / 16);
        lemma_hex_digit_alphabet(b % 16);
    }
}

/// The Deezer secret is the text `g4el58wc0zvf9na1`.
proof fn lemma_secret_text()
    ensures
        forall|i: int| 0 <= i < 16 ==> DEEZER_SECRET@[i] == ("g4el58wc0zvf9na1"@[i]) as u8,
{
    reveal_strlit("g4el58wc0zvf9na1");
}

/// Law: byte `i` of a track's Blowfish key is byte `i` of the lowercase hex
/// MD5 of the track id, xored with byte `i + 16` of it and with character `i`
/// of the secret `g4el58wc0zvf9na1`.
pub proof fn lemma_blowfish_key_law(track_id: Seq<u8>)
    requires
        md5(track_id).len() == 16,
    ensures
        blowfish_key_for(track_id).len() == 16,
        forall|i: int|
            0 <= i < 16 ==> #[trigger] blowfish_key_for(track_id)[i] == (lower_hex_at(md5(track_id), i) ^ lower_hex_at(
                md5(track_id),
                i + 16,
            ) ^ ("g4el58wc0zvf9na1"@[i]) as u8),
{
    lemma_hex_lower_is_lowercase_hex(md5(track_id));
    lemma_secret_text();
    assert forall|i: int| 0 <= i < 16 implies #[trigger] blowfish_key_for(track_id)[i] == (lower_hex_at(
        md5(track_id),
        i,
    ) ^ lower_hex_at(md5(track_id), i + 16) ^ ("g4el58wc0zvf9na1"@[i]) as u8) by {
        assert(hex_lower(md5(track_id))[i] == lower_hex_at(md5(track_id), i));
        assert(hex_lower(md5(track_id))[i + 16] == lower_hex_at(md5(track_id), i + 16));
    }
}

/// Errors of stream decryption.
#[derive(Debug, PartialEq, Eq)]
pub enum DecryptError {
    InvalidKey,
    Io(&'static str),
}

impl DecryptError {
    /// The text the application shows for this error.
    pub fn message(&self) -> (s: String)
        ensures
            s@ == (match *self {
                DecryptError::InvalidKey => "invalid AES key"@,
                DecryptError::Io(m) => "I/O during decryption: "@ + m@,
            }),
    {
        match self {
            DecryptError::InvalidKey => "invalid AES key".to_owned(),
            DecryptError::Io(m) => crate::text::concat2("I/O during decryption: ", m),
        }
    }
}

/// The key lengths that Blowfish accepts.
pub open spec fn blowfish_key_ok(key: Seq<u8>) -> bool {
    4 <= key.len() <= 56
}

/// How many leading bytes of a chunk are whole Blowfish blocks.
pub open spec fn decryptable_len(len: int) -> int {
    len - len % 8
}

/// One chunk after decryption: chunks whose index is a multiple of three have
/// their whole 8-byte blocks decrypted; the others, and any trailing partial
/// block, are passed through.
pub open spec fn decrypt_chunk(key: Seq<u8>, chunk_index: int, chunk: Seq<u8>) -> Seq<u8> {
    let n = decryptable_len(chunk.len() as int);
    if chunk_index % 3 != 0 || n == 0 {
        chunk
    } else {
        blowfish_cbc_decrypt(key, DEEZER_BLOWFISH_IV@, chunk.take(n)) + chunk.skip(n)
    }
}

/// A stream after decryption: its 2048-byte chunks (the last may be shorter),
/// numbered from `first_index`, each decrypted by [`decrypt_chunk`].
pub open spec fn decrypt_stream(key: Seq<u8>, data: Seq<u8>, first_index: int) -> Seq<u8>
    decreases data.len(),
{
    if data.len() == 0 {
        seq![]
    } else {
        let n: int = if data.len() < 2048 { data.len() as int } else { 2048 };
        decrypt_chunk(key, first_index, data.take(n)) + decrypt_stream(key, data.skip(n), first_index + 1)
    }
}

/// Decryption fails only on a key of a length Blowfish refuses, and then only
/// when some block of the stream had to be decrypted.
pub open spec fn stream_key_refused(key: Seq<u8>, data: Seq<u8>) -> bool {
    !blowfish_key_ok(key) && data.len() >= 8
}

fn decrypt_chunk_in_place_with_key(key: &[u8], chunk_index: usize, chunk: &mut Vec<u8>) -> (r: Result<(), DecryptError>)
    ensures
        r is Err <==> (chunk_index % 3 == 0 && decryptable_len(old(chunk)@.len() as int) != 0
            && !blowfish_key_ok(key@)),
        r matches Err(e) ==> e == DecryptError::InvalidKey,
        r is Ok ==> final(chunk)@ == decrypt_chunk(key@, chunk_index as int, old(chunk)@),
        r is Ok ==> final(chunk)@.len() == old(chunk)@.len(),
        r is Ok ==> forall|j: int|
            0 <= j < old(chunk)@.len() && (chunk_index % 3 != 0 || j >= decryptable_len(old(chunk)@.len() as int))
                ==> #[trigger] final(chunk)@[j] == old(chunk)@[j],
{
    if chunk_index % 3 != 0 {
        return Ok(());
    }
    let decryptable_len = chunk.len() - (chunk.len() % BLOWFISH_BLOCK_SIZE);
    if decryptable_len == 0 {
        return Ok(());
    }
    let iv: &[u8] = &DEEZER_BLOWFISH_IV;
    match blowfish_cbc_decrypt_prefix(key, iv, chunk, decryptable_len) {
        Ok(()) => Ok(()),
        Err(CipherFailure::KeyLength) => Err(DecryptError::InvalidKey),
        Err(CipherFailure::Unpad) => Err(DecryptError::Io("blowfish decryption failed")),
    }
}

/// Whether byte `k` of a stream of `len` bytes travels in the clear: its
/// 2048-byte chunk is not one of every third, or it lies after the chunk's
/// last whole 8-byte block.
pub open spec fn clear_byte(len: int, k: int) -> bool {
    let c = k / 2048;
    let chunk_len = if len - c * 2048 < 2048 { len - c * 2048 } else { 2048 };
    c % 3 != 0 || k % 2048 >= decryptable_len(chunk_len)
}

proof fn lemma_chunk_position(idx: int, k: int)
    requires
        0 <= idx,
        idx * 2048 <= k < idx * 2048 + 2048,
    ensures
        k / 2048 == idx,
        k % 2048 == k - idx * 2048,
{
    vstd::arithmetic::div_mod::lemma_fundamental_div_mod_converse(k, 2048, idx, k - idx * 2048);
}

/// Decrypt a full Deezer encrypted stream with the given Blowfish key
/// (every third 2048-byte chunk, CBC, no padding).
pub fn decrypt_audio_stream_with_key(key: &[u8], encrypted: &[u8]) -> (r: Result<Vec<u8>, DecryptError>)
    ensures
        r is Err <==> stream_key_refused(key@, encrypted@),
        r matches Err(e) ==> e == DecryptError::InvalidKey,
        r matches Ok(out) ==> out@ == decrypt_stream(key@, encrypted@, 0),
        r matches Ok(out) ==> out@.len() == encrypted@.len(),
        r matches Ok(out) ==> forall|k: int|
            0 <= k < encrypted@.len() && clear_byte(encrypted@.len() as int, k) ==> #[trigger] out@[k]
                == encrypted@[k],
{
    let len = encrypted.len();
    let mut out: Vec<u8> = Vec::with_capacity(len);
    let mut start: usize = 0;
    let mut chunk_index: usize = 0;
    assert(encrypted@.skip(0) =~= encrypted@);
    while start < len
        invariant
            len == encrypted@.len(),
            start <= len,
            start == len || start as int == chunk_index as int * 2048,
            chunk_index == 0 ==> start == 0,
            out@ + decrypt_stream(key@, encrypted@.skip(start as int), chunk_index as int)
                == decrypt_stream(key@, encrypted@, 0),
            chunk_index > 0 ==> !stream_key_refused(key@, encrypted@),
            out@.len() == start,
            forall|k: int|
                0 <= k < start && clear_byte(len as int, k) ==> #[trigger] out@[k] == encrypted@[k],
        decreases len - start,
    {
        let end = if len - start > CHUNK_SIZE { start + CHUNK_SIZE } else { len };
        let mut chunk: Vec<u8> = Vec::with_capacity(end - start);
        let mut i = start;
        while i < end
            invariant
                start <= i <= end <= len,
                len == encrypted@.len(),
                chunk@ =~= encrypted@.subrange(start as int, i as int),
            decreases end - i,
        {
            chunk.push(encrypted[i]);
            i += 1;
        }
        let ghost rest = encrypted@.skip(start as int);
        let ghost n = (end - start) as int;
        assert(rest.take(n) =~= chunk@);
        assert(rest.skip(n) =~= encrypted@.skip(end as int));
        match decrypt_chunk_in_place_with_key(key, chunk_index, &mut chunk) {
            Ok(()) => {},
            Err(e) => {
                return Err(e);
            },
        }
        assert(decrypt_stream(key@, rest, chunk_index as int) == chunk@ + decrypt_stream(
            key@,
            encrypted@.skip(end as int),
            chunk_index + 1,
        ));
        let ghost before = out@;
        let ghost decrypted = chunk@;
        out.append(&mut chunk);
        assert(out@ + decrypt_stream(key@, encrypted@.skip(end as int), chunk_index + 1) =~= before
            + decrypt_stream(key@, rest, chunk_index as int));
        assert forall|k: int| 0 <= k < end && clear_byte(len as int, k) implies #[trigger] out@[k] == encrypted@[k] by {
            if k >= start {
                lemma_chunk_position(chunk_index as int, k);
                assert(out@[k] == decrypted[k - start]);
                assert(rest.take(n)[k - start] == encrypted@[k]);
            } else {
                assert(out@[k] == before[k]);
            }
        }
        start = end;
        chunk_index = chunk_index + 1;
    }
    assert(encrypted@.skip(len as int) =~= seq![]);
    assert(out@ + seq![] =~= out@);
    assert(!stream_key_refused(key@, encrypted@)) by {
        if chunk_index == 0 {
            assert(len == 0);
        }
    }
    Ok(out)
}

/// Decrypt a full Deezer encrypted stream in place (every third chunk, CBC,
/// no padding), with the key derived from the track id. The derived key is
/// always accepted, so this never fails.
pub fn decrypt_audio_stream(track_id: &str, encrypted: &[u8]) -> (r: Result<Vec<u8>, DecryptError>)
    ensures
        r matches Ok(out) && out@ == decrypt_stream(blowfish_key_for(track_id.spec_bytes()), encrypted@, 0)
            && out@.len() == encrypted@.len(),
        r matches Ok(out) ==> forall|k: int|
            0 <= k < encrypted@.len() && clear_byte(encrypted@.len() as int, k) ==> #[trigger] out@[k]
                == encrypted@[k],
{
    let key = derive_blowfish_key(track_id);
    decrypt_audio_stream_with_key(key.as_slice(), encrypted)
}

// ---------------------------------------------------------------------------
// Trait & legacy AES decryptor
// ---------------------------------------------------------------------------

/// One unit of decryption logic.
pub trait StreamDecryptor: Send {
    /// Decrypt a full payload for `track_id`.
    fn decrypt(&self, track_id: u64, ciphertext: &[u8]) -> Result<Vec<u8>, DecryptError>;
}

/// The AES-128-CBC decryption of the historical scheme: the whole 16-byte
/// blocks are decrypted, a partial trailing block is passed through.
pub open spec fn md5_origin_decrypt(key: Seq<u8>, iv: Seq<u8>, data: Seq<u8>) -> Seq<u8> {
    let n = data.len() - data.len() % 16;
    aes128_cbc_decrypt(key, iv, data.take(n)) + data.skip(n)
}

/// Block decryptor for the historical `md5_origin` scheme:
/// `key = md5(md5_origin + license_token)`, AES-128-CBC, IV = sixteen zeros.
pub struct Md5OriginDecryptor {
    key: [u8; 16],
    iv: [u8; 16],
}

impl Md5OriginDecryptor {
    /// The AES key.
    pub closed spec fn key_bytes(&self) -> Seq<u8> {
        self.key@
    }

    /// The CBC initialisation vector.
    pub closed spec fn iv_bytes(&self) -> Seq<u8> {
        self.iv@
    }

    /// Build from the pieces returned by the Deezer API.
    pub fn new(md5_origin: &str, license_token: &str) -> (d: Self)
        ensures
            d.key_bytes() == md5(md5_origin.spec_bytes() + license_token.spec_bytes()),
            d.iv_bytes() == Seq::new(16, |i: int| 0u8),
    {
        let a = md5_origin.as_bytes();
        let b = license_token.as_bytes();
        let mut material: Vec<u8> = Vec::with_capacity(a.len());
        for i in 0..a.len()
            invariant
                material@ =~= a@.take(i as int),
        {
            material.push(a[i]);
        }
        assert(material@ =~= a@);
        for i in 0..b.len()
            invariant
                material@ =~= a@ + b@.take(i as int),
        {
            material.push(b[i]);
        }
        assert(material@ =~= a@ + b@);
        let digest = md5_digest(material.as_slice());
        let d = Md5OriginDecryptor { key: digest, iv: [0u8; 16] };
        assert(d.iv_bytes() =~= Seq::new(16, |i: int| 0u8));
        d
    }

    /// The AES key derived at construction.
    pub fn key(&self) -> (k: [u8; 16])
        ensures
            k@ == self.key_bytes(),
    {
        self.key
    }
}

impl StreamDecryptor for Md5OriginDecryptor {
    /// Whole 16-byte blocks are decrypted (AES-128-CBC, zero IV, no padding);
    /// a partial trailing block is passed through unchanged. Never fails.
    fn decrypt(&self, track_id: u64, ciphertext: &[u8]) -> (r: Result<Vec<u8>, DecryptError>)
        ensures
            r matches Ok(out) && out@ == md5_origin_decrypt(self.key_bytes(), self.iv_bytes(), ciphertext@)
                && out@.len() == ciphertext@.len(),
    {
        let len = ciphertext.len();
        let full_blocks = len - (len % AES_BLOCK_SIZE);
        let mut blocks: Vec<u8> = Vec::with_capacity(full_blocks);
        for i in 0..full_blocks
            invariant
                full_blocks <= len == ciphertext@.len(),
                blocks@ =~= ciphertext@.take(i as int),
        {
            blocks.push(ciphertext[i]);
        }
        let mut out = match aes128_cbc_decrypt_blocks(self.key.as_slice(), self.iv.as_slice(), blocks.as_slice()) {
            Ok(v) => v,
            Err(CipherFailure::KeyLength) => {
                return Err(DecryptError::InvalidKey);
            },
            Err(CipherFailure::Unpad) => {
                return Err(DecryptError::Io("AES decryption failed"));
            },
        };
        let ghost dec = out@;
        for i in full_blocks..len
            invariant
                full_blocks <= len == ciphertext@.len(),
                out@ =~= dec + ciphertext@.subrange(full_blocks as int, i as int),
        {
            out.push(ciphertext[i]);
        }
        assert(ciphertext@.skip(full_blocks as int) =~= ciphertext@.subrange(full_blocks as int, len as int));
        Ok(out)
    }
}

} // verus!
