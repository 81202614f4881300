//! Encryption keys: generating key records, the payload format of encrypted
//! fields, primary-key switching, rotation and rotation deadlines.
use vstd::prelude::*;
use vstd::utf8::{decode_utf8, encode_utf8, valid_utf8, is_ascii_chars};
use vstd::string::{StringExecFns, StringSliceAdditionalSpecFns};
use crate::common::{lemma_push_contains, chars_of, clone_opt_string, div_i64_toward_zero, div_toward_zero, in_time_range, new_id,
    uuid_simple};

verus! {

#[derive(Debug, Clone, Copy, PartialEq, Eq, Structural)]
pub enum KeyType {
    Symmetric,
    Asymmetric,
    Hmac,
    DataEncryption,
    Aes256Gcm,
    Aes256Cbc,
    Rsa2048,
    Rsa4096,
}

#[derive(Debug, Clone, Copy, PartialEq, Eq, Structural)]
pub enum RotationType {
    Scheduled,
    Manual,
    Emergency,
}

#[derive(Debug, Clone, Copy, PartialEq, Eq, Structural)]
pub enum RotationStatus {
    Pending,
    InProgress,
    Completed,
    Failed,
    RolledBack,
}

#[derive(Debug, Clone, Copy, PartialEq, Eq, Structural)]
pub enum KeyOperation {
    Encrypt,
    Decrypt,
    Sign,
    Verify,
    Rotate,
    Export,
    Import,
}

/// The record of one use of a key.
#[derive(Debug, Clone)]
pub struct KeyUsageLog {
    pub id: u128,
    pub key_id: u128,
    pub operation: KeyOperation,
    pub entity_type: Option<String>,
    pub entity_id: Option<String>,
    pub success: bool,
    pub error_message: Option<String>,
    pub performed_at_ms: i64,
    pub performed_by: Option<u128>,
}

/// Storage handle of the key module (holds no state).
pub struct SqliteKeyRepository;

pub struct KeyService {
    repo: SqliteKeyRepository,
}

/// Why a key operation was refused.
#[derive(Debug, Clone, Copy, PartialEq, Eq, Structural)]
pub enum KeyError {
    KeyNotFound,
    NoPrimaryKey,
    InvalidIv,
    InvalidCiphertextFormat,
    InvalidData,
    InvalidUtf8,
}

/// An encryption key record. Instants are milliseconds since the Unix epoch.
#[derive(Debug, Clone)]
pub struct EncryptionKey {
    pub id: u128,
    pub key_id: String,
    pub key_type: KeyType,
    pub algorithm: String,
    pub key_version: i32,
    pub public_key: Option<String>,
    pub encrypted_private_key: Option<String>,
    pub key_derivation_info: Option<String>,
    pub is_active: bool,
    pub is_primary: bool,
    pub rotation_days: Option<i32>,
    pub last_rotated_ms: Option<i64>,
    pub expires_at_ms: Option<i64>,
    pub max_usage_count: Option<i64>,
    pub current_usage_count: i64,
    pub created_at_ms: i64,
    pub updated_at_ms: i64,
}

/// The record of one key rotation.
#[derive(Debug, Clone)]
pub struct KeyRotation {
    pub id: u128,
    pub key_id: u128,
    pub from_version: i32,
    pub to_version: i32,
    pub rotation_type: RotationType,
    pub status: RotationStatus,
    pub started_at_ms: i64,
    pub completed_at_ms: Option<i64>,
    pub re_encrypted_count: i64,
    pub error_message: Option<String>,
    pub initiated_by: Option<u128>,
}

/// One encrypted field of an entity.
#[derive(Debug, Clone)]
pub struct EncryptedData {
    pub id: u128,
    pub entity_type: String,
    pub entity_id: String,
    pub field_name: String,
    pub key_id: u128,
    pub key_version: i32,
    pub iv: String,
    pub auth_tag: Option<String>,
    pub encrypted_value: String,
    pub encryption_algorithm: String,
    pub created_at_ms: i64,
}

/// The characters of the standard base64 alphabet, with its padding.
pub open spec fn is_base64_char(c: char) -> bool {
    ('A' <= c && c <= 'Z') || ('a' <= c && c <= 'z') || ('0' <= c && c <= '9') || c == '+' || c == '/' || c == '='
}

/// The bytes of an ASCII text.
pub open spec fn ascii_bytes(s: Seq<char>) -> Seq<u8> {
    Seq::new(s.len(), |i: int| s[i] as u8)
}

/// The character of the standard base64 alphabet for a value below 64.
pub open spec fn base64_digit(v: int) -> char {
    if v < 26 {
        (v + 65) as char
    } else if v < 52 {
        (v + 71) as char
    } else if v < 62 {
        (v - 4) as char
    } else if v == 62 {
        '+'
    } else {
        '/'
    }
}

/// What `base64`'s standard engine encodes `bytes` to: each group of three
/// bytes as four characters of the alphabet, six bits each, most significant
/// first; a last group of one or two bytes filled up with zero bits and
/// padded with `=` to four characters.
pub open spec fn base64_std_encode(bytes: Seq<u8>) -> Seq<char>
    decreases bytes.len(),
{
    if bytes.len() == 0 {
        seq![]
    } else if bytes.len() == 1 {
        let a = bytes[0] as int;
        seq![base64_digit(a / 4), base64_digit((a % 4) * 16), '=', '=']
    } else if bytes.len() == 2 {
        let a = bytes[0] as int;
        let b = bytes[1] as int;
        seq![base64_digit(a / 4), base64_digit((a % 4) * 16 + b / 16), base64_digit((b % 16) * 4), '=']
    } else {
        let a = bytes[0] as int;
        let b = bytes[1] as int;
        let c = bytes[2] as int;
        seq![base64_digit(a / 4), base64_digit((a % 4) * 16 + b / 16), base64_digit((b % 16) * 4 + c / 64),
            base64_digit(c % 64)] + base64_std_encode(bytes.skip(3))
    }
}

/// What `base64`'s standard engine decodes `text` to. The engine requires
/// canonical padding and zero trailing bits, so it accepts exactly the texts
/// it writes: `text` decodes to the bytes whose encoding it is, and to `None`
/// when it is the encoding of no bytes.
pub open spec fn base64_std_decode(text: Seq<u8>) -> Option<Seq<u8>> {
    if exists|b: Seq<u8>| ascii_bytes(#[trigger] base64_std_encode(b)) == text {
        Some(choose|b: Seq<u8>| ascii_bytes(#[trigger] base64_std_encode(b)) == text)
    } else {
        None
    }
}

/// Each value below 64 has its own character of the alphabet, and none of
/// them is the padding `=`.
proof fn lemma_base64_digit(v: int, w: int)
    requires
        0 <= v < 64,
        0 <= w < 64,
    ensures
        is_base64_char(base64_digit(v)),
        base64_digit(v) != '=',
        base64_digit(v) == base64_digit(w) ==> v == w,
{
}

/// Every character of an encoding belongs to the alphabet, and the padding
/// `=` only fills up the last group of four.
proof fn lemma_base64_chars(b: Seq<u8>)
    ensures
        base64_std_encode(b).len() == 4 * ((b.len() + 2) / 3),
        forall|i: int| 0 <= i < base64_std_encode(b).len() ==> is_base64_char(#[trigger] base64_std_encode(b)[i]),
    decreases b.len(),
{
    if b.len() == 0 {
    } else if b.len() <= 2 {
        let a = b[0] as int;
        lemma_base64_digit(a / 4, 0);
        if b.len() == 1 {
            lemma_base64_digit((a % 4) * 16, 0);
        } else {
            let c = b[1] as int;
            lemma_base64_digit((a % 4) * 16 + c / 16, 0);
            lemma_base64_digit((c % 16) * 4, 0);
        }
    } else {
        let x = b[0] as int;
        let y = b[1] as int;
        let z = b[2] as int;
        lemma_base64_digit(x / 4, 0);
        lemma_base64_digit((x % 4) * 16 + y / 16, 0);
        lemma_base64_digit((y % 16) * 4 + z / 64, 0);
        lemma_base64_digit(z % 64, 0);
        lemma_base64_chars(b.skip(3));
        let g = seq![base64_digit(x / 4), base64_digit((x % 4) * 16 + y / 16), base64_digit((y % 16) * 4 + z / 64),
            base64_digit(z % 64)];
        assert(base64_std_encode(b) == g + base64_std_encode(b.skip(3)));
        assert forall|i: int| 0 <= i < base64_std_encode(b).len() implies is_base64_char(#[trigger] base64_std_encode(b)[i]) by {
            if i >= 4 {
                assert(base64_std_encode(b)[i] == base64_std_encode(b.skip(3))[i - 4]);
            }
        }
    }
}

/// Different bytes have different encodings.
proof fn lemma_base64_injective(a: Seq<u8>, b: Seq<u8>)
    requires
        base64_std_encode(a) == base64_std_encode(b),
    ensures
        a == b,
    decreases a.len(),
{
    let ea = base64_std_encode(a);
    lemma_base64_chars(a);
    lemma_base64_chars(b);
    if a.len() == 0 || b.len() == 0 {
        assert(a.len() == 0 && b.len() == 0);
        assert(a =~= b);
    } else {
        let a0 = a[0] as int;
        let b0 = b[0] as int;
        lemma_base64_digit(a0 / 4, b0 / 4);
        // The third character is padding exactly for one byte, the fourth for
        // at most two.
        let a1 = if a.len() >= 2 { a[1] as int } else { 0 };
        let b1 = if b.len() >= 2 { b[1] as int } else { 0 };
        let a2 = if a.len() >= 3 { a[2] as int } else { 0 };
        let b2 = if b.len() >= 3 { b[2] as int } else { 0 };
        lemma_base64_digit((a0 % 4) * 16 + a1 / 16, (b0 % 4) * 16 + b1 / 16);
        lemma_base64_digit((a1 % 16) * 4 + a2 / 64, (b1 % 16) * 4 + b2 / 64);
        lemma_base64_digit(a2 % 64, b2 % 64);
        let eb = base64_std_encode(b);
        assert(ea[0] == base64_digit(a0 / 4) && eb[0] == base64_digit(b0 / 4));
        assert(ea[1] == base64_digit((a0 % 4) * 16 + a1 / 16));
        assert(eb[1] == base64_digit((b0 % 4) * 16 + b1 / 16));
        assert(a.len() == 1 <==> b.len() == 1);
        assert(a.len() <= 2 <==> b.len() <= 2);
        assert(a0 / 4 == b0 / 4);
        assert((a0 % 4) * 16 + a1 / 16 == (b0 % 4) * 16 + b1 / 16);
        assert(a0 == b0);
        if a.len() == 1 {
            assert(a =~= b);
        } else {
            assert(ea[2] == base64_digit((a1 % 16) * 4 + a2 / 64));
            assert(eb[2] == base64_digit((b1 % 16) * 4 + b2 / 64));
            assert((a1 % 16) * 4 + a2 / 64 == (b1 % 16) * 4 + b2 / 64);
            assert(a1 == b1);
            if a.len() == 2 {
                assert(a =~= b);
            } else {
                assert(ea[3] == base64_digit(a2 % 64));
                assert(eb[3] == base64_digit(b2 % 64));
                assert(a2 % 64 == b2 % 64);
                assert(a2 == b2);
                let ga = seq![ea[0], ea[1], ea[2], ea[3]];
                assert(ea == ga + base64_std_encode(a.skip(3)));
                assert(base64_std_encode(b) == ga + base64_std_encode(b.skip(3)));
                assert(base64_std_encode(a.skip(3)) =~= ea.skip(4));
                assert(base64_std_encode(b.skip(3)) =~= ea.skip(4));
                lemma_base64_injective(a.skip(3), b.skip(3));
                assert(a =~= b) by {
                    assert forall|i: int| 0 <= i < a.len() implies a[i] == b[i] by {
                        if i >= 3 {
                            assert(a[i] == a.skip(3)[i - 3]);
                            assert(b[i] == b.skip(3)[i - 3]);
                        }
                    }
                }
            }
        }
    }
}

/// The engine reads back what it wrote: an encoding holds only characters
/// of the alphabet and decodes to the encoded bytes.
pub proof fn lemma_base64_round_trip(b: Seq<u8>)
    ensures
        forall|i: int| 0 <= i < base64_std_encode(b).len() ==> is_base64_char(#[trigger] base64_std_encode(b)[i]),
        base64_std_decode(ascii_bytes(base64_std_encode(b))) == Some(b),
{
    lemma_base64_chars(b);
    let t = ascii_bytes(base64_std_encode(b));
    assert(exists|c: Seq<u8>| ascii_bytes(#[trigger] base64_std_encode(c)) == t);
    let c = choose|c: Seq<u8>| ascii_bytes(#[trigger] base64_std_encode(c)) == t;
    lemma_base64_chars(c);
    let ec = base64_std_encode(c);
    let eb = base64_std_encode(b);
    assert(ec =~= eb) by {
        assert forall|i: int| 0 <= i < ec.len() implies ec[i] == eb[i] by {
            assert(ascii_bytes(ec)[i] == ascii_bytes(eb)[i]);
            assert(is_base64_char(ec[i]));
            assert(is_base64_char(eb[i]));
        }
    }
    lemma_base64_injective(c, b);
}

/// Encodes with `base64::engine::general_purpose::STANDARD` (`Engine::encode`):
/// `base64_std_encode`.
#[verifier::external_body]
fn b64_encode(input: &[u8]) -> (r: String)
    ensures
        r@ == base64_std_encode(input@),
{
    base64::Engine::encode(&base64::engine::general_purpose::STANDARD, input)
}

/// Decodes the UTF-8 bytes of `text` with
/// `base64::engine::general_purpose::STANDARD` (`Engine::decode`):
/// `base64_std_decode`.
#[verifier::external_body]
fn b64_decode(text: &Vec<char>) -> (r: Option<Vec<u8>>)
    ensures
        match r {
            Some(v) => base64_std_decode(encode_utf8(text@)) == Some(v@),
            None => base64_std_decode(encode_utf8(text@)) is None,
        },
{
    let s: String = text.iter().collect();
    base64::Engine::decode(&base64::engine::general_purpose::STANDARD, s.as_bytes()).ok()
}

/// `String::from_utf8`: a string exactly when the bytes are valid UTF-8, and
/// then the string they encode.
#[verifier::external_body]
fn string_from_utf8(bytes: Vec<u8>) -> (r: Option<String>)
    ensures
        r is Some <==> valid_utf8(bytes@),
        r matches Some(s) ==> s@ == decode_utf8(bytes@),
{
    String::from_utf8(bytes).ok()
}

/// `n` bytes from `rand::thread_rng` (`RngCore::fill_bytes`). They are random,
/// so only their number is stated.
#[verifier::external_body]
fn random_bytes(n: usize) -> (r: Vec<u8>)
    ensures
        r.len() == n,
{
    let mut v = vec![0u8; n];
    rand::RngCore::fill_bytes(&mut rand::thread_rng(), &mut v);
    v
}

/// The simple text of an identifier (`Uuid::from_u128`, `simple`,
/// `to_string`): `uuid_simple`, 32 lower-case hexadecimal digits.
#[verifier::external_body]
fn uuid_simple_text(id: u128) -> (r: String)
    ensures
        r@ == uuid_simple(id),
        r@.len() == 32,
        forall|i: int| 0 <= i < 32 ==> is_lower_hex(#[trigger] r@[i]),
{
    uuid::Uuid::from_u128(id).simple().to_string()
}

/// A lower-case hexadecimal digit.
pub open spec fn is_lower_hex(c: char) -> bool {
    ('0' <= c && c <= '9') || ('a' <= c && c <= 'f')
}

/// The algorithm and key length (in bytes) generated for a key type; types
/// without generated material get `UNKNOWN` and no material.
pub open spec fn key_material(t: KeyType) -> (Seq<char>, Option<nat>) {
    match t {
        KeyType::Aes256Gcm | KeyType::Symmetric | KeyType::DataEncryption => ("AES-256-GCM"@, Some(32nat)),
        KeyType::Aes256Cbc => ("AES-256-CBC"@, Some(32nat)),
        KeyType::Hmac => ("HMAC-SHA256"@, Some(64nat)),
        _ => ("UNKNOWN"@, None),
    }
}

/// Number of `.` characters of `s`.
pub open spec fn dot_count(s: Seq<char>) -> nat
    decreases s.len(),
{
    if s.len() == 0 {
        0
    } else {
        dot_count(s.drop_last()) + if s.last() == '.' { 1nat } else { 0nat }
    }
}

/// Position of the first `.` of `s` (meaningful when there is one).
pub open spec fn first_dot(s: Seq<char>) -> int {
    choose|i: int| 0 <= i < s.len() && s[i] == '.' && forall|k: int| 0 <= k < i ==> #[trigger] s[k] != '.'
}

/// What reading an encrypted payload gives: the payload must be two parts
/// separated by one `.`; the second must be base64 of UTF-8 text.
pub open spec fn decrypt_outcome(payload: Seq<char>) -> Result<Seq<char>, KeyError> {
    if dot_count(payload) != 1 {
        Err(KeyError::InvalidCiphertextFormat)
    } else {
        let data = encode_utf8(payload.skip(first_dot(payload) + 1));
        match base64_std_decode(data) {
            None => Err(KeyError::InvalidData),
            Some(bytes) => if valid_utf8(bytes) {
                Ok(decode_utf8(bytes))
            } else {
                Err(KeyError::InvalidUtf8)
            },
        }
    }
}

/// The payload written for `plaintext` with initialisation vector `iv`:
/// base64 of the vector, a `.`, base64 of the text's UTF-8 bytes.
pub open spec fn encrypt_payload(iv: Seq<u8>, plaintext: Seq<char>) -> Seq<char> {
    base64_std_encode(iv) + seq!['.'] + base64_std_encode(encode_utf8(plaintext))
}

proof fn lemma_dot_count_concat(a: Seq<char>, b: Seq<char>)
    ensures
        dot_count(a + b) == dot_count(a) + dot_count(b),
    decreases b.len(),
{
    if b.len() == 0 {
        assert(a + b =~= a);
    } else {
        assert((a + b).drop_last() =~= a + b.drop_last());
        lemma_dot_count_concat(a, b.drop_last());
    }
}

proof fn lemma_no_dots(a: Seq<char>)
    requires
        forall|i: int| 0 <= i < a.len() ==> #[trigger] a[i] != '.',
    ensures
        dot_count(a) == 0,
    decreases a.len(),
{
    if a.len() > 0 {
        assert(a[a.len() - 1] != '.');
        lemma_no_dots(a.drop_last());
    }
}

proof fn lemma_first_dot(s: Seq<char>, i: int)
    requires
        0 <= i < s.len(),
        s[i] == '.',
        forall|k: int| 0 <= k < i ==> #[trigger] s[k] != '.',
    ensures
        first_dot(s) == i,
{
    let c = first_dot(s);
    assert(0 <= c < s.len() && s[c] == '.' && forall|k: int| 0 <= k < c ==> #[trigger] s[k] != '.');
    if c < i {
        assert(s[c] != '.');
    } else if i < c {
        assert(s[i] != '.');
    }
}

/// Position of the first `.` of `s`, with the number of dots.
fn scan_dots(s: &Vec<char>) -> (r: (usize, Option<usize>))
    ensures
        r.0 == dot_count(s@),
        match r.1 {
            Some(i) => i < s.len() && s@[i as int] == '.' && forall|k: int| 0 <= k < i ==> #[trigger] s@[k] != '.',
            None => forall|k: int| 0 <= k < s.len() ==> #[trigger] s@[k] != '.',
        },
{
    let mut count: usize = 0;
    let mut first: Option<usize> = None;
    let mut i: usize = 0;
    while i < s.len()
        invariant
            i <= s.len(),
            count == dot_count(s@.take(i as int)),
            count <= i,
            match first {
                Some(f) => f < i && s@[f as int] == '.' && forall|k: int| 0 <= k < f ==> #[trigger] s@[k] != '.',
                None => forall|k: int| 0 <= k < i ==> #[trigger] s@[k] != '.',
            },
        decreases s.len() - i,
    {
        assert(s@.take(i + 1).drop_last() =~= s@.take(i as int));
        if s[i] == '.' {
            count = count + 1;
            if first.is_none() {
                first = Some(i);
            }
        }
        i = i + 1;
    }
    assert(s@.take(s.len() as int) =~= s@);
    (count, first)
}

/// Reads an encrypted payload back into its text (see `decrypt_outcome`).
pub fn decode_payload(payload: &str) -> (r: Result<String, KeyError>)
    ensures
        match decrypt_outcome(payload@) {
            Ok(text) => r matches Ok(s) && s@ == text,
            Err(e) => r matches Err(f) && f == e,
        },
{
    let chars = chars_of(payload);
    let (count, first) = scan_dots(&chars);
    if count != 1 {
        return Err(KeyError::InvalidCiphertextFormat);
    }
    let dot = match first {
        Some(d) => d,
        None => {
            proof {
                lemma_no_dots(chars@);
            }
            return Err(KeyError::InvalidCiphertextFormat);
        },
    };
    proof {
        lemma_first_dot(chars@, dot as int);
    }
    let mut tail: Vec<char> = Vec::new();
    let mut i: usize = dot + 1;
    while i < chars.len()
        invariant
            dot < i <= chars.len(),
            tail@ == chars@.subrange(dot + 1, i as int),
        decreases chars.len() - i,
    {
        tail.push(chars[i]);
        i = i + 1;
    }
    assert(tail@ =~= payload@.skip(dot + 1));
    match b64_decode(&tail) {
        None => Err(KeyError::InvalidData),
        Some(bytes) => match string_from_utf8(bytes) {
            Some(text) => Ok(text),
            None => Err(KeyError::InvalidUtf8),
        },
    }
}

/// Writes the encrypted payload of `plaintext` (see `encrypt_payload`); reading
/// it back gives the text again.
pub fn encode_payload(plaintext: &str, iv: &[u8]) -> (r: String)
    ensures
        r@ == encrypt_payload(iv@, plaintext@),
        decrypt_outcome(r@) == Ok::<Seq<char>, KeyError>(plaintext@),
{
    let head = b64_encode(iv);
    let body = b64_encode(plaintext.as_bytes());
    let r = head.concat(".").concat(body.as_str());
    proof {
        reveal_strlit(".");
        lemma_base64_round_trip(iv@);
        lemma_base64_round_trip(encode_utf8(plaintext@));
        let e1 = head@;
        let e2 = body@;
        assert(r@ =~= e1 + seq!['.'] + e2);
        assert forall|k: int| 0 <= k < e1.len() implies #[trigger] e1[k] != '.' by {
            assert(is_base64_char(e1[k]));
        }
        assert forall|k: int| 0 <= k < e2.len() implies #[trigger] e2[k] != '.' by {
            assert(is_base64_char(e2[k]));
        }
        lemma_no_dots(e1);
        lemma_no_dots(e2);
        lemma_dot_count_concat(e1, seq!['.']);
        lemma_dot_count_concat(e1 + seq!['.'], e2);
        assert(dot_count(seq!['.']) == 1) by {
            assert(seq!['.'].drop_last() =~= Seq::<char>::empty());
            assert(dot_count(Seq::<char>::empty()) == 0);
            assert(seq!['.'].last() == '.');
        }
        assert forall|k: int| 0 <= k < e1.len() implies #[trigger] r@[k] != '.' by {
            assert(is_base64_char(e1[k]));
        }
        lemma_first_dot(r@, e1.len() as int);
        assert(r@.skip(e1.len() as int + 1) =~= e2);
        assert(is_ascii_chars(e2)) by {
            assert forall|k: int| 0 <= k < e2.len() implies '\0' <= #[trigger] e2[k] <= '\u{7f}' by {
                assert(is_base64_char(e2[k]));
            }
        }
        vstd::utf8::is_ascii_chars_encode_utf8(e2);
        assert(encode_utf8(e2) =~= ascii_bytes(e2));
        vstd::utf8::encode_utf8_valid_utf8(plaintext@);
        vstd::utf8::encode_utf8_decode_utf8(plaintext@);
    }
    r
}

/// Milliseconds in a day.
pub const DAY_MS: i64 = 86400000;

/// Whether a key is due for rotation at `now_ms`: it is active, has a rotation
/// period, and either was never rotated or has gone at least that many whole
/// days since its last rotation.
pub open spec fn needs_rotation(k: EncryptionKey, now_ms: i64) -> bool {
    &&& k.is_active
    &&& k.rotation_days is Some
    &&& match k.last_rotated_ms {
        Some(t) => div_toward_zero(now_ms - t, DAY_MS as int) >= k.rotation_days.unwrap(),
        None => true,
    }
}

/// The keys of `keys` due for rotation, in order.
pub open spec fn rotation_due(keys: Seq<EncryptionKey>, now_ms: i64) -> Seq<EncryptionKey>
    decreases keys.len(),
{
    if keys.len() == 0 {
        Seq::empty()
    } else {
        let rest = rotation_due(keys.drop_last(), now_ms);
        if needs_rotation(keys.last(), now_ms) { rest.push(keys.last()) } else { rest }
    }
}

/// A key with a rotation period of `d` days, last rotated `now_ms - t`
/// milliseconds ago, is due once at least `d` whole days have passed and not
/// before; an inactive key or one without a period is never due, and a key
/// never rotated is due as soon as it is active with a period.
pub proof fn law_rotation_after_its_period(k: EncryptionKey, now_ms: i64)
    ensures
        !k.is_active || k.rotation_days is None ==> !needs_rotation(k, now_ms),
        k.is_active && k.rotation_days is Some && k.last_rotated_ms is None ==> needs_rotation(k, now_ms),
        k.is_active && k.rotation_days is Some && k.last_rotated_ms is Some ==> {
            let elapsed = now_ms - k.last_rotated_ms.unwrap();
            let d = k.rotation_days.unwrap() as int;
            &&& (0 <= elapsed && d * 86400000 <= elapsed ==> needs_rotation(k, now_ms))
            &&& (0 <= elapsed < d * 86400000 ==> !needs_rotation(k, now_ms))
        },
{
    if k.is_active && k.rotation_days is Some && k.last_rotated_ms is Some {
        let elapsed = now_ms - k.last_rotated_ms.unwrap();
        let d = k.rotation_days.unwrap() as int;
        if 0 <= elapsed {
            assert(div_toward_zero(elapsed, DAY_MS as int) == elapsed / 86400000);
            if d * 86400000 <= elapsed {
                assert(d <= elapsed / 86400000) by (nonlinear_arith)
                    requires
                        d * 86400000 <= elapsed,
                        0 <= elapsed,
                ;
            }
            if elapsed < d * 86400000 {
                assert(elapsed / 86400000 < d) by (nonlinear_arith)
                    requires
                        elapsed < d * 86400000,
                        0 <= elapsed,
                ;
            }
        }
    }
}

/// A key due for rotation stays due as time goes on.
pub proof fn law_rotation_stays_due(k: EncryptionKey, earlier_ms: i64, later_ms: i64)
    requires
        earlier_ms <= later_ms,
        needs_rotation(k, earlier_ms),
    ensures
        needs_rotation(k, later_ms),
{
    if k.last_rotated_ms is Some {
        let t = k.last_rotated_ms.unwrap();
        let x = earlier_ms - t;
        let y = later_ms - t;
        assert(div_toward_zero(x, DAY_MS as int) <= div_toward_zero(y, DAY_MS as int)) by (nonlinear_arith)
            requires
                x <= y,
                div_toward_zero(x, DAY_MS as int) == (if x >= 0 { x / 86400000 } else { -((-x) / 86400000) }),
                div_toward_zero(y, DAY_MS as int) == (if y >= 0 { y / 86400000 } else { -((-y) / 86400000) }),
        ;
    }
}

/// The keys listed for rotation are exactly the keys of the list that are
/// due, each as often as it occurs, in their order.
pub proof fn law_rotation_list(keys: Seq<EncryptionKey>, now_ms: i64)
    ensures
        forall|k: EncryptionKey| rotation_due(keys, now_ms).contains(k) <==> keys.contains(k) && needs_rotation(k, now_ms),
        rotation_due(keys, now_ms).len() <= keys.len(),
    decreases keys.len(),
{
    if keys.len() > 0 {
        let init = keys.drop_last();
        let last = keys.last();
        law_rotation_list(init, now_ms);
        let rest = rotation_due(init, now_ms);
        assert(keys =~= init.push(last));
        assert forall|k: EncryptionKey| rotation_due(keys, now_ms).contains(k) <==> keys.contains(k) && needs_rotation(k, now_ms) by {
            lemma_push_contains(init, last, k);
            lemma_push_contains(rest, last, k);
        }
    }
}


/// The stored state of encrypted field `d` read back: its vector must be
/// base64, then its payload is read.
pub open spec fn decrypt_record_outcome(d: EncryptedData) -> Result<Seq<char>, KeyError> {
    match base64_std_decode(encode_utf8(d.iv@)) {
        None => Err(KeyError::InvalidIv),
        Some(_) => decrypt_outcome(d.encrypted_value@),
    }
}

/// A copy of a key record.
pub fn clone_key(k: &EncryptionKey) -> (r: EncryptionKey)
    ensures
        r == *k,
{
    EncryptionKey {
        id: k.id,
        key_id: k.key_id.clone(),
        key_type: k.key_type,
        algorithm: k.algorithm.clone(),
        key_version: k.key_version,
        public_key: clone_opt_string(&k.public_key),
        encrypted_private_key: clone_opt_string(&k.encrypted_private_key),
        key_derivation_info: clone_opt_string(&k.key_derivation_info),
        is_active: k.is_active,
        is_primary: k.is_primary,
        rotation_days: k.rotation_days,
        last_rotated_ms: k.last_rotated_ms,
        expires_at_ms: k.expires_at_ms,
        max_usage_count: k.max_usage_count,
        current_usage_count: k.current_usage_count,
        created_at_ms: k.created_at_ms,
        updated_at_ms: k.updated_at_ms,
    }
}

/// Key `k` after key `id` is made the primary key at `now_ms`: that key
/// becomes primary, any other primary key stops being one, the rest are
/// unchanged.
pub open spec fn primary_switched(k: EncryptionKey, id: u128, now_ms: i64) -> EncryptionKey {
    if k.id == id {
        EncryptionKey { is_primary: true, updated_at_ms: now_ms, ..k }
    } else if k.is_primary {
        EncryptionKey { is_primary: false, updated_at_ms: now_ms, ..k }
    } else {
        k
    }
}

/// After a key is made primary, the primary keys are exactly those with its
/// identifier: with distinct identifiers, there is at most one.
pub proof fn law_single_primary(keys: Seq<EncryptionKey>, id: u128, now_ms: i64)
    ensures
        forall|i: int| 0 <= i < keys.len() ==> ((#[trigger] primary_switched(keys[i], id, now_ms)).is_primary
            <==> keys[i].id == id),
        (forall|i: int, j: int| 0 <= i < j < keys.len() ==> keys[i].id != keys[j].id) ==> forall|i: int, j: int|
            0 <= i < keys.len() && 0 <= j < keys.len() && primary_switched(keys[i], id, now_ms).is_primary
                && primary_switched(keys[j], id, now_ms).is_primary ==> i == j,
{
}

impl KeyService {
    /// The one value of the service, which holds no state.
    pub closed spec fn the_service() -> Self {
        KeyService { repo: SqliteKeyRepository }
    }
}

impl Default for KeyService {
    /// The same service as `new`.
    fn default() -> (s: Self)
        ensures
            s == KeyService::the_service(),
    {
        Self::new()
    }
}

/// `KeyService` holds no state: every value of it is the one that `new` and
/// `default` give, so any two of them answer every call alike.
pub proof fn law_key_service_is_stateless(a: KeyService)
    ensures
        a == KeyService::the_service(),
{
}

impl KeyService {
    pub fn new() -> (s: Self)
        ensures
            s == KeyService::the_service(),
    {
        KeyService { repo: SqliteKeyRepository }
    }

    /// A new key record of type `key_type` for `name`: a `key_` identifier,
    /// the type's algorithm, fresh random material of the type's length
    /// stored in base64 (none for types without material), version one,
    /// active, not primary, rotated every ninety days from `now_ms`.
    pub fn generate_key(&self, key_type: KeyType, name: &str, now_ms: i64) -> (k: EncryptionKey)
        ensures
            exists|n: u128| k.key_id@ == "key_"@ + #[trigger] uuid_simple(n),
            k.key_type == key_type,
            k.algorithm@ == key_material(key_type).0,
            k.key_version == 1,
            k.public_key is None,
            match key_material(key_type).1 {
                Some(n) => k.encrypted_private_key matches Some(m)
                    && exists|b: Seq<u8>| b.len() == n && m@ == base64_std_encode(b),
                None => k.encrypted_private_key is None,
            },
            k.key_derivation_info matches Some(info) && info@ == "Generated for: "@ + name@,
            k.is_active,
            !k.is_primary,
            k.rotation_days == Some(90i32),
            k.last_rotated_ms == Some(now_ms),
            k.expires_at_ms is None,
            k.max_usage_count is None,
            k.current_usage_count == 0,
            k.created_at_ms == now_ms,
            k.updated_at_ms == now_ms,
    {
        let key_number = new_id();
        let key_id = String::from_str("key_").concat(uuid_simple_text(key_number).as_str());
        proof {
            reveal_strlit("key_");
            assert(key_id@ == "key_"@ + uuid_simple(key_number));
        }
        let (algorithm, material_len): (String, Option<usize>) = match key_type {
            KeyType::Aes256Gcm | KeyType::Symmetric | KeyType::DataEncryption => (String::from_str("AES-256-GCM"), Some(32)),
            KeyType::Aes256Cbc => (String::from_str("AES-256-CBC"), Some(32)),
            KeyType::Hmac => (String::from_str("HMAC-SHA256"), Some(64)),
            _ => (String::from_str("UNKNOWN"), None),
        };
        let material = match material_len {
            Some(n) => {
                let bytes = random_bytes(n);
                let m = b64_encode(bytes.as_slice());
                assert(bytes@.len() == n && m@ == base64_std_encode(bytes@));
                Some(m)
            },
            None => None,
        };
        let info = String::from_str("Generated for: ").concat(name);
        EncryptionKey {
            id: new_id(),
            key_id,
            key_type,
            algorithm,
            key_version: 1,
            public_key: None,
            encrypted_private_key: material,
            key_derivation_info: Some(info),
            is_active: true,
            is_primary: false,
            rotation_days: Some(90),
            last_rotated_ms: Some(now_ms),
            expires_at_ms: None,
            max_usage_count: None,
            current_usage_count: 0,
            created_at_ms: now_ms,
            updated_at_ms: now_ms,
        }
    }

    /// Makes key `id` the primary key: every other primary key stops being
    /// primary; the returned flag says whether a key `id` exists. Changed keys
    /// are stamped with `now_ms`.
    pub fn set_primary_key(&self, keys: &Vec<EncryptionKey>, id: u128, now_ms: i64) -> (r: (Vec<EncryptionKey>, bool))
        ensures
            r.1 == exists|i: int| 0 <= i < keys.len() && #[trigger] keys[i].id == id,
            r.0.len() == keys.len(),
            forall|i: int| 0 <= i < keys.len() ==> (#[trigger] r.0[i]) == primary_switched(keys[i], id, now_ms),
    {
        let mut out: Vec<EncryptionKey> = Vec::new();
        let mut found = false;
        let mut i: usize = 0;
        while i < keys.len()
            invariant
                i <= keys.len(),
                out.len() == i,
                found == exists|j: int| 0 <= j < i && #[trigger] keys[j].id == id,
                forall|j: int| 0 <= j < i ==> (#[trigger] out[j]) == primary_switched(keys[j], id, now_ms),
            decreases keys.len() - i,
        {
            let mut k = clone_key(&keys[i]);
            if k.id == id {
                k.is_primary = true;
                k.updated_at_ms = now_ms;
                found = true;
            } else if k.is_primary {
                k.is_primary = false;
                k.updated_at_ms = now_ms;
            }
            out.push(k);
            i = i + 1;
        }
        (out, found)
    }

    /// The record of one use of key `key_id`, performed at `now_ms` by no
    /// one in particular.
    pub fn log_key_usage(
        &self,
        key_id: u128,
        operation: KeyOperation,
        entity_type: Option<&str>,
        entity_id: Option<&str>,
        success: bool,
        error: Option<&str>,
        now_ms: i64,
    ) -> (l: KeyUsageLog)
        ensures
            l.key_id == key_id,
            l.operation == operation,
            match entity_type {
                Some(t) => l.entity_type matches Some(x) && x@ == t@,
                None => l.entity_type is None,
            },
            match entity_id {
                Some(t) => l.entity_id matches Some(x) && x@ == t@,
                None => l.entity_id is None,
            },
            l.success == success,
            match error {
                Some(t) => l.error_message matches Some(x) && x@ == t@,
                None => l.error_message is None,
            },
            l.performed_at_ms == now_ms,
            l.performed_by is None,
    {
        KeyUsageLog {
            id: new_id(),
            key_id,
            operation,
            entity_type: match entity_type {
                Some(t) => Some(String::from_str(t)),
                None => None,
            },
            entity_id: match entity_id {
                Some(t) => Some(String::from_str(t)),
                None => None,
            },
            success,
            error_message: match error {
                Some(t) => Some(String::from_str(t)),
                None => None,
            },
            performed_at_ms: now_ms,
            performed_by: None,
        }
    }

    /// The record of rotating `old` into a key of version `new_version`,
    /// completed at `now_ms`.
    pub fn rotation_record(&self, old: &EncryptionKey, new_version: i32, initiated_by: Option<u128>, now_ms: i64)
        -> (r: KeyRotation)
        ensures
            r.key_id == old.id,
            r.from_version == old.key_version,
            r.to_version == new_version,
            r.rotation_type == RotationType::Manual,
            r.status == RotationStatus::Completed,
            r.started_at_ms == now_ms,
            r.completed_at_ms == Some(now_ms),
            r.re_encrypted_count == 0,
            r.error_message is None,
            r.initiated_by == initiated_by,
    {
        KeyRotation {
            id: new_id(),
            key_id: old.id,
            from_version: old.key_version,
            to_version: new_version,
            rotation_type: RotationType::Manual,
            status: RotationStatus::Completed,
            started_at_ms: now_ms,
            completed_at_ms: Some(now_ms),
            re_encrypted_count: 0,
            error_message: None,
            initiated_by,
        }
    }

    /// The keys due for rotation at `now_ms` (see `needs_rotation`), in order.
    pub fn get_keys_needing_rotation(&self, keys: &Vec<EncryptionKey>, now_ms: i64) -> (r: Vec<EncryptionKey>)
        requires
            in_time_range(now_ms as int),
            forall|i: int| 0 <= i < keys.len() ==> ((#[trigger] keys[i]).last_rotated_ms matches Some(t)
                ==> in_time_range(t as int)),
        ensures
            r@ == rotation_due(keys@, now_ms),
    {
        let mut out: Vec<EncryptionKey> = Vec::new();
        let ghost ks = keys@;
        let mut i: usize = 0;
        while i < keys.len()
            invariant
                i <= keys.len(),
                ks == keys@,
                in_time_range(now_ms as int),
                forall|j: int| 0 <= j < keys.len() ==> ((#[trigger] keys[j]).last_rotated_ms matches Some(t)
                    ==> in_time_range(t as int)),
                out@ == rotation_due(ks.take(i as int), now_ms),
            decreases keys.len() - i,
        {
            let k = &keys[i];
            assert(ks.take(i + 1).drop_last() =~= ks.take(i as int));
            assert(ks.take(i + 1).last() == *k);
            let due = if !k.is_active || k.rotation_days.is_none() {
                false
            } else {
                match k.last_rotated_ms {
                    Some(t) => {
                        let days = div_i64_toward_zero(now_ms - t, DAY_MS);
                        match k.rotation_days {
                            Some(rd) => days >= rd as i64,
                            None => false,
                        }
                    },
                    None => true,
                }
            };
            if due {
                out.push(clone_key(k));
            }
            i = i + 1;
        }
        assert(ks.take(keys.len() as int) =~= ks);
        out
    }

    /// Encrypts `plaintext` as field `field_name` of an entity with `key`: a
    /// fresh twelve-byte vector, stored in base64, and the payload of
    /// `encode_payload`. Reading the record back gives the text again.
    pub fn encrypt_data(
        &self,
        key: &EncryptionKey,
        entity_type: &str,
        entity_id: &str,
        field_name: &str,
        plaintext: &str,
        now_ms: i64,
    ) -> (d: EncryptedData)
        ensures
            d.entity_type@ == entity_type@,
            d.entity_id@ == entity_id@,
            d.field_name@ == field_name@,
            d.key_id == key.id,
            d.key_version == key.key_version,
            d.auth_tag is None,
            d.encryption_algorithm == key.algorithm,
            d.created_at_ms == now_ms,
            exists|iv: Seq<u8>| iv.len() == 12 && d.iv@ == base64_std_encode(iv)
                && d.encrypted_value@ == encrypt_payload(iv, plaintext@),
            decrypt_record_outcome(d) == Ok::<Seq<char>, KeyError>(plaintext@),
    {
        let iv = random_bytes(12);
        let value = encode_payload(plaintext, iv.as_slice());
        let iv_text = b64_encode(iv.as_slice());
        proof {
            lemma_base64_round_trip(iv@);
            let e = iv_text@;
            assert(is_ascii_chars(e)) by {
                assert forall|k: int| 0 <= k < e.len() implies '\0' <= #[trigger] e[k] <= '\u{7f}' by {
                    assert(is_base64_char(e[k]));
                }
            }
            vstd::utf8::is_ascii_chars_encode_utf8(e);
            assert(encode_utf8(e) =~= ascii_bytes(e));
        }
        EncryptedData {
            id: new_id(),
            entity_type: String::from_str(entity_type),
            entity_id: String::from_str(entity_id),
            field_name: String::from_str(field_name),
            key_id: key.id,
            key_version: key.key_version,
            iv: iv_text,
            auth_tag: None,
            encrypted_value: value,
            encryption_algorithm: key.algorithm.clone(),
            created_at_ms: now_ms,
        }
    }

    /// Reads an encrypted field back (see `decrypt_record_outcome`).
    pub fn decrypt_data(&self, d: &EncryptedData) -> (r: Result<String, KeyError>)
        ensures
            match decrypt_record_outcome(*d) {
                Ok(text) => r matches Ok(s) && s@ == text,
                Err(e) => r matches Err(f) && f == e,
            },
    {
        let iv_chars = chars_of(d.iv.as_str());
        match b64_decode(&iv_chars) {
            None => Err(KeyError::InvalidIv),
            Some(_) => decode_payload(d.encrypted_value.as_str()),
        }
    }

    /// Position of the first record of `records` for field `field_name`.
    pub fn find_field_record(&self, records: &Vec<EncryptedData>, field_name: &String) -> (r: Option<usize>)
        ensures
            match r {
                Some(i) => i < records.len() && records[i as int].field_name@ == field_name@
                    && forall|k: int| 0 <= k < i ==> (#[trigger] records[k]).field_name@ != field_name@,
                None => forall|k: int| 0 <= k < records.len() ==> (#[trigger] records[k]).field_name@ != field_name@,
            },
    {
        let mut i: usize = 0;
        while i < records.len()
            invariant
                i <= records.len(),
                forall|k: int| 0 <= k < i ==> (#[trigger] records[k]).field_name@ != field_name@,
            decreases records.len() - i,
        {
            if records[i].field_name == *field_name {
                return Some(i);
            }
            i = i + 1;
        }
        None
    }
}

} // verus!
