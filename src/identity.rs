//! Identifiers of store entries, derived from workspace paths.
use vstd::prelude::*;
use crate::paths::is_normal_component;
use vstd::utf8::encode_utf8;

verus! {

/// What `blake3::keyed_hash` returns for `key` and `data`.
pub uninterp spec fn blake3_keyed_hash(key: Seq<u8>, data: Seq<u8>) -> Seq<u8>;

/// The digits of the Bitcoin base-58 alphabet, from zero up.
pub open spec fn base58_alphabet() -> Seq<char> {
    seq!['1', '2', '3', '4', '5', '6', '7', '8', '9', 'A', 'B', 'C', 'D', 'E', 'F', 'G', 'H', 'J', 'K', 'L', 'M', 'N', 'P', 'Q', 'R', 'S', 'T', 'U', 'V', 'W', 'X', 'Y', 'Z', 'a', 'b', 'c', 'd', 'e', 'f', 'g', 'h', 'i', 'j', 'k', 'm', 'n', 'o', 'p', 'q', 'r', 's', 't', 'u', 'v', 'w', 'x', 'y', 'z']
}

/// The number that `bytes` spell, most significant byte first.
pub open spec fn big_endian_value(bytes: Seq<u8>) -> nat
    decreases bytes.len(),
{
    if bytes.len() == 0 {
        0
    } else {
        big_endian_value(bytes.drop_last()) * 256 + bytes.last() as nat
    }
}

/// How many zero bytes `bytes` starts with.
pub open spec fn leading_zero_bytes(bytes: Seq<u8>) -> nat
    decreases bytes.len(),
{
    if bytes.len() > 0 && bytes[0] == 0 {
        1 + leading_zero_bytes(bytes.drop_first())
    } else {
        0
    }
}

/// `n` in base 58, most significant digit first, with no leading zero digit
/// (so zero has no digits).
pub open spec fn base58_digits(n: nat) -> Seq<char>
    decreases n,
{
    if n == 0 {
        seq![]
    } else {
        base58_digits(n / 58).push(base58_alphabet()[(n % 58) as int])
    }
}

/// The base-58 text of `bytes`: one `1` for each leading zero byte, then the
/// number the bytes spell in base 58.
pub open spec fn base58_of(bytes: Seq<u8>) -> Seq<char> {
    Seq::new(leading_zero_bytes(bytes), |i: int| '1') + base58_digits(big_endian_value(bytes))
}

/// How many leading bytes of the digest make up an identifier.
pub const DIGEST_PREFIX_LEN: usize = 20;

/// The key of the hash: a fixed domain-separation tag, padded with zeros.
pub open spec fn hasher_key() -> Seq<u8> {
    seq![116u8, 97u8, 114u8, 103u8, 111u8] + Seq::new(27, |i: int| 0u8)
}

/// A character of the Bitcoin base-58 alphabet: digits and letters without
/// `0`, `I`, `O` and `l`.
pub open spec fn is_base58_char(c: char) -> bool {
    base58_alphabet().contains(c)
}

/// A well-formed identifier: non-empty base-58 text, so one path segment that
/// needs no quoting.
pub open spec fn is_identifier(s: Seq<char>) -> bool {
    &&& s.len() > 0
    &&& forall|i: int| 0 <= i < s.len() ==> is_base58_char(#[trigger] s[i])
}

/// An identifier is one ordinary path component.
pub proof fn identifier_is_normal_component(s: Seq<char>)
    requires
        is_identifier(s),
    ensures
        is_normal_component(s),
{
    assert(!base58_alphabet().contains('/'));
    assert(!base58_alphabet().contains('.'));
    assert(is_base58_char(s[0]));
    if s.contains('/') {
        let k = choose|k: int| 0 <= k < s.len() && s[k] == '/';
        assert(is_base58_char(s[k]));
    }
}

/// The identifier of the workspace at `path`: the first 20 bytes of the keyed
/// hash of its UTF-8 text, in base 58.
pub open spec fn identifier_for(path: Seq<char>) -> Seq<char> {
    base58_of(blake3_keyed_hash(hasher_key(), encode_utf8(path)).subrange(0, DIGEST_PREFIX_LEN as int))
}

/// Relies on `blake3::keyed_hash`: the 32-byte keyed hash of `data`.
#[verifier::external_body]
fn keyed_hash(key: &[u8; 32], data: &[u8]) -> (r: [u8; 32])
    ensures
        r@ == blake3_keyed_hash(key@, data@),
{
    *blake3::keyed_hash(key, data).as_bytes()
}

/// Relies on `bs58::encode(..).into_string()`: the input in base 58 in the
/// Bitcoin alphabet, with a `1` for each leading zero byte.
#[verifier::external_body]
fn base58_encode(bytes: &[u8]) -> (r: String)
    ensures
        r@ == base58_of(bytes@),
{
    bs58::encode(bytes).into_string()
}

proof fn lemma_digits_in_alphabet(n: nat)
    ensures
        forall|i: int| 0 <= i < base58_digits(n).len() ==> is_base58_char(#[trigger] base58_digits(n)[i]),
    decreases n,
{
    if n > 0 {
        lemma_digits_in_alphabet(n / 58);
        assert(base58_alphabet().len() == 58);
        assert(is_base58_char(base58_alphabet()[(n % 58) as int]));
        let d = base58_digits(n);
        assert forall|i: int| 0 <= i < d.len() implies is_base58_char(#[trigger] d[i]) by {
            if i < d.len() - 1 {
                assert(d[i] == base58_digits(n / 58)[i]);
            }
        }
    }
}

proof fn lemma_nonzero_first_byte(bytes: Seq<u8>)
    requires
        bytes.len() > 0,
        bytes[0] != 0,
    ensures
        big_endian_value(bytes) > 0,
    decreases bytes.len(),
{
    if bytes.len() > 1 {
        assert(bytes.drop_last()[0] == bytes[0]);
        lemma_nonzero_first_byte(bytes.drop_last());
    }
}

/// Base-58 text is made of alphabet characters, and is empty only for empty
/// input.
proof fn lemma_base58_text(bytes: Seq<u8>)
    ensures
        forall|i: int| 0 <= i < base58_of(bytes).len() ==> is_base58_char(#[trigger] base58_of(bytes)[i]),
        bytes.len() > 0 ==> base58_of(bytes).len() > 0,
{
    let ones = Seq::new(leading_zero_bytes(bytes), |i: int| '1');
    let digits = base58_digits(big_endian_value(bytes));
    lemma_digits_in_alphabet(big_endian_value(bytes));
    assert forall|i: int| 0 <= i < base58_of(bytes).len() implies is_base58_char(#[trigger] base58_of(bytes)[i]) by {
        if i >= ones.len() {
            assert(base58_of(bytes)[i] == digits[i - ones.len()]);
        } else {
            assert(base58_alphabet()[0] == '1');
        }
    }
    if bytes.len() > 0 && bytes[0] != 0 {
        lemma_nonzero_first_byte(bytes);
    }
}

fn hasher_key_bytes() -> (r: [u8; 32])
    ensures
        r@ == hasher_key(),
{
    let mut key: [u8; 32] = [0u8; 32];
    key[0] = 116u8;
    key[1] = 97u8;
    key[2] = 114u8;
    key[3] = 103u8;
    key[4] = 111u8;
    assert(key@ =~= hasher_key());
    key
}

/// The identifier for a 32-byte digest: its first 20 bytes in base 58.
pub fn identifier_from_digest(digest: &[u8; 32]) -> (r: String)
    ensures
        r@ == base58_of(digest@.subrange(0, DIGEST_PREFIX_LEN as int)),
        is_identifier(r@),
{
    let mut prefix: Vec<u8> = Vec::new();
    let mut i: usize = 0;
    while i < DIGEST_PREFIX_LEN
        invariant
            i <= DIGEST_PREFIX_LEN,
            digest@.len() == 32,
            prefix@ == digest@.subrange(0, i as int),
        decreases DIGEST_PREFIX_LEN - i,
    {
        prefix.push(digest[i]);
        i = i + 1;
        assert(prefix@ =~= digest@.subrange(0, i as int));
    }
    proof {
        lemma_base58_text(prefix@);
    }
    base58_encode(prefix.as_slice())
}

/// The identifier of the workspace at `workspace_dir`.  The same path gives
/// the same identifier in every process and on every machine.
pub fn hash_workspace_dir(workspace_dir: &str) -> (r: String)
    ensures
        r@ == identifier_for(workspace_dir@),
        is_identifier(r@),
{
    let key = hasher_key_bytes();
    let digest = keyed_hash(&key, workspace_dir.as_bytes());
    identifier_from_digest(&digest)
}

} // verus!
