use vstd::prelude::*;

verus! {

/// The lowercase hexadecimal digit of a value below sixteen.
pub open spec fn hex_digit(n: int) -> char {
    if n < 10 {
        (48 + n) as char
    } else {
        (87 + n) as char
    }
}

/// Lowercase hexadecimal text of a byte string: two digits per byte, the
/// high half first.
pub open spec fn hex_text(bytes: Seq<u8>) -> Seq<char>
    decreases bytes.len(),
{
    if bytes.len() == 0 {
        Seq::empty()
    } else {
        hex_text(bytes.drop_last()) + seq![hex_digit(bytes.last() as int / 16), hex_digit(bytes.last() as int % 16)]
    }
}

/// The hexadecimal text of a byte string is twice as long as the bytes.
pub proof fn lemma_hex_text_len(bytes: Seq<u8>)
    ensures
        hex_text(bytes).len() == 2 * bytes.len(),
    decreases bytes.len(),
{
    if bytes.len() > 0 {
        lemma_hex_text_len(bytes.drop_last());
    }
}

/// The text of a prefix of the bytes is a prefix of the text.
pub proof fn lemma_hex_text_prefix(bytes: Seq<u8>, n: int)
    requires
        0 <= n <= bytes.len(),
    ensures
        hex_text(bytes.take(n)) == hex_text(bytes).take(2 * n),
    decreases bytes.len(),
{
    lemma_hex_text_len(bytes);
    lemma_hex_text_len(bytes.take(n));
    if n == bytes.len() {
        assert(bytes.take(n) =~= bytes);
        assert(hex_text(bytes).take(2 * n) =~= hex_text(bytes));
    } else {
        lemma_hex_text_prefix(bytes.drop_last(), n);
        assert(bytes.drop_last().take(n) =~= bytes.take(n));
        lemma_hex_text_len(bytes.drop_last());
        assert(hex_text(bytes).take(2 * n) =~= hex_text(bytes.drop_last()).take(2 * n));
    }
}

/// Encodes bytes as lowercase hexadecimal text with `hex::encode`, which
/// writes each byte as two digits from the table `0123456789abcdef`, the
/// high half of the byte first.
#[verifier::external_body]
pub(crate) fn hex_encode(bytes: &[u8]) -> (text: String)
    ensures
        text@ == hex_text(bytes@),
{
    hex::encode(bytes)
}

#[verifier::external_type_specification]
#[verifier::external_body]
pub struct ExEnv(soroban_sdk::Env);

/// The SHA-256 digest of a byte string.
pub uninterp spec fn sha256_digest(data: Seq<u8>) -> Seq<u8>;

/// Hashes `data` with the host's `Crypto::sha256`: the result is the 32-byte
/// SHA-256 digest of the bytes, which depends on them alone.  Left unsaid:
/// the host aborts the invocation when its metering budget runs out.
#[verifier::external_body]
pub(crate) fn host_sha256(env: &soroban_sdk::Env, data: &[u8]) -> (digest: Vec<u8>)
    ensures
        digest@ == sha256_digest(data@),
        digest@.len() == 32,
{
    let bytes = soroban_sdk::Bytes::from_slice(env, data);
    env.crypto().sha256(&bytes).to_array().to_vec()
}

} // verus!
