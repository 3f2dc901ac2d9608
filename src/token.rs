//! Delete capability tokens: an HMAC-SHA256 tag over the file name, keyed by
//! the shared secret, written as lowercase hexadecimal.
use vstd::prelude::*;

use hmac::Mac;

verus! {

/// The HMAC-SHA256 tag of the UTF-8 bytes of `msg` under the UTF-8 bytes of `key`.
pub uninterp spec fn hmac_sha256_of(key: Seq<char>, msg: Seq<char>) -> Seq<u8>;

/// The sixteen lowercase hexadecimal digits, in order of value.
pub open spec fn hex_digits() -> Seq<char> {
    seq!['0', '1', '2', '3', '4', '5', '6', '7', '8', '9', 'a', 'b', 'c', 'd', 'e', 'f']
}

/// Lowercase hexadecimal text of a byte string: two digits per byte, high nibble first.
pub open spec fn hex_of(b: Seq<u8>) -> Seq<char>
    decreases b.len(),
{
    if b.len() == 0 {
        Seq::empty()
    } else {
        hex_of(b.drop_last()) + seq![
            hex_digits()[(b.last() / 16) as int],
            hex_digits()[(b.last() % 16) as int],
        ]
    }
}

/// The delete token of `filename` under `secret`.
pub open spec fn token_of(filename: Seq<char>, secret: Seq<char>) -> Seq<char> {
    hex_of(hmac_sha256_of(secret, filename))
}

/// Whether `token` authorises deleting `filename` under `secret`.
pub open spec fn token_accepted(filename: Seq<char>, token: Seq<char>, secret: Seq<char>) -> bool {
    token == token_of(filename, secret)
}

/// Relies on hmac's `Hmac<Sha256>` (new_from_slice, update, finalize): the
/// tag of `msg` under `key`, 32 bytes long. HMAC accepts keys of any length,
/// so `new_from_slice` never fails.
#[verifier::external_body]
fn mac_sha256(key: &str, msg: &str) -> (r: Vec<u8>)
    ensures
        r@ == hmac_sha256_of(key@, msg@),
        r@.len() == 32,
{
    let mut mac = hmac::Hmac::<sha2::Sha256>::new_from_slice(key.as_bytes()).expect(
        "HMAC takes keys of any length",
    );
    mac.update(msg.as_bytes());
    mac.finalize().into_bytes().to_vec()
}

/// Relies on hex::encode: two lowercase digits per byte, high nibble first.
#[verifier::external_body]
fn to_hex(b: &Vec<u8>) -> (r: String)
    ensures
        r@ == hex_of(b@),
{
    hex::encode(b)
}

/// Relies on constant_time_eq::constant_time_eq: true exactly when the two
/// byte strings are equal, in time that does not depend on where they differ.
/// UTF-8 encoding is injective, so equal bytes means equal text.
#[verifier::external_body]
pub(crate) fn same_text(a: &str, b: &str) -> (r: bool)
    ensures
        r == (a@ == b@),
{
    constant_time_eq::constant_time_eq(a.as_bytes(), b.as_bytes())
}

/// The text `hex_of` gives is twice as long as its input.
pub proof fn lemma_hex_len(b: Seq<u8>)
    ensures
        hex_of(b).len() == 2 * b.len(),
    decreases b.len(),
{
    if b.len() > 0 {
        lemma_hex_len(b.drop_last());
    }
}

/// Distinct byte strings have distinct hexadecimal texts.
pub proof fn lemma_hex_injective(a: Seq<u8>, b: Seq<u8>)
    requires
        hex_of(a) == hex_of(b),
    ensures
        a == b,
    decreases a.len(),
{
    lemma_hex_len(a);
    lemma_hex_len(b);
    if a.len() > 0 {
        let ha = hex_of(a);
        let n = ha.len();
        let (x, y) = (a.last(), b.last());
        assert(ha[n - 2] == hex_digits()[(x / 16) as int]);
        assert(hex_of(b)[n - 2] == hex_digits()[(y / 16) as int]);
        assert(ha[n - 1] == hex_digits()[(x % 16) as int]);
        assert(hex_of(b)[n - 1] == hex_digits()[(y % 16) as int]);
        assert(x / 16 == y / 16 && x % 16 == y % 16);
        lemma_hex_len(a.drop_last());
        lemma_hex_len(b.drop_last());
        assert(hex_of(a.drop_last()) =~= ha.subrange(0, n - 2));
        assert(hex_of(b.drop_last()) =~= hex_of(b).subrange(0, n - 2));
        lemma_hex_injective(a.drop_last(), b.drop_last());
        assert(a =~= a.drop_last().push(x));
        assert(b =~= b.drop_last().push(y));
    }
}

/// Computes the delete token of `filename` under `secret`: the HMAC-SHA256
/// tag of the name keyed by the secret, as 64 lowercase hexadecimal digits.
pub fn generate_token(filename: &str, secret: &str) -> (r: String)
    ensures
        r@ == token_of(filename@, secret@),
        r@.len() == 64,
{
    let tag = mac_sha256(secret, filename);
    proof {
        lemma_hex_len(tag@);
    }
    to_hex(&tag)
}

/// Checks a presented delete token against the one `filename` has under
/// `secret`, comparing in constant time.
pub fn verify_token(filename: &str, token: &str, secret: &str) -> (r: bool)
    ensures
        r == token_accepted(filename@, token@, secret@),
{
    let expected = generate_token(filename, secret);
    same_text(expected.as_str(), token)
}

/// A freshly generated token is always accepted for its own file name.
pub proof fn lemma_generated_token_verifies(filename: Seq<char>, secret: Seq<char>)
    ensures
        token_accepted(filename, token_of(filename, secret), secret),
{
}

/// Any token other than the generated one is refused.
pub proof fn lemma_other_tokens_refused(filename: Seq<char>, token: Seq<char>, secret: Seq<char>)
    requires
        token != token_of(filename, secret),
    ensures
        !token_accepted(filename, token, secret),
{
}

/// Two file names get distinct tokens whenever their HMAC tags differ: the
/// hexadecimal encoding loses nothing. That the tags themselves differ is the
/// collision resistance of HMAC-SHA256, which is assumed, not proved.
pub proof fn lemma_distinct_tags_distinct_tokens(f1: Seq<char>, f2: Seq<char>, secret: Seq<char>)
    requires
        hmac_sha256_of(secret, f1) != hmac_sha256_of(secret, f2),
    ensures
        token_of(f1, secret) != token_of(f2, secret),
{
    if token_of(f1, secret) == token_of(f2, secret) {
        lemma_hex_injective(hmac_sha256_of(secret, f1), hmac_sha256_of(secret, f2));
    }
}

} // verus!
