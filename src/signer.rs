use vstd::prelude::*;
use hmac::Mac;
use crate::types::LookupError;

verus! {

/// The lower-case hexadecimal digits, by value.
pub open spec fn hex_digits() -> Seq<char> {
    "0123456789abcdef"@
}

/// Lower-case hexadecimal of a byte string: two digits per byte, high first.
pub open spec fn hex_of(b: Seq<u8>) -> Seq<char>
    decreases b.len(),
{
    if b.len() == 0 {
        Seq::empty()
    } else {
        hex_of(b.drop_last()) + seq![
            hex_digits()[(b.last() / 16) as int],
            hex_digits()[(b.last() % 16) as int],
        ]
    }
}

/// One hexadecimal digit as a text.
pub(crate) fn digit_str(n: u8) -> (r: &'static str)
    requires
        n < 16,
    ensures
        r@ == seq![hex_digits()[n as int]],
{
    proof {
        reveal_strlit("0123456789abcdef");
    }
    match n {
        0 => { proof { reveal_strlit("0"); } "0" },
        1 => { proof { reveal_strlit("1"); } "1" },
        2 => { proof { reveal_strlit("2"); } "2" },
        3 => { proof { reveal_strlit("3"); } "3" },
        4 => { proof { reveal_strlit("4"); } "4" },
        5 => { proof { reveal_strlit("5"); } "5" },
        6 => { proof { reveal_strlit("6"); } "6" },
        7 => { proof { reveal_strlit("7"); } "7" },
        8 => { proof { reveal_strlit("8"); } "8" },
        9 => { proof { reveal_strlit("9"); } "9" },
        10 => { proof { reveal_strlit("a"); } "a" },
        11 => { proof { reveal_strlit("b"); } "b" },
        12 => { proof { reveal_strlit("c"); } "c" },
        13 => { proof { reveal_strlit("d"); } "d" },
        14 => { proof { reveal_strlit("e"); } "e" },
        _ => { proof { reveal_strlit("f"); } "f" },
    }
}

/// Encodes bytes as lower-case hexadecimal.
pub fn to_hex(b: &[u8]) -> (r: String)
    ensures
        r@ == hex_of(b@),
{
    let mut out = String::new();
    let mut i: usize = 0;
    while i < b.len()
        invariant
            i <= b@.len(),
            out@ == hex_of(b@.take(i as int)),
        decreases b.len() - i,
    {
        let x = b[i];
        assert(b@.take(i + 1).drop_last() =~= b@.take(i as int));
        assert(b@.take(i + 1).last() == x);
        out.append(digit_str(x / 16));
        out.append(digit_str(x % 16));
        assert(out@ =~= hex_of(b@.take(i + 1)));
        i = i + 1;
    }
    assert(b@.take(b@.len() as int) =~= b@);
    out
}

/// What HMAC-SHA256 gives for a key and the UTF-8 bytes of a message.
pub uninterp spec fn hmac_sha256_of(key: Seq<u8>, msg: Seq<char>) -> Seq<u8>;

/// Relies on hmac's `Hmac<Sha256>`: `new_from_slice` takes a key of any
/// length (a long key is hashed, a short one padded), `update` and
/// `finalize` give the 32-byte tag of the message.
#[verifier::external_body]
fn hmac_sha256(key: &[u8], msg: &str) -> (r: Vec<u8>)
    ensures
        r@ == hmac_sha256_of(key@, msg@),
        r@.len() == 32,
{
    let mut mac = hmac::Hmac::<sha2::Sha256>::new_from_slice(key).expect("HMAC takes any key");
    mac.update(msg.as_bytes());
    mac.finalize().into_bytes().to_vec()
}

/// The signature of a canonical string under a secret.
pub open spec fn signature(secret: Seq<u8>, canonical: Seq<char>) -> Seq<char> {
    hex_of(hmac_sha256_of(secret, canonical))
}

/// Signs a canonical request string: the lower-case hex of its HMAC-SHA256
/// under `secret`. An empty secret cannot sign.
pub fn sign(secret: &[u8], canonical: &str) -> (r: Result<String, LookupError>)
    ensures
        secret@.len() == 0 <==> r is Err,
        r matches Err(e) ==> e == LookupError::Signing,
        r matches Ok(s) ==> s@ == signature(secret@, canonical@),
{
    if secret.len() == 0 {
        return Err(LookupError::Signing);
    }
    let tag = hmac_sha256(secret, canonical);
    Ok(to_hex(tag.as_slice()))
}

/// Signing is a function of the secret and the canonical string alone:
/// equal inputs give equal signatures.
pub proof fn lemma_signature_deterministic(s1: Seq<u8>, c1: Seq<char>, s2: Seq<u8>, c2: Seq<char>)
    requires
        s1 == s2,
        c1 == c2,
    ensures
        signature(s1, c1) == signature(s2, c2),
{
}

/// Hex encoding keeps every bit: distinct byte strings have distinct hex.
pub proof fn lemma_hex_injective(a: Seq<u8>, b: Seq<u8>)
    requires
        hex_of(a) == hex_of(b),
    ensures
        a == b,
    decreases a.len(),
{
    lemma_hex_len(a);
    lemma_hex_len(b);
    if a.len() > 0 {
        let ha = hex_of(a.drop_last());
        let hb = hex_of(b.drop_last());
        lemma_hex_len(a.drop_last());
        lemma_hex_len(b.drop_last());
        assert(hex_of(a)[2 * a.len() - 2] == hex_digits()[(a.last() / 16) as int]);
        assert(hex_of(b)[2 * a.len() - 2] == hex_digits()[(b.last() / 16) as int]);
        assert(hex_of(a)[2 * a.len() - 1] == hex_digits()[(a.last() % 16) as int]);
        assert(hex_of(b)[2 * a.len() - 1] == hex_digits()[(b.last() % 16) as int]);
        reveal_strlit("0123456789abcdef");
        assert(a.last() / 16 == b.last() / 16);
        assert(a.last() % 16 == b.last() % 16);
        assert(ha =~= hex_of(a).take(2 * a.len() - 2));
        assert(hb =~= hex_of(b).take(2 * a.len() - 2));
        lemma_hex_injective(a.drop_last(), b.drop_last());
        assert(a =~= a.drop_last().push(a.last()));
        assert(b =~= b.drop_last().push(b.last()));
    }
}

/// Two hex digits per byte.
pub proof fn lemma_hex_len(b: Seq<u8>)
    ensures
        hex_of(b).len() == 2 * b.len(),
    decreases b.len(),
{
    if b.len() > 0 {
        lemma_hex_len(b.drop_last());
    }
}

} // verus!
