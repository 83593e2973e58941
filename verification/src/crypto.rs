use vstd::prelude::*;

verus! {

/// The SHA-256 digest of a byte string.  The algorithm itself lives in
/// the `sha2` crate; here it is only named, so that contracts can say
/// "the digest of these bytes" exactly.
pub uninterp spec fn sha256_of(data: Seq<u8>) -> Seq<u8>;

/// Relies on `sha2::Sha256` (the one-shot `Digest::digest`): the digest
/// depends on the input bytes alone and is always 32 bytes long.
#[verifier::external_body]
pub(crate) fn compute_hashlock(preimage: &[u8]) -> (r: Vec<u8>)
    ensures
        r@ == sha256_of(preimage@),
        r@.len() == 32,
{
    <sha2::Sha256 as sha2::Digest>::digest(preimage).to_vec()
}

/// Byte-wise equality of two byte strings.
pub(crate) fn bytes_equal(a: &[u8], b: &[u8]) -> (r: bool)
    ensures
        r == (a@ == b@),
{
    if a.len() != b.len() {
        proof {
            assert(a@.len() != b@.len());
        }
        return false;
    }
    let n: usize = a.len();
    let mut i: usize = 0;
    while i < n
        invariant
            n == a@.len() == b@.len(),
            0 <= i <= n,
            forall|j: int| 0 <= j < i ==> a@[j] == b@[j],
        decreases n - i,
    {
        if a[i] != b[i] {
            return false;
        }
        i = i + 1;
    }
    proof {
        assert(a@ =~= b@);
    }
    true
}

/// Whether `preimage` hashes to `hashlock` under SHA-256.
pub fn verify_hashlock(hashlock: &[u8], preimage: &[u8]) -> (r: bool)
    ensures
        r == (hashlock@ == sha256_of(preimage@)),
{
    let computed_hashlock = compute_hashlock(preimage);
    bytes_equal(hashlock, computed_hashlock.as_slice())
}

/// The lowercase hexadecimal digit for a nibble value.
pub open spec fn hex_digit(n: int) -> char {
    if n == 0 {
        '0'
    } else if n == 1 {
        '1'
    } else if n == 2 {
        '2'
    } else if n == 3 {
        '3'
    } else if n == 4 {
        '4'
    } else if n == 5 {
        '5'
    } else if n == 6 {
        '6'
    } else if n == 7 {
        '7'
    } else if n == 8 {
        '8'
    } else if n == 9 {
        '9'
    } else if n == 10 {
        'a'
    } else if n == 11 {
        'b'
    } else if n == 12 {
        'c'
    } else if n == 13 {
        'd'
    } else if n == 14 {
        'e'
    } else {
        'f'
    }
}

/// Lowercase hexadecimal rendering of a byte string: every byte becomes
/// its high nibble's digit followed by its low nibble's digit.
pub open spec fn hex_of(data: Seq<u8>) -> Seq<char>
    decreases data.len(),
{
    if data.len() == 0 {
        Seq::empty()
    } else {
        seq![hex_digit(data[0] as int / 16), hex_digit(data[0] as int % 16)] + hex_of(
            data.drop_first(),
        )
    }
}

/// Relies on `hex::encode`: each input byte is rendered as its high
/// nibble then its low nibble, drawn from the lowercase digit table.
#[verifier::external_body]
pub(crate) fn hex_encode(data: &[u8]) -> (r: String)
    ensures
        r@ == hex_of(data@),
{
    hex::encode(data)
}

} // verus!
