use vstd::prelude::*;
use vstd::string::StringSliceAdditionalSpecFns;
use vstd::utf8::decode_utf8;
use vstd::utf8::encode_utf8_decode_utf8;
use vstd::utf8::valid_utf8;

use crate::constants::IV;
use crate::constants::IV_LENGTH;
use crate::constants::KEY_LENGTH;
use crate::constants::Key;

use rand::thread_rng;
use rand::RngCore;

verus! {

/// Byte-wise equality of two slices, decided by one pass.
pub fn bytes_eq(a: &[u8], b: &[u8]) -> (r: bool)
    ensures
        r == (a@ == b@),
{
    if a.len() != b.len() {
        return false;
    }
    let mut i: usize = 0;
    while i < a.len()
        invariant
            i <= a@.len(),
            a@.len() == b@.len(),
            forall|j: int| 0 <= j < i ==> a@[j] == b@[j],
        decreases a@.len() - i,
    {
        if a[i] != b[i] {
            return false;
        }
        i = i + 1;
    }
    proof {
        assert(a@ =~= b@);
    }
    true
}

/// Equality of two string slices, decided on their UTF-8 bytes; equal byte
/// encodings mean equal character sequences because decoding inverts encoding.
pub fn str_equal(a: &str, b: &str) -> (r: bool)
    ensures
        r == (a@ == b@),
{
    let r = bytes_eq(a.as_bytes(), b.as_bytes());
    proof {
        encode_utf8_decode_utf8(a@);
        encode_utf8_decode_utf8(b@);
    }
    r
}

pub open spec fn times_spec(n: int, m: int) -> int
    recommends
        m > 0,
{
    n / m + if n % m == 0 {
        0int
    } else {
        1int
    }
}

/// How many chunks of size `m` cover `n` items: the ceiling of `n / m`.
pub fn times(n: usize, m: usize) -> (r: usize)
    requires
        m > 0,
    ensures
        r == times_spec(n as int, m as int),
{
    let div = n / m;
    if n % m == 0 {
        div
    } else {
        proof {
            assert(div < n) by (nonlinear_arith)
                requires
                    m >= 2,
                    n % m != 0,
                    div == n / m,
            ;
        }
        div + 1
    }
}

/// Relies on rand::thread_rng and rand::RngCore::fill_bytes: fills the buffer
/// with bytes from the thread-local CSPRNG. Nothing is assumed about the
/// values drawn.
#[verifier::external_body]
pub fn gen_rand_iv() -> (r: IV) {
    let mut buf = [0u8; IV_LENGTH];
    thread_rng().fill_bytes(&mut buf);
    buf
}

/// Relies on rand::thread_rng and rand::RngCore::fill_bytes: fills the buffer
/// with bytes from the thread-local CSPRNG. Nothing is assumed about the
/// values drawn.
#[verifier::external_body]
pub fn gen_rand_key() -> (r: Key) {
    let mut buf = [0u8; KEY_LENGTH];
    thread_rng().fill_bytes(&mut buf);
    buf
}

/// Relies on String::from_utf8: it succeeds exactly on valid UTF-8 input and
/// returns the string whose byte encoding is that input.
#[verifier::external_body]
pub fn bytes_to_string(bytes: Vec<u8>) -> (r: Option<String>)
    ensures
        r is Some <==> valid_utf8(bytes@),
        r matches Some(s) ==> s@ == decode_utf8(bytes@),
{
    String::from_utf8(bytes).ok()
}

} // verus!
