//! What the TLS listener offers beyond its certificate.

use vstd::prelude::*;

verus! {

/// The application protocols that the TLS listener offers, in order of
/// preference: HTTP/2, then HTTP/1.1.
pub fn alpn_protocols() -> (r: Vec<Vec<u8>>)
    ensures
        r@.len() == 2,
        r@[0]@ == seq![0x68u8, 0x32u8],
        r@[1]@ == seq![0x68u8, 0x74u8, 0x74u8, 0x70u8, 0x2fu8, 0x31u8, 0x2eu8, 0x31u8],
{
    let h2: Vec<u8> = vec![0x68u8, 0x32u8];
    let http11: Vec<u8> = vec![0x68u8, 0x74u8, 0x74u8, 0x70u8, 0x2fu8, 0x31u8, 0x2eu8, 0x31u8];
    assert(h2@ =~= seq![0x68u8, 0x32u8]);
    assert(http11@ =~= seq![0x68u8, 0x74u8, 0x74u8, 0x70u8, 0x2fu8, 0x31u8, 0x2eu8, 0x31u8]);
    vec![h2, http11]
}

} // verus!
