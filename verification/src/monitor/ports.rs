//! The port scan's order of probing and the address it connects to.

use rand::seq::SliceRandom;
use vstd::prelude::*;

use crate::text::{decimal, decimal_string};

verus! {

/// Shuffles the ports in place with `rand::seq::SliceRandom::shuffle` and
/// the thread-local generator `rand::rng()`. The outcome is random; the
/// contract claims only what the crate documents of every outcome: the
/// ports are a permutation of the ports before.
#[verifier::external_body]
fn shuffle_in_place(ports: &mut Vec<u16>)
    ensures
        final(ports)@.to_multiset() == old(ports)@.to_multiset(),
{
    let mut rng = rand::rng();
    ports.as_mut_slice().shuffle(&mut rng);
}

/// The ports in a random order, so that one target is not swept port after
/// port; every port stays, as often as it was given.
pub fn shuffled_ports(ports: &[u16]) -> (r: Vec<u16>)
    ensures
        r@.to_multiset() == ports@.to_multiset(),
        r@.len() == ports@.len(),
{
    let mut v: Vec<u16> = Vec::new();
    let mut i: usize = 0;
    while i < ports.len()
        invariant
            i <= ports@.len(),
            v@ == ports@.take(i as int),
        decreases ports.len() - i,
    {
        assert(ports@.take(i + 1) =~= ports@.take(i as int).push(ports@[i as int]));
        v.push(ports[i]);
        i = i + 1;
    }
    assert(ports@.take(ports@.len() as int) =~= ports@);
    shuffle_in_place(&mut v);
    proof {
        v@.to_multiset_ensures();
        ports@.to_multiset_ensures();
    }
    v
}

/// The `ip:port` address a probe connects to.
pub fn probe_target(ip: &str, port: u16) -> (s: String)
    ensures
        s@ == ip@ + ":"@ + decimal(port as nat),
{
    String::from_str(ip).concat(":").concat(decimal_string(port as u64).as_str())
}

/// The number of probed ports as a scan summary records it: the count, or
/// `u32::MAX` when it does not fit.
pub fn probed_count(n: usize) -> (c: u32)
    ensures
        c == if n <= u32::MAX {
            n as u32
        } else {
            u32::MAX
        },
{
    if n <= 0xFFFF_FFFF {
        n as u32
    } else {
        0xFFFF_FFFF
    }
}

} // verus!
