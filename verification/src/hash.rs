//! A short hash of a string, for identifiers.
use crate::text::{digits, to_digits, to_units, units};
use vstd::prelude::*;

verus! {

/// Mixes one UTF-16 unit into both halves of the state.
pub open spec fn mix(state: (u32, u32), unit: u16) -> (u32, u32) {
    (
        (state.0 ^ (unit as u32)).wrapping_mul(2654435761u32),
        (state.1 ^ (unit as u32)).wrapping_mul(1597334677u32),
    )
}

/// The state after all units.
pub open spec fn mix_all(units: Seq<u16>) -> (u32, u32)
    decreases units.len(),
{
    if units.len() == 0 {
        (0xdeadbeefu32, 0x41c6ce57u32)
    } else {
        mix(mix_all(units.drop_last()), units.last())
    }
}

/// Mixes the halves with each other.
pub open spec fn finish(state: (u32, u32)) -> (u32, u32) {
    let a = (state.0 ^ (state.0 >> 16u32)).wrapping_mul(2246822507u32) ^ (state.1 ^ (state.1
        >> 13u32)).wrapping_mul(3266489909u32);
    let b = (state.1 ^ (state.1 >> 16u32)).wrapping_mul(2246822507u32) ^ (a ^ (a
        >> 13u32)).wrapping_mul(3266489909u32);
    (a, b)
}

/// The short hash of a string: both halves in base thirty-six, the second one first.
pub open spec fn hashed(s: Seq<char>) -> Seq<char> {
    let state = finish(mix_all(units(s)));
    digits(state.1 as nat, 36) + digits(state.0 as nat, 36)
}

/// Hashes a string to at most fourteen letters and digits.
pub fn short_hash(s: &str) -> (r: String)
    ensures
        r@ == hashed(s@),
{
    let u = to_units(s);
    let mut a: u32 = 0xdeadbeef;
    let mut b: u32 = 0x41c6ce57;
    let mut i: usize = 0;
    assert(u@.take(0) =~= Seq::empty());
    while i < u.len()
        invariant
            i <= u@.len(),
            (a, b) == mix_all(u@.take(i as int)),
        decreases u@.len() - i,
    {
        let unit: u32 = u[i] as u32;
        a = (a ^ unit).wrapping_mul(2654435761);
        b = (b ^ unit).wrapping_mul(1597334677);
        assert(u@.take(i + 1).drop_last() =~= u@.take(i as int));
        i += 1;
    }
    assert(u@.take(i as int) =~= u@);
    let x: u32 = (a ^ (a >> 16)).wrapping_mul(2246822507) ^ (b ^ (b >> 13)).wrapping_mul(
        3266489909,
    );
    let y: u32 = (b ^ (b >> 16)).wrapping_mul(2246822507) ^ (x ^ (x >> 13)).wrapping_mul(
        3266489909,
    );
    let mut r = to_digits(y as u64, 36);
    let low = to_digits(x as u64, 36);
    r.push_str(low.as_str());
    r
}

} // verus!
