//! Pixel-channel normalization.
//!
//! The encoder expects pixels in red, green, blue, alpha order, one byte
//! each.  Buffers in a reversed-channel layout are fixed in place by
//! swapping the first and third byte of every complete 4-byte pixel group;
//! buffers already in the target order pass through unchanged.

use vstd::prelude::*;

use crate::format::{is_supported, spec_needs_swap, PixelFormat};

verus! {

/// One byte of the channel-swapped buffer: within every complete 4-byte
/// group the first and third byte trade places; everything else, including
/// a trailing incomplete group, keeps its value.
pub open spec fn swap_at(s: Seq<u8>, i: int) -> u8 {
    if 4 * (i / 4) + 4 <= s.len() {
        if i % 4 == 0 {
            s[i + 2]
        } else if i % 4 == 2 {
            s[i - 2]
        } else {
            s[i]
        }
    } else {
        s[i]
    }
}

/// The buffer with the first and third byte of every complete 4-byte pixel
/// group swapped.
pub open spec fn swapped(s: Seq<u8>) -> Seq<u8> {
    Seq::new(s.len(), |i: int| swap_at(s, i))
}

/// What normalization leaves in the buffer for a supported layout: the
/// channel swap for reversed-channel layouts, the buffer itself otherwise.
pub open spec fn normalized(s: Seq<u8>, pf: PixelFormat) -> Seq<u8> {
    if spec_needs_swap(pf) {
        swapped(s)
    } else {
        s
    }
}

/// The channel swap is an involution: applying it twice to any buffer
/// yields the original buffer.
pub proof fn lemma_swap_involution(s: Seq<u8>)
    ensures
        swapped(swapped(s)) == s,
{
    let t = swapped(swapped(s));
    assert forall|i: int| 0 <= i < s.len() implies t[i] == s[i] by {
        if 4 * (i / 4) + 4 <= s.len() {
            if i % 4 == 0 {
                assert((i + 2) / 4 == i / 4);
                assert((i + 2) % 4 == 2);
            } else if i % 4 == 2 {
                assert((i - 2) / 4 == i / 4);
                assert((i - 2) % 4 == 0);
            }
        }
    }
    assert(t =~= s);
}

/// Normalization is an involution on every supported pixel layout:
/// applying it twice to the same buffer yields the original buffer.
pub proof fn lemma_normalize_involution(s: Seq<u8>, pf: PixelFormat)
    requires
        is_supported(pf),
    ensures
        normalized(normalized(s, pf), pf) == s,
{
    if spec_needs_swap(pf) {
        lemma_swap_involution(s);
    }
}

/// Swaps the first and third byte of every complete 4-byte pixel group, in
/// place, across the entire buffer.
pub fn swap_channels(data: &mut Vec<u8>)
    ensures
        final(data)@ == swapped(old(data)@),
{
    let ghost orig = data@;
    let n: usize = data.len() / 4;
    let mut k: usize = 0;
    while k < n
        invariant
            k <= n,
            n == orig.len() / 4,
            orig.len() <= usize::MAX,
            data@.len() == orig.len(),
            forall|i: int| 0 <= i < 4 * k ==> data@[i] == swapped(orig)[i],
            forall|i: int| 4 * k <= i < orig.len() ==> data@[i] == orig[i],
        decreases n - k,
    {
        proof {
            assert(4 * (n as int) <= orig.len());
        }
        let base: usize = 4 * k;
        let a: u8 = data[base];
        let b: u8 = data[base + 2];
        data[base] = b;
        data[base + 2] = a;
        proof {
            assert forall|i: int| 0 <= i < 4 * (k + 1) implies data@[i] == swapped(orig)[i] by {
                if 4 * k <= i {
                    assert(i / 4 == k as int);
                    assert(4 * (i / 4) + 4 <= orig.len());
                    if i % 4 == 0 {
                        assert(i == 4 * k as int);
                    } else if i % 4 == 2 {
                        assert(i == 4 * k as int + 2);
                    }
                }
            }
        }
        k = k + 1;
    }
    proof {
        assert forall|i: int| 0 <= i < orig.len() implies data@[i] == swapped(orig)[i] by {
            if 4 * (n as int) <= i {
                assert(i / 4 >= n as int);
                assert(4 * (i / 4) + 4 > orig.len());
            }
        }
        assert(data@ =~= swapped(orig));
    }
}

/// Brings a buffer in any supported layout into the encoder's red, green,
/// blue, alpha channel order: reversed-channel layouts get the channel
/// swap, layouts already in the target order pass through unchanged.
pub fn normalize(data: &mut Vec<u8>, pf: PixelFormat)
    requires
        is_supported(pf),
    ensures
        final(data)@ == normalized(old(data)@, pf),
{
    if pf.needs_swap() {
        swap_channels(data);
    }
}

} // verus!
