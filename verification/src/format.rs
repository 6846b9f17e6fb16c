//! Pixel layouts and the buffer formats the server advertises.

use vstd::prelude::*;

verus! {

/// A pixel layout tag.  The supported layouts are the 32-bit ones with
/// alpha-first, red-first, or blue-first channel order; anything else the
/// server advertises is carried as `Other` with its raw protocol code.
#[derive(Clone, Copy, Debug, PartialEq, Eq, Structural)]
pub enum PixelFormat {
    /// 32-bit, alpha, red, green, blue (little-endian byte order b, g, r, a).
    Argb8888,
    /// 32-bit, padding, red, green, blue (little-endian byte order b, g, r, x).
    Xrgb8888,
    /// 32-bit, padding, blue, green, red (little-endian byte order r, g, b, x).
    Xbgr8888,
    /// Any other advertised layout, by its raw protocol code.
    Other(u32),
}

/// A buffer format advertised by the server during negotiation.
#[derive(Clone, Copy, Debug, PartialEq, Eq, Structural)]
pub struct FrameFormat {
    /// The pixel layout of the buffer.
    pub format: PixelFormat,
    /// Width of the frame in pixels.
    pub width: u32,
    /// Height of the frame in pixels.
    pub height: u32,
    /// Bytes per row, including any padding.
    pub stride: u32,
}

/// Whether a pixel layout is one the pipeline can normalize and encode.
pub open spec fn is_supported(pf: PixelFormat) -> bool {
    pf == PixelFormat::Argb8888 || pf == PixelFormat::Xrgb8888 || pf == PixelFormat::Xbgr8888
}

/// Whether normalization must swap the first and third byte of every pixel
/// to reach the red, green, blue, alpha order the encoder expects.
pub open spec fn spec_needs_swap(pf: PixelFormat) -> bool {
    pf == PixelFormat::Argb8888 || pf == PixelFormat::Xrgb8888
}

impl PixelFormat {
    /// Whether this layout is in the supported set.
    pub fn supported(&self) -> (r: bool)
        ensures
            r == is_supported(*self),
    {
        match self {
            PixelFormat::Argb8888 => true,
            PixelFormat::Xrgb8888 => true,
            PixelFormat::Xbgr8888 => true,
            PixelFormat::Other(_) => false,
        }
    }

    /// Whether buffers in this layout arrive with their channels reversed
    /// relative to the encoder's red, green, blue, alpha order.
    pub fn needs_swap(&self) -> (r: bool)
        ensures
            r == spec_needs_swap(*self),
    {
        match self {
            PixelFormat::Argb8888 => true,
            PixelFormat::Xrgb8888 => true,
            _ => false,
        }
    }
}

/// The first advertised format whose layout is supported, in advertisement
/// order, or `None` when no advertised layout is supported.
pub open spec fn first_supported(s: Seq<FrameFormat>) -> Option<FrameFormat>
    decreases s.len(),
{
    if s.len() == 0 {
        None
    } else if is_supported(s[0].format) {
        Some(s[0])
    } else {
        first_supported(s.drop_first())
    }
}

impl FrameFormat {
    /// The exact byte length a destination buffer for this format needs:
    /// one stride per row.
    pub open spec fn spec_byte_len(self) -> int {
        self.stride * self.height
    }

    /// The byte length of a destination buffer for this format, computed as
    /// `stride * height`; always exact, since the product of two 32-bit
    /// values fits in 64 bits.
    pub fn byte_len(&self) -> (r: u64)
        ensures
            r == self.spec_byte_len(),
    {
        let s = self.stride as u64;
        let h = self.height as u64;
        proof {
            assert(s * h <= 0xffff_ffff * 0xffff_ffff) by (nonlinear_arith)
                requires
                    s <= 0xffff_ffff,
                    h <= 0xffff_ffff,
            ;
        }
        s * h
    }
}

/// Selects the first advertised format whose pixel layout is supported.
///
/// Returns `None` exactly when no advertised entry has a supported layout.
pub fn select_format(formats: &Vec<FrameFormat>) -> (r: Option<FrameFormat>)
    ensures
        r == first_supported(formats@),
        r is None <==> (forall|i: int| 0 <= i < formats@.len() ==> !is_supported(formats@[i].format)),
        r matches Some(f) ==> exists|i: int|
            0 <= i < formats@.len() && formats@[i] == f && is_supported(f.format)
                && (forall|j: int| 0 <= j < i ==> !is_supported(formats@[j].format)),
{
    let n = formats.len();
    proof {
        assert(formats@.skip(0) =~= formats@);
    }
    let mut i: usize = 0;
    while i < n
        invariant
            i <= n,
            n == formats@.len(),
            forall|j: int| 0 <= j < i ==> !is_supported(formats@[j].format),
            first_supported(formats@) == first_supported(formats@.skip(i as int)),
        decreases n - i,
    {
        let f = formats[i];
        if f.format.supported() {
            proof {
                assert(formats@.skip(i as int)[0] == formats@[i as int]);
                lemma_first_supported_of_suffix(formats@, i as int);
            }
            return Some(f);
        }
        proof {
            assert(formats@.skip(i as int).drop_first() =~= formats@.skip(i as int + 1));
        }
        i = i + 1;
    }
    proof {
        assert(formats@.skip(n as int) =~= Seq::<FrameFormat>::empty());
    }
    None
}

/// Helper for `select_format`: when the entry at `i` is supported, the
/// first supported format of the suffix starting at `i` is exactly that
/// entry.
proof fn lemma_first_supported_of_suffix(s: Seq<FrameFormat>, i: int)
    requires
        0 <= i < s.len(),
        is_supported(s[i].format),
    ensures
        first_supported(s.skip(i)) == Some(s[i]),
{
    assert(s.skip(i)[0] == s[i]);
}

/// No advertised format is selected exactly when none has a supported
/// layout.
pub proof fn lemma_first_supported_none_iff(s: Seq<FrameFormat>)
    ensures
        first_supported(s) is None <==> (forall|i: int|
            0 <= i < s.len() ==> !is_supported(s[i].format)),
    decreases s.len(),
{
    if s.len() == 0 {
    } else if is_supported(s[0].format) {
        assert(!(forall|i: int| 0 <= i < s.len() ==> !is_supported(s[i].format))) by {
            assert(0 <= 0 < s.len() && is_supported(s[0].format));
        }
    } else {
        lemma_first_supported_none_iff(s.drop_first());
        let t = s.drop_first();
        assert(forall|i: int| 0 <= i < t.len() ==> t[i] == s[i + 1]);
        if forall|i: int| 0 <= i < t.len() ==> !is_supported(t[i].format) {
            assert forall|i: int| 0 <= i < s.len() implies !is_supported(s[i].format) by {
                if i > 0 {
                    assert(t[i - 1] == s[i]);
                }
            }
        } else {
            let i = choose|i: int| 0 <= i < t.len() && is_supported(t[i].format);
            assert(is_supported(s[i + 1].format));
        }
    }
}

/// When the entry at `k` is supported and every earlier entry is not, the
/// first supported format of the whole list is exactly that entry.
pub proof fn lemma_first_supported_at(s: Seq<FrameFormat>, k: int)
    requires
        0 <= k < s.len(),
        is_supported(s[k].format),
        forall|j: int| 0 <= j < k ==> !is_supported(s[j].format),
    ensures
        first_supported(s) == Some(s[k]),
    decreases k,
{
    if k > 0 {
        let t = s.drop_first();
        assert(forall|i: int| 0 <= i < t.len() ==> t[i] == s[i + 1]);
        assert forall|j: int| 0 <= j < k - 1 implies !is_supported(t[j].format) by {
            assert(t[j] == s[j + 1]);
        }
        lemma_first_supported_at(t, k - 1);
        assert(t[k - 1] == s[k]);
    }
}

} // verus!
