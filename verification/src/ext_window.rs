//! A snapshot of another application's window, as the behaviour core sees
//! it: an identity handle, a display name, a captured image and an on-screen
//! rectangle.
//!
//! Enumerating windows and capturing their contents is operating-system
//! work; the host performs it and builds these plain values. The filtering
//! rules -- discarding entirely black captures and denied window names --
//! are computed here, verified.

use vstd::prelude::*;
use vstd::string::StringSliceAdditionalSpecFns;

use crate::image_asset::GLTexPixel;
use crate::image_asset::ImageAsset;
use crate::util::RectI;

verus! {

/// A window candidate: a freshly captured snapshot of someone else's window.
#[derive(Debug, Clone, PartialEq)]
pub struct ExtWindowInfo {
    /// Opaque identity handle, as the host's window system names windows.
    pub hwnd: i64,
    pub window_name: String,
    pub img: ImageAsset,
    pub rect: RectI,
}

impl ExtWindowInfo {
    pub fn img(&self) -> (r: &ImageAsset)
        ensures
            *r == self.img,
    {
        &self.img
    }

    pub fn rect(&self) -> (r: RectI)
        ensures
            r == self.rect,
    {
        self.rect
    }

    pub fn name(&self) -> (r: &str)
        ensures
            r@ == self.window_name@,
    {
        self.window_name.as_str()
    }
}

/// Every 97th pixel of the buffer is pure black (alpha ignored).
pub open spec fn sampled_black(s: Seq<GLTexPixel>) -> bool {
    forall|i: int|
        0 <= i < s.len() && i % 97 == 0 ==> {
            let p = #[trigger] s[i];
            p.r == 0 && p.g == 0 && p.b == 0
        }
}

/// The black-capture filter applied to window candidates: a capture whose
/// sampled pixels are all black is discarded by the host as unusable.
pub fn image_sampled_black(img: &ImageAsset) -> (r: bool)
    ensures
        r == sampled_black(img.data@),
{
    let n = img.data.len();
    let mut i: usize = 0;
    while i < n
        invariant
            n == img.data@.len(),
            i <= n,
            i % 97 == 0 || i == n,
            forall|j: int|
                0 <= j < i && j % 97 == 0 ==> {
                    let p = #[trigger] img.data@[j];
                    p.r == 0 && p.g == 0 && p.b == 0
                },
        decreases n - i,
    {
        let p = img.data[i];
        if p.r != 0 || p.g != 0 || p.b != 0 {
            return false;
        }
        proof {
            assert forall|j: int| i < j < i + 97 implies #[trigger] (j % 97) != 0 by {
                assert(j % 97 == j - i) by (nonlinear_arith)
                    requires
                        i as int % 97 == 0,
                        i < j < i + 97,
                        0 <= i,
                ;
            }
        }
        if n - i <= 97 {
            i = n;
        } else {
            i = i + 97;
        }
    }
    true
}

/// Title of the overlay's own window.
pub const SELF_WINDOW_TITLE: &'static str = "silly little creature :3";

/// Byte-for-byte equality of two strings.
fn str_bytes_equal(a: &str, b: &str) -> (r: bool)
    ensures
        r == (a.spec_bytes() == b.spec_bytes()),
{
    let ab = a.as_bytes();
    let bb = b.as_bytes();
    if ab.len() != bb.len() {
        return false;
    }
    let n = ab.len();
    let mut i: usize = 0;
    while i < n
        invariant
            n == ab@.len() == bb@.len(),
            i <= n,
            ab@ == a.spec_bytes(),
            bb@ == b.spec_bytes(),
            forall|j: int| 0 <= j < i ==> ab@[j] == #[trigger] bb@[j],
        decreases n - i,
    {
        if ab[i] != bb[i] {
            return false;
        }
        i = i + 1;
    }
    proof {
        assert(a.spec_bytes() =~= b.spec_bytes());
    }
    true
}

/// The name-based deny rule applied to window candidates alongside the
/// black-capture filter: the overlay's own window is never a hiding place,
/// and the OS settings window is excluded because its captures misbehave.
pub fn candidate_name_allowed(name: &str) -> (r: bool)
    ensures
        r == (name.spec_bytes() != SELF_WINDOW_TITLE.spec_bytes() && name.spec_bytes()
            != "Settings".spec_bytes()),
{
    !str_bytes_equal(name, SELF_WINDOW_TITLE) && !str_bytes_equal(name, "Settings")
}

} // verus!
