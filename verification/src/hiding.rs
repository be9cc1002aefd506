//! The hiding-spot finder.
//!
//! A captured window image is downscaled and run through an edge detector by
//! the host (the detector's thresholds are floating point, which this crate
//! does not touch); the resulting binary edge mask arrives here as a
//! [`GrayBuf`]. The finder walks the mask along a randomly chosen row or
//! column, cyclically, looking for a thin (one or two cells wide) run of edge
//! pixels whose line continues sideways for the whole safe-zone depth while
//! both flanks stay clear. The accepted point is the middle of the run,
//! shifted sideways by half the clearance slack, and the facing is derived
//! from the scan axis and direction.

use vstd::prelude::*;

use crate::ext_window::ExtWindowInfo;
use crate::image_asset::grayscale_rgba;
use crate::image_asset::luma_of;
use crate::image_asset::resize_rgba;
use crate::image_asset::resized_rgba_of;
use crate::image_asset::GrayBuf;
use crate::image_asset::ImageAsset;
use crate::rng::rand_between;
use crate::rng::rand_coin;
use crate::util::Vec2I;

verus! {

/// Factor by which the captured image is downscaled before edge detection.
pub const FIRST_PASS_SCALEDOWN: u32 = 4;

/// Width of the clear zone a hiding spot must offer, in full-scale units.
pub const SAFE_ZONE_W: u32 = 20;

/// Height of the clear zone a hiding spot must offer, in full-scale units.
pub const SAFE_ZONE_H: u32 = 40;

/// Number of random trials before the search gives up.
pub const SEARCH_TRIES: u32 = 100;

/// Margin kept from the vertical mask edges, in downscaled units.
pub const XMAR: u32 = SAFE_ZONE_W / FIRST_PASS_SCALEDOWN;

/// Margin kept from the horizontal mask edges, in downscaled units.
pub const YMAR: u32 = SAFE_ZONE_H / FIRST_PASS_SCALEDOWN;

/// Extra margin around the sampled trial points.
pub const SAFETY_MAR: u32 = 2;

/// The direction the creature peeks toward once hidden.
#[derive(Debug, Clone, Copy, PartialEq, Eq, Structural)]
pub enum Facing {
    Left,
    Right,
    Up,
    Down,
}

impl Facing {
    pub fn is_horizontal(self) -> (r: bool)
        ensures
            r == (self is Left || self is Right),
    {
        matches!(self, Facing::Left | Facing::Right)
    }

    pub fn is_vertical(self) -> (r: bool)
        ensures
            r == (self is Up || self is Down),
    {
        matches!(self, Facing::Up | Facing::Down)
    }

    pub fn is_up(self) -> (r: bool)
        ensures
            r == (self is Up),
    {
        matches!(self, Facing::Up)
    }

    pub fn is_down(self) -> (r: bool)
        ensures
            r == (self is Down),
    {
        matches!(self, Facing::Down)
    }

    pub fn is_left(self) -> (r: bool)
        ensures
            r == (self is Left),
    {
        matches!(self, Facing::Left)
    }

    pub fn is_right(self) -> (r: bool)
        ensures
            r == (self is Right),
    {
        matches!(self, Facing::Right)
    }
}

/// The facing that a scan along the given axis and direction yields.
pub open spec fn facing_of(horiz: bool, rev: bool) -> Facing {
    if horiz {
        if rev {
            Facing::Left
        } else {
            Facing::Right
        }
    } else {
        if rev {
            Facing::Up
        } else {
            Facing::Down
        }
    }
}

/// No cell of the mask is lit.
pub open spec fn mask_blank(m: GrayBuf) -> bool {
    forall|x: int, y: int|
        0 <= x < m.width && 0 <= y < m.height ==> !#[trigger] m.on(x, y)
}

/// The cell at axis position `i` of the row/column whose perpendicular
/// coordinate is `c`: rows are scanned when `horiz` (so `c` is the y
/// coordinate), columns otherwise.
pub open spec fn axis_cell(m: GrayBuf, horiz: bool, c: int, i: int) -> bool {
    if horiz {
        m.on(i, c)
    } else {
        m.on(c, i)
    }
}

/// At perpendicular coordinate `c`, both anchor cells are clear and every
/// cell strictly between them is lit: the thin line goes on, with nothing
/// beside it.
pub open spec fn col_ok(m: GrayBuf, horiz: bool, c: int, imin: int, imax: int) -> bool {
    &&& !axis_cell(m, horiz, c, imin)
    &&& !axis_cell(m, horiz, c, imax)
    &&& forall|ii: int| imin < ii < imax ==> #[trigger] axis_cell(m, horiz, c, ii)
}

/// Every perpendicular coordinate of `c_lo..=c_hi` satisfies [`col_ok`].
pub open spec fn band_clear(m: GrayBuf, horiz: bool, c_lo: int, c_hi: int, imin: int, imax: int) -> bool {
    forall|c: int| c_lo <= c <= c_hi ==> #[trigger] col_ok(m, horiz, c, imin, imax)
}

/// First axis position of a scan (the margin).
pub open spec fn axis_lo(horiz: bool) -> int {
    if horiz {
        XMAR as int
    } else {
        YMAR as int
    }
}

/// One past the last axis position of a scan.
pub open spec fn axis_hi(m: GrayBuf, horiz: bool) -> int {
    if horiz {
        m.width - XMAR
    } else {
        m.height - YMAR
    }
}

/// Extent of the perpendicular coordinate.
pub open spec fn perp_dim(m: GrayBuf, horiz: bool) -> int {
    if horiz {
        m.height as int
    } else {
        m.width as int
    }
}

/// Clear depth a spot must offer across the scan axis, in downscaled units.
pub open spec fn safe_zone_len(horiz: bool) -> int {
    if horiz {
        (SAFE_ZONE_H / FIRST_PASS_SCALEDOWN) as int
    } else {
        (SAFE_ZONE_W / FIRST_PASS_SCALEDOWN) as int
    }
}

/// Signed halving that rounds toward zero, as the accepted point's sideways
/// offset is computed.
pub open spec fn half_toward_zero(a: int) -> int {
    if a >= 0 {
        a / 2
    } else {
        -((-a) / 2)
    }
}

/// Everything the scan establishes about an accepted spot: where the thin
/// run sat (`i0` the tracked run start, `i1` the clear cell that ended it),
/// and how deep each flank of the line stayed acceptable (`b0` toward
/// negative, `b1` toward positive perpendicular offsets).
pub struct SpotWitness {
    pub horiz: bool,
    pub rev: bool,
    pub perp: int,
    pub i0: int,
    pub i1: int,
    pub b0: int,
    pub b1: int,
}

impl SpotWitness {
    pub open spec fn imin(self) -> int {
        if self.i0 < self.i1 {
            self.i0
        } else {
            self.i1
        }
    }

    pub open spec fn imax(self) -> int {
        if self.i0 < self.i1 {
            self.i1
        } else {
            self.i0
        }
    }

    /// Axis coordinate of the accepted point: the middle of the run.
    pub open spec fn spot_axis(self) -> int {
        (self.i0 + self.i1) / 2
    }

    /// Perpendicular coordinate of the accepted point: shifted by half the
    /// clearance slack toward the clearer side.
    pub open spec fn spot_perp(self) -> int {
        self.perp + half_toward_zero(self.b1 - self.b0)
    }

    pub open spec fn spot_x(self) -> int {
        if self.horiz {
            self.spot_axis()
        } else {
            self.spot_perp()
        }
    }

    pub open spec fn spot_y(self) -> int {
        if self.horiz {
            self.spot_perp()
        } else {
            self.spot_axis()
        }
    }
}

/// The geometric acceptance test, exactly as the scan performs it.
pub open spec fn witness_ok(m: GrayBuf, w: SpotWitness) -> bool {
    let safe = safe_zone_len(w.horiz);
    &&& axis_lo(w.horiz) <= w.i0 < axis_hi(m, w.horiz)
    &&& axis_lo(w.horiz) <= w.i1 < axis_hi(m, w.horiz)
    &&& w.imax() - w.imin() <= 3
    &&& (forall|ii: int|
        w.imin() < ii < w.imax() ==> #[trigger] axis_cell(m, w.horiz, w.perp, ii))
    &&& safe - 1 <= w.perp < perp_dim(m, w.horiz) - (safe - 1)
    &&& !axis_cell(m, w.horiz, w.perp, w.i1)
    &&& 0 <= w.b0 <= safe - 1
    &&& 0 <= w.b1 <= safe - 1
    &&& w.b0 + w.b1 >= safe
    &&& band_clear(m, w.horiz, w.perp - w.b0, w.perp - 1, w.imin(), w.imax())
    &&& band_clear(m, w.horiz, w.perp + 1, w.perp + w.b1, w.imin(), w.imax())
}

/// `p` (in mask coordinates) with facing `f` passes the acceptance test.
pub open spec fn valid_spot(m: GrayBuf, p: Vec2I, f: Facing) -> bool {
    exists|w: SpotWitness|
        {
            &&& #[trigger] witness_ok(m, w)
            &&& p.x == w.spot_x()
            &&& p.y == w.spot_y()
            &&& f == facing_of(w.horiz, w.rev)
        }
}

/// Lit-test with the axis/perpendicular addressing of a scan.
fn probe(m: &GrayBuf, horiz: bool, c: u32, i: u32) -> (r: bool)
    requires
        m.wf(),
        horiz ==> i < m.width && c < m.height,
        !horiz ==> c < m.width && i < m.height,
    ensures
        r == axis_cell(*m, horiz, c as int, i as int),
{
    if horiz {
        m.at_on(i, c)
    } else {
        m.at_on(c, i)
    }
}

/// Executable counterpart of [`col_ok`].
fn col_clear(m: &GrayBuf, horiz: bool, c: u32, imin: u32, imax: u32) -> (r: bool)
    requires
        m.wf(),
        c < perp_dim(*m, horiz),
        imin <= imax,
        imax < if horiz { m.width } else { m.height },
    ensures
        r == col_ok(*m, horiz, c as int, imin as int, imax as int),
{
    if probe(m, horiz, c, imin) {
        return false;
    }
    if probe(m, horiz, c, imax) {
        return false;
    }
    let mut ii: u32 = imin + 1;
    while ii < imax
        invariant
            m.wf(),
            c < perp_dim(*m, horiz),
            imin < ii <= imax || (imin == imax && ii == imin + 1),
            imax < if horiz { m.width } else { m.height },
            forall|t: int| imin < t < ii ==> #[trigger] axis_cell(*m, horiz, c as int, t),
        decreases imax - ii,
    {
        if !probe(m, horiz, c, ii) {
            return false;
        }
        ii = ii + 1;
    }
    true
}

/// How many perpendicular steps away from the run, on one side, the
/// acceptance test keeps passing (at most `safe - 1`).
fn clear_depth(m: &GrayBuf, horiz: bool, perp: u32, imin: u32, imax: u32, neg: bool, safe: u32) -> (b:
    u32)
    requires
        m.wf(),
        1 <= safe,
        safe - 1 <= perp < perp_dim(*m, horiz) - (safe - 1),
        imin <= imax,
        imax < if horiz { m.width } else { m.height },
    ensures
        b <= safe - 1,
        neg ==> band_clear(*m, horiz, perp - b, perp - 1, imin as int, imax as int),
        !neg ==> band_clear(*m, horiz, perp + 1, perp + b, imin as int, imax as int),
        neg && band_clear(*m, horiz, perp - (safe - 1), perp - 1, imin as int, imax as int) ==> b
            == safe - 1,
        !neg && band_clear(*m, horiz, perp + 1, perp + (safe - 1), imin as int, imax as int) ==> b
            == safe - 1,
{
    let mut j: u32 = 1;
    while j < safe
        invariant
            m.wf(),
            1 <= j <= safe,
            safe - 1 <= perp < perp_dim(*m, horiz) - (safe - 1),
            imin <= imax,
            imax < if horiz { m.width } else { m.height },
            neg ==> band_clear(*m, horiz, perp - (j - 1), perp - 1, imin as int, imax as int),
            !neg ==> band_clear(*m, horiz, perp + 1, perp + (j - 1), imin as int, imax as int),
        decreases safe - j,
    {
        let c: u32 = if neg {
            perp - j
        } else {
            perp + j
        };
        if !col_clear(m, horiz, c, imin, imax) {
            return j - 1;
        }
        j = j + 1;
    }
    safe - 1
}

/// Exec counterpart of [`safe_zone_len`].
fn safe_zone(horiz: bool) -> (r: u32)
    ensures
        r == safe_zone_len(horiz),
        1 <= r <= YMAR,
{
    if horiz {
        SAFE_ZONE_H / FIRST_PASS_SCALEDOWN
    } else {
        SAFE_ZONE_W / FIRST_PASS_SCALEDOWN
    }
}

/// Decide whether the thin run bracketed by `i0`/`i1` is an acceptable
/// hiding line, and if so compute the spot and facing.
fn try_accept(m: &GrayBuf, horiz: bool, rev: bool, perp: u32, i0: u32, i1: u32) -> (r: Option<
    (Vec2I, Facing)>)
    requires
        m.wf(),
        axis_lo(horiz) <= i0 < axis_hi(*m, horiz),
        axis_lo(horiz) <= i1 < axis_hi(*m, horiz),
        safe_zone_len(horiz) - 1 <= perp < perp_dim(*m, horiz) - (safe_zone_len(horiz) - 1),
        !axis_cell(*m, horiz, perp as int, i1 as int),
        ({
            let imin = if i0 < i1 {
                i0 as int
            } else {
                i1 as int
            };
            let imax = if i0 < i1 {
                i1 as int
            } else {
                i0 as int
            };
            &&& imax - imin <= 3
            &&& (forall|ii: int|
                imin < ii < imax ==> #[trigger] axis_cell(*m, horiz, perp as int, ii))
        }),
    ensures
        r matches Some((p, f)) ==> {
            &&& valid_spot(*m, p, f)
            &&& f == facing_of(horiz, rev)
            &&& 0 <= p.x < m.width
            &&& 0 <= p.y < m.height
        },
        ({
            let safe = safe_zone_len(horiz);
            let imin = if i0 < i1 {
                i0 as int
            } else {
                i1 as int
            };
            let imax = if i0 < i1 {
                i1 as int
            } else {
                i0 as int
            };
            band_clear(*m, horiz, perp - (safe - 1), perp - 1, imin, imax) && band_clear(
                *m,
                horiz,
                perp + 1,
                perp + (safe - 1),
                imin,
                imax,
            ) ==> (r matches Some((p, f2)) && {
                &&& f2 == facing_of(horiz, rev)
                &&& if horiz {
                    p.x == (i0 + i1) / 2 && p.y == perp
                } else {
                    p.x == perp && p.y == (i0 + i1) / 2
                }
            })
        }),
{
    let safe = safe_zone(horiz);
    let imin: u32 = if i0 < i1 {
        i0
    } else {
        i1
    };
    let imax: u32 = if i0 < i1 {
        i1
    } else {
        i0
    };
    let b0 = clear_depth(m, horiz, perp, imin, imax, true, safe);
    let b1 = clear_depth(m, horiz, perp, imin, imax, false, safe);
    if b0 + b1 >= safe {
        let mid: u32 = (i0 + i1) / 2;
        let pf: u32 = if b1 >= b0 {
            perp + (b1 - b0) / 2
        } else {
            perp - (b0 - b1) / 2
        };
        let p = if horiz {
            Vec2I { x: mid as i32, y: pf as i32 }
        } else {
            Vec2I { x: pf as i32, y: mid as i32 }
        };
        let f = if horiz {
            if rev {
                Facing::Left
            } else {
                Facing::Right
            }
        } else {
            if rev {
                Facing::Up
            } else {
                Facing::Down
            }
        };
        proof {
            let w = SpotWitness {
                horiz,
                rev,
                perp: perp as int,
                i0: i0 as int,
                i1: i1 as int,
                b0: b0 as int,
                b1: b1 as int,
            };
            assert(witness_ok(*m, w));
            assert(p.x == w.spot_x() && p.y == w.spot_y());
        }
        Some((p, f))
    } else {
        None
    }
}

/// Everything the scan promises of an accepted result.
pub open spec fn scan_hit_ok(m: GrayBuf, horiz: bool, rev: bool, p: Vec2I, f: Facing) -> bool {
    &&& valid_spot(m, p, f)
    &&& f == facing_of(horiz, rev)
    &&& 0 <= p.x < m.width
    &&& 0 <= p.y < m.height
}

/// The scanned line holds exactly one run of lit cells: `n` cells from
/// `a`, with a clear cell on each side inside the scan range and nothing
/// else lit anywhere on the line.
pub open spec fn single_run(m: GrayBuf, horiz: bool, perp: int, a: int, n: int) -> bool {
    let lo = axis_lo(horiz);
    let hi = axis_hi(m, horiz);
    &&& lo <= a - 1
    &&& a + n <= hi - 1
    &&& 1 <= n <= 2
    &&& forall|i: int| a <= i < a + n ==> #[trigger] axis_cell(m, horiz, perp, i)
    &&& forall|i: int|
        lo <= i < hi && !(a <= i < a + n) ==> !#[trigger] axis_cell(m, horiz, perp, i)
}

/// Full safe-zone clearance on both flanks of the run's anchor cells.
pub open spec fn run_flanks_clear(m: GrayBuf, horiz: bool, perp: int, a: int, n: int) -> bool {
    let safe = safe_zone_len(horiz);
    &&& band_clear(m, horiz, perp - (safe - 1), perp - 1, a - 1, a + n)
    &&& band_clear(m, horiz, perp + 1, perp + (safe - 1), a - 1, a + n)
}

/// A thin run bracketed by clear cells, whose flanks are clear for the
/// whole safe zone: any walk that crosses it completely accepts.
pub open spec fn accepting_run(m: GrayBuf, horiz: bool, perp: int, a: int, n: int) -> bool {
    let lo = axis_lo(horiz);
    let hi = axis_hi(m, horiz);
    &&& lo <= a - 1
    &&& a + n <= hi - 1
    &&& 1 <= n <= 2
    &&& !axis_cell(m, horiz, perp, a - 1)
    &&& !axis_cell(m, horiz, perp, a + n)
    &&& (forall|i: int| a <= i < a + n ==> #[trigger] axis_cell(m, horiz, perp, i))
    &&& run_flanks_clear(m, horiz, perp, a, n)
}

/// Where the accepted point of a lone fully-cleared run must lie: on the
/// run itself (the middle of its two bracketing clear cells), with no
/// sideways shift, since both flanks offer the same full clearance.
pub open spec fn on_run_spot(horiz: bool, perp: int, a: int, n: int, p: Vec2I) -> bool {
    let axis = (2 * a + n - 1) / 2;
    if horiz {
        p.x == axis && p.y == perp
    } else {
        p.x == perp && p.y == axis
    }
}

/// The perpendicular coordinate a scan from `(sx, sy)` keeps fixed.
pub open spec fn scan_perp(horiz: bool, sx: u32, sy: u32) -> int {
    if horiz {
        sy as int
    } else {
        sx as int
    }
}

/// The axis coordinate a scan from `(sx, sy)` starts at.
pub open spec fn scan_start(horiz: bool, sx: u32, sy: u32) -> int {
    if horiz {
        sx as int
    } else {
        sy as int
    }
}

/// Run tracking carried across the two segments of a cyclic scan.
struct ScanState {
    n_edge: u32,
    edge_start: u32,
}

/// Walk the axis positions `u..v` in ascending order, extending or ending
/// the tracked run at each cell and deciding each thin run that ends.
fn scan_segment_up(
    m: &GrayBuf,
    horiz: bool,
    rev: bool,
    perp: u32,
    u: u32,
    v: u32,
    st: &mut ScanState,
) -> (r: Option<(Vec2I, Facing)>)
    requires
        m.wf(),
        axis_lo(horiz) <= u,
        u <= v,
        v <= axis_hi(*m, horiz),
        axis_lo(horiz) <= old(st).edge_start < axis_hi(*m, horiz),
        old(st).n_edge <= 0x10000,
        safe_zone_len(horiz) - 1 <= perp < perp_dim(*m, horiz) - (safe_zone_len(horiz) - 1),
        old(st).edge_start < u && (u - old(st).edge_start == old(st).n_edge + 1 || (old(
            st,
        ).n_edge >= 1 && u - old(st).edge_start == old(st).n_edge)) ==> (forall|t: int|
            old(st).edge_start < t < u ==> #[trigger] axis_cell(*m, horiz, perp as int, t)),
    ensures
        r matches Some((p, f)) ==> scan_hit_ok(*m, horiz, rev, p, f),
        axis_lo(horiz) <= final(st).edge_start < axis_hi(*m, horiz),
        final(st).n_edge <= old(st).n_edge + (v - u),
        old(st).n_edge == 0 && (forall|t: int|
            u <= t < v ==> !#[trigger] axis_cell(*m, horiz, perp as int, t)) ==> r is None
            && final(st).n_edge == 0,
        forall|a: int, n: int|
            #[trigger] single_run(*m, horiz, perp as int, a, n) && run_flanks_clear(
                *m,
                horiz,
                perp as int,
                a,
                n,
            ) && u <= a - 1 && a + n < v && old(st).n_edge == 0 ==> (r matches Some((p, f)) && f
                == facing_of(horiz, rev) && on_run_spot(horiz, perp as int, a, n, p)),
        forall|a: int, n: int|
            #[trigger] accepting_run(*m, horiz, perp as int, a, n) && u <= a - 1 && a + n < v
                ==> r is Some,
{
    let ghost entry_n = st.n_edge;
    let mut i: u32 = u;
    while i < v
        invariant
            m.wf(),
            axis_lo(horiz) <= u,
            u <= i <= v,
            v <= axis_hi(*m, horiz),
            axis_lo(horiz) <= st.edge_start < axis_hi(*m, horiz),
            st.n_edge <= entry_n + (i - u),
            entry_n == old(st).n_edge,
            entry_n <= 0x10000,
            safe_zone_len(horiz) - 1 <= perp < perp_dim(*m, horiz) - (safe_zone_len(horiz) - 1),
            entry_n == 0 && (forall|t: int|
                u <= t < i ==> !#[trigger] axis_cell(*m, horiz, perp as int, t)) ==> st.n_edge
                == 0,
            forall|a: int, n: int|
                #[trigger] single_run(*m, horiz, perp as int, a, n) && run_flanks_clear(
                    *m,
                    horiz,
                    perp as int,
                    a,
                    n,
                ) && u <= a - 1 && a + n < v && entry_n == 0 ==> {
                    &&& i <= a + n
                    &&& (i <= a - 1 ==> st.n_edge == 0)
                    &&& (a - 1 < i ==> st.n_edge == i - a && st.edge_start == a - 1)
                },
            forall|a: int, n: int|
                #[trigger] accepting_run(*m, horiz, perp as int, a, n) && u <= a - 1 && a + n < v
                    ==> {
                    &&& i <= a + n
                    &&& (a - 1 < i ==> st.n_edge == i - a && st.edge_start == a - 1)
                },
            st.edge_start < i && (i - st.edge_start == st.n_edge + 1 || (st.n_edge >= 1 && i
                - st.edge_start == st.n_edge)) ==> (forall|t: int|
                st.edge_start < t < i ==> #[trigger] axis_cell(*m, horiz, perp as int, t)),
        decreases v - i,
    {
        if probe(m, horiz, perp, i) {
            st.n_edge = st.n_edge + 1;
        } else {
            if 1 <= st.n_edge && st.n_edge <= 2 && st.edge_start < i && (i - st.edge_start
                == st.n_edge + 1 || i - st.edge_start == st.n_edge) {
                let found = try_accept(m, horiz, rev, perp, st.edge_start, i);
                if found.is_some() {
                    return found;
                }
            }
            st.edge_start = i;
            st.n_edge = 0;
        }
        i = i + 1;
    }
    None
}

/// Walk the axis positions `u..v` in descending order, extending or ending
/// the tracked run at each cell and deciding each thin run that ends.
fn scan_segment_down(
    m: &GrayBuf,
    horiz: bool,
    rev: bool,
    perp: u32,
    u: u32,
    v: u32,
    st: &mut ScanState,
) -> (r: Option<(Vec2I, Facing)>)
    requires
        m.wf(),
        axis_lo(horiz) <= u,
        u <= v,
        v <= axis_hi(*m, horiz),
        axis_lo(horiz) <= old(st).edge_start < axis_hi(*m, horiz),
        old(st).n_edge <= 0x10000,
        safe_zone_len(horiz) - 1 <= perp < perp_dim(*m, horiz) - (safe_zone_len(horiz) - 1),
        old(st).edge_start >= v && (old(st).edge_start - v == old(st).n_edge || (old(
            st,
        ).n_edge >= 1 && old(st).edge_start - v + 1 == old(st).n_edge)) ==> (forall|t: int|
            v <= t < old(st).edge_start ==> #[trigger] axis_cell(*m, horiz, perp as int, t)),
    ensures
        r matches Some((p, f)) ==> scan_hit_ok(*m, horiz, rev, p, f),
        axis_lo(horiz) <= final(st).edge_start < axis_hi(*m, horiz),
        final(st).n_edge <= old(st).n_edge + (v - u),
        old(st).n_edge == 0 && (forall|t: int|
            u <= t < v ==> !#[trigger] axis_cell(*m, horiz, perp as int, t)) ==> r is None
            && final(st).n_edge == 0,
        forall|a: int, n: int|
            #[trigger] single_run(*m, horiz, perp as int, a, n) && run_flanks_clear(
                *m,
                horiz,
                perp as int,
                a,
                n,
            ) && u <= a - 1 && a + n < v && old(st).n_edge == 0 ==> (r matches Some((p, f)) && f
                == facing_of(horiz, rev) && on_run_spot(horiz, perp as int, a, n, p)),
        forall|a: int, n: int|
            #[trigger] accepting_run(*m, horiz, perp as int, a, n) && u <= a - 1 && a + n < v
                ==> r is Some,
{
    let ghost entry_n = st.n_edge;
    let mut i: u32 = v;
    while i > u
        invariant
            m.wf(),
            axis_lo(horiz) <= u,
            u <= i <= v,
            v <= axis_hi(*m, horiz),
            axis_lo(horiz) <= st.edge_start < axis_hi(*m, horiz),
            st.n_edge <= entry_n + (v - i),
            entry_n == old(st).n_edge,
            entry_n <= 0x10000,
            safe_zone_len(horiz) - 1 <= perp < perp_dim(*m, horiz) - (safe_zone_len(horiz) - 1),
            entry_n == 0 && (forall|t: int|
                i <= t < v ==> !#[trigger] axis_cell(*m, horiz, perp as int, t)) ==> st.n_edge
                == 0,
            forall|a: int, n: int|
                #[trigger] single_run(*m, horiz, perp as int, a, n) && run_flanks_clear(
                    *m,
                    horiz,
                    perp as int,
                    a,
                    n,
                ) && u <= a - 1 && a + n < v && entry_n == 0 ==> {
                    &&& i >= a
                    &&& (i >= a + n + 1 ==> st.n_edge == 0)
                    &&& (i <= a + n ==> st.n_edge == a + n - i && st.edge_start == a + n)
                },
            forall|a: int, n: int|
                #[trigger] accepting_run(*m, horiz, perp as int, a, n) && u <= a - 1 && a + n < v
                    ==> {
                    &&& i >= a
                    &&& (i <= a + n ==> st.n_edge == a + n - i && st.edge_start == a + n)
                },
            st.edge_start >= i && (st.edge_start - i == st.n_edge || (st.n_edge >= 1
                && st.edge_start - i + 1 == st.n_edge)) ==> (forall|t: int|
                i <= t < st.edge_start ==> #[trigger] axis_cell(*m, horiz, perp as int, t)),
        decreases i - u,
    {
        i = i - 1;
        if probe(m, horiz, perp, i) {
            st.n_edge = st.n_edge + 1;
        } else {
            if 1 <= st.n_edge && st.n_edge <= 2 && st.edge_start > i && (st.edge_start - i
                == st.n_edge + 1 || st.edge_start - i == st.n_edge) {
                let found = try_accept(m, horiz, rev, perp, st.edge_start, i);
                if found.is_some() {
                    return found;
                }
            }
            st.edge_start = i;
            st.n_edge = 0;
        }
    }
    None
}

/// One cyclic walk of the mask from `(sx, sy)`, along a row when `horiz`
/// and a column otherwise, in descending order when `rev`: the walk covers
/// the remainder of the scan range and then wraps to cover the rest.
/// Returns the first acceptable spot the walk finds. Success is owed
/// whenever the scanned line holds exactly one thin run whose flanks are
/// clear for the whole safe zone and the start point does not sit on the
/// run or on the clear cell the walk must step onto to end it; the
/// accepted point then lies on the run itself, with no sideways shift.
pub fn scan_trial(m: &GrayBuf, sx: u32, sy: u32, horiz: bool, rev: bool) -> (r: Option<
    (Vec2I, Facing)>)
    requires
        m.wf(),
        m.width >= 15,
        m.height >= 25,
        XMAR + SAFETY_MAR <= sx < m.width - XMAR - SAFETY_MAR,
        YMAR + SAFETY_MAR <= sy < m.height - YMAR - SAFETY_MAR,
    ensures
        r matches Some((p, f)) ==> {
            &&& valid_spot(*m, p, f)
            &&& f == facing_of(horiz, rev)
            &&& 0 <= p.x < m.width
            &&& 0 <= p.y < m.height
        },
        mask_blank(*m) ==> r is None,
        forall|a: int, n: int|
            #[trigger] single_run(*m, horiz, scan_perp(horiz, sx, sy), a, n) && run_flanks_clear(
                *m,
                horiz,
                scan_perp(horiz, sx, sy),
                a,
                n,
            ) && (scan_start(horiz, sx, sy) < a - 1 || scan_start(horiz, sx, sy) > a + n) ==> (
            r matches Some((p, f)) && f == facing_of(horiz, rev) && on_run_spot(
                horiz,
                scan_perp(horiz, sx, sy),
                a,
                n,
                p,
            )),
        forall|a: int, n: int|
            #[trigger] accepting_run(*m, horiz, scan_perp(horiz, sx, sy), a, n) && (scan_start(
                horiz,
                sx,
                sy,
            ) < a - 1 || scan_start(horiz, sx, sy) > a + n) ==> r is Some,
{
    let lo: u32 = if horiz {
        XMAR
    } else {
        YMAR
    };
    let hi: u32 = if horiz {
        m.width - XMAR
    } else {
        m.height - YMAR
    };
    let perp: u32 = if horiz {
        sy
    } else {
        sx
    };
    let s: u32 = if horiz {
        sx
    } else {
        sy
    };
    let mut st = ScanState {
        n_edge: if probe(m, horiz, perp, s) {
            1
        } else {
            0
        },
        edge_start: s,
    };
    proof {
        if mask_blank(*m) {
            assert forall|t: int|
                axis_lo(horiz) <= t < axis_hi(*m, horiz) implies !axis_cell(
                *m,
                horiz,
                perp as int,
                t,
            ) by {}
        }
    }
    let r: Option<(Vec2I, Facing)>;
    if !rev {
        let r1 = scan_segment_up(m, horiz, rev, perp, s + 1, hi, &mut st);
        if r1.is_some() {
            r = r1;
        } else {
            r = scan_segment_up(m, horiz, rev, perp, lo, s, &mut st);
        }
    } else {
        let r1 = scan_segment_down(m, horiz, rev, perp, lo, s, &mut st);
        if r1.is_some() {
            r = r1;
        } else {
            r = scan_segment_down(m, horiz, rev, perp, s + 1, hi, &mut st);
        }
    }
    proof {
        assert forall|a: int, n: int|
            accepting_run(*m, horiz, perp as int, a, n) && ((s as int) < a - 1 || (s as int) > a
                + n) implies r is Some by {}
        assert forall|a: int, n: int|
            single_run(*m, horiz, perp as int, a, n) && run_flanks_clear(
                *m,
                horiz,
                perp as int,
                a,
                n,
            ) && ((s as int) < a - 1 || (s as int) > a + n) implies (r matches Some((p, f)) && f
            == facing_of(horiz, rev) && on_run_spot(horiz, perp as int, a, n, p)) by {
            assert(!axis_cell(*m, horiz, perp as int, s as int));
            if !rev {
                if (s as int) > a + n {
                    assert forall|t: int|
                        s + 1 <= t < axis_hi(*m, horiz) implies !axis_cell(
                        *m,
                        horiz,
                        perp as int,
                        t,
                    ) by {}
                }
            } else {
                if (s as int) < a - 1 {
                    assert forall|t: int|
                        axis_lo(horiz) <= t < s implies !axis_cell(*m, horiz, perp as int, t) by {}
                }
            }
        }
    }
    r
}

/// The draw `(perp, start)` lies in the margin-respecting ranges the
/// trial sampler uses, for a scan of the given axis.
pub open spec fn scan_draw_admissible(m: GrayBuf, horiz: bool, perp: int, start: int) -> bool {
    if horiz {
        &&& XMAR + SAFETY_MAR <= start < m.width - XMAR - SAFETY_MAR
        &&& YMAR + SAFETY_MAR <= perp < m.height - YMAR - SAFETY_MAR
    } else {
        &&& XMAR + SAFETY_MAR <= perp < m.width - XMAR - SAFETY_MAR
        &&& YMAR + SAFETY_MAR <= start < m.height - YMAR - SAFETY_MAR
    }
}

/// The scanned line offers, for this start, an accepting run the walk
/// crosses completely, so the trial must succeed.
pub open spec fn start_crosses_a_run(m: GrayBuf, horiz: bool, perp: int, start: int) -> bool {
    exists|a: int, n: int|
        #[trigger] accepting_run(m, horiz, perp, a, n) && (start < a - 1 || start > a + n)
}

/// Whatever axis, direction and start point a trial draws, the scan
/// accepts: every admissible scan line holds accepting runs positioned so
/// that every admitted start crosses one (two disjoint such runs per line
/// suffice). Under this, the search succeeds on its first trial.
pub open spec fn every_trial_accepts(m: GrayBuf) -> bool {
    forall|horiz: bool, perp: int, start: int|
        scan_draw_admissible(m, horiz, perp, start) ==> #[trigger] start_crosses_a_run(
            m,
            horiz,
            perp,
            start,
        )
}

/// First pass of the finder: shrink a captured image by
/// [`FIRST_PASS_SCALEDOWN`] with nearest-neighbour sampling and collapse it
/// to one luma byte per pixel. The host runs its edge detector over the
/// result and hands the binary mask back to
/// [`find_hiding_spot_in_window`].
pub fn downscale_for_detection(img: &ImageAsset) -> (r: GrayBuf)
    requires
        img.wf(),
        FIRST_PASS_SCALEDOWN <= img.dims.x <= 0x8000,
        FIRST_PASS_SCALEDOWN <= img.dims.y <= 0x8000,
    ensures
        r.wf(),
        r.width == img.dims.x as int / FIRST_PASS_SCALEDOWN as int,
        r.height == img.dims.y as int / FIRST_PASS_SCALEDOWN as int,
        r.data@ == luma_of(
            resized_rgba_of(
                img.data@,
                img.dims.x as int,
                img.dims.y as int,
                img.dims.x as int / FIRST_PASS_SCALEDOWN as int,
                img.dims.y as int / FIRST_PASS_SCALEDOWN as int,
            ),
        ),
{
    let nw: u32 = (img.dims.x as u32) / FIRST_PASS_SCALEDOWN;
    let nh: u32 = (img.dims.y as u32) / FIRST_PASS_SCALEDOWN;
    let resized = resize_rgba(img, nw, nh);
    grayscale_rgba(&resized)
}

/// Search the window's downscaled edge mask for a hiding spot, then rescale
/// the accepted point from mask coordinates back through the captured
/// image's pixel space into the window rectangle's coordinate space.
///
/// Fails (returns `None`) when the mask has no room to sample, and always
/// fails on a mask with no edges at all; otherwise up to
/// [`SEARCH_TRIES`] random trials are made.
pub fn find_hiding_spot_in_window(window: &ExtWindowInfo, edges: &GrayBuf) -> (r: Option<
    (Vec2I, Facing)>)
    requires
        edges.wf(),
        window.img.wf(),
        window.img.dims.x <= 0x8000,
        window.img.dims.y <= 0x8000,
        edges.width == window.img.dims.x as int / FIRST_PASS_SCALEDOWN as int,
        edges.height == window.img.dims.y as int / FIRST_PASS_SCALEDOWN as int,
        window.rect.dim.x >= 1,
        window.rect.dim.y >= 1,
    ensures
        r matches Some((p, f)) ==> exists|sp: Vec2I|
            {
                &&& #[trigger] valid_spot(*edges, sp, f)
                &&& p.x == sp.x * FIRST_PASS_SCALEDOWN * window.rect.dim.x / (
                window.img.dims.x as int)
                &&& p.y == sp.y * FIRST_PASS_SCALEDOWN * window.rect.dim.y / (
                window.img.dims.y as int)
            },
        mask_blank(*edges) ==> r is None,
        edges.width < 15 || edges.height < 25 ==> r is None,
        edges.width >= 15 && edges.height >= 25 && every_trial_accepts(*edges) ==> r is Some,
{
    let w = edges.width;
    let h = edges.height;
    if w < 15 || h < 25 {
        return None;
    }
    let horiz_first = rand_coin(1, 2);
    let mut t: u32 = 0;
    while t < SEARCH_TRIES
        invariant
            edges.wf(),
            window.img.wf(),
            window.img.dims.x <= 0x8000,
            window.img.dims.y <= 0x8000,
            edges.width == window.img.dims.x as int / FIRST_PASS_SCALEDOWN as int,
            edges.height == window.img.dims.y as int / FIRST_PASS_SCALEDOWN as int,
            window.rect.dim.x >= 1,
            window.rect.dim.y >= 1,
            w == edges.width,
            h == edges.height,
            w >= 15,
            h >= 25,
            t >= 1 ==> !every_trial_accepts(*edges),
        decreases SEARCH_TRIES - t,
    {
        let sx = rand_between((XMAR + SAFETY_MAR) as u64, (w - XMAR - SAFETY_MAR - 1) as u64) as u32;
        let sy = rand_between((YMAR + SAFETY_MAR) as u64, (h - YMAR - SAFETY_MAR - 1) as u64) as u32;
        let horiz = ((t % 2) == 0) == horiz_first;
        let rev = rand_coin(1, 2);
        if let Some((p, f)) = scan_trial(edges, sx, sy, horiz, rev) {
            proof {
                assert((p.x as int) * (FIRST_PASS_SCALEDOWN as int) * (window.rect.dim.x as int)
                    < 0x8000_0000_0000 && (p.x as int) * (FIRST_PASS_SCALEDOWN as int) * (
                window.rect.dim.x as int) / (window.img.dims.x as int) < window.rect.dim.x)
                    by (nonlinear_arith)
                    requires
                        0 <= p.x,
                        4 * p.x < window.img.dims.x,
                        window.img.dims.x <= 0x8000,
                        1 <= window.rect.dim.x <= 0x7FFF_FFFF,
                ;
                assert((p.y as int) * (FIRST_PASS_SCALEDOWN as int) * (window.rect.dim.y as int)
                    < 0x8000_0000_0000 && (p.y as int) * (FIRST_PASS_SCALEDOWN as int) * (
                window.rect.dim.y as int) / (window.img.dims.y as int) < window.rect.dim.y)
                    by (nonlinear_arith)
                    requires
                        0 <= p.y,
                        4 * p.y < window.img.dims.y,
                        window.img.dims.y <= 0x8000,
                        1 <= window.rect.dim.y <= 0x7FFF_FFFF,
                ;
            }
            let img_w: u64 = window.img.dims.x as u64;
            let img_h: u64 = window.img.dims.y as u64;
            let px: u64 = (p.x as u64) * (FIRST_PASS_SCALEDOWN as u64)
                * (window.rect.dim.x as u64) / img_w;
            let py: u64 = (p.y as u64) * (FIRST_PASS_SCALEDOWN as u64)
                * (window.rect.dim.y as u64) / img_h;
            let out = Vec2I { x: px as i32, y: py as i32 };
            proof {
                assert(valid_spot(*edges, p, f));
            }
            return Some((out, f));
        }
        proof {
            if every_trial_accepts(*edges) {
                let perp = scan_perp(horiz, sx, sy);
                let start = scan_start(horiz, sx, sy);
                assert(scan_draw_admissible(*edges, horiz, perp, start));
                assert(start_crosses_a_run(*edges, horiz, perp, start));
                let (a, n) = choose|a: int, n: int|
                    #[trigger] accepting_run(*edges, horiz, perp, a, n) && (start < a - 1 || start
                        > a + n);
                assert(false);
            }
        }
        t = t + 1;
    }
    None
}

} // verus!
