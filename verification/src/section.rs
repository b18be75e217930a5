//! Sections: logical, possibly inverted windows onto the pixel grid.
//!
//! A section stands for one physically contiguous, electrically ordered
//! run of LEDs inside one strip.  A run may be wired backwards relative
//! to the logical layout; such a section carries `inverted == true` and
//! its logical index `0` addresses the last physical pixel of its window.
//! A section holds no pixels itself: it is a `(start, len, inverted)`
//! triple into the grid's flat storage, and every read or write goes
//! through the bounds-checked grid accessors.

use vstd::prelude::*;

use crate::color::spec_mix;
use crate::color::Rgba;
use crate::grid::PixelGrid;
use crate::GRID_SIZE;

verus! {

/// One endpoint of an integer index range over a section.
#[derive(Clone, Copy, PartialEq, Eq, Structural, Debug)]
pub enum RangeBound {
    Included(usize),
    Excluded(usize),
    Unbounded,
}

/// The index an endpoint resolves to: a half-open `[start, end)` range is
/// produced, so an inclusive start and an exclusive end pass through
/// unchanged, an exclusive start and an inclusive end move one step in,
/// and the unbounded endpoints resolve to `min` and `max`.
pub open spec fn spec_bound_to_num(bound: RangeBound, start: bool, min: int, max: int) -> int {
    match bound {
        RangeBound::Included(n) => if start { n as int } else { n + 1 },
        RangeBound::Excluded(n) => if start { n + 1 } else { n as int },
        RangeBound::Unbounded => if start { min } else { max },
    }
}

/// Resolve one endpoint of an index range to a concrete index.
pub fn bound_to_num(bound: RangeBound, start: bool, min: usize, max: usize) -> (r: usize)
    requires
        spec_bound_to_num(bound, start, min as int, max as int) <= usize::MAX,
    ensures
        r == spec_bound_to_num(bound, start, min as int, max as int),
{
    match bound {
        RangeBound::Included(n) => if start { n } else { n + 1 },
        RangeBound::Excluded(n) => if start { n + 1 } else { n },
        RangeBound::Unbounded => if start { min } else { max },
    }
}

/// A logical window of `len` pixels over the grid's flat storage,
/// starting at physical index `start`, possibly inverted.
#[derive(Clone, Copy, PartialEq, Eq, Structural, Debug)]
pub struct Section {
    pub start: usize,
    pub len: usize,
    pub inverted: bool,
}

impl Section {
    /// The window lies inside the grid.
    pub open spec fn wf(&self) -> bool {
        self.start + self.len <= GRID_SIZE
    }

    /// The physical flat index of logical position `i`: the mirror image
    /// of `i` inside the window when inverted, the identity otherwise.
    pub open spec fn phys(&self, i: int) -> int {
        if self.inverted {
            self.start + self.len - 1 - i
        } else {
            self.start + i
        }
    }

    /// The logical position that physical flat index `j` answers to;
    /// inverse of `phys` inside the window.
    pub open spec fn logical(&self, j: int) -> int {
        if self.inverted {
            self.start + self.len - 1 - j
        } else {
            j - self.start
        }
    }

    /// `phys` sends every logical position into the window, and
    /// `logical` undoes it.
    pub proof fn lemma_phys_in_window(&self, i: int)
        requires
            self.wf(),
            0 <= i < self.len,
        ensures
            self.start <= self.phys(i) < self.start + self.len,
            self.logical(self.phys(i)) == i,
    {
    }

    /// For an inverted section, logical `0` is the last physical pixel
    /// of the window and logical `len - 1` is the first.
    pub proof fn lemma_inverted_aliasing(&self)
        requires
            self.wf(),
            self.inverted,
            self.len >= 1,
        ensures
            self.phys(0) == self.start + self.len - 1,
            self.phys(self.len - 1) == self.start,
    {
    }

    pub fn new(start: usize, len: usize, inverted: bool) -> (r: Section)
        requires
            start + len <= GRID_SIZE,
        ensures
            r == (Section { start, len, inverted }),
    {
        Section { start, len, inverted }
    }

    pub fn len(&self) -> (r: usize)
        ensures
            r == self.len,
    {
        self.len
    }

    pub fn is_empty(&self) -> (r: bool)
        ensures
            r == (self.len == 0),
    {
        self.len == 0
    }

    /// Read the pixel at logical position `i`.
    pub fn get(&self, grid: &PixelGrid, i: usize) -> (r: Rgba)
        requires
            self.wf(),
            grid.wf(),
            i < self.len,
        ensures
            r == grid@[self.phys(i as int)],
    {
        let j: usize = if self.inverted { self.start + self.len - 1 - i } else { self.start + i };
        grid.get_flat(j)
    }

    /// Overwrite the pixel at logical position `i`.
    pub fn set(&self, grid: &mut PixelGrid, i: usize, v: Rgba)
        requires
            self.wf(),
            old(grid).wf(),
            i < self.len,
        ensures
            final(grid).wf(),
            final(grid)@ == old(grid)@.update(self.phys(i as int), v),
    {
        let j: usize = if self.inverted { self.start + self.len - 1 - i } else { self.start + i };
        grid.set_flat(j, v);
    }

    /// The section's pixels in logical order.
    pub fn iter(&self, grid: &PixelGrid) -> (r: Vec<Rgba>)
        requires
            self.wf(),
            grid.wf(),
        ensures
            r@.len() == self.len,
            forall|k: int| 0 <= k < self.len ==> r@[k] == grid@[self.phys(k)],
    {
        let mut out: Vec<Rgba> = Vec::new();
        let mut k: usize = 0;
        while k < self.len
            invariant
                self.wf(),
                grid.wf(),
                k <= self.len,
                out@.len() == k,
                forall|j: int| 0 <= j < k ==> out@[j] == grid@[self.phys(j)],
            decreases self.len - k,
        {
            out.push(self.get(grid, k));
            k = k + 1;
        }
        out
    }

    /// The physical flat indices of the section's pixels in logical
    /// order, for callers that mutate pixels through the grid.
    pub fn iter_mut(&self) -> (r: Vec<usize>)
        requires
            self.wf(),
        ensures
            r@.len() == self.len,
            forall|k: int| 0 <= k < self.len ==> r@[k] == self.phys(k),
    {
        let mut out: Vec<usize> = Vec::new();
        let mut k: usize = 0;
        while k < self.len
            invariant
                self.wf(),
                k <= self.len,
                out@.len() == k,
                forall|j: int| 0 <= j < k ==> out@[j] == self.phys(j),
            decreases self.len - k,
        {
            let j: usize = if self.inverted { self.start + self.len - 1 - k } else {
                self.start + k
            };
            out.push(j);
            k = k + 1;
        }
        out
    }

    /// The sub-window that the resolved logical range `[s, e)` occupies:
    /// for an inverted section the range is mirrored to
    /// `[len - e, len - s)` first, so the sub-section stays a contiguous
    /// physical window and keeps the inversion flag.
    pub open spec fn spec_range(&self, s: int, e: int) -> Section {
        Section {
            start: (if self.inverted {
                self.start + self.len - e
            } else {
                self.start + s
            }) as usize,
            len: (e - s) as usize,
            inverted: self.inverted,
        }
    }

    /// A sub-section addresses exactly the pixels of the parent range:
    /// its logical position `k` is the parent's logical position `s + k`.
    pub proof fn lemma_range_entry(&self, s: int, e: int, k: int)
        requires
            self.wf(),
            0 <= s <= e <= self.len,
            0 <= k < e - s,
        ensures
            self.spec_range(s, e).wf(),
            self.spec_range(s, e).phys(k) == self.phys(s + k),
    {
    }

    /// A range of a range addresses the parent at the summed offsets:
    /// mirroring an already mirrored sub-section composes correctly.
    pub proof fn lemma_range_compose(&self, s1: int, e1: int, s2: int, e2: int, k: int)
        requires
            self.wf(),
            0 <= s1 <= e1 <= self.len,
            0 <= s2 <= e2 <= e1 - s1,
            0 <= k < e2 - s2,
        ensures
            self.spec_range(s1, e1).spec_range(s2, e2).phys(k) == self.phys(s1 + s2 + k),
    {
        self.lemma_range_entry(s1, e1, s2 + k);
        self.spec_range(s1, e1).lemma_range_entry(s2, e2, k);
    }

    /// Derive the sub-section of the logical range `[start_bound, end_bound)`
    /// after endpoint resolution.  A range whose resolved start lies past
    /// its resolved end, or whose resolved end lies past the section's
    /// length, is a contract violation and is rejected up front.
    pub fn range(&self, start_bound: RangeBound, end_bound: RangeBound) -> (r: Section)
        requires
            self.wf(),
            0 <= spec_bound_to_num(start_bound, true, 0, self.len as int),
            spec_bound_to_num(start_bound, true, 0, self.len as int)
                <= spec_bound_to_num(end_bound, false, 0, self.len as int),
            spec_bound_to_num(end_bound, false, 0, self.len as int) <= self.len,
        ensures
            r == self.spec_range(
                spec_bound_to_num(start_bound, true, 0, self.len as int),
                spec_bound_to_num(end_bound, false, 0, self.len as int),
            ),
            r.wf(),
            r.inverted == self.inverted,
            r.len == spec_bound_to_num(end_bound, false, 0, self.len as int)
                - spec_bound_to_num(start_bound, true, 0, self.len as int),
            forall|k: int| 0 <= k < r.len ==> r.phys(k) == self.phys(
                spec_bound_to_num(start_bound, true, 0, self.len as int) + k,
            ),
    {
        let s: usize = bound_to_num(start_bound, true, 0, self.len);
        let e: usize = bound_to_num(end_bound, false, 0, self.len);

        let new_start: usize = if self.inverted {
            self.start + self.len - e
        } else {
            self.start + s
        };
        let r = Section { start: new_start, len: e - s, inverted: self.inverted };
        proof {
            assert forall|k: int| 0 <= k < r.len implies r.phys(k) == self.phys(s + k) by {
                self.lemma_range_entry(s as int, e as int, k);
            }
        }
        r
    }
}

/// A fractional position inside a section: `whole + frac / 255`, in the
/// same fixed-point scale as the blend weights.  `frac == 0` is an exact
/// integer position.
#[derive(Clone, Copy, PartialEq, Eq, Structural, Debug)]
pub struct FracIndex {
    pub whole: usize,
    pub frac: u8,
}

/// One endpoint of a fractional index range over a section.
#[derive(Clone, Copy, PartialEq, Eq, Structural, Debug)]
pub enum FracRangeBound {
    Included(FracIndex),
    Excluded(FracIndex),
    Unbounded,
}

/// The fractional position an endpoint resolves to, as a
/// `(whole, frac)` pair.  The rule is the one of the integer domain with
/// a whole step as the smallest move; the unbounded endpoints resolve to
/// the domain's addressable minimum and maximum positions.
pub open spec fn spec_frac_bound_to_num(
    bound: FracRangeBound,
    start: bool,
    min: int,
    max: int,
) -> (int, int) {
    match bound {
        FracRangeBound::Included(f) => if start {
            (f.whole as int, f.frac as int)
        } else {
            (f.whole + 1, f.frac as int)
        },
        FracRangeBound::Excluded(f) => if start {
            (f.whole + 1, f.frac as int)
        } else {
            (f.whole as int, f.frac as int)
        },
        FracRangeBound::Unbounded => if start {
            (min, 0)
        } else {
            (max, 0)
        },
    }
}

/// Resolve one endpoint of a fractional index range.
pub fn frac_bound_to_num(bound: FracRangeBound, start: bool, min: usize, max: usize) -> (r:
    FracIndex)
    requires
        spec_frac_bound_to_num(bound, start, min as int, max as int).0 <= usize::MAX,
    ensures
        r.whole as int == spec_frac_bound_to_num(bound, start, min as int, max as int).0,
        r.frac as int == spec_frac_bound_to_num(bound, start, min as int, max as int).1,
{
    match bound {
        FracRangeBound::Included(f) => if start {
            f
        } else {
            FracIndex { whole: f.whole + 1, frac: f.frac }
        },
        FracRangeBound::Excluded(f) => if start {
            FracIndex { whole: f.whole + 1, frac: f.frac }
        } else {
            f
        },
        FracRangeBound::Unbounded => if start {
            FracIndex { whole: min, frac: 0 }
        } else {
            FracIndex { whole: max, frac: 0 }
        },
    }
}

impl Section {
    /// The pixel an anti-aliased write at `whole + frac/255` touches on
    /// the floor side, clamped to the section.
    pub open spec fn aa_lower(&self, whole: int) -> int {
        if whole <= self.len - 1 {
            whole
        } else {
            self.len - 1
        }
    }

    /// The pixel such a write touches on the ceiling side, clamped to
    /// the section.
    pub open spec fn aa_upper(&self, whole: int, frac: int) -> int {
        if frac == 0 {
            self.aa_lower(whole)
        } else if whole + 1 <= self.len - 1 {
            whole + 1
        } else {
            self.len - 1
        }
    }

    /// The grid contents after an anti-aliased single-point write at
    /// `whole + frac/255`: an exact integer position overwrites its
    /// pixel, a fractional one blends the two neighbouring pixels toward
    /// `val`, each by the share of the position closer to it.
    pub open spec fn spec_set_aa(&self, s: Seq<Rgba>, whole: int, frac: int, val: Rgba) -> Seq<
        Rgba,
    > {
        let lower = self.aa_lower(whole);
        let upper = self.aa_upper(whole, frac);
        if lower == upper {
            s.update(self.phys(lower), val)
        } else {
            s.update(
                self.phys(lower),
                spec_mix(s[self.phys(lower)], val, (255 - frac) as u8),
            ).update(self.phys(upper), spec_mix(s[self.phys(upper)], val, frac as u8))
        }
    }

    /// Anti-aliased single-point write at the fractional position
    /// `index`.  An exact integer position (`frac == 0`) behaves
    /// identically to a direct indexed overwrite: no blending happens.
    pub fn set_aa(&self, grid: &mut PixelGrid, index: FracIndex, val: &Rgba)
        requires
            self.wf(),
            old(grid).wf(),
            self.len >= 1,
        ensures
            final(grid).wf(),
            final(grid)@ == self.spec_set_aa(
                old(grid)@,
                index.whole as int,
                index.frac as int,
                *val,
            ),
            index.frac == 0 ==> final(grid)@ == old(grid)@.update(
                self.phys(self.aa_lower(index.whole as int)),
                *val,
            ),
    {
        let last: usize = self.len - 1;
        let lower: usize = if index.whole <= last {
            index.whole
        } else {
            last
        };
        let upper: usize = if index.frac == 0 {
            lower
        } else if index.whole < last {
            index.whole + 1
        } else {
            last
        };

        if lower == upper {
            self.set(grid, lower, *val);
        } else {
            proof {
                self.lemma_phys_in_window(lower as int);
                self.lemma_phys_in_window(upper as int);
            }
            let lower_px = self.get(grid, lower);
            self.set(grid, lower, lower_px.mix(val, 255 - index.frac));
            let upper_px = self.get(grid, upper);
            self.set(grid, upper, upper_px.mix(val, index.frac));
        }
    }

    /// Whether physical flat index `j` lies in this section's window and
    /// its logical position falls in `[lo, hi)`.
    pub open spec fn covered(&self, j: int, lo: int, hi: int) -> bool {
        &&& self.start <= j < self.start + self.len
        &&& lo <= self.logical(j) < hi
    }

    /// The grid contents after solid-filling the logical positions
    /// `[lo, hi)` of this section with `val`.
    pub open spec fn spec_fill(&self, s: Seq<Rgba>, lo: int, hi: int, val: Rgba) -> Seq<Rgba> {
        Seq::new(s.len(), |j: int| if self.covered(j, lo, hi) { val } else { s[j] })
    }

    /// Anti-aliased range write: both resolved endpoints get an
    /// anti-aliased write (soft edges), then every whole pixel from the
    /// ceiling of the start to just below the floor of the end is
    /// solid-filled with `val` (hard interior).  A range whose interior
    /// is empty or backwards fills nothing beyond the two edge writes.
    pub fn set_aa_range(
        &self,
        grid: &mut PixelGrid,
        start_bound: FracRangeBound,
        end_bound: FracRangeBound,
        val: &Rgba,
    )
        requires
            self.wf(),
            old(grid).wf(),
            self.len >= 1,
            spec_frac_bound_to_num(start_bound, true, 0, self.len - 1).0 + 1 <= usize::MAX,
            spec_frac_bound_to_num(end_bound, false, 0, self.len - 1).0 <= usize::MAX,
        ensures
            final(grid).wf(),
            final(grid)@ == ({
                let sb = spec_frac_bound_to_num(start_bound, true, 0, self.len - 1);
                let eb = spec_frac_bound_to_num(end_bound, false, 0, self.len - 1);
                let lo = if sb.1 == 0 { sb.0 } else { sb.0 + 1 };
                let hi = if eb.0 <= self.len { eb.0 } else { self.len as int };
                self.spec_fill(
                    self.spec_set_aa(
                        self.spec_set_aa(old(grid)@, sb.0, sb.1, *val),
                        eb.0,
                        eb.1,
                        *val,
                    ),
                    lo,
                    hi,
                    *val,
                )
            }),
    {
        let sb = frac_bound_to_num(start_bound, true, 0, self.len - 1);
        let eb = frac_bound_to_num(end_bound, false, 0, self.len - 1);

        self.set_aa(grid, sb, val);
        self.set_aa(grid, eb, val);

        let lo: usize = if sb.frac == 0 {
            sb.whole
        } else {
            sb.whole + 1
        };
        let hi: usize = if eb.whole <= self.len {
            eb.whole
        } else {
            self.len
        };

        let ghost base = grid@;
        let mut k: usize = lo;
        if lo < hi {
            proof {
                assert(base =~= self.spec_fill(base, lo as int, lo as int, *val));
            }
            while k < hi
                invariant
                    self.wf(),
                    grid.wf(),
                    self.len >= 1,
                    lo <= k <= hi,
                    hi <= self.len,
                    base.len() == GRID_SIZE,
                    grid@ == self.spec_fill(base, lo as int, k as int, *val),
                decreases hi - k,
            {
                self.set(grid, k, *val);
                proof {
                    self.lemma_phys_in_window(k as int);
                    assert(self.spec_fill(base, lo as int, k as int, *val).update(
                        self.phys(k as int),
                        *val,
                    ) =~= self.spec_fill(base, lo as int, k + 1, *val));
                }
                k = k + 1;
            }
        } else {
            proof {
                assert(grid@ =~= self.spec_fill(base, lo as int, hi as int, *val));
            }
        }
    }
}

/// An anti-aliased write at an exact integer position `i` is the same
/// grid change as the direct indexed write `section[i] = val`: there is
/// no unintended blending at integral positions.
pub proof fn lemma_set_aa_integral(sec: Section, s: Seq<Rgba>, i: int, val: Rgba)
    requires
        sec.wf(),
        0 <= i < sec.len,
    ensures
        sec.spec_set_aa(s, i, 0, val) == s.update(sec.phys(i), val),
{
}

/// An anti-aliased range write whose resolved endpoints both sit on
/// integer boundaries degenerates to a write with no sub-pixel blending
/// at all: both endpoint pixels are overwritten solid and the whole
/// interior is filled solid, while every pixel outside the range keeps
/// its old value.
pub proof fn lemma_set_aa_range_integral(sec: Section, s: Seq<Rgba>, sw: int, ew: int, val: Rgba)
    requires
        sec.wf(),
        s.len() == GRID_SIZE,
        0 <= sw <= ew <= sec.len - 1,
    ensures
        ({
            let r = sec.spec_fill(
                sec.spec_set_aa(sec.spec_set_aa(s, sw, 0, val), ew, 0, val),
                sw,
                ew,
                val,
            );
            &&& r.len() == s.len()
            &&& forall|j: int|
                0 <= j < s.len() ==> r[j] == (if sec.covered(j, sw, ew + 1) {
                    val
                } else {
                    s[j]
                })
        }),
{
    lemma_set_aa_integral(sec, s, sw, val);
    lemma_set_aa_integral(sec, sec.spec_set_aa(s, sw, 0, val), ew, val);
    let s2 = sec.spec_set_aa(sec.spec_set_aa(s, sw, 0, val), ew, 0, val);
    let r = sec.spec_fill(s2, sw, ew, val);
    assert forall|j: int| 0 <= j < s.len() implies r[j] == (if sec.covered(j, sw, ew + 1) {
        val
    } else {
        s[j]
    }) by {
        sec.lemma_phys_in_window(sw);
        sec.lemma_phys_in_window(ew);
        if sec.covered(j, sw, ew + 1) && !sec.covered(j, sw, ew) {
            assert(sec.logical(j) == ew);
            assert(j == sec.phys(ew));
        }
    }
}

/// Bound resolution is consistent between range slicing and direct
/// indexing: for every representable combination of endpoints, the first
/// pixel of `range(r)` is the pixel at the resolved start index.
pub proof fn lemma_range_consistent_with_index(sec: Section, start_bound: RangeBound, end_bound: RangeBound)
    requires
        sec.wf(),
        0 <= spec_bound_to_num(start_bound, true, 0, sec.len as int),
        spec_bound_to_num(start_bound, true, 0, sec.len as int)
            < spec_bound_to_num(end_bound, false, 0, sec.len as int),
        spec_bound_to_num(end_bound, false, 0, sec.len as int) <= sec.len,
    ensures
        sec.spec_range(
            spec_bound_to_num(start_bound, true, 0, sec.len as int),
            spec_bound_to_num(end_bound, false, 0, sec.len as int),
        ).phys(0) == sec.phys(spec_bound_to_num(start_bound, true, 0, sec.len as int)),
{
    sec.lemma_range_entry(
        spec_bound_to_num(start_bound, true, 0, sec.len as int),
        spec_bound_to_num(end_bound, false, 0, sec.len as int),
        0,
    );
}

} // verus!
