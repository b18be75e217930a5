//! The fixed partition of the grid into the installation's sections.
//!
//! The installation's wiring splits the first three strips into fifteen
//! physically contiguous runs at fixed offsets; the first nine runs are
//! wired backwards and carry the inversion flag.  Pixels of a strip past
//! the run boundaries, and the remaining strips, are not exposed through
//! views.  The partition is a static description of the hardware and
//! never changes at runtime.
//!
//! Per strip the runs cover, in strip-local offsets:
//! - strip 0: `0..149`, `149..309`, `309..392`, `392..475`
//! - strip 1: `0..149`, `149..309`, `309..351`, `351..437`
//! - strip 2: `0..107`, `107..153`, `153..208`, `208..308`, `308..350`,
//!   `350..442`, `442..475`

use vstd::prelude::*;

use crate::section::Section;
use crate::LEDS_PER_STRIP;

verus! {

/// Number of sections the views expose.
pub const SECTION_COUNT: usize = 15;

/// The fifteen sections of the installation, as flat windows into the
/// grid, in wiring order.
pub open spec fn spec_views() -> Seq<Section> {
    seq![
        Section { start: 0, len: 149, inverted: true },
        Section { start: 149, len: 160, inverted: true },
        Section { start: 309, len: 83, inverted: true },
        Section { start: 392, len: 83, inverted: true },
        Section { start: 480, len: 149, inverted: true },
        Section { start: 629, len: 160, inverted: true },
        Section { start: 789, len: 42, inverted: true },
        Section { start: 831, len: 86, inverted: true },
        Section { start: 960, len: 107, inverted: true },
        Section { start: 1067, len: 46, inverted: false },
        Section { start: 1113, len: 55, inverted: false },
        Section { start: 1168, len: 100, inverted: false },
        Section { start: 1268, len: 42, inverted: false },
        Section { start: 1310, len: 92, inverted: false },
        Section { start: 1402, len: 33, inverted: false },
    ]
}

/// Every section of the views is a non-empty, well-formed window, and
/// the boundaries are monotonically increasing: each section ends no
/// later than the next one starts, so no pixel belongs to two sections.
pub proof fn lemma_views_partition()
    ensures
        spec_views().len() == SECTION_COUNT,
        forall|i: int|
            0 <= i < SECTION_COUNT ==> (#[trigger] spec_views()[i]).wf() && spec_views()[i].len
                >= 1,
        forall|i: int|
            0 <= i < SECTION_COUNT - 1 ==> (#[trigger] spec_views()[i]).start + spec_views()[i].len
                <= spec_views()[i + 1].start,
{
    assert forall|i: int| 0 <= i < SECTION_COUNT implies (#[trigger] spec_views()[i]).wf()
        && spec_views()[i].len >= 1 by {
        if i == 0 { } else if i == 1 { } else if i == 2 { } else if i == 3 { } else if i == 4 {
        } else if i == 5 { } else if i == 6 { } else if i == 7 { } else if i == 8 { } else if i
            == 9 { } else if i == 10 { } else if i == 11 { } else if i == 12 { } else if i == 13 {
        } else {
            assert(i == 14);
        }
    }
    assert forall|i: int| 0 <= i < SECTION_COUNT - 1 implies (#[trigger] spec_views()[i]).start
        + spec_views()[i].len <= spec_views()[i + 1].start by {
        if i == 0 { } else if i == 1 { } else if i == 2 { } else if i == 3 { } else if i == 4 {
        } else if i == 5 { } else if i == 6 { } else if i == 7 { } else if i == 8 { } else if i
            == 9 { } else if i == 10 { } else if i == 11 { } else if i == 12 { } else {
            assert(i == 13);
        }
    }
}

/// Every section lies inside the strip it belongs to: none crosses a
/// strip boundary.
pub proof fn lemma_views_within_strips()
    ensures
        forall|i: int|
            0 <= i < SECTION_COUNT ==> ({
                let s = #[trigger] spec_views()[i];
                let strip = (s.start as int) / (LEDS_PER_STRIP as int);
                s.start + s.len <= (strip + 1) * LEDS_PER_STRIP
            }),
{
    assert forall|i: int| 0 <= i < SECTION_COUNT implies ({
        let s = #[trigger] spec_views()[i];
        let strip = (s.start as int) / (LEDS_PER_STRIP as int);
        s.start + s.len <= (strip + 1) * LEDS_PER_STRIP
    }) by {
        if i == 0 { } else if i == 1 { } else if i == 2 { } else if i == 3 { } else if i == 4 {
        } else if i == 5 { } else if i == 6 { } else if i == 7 { } else if i == 8 { } else if i
            == 9 { } else if i == 10 { } else if i == 11 { } else if i == 12 { } else if i == 13 {
        } else {
            assert(i == 14);
        }
    }
}

/// The fifteen sections of the installation, constructed fresh whenever
/// a caller needs section-based access to the grid.
pub struct Views {
    pub sections: Vec<Section>,
}

impl Views {
    /// All sections of the views are the fixed topology constants.
    pub open spec fn wf(&self) -> bool {
        self.sections@ == spec_views()
    }

    /// Build the fixed partition.
    pub fn new() -> (r: Views)
        ensures
            r.wf(),
            r.sections@ == spec_views(),
    {
        let sections: Vec<Section> = vec![
            Section { start: 0, len: 149, inverted: true },
            Section { start: 149, len: 160, inverted: true },
            Section { start: 309, len: 83, inverted: true },
            Section { start: 392, len: 83, inverted: true },
            Section { start: 480, len: 149, inverted: true },
            Section { start: 629, len: 160, inverted: true },
            Section { start: 789, len: 42, inverted: true },
            Section { start: 831, len: 86, inverted: true },
            Section { start: 960, len: 107, inverted: true },
            Section { start: 1067, len: 46, inverted: false },
            Section { start: 1113, len: 55, inverted: false },
            Section { start: 1168, len: 100, inverted: false },
            Section { start: 1268, len: 42, inverted: false },
            Section { start: 1310, len: 92, inverted: false },
            Section { start: 1402, len: 33, inverted: false },
        ];
        proof {
            assert(sections@ =~= spec_views());
        }
        Views { sections }
    }

    /// Number of sections.
    pub fn len(&self) -> (r: usize)
        requires
            self.wf(),
        ensures
            r == SECTION_COUNT,
    {
        self.sections.len()
    }

    pub fn is_empty(&self) -> (r: bool)
        requires
            self.wf(),
        ensures
            r == false,
    {
        self.sections.len() == 0
    }

    /// The section at position `i` of the wiring order.
    pub fn section_at(&self, i: usize) -> (r: Section)
        requires
            self.wf(),
            i < SECTION_COUNT,
        ensures
            r == spec_views()[i as int],
    {
        self.sections[i]
    }

    /// All sections in wiring order.
    pub fn iter(&self) -> (r: Vec<Section>)
        requires
            self.wf(),
        ensures
            r@ == spec_views(),
    {
        self.sections.clone()
    }

    /// All sections in wiring order, for callers that go on to mutate
    /// the grid through them.  Sections are plain windows, so this is
    /// the same list `iter` hands out.
    pub fn iter_mut(&mut self) -> (r: Vec<Section>)
        requires
            old(self).wf(),
        ensures
            final(self).wf(),
            *final(self) == *old(self),
            r@ == spec_views(),
    {
        self.sections.clone()
    }
}

} // verus!
