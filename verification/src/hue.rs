//! Hue selection: the candidate hues, the pointer that cycles through them,
//! and the band of colours around the selected hue.

use crate::frame::{Frame, Hsv};
use vstd::arithmetic::div_mod::{
    lemma_add_mod_noop_right, lemma_mod_add_multiples_vanish, lemma_mod_bound, lemma_small_mod,
};
use vstd::prelude::*;

verus! {

/// Tolerance added to and subtracted from the selected hue to form the band.
pub const FUDGE: u8 = 1;

/// Number of candidate hues in the fixed list.
pub const HUE_COUNT: u8 = 25;

/// Distance between two neighbouring candidate hues of the fixed list.
pub const HUE_STEP: u8 = 10;

/// What happens to a hue bound that leaves the range of a byte.
#[derive(Clone, Copy, Debug, PartialEq, Eq, Structural)]
pub enum BoundPolicy {
    /// The bound goes round the circle of hues: one below 0 is 255.
    Wrap,
    /// The bound stops at the end of the range: one below 0 is 0.
    Clamp,
}

/// A box in colour space: per channel an inclusive lower and upper bound.
#[derive(Clone, Copy, Debug, PartialEq, Eq, Structural)]
pub struct HueBand {
    pub lower: Hsv,
    pub upper: Hsv,
}

/// The fixed candidate list: 0, 10, 20, ..., 240.
pub open spec fn fixed_hues() -> Seq<u8> {
    Seq::new(HUE_COUNT as nat, |i: int| (HUE_STEP * i) as u8)
}

/// The hue `tolerance` below `hue` under `policy`.
pub open spec fn lower_hue(hue: u8, tolerance: u8, policy: BoundPolicy) -> u8 {
    match policy {
        BoundPolicy::Wrap => ((hue - tolerance) % 256) as u8,
        BoundPolicy::Clamp => if hue >= tolerance {
            (hue - tolerance) as u8
        } else {
            0u8
        },
    }
}

/// The hue `tolerance` above `hue` under `policy`.
pub open spec fn upper_hue(hue: u8, tolerance: u8, policy: BoundPolicy) -> u8 {
    match policy {
        BoundPolicy::Wrap => ((hue + tolerance) % 256) as u8,
        BoundPolicy::Clamp => if hue + tolerance <= 255 {
            (hue + tolerance) as u8
        } else {
            255u8
        },
    }
}

/// The band around `hue`: hue within `tolerance` under `policy`, any
/// saturation, any value.
pub open spec fn band_of(hue: u8, tolerance: u8, policy: BoundPolicy) -> HueBand {
    HueBand {
        lower: Hsv { hue: lower_hue(hue, tolerance, policy), saturation: 0, value: 0 },
        upper: Hsv { hue: upper_hue(hue, tolerance, policy), saturation: 255, value: 255 },
    }
}

impl HueBand {
    /// Every channel of `pixel` lies between its two bounds, ends included.
    pub open spec fn spec_contains(&self, pixel: Hsv) -> bool {
        &&& self.lower.hue <= pixel.hue <= self.upper.hue
        &&& self.lower.saturation <= pixel.saturation <= self.upper.saturation
        &&& self.lower.value <= pixel.value <= self.upper.value
    }

    /// The lower hue bound lies above the upper one.
    pub open spec fn spec_is_inverted(&self) -> bool {
        self.lower.hue > self.upper.hue
    }

    /// Whether every channel of `pixel` lies between its two bounds, ends
    /// included.
    #[verifier::when_used_as_spec(spec_contains)]
    pub fn contains(&self, pixel: Hsv) -> (inside: bool)
        ensures
            inside == self.spec_contains(pixel),
    {
        self.lower.hue <= pixel.hue && pixel.hue <= self.upper.hue && self.lower.saturation
            <= pixel.saturation && pixel.saturation <= self.upper.saturation && self.lower.value
            <= pixel.value && pixel.value <= self.upper.value
    }

    /// Whether the lower hue bound lies above the upper one, as it can after a
    /// bound went round the circle.
    #[verifier::when_used_as_spec(spec_is_inverted)]
    pub fn is_inverted(&self) -> (inverted: bool)
        ensures
            inverted == self.spec_is_inverted(),
    {
        self.lower.hue > self.upper.hue
    }
}

/// The band around `hue` with the given tolerance.
pub fn hue_band(hue: u8, tolerance: u8, policy: BoundPolicy) -> (band: HueBand)
    ensures
        band == band_of(hue, tolerance, policy),
{
    let (low, high) = match policy {
        BoundPolicy::Wrap => (hue.wrapping_sub(tolerance), hue.wrapping_add(tolerance)),
        BoundPolicy::Clamp => (hue.saturating_sub(tolerance), hue.saturating_add(tolerance)),
    };
    HueBand {
        lower: Hsv { hue: low, saturation: 0, value: 0 },
        upper: Hsv { hue: high, saturation: 255, value: 255 },
    }
}

/// The candidate hues for a picture. The list is fixed and does not depend on
/// what `frame` shows.
#[allow(unused_variables)]
pub fn hues(frame: &Frame) -> (list: Vec<u8>)
    ensures
        list@ == fixed_hues(),
{
    let mut list: Vec<u8> = Vec::new();
    let mut n: u8 = 0;
    while n < HUE_COUNT
        invariant
            n <= HUE_COUNT,
            list@.len() == n,
            forall|i: int| 0 <= i < n ==> list@[i] == HUE_STEP * i,
        decreases HUE_COUNT - n,
    {
        list.push(n * HUE_STEP);
        n += 1;
    }
    assert(list@ =~= fixed_hues());
    list
}

/// A pointer into a list of candidate hues.
#[derive(Debug)]
pub struct HueSelector {
    candidates: Vec<u8>,
    index: usize,
}

/// What a selector is: its candidates and the position of its pointer.
pub ghost struct SelectorView {
    pub candidates: Seq<u8>,
    pub index: nat,
}

impl SelectorView {
    /// The pointer stands on a candidate.
    pub open spec fn wf(self) -> bool {
        self.index < self.candidates.len()
    }

    /// The selected hue.
    pub open spec fn hue(self) -> u8 {
        self.candidates[self.index as int]
    }

    /// The selector after one step: the pointer moves to the next candidate,
    /// and from the last one back to the first.
    pub open spec fn advanced(self) -> SelectorView {
        SelectorView {
            candidates: self.candidates,
            index: ((self.index + 1) as int % self.candidates.len() as int) as nat,
        }
    }

    /// The selector after `steps` steps.
    pub open spec fn advanced_by(self, steps: nat) -> SelectorView
        decreases steps,
    {
        if steps == 0 {
            self
        } else {
            self.advanced_by((steps - 1) as nat).advanced()
        }
    }
}

impl View for HueSelector {
    type V = SelectorView;

    closed spec fn view(&self) -> SelectorView {
        SelectorView { candidates: self.candidates@, index: self.index as nat }
    }
}

impl HueSelector {
    /// The pointer stands on a candidate.
    pub open spec fn wf(&self) -> bool {
        self@.wf()
    }

    /// A selector that points at the first of `candidates`, or `None` when
    /// there is no candidate to point at.
    pub fn new(candidates: Vec<u8>) -> (selector: Option<HueSelector>)
        ensures
            selector is Some <==> candidates@.len() > 0,
            selector matches Some(s) ==> s.wf() && s@ == (SelectorView {
                candidates: candidates@,
                index: 0,
            }),
    {
        if candidates.len() == 0 {
            None
        } else {
            Some(HueSelector { candidates, index: 0 })
        }
    }

    /// Position of the pointer in the candidate list.
    pub fn index(&self) -> (index: usize)
        ensures
            index == self@.index,
    {
        self.index
    }

    /// Number of candidates.
    pub fn len(&self) -> (len: usize)
        ensures
            len == self@.candidates.len(),
    {
        self.candidates.len()
    }

    /// The selected hue.
    pub fn current_hue(&self) -> (hue: u8)
        requires
            self.wf(),
        ensures
            hue == self@.hue(),
    {
        self.candidates[self.index]
    }

    /// The band around the selected hue.
    pub fn current_band(&self, tolerance: u8, policy: BoundPolicy) -> (band: HueBand)
        requires
            self.wf(),
        ensures
            band == band_of(self@.hue(), tolerance, policy),
    {
        hue_band(self.current_hue(), tolerance, policy)
    }

    /// Moves the pointer to the next candidate, and from the last one back to
    /// the first.
    pub fn advance(&mut self)
        requires
            old(self).wf(),
        ensures
            final(self).wf(),
            final(self)@ == old(self)@.advanced(),
    {
        let len = self.candidates.len();
        self.index = (self.index + 1) % len;
    }
}

/// Where neither bound leaves the range of a byte, the band reaches exactly
/// from `hue - tolerance` to `hue + tolerance`, whatever the policy.
pub proof fn lemma_band_within_range(hue: u8, tolerance: u8, policy: BoundPolicy)
    requires
        0 <= hue - tolerance,
        hue + tolerance <= 255,
    ensures
        band_of(hue, tolerance, policy).lower.hue == hue - tolerance,
        band_of(hue, tolerance, policy).upper.hue == hue + tolerance,
        !band_of(hue, tolerance, policy).spec_is_inverted(),
{
}

/// Under `Clamp` the lower bound never lies above the upper one, and the band
/// holds the selected hue at any saturation and value.
pub proof fn lemma_clamped_band_is_ordered(hue: u8, tolerance: u8, pixel: Hsv)
    requires
        pixel.hue == hue,
    ensures
        !band_of(hue, tolerance, BoundPolicy::Clamp).spec_is_inverted(),
        band_of(hue, tolerance, BoundPolicy::Clamp).spec_contains(pixel),
{
}

/// Under `Wrap` a bound that leaves the range comes back in at the other end:
/// the lower bound of hue 0 is `256 - tolerance`.
pub proof fn lemma_wrapped_bounds(hue: u8, tolerance: u8)
    ensures
        hue < tolerance ==> lower_hue(hue, tolerance, BoundPolicy::Wrap) == hue - tolerance + 256,
        hue + tolerance > 255 ==> upper_hue(hue, tolerance, BoundPolicy::Wrap) == hue + tolerance
            - 256,
{
}

/// After `steps` steps the pointer stands `steps` places further round the
/// list.
pub proof fn lemma_advanced_by(selector: SelectorView, steps: nat)
    requires
        selector.wf(),
    ensures
        selector.advanced_by(steps).wf(),
        selector.advanced_by(steps).candidates == selector.candidates,
        selector.advanced_by(steps).index == (selector.index + steps) as int % (
        selector.candidates.len() as int),
    decreases steps,
{
    let len = selector.candidates.len() as int;
    if steps == 0 {
        lemma_small_mod(selector.index, selector.candidates.len());
    } else {
        lemma_advanced_by(selector, (steps - 1) as nat);
        lemma_add_mod_noop_right(1, selector.index + steps - 1, len);
        lemma_mod_bound((selector.index + steps) as int, len);
    }
}

/// As many steps as there are candidates bring the pointer back to where it
/// was.
pub proof fn lemma_advance_full_cycle(selector: SelectorView)
    requires
        selector.wf(),
    ensures
        selector.advanced_by(selector.candidates.len()) == selector,
{
    let len = selector.candidates.len();
    lemma_advanced_by(selector, len);
    lemma_mod_add_multiples_vanish(selector.index as int, len as int);
    lemma_small_mod(selector.index, len);
}

} // verus!
