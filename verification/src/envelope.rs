use vstd::prelude::*;

verus! {

/// Where a coordinate sample stands relative to the field's spatial
/// envelope window.
#[derive(Clone, Copy, Debug, PartialEq, Eq, Structural)]
pub enum EnvelopeSide {
    /// At or below the lower envelope boundary.
    AtOrBelowLower,
    /// Strictly inside the envelope window.
    Within,
    /// At or above the upper envelope boundary.
    AtOrAboveUpper,
}

/// The clamping rule of the field potential: a sample at or below the lower
/// boundary is treated as the lower boundary itself, a sample at or above
/// the upper boundary as the upper boundary, and only samples strictly
/// inside the window keep their own value.  The lower test wins where both
/// hold (a degenerate window).
pub open spec fn envelope_side(at_or_below_lower: bool, at_or_above_upper: bool) -> EnvelopeSide {
    if at_or_below_lower {
        EnvelopeSide::AtOrBelowLower
    } else if at_or_above_upper {
        EnvelopeSide::AtOrAboveUpper
    } else {
        EnvelopeSide::Within
    }
}

/// Decides where one coordinate sample stands relative to the envelope
/// window, from the two boundary comparisons.
///
/// Every sample beyond a boundary is classified exactly as the boundary
/// itself, so the integrated envelope evaluated through this decision is
/// constant beyond the window.
pub fn classify_envelope_point(at_or_below_lower: bool, at_or_above_upper: bool) -> (r:
    EnvelopeSide)
    ensures
        r == envelope_side(at_or_below_lower, at_or_above_upper),
{
    if at_or_below_lower {
        EnvelopeSide::AtOrBelowLower
    } else if at_or_above_upper {
        EnvelopeSide::AtOrAboveUpper
    } else {
        EnvelopeSide::Within
    }
}

/// Classifies a whole coordinate axis against the envelope window.  The two
/// inputs hold, per sample, the outcomes of the two boundary comparisons.
pub fn classify_envelope_axis(at_or_below_lower: &Vec<bool>, at_or_above_upper: &Vec<bool>) -> (r:
    Vec<EnvelopeSide>)
    requires
        at_or_below_lower.len() == at_or_above_upper.len(),
    ensures
        r@.len() == at_or_below_lower@.len(),
        forall|i: int|
            0 <= i < r@.len() ==> r@[i] == envelope_side(at_or_below_lower@[i], at_or_above_upper@[i]),
{
    let n = at_or_below_lower.len();
    let mut r: Vec<EnvelopeSide> = Vec::new();
    let mut i: usize = 0;
    while i < n
        invariant
            i <= n,
            n == at_or_below_lower@.len(),
            n == at_or_above_upper@.len(),
            r@.len() == i,
            forall|k: int|
                0 <= k < i ==> r@[k] == envelope_side(at_or_below_lower@[k], at_or_above_upper@[k]),
        decreases n - i,
    {
        r.push(classify_envelope_point(at_or_below_lower[i], at_or_above_upper[i]));
        i = i + 1;
    }
    r
}

/// Law: the clamp decision is the same for every sample beyond a boundary —
/// any two samples at or below the lower boundary are classified alike, and
/// any two at or above the upper boundary are classified alike, so the
/// clamped potential is constant beyond the window.
pub proof fn lemma_envelope_constant_beyond_boundary(
    below_a: bool,
    above_a: bool,
    below_b: bool,
    above_b: bool,
)
    ensures
        below_a && below_b ==> envelope_side(below_a, above_a) == envelope_side(below_b, above_b),
        !below_a && !below_b && above_a && above_b ==> envelope_side(below_a, above_a)
            == envelope_side(below_b, above_b),
{
}

} // verus!
