//! Validating construction of a [`Color`] from a tag and raw components.
//!
//! [`build`] checks the number of supplied components against the tag's
//! required arity, then checks every constrained component against the
//! declared inclusive range of the rule table, stopping at the first
//! violation, and only then wraps the raw values into the typed color.
//! Components are IEEE-754 binary64 bit patterns, compared as the values
//! they encode (see [`crate::bits`]); a NaN component is neither below any
//! minimum nor above any maximum, so it passes every range check, exactly as
//! the IEEE comparison predicates dictate.

use vstd::prelude::*;

use crate::bits::{is_nan, is_zero, le, lt, magnitude, same_value, sign_bit, f64_is_zero, f64_lt};
use crate::color::{
    Cmy, Cmyk, Color, ColorSpaceTag, HunterLab, Hsl, Hsv, Lab, Lch, Luv, Rgb, Xyz, Yxy,
};

verus! {

/// Bit pattern of 0.0.
pub const BITS_0: u64 = 0x0000_0000_0000_0000;

/// Bit pattern of 1.0.
pub const BITS_1: u64 = 0x3FF0_0000_0000_0000;

/// Bit pattern of 100.0.
pub const BITS_100: u64 = 0x4059_0000_0000_0000;

/// Bit pattern of 122.0.
pub const BITS_122: u64 = 0x405E_8000_0000_0000;

/// Bit pattern of 220.0.
pub const BITS_220: u64 = 0x406B_8000_0000_0000;

/// Bit pattern of 255.0.
pub const BITS_255: u64 = 0x406F_E000_0000_0000;

/// Bit pattern of 360.0.
pub const BITS_360: u64 = 0x4076_8000_0000_0000;

/// Bit pattern of -134.0.
pub const BITS_NEG_134: u64 = 0xC060_C000_0000_0000;

/// Bit pattern of -140.0.
pub const BITS_NEG_140: u64 = 0xC061_8000_0000_0000;

/// Error produced when a color cannot be built from the supplied
/// components: either the wrong number of components was supplied, or a
/// component lies outside its declared legal range.
#[derive(Debug, Clone, Copy, PartialEq)]
pub enum ParseError {
    /// The number of supplied components differs from the arity the color
    /// space requires.
    NumberOfComponents { expected: usize, got: usize },
    /// A component whose legal minimum is exactly zero was given a negative
    /// value.
    Negative { component: &'static str, got: u64 },
    /// Any other range violation: above the maximum, or below a nonzero
    /// minimum.
    OutOfRange { component: &'static str, min: u64, max: u64, got: u64 },
}

/// The number of components the space requires: 4 for CMYK, 3 for every
/// other space.
pub open spec fn spec_arity(tag: ColorSpaceTag) -> usize {
    if tag == ColorSpaceTag::Cmyk {
        4usize
    } else {
        3usize
    }
}

/// The rule table: for each color space, the constrained components in
/// declaration order, each as (name, minimum, maximum) with the bounds as
/// bit patterns of an inclusive range. Components past the table's entries
/// are unconstrained.
pub open spec fn spec_rules(tag: ColorSpaceTag) -> Seq<(Seq<char>, u64, u64)> {
    match tag {
        ColorSpaceTag::Rgb => seq![
            ("r"@, BITS_0, BITS_255),
            ("g"@, BITS_0, BITS_255),
            ("b"@, BITS_0, BITS_255),
        ],
        ColorSpaceTag::Cmy => seq![
            ("c"@, BITS_0, BITS_1),
            ("m"@, BITS_0, BITS_1),
            ("y"@, BITS_0, BITS_1),
        ],
        ColorSpaceTag::Cmyk => seq![
            ("c"@, BITS_0, BITS_1),
            ("m"@, BITS_0, BITS_1),
            ("y"@, BITS_0, BITS_1),
            ("k"@, BITS_0, BITS_1),
        ],
        ColorSpaceTag::Hsv => seq![
            ("h"@, BITS_0, BITS_360),
            ("s"@, BITS_0, BITS_1),
            ("v"@, BITS_0, BITS_1),
        ],
        ColorSpaceTag::Hsl => seq![
            ("h"@, BITS_0, BITS_360),
            ("s"@, BITS_0, BITS_1),
            ("l"@, BITS_0, BITS_1),
        ],
        ColorSpaceTag::Lch => seq![
            ("l"@, BITS_0, BITS_100),
            ("c"@, BITS_0, BITS_100),
            ("h"@, BITS_0, BITS_360),
        ],
        ColorSpaceTag::Luv => seq![
            ("l"@, BITS_0, BITS_100),
            ("u"@, BITS_NEG_134, BITS_220),
            ("v"@, BITS_NEG_140, BITS_122),
        ],
        ColorSpaceTag::Lab => seq![("l"@, BITS_0, BITS_100)],
        ColorSpaceTag::HunterLab => seq![("l"@, BITS_0, BITS_100)],
        ColorSpaceTag::Xyz => Seq::<(Seq<char>, u64, u64)>::empty(),
        ColorSpaceTag::Yxy => Seq::<(Seq<char>, u64, u64)>::empty(),
    }
}

/// Whether `got` lies within the inclusive range `[min, max]`, under the
/// IEEE comparisons: a NaN value is neither below `min` nor above `max`, so
/// it is within every range.
pub open spec fn in_range(min: u64, max: u64, got: u64) -> bool {
    !lt(got, min) && !lt(max, got)
}

/// The exact error a range violation produces: a negative value against a
/// zero minimum is reported as `Negative`, every other violation as
/// `OutOfRange` carrying the full range.
pub open spec fn range_error(e: ParseError, name: Seq<char>, min: u64, max: u64, got: u64) -> bool {
    if is_zero(min) && lt(got, min) {
        e matches ParseError::Negative { component, got: g } && component@ == name && g == got
    } else {
        e matches ParseError::OutOfRange { component, min: mn, max: mx, got: g } && component@
            == name && mn == min && mx == max && g == got
    }
}

/// Whether component `i` of `vs` satisfies rule `i` of the tag's table.
pub open spec fn rule_holds(tag: ColorSpaceTag, vs: Seq<u64>, i: int) -> bool {
    in_range(spec_rules(tag)[i].1, spec_rules(tag)[i].2, vs[i])
}

/// Whether every constrained component of `vs` is within its declared
/// range.
pub open spec fn all_in_range(tag: ColorSpaceTag, vs: Seq<u64>) -> bool {
    forall|i: int| 0 <= i < spec_rules(tag).len() ==> #[trigger] rule_holds(tag, vs, i)
}

/// Whether rule `j` is the first one `vs` violates, in declaration order.
pub open spec fn first_violation(tag: ColorSpaceTag, vs: Seq<u64>, j: int) -> bool {
    &&& 0 <= j < spec_rules(tag).len()
    &&& !rule_holds(tag, vs, j)
    &&& forall|i: int| 0 <= i < j ==> #[trigger] rule_holds(tag, vs, i)
}

/// The color built from a full set of components for the tag, positionally
/// in declaration order.
pub open spec fn spec_color(tag: ColorSpaceTag, vs: Seq<u64>) -> Color {
    match tag {
        ColorSpaceTag::Rgb => Color::Rgb(Rgb { r: vs[0], g: vs[1], b: vs[2] }),
        ColorSpaceTag::Cmy => Color::Cmy(Cmy { c: vs[0], m: vs[1], y: vs[2] }),
        ColorSpaceTag::Cmyk => Color::Cmyk(Cmyk { c: vs[0], m: vs[1], y: vs[2], k: vs[3] }),
        ColorSpaceTag::Hsv => Color::Hsv(Hsv { h: vs[0], s: vs[1], v: vs[2] }),
        ColorSpaceTag::Hsl => Color::Hsl(Hsl { h: vs[0], s: vs[1], l: vs[2] }),
        ColorSpaceTag::Lch => Color::Lch(Lch { l: vs[0], c: vs[1], h: vs[2] }),
        ColorSpaceTag::Luv => Color::Luv(Luv { l: vs[0], u: vs[1], v: vs[2] }),
        ColorSpaceTag::Lab => Color::Lab(Lab { l: vs[0], a: vs[1], b: vs[2] }),
        ColorSpaceTag::HunterLab => Color::HunterLab(HunterLab { l: vs[0], a: vs[1], b: vs[2] }),
        ColorSpaceTag::Xyz => Color::Xyz(Xyz { x: vs[0], y: vs[1], z: vs[2] }),
        ColorSpaceTag::Yxy => Color::Yxy(Yxy { y1: vs[0], x: vs[1], y2: vs[2] }),
    }
}

/// The invariant every constructed color satisfies: it carries exactly the
/// arity of its space, and every constrained component is within its
/// declared range.
pub open spec fn color_wf(c: Color) -> bool {
    &&& c.spec_components().len() == spec_arity(c.spec_tag())
    &&& all_in_range(c.spec_tag(), c.spec_components())
}

/// The number of components the space requires: 4 for CMYK, 3 otherwise.
pub fn required_components(tag: ColorSpaceTag) -> (n: usize)
    ensures
        n == spec_arity(tag),
{
    if tag == ColorSpaceTag::Cmyk {
        4
    } else {
        3
    }
}

/// How many leading components of the space are constrained by the rule
/// table.
pub fn constrained_components(tag: ColorSpaceTag) -> (n: usize)
    ensures
        n == spec_rules(tag).len(),
{
    match tag {
        ColorSpaceTag::Rgb => 3,
        ColorSpaceTag::Cmy => 3,
        ColorSpaceTag::Cmyk => 4,
        ColorSpaceTag::Hsv => 3,
        ColorSpaceTag::Hsl => 3,
        ColorSpaceTag::Lch => 3,
        ColorSpaceTag::Luv => 3,
        ColorSpaceTag::Lab => 1,
        ColorSpaceTag::HunterLab => 1,
        ColorSpaceTag::Xyz => 0,
        ColorSpaceTag::Yxy => 0,
    }
}

/// Rule `i` of the tag's table: the component's name and the bit patterns
/// of its inclusive minimum and maximum.
pub fn component_rule(tag: ColorSpaceTag, i: usize) -> (r: (&'static str, u64, u64))
    requires
        i < spec_rules(tag).len(),
    ensures
        r.0@ == spec_rules(tag)[i as int].0,
        r.1 == spec_rules(tag)[i as int].1,
        r.2 == spec_rules(tag)[i as int].2,
{
    match tag {
        ColorSpaceTag::Rgb => {
            if i == 0 {
                ("r", BITS_0, BITS_255)
            } else if i == 1 {
                ("g", BITS_0, BITS_255)
            } else {
                ("b", BITS_0, BITS_255)
            }
        },
        ColorSpaceTag::Cmy => {
            if i == 0 {
                ("c", BITS_0, BITS_1)
            } else if i == 1 {
                ("m", BITS_0, BITS_1)
            } else {
                ("y", BITS_0, BITS_1)
            }
        },
        ColorSpaceTag::Cmyk => {
            if i == 0 {
                ("c", BITS_0, BITS_1)
            } else if i == 1 {
                ("m", BITS_0, BITS_1)
            } else if i == 2 {
                ("y", BITS_0, BITS_1)
            } else {
                ("k", BITS_0, BITS_1)
            }
        },
        ColorSpaceTag::Hsv => {
            if i == 0 {
                ("h", BITS_0, BITS_360)
            } else if i == 1 {
                ("s", BITS_0, BITS_1)
            } else {
                ("v", BITS_0, BITS_1)
            }
        },
        ColorSpaceTag::Hsl => {
            if i == 0 {
                ("h", BITS_0, BITS_360)
            } else if i == 1 {
                ("s", BITS_0, BITS_1)
            } else {
                ("l", BITS_0, BITS_1)
            }
        },
        ColorSpaceTag::Lch => {
            if i == 0 {
                ("l", BITS_0, BITS_100)
            } else if i == 1 {
                ("c", BITS_0, BITS_100)
            } else {
                ("h", BITS_0, BITS_360)
            }
        },
        ColorSpaceTag::Luv => {
            if i == 0 {
                ("l", BITS_0, BITS_100)
            } else if i == 1 {
                ("u", BITS_NEG_134, BITS_220)
            } else {
                ("v", BITS_NEG_140, BITS_122)
            }
        },
        ColorSpaceTag::Lab => ("l", BITS_0, BITS_100),
        ColorSpaceTag::HunterLab => ("l", BITS_0, BITS_100),
        // these spaces declare no rules, so the precondition rules them out
        ColorSpaceTag::Xyz => ("", BITS_0, BITS_0),
        ColorSpaceTag::Yxy => ("", BITS_0, BITS_0),
    }
}

/// The range-check primitive: succeeds exactly when `got` lies within the
/// inclusive range `[min, max]`; otherwise reports `Negative` for a
/// negative value against a zero minimum, and `OutOfRange` for every other
/// violation.
pub fn validate_component(component: &'static str, min: u64, max: u64, got: u64) -> (r: Result<
    (),
    ParseError,
>)
    ensures
        r is Ok <==> in_range(min, max, got),
        r matches Err(e) ==> range_error(e, component@, min, max, got),
{
    if f64_lt(got, min) || f64_lt(max, got) {
        if f64_is_zero(min) && f64_lt(got, min) {
            Err(ParseError::Negative { component, got })
        } else {
            Err(ParseError::OutOfRange { component, min, max, got })
        }
    } else {
        Ok(())
    }
}

/// Builds the typed color for `tag` from the raw components `values`, given
/// as binary64 bit patterns in the order the space declares them.
///
/// Fails with `NumberOfComponents` when the count differs from the tag's
/// arity, before any range check; otherwise checks every constrained
/// component in declaration order and fails with the error of the first
/// violation; otherwise wraps the values, unchanged, into the typed color.
pub fn build(tag: ColorSpaceTag, values: &[u64]) -> (r: Result<Color, ParseError>)
    ensures
        values@.len() != spec_arity(tag) ==> r == Err::<Color, ParseError>(
            ParseError::NumberOfComponents {
                expected: spec_arity(tag),
                got: values@.len() as usize,
            },
        ),
        values@.len() == spec_arity(tag) ==> ((r is Ok) <==> all_in_range(tag, values@)),
        values@.len() == spec_arity(tag) && all_in_range(tag, values@) ==> r == Ok::<
            Color,
            ParseError,
        >(spec_color(tag, values@)),
        forall|j: int|
            values@.len() == spec_arity(tag) && #[trigger] first_violation(tag, values@, j) ==> (
            r matches Err(e) && range_error(
                e,
                spec_rules(tag)[j].0,
                spec_rules(tag)[j].1,
                spec_rules(tag)[j].2,
                values@[j],
            )),
        r matches Ok(c) ==> c.spec_tag() == tag && c.spec_components() == values@ && color_wf(c),
{
    let expected: usize = required_components(tag);
    if values.len() != expected {
        return Err(ParseError::NumberOfComponents { expected, got: values.len() });
    }
    proof {
        lemma_rules_within_arity(tag);
    }
    let nrules: usize = constrained_components(tag);
    let mut i: usize = 0;
    while i < nrules
        invariant
            i <= nrules,
            nrules == spec_rules(tag).len(),
            values@.len() == spec_arity(tag),
            spec_rules(tag).len() <= spec_arity(tag),
            forall|k: int| 0 <= k < i ==> #[trigger] rule_holds(tag, values@, k),
        decreases nrules - i,
    {
        let (name, mn, mx) = component_rule(tag, i);
        match validate_component(name, mn, mx, values[i]) {
            Ok(_) => {},
            Err(e) => {
                proof {
                    assert(!rule_holds(tag, values@, i as int));
                    assert(first_violation(tag, values@, i as int));
                    assert forall|j: int| first_violation(tag, values@, j) implies j == i as int by {
                        if j < i as int {
                            assert(rule_holds(tag, values@, j));
                        } else if j > i as int {
                            assert(rule_holds(tag, values@, i as int));
                        }
                    }
                }
                return Err(e);
            },
        }
        i += 1;
    }
    let c: Color = match tag {
        ColorSpaceTag::Rgb => Color::Rgb(Rgb { r: values[0], g: values[1], b: values[2] }),
        ColorSpaceTag::Cmy => Color::Cmy(Cmy { c: values[0], m: values[1], y: values[2] }),
        ColorSpaceTag::Cmyk => Color::Cmyk(
            Cmyk { c: values[0], m: values[1], y: values[2], k: values[3] },
        ),
        ColorSpaceTag::Hsv => Color::Hsv(Hsv { h: values[0], s: values[1], v: values[2] }),
        ColorSpaceTag::Hsl => Color::Hsl(Hsl { h: values[0], s: values[1], l: values[2] }),
        ColorSpaceTag::Lch => Color::Lch(Lch { l: values[0], c: values[1], h: values[2] }),
        ColorSpaceTag::Luv => Color::Luv(Luv { l: values[0], u: values[1], v: values[2] }),
        ColorSpaceTag::Lab => Color::Lab(Lab { l: values[0], a: values[1], b: values[2] }),
        ColorSpaceTag::HunterLab => Color::HunterLab(
            HunterLab { l: values[0], a: values[1], b: values[2] },
        ),
        ColorSpaceTag::Xyz => Color::Xyz(Xyz { x: values[0], y: values[1], z: values[2] }),
        ColorSpaceTag::Yxy => Color::Yxy(Yxy { y1: values[0], x: values[1], y2: values[2] }),
    };
    proof {
        assert(c.spec_components() =~= values@);
    }
    Ok(c)
}

/// Every table entry holds at most as many rules as the space has
/// components.
pub proof fn lemma_rules_within_arity(tag: ColorSpaceTag)
    ensures
        spec_rules(tag).len() <= spec_arity(tag),
{
}

/// The sign, magnitude and NaN-ness of every bound the rule table uses.
proof fn lemma_bound_patterns()
    ensures
        !is_nan(BITS_0) && !sign_bit(BITS_0) && magnitude(BITS_0) == 0,
        !is_nan(BITS_1) && !sign_bit(BITS_1) && magnitude(BITS_1) == BITS_1,
        !is_nan(BITS_100) && !sign_bit(BITS_100) && magnitude(BITS_100) == BITS_100,
        !is_nan(BITS_122) && !sign_bit(BITS_122) && magnitude(BITS_122) == BITS_122,
        !is_nan(BITS_220) && !sign_bit(BITS_220) && magnitude(BITS_220) == BITS_220,
        !is_nan(BITS_255) && !sign_bit(BITS_255) && magnitude(BITS_255) == BITS_255,
        !is_nan(BITS_360) && !sign_bit(BITS_360) && magnitude(BITS_360) == BITS_360,
        !is_nan(BITS_NEG_134) && sign_bit(BITS_NEG_134) && magnitude(BITS_NEG_134)
            == 0x4060_C000_0000_0000,
        !is_nan(BITS_NEG_140) && sign_bit(BITS_NEG_140) && magnitude(BITS_NEG_140)
            == 0x4061_8000_0000_0000,
{
    assert(!is_nan(BITS_0) && !sign_bit(BITS_0) && magnitude(BITS_0) == 0) by (bit_vector);
    assert(!is_nan(BITS_1) && !sign_bit(BITS_1) && magnitude(BITS_1) == BITS_1) by (bit_vector);
    assert(!is_nan(BITS_100) && !sign_bit(BITS_100) && magnitude(BITS_100) == BITS_100)
        by (bit_vector);
    assert(!is_nan(BITS_122) && !sign_bit(BITS_122) && magnitude(BITS_122) == BITS_122)
        by (bit_vector);
    assert(!is_nan(BITS_220) && !sign_bit(BITS_220) && magnitude(BITS_220) == BITS_220)
        by (bit_vector);
    assert(!is_nan(BITS_255) && !sign_bit(BITS_255) && magnitude(BITS_255) == BITS_255)
        by (bit_vector);
    assert(!is_nan(BITS_360) && !sign_bit(BITS_360) && magnitude(BITS_360) == BITS_360)
        by (bit_vector);
    assert(!is_nan(BITS_NEG_134) && sign_bit(BITS_NEG_134) && magnitude(BITS_NEG_134)
        == 0x4060_C000_0000_0000) by (bit_vector);
    assert(!is_nan(BITS_NEG_140) && sign_bit(BITS_NEG_140) && magnitude(BITS_NEG_140)
        == 0x4061_8000_0000_0000) by (bit_vector);
}

/// Every declared range is well formed: neither bound is NaN and the
/// minimum does not exceed the maximum.
pub proof fn lemma_rules_valid(tag: ColorSpaceTag, i: int)
    requires
        0 <= i < spec_rules(tag).len(),
    ensures
        !is_nan(spec_rules(tag)[i].1),
        !is_nan(spec_rules(tag)[i].2),
        le(spec_rules(tag)[i].1, spec_rules(tag)[i].2),
{
    lemma_bound_patterns();
}

/// Boundary inclusivity: over any well-formed range, a value equal to
/// either bound is within the range, while a value strictly below the
/// minimum or strictly above the maximum is not.
pub proof fn lemma_boundary_inclusive(min: u64, max: u64, got: u64)
    requires
        le(min, max),
    ensures
        same_value(got, min) ==> in_range(min, max, got),
        same_value(got, max) ==> in_range(min, max, got),
        lt(got, min) ==> !in_range(min, max, got),
        lt(max, got) ==> !in_range(min, max, got),
{
}

/// Negative tie-break: when the declared minimum is exactly zero, a value
/// below it is reported as `Negative` carrying the component's name and the
/// offending value, never as `OutOfRange`.
pub proof fn lemma_negative_tie_break(e: ParseError, name: Seq<char>, min: u64, max: u64, got: u64)
    requires
        is_zero(min),
        lt(got, min),
        range_error(e, name, min, max, got),
    ensures
        e matches ParseError::Negative { component, got: g } && component@ == name && g == got,
{
}

/// Below a nonzero minimum the report is `OutOfRange` carrying the full
/// declared range, never `Negative`.
pub proof fn lemma_nonzero_min_out_of_range(
    e: ParseError,
    name: Seq<char>,
    min: u64,
    max: u64,
    got: u64,
)
    requires
        !is_zero(min),
        lt(got, min),
        range_error(e, name, min, max, got),
    ensures
        e matches ParseError::OutOfRange { component, min: mn, max: mx, got: g } && component@
            == name && mn == min && mx == max && g == got,
{
}

/// First-failure ordering: at most one rule is the first violated one, so
/// the error [`build`] reports is determined by declaration order.
pub proof fn lemma_first_violation_unique(tag: ColorSpaceTag, vs: Seq<u64>, j1: int, j2: int)
    requires
        first_violation(tag, vs, j1),
        first_violation(tag, vs, j2),
    ensures
        j1 == j2,
{
    if j1 < j2 {
        assert(rule_holds(tag, vs, j1));
    } else if j2 < j1 {
        assert(rule_holds(tag, vs, j2));
    }
}

proof fn lemma_violation_has_first_from(tag: ColorSpaceTag, vs: Seq<u64>, i: int)
    requires
        0 <= i < spec_rules(tag).len(),
        !rule_holds(tag, vs, i),
    ensures
        exists|j: int| #[trigger] first_violation(tag, vs, j),
    decreases i,
{
    if forall|k: int| 0 <= k < i ==> #[trigger] rule_holds(tag, vs, k) {
        assert(first_violation(tag, vs, i));
    } else {
        let k = choose|k: int| 0 <= k < i && !#[trigger] rule_holds(tag, vs, k);
        lemma_violation_has_first_from(tag, vs, k);
    }
}

/// Whenever some constrained component is out of range, a first violated
/// rule exists, so the error [`build`]'s contract pins is always defined.
pub proof fn lemma_violation_has_first(tag: ColorSpaceTag, vs: Seq<u64>)
    requires
        !all_in_range(tag, vs),
    ensures
        exists|j: int| #[trigger] first_violation(tag, vs, j),
{
    let i = choose|i: int|
        0 <= i < spec_rules(tag).len() && !#[trigger] rule_holds(tag, vs, i);
    lemma_violation_has_first_from(tag, vs, i);
}

/// Unconstrained passthrough: XYZ and YXY declare no constrained
/// components, so any component values of correct arity build
/// successfully.
pub proof fn lemma_unconstrained_passthrough(tag: ColorSpaceTag, vs: Seq<u64>)
    requires
        tag == ColorSpaceTag::Xyz || tag == ColorSpaceTag::Yxy,
    ensures
        all_in_range(tag, vs),
{
}

} // verus!
