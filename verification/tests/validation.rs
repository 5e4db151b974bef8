use colorvalid::color::{Color, ColorSpaceTag, Lab, Luv, Rgb, Xyz};
use colorvalid::convert::{
    build, component_rule, constrained_components, required_components, validate_component,
    ParseError, BITS_0, BITS_1, BITS_100, BITS_122, BITS_220, BITS_255, BITS_360, BITS_NEG_134,
    BITS_NEG_140,
};

fn bits(x: f64) -> u64 {
    x.to_bits()
}

fn b3(a: f64, b: f64, c: f64) -> Vec<u64> {
    vec![bits(a), bits(b), bits(c)]
}

fn all_tags() -> Vec<ColorSpaceTag> {
    vec![
        ColorSpaceTag::Rgb,
        ColorSpaceTag::Cmy,
        ColorSpaceTag::Cmyk,
        ColorSpaceTag::Hsv,
        ColorSpaceTag::Hsl,
        ColorSpaceTag::Lch,
        ColorSpaceTag::Luv,
        ColorSpaceTag::Lab,
        ColorSpaceTag::HunterLab,
        ColorSpaceTag::Xyz,
        ColorSpaceTag::Yxy,
    ]
}

#[test]
fn bound_constants_match_float_bits() {
    assert_eq!(BITS_0, 0.0f64.to_bits());
    assert_eq!(BITS_1, 1.0f64.to_bits());
    assert_eq!(BITS_100, 100.0f64.to_bits());
    assert_eq!(BITS_122, 122.0f64.to_bits());
    assert_eq!(BITS_220, 220.0f64.to_bits());
    assert_eq!(BITS_255, 255.0f64.to_bits());
    assert_eq!(BITS_360, 360.0f64.to_bits());
    assert_eq!(BITS_NEG_134, (-134.0f64).to_bits());
    assert_eq!(BITS_NEG_140, (-140.0f64).to_bits());
}

#[test]
fn bit_comparisons_follow_ieee() {
    let samples: [f64; 16] = [
        0.0,
        -0.0,
        1.0,
        -1.0,
        0.5,
        -0.5,
        255.0,
        256.0,
        -134.0,
        -135.0,
        f64::INFINITY,
        f64::NEG_INFINITY,
        f64::NAN,
        f64::MIN_POSITIVE,
        5e-324,
        1e300,
    ];
    for &a in samples.iter() {
        for &b in samples.iter() {
            assert_eq!(
                colorvalid::bits::f64_lt(a.to_bits(), b.to_bits()),
                a < b,
                "lt mismatch for {a} {b}"
            );
            assert_eq!(
                colorvalid::bits::f64_same_value(a.to_bits(), b.to_bits()),
                a == b,
                "eq mismatch for {a} {b}"
            );
        }
        assert_eq!(colorvalid::bits::f64_is_zero(a.to_bits()), a == 0.0);
    }
}

#[test]
fn scenario_rgb_red_ok() {
    let r = build(ColorSpaceTag::Rgb, &b3(255.0, 0.0, 0.0));
    assert_eq!(
        r,
        Ok(Color::Rgb(Rgb { r: bits(255.0), g: bits(0.0), b: bits(0.0) }))
    );
}

#[test]
fn scenario_rgb_above_max() {
    let r = build(ColorSpaceTag::Rgb, &b3(256.0, 0.0, 0.0));
    assert_eq!(
        r,
        Err(ParseError::OutOfRange {
            component: "r",
            min: bits(0.0),
            max: bits(255.0),
            got: bits(256.0),
        })
    );
}

#[test]
fn scenario_rgb_negative() {
    let r = build(ColorSpaceTag::Rgb, &b3(-1.0, 0.0, 0.0));
    assert_eq!(
        r,
        Err(ParseError::Negative { component: "r", got: bits(-1.0) })
    );
}

#[test]
fn scenario_cmyk_wrong_arity() {
    let r = build(ColorSpaceTag::Cmyk, &b3(0.5, 0.5, 0.5));
    assert_eq!(
        r,
        Err(ParseError::NumberOfComponents { expected: 4, got: 3 })
    );
}

#[test]
fn scenario_luv_below_nonzero_min() {
    let r = build(ColorSpaceTag::Luv, &b3(50.0, -135.0, 0.0));
    assert_eq!(
        r,
        Err(ParseError::OutOfRange {
            component: "u",
            min: bits(-134.0),
            max: bits(220.0),
            got: bits(-135.0),
        })
    );
}

#[test]
fn scenario_xyz_unconstrained() {
    let r = build(ColorSpaceTag::Xyz, &b3(-500.0, 9999.0, 0.0));
    assert_eq!(
        r,
        Ok(Color::Xyz(Xyz { x: bits(-500.0), y: bits(9999.0), z: bits(0.0) }))
    );
}

#[test]
fn arity_error_for_every_tag_and_wrong_length() {
    for &tag in all_tags().iter() {
        let expected = required_components(tag);
        for len in [0usize, 1, 2, 3, 4, 5] {
            if len == expected {
                continue;
            }
            // out-of-range values must not matter: arity is checked first
            let vals: Vec<u64> = vec![bits(-99999.0); len];
            assert_eq!(
                build(tag, &vals),
                Err(ParseError::NumberOfComponents { expected, got: len }),
                "tag {tag:?} len {len}"
            );
        }
    }
}

#[test]
fn boundary_min_and_max_succeed_for_every_rule() {
    for &tag in all_tags().iter() {
        let arity = required_components(tag);
        let nrules = constrained_components(tag);
        // start from a vector of per-component minima (in-range everywhere)
        let mut mins: Vec<u64> = vec![bits(0.0); arity];
        let mut maxs: Vec<u64> = vec![bits(0.0); arity];
        for i in 0..nrules {
            let (_, mn, mx) = component_rule(tag, i);
            mins[i] = mn;
            maxs[i] = mx;
        }
        assert!(build(tag, &mins).is_ok(), "minima rejected for {tag:?}");
        assert!(build(tag, &maxs).is_ok(), "maxima rejected for {tag:?}");
    }
}

#[test]
fn boundary_just_outside_fails_for_every_rule() {
    for &tag in all_tags().iter() {
        let arity = required_components(tag);
        let nrules = constrained_components(tag);
        for i in 0..nrules {
            let (name, mn, mx) = component_rule(tag, i);
            let below = f64::from_bits(mn) - 0.0001;
            let above = f64::from_bits(mx) + 0.0001;

            let mut vals: Vec<u64> = vec![bits(0.0); arity];
            vals[i] = bits(below);
            let r = build(tag, &vals);
            match r {
                Err(ParseError::Negative { component, got }) => {
                    assert_eq!(f64::from_bits(mn), 0.0, "Negative for nonzero min {tag:?}");
                    assert_eq!(component, name);
                    assert_eq!(got, bits(below));
                }
                Err(ParseError::OutOfRange { component, min, max, got }) => {
                    assert_ne!(f64::from_bits(mn), 0.0, "OutOfRange for zero min {tag:?}");
                    assert_eq!(component, name);
                    assert_eq!(min, mn);
                    assert_eq!(max, mx);
                    assert_eq!(got, bits(below));
                }
                other => panic!("below-min accepted for {tag:?} {name}: {other:?}"),
            }

            let mut vals: Vec<u64> = vec![bits(0.0); arity];
            vals[i] = bits(above);
            assert_eq!(
                build(tag, &vals),
                Err(ParseError::OutOfRange {
                    component: name,
                    min: mn,
                    max: mx,
                    got: bits(above),
                }),
                "above-max not rejected for {tag:?} {name}"
            );
        }
    }
}

#[test]
fn negative_tie_break_for_zero_minimum() {
    // every component whose minimum is zero reports Negative, never OutOfRange
    for (tag, vals, component) in [
        (ColorSpaceTag::Rgb, b3(-0.5, 0.0, 0.0), "r"),
        (ColorSpaceTag::Cmy, b3(0.5, -0.5, 0.5), "m"),
        (ColorSpaceTag::Hsv, b3(-0.5, 0.5, 0.5), "h"),
        (ColorSpaceTag::Lch, b3(50.0, -0.5, 180.0), "c"),
        (ColorSpaceTag::Lab, b3(-0.5, 0.0, 0.0), "l"),
    ] {
        let got = *vals
            .iter()
            .find(|&&v| f64::from_bits(v) < 0.0)
            .expect("one negative value per case");
        assert_eq!(
            build(tag, &vals),
            Err(ParseError::Negative { component, got }),
            "tag {tag:?}"
        );
    }
}

#[test]
fn luv_below_nonzero_minimum_is_out_of_range() {
    let r = build(ColorSpaceTag::Luv, &b3(50.0, 0.0, -141.0));
    assert_eq!(
        r,
        Err(ParseError::OutOfRange {
            component: "v",
            min: bits(-140.0),
            max: bits(122.0),
            got: bits(-141.0),
        })
    );
    // a negative value inside the range is simply accepted
    assert!(build(ColorSpaceTag::Luv, &b3(50.0, -134.0, -140.0)).is_ok());
}

#[test]
fn first_failure_in_declaration_order() {
    // r and b are both invalid: r is reported
    assert_eq!(
        build(ColorSpaceTag::Rgb, &b3(-1.0, 300.0, -5.0)),
        Err(ParseError::Negative { component: "r", got: bits(-1.0) })
    );
    // r valid, g and b invalid: g is reported
    assert_eq!(
        build(ColorSpaceTag::Rgb, &b3(0.0, 300.0, -5.0)),
        Err(ParseError::OutOfRange {
            component: "g",
            min: bits(0.0),
            max: bits(255.0),
            got: bits(300.0),
        })
    );
    // l and u both invalid for LUV: l is reported
    assert_eq!(
        build(ColorSpaceTag::Luv, &b3(200.0, -135.0, 0.0)),
        Err(ParseError::OutOfRange {
            component: "l",
            min: bits(0.0),
            max: bits(100.0),
            got: bits(200.0),
        })
    );
}

#[test]
fn unconstrained_components_pass_any_magnitude() {
    assert!(build(ColorSpaceTag::Xyz, &b3(-1e308, 1e308, -0.0)).is_ok());
    assert!(build(ColorSpaceTag::Yxy, &b3(-500.0, 9999.0, -1.0)).is_ok());
    // LAB and Hunter Lab constrain only the first component
    assert!(build(ColorSpaceTag::Lab, &b3(50.0, -999.0, 999.0)).is_ok());
    assert!(build(ColorSpaceTag::HunterLab, &b3(100.0, 1e20, -1e20)).is_ok());
    assert_eq!(
        build(ColorSpaceTag::Lab, &b3(100.5, 0.0, 0.0)),
        Err(ParseError::OutOfRange {
            component: "l",
            min: bits(0.0),
            max: bits(100.0),
            got: bits(100.5),
        })
    );
}

#[test]
fn round_trip_components_for_every_space() {
    for &tag in all_tags().iter() {
        let arity = required_components(tag);
        let vals: Vec<u64> = if tag == ColorSpaceTag::Luv {
            b3(50.0, -1.5, 100.25)
        } else {
            (0..arity).map(|i| bits(0.25 * i as f64)).collect()
        };
        let c = build(tag, &vals).expect("in-range values accepted");
        assert_eq!(c.tag(), tag);
        assert_eq!(c.components(), vals, "components changed for {tag:?}");
    }
}

#[test]
fn nan_and_negative_zero_follow_ieee_comparisons() {
    // NaN is neither below any minimum nor above any maximum
    let r = build(ColorSpaceTag::Rgb, &b3(f64::NAN, 0.0, 0.0));
    assert!(r.is_ok());
    let c = r.unwrap();
    assert!(f64::from_bits(c.components()[0]).is_nan());
    // -0.0 equals 0.0, so it is not negative
    assert!(build(ColorSpaceTag::Rgb, &b3(-0.0, 0.0, 0.0)).is_ok());
    // but anything strictly below -0.0 is
    assert_eq!(
        build(ColorSpaceTag::Rgb, &b3(-5e-324, 0.0, 0.0)),
        Err(ParseError::Negative { component: "r", got: bits(-5e-324) })
    );
}

#[test]
fn validate_component_primitive() {
    assert_eq!(validate_component("x", bits(0.0), bits(1.0), bits(0.5)), Ok(()));
    assert_eq!(validate_component("x", bits(0.0), bits(1.0), bits(0.0)), Ok(()));
    assert_eq!(validate_component("x", bits(0.0), bits(1.0), bits(1.0)), Ok(()));
    assert_eq!(
        validate_component("x", bits(0.0), bits(1.0), bits(-0.25)),
        Err(ParseError::Negative { component: "x", got: bits(-0.25) })
    );
    assert_eq!(
        validate_component("x", bits(0.0), bits(1.0), bits(1.25)),
        Err(ParseError::OutOfRange {
            component: "x",
            min: bits(0.0),
            max: bits(1.0),
            got: bits(1.25),
        })
    );
    // below a nonzero minimum: OutOfRange, not Negative
    assert_eq!(
        validate_component("x", bits(-134.0), bits(220.0), bits(-200.0)),
        Err(ParseError::OutOfRange {
            component: "x",
            min: bits(-134.0),
            max: bits(220.0),
            got: bits(-200.0),
        })
    );
}

#[test]
fn rule_table_shape() {
    for &tag in all_tags().iter() {
        let expected = if tag == ColorSpaceTag::Cmyk { 4 } else { 3 };
        assert_eq!(required_components(tag), expected);
        assert!(constrained_components(tag) <= expected);
    }
    assert_eq!(constrained_components(ColorSpaceTag::Rgb), 3);
    assert_eq!(constrained_components(ColorSpaceTag::Cmyk), 4);
    assert_eq!(constrained_components(ColorSpaceTag::Lab), 1);
    assert_eq!(constrained_components(ColorSpaceTag::Xyz), 0);
    let (name, mn, mx) = component_rule(ColorSpaceTag::Luv, 1);
    assert_eq!((name, mn, mx), ("u", bits(-134.0), bits(220.0)));
    let (name, mn, mx) = component_rule(ColorSpaceTag::Hsv, 0);
    assert_eq!((name, mn, mx), ("h", bits(0.0), bits(360.0)));
}

#[test]
fn lab_components_preserved() {
    let c = build(ColorSpaceTag::Lab, &b3(42.5, -12.25, 7.75)).unwrap();
    match c {
        Color::Lab(Lab { l, a, b }) => {
            assert_eq!(f64::from_bits(l), 42.5);
            assert_eq!(f64::from_bits(a), -12.25);
            assert_eq!(f64::from_bits(b), 7.75);
        }
        other => panic!("wrong variant: {other:?}"),
    }
}

#[test]
fn luv_in_range_negative_values_accepted() {
    let c = build(ColorSpaceTag::Luv, &b3(0.0, -134.0, -140.0)).unwrap();
    match c {
        Color::Luv(Luv { l, u, v }) => {
            assert_eq!(f64::from_bits(l), 0.0);
            assert_eq!(f64::from_bits(u), -134.0);
            assert_eq!(f64::from_bits(v), -140.0);
        }
        other => panic!("wrong variant: {other:?}"),
    }
}
