use splitop::{classify_envelope_axis, classify_envelope_point, EnvelopeSide};

#[test]
fn classifies_single_points() {
    assert_eq!(
        classify_envelope_point(true, false),
        EnvelopeSide::AtOrBelowLower
    );
    assert_eq!(
        classify_envelope_point(false, true),
        EnvelopeSide::AtOrAboveUpper
    );
    assert_eq!(classify_envelope_point(false, false), EnvelopeSide::Within);
    // a degenerate window: the lower test wins
    assert_eq!(
        classify_envelope_point(true, true),
        EnvelopeSide::AtOrBelowLower
    );
}

#[test]
fn classifies_an_axis() {
    let x_envelop = 3.0f64;
    let xs: Vec<f64> = vec![-6.0, -3.0, -1.0, 0.0, 2.9, 3.0, 6.0];
    let below: Vec<bool> = xs.iter().map(|x| *x <= -x_envelop).collect();
    let above: Vec<bool> = xs.iter().map(|x| *x >= x_envelop).collect();
    let sides = classify_envelope_axis(&below, &above);
    assert_eq!(
        sides,
        vec![
            EnvelopeSide::AtOrBelowLower,
            EnvelopeSide::AtOrBelowLower,
            EnvelopeSide::Within,
            EnvelopeSide::Within,
            EnvelopeSide::Within,
            EnvelopeSide::AtOrAboveUpper,
            EnvelopeSide::AtOrAboveUpper,
        ]
    );
}

#[test]
fn boundary_and_beyond_classify_alike() {
    let x_envelop = 2.5f64;
    for x in [2.5f64, 5.0, 250.0] {
        assert_eq!(
            classify_envelope_point(x <= -x_envelop, x >= x_envelop),
            EnvelopeSide::AtOrAboveUpper
        );
        let x = -x;
        assert_eq!(
            classify_envelope_point(x <= -x_envelop, x >= x_envelop),
            EnvelopeSide::AtOrBelowLower
        );
    }
}
