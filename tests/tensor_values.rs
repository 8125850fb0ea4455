use animegan_rs_lib::emit::emit;
use animegan_rs_lib::ingest::to_planar;
use animegan_rs_lib::tensor::{denormalize, normalize, FIXED_ONE, PLANE, TENSOR_LEN};

#[test]
fn normalize_end_points() {
    assert_eq!(normalize(0), -FIXED_ONE);
    assert_eq!(normalize(255), FIXED_ONE);
    assert_eq!(normalize(128), 128);
    assert_eq!(normalize(127), -128);
}

#[test]
fn denormalize_rounds_and_clamps() {
    assert_eq!(denormalize(FIXED_ONE), 255);
    assert_eq!(denormalize(-FIXED_ONE), 0);
    assert_eq!(denormalize(0), 128);
    assert_eq!(denormalize(2 * FIXED_ONE), 255);
    assert_eq!(denormalize(-2 * FIXED_ONE), 0);
    assert_eq!(denormalize(i32::MAX), 255);
    assert_eq!(denormalize(i32::MIN), 0);
    // (q + 32640) / 256 = 0.49.. rounds down, 0.5 rounds up
    assert_eq!(denormalize(-FIXED_ONE + 127), 0);
    assert_eq!(denormalize(-FIXED_ONE + 128), 1);
}

#[test]
fn denormalize_inverts_normalize_for_every_byte() {
    for v in 0..=255u8 {
        assert_eq!(denormalize(normalize(v)), v);
    }
}

#[test]
fn normalized_values_match_the_real_formula() {
    for v in 0..=255u8 {
        let real = (v as f64 / 255.0) * 2.0 - 1.0;
        let fixed = normalize(v) as f64 / FIXED_ONE as f64;
        assert!((real - fixed).abs() < 1e-9);
    }
}

#[test]
fn emit_reverses_channels() {
    let mut t = vec![0i32; TENSOR_LEN];
    for p in 0..PLANE {
        t[p] = FIXED_ONE;
        t[PLANE + p] = -FIXED_ONE;
        t[2 * PLANE + p] = -FIXED_ONE;
    }
    let rgb = emit(&t);
    assert_eq!(rgb.len(), 3 * PLANE);
    // red, green, blue
    assert_eq!(&rgb[0..3], &[0, 0, 255]);
    assert_eq!(&rgb[3 * (PLANE - 1)..], &[0, 0, 255]);
}

#[test]
fn emit_reads_each_position() {
    let mut t = vec![0i32; TENSOR_LEN];
    // position (y = 1, x = 2)
    let p = 512 + 2;
    t[p] = normalize(10);
    t[PLANE + p] = normalize(20);
    t[2 * PLANE + p] = normalize(30);
    let rgb = emit(&t);
    assert_eq!(&rgb[3 * p..3 * p + 3], &[30, 20, 10]);
    assert_eq!(&rgb[0..3], &[128, 128, 128]);
}

#[test]
fn planar_layout_then_emit_swaps_red_and_blue() {
    let mut rgb = vec![0u8; 3 * PLANE];
    for (i, b) in rgb.iter_mut().enumerate() {
        *b = (i % 251) as u8;
    }
    let t = to_planar(&rgb);
    assert_eq!(t.len(), TENSOR_LEN);
    assert_eq!(t[0], normalize(rgb[0]));
    assert_eq!(t[PLANE], normalize(rgb[1]));
    assert_eq!(t[2 * PLANE + 7], normalize(rgb[3 * 7 + 2]));
    let back = emit(&t);
    for p in 0..PLANE {
        assert_eq!(back[3 * p], rgb[3 * p + 2]);
        assert_eq!(back[3 * p + 1], rgb[3 * p + 1]);
        assert_eq!(back[3 * p + 2], rgb[3 * p]);
    }
}
