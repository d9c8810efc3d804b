use nexus_shell::zoom::{ZoomLevel, ZOOM_DEFAULT_TENTHS, ZOOM_MAX_TENTHS, ZOOM_MIN_TENTHS};

#[test]
fn default_level_is_one() {
    let z = ZoomLevel::new();
    assert_eq!(z.tenths(), ZOOM_DEFAULT_TENTHS);
    assert_eq!(z.tenths(), 10);
}

#[test]
fn zoom_in_raises_by_one_step() {
    let mut z = ZoomLevel::new();
    z.zoom_in();
    assert_eq!(z.tenths(), 11);
    z.zoom_in();
    assert_eq!(z.tenths(), 12);
}

#[test]
fn zoom_out_lowers_by_one_step() {
    let mut z = ZoomLevel::new();
    z.zoom_out();
    assert_eq!(z.tenths(), 9);
    z.zoom_out();
    assert_eq!(z.tenths(), 8);
}

#[test]
fn thirty_zoom_ins_clamp_at_three() {
    // From 1.0, thirty zoom-in steps clamp at exactly 3.0 (30 tenths),
    // not 4.0 (40 tenths).
    let mut z = ZoomLevel::new();
    for _ in 0..30 {
        z.zoom_in();
    }
    assert_eq!(z.tenths(), ZOOM_MAX_TENTHS);
    assert_eq!(z.tenths(), 30);
}

#[test]
fn zoom_out_clamps_then_reset_restores() {
    // From 1.0, five zoom-out steps reach 0.5; a sixth stays at 0.5;
    // a reset restores 1.0.
    let mut z = ZoomLevel::new();
    for _ in 0..5 {
        z.zoom_out();
    }
    assert_eq!(z.tenths(), ZOOM_MIN_TENTHS);
    assert_eq!(z.tenths(), 5);
    z.zoom_out();
    assert_eq!(z.tenths(), 5);
    z.zoom_reset();
    assert_eq!(z.tenths(), ZOOM_DEFAULT_TENTHS);
}

#[test]
fn reset_yields_default_from_any_prior_state() {
    let mut z = ZoomLevel::new();
    for _ in 0..30 {
        z.zoom_in();
    }
    z.zoom_reset();
    assert_eq!(z.tenths(), 10);

    let mut z = ZoomLevel::new();
    for _ in 0..7 {
        z.zoom_out();
    }
    z.zoom_reset();
    assert_eq!(z.tenths(), 10);

    let mut z = ZoomLevel::new();
    z.zoom_reset();
    assert_eq!(z.tenths(), 10);
}

#[test]
fn mixed_sequences_stay_in_range() {
    let mut z = ZoomLevel::new();
    for i in 0..100 {
        if i % 3 == 0 {
            z.zoom_in();
        } else {
            z.zoom_out();
        }
        assert!(ZOOM_MIN_TENTHS <= z.tenths() && z.tenths() <= ZOOM_MAX_TENTHS);
    }
}
