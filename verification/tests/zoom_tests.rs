use combine_racers::zoom::{
    ease_quad_in_out, Zoom, ZOOM_DURATION_MS, ZOOM_FAR_MM, ZOOM_NEAR_MM,
};

#[test]
fn ease_curve_fixes_endpoints_and_midpoint() {
    assert_eq!(ease_quad_in_out(0), 0);
    assert_eq!(ease_quad_in_out(1000), 1000);
    assert_eq!(ease_quad_in_out(500), 500);
    // Accelerating early, decelerating late.
    assert_eq!(ease_quad_in_out(250), 125);
    assert_eq!(ease_quad_in_out(750), 875);
}

#[test]
fn toggle_swaps_the_distances_and_starts_a_glide() {
    let mut zoom = Zoom::default();
    assert!(zoom.paused);
    zoom.toggle(true);
    assert!(!zoom.paused);
    assert_eq!(zoom.from_mm, ZOOM_FAR_MM);
    assert_eq!(zoom.target_mm, ZOOM_NEAR_MM);
    assert_eq!(zoom.elapsed_ms, 0);
}

#[test]
fn unpressed_toggle_changes_nothing() {
    let mut zoom = Zoom::default();
    zoom.toggle(false);
    assert!(zoom.paused);
    assert_eq!(zoom.from_mm, ZOOM_NEAR_MM);
}

#[test]
fn toggle_mid_glide_is_ignored() {
    let mut zoom = Zoom::default();
    zoom.toggle(true);
    zoom.tick(100);
    let before = (zoom.from_mm, zoom.target_mm, zoom.elapsed_ms);
    zoom.toggle(true);
    assert_eq!((zoom.from_mm, zoom.target_mm, zoom.elapsed_ms), before);
}

#[test]
fn glide_passes_the_eased_midpoint_and_finishes_paused() {
    let mut zoom = Zoom::default();
    zoom.toggle(true);
    // Half way through 700 ms: progress 500 permille, eased 500: the
    // camera sits exactly between 80 and 20 units.
    let z = zoom.tick(350).expect("a running glide yields a distance");
    assert_eq!(z, 50_000);
    assert!(!zoom.paused);

    // The rest of the glide lands exactly on the target and pauses.
    let z = zoom.tick(350).expect("still running this tick");
    assert_eq!(z, ZOOM_NEAR_MM);
    assert!(zoom.paused);

    // Idle afterwards: no distance to apply.
    assert!(zoom.tick(100).is_none());
}

#[test]
fn overshooting_tick_caps_at_the_target() {
    let mut zoom = Zoom::default();
    zoom.toggle(true);
    let z = zoom.tick(ZOOM_DURATION_MS * 5).unwrap();
    assert_eq!(z, ZOOM_NEAR_MM);
    assert!(zoom.paused);
}

#[test]
fn a_second_toggle_glides_back_out() {
    let mut zoom = Zoom::default();
    zoom.toggle(true);
    zoom.tick(ZOOM_DURATION_MS);
    zoom.toggle(true);
    assert_eq!(zoom.from_mm, ZOOM_NEAR_MM);
    assert_eq!(zoom.target_mm, ZOOM_FAR_MM);
    let z = zoom.tick(ZOOM_DURATION_MS).unwrap();
    assert_eq!(z, ZOOM_FAR_MM);
}
