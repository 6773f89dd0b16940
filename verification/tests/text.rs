use crack_core::text::floor_boundary;

#[test]
fn a_window_edge_inside_a_multibyte_character_reports_instead_of_panicking() {
    let src = "🪤 ensure_can_join( .join(x)";
    for i in 1..4 {
        assert!(!src.is_char_boundary(i), "byte {i} is inside the trap");
        assert_eq!(floor_boundary(src, i), 0);
        // The point: this does not panic.
        let _ = &src[floor_boundary(src, i)..];
    }
    // A boundary is left exactly where it is.
    assert_eq!(floor_boundary(src, 4), 4);
    assert_eq!(floor_boundary(src, 0), 0);
}

#[test]
fn past_the_end_falls_back_to_the_end() {
    let src = "ab";
    assert_eq!(floor_boundary(src, 2), 2);
    assert_eq!(floor_boundary(src, 9), 2);
}
