#[test]
fn test_stable_slider_leniency() {}
