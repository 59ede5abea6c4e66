use geoprim::interpolate as curves;

#[test]
fn interpolate() {
    assert_eq!(curves::interpolate(0.0, 1.0, 0.5), 0.5);
    assert_eq!(curves::interpolate(0.0, 1.0, 0.0), 0.0);
    assert_eq!(curves::interpolate(0.0, 1.0, 1.0), 1.0);
    assert_eq!(curves::interpolate(0.0, 1.0, 0.25), 0.25);
    assert_eq!(curves::interpolate(0.0, 1.0, 0.75), 0.75);
}
