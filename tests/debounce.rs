use paw_one::debounce::Debouncer;
use paw_one::iter::digits::Edge;

#[test]
fn edge_after_depth_equal_samples() {
    let mut d = Debouncer::new(3, false);
    assert_eq!(d.update(true), None);
    assert_eq!(d.update(true), None);
    assert_eq!(d.update(true), Some(Edge::Rising));
    assert!(d.is_high());
    assert_eq!(d.update(true), None);
    assert_eq!(d.update(false), None);
    assert_eq!(d.update(false), None);
    assert_eq!(d.update(false), Some(Edge::Falling));
    assert!(!d.is_high());
}

#[test]
fn single_sample_flips_never_give_an_edge() {
    let mut d = Debouncer::new(2, false);
    for _ in 0..10 {
        assert_eq!(d.update(true), None);
        assert_eq!(d.update(false), None);
    }
    let mut h = Debouncer::new(4, true);
    for _ in 0..10 {
        assert_eq!(h.update(false), None);
        assert_eq!(h.update(true), None);
    }
}

#[test]
fn no_edge_when_level_already_confirmed() {
    let mut d = Debouncer::new(2, true);
    assert_eq!(d.update(true), None);
    assert_eq!(d.update(false), None);
    assert_eq!(d.update(true), None);
    assert_eq!(d.update(true), None);
    assert_eq!(d.update(false), None);
    assert_eq!(d.update(false), Some(Edge::Falling));
}

#[test]
fn depth_one_follows_every_change() {
    let mut d = Debouncer::new(1, false);
    assert_eq!(d.update(true), Some(Edge::Rising));
    assert_eq!(d.update(false), Some(Edge::Falling));
    assert_eq!(d.update(false), None);
}
