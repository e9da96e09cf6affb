use unix_daemonize::guard::DescriptorGuard;

#[test]
fn acquire_is_armed() {
    let g = DescriptorGuard::acquire(7);
    assert_eq!(g.raw(), 7);
    assert!(g.armed);
}

#[test]
fn vacant_owns_nothing() {
    let mut g = DescriptorGuard::vacant();
    assert!(!g.armed);
    assert_eq!(g.release(), None);
}

#[test]
fn release_yields_descriptor_exactly_once() {
    let mut g = DescriptorGuard::acquire(5);
    assert_eq!(g.release(), Some(5));
    assert_eq!(g.release(), None);
    assert_eq!(g.release(), None);
}

#[test]
fn disarm_then_release_closes_nothing() {
    let mut g = DescriptorGuard::acquire(5);
    g.disarm();
    assert_eq!(g.release(), None);
    assert_eq!(g.raw(), 5);
}

#[test]
fn negative_descriptor_is_never_handed_out() {
    let mut g = DescriptorGuard::acquire(-3);
    assert!(g.armed);
    assert_eq!(g.release(), None);
    assert!(!g.armed);
}
