use kild_ui::blink::BlinkManager;

#[test]
fn blink_starts_visible_and_disabled() {
    let b = BlinkManager::new();
    assert!(b.visible());
    assert!(!b.enabled);
}

#[test]
fn stale_ticks_are_ignored() {
    let mut b = BlinkManager::new();
    let first = b.enable();
    assert!(b.tick(first));
    assert!(!b.visible());
    let second = b.pause().unwrap();
    assert!(b.visible());
    assert!(!b.tick(first));
    assert!(b.visible());
    assert!(b.tick(second));
    assert!(!b.visible());
    assert!(b.tick(second));
    assert!(b.visible());
}

#[test]
fn pause_does_nothing_when_not_blinking() {
    let mut b = BlinkManager::new();
    assert_eq!(b.pause(), None);
    assert_eq!(b, BlinkManager::new());
}
