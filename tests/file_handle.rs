use gbc_core::file::FileHandler;

#[test]
fn load_poll_take() {
    let mut h = FileHandler::new();
    assert!(!h.alive());
    assert!(!h.tick(Some(Some(vec![1]))));
    h.load();
    assert!(h.alive());
    assert!(!h.tick(None));
    assert!(h.alive());
    assert!(h.tick(Some(Some(vec![1, 2, 3]))));
    assert!(!h.alive());
    assert!(h.tick(None));
    assert_eq!(h.take(), vec![1, 2, 3]);
    assert!(!h.alive());
    assert!(!h.tick(None));
}

#[test]
fn cancelled_pick_goes_idle() {
    let mut h = FileHandler::new();
    h.load();
    assert!(!h.tick(Some(None)));
    assert!(!h.alive());
}
