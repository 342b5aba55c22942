use discordia::music;
use discordia::orchestra;

#[test]
fn music_queue_is_first_in_first_out() {
    let mut queue = music::Orchestra::new();
    assert_eq!(queue.front(), None);
    queue.add(1u32);
    queue.add(2u32);
    assert_eq!(queue.front(), Some(&1));
    assert!(!queue.update(false));
    assert_eq!(queue.front(), Some(&1));
    assert!(queue.update(true));
    assert_eq!(queue.front(), Some(&2));
    assert_eq!(queue.skip(), Some(2));
    assert_eq!(queue.skip(), None);
    assert!(!queue.update(true));
    queue.add(3);
    queue.reset();
    assert_eq!(queue.front(), None);
}

#[test]
fn orchestra_inserts_at_back() {
    let mut queue = orchestra::Orchestra::new();
    queue.insert("a");
    queue.insert("b");
    assert_eq!(queue.front().map(|t| t.audio), Some("a"));
    assert!(!queue.update(false));
    assert_eq!(queue.front().map(|t| t.audio), Some("a"));
    assert!(queue.update(true));
    assert_eq!(queue.front().map(|t| t.audio), Some("b"));
    assert_eq!(queue.skip().map(|t| t.audio), Some("b"));
    assert!(queue.skip().is_none());
    queue.insert("c");
    queue.clear();
    assert!(queue.front().is_none());
}
