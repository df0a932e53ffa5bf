use frame_pool::driver::pages_needed;
use frame_pool::errors::TickError;
use frame_pool::frame::Frame;
use frame_pool::pool::FrameManager;

#[test]
fn frame_new_is_zeroed_and_solely_owned() {
    let f = Frame::new(4);
    assert_eq!(Frame::count(&f), 1);
    assert_eq!(f.as_bytes(), &[0u8, 0, 0, 0][..]);
}

#[test]
fn frame_copy_from_overwrites_bytes() {
    let mut f = Frame::new(4);
    let data = [9u8, 8, 7, 6];
    f.copy_from(&data);
    assert_eq!(f.as_bytes(), &data[..]);
    assert_eq!(Frame::count(&f), 1);
}

#[test]
fn manager_new_all_slots_free_nothing_published() {
    let mut m = FrameManager::new(16, 3);
    assert_eq!(m.slot_count(), 3);
    assert!(!m.has_published());
    assert!(m.last_published().is_none());
    let h = m.get_free_frame().unwrap();
    assert_eq!(h.index(), 0);
    assert_eq!(m.count_of_handle(&h), 1);
}

#[test]
fn publish_makes_bytes_visible() {
    let mut m = FrameManager::new(4, 3);
    let h = m.get_free_frame().unwrap();
    m.copy_into(&h, &[1u8, 2, 3, 4]);
    m.publish(h);
    assert!(m.has_published());
    let c = m.last_published().unwrap();
    assert_eq!(m.frame_bytes(&c), &[1u8, 2, 3, 4][..]);
    m.release(c);
}

#[test]
fn last_published_is_idempotent() {
    let mut m = FrameManager::new(4, 3);
    let h = m.get_free_frame().unwrap();
    m.copy_into(&h, &[5u8, 6, 7, 8]);
    m.publish(h);
    let c1 = m.last_published().unwrap();
    let c2 = m.last_published().unwrap();
    assert_eq!(c1.index(), c2.index());
    let b1: Vec<u8> = m.frame_bytes(&c1).to_vec();
    let b2: Vec<u8> = m.frame_bytes(&c2).to_vec();
    assert_eq!(b1, b2);
    m.release(c1);
    m.release(c2);
}

#[test]
fn acquire_skips_published_and_held_slots() {
    let mut m = FrameManager::new(1, 3);
    let h = m.get_free_frame().unwrap();
    let first = h.index();
    m.copy_into(&h, &[1u8]);
    m.publish(h);
    // The published slot is still referenced by the pool's published
    // handle, so the next acquisition must pick a different slot.
    let h2 = m.get_free_frame().unwrap();
    assert_ne!(h2.index(), first);
}

#[test]
fn held_handles_on_every_slot_exhaust_the_pool() {
    let mut m = FrameManager::new(1, 2);
    // Tick one: publish slot 0 and keep a consumer handle on it.
    let h0 = m.get_free_frame().unwrap();
    m.copy_into(&h0, &[1u8]);
    m.publish(h0);
    let c0 = m.last_published().unwrap();
    // Tick two: publish slot 1 and keep a consumer handle on it.
    let h1 = m.get_free_frame().unwrap();
    m.copy_into(&h1, &[2u8]);
    m.publish(h1);
    let c1 = m.last_published().unwrap();
    assert_ne!(c0.index(), c1.index());
    // Two held consumer handles, two slots: acquisition fails fast.
    assert_eq!(m.get_free_frame().unwrap_err(), TickError::PoolExhausted);
    // A released slot becomes reusable at once, and it is the released
    // one, not the slot the remaining consumer still holds.
    let freed = c0.index();
    m.release(c0);
    let h2 = m.get_free_frame().unwrap();
    assert_eq!(h2.index(), freed);
    assert_ne!(h2.index(), c1.index());
    m.release(c1);
}

#[test]
fn released_consumer_lowers_the_count() {
    let mut m = FrameManager::new(1, 2);
    let h = m.get_free_frame().unwrap();
    m.copy_into(&h, &[3u8]);
    m.publish(h);
    let c1 = m.last_published().unwrap();
    let c2 = m.last_published().unwrap();
    // Pool's own handle + published reference + two consumers.
    assert_eq!(m.count_of_handle(&c1), 4);
    m.release(c1);
    assert_eq!(m.count_of_handle(&c2), 3);
    m.release(c2);
}

#[test]
fn zero_slot_pool_is_always_exhausted() {
    let mut m = FrameManager::new(4, 0);
    assert_eq!(m.slot_count(), 0);
    assert_eq!(m.get_free_frame().unwrap_err(), TickError::PoolExhausted);
    assert!(m.last_published().is_none());
}

#[test]
fn zero_length_frames_publish_empty_bytes() {
    let mut m = FrameManager::new(0, 2);
    let h = m.get_free_frame().unwrap();
    m.copy_into(&h, &[]);
    m.publish(h);
    let c = m.last_published().unwrap();
    assert_eq!(m.frame_bytes(&c), &[] as &[u8]);
    m.release(c);
}

#[test]
fn growth_rounds_up_to_whole_pages() {
    // 70,000 bytes with a 65,536-byte page unit needs 2 pages, not 1.
    assert_eq!(pages_needed(70_000, 0), 2);
    assert_eq!(pages_needed(65_536, 0), 1);
    assert_eq!(pages_needed(65_537, 0), 2);
    assert_eq!(pages_needed(16, 0), 1);
    assert_eq!(pages_needed(70_000, 65_536), 1);
    assert_eq!(pages_needed(131_072, 65_536), 1);
}
