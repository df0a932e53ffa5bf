use frame_pool::driver::Driver;
use frame_pool::engine::Engine;
use frame_pool::errors::TickError;

// A program whose memory starts at zero bytes.  Its step writes a fixed
// 16-byte pattern, but only once the memory has been grown, so the first
// step (before the driver sizes the memory) is a no-op.
const GROWING_PROGRAM: &str = r#"
(module
  (memory (export "image_buffer") 0)
  (func (export "tick")
    (if (i32.gt_u (memory.size) (i32.const 0))
      (then
        (i32.store8 (i32.const 0) (i32.const 10))
        (i32.store8 (i32.const 1) (i32.const 11))
        (i32.store8 (i32.const 2) (i32.const 12))
        (i32.store8 (i32.const 3) (i32.const 13))
        (i32.store8 (i32.const 4) (i32.const 14))
        (i32.store8 (i32.const 5) (i32.const 15))
        (i32.store8 (i32.const 6) (i32.const 16))
        (i32.store8 (i32.const 7) (i32.const 17))
        (i32.store8 (i32.const 8) (i32.const 18))
        (i32.store8 (i32.const 9) (i32.const 19))
        (i32.store8 (i32.const 10) (i32.const 20))
        (i32.store8 (i32.const 11) (i32.const 21))
        (i32.store8 (i32.const 12) (i32.const 22))
        (i32.store8 (i32.const 13) (i32.const 23))
        (i32.store8 (i32.const 14) (i32.const 24))
        (i32.store8 (i32.const 15) (i32.const 25))))))
"#;

// A program whose step succeeds exactly once, writing a recognizable
// byte, and traps on every later call.
const FAULTING_PROGRAM: &str = r#"
(module
  (memory (export "image_buffer") 1)
  (global $n (mut i32) (i32.const 0))
  (func (export "tick")
    (if (i32.gt_u (global.get $n) (i32.const 0))
      (then unreachable))
    (global.set $n (i32.const 1))
    (i32.store8 (i32.const 0) (i32.const 42))))
"#;

// A program whose memory is pinned at zero pages: growth always fails.
const FIXED_EMPTY_PROGRAM: &str = r#"
(module
  (memory (export "image_buffer") 0 0)
  (func (export "tick")))
"#;

fn pattern() -> Vec<u8> {
    (10u8..26u8).collect()
}

#[test]
fn first_tick_grows_copies_and_publishes() {
    // Pool of 3 slots, 2x2 RGBA image (16 bytes), memory starts empty.
    let engine = Engine::load(GROWING_PROGRAM, "image_buffer", "tick").unwrap();
    let mut d = Driver::new(engine, 2, 2, 3, 10);
    assert!(!d.has_published());
    d.start();
    // The first step runs before the driver grows the memory, so the
    // program leaves it untouched; the tick still grows, copies and
    // publishes 16 bytes matching the (zeroed) engine memory.
    d.tick().unwrap();
    let h = d.last_published().unwrap();
    assert_eq!(d.frame_bytes(&h), &[0u8; 16][..]);
    d.release(h);
    // On the second tick the program sees the grown memory and writes its
    // pattern; the published bytes must match it exactly.
    d.tick().unwrap();
    let h = d.last_published().unwrap();
    assert_eq!(d.frame_bytes(&h), &pattern()[..]);
    d.release(h);
}

#[test]
fn slow_consumer_never_loses_its_slot() {
    let engine = Engine::load(GROWING_PROGRAM, "image_buffer", "tick").unwrap();
    let mut d = Driver::new(engine, 2, 2, 3, 10);
    d.start();
    d.tick().unwrap();
    // A slow consumer keeps the handle from the first tick.
    let held = d.last_published().unwrap();
    let held_slot = held.index();
    // The next tick must select a slot distinct from the held one.
    d.tick().unwrap();
    let fresh = d.last_published().unwrap();
    assert_ne!(fresh.index(), held_slot);
    // The held snapshot is untouched by the later publish.
    assert_eq!(d.frame_bytes(&held), &[0u8; 16][..]);
    assert_eq!(d.frame_bytes(&fresh), &pattern()[..]);
    d.release(held);
    d.release(fresh);
}

#[test]
fn engine_fault_keeps_previous_frame_visible() {
    let engine = Engine::load(FAULTING_PROGRAM, "image_buffer", "tick").unwrap();
    let mut d = Driver::new(engine, 1, 1, 3, 10);
    d.start();
    // First tick succeeds and publishes the written byte plus zero fill.
    d.tick().unwrap();
    let before: Vec<u8> = {
        let h = d.last_published().unwrap();
        let b = d.frame_bytes(&h).to_vec();
        d.release(h);
        b
    };
    assert_eq!(before, vec![42u8, 0, 0, 0]);
    // Second tick: the step traps; the tick reports the fault and the
    // published bytes are exactly those of the previous tick.
    assert_eq!(d.tick().unwrap_err(), TickError::EngineFault);
    let h = d.last_published().unwrap();
    assert_eq!(d.frame_bytes(&h), &before[..]);
    d.release(h);
}

#[test]
fn failed_growth_is_a_memory_fault() {
    let engine = Engine::load(FIXED_EMPTY_PROGRAM, "image_buffer", "tick").unwrap();
    let mut d = Driver::new(engine, 1, 1, 3, 10);
    d.start();
    assert_eq!(d.tick().unwrap_err(), TickError::MemoryFault);
    assert!(!d.has_published());
}

#[test]
fn missing_exports_are_engine_faults() {
    let faults = [
        Engine::load(GROWING_PROGRAM, "no_such_memory", "tick"),
        Engine::load(GROWING_PROGRAM, "image_buffer", "no_such_function"),
        Engine::load("(module (garbage", "image_buffer", "tick"),
    ];
    for outcome in faults {
        match outcome {
            Ok(_) => panic!("loading should have failed"),
            Err(e) => assert_eq!(e, TickError::EngineFault),
        }
    }
}

#[test]
fn reading_past_the_view_is_a_view_fault() {
    let engine = Engine::load(FIXED_EMPTY_PROGRAM, "image_buffer", "tick").unwrap();
    let mut buf = vec![7u8; 16];
    assert_eq!(engine.read_into(0, &mut buf).unwrap_err(), TickError::ViewFault);
    // A failed read never resizes the buffer.
    assert_eq!(buf.len(), 16);
}

#[test]
fn read_reflects_program_writes() {
    let engine = Engine::load(FAULTING_PROGRAM, "image_buffer", "tick").unwrap();
    let mut d = Driver::new(engine, 1, 1, 3, 10);
    d.start();
    d.tick().unwrap();
    // The copy observed the byte the program wrote, so the engine read
    // really returned the memory contents rather than the buffer it was
    // handed.
    let h = d.last_published().unwrap();
    assert_eq!(d.frame_bytes(&h)[0], 42u8);
    d.release(h);
}
