use snowglobe::context::{seed, Config, Context, SimTime, ThreadCreate, Timespec, SIMULATED_PID};

#[test]
fn absent_context_defers_to_libc() {
    let mut ctx = Context::new();
    assert!(!ctx.present());
    assert_eq!(ctx.clock_gettime(), None);
    let mut buf = [7u8; 4];
    assert_eq!(ctx.getrandom(&mut buf), None);
    assert_eq!(ctx.getentropy(&mut buf), None);
    assert_eq!(buf, [7u8; 4]);
    assert_eq!(ctx.getpid(), None);
    assert_eq!(ctx.pthread_create(), None);
}

#[test]
fn clock_reads_virtual_time() {
    let mut ctx = Context::new();
    ctx.enter(0, SimTime::from_millis(1_500));
    assert_eq!(ctx.clock_gettime(), Some(Timespec { tv_sec: 1, tv_nsec: 500_000_000 }));
    ctx.advance_time(SimTime { secs: 2, nanos: 1_000_001 });
    assert_eq!(ctx.clock_gettime(), Some(Timespec { tv_sec: 2, tv_nsec: 1_000_001 }));
    ctx.exit();
    assert_eq!(ctx.clock_gettime(), None);
}

#[test]
fn clock_refuses_to_go_back() {
    let mut ctx = Context::new();
    ctx.enter(0, SimTime { secs: 5, nanos: 0 });
    assert!(!ctx.can_advance_to(&SimTime { secs: 4, nanos: 999_999_999 }));
    assert!(ctx.can_advance_to(&SimTime { secs: 5, nanos: 0 }));
    assert!(ctx.can_advance_to(&SimTime { secs: 5, nanos: 1 }));
    ctx.exit();
    assert!(!ctx.can_advance_to(&SimTime { secs: 9, nanos: 0 }));
}

#[test]
fn same_seed_gives_same_bytes() {
    let mut a = Context::new();
    let mut b = Context::new();
    a.enter(42, SimTime::zero());
    b.enter(42, SimTime::zero());
    let mut x = [0u8; 32];
    let mut y = [0u8; 32];
    assert_eq!(a.getrandom(&mut x), Some(32));
    assert_eq!(b.getrandom(&mut y), Some(32));
    assert_eq!(x, y);
    let mut again = Context::new();
    again.enter(42, SimTime::zero());
    let mut first = [0u8; 16];
    let mut second = [0u8; 16];
    again.getrandom(&mut first);
    again.getrandom(&mut second);
    assert_eq!(first[..], x[..16]);
    assert_eq!(second[..], x[16..]);
    let mut z = [0u8; 32];
    let mut c = Context::new();
    c.enter(43, SimTime::zero());
    c.getrandom(&mut z);
    assert_ne!(z, x);
}

#[test]
fn getentropy_limits_length() {
    let mut ctx = Context::new();
    ctx.enter(7, SimTime::zero());
    let mut ok = vec![0u8; 256];
    assert_eq!(ctx.getentropy(&mut ok), Some(0));
    assert!(ok.iter().any(|b| *b != 0));
    let mut long = vec![0u8; 257];
    assert_eq!(ctx.getentropy(&mut long), Some(-1));
    assert!(long.iter().all(|b| *b == 0));
}

#[test]
fn simulated_process_identity_and_threads() {
    let mut ctx = Context::new();
    seed(&mut ctx, 1, SimTime::zero());
    assert_eq!(ctx.getpid(), Some(12345));
    assert_eq!(SIMULATED_PID, 12345);
    assert_eq!(ctx.pthread_create(), Some(ThreadCreate::Denied));
}

#[test]
fn sim_time_conversions() {
    assert_eq!(SimTime::from_millis(0), SimTime { secs: 0, nanos: 0 });
    assert_eq!(SimTime::from_millis(1), SimTime { secs: 0, nanos: 1_000_000 });
    assert_eq!(SimTime::from_millis(61_001), SimTime { secs: 61, nanos: 1_000_000 });
    assert!(SimTime { secs: 1, nanos: 0 }.le(&SimTime { secs: 1, nanos: 0 }));
    assert!(!SimTime { secs: 2, nanos: 0 }.le(&SimTime { secs: 1, nanos: 999_999_999 }));
    let cfg = Config::default();
    assert_eq!(cfg.rng_seed, 0);
    assert_eq!(cfg.start_time, SimTime::zero());
}
