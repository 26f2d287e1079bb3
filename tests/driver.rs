use fangshan::driver::{Config, ConfigError, Driver, Poll};
use fangshan::memory::{load_words, Memory, MEMORY_WORDS};
use fangshan::registry::{InitError, Registry};
use fangshan::watchdog::{TraceAction, TraceControl, TraceWindow, Verdict, Watchdog};

fn config(timeout: u64, test_size: u64, clock_flip_time: u64, trace: Option<TraceWindow>) -> Config {
    Config { data_width: 32, timeout, test_size, clock_flip_time, trace }
}

fn driver(c: Config) -> Driver {
    match Driver::new(c, None) {
        Ok(d) => d,
        Err(e) => panic!("unexpected {:?}", e),
    }
}

#[test]
fn tick_is_time_over_clock_flip_time() {
    let d = driver(config(5, 1, 3, None));
    assert_eq!(d.tick_at(0), 0);
    assert_eq!(d.tick_at(2), 0);
    assert_eq!(d.tick_at(3), 1);
    assert_eq!(d.tick_at(10), 3);
    assert_eq!(d.tick_at(u64::MAX), u64::MAX / 3);
    let mut last: u64 = 0;
    for t in 0..100u64 {
        let k = d.tick_at(t);
        assert_eq!(k, t / 3);
        assert!(k >= last);
        last = k;
    }
}

#[test]
fn zero_clock_flip_time_is_refused() {
    let r = Driver::new(config(5, 1, 0, None), None);
    assert!(matches!(r, Err(ConfigError::ZeroClockFlipTime)));
    let r = Driver::new(config(5, 1, 0, None), Some(vec![1, 2, 3, 4]));
    assert!(matches!(r, Err(ConfigError::ZeroClockFlipTime)));
}

#[test]
fn ten_bytes_give_two_words() {
    let bytes: Vec<u8> = vec![0x01, 0x00, 0x00, 0x00, 0x78, 0x56, 0x34, 0x12, 0xaa, 0xbb];
    assert_eq!(load_words(&bytes), vec![1u32, 0x12345678]);
    assert_eq!(load_words(&vec![]), Vec::<u32>::new());
    assert_eq!(load_words(&vec![9, 9, 9]), Vec::<u32>::new());
    assert_eq!(load_words(&vec![0xff, 0xff, 0xff, 0xff]), vec![u32::MAX]);
}

#[test]
fn builtin_image_comes_first() {
    let m = Memory::builtin();
    assert_eq!(m.capacity(), MEMORY_WORDS);
    assert_eq!(m.read(0), 0x00100093);
    assert_eq!(m.read(4), 0x00200113);
    assert_eq!(m.read(8), 0x002081b3);
    assert_eq!(m.read(12), 0x00100073);
    assert_eq!(m.read(16), 0);
    let d = driver(config(5, 1, 1, None));
    assert_eq!(d.memory_capacity(), 1024);
    assert_eq!(d.read_memory(3), 0x00100093);
    assert_eq!(d.read_memory(13), 0x00100073);
}

#[test]
fn reads_beyond_capacity_give_zero() {
    let m = Memory::builtin();
    assert_eq!(m.read(4092), 0);
    assert_eq!(m.read(4096), 0);
    assert_eq!(m.read(u32::MAX), 0);
}

#[test]
fn image_memory_reads_loaded_words() {
    let bytes: Vec<u8> = vec![0x13, 0x05, 0x10, 0x00, 0xef, 0xbe, 0xad, 0xde, 0x01];
    let d = match Driver::new(config(5, 1, 1, None), Some(bytes)) {
        Ok(d) => d,
        Err(e) => panic!("unexpected {:?}", e),
    };
    assert_eq!(d.memory_capacity(), 1024);
    assert_eq!(d.read_memory(0), 0x00100513);
    assert_eq!(d.read_memory(4), 0xdeadbeef);
    assert_eq!(d.read_memory(7), 0xdeadbeef);
    assert_eq!(d.read_memory(8), 0);
    assert_eq!(d.read_memory(5000), 0);
}

#[test]
fn large_image_is_kept_whole() {
    let mut bytes: Vec<u8> = Vec::new();
    for i in 0..1030u32 {
        bytes.extend_from_slice(&(i + 7).to_le_bytes());
    }
    let m = Memory::from_image(&bytes);
    assert_eq!(m.capacity(), 1030);
    assert_eq!(m.read(0), 7);
    assert_eq!(m.read(4 * 1029), 1036);
    assert_eq!(m.read(4 * 1030), 0);
}

#[test]
fn finish_outranks_timeout() {
    let w = Watchdog { test_size: 1, timeout: 10, test_num: 1, last_input_cycle: 0 };
    assert_eq!(w.check(1000), Some(Verdict::Finish));
    let mut d = driver(config(10, 0, 1, None));
    let p = d.watchdog_at(1000);
    assert_eq!(p, Poll { verdict: Verdict::Finish, begin_capture: false, tick: 1000 });
}

#[test]
fn timeout_fires_past_window() {
    let w = Watchdog { test_size: 100, timeout: 5, test_num: 0, last_input_cycle: 0 };
    assert_eq!(w.check(6), Some(Verdict::Timeout));
    assert_eq!(w.check(5), None);
    let mut d = driver(config(5, 100, 2, None));
    assert_eq!(d.watchdog_at(11).verdict, Verdict::Continue);
    assert_eq!(d.watchdog_at(12).verdict, Verdict::Timeout);
    assert_eq!(d.watchdog_at(13), Poll { verdict: Verdict::Timeout, begin_capture: false, tick: 6 });
}

#[test]
fn input_moves_timeout_reference() {
    let mut d = driver(config(5, 100, 1, None));
    d.submit_input_at(20);
    assert_eq!(d.state().watchdog.last_input_cycle, 20);
    assert_eq!(d.watchdog_at(25).verdict, Verdict::Continue);
    assert_eq!(d.watchdog_at(26).verdict, Verdict::Timeout);
    d.submit_input_at(3);
    assert_eq!(d.state().watchdog.last_input_cycle, 20);
    let w = Watchdog { test_size: 100, timeout: 5, test_num: 0, last_input_cycle: 20 };
    assert_eq!(w.check(10), None);
}

#[test]
fn verdict_codes() {
    assert_eq!(Verdict::Continue.code(), 0);
    assert_eq!(Verdict::Timeout.code(), 1);
    assert_eq!(Verdict::Finish.code(), 2);
}

#[test]
fn capture_begins_once() {
    let w = TraceWindow { dump_start: 5, dump_end: 0 };
    let mut d = driver(config(1000, 100, 1, Some(w)));
    assert!(!d.init());
    let mut begins: u32 = 0;
    for t in 0..50u64 {
        let p = d.watchdog_at(t);
        assert_eq!(p.verdict, Verdict::Continue);
        if p.begin_capture {
            begins += 1;
            assert_eq!(t, 5);
        }
    }
    assert_eq!(begins, 1);
}

#[test]
fn capture_at_cycle_zero_begins_in_init() {
    let w = TraceWindow { dump_start: 0, dump_end: 0 };
    let mut d = driver(config(1000, 100, 1, Some(w)));
    assert!(d.init());
    assert!(!d.init());
    for t in 0..20u64 {
        assert!(!d.watchdog_at(t).begin_capture);
    }
}

#[test]
fn capture_window_end_finishes_run() {
    let w = TraceWindow { dump_start: 2, dump_end: 10 };
    let mut d = driver(config(1000, 100, 1, Some(w)));
    assert!(!d.init());
    assert_eq!(d.watchdog_at(2), Poll { verdict: Verdict::Continue, begin_capture: true, tick: 2 });
    assert_eq!(d.watchdog_at(10), Poll { verdict: Verdict::Continue, begin_capture: false, tick: 10 });
    assert_eq!(d.watchdog_at(11), Poll { verdict: Verdict::Finish, begin_capture: false, tick: 11 });
    let mut t = TraceControl::new(TraceWindow { dump_start: 3, dump_end: 4 });
    assert_eq!(t.poll(2), TraceAction::Idle);
    assert_eq!(t.poll(5), TraceAction::Finish);
    assert!(!t.is_started());
}

#[test]
fn no_capture_without_window() {
    let mut d = driver(config(1000, 100, 1, None));
    assert!(!d.init());
    for t in 0..20u64 {
        assert_eq!(d.watchdog_at(t), Poll { verdict: Verdict::Continue, begin_capture: false, tick: t });
    }
}

#[test]
fn second_install_is_refused() {
    let mut reg = Registry::new();
    assert!(!reg.is_initialized());
    let first = driver(config(5, 100, 1, Some(TraceWindow { dump_start: 0, dump_end: 0 })));
    assert_eq!(reg.install(first), Ok(true));
    assert!(reg.is_initialized());
    let second = driver(config(99, 0, 7, None));
    assert_eq!(reg.install(second), Err(InitError::AlreadyInitialized));
    assert_eq!(reg.poll_watchdog_at(3), Some(Poll { verdict: Verdict::Continue, begin_capture: false, tick: 3 }));
    assert_eq!(reg.poll_watchdog_at(6).map(|p| p.verdict), Some(Verdict::Timeout));
}

#[test]
fn registry_memory_reads() {
    let mut reg = Registry::new();
    assert_eq!(reg.mem_read(4, true), None);
    assert_eq!(reg.poll_watchdog_at(4), None);
    reg.submit_input_at(4);
    assert!(reg.install(driver(config(5, 100, 1, None))).is_ok());
    assert_eq!(reg.mem_read(4, true), Some(0x00200113));
    assert_eq!(reg.mem_read(4, false), None);
    assert_eq!(reg.mem_read(0, true), None);
    assert_eq!(reg.mem_read(8192, true), Some(0));
    reg.submit_input_at(10);
    assert_eq!(reg.poll_watchdog_at(15).map(|p| p.verdict), Some(Verdict::Continue));
    assert_eq!(reg.poll_watchdog_at(16).map(|p| p.verdict), Some(Verdict::Timeout));
}
