use linux_stat::errno::table;
use linux_stat::flags::StatXMask;
use linux_stat::raw;
use linux_stat::record::{StatFields, StatxFields};
use linux_stat::resolve::{extended_answer, fstatat_with, legacy_answer};
use linux_stat::{Call, CapabilityState, Errno, Request, Stat, Step};

/// A kernel that counts the calls it gets.
struct Kernel {
    has_extended: bool,
    fail_with: Option<i32>,
    extended_calls: u32,
    legacy_calls: u32,
}

impl Kernel {
    fn new(has_extended: bool) -> Self {
        Kernel { has_extended, fail_with: None, extended_calls: 0, legacy_calls: 0 }
    }

    fn extended(&mut self) -> Result<raw::Statx, Errno> {
        self.extended_calls += 1;
        if let Some(code) = self.fail_with {
            return Err(Errno::new(code));
        }
        if !self.has_extended {
            return Err(Errno::new(table::ENOSYS));
        }
        let mut f = StatxFields::zeroed();
        f.ino = 42;
        Ok(raw::Statx::from_fields(&f).unwrap())
    }

    fn legacy(&mut self) -> Result<raw::stat, Errno> {
        self.legacy_calls += 1;
        let mut f = StatFields::zeroed();
        f.ino = 42;
        Ok(raw::stat::X86(raw::x86::stat::from_fields(&f).unwrap()))
    }
}

fn request(cache: &mut u8, kernel: &mut Kernel) -> Result<Stat, Errno> {
    let state = CapabilityState::from_u8(*cache);
    let kernel = std::cell::RefCell::new(kernel);
    let asked = linux_stat::stat(b"/dev/null").unwrap();
    let (next, answer) = fstatat_with(
        state,
        &asked,
        |r: &Request, mask: StatXMask| {
            assert_eq!(r.path.as_bytes_with_nul(), b"/dev/null\0");
            assert_eq!(r.dirfd, -100);
            assert_eq!(mask.bits(), StatXMask::BASIC_STATS);
            kernel.borrow_mut().extended()
        },
        |r: &Request| {
            assert_eq!(r.path.as_bytes_with_nul(), b"/dev/null\0");
            assert_eq!(r.flags.bits(), 0);
            kernel.borrow_mut().legacy()
        },
    );
    if next != state {
        *cache = next.as_u8();
    }
    answer
}

fn request_step_by_step(cache: &mut u8, kernel: &mut Kernel) -> Result<Stat, Errno> {
    let state = CapabilityState::from_u8(*cache);
    match state.first_call() {
        Call::Legacy => legacy_answer(kernel.legacy()),
        Call::Extended => {
            let (next, step) = state.after_extended(kernel.extended());
            if next != state {
                *cache = next.as_u8();
            }
            match step {
                Step::Done(answer) => answer,
                Step::Fallback => legacy_answer(kernel.legacy()),
            }
        }
    }
}

#[test]
fn steps_and_driver_agree() {
    for has_extended in [false, true] {
        let mut cache_a = CapabilityState::initial().as_u8();
        let mut cache_b = cache_a;
        let mut kernel_a = Kernel::new(has_extended);
        let mut kernel_b = Kernel::new(has_extended);
        for _ in 0..4 {
            let a = request(&mut cache_a, &mut kernel_a).map(|s| s.inode());
            let b = request_step_by_step(&mut cache_b, &mut kernel_b).map(|s| s.inode());
            assert_eq!(a, b);
            assert_eq!(cache_a, cache_b);
            assert_eq!(kernel_a.extended_calls, kernel_b.extended_calls);
            assert_eq!(kernel_a.legacy_calls, kernel_b.legacy_calls);
        }
    }
}

#[test]
fn not_implemented_pins_the_legacy_call() {
    let mut cache = CapabilityState::initial().as_u8();
    let mut kernel = Kernel::new(false);
    let first = request(&mut cache, &mut kernel).unwrap();
    assert!(matches!(first, Stat::Stat64(_)));
    assert_eq!(first.inode(), 42);
    assert_eq!((kernel.extended_calls, kernel.legacy_calls), (1, 1));
    assert_eq!(CapabilityState::from_u8(cache), CapabilityState::Unsupported);
    for n in 2..10 {
        let next = request(&mut cache, &mut kernel).unwrap();
        assert!(matches!(next, Stat::Stat64(_)));
        assert_eq!((kernel.extended_calls, kernel.legacy_calls), (1, n));
        assert_eq!(CapabilityState::from_u8(cache), CapabilityState::Unsupported);
    }
    // Even a kernel that learns the call is not asked again.
    kernel.has_extended = true;
    request(&mut cache, &mut kernel).unwrap();
    assert_eq!(kernel.extended_calls, 1);
}

#[test]
fn success_pins_the_extended_call() {
    let mut cache = CapabilityState::initial().as_u8();
    let mut kernel = Kernel::new(true);
    let first = request(&mut cache, &mut kernel).unwrap();
    assert!(matches!(first, Stat::Statx(_)));
    assert_eq!((kernel.extended_calls, kernel.legacy_calls), (1, 0));
    assert_eq!(CapabilityState::from_u8(cache), CapabilityState::Supported);
    // From now on the answer of the extended call stands, whatever it is.
    kernel.has_extended = false;
    let second = request(&mut cache, &mut kernel);
    assert_eq!(second.unwrap_err(), Errno::new(table::ENOSYS));
    assert_eq!((kernel.extended_calls, kernel.legacy_calls), (2, 0));
    assert_eq!(CapabilityState::from_u8(cache), CapabilityState::Supported);
}

#[test]
fn other_failure_settles_nothing() {
    let mut cache = CapabilityState::initial().as_u8();
    let mut kernel = Kernel::new(true);
    kernel.fail_with = Some(table::EINTR);
    assert_eq!(request(&mut cache, &mut kernel).unwrap_err(), Errno::new(table::EINTR));
    assert_eq!((kernel.extended_calls, kernel.legacy_calls), (1, 0));
    assert_eq!(CapabilityState::from_u8(cache), CapabilityState::Unknown);
    kernel.fail_with = Some(table::ENOENT);
    assert_eq!(request(&mut cache, &mut kernel).unwrap_err(), Errno::new(table::ENOENT));
    assert_eq!(CapabilityState::from_u8(cache), CapabilityState::Unknown);
    kernel.fail_with = None;
    assert!(request(&mut cache, &mut kernel).is_ok());
    assert_eq!(CapabilityState::from_u8(cache), CapabilityState::Supported);
    assert_eq!((kernel.extended_calls, kernel.legacy_calls), (3, 0));
}

#[test]
fn state_goes_through_a_small_integer() {
    assert_eq!(CapabilityState::Unsupported.as_u8(), 0);
    assert_eq!(CapabilityState::Supported.as_u8(), 1);
    assert_eq!(CapabilityState::Unknown.as_u8(), 2);
    assert_eq!(CapabilityState::from_u8(0), CapabilityState::Unsupported);
    assert_eq!(CapabilityState::from_u8(1), CapabilityState::Supported);
    assert_eq!(CapabilityState::from_u8(2), CapabilityState::Unknown);
    assert_eq!(CapabilityState::from_u8(200), CapabilityState::Unknown);
    assert_eq!(CapabilityState::initial(), CapabilityState::Unknown);
}

#[test]
fn first_call_follows_the_state() {
    assert_eq!(CapabilityState::Unknown.first_call(), Call::Extended);
    assert_eq!(CapabilityState::Supported.first_call(), Call::Extended);
    assert_eq!(CapabilityState::Unsupported.first_call(), Call::Legacy);
    assert_eq!(CapabilityState::Unknown.mask().bits(), StatXMask::BASIC_STATS);
    assert_eq!(CapabilityState::Supported.mask().bits(), 0x7ff);
}

#[test]
fn unsupported_state_falls_back_whatever_came() {
    let ok = raw::Statx::from_fields(&StatxFields::zeroed()).unwrap();
    let (next, step) = CapabilityState::Unsupported.after_extended(Ok(ok));
    assert_eq!(next, CapabilityState::Unsupported);
    assert!(matches!(step, Step::Fallback));
    let (next, step) = CapabilityState::Unknown.after_extended(Err(Errno::new(table::ENOSYS)));
    assert_eq!(next, CapabilityState::Unsupported);
    assert!(matches!(step, Step::Fallback));
    let (next, step) = CapabilityState::Supported.after_extended(Err(Errno::new(table::ENOSYS)));
    assert_eq!(next, CapabilityState::Supported);
    assert!(matches!(step, Step::Done(Err(e)) if e == Errno::new(table::ENOSYS)));
}

#[test]
fn answers_wrap_the_record() {
    let x = raw::Statx::from_fields(&StatxFields::zeroed()).unwrap();
    assert!(matches!(extended_answer(Ok(x)), Ok(Stat::Statx(_))));
    assert_eq!(extended_answer(Err(Errno::new(5))).unwrap_err(), Errno::new(5));
    let s = raw::stat::Arm(raw::arm::stat::uninit());
    assert!(matches!(legacy_answer(Ok(s)), Ok(Stat::Stat64(_))));
    assert_eq!(legacy_answer(Err(Errno::new(13))).unwrap_err(), Errno::new(13));
}
