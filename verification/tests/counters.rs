use coz::counter::bump;
use coz::{coz_get_counter, BackendHandle, Counter, CounterKind, Increment, Locator};
use std::cell::Cell;
use std::sync::atomic::{AtomicUsize, Ordering};

fn entry(start: usize) -> &'static AtomicUsize {
    Box::leak(Box::new(AtomicUsize::new(start)))
}

fn silent(_k: i32, _n: &'static str) -> Option<&'static AtomicUsize> {
    None
}

#[test]
fn constructors_set_kind_and_name() {
    let p = Counter::progress("p\0", silent);
    let b = Counter::begin("span\0", silent);
    let e = Counter::end("span\0", silent);
    assert_eq!(p.kind(), CounterKind::Throughput);
    assert_eq!(b.kind(), CounterKind::Begin);
    assert_eq!(e.kind(), CounterKind::End);
    assert_eq!(p.name(), "p\0");
    assert_eq!(b.name(), "span\0");
    assert_eq!(e.name(), "span\0");
}

#[test]
fn try_new_takes_readable_names_only() {
    let c = Counter::try_new(CounterKind::Begin, "span\0", silent).unwrap();
    assert_eq!(c.kind(), CounterKind::Begin);
    assert_eq!(c.name(), "span\0");
    assert!(Counter::try_new(CounterKind::Begin, "span", silent).is_none());
    assert!(Counter::try_new(CounterKind::End, "", silent).is_none());
    assert!(Counter::try_new(CounterKind::Throughput, "a\0b\0", silent).is_none());
}

#[test]
fn bump_without_counter_does_nothing() {
    assert_eq!(bump(None), Increment::NoCounter);
}

#[test]
fn bump_adds_exactly_one() {
    let count = AtomicUsize::new(41);
    assert_eq!(bump(Some(&count)), Increment::Counted);
    assert_eq!(count.load(Ordering::SeqCst), 42);
    assert_eq!(bump(Some(&count)), Increment::Counted);
    assert_eq!(count.load(Ordering::SeqCst), 43);
}

#[test]
fn bump_wraps_at_the_top() {
    let count = AtomicUsize::new(usize::MAX);
    assert_eq!(bump(Some(&count)), Increment::Counted);
    assert_eq!(count.load(Ordering::SeqCst), 0);
}

#[test]
fn registration_passes_kind_and_name() {
    let seen: Cell<Option<(i32, &'static str)>> = Cell::new(None);
    let c = Counter::end("tail\0", |k: i32, n: &'static str| -> Option<&'static AtomicUsize> {
        seen.set(Some((k, n)));
        None
    });
    let got = c.create_counter();
    assert!(got.is_none());
    assert_eq!(seen.get(), Some((3, "tail\0")));
}

#[test]
fn no_agent_means_no_effect() {
    let asked = Cell::new(0u32);
    let c = Counter::progress("idle\0", |_k: i32, _n: &'static str| -> Option<&'static AtomicUsize> {
        asked.set(asked.get() + 1);
        None
    });
    for _ in 0..1000 {
        assert_eq!(c.increment(), Increment::NoCounter);
    }
    assert_eq!(asked.get(), 1);
}

#[test]
fn a_million_uses_without_agent() {
    let lookups = Cell::new(0u32);
    let locator = Locator::new(|| {
        lookups.set(lookups.get() + 1);
        0usize
    });
    let c = Counter::progress("hot\0", |k: i32, n: &'static str| {
        coz_get_counter(
            &locator,
            k,
            n,
            &|| (),
            &|_at: usize, _k: i32, _n: &'static str| -> Option<&'static AtomicUsize> {
                unreachable!()
            },
        )
    });
    let mut silent_uses: u32 = 0;
    for _ in 0..4 {
        for _ in 0..250_000 {
            if c.increment() == Increment::NoCounter {
                silent_uses += 1;
            }
        }
    }
    assert_eq!(silent_uses, 1_000_000);
    assert_eq!(lookups.get(), 1);
}

#[test]
fn registration_happens_once_per_call_site() {
    let target = entry(0);
    let asked = Cell::new(0u32);
    let c = Counter::progress("once\0", |_k: i32, _n: &'static str| {
        asked.set(asked.get() + 1);
        Some(target)
    });
    for _ in 0..50 {
        assert_eq!(c.increment(), Increment::Counted);
    }
    assert_eq!(asked.get(), 1);
    assert_eq!(target.load(Ordering::SeqCst), 50);
}

#[test]
fn first_outcome_is_kept() {
    let first = entry(0);
    let second = entry(0);
    let asked = Cell::new(0u32);
    let c = Counter::progress("kept\0", |_k: i32, _n: &'static str| {
        asked.set(asked.get() + 1);
        if asked.get() == 1 {
            Some(first)
        } else {
            Some(second)
        }
    });
    assert_eq!(c.increment(), Increment::Counted);
    assert_eq!(c.increment(), Increment::Counted);
    assert_eq!(c.increment(), Increment::Counted);
    assert_eq!(first.load(Ordering::SeqCst), 3);
    assert_eq!(second.load(Ordering::SeqCst), 0);
    assert!(std::ptr::eq(c.counter().unwrap(), first));
    assert!(std::ptr::eq(c.create_counter().unwrap(), second));
    assert!(std::ptr::eq(c.counter().unwrap(), first));
}

#[test]
fn rejected_registration_stays_silent() {
    let late = entry(0);
    let asked = Cell::new(0u32);
    let c = Counter::begin("B\0", |_k: i32, _n: &'static str| {
        asked.set(asked.get() + 1);
        if asked.get() == 1 {
            None
        } else {
            Some(late)
        }
    });
    assert_eq!(c.increment(), Increment::NoCounter);
    assert_eq!(c.increment(), Increment::NoCounter);
    assert_eq!(asked.get(), 1);
    assert_eq!(late.load(Ordering::SeqCst), 0);
}

#[test]
fn every_increment_counts() {
    let target = entry(7);
    let register = |_k: i32, _n: &'static str| Some(target);
    let sites = [
        Counter::progress("work\0", &register),
        Counter::progress("work\0", &register),
        Counter::progress("work\0", &register),
    ];
    for site in sites.iter() {
        for _ in 0..1000 {
            assert_eq!(site.increment(), Increment::Counted);
        }
    }
    assert_eq!(target.load(Ordering::SeqCst), 7 + 3 * 1000);
}

#[test]
fn stub_agent_counts_a_and_rejects_b() {
    let a_entry = entry(0);
    let lookups = Cell::new(0u32);
    let guards = Cell::new(0u32);
    let writes_to_b = Cell::new(0u32);
    let locator = Locator::new(|| {
        lookups.set(lookups.get() + 1);
        0x4000usize
    });
    let agent = |at: usize, k: i32, n: &'static str| -> Option<&'static AtomicUsize> {
        assert_eq!(at, 0x4000);
        assert_eq!(k, 1);
        if n == "A\0" {
            Some(a_entry)
        } else {
            None
        }
    };
    let register = |k: i32, n: &'static str| {
        coz_get_counter(&locator, k, n, &|| guards.set(guards.get() + 1), &agent)
    };
    let a = Counter::progress("A\0", &register);
    let b = Counter::progress("B\0", &register);
    for _ in 0..2 {
        for _ in 0..100 {
            assert_eq!(a.increment(), Increment::Counted);
            if b.increment() != Increment::NoCounter {
                writes_to_b.set(writes_to_b.get() + 1);
            }
        }
    }
    assert_eq!(a_entry.load(Ordering::SeqCst), 200);
    assert_eq!(writes_to_b.get(), 0);
    assert_eq!(lookups.get(), 1);
    assert_eq!(guards.get(), 2);
}

#[test]
fn lookup_runs_once() {
    let lookups = Cell::new(0u32);
    let locator = Locator::new(|| {
        lookups.set(lookups.get() + 1);
        0x1234usize
    });
    for _ in 0..10 {
        assert_eq!(locator.resolve(), BackendHandle::Present(0x1234));
    }
    assert_eq!(lookups.get(), 1);
}

#[test]
fn absent_is_cached_for_good() {
    let lookups = Cell::new(0u32);
    let locator = Locator::new(|| {
        lookups.set(lookups.get() + 1);
        if lookups.get() == 1 {
            0usize
        } else {
            0x1234usize
        }
    });
    assert_eq!(locator.resolve(), BackendHandle::Absent);
    assert_eq!(locator.resolve(), BackendHandle::Absent);
    assert_eq!(lookups.get(), 1);
}

#[test]
fn locate_reads_the_lookup() {
    assert_eq!(Locator::locate(&|| 0usize), BackendHandle::Absent);
    assert_eq!(Locator::locate(&|| 99usize), BackendHandle::Present(99));
}

#[test]
fn absent_agent_is_never_called() {
    let locator = Locator::new(|| 0usize);
    let guards = Cell::new(0u32);
    let calls = Cell::new(0u32);
    let got = coz_get_counter(
        &locator,
        2,
        "span\0",
        &|| guards.set(guards.get() + 1),
        &|_at: usize, _k: i32, _n: &'static str| -> Option<&'static AtomicUsize> {
            calls.set(calls.get() + 1);
            None
        },
    );
    assert!(got.is_none());
    assert_eq!(guards.get(), 0);
    assert_eq!(calls.get(), 0);
}

#[test]
fn present_agent_is_called_after_the_guard() {
    let target = entry(0);
    let locator = Locator::new(|| 0xbeefusize);
    let guards = Cell::new(0u32);
    let seen: Cell<Option<(usize, i32, &'static str, u32)>> = Cell::new(None);
    let got = coz_get_counter(
        &locator,
        2,
        "span\0",
        &|| guards.set(guards.get() + 1),
        &|at: usize, k: i32, n: &'static str| {
            seen.set(Some((at, k, n, guards.get())));
            Some(target)
        },
    );
    assert!(std::ptr::eq(got.unwrap(), target));
    assert_eq!(seen.get(), Some((0xbeef, 2, "span\0", 1)));
}
