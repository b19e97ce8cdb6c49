use std::sync::Arc;
use std::sync::atomic::{AtomicUsize, Ordering};

use xynok_type_eraser::inline_fn::{InlineFn, InlineFnOnce, LARGE, Placement, SMALL, StoreError};

/// Counts its own drops, so tests can check when captured state is released.
struct DropCounter(Arc<AtomicUsize>);

impl Drop for DropCounter
{
    fn drop(&mut self)
    {
        self.0.fetch_add(1, Ordering::SeqCst);
    }
}

#[test]
fn run_calls_the_closure()
{
    let flag = Arc::new(AtomicUsize::new(0));
    let f = {
        let flag = flag.clone();
        InlineFnOnce::<SMALL, true>::new(move || {
            flag.fetch_add(1, Ordering::SeqCst);
        })
    };

    f.run();
    assert_eq!(flag.load(Ordering::SeqCst), 1);
}

#[test]
fn a_closure_can_consume_what_it_captured()
{
    let (tx, rx) = std::sync::mpsc::channel();
    let owned = String::from("moved out");

    // Only `FnOnce`, never `FnMut`, since `owned` leaves the closure.
    let f = InlineFnOnce::<SMALL, true>::new(move || tx.send(owned).unwrap());

    f.run();
    assert_eq!(rx.recv().unwrap(), "moved out");
}

#[test]
fn fn_once_oversized_closure_still_runs_through_the_boxed_path()
{
    let payload = [7u8; LARGE * 2];
    let (tx, rx) = std::sync::mpsc::channel();

    // Bigger than SMALL, so this has to take the boxed path.
    let f = InlineFnOnce::<SMALL, true>::new(move || {
        tx.send(payload.iter().map(|v| *v as usize).sum::<usize>()).unwrap();
    });

    assert_eq!(f.placement(), Placement::Boxed);
    f.run();
    assert_eq!(rx.recv().unwrap(), 7 * LARGE * 2);
}

#[test]
fn fn_once_a_bigger_buffer_holds_a_bigger_closure_inline()
{
    let payload = [1u8; LARGE];
    let (tx, rx) = std::sync::mpsc::channel();

    let f = InlineFnOnce::<{ LARGE * 4 }, true>::new(move || {
        tx.send(payload.len()).unwrap();
    });

    assert_eq!(f.placement(), Placement::Inline);
    f.run();
    assert_eq!(rx.recv().unwrap(), LARGE);
}

#[test]
fn fn_once_dropping_without_running_releases_captured_state()
{
    let counter = Arc::new(AtomicUsize::new(0));
    let guard = DropCounter(counter.clone());

    let f = InlineFnOnce::<SMALL, true>::new(move || {
        // Only here so `guard` is dropped together with the closure.
        let _ = &guard;
    });

    assert_eq!(counter.load(Ordering::SeqCst), 0);
    drop(f);
    assert_eq!(counter.load(Ordering::SeqCst), 1);
}

#[test]
fn run_releases_captured_state_exactly_once()
{
    let counter = Arc::new(AtomicUsize::new(0));
    let guard = DropCounter(counter.clone());

    let f = InlineFnOnce::<SMALL, true>::new(move || {
        let _ = &guard;
    });

    f.run();
    assert_eq!(counter.load(Ordering::SeqCst), 1);
}

#[test]
fn run_releases_captured_state_exactly_once_on_the_boxed_path()
{
    let counter = Arc::new(AtomicUsize::new(0));
    let guard = DropCounter(counter.clone());
    let padding = [0u8; LARGE * 2];

    let f = InlineFnOnce::<SMALL, true>::new(move || {
        let _ = &guard;
        let _ = &padding;
    });

    f.run();
    assert_eq!(counter.load(Ordering::SeqCst), 1);
}

#[test]
fn fn_once_debug_output_mentions_the_buffer_size()
{
    let f = InlineFnOnce::<SMALL, true>::new(|| {});
    let text = f.debug_string();
    assert!(text.contains(&format!("InlineFnOnce<{SMALL}>")), "buffer size missing from: {text}");
}

#[test]
fn fn_once_debug_output_is_the_name_and_the_size()
{
    let f = InlineFnOnce::<7, true>::new(|| {});
    assert_eq!(f.debug_string(), "InlineFnOnce<7> { .. }");
}

#[test]
fn fn_once_try_new_refuses_an_oversized_closure_when_boxing_is_disabled()
{
    let payload = [0u8; LARGE * 2];
    let result = InlineFnOnce::<SMALL, false>::try_new(move || {
        let _ = &payload;
    });
    assert!(matches!(
        result,
        Err(StoreError::BoxingDisabled { closure_size: 128, closure_align: 1, buffer_size: SMALL, buffer_align: 16 })
    ));
}

#[test]
fn fn_once_try_new_refuses_a_zero_sized_buffer()
{
    let result = InlineFnOnce::<0, false>::try_new(|| {});
    assert!(matches!(result, Err(StoreError::ZeroSizedBuffer)));
}

#[test]
fn both_types_place_the_same_closure_the_same_way()
{
    let payload = [3u8; LARGE];
    let once = InlineFnOnce::<SMALL, true>::new(move || {
        let _ = &payload;
    });
    let reusable = InlineFn::<SMALL, true>::new(move || {
        let _ = &payload;
    });
    assert_eq!(once.placement(), Placement::Boxed);
    assert_eq!(reusable.placement(), once.placement());

    let small_once = InlineFnOnce::<LARGE, false>::new(move || {
        let _ = &payload;
    });
    let small_reusable = InlineFn::<LARGE, false>::new(move || {
        let _ = &payload;
    });
    assert_eq!(small_once.placement(), Placement::Inline);
    assert_eq!(small_reusable.placement(), small_once.placement());
}

fn require_send<T: Send>(value: T) -> T
{
    value
}

#[test]
fn fn_once_values_are_send()
{
    // Compiles only because the value is `Send`.
    let flag = Arc::new(AtomicUsize::new(0));
    let f = {
        let flag = flag.clone();
        require_send(InlineFnOnce::<SMALL, true>::new(move || {
            flag.store(99, Ordering::SeqCst);
        }))
    };
    f.run();
    assert_eq!(flag.load(Ordering::SeqCst), 99);
}
