use task_local::LocalKey;
use task_local::Poll;
use task_local::ScopeInnerErr;

fn helper(key: &LocalKey<u32>) -> u32 {
    key.get()
}

#[test]
fn value_persists_across_a_suspension() {
    let mut key: LocalKey<u32> = LocalKey::new();
    let mut fut = key.scope(42, 0u32);
    assert!(fut.is_pending());

    let step = fut.poll(&mut key, |seen: &mut u32, key: &mut LocalKey<u32>| {
        *seen += key.get();
        Poll::<u32>::Pending
    });
    assert!(step.is_pending());
    assert!(fut.is_pending());
    // between two steps the slot is as before the scope
    assert!(!key.is_set());

    let step = fut.poll(&mut key, |seen: &mut u32, key: &mut LocalKey<u32>| {
        *seen += helper(key);
        *seen += key.get();
        Poll::Ready(*seen)
    });
    assert!(matches!(step, Poll::Ready(126)));
    assert!(!fut.is_pending());
    assert!(!key.is_set());
}

#[test]
fn interleaved_computations_see_their_own_value() {
    let mut key: LocalKey<u32> = LocalKey::new();
    let mut a = key.scope(1, Vec::<u32>::new());
    let mut b = key.scope(2, Vec::<u32>::new());

    for _ in 0..3 {
        let step = a.poll(&mut key, |seen: &mut Vec<u32>, key: &mut LocalKey<u32>| {
            seen.push(key.get());
            Poll::<()>::Pending
        });
        assert!(step.is_pending());
        let step = b.poll(&mut key, |seen: &mut Vec<u32>, key: &mut LocalKey<u32>| {
            seen.push(key.get());
            Poll::<()>::Pending
        });
        assert!(step.is_pending());
        assert!(!key.is_set());
    }

    let seen_a = a.poll(&mut key, |seen: &mut Vec<u32>, _: &mut LocalKey<u32>| {
        Poll::Ready(seen.clone())
    });
    let seen_b = b.poll(&mut key, |seen: &mut Vec<u32>, _: &mut LocalKey<u32>| {
        Poll::Ready(seen.clone())
    });
    assert!(matches!(seen_a, Poll::Ready(v) if v == vec![1, 1, 1]));
    assert!(matches!(seen_b, Poll::Ready(v) if v == vec![2, 2, 2]));
}

#[test]
fn contexts_with_their_own_slot_do_not_interfere() {
    let mut context_a: LocalKey<u32> = LocalKey::new();
    let mut context_b: LocalKey<u32> = LocalKey::new();
    context_a.sync_scope(1, |a: &mut LocalKey<u32>| {
        context_b.sync_scope(2, |b: &mut LocalKey<u32>| {
            assert_eq!(a.get(), 1);
            assert_eq!(b.get(), 2);
        });
        assert_eq!(a.get(), 1);
        assert!(!context_b.is_set());
    });
}

#[test]
fn single_extraction() {
    let mut key: LocalKey<u32> = LocalKey::new();
    let mut fut = key.scope(7, ());
    let step = fut.poll(&mut key, |_: &mut (), _: &mut LocalKey<u32>| Poll::Ready(()));
    assert!(step.is_ready());
    assert_eq!(fut.take_value(), Some(7));
    assert_eq!(fut.take_value(), None);
}

#[test]
fn extraction_before_the_first_step() {
    let mut key: LocalKey<u32> = LocalKey::new();
    let mut fut = key.scope(7, ());
    assert_eq!(fut.take_value(), Some(7));
    assert_eq!(fut.take_value(), None);
    assert!(fut.is_pending());
    // the step now installs nothing
    let step = fut.poll(&mut key, |_: &mut (), key: &mut LocalKey<u32>| {
        Poll::Ready(key.try_with(|v: &u32| *v).is_err())
    });
    assert!(matches!(step, Poll::Ready(true)));
}

#[test]
fn step_after_completion_is_refused() {
    let mut key: LocalKey<u32> = LocalKey::new();
    let mut fut = key.scope(7, ());
    let step = fut.try_poll(&mut key, |_: &mut (), _: &mut LocalKey<u32>| Poll::Ready(1u8));
    assert!(matches!(step, Ok(Some(Poll::Ready(1)))));
    let mut ran = false;
    let step = fut.try_poll(&mut key, |_: &mut (), _: &mut LocalKey<u32>| {
        ran = true;
        Poll::Ready(2u8)
    });
    assert!(matches!(step, Ok(None)));
    assert!(!ran);
    assert!(!key.is_set());
    assert_eq!(fut.take_value(), Some(7));
}

#[test]
fn step_on_a_busy_shared_slot_is_rejected() {
    let mut key: LocalKey<u32> = LocalKey::new_shared();
    let mut first = key.scope(1, ());
    let mut second = key.scope(2, ());
    let step = first.poll(&mut key, |_: &mut (), key: &mut LocalKey<u32>| {
        let mut ran = false;
        let overlapping = second.try_poll(key, |_: &mut (), _: &mut LocalKey<u32>| {
            ran = true;
            Poll::Ready(())
        });
        assert!(matches!(overlapping, Err(ScopeInnerErr::BorrowError)));
        assert!(!ran);
        // the first scope's value is undisturbed
        assert_eq!(key.get(), 1);
        Poll::Ready(())
    });
    assert!(step.is_ready());
    assert!(second.is_pending());
    assert_eq!(second.take_value(), Some(2));
    assert!(!key.is_blocked());
}

#[test]
fn steps_that_take_turns_on_a_shared_slot_are_admitted() {
    let mut key: LocalKey<u32> = LocalKey::new_shared();
    let mut first = key.scope(1, ());
    let mut second = key.scope(2, ());
    let step = first.poll(&mut key, |_: &mut (), key: &mut LocalKey<u32>| {
        assert_eq!(key.get(), 1);
        Poll::<()>::Pending
    });
    assert!(step.is_pending());
    let step = second.poll(&mut key, |_: &mut (), key: &mut LocalKey<u32>| {
        assert_eq!(key.get(), 2);
        Poll::Ready(())
    });
    assert!(step.is_ready());
    let step = first.poll(&mut key, |_: &mut (), key: &mut LocalKey<u32>| {
        assert_eq!(key.get(), 1);
        Poll::Ready(())
    });
    assert!(step.is_ready());
}

#[test]
fn the_two_halves_of_a_step() {
    let mut key: LocalKey<u32> = LocalKey::new();
    let mut fut = key.scope(5, "work");
    let inner = fut.begin_step(&mut key);
    assert_eq!(inner, Ok(Some("work")));
    assert_eq!(key.get(), 5);
    assert!(!fut.is_pending());
    fut.end_step(&mut key, Some("rest"));
    assert!(!key.is_set());
    assert!(fut.is_pending());
    assert_eq!(fut.begin_step(&mut key), Ok(Some("rest")));
    assert_eq!(key.get(), 5);
    fut.end_step(&mut key, None);
    assert!(!fut.is_pending());
    assert_eq!(fut.take_value(), Some(5));
}

#[test]
fn cancellation_runs_cleanup_inside_the_scope() {
    let mut key: LocalKey<u32> = LocalKey::new();
    key.sync_scope(1, |key: &mut LocalKey<u32>| {
        let mut fut = key.scope(9, "resource");
        let step = fut.poll(key, |_: &mut &str, _: &mut LocalKey<u32>| Poll::<()>::Pending);
        assert!(step.is_pending());

        let mut released = None;
        let res = fut.cancel(key, |inner: &str, key: &mut LocalKey<u32>| {
            released = Some((inner, key.get()));
        });
        assert_eq!(res, Ok(()));
        assert_eq!(released, Some(("resource", 9)));
        assert!(!fut.is_pending());
        // the slot is as before the cancelled scope
        assert_eq!(key.get(), 1);
        assert_eq!(fut.take_value(), Some(9));
    });
    assert!(!key.is_set());
}

#[test]
fn cancellation_of_a_finished_computation_does_nothing() {
    let mut key: LocalKey<u32> = LocalKey::new();
    let mut fut = key.scope(9, ());
    let step = fut.poll(&mut key, |_: &mut (), _: &mut LocalKey<u32>| Poll::Ready(()));
    assert!(step.is_ready());
    let mut ran = false;
    let res = fut.cancel(&mut key, |_: (), _: &mut LocalKey<u32>| {
        ran = true;
    });
    assert_eq!(res, Ok(()));
    assert!(!ran);
    assert_eq!(fut.take_value(), Some(9));
}

#[test]
fn cancellation_on_a_busy_shared_slot_is_rejected() {
    let mut key: LocalKey<u32> = LocalKey::new_shared();
    let mut fut = key.scope(9, ());
    key.sync_scope(1, |key: &mut LocalKey<u32>| {
        let mut ran = false;
        let res = fut.cancel(key, |_: (), _: &mut LocalKey<u32>| {
            ran = true;
        });
        assert_eq!(res, Err(ScopeInnerErr::BorrowError));
        assert!(!ran);
        assert!(fut.is_pending());
        assert_eq!(key.get(), 1);
    });
    let mut seen = None;
    let res = fut.cancel(&mut key, |_: (), key: &mut LocalKey<u32>| {
        seen = Some(key.get());
    });
    assert_eq!(res, Ok(()));
    assert_eq!(seen, Some(9));
    assert!(!key.is_blocked());
    assert!(!key.is_set());
}
