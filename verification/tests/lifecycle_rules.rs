use named_future::lifecycle::{Computation, Outcome, Polled, Wrapper};

#[test]
fn wrapper_is_transparent_for_the_calculator() {
    // factor1 * factor2 + summand with (12, 34, 56), after two suspensions
    let expected: u64 = 12 * 34 + 56;
    assert_eq!(expected, 464);

    let mut direct = Computation::new(2, Outcome::Value(expected));
    let mut direct_obs: Vec<Polled> = Vec::new();
    direct_obs.push(direct.poll_step());
    direct_obs.push(direct.poll_step());
    direct_obs.push(direct.poll_step());

    let mut wrapped = Wrapper::new(Computation::new(2, Outcome::Value(expected)));
    let mut wrapped_obs: Vec<Polled> = Vec::new();
    wrapped_obs.push(wrapped.poll());
    wrapped_obs.push(wrapped.poll());
    wrapped_obs.push(wrapped.poll());

    assert_eq!(direct_obs, wrapped_obs);
    assert_eq!(
        wrapped_obs,
        vec![Polled::Pending, Polled::Pending, Polled::Ready(464)]
    );
    assert_eq!(wrapped.completions(), 1);
    assert_eq!(wrapped.releases(), 0);
}

#[test]
fn drop_before_completion_releases_exactly_once() {
    let mut w = Wrapper::new(Computation::new(5, Outcome::Value(111)));
    assert_eq!(w.poll(), Polled::Pending);
    assert!(w.is_live());
    w.dispose();
    assert_eq!(w.releases(), 1);
    assert_eq!(w.completions(), 0);
    assert!(!w.is_live());
}

#[test]
fn drop_without_any_poll_releases_exactly_once() {
    let mut w = Wrapper::new(Computation::new(3, Outcome::Value(111)));
    w.dispose();
    assert_eq!(w.releases(), 1);
    assert_eq!(w.completions(), 0);
}

#[test]
fn panic_releases_resources_before_propagating() {
    let mut w = Wrapper::new(Computation::new(0, Outcome::Panics));
    assert_eq!(w.poll(), Polled::Panicked);
    // the computation's own locals were released during the unwind
    assert_eq!(w.releases(), 1);
    // the wrapper's destructor, run while unwinding, releases nothing more
    w.dispose();
    assert_eq!(w.releases(), 1);
    assert_eq!(w.completions(), 0);
}

#[test]
fn three_counting_computations_complete_independently() {
    // three two-suspension computations, whose effects add up to 3331
    let mut total: u64 = 1;
    let mut i: u32 = 0;
    while i < 3 {
        let mut w = Wrapper::new(Computation::new(2, Outcome::Value(1110)));
        assert_eq!(w.poll(), Polled::Pending);
        assert_eq!(w.poll(), Polled::Pending);
        match w.poll() {
            Polled::Ready(v) => total += v,
            other => panic!("expected completion, got {:?}", other),
        }
        assert_eq!(w.completions(), 1);
        i += 1;
    }
    assert_eq!(total, 3331);
}

#[test]
fn completion_fires_once_and_leaves_nothing_to_release() {
    let mut w = Wrapper::new(Computation::new(0, Outcome::Value(7)));
    assert_eq!(w.poll(), Polled::Ready(7));
    assert_eq!(w.completions(), 1);
    w.dispose();
    assert_eq!(w.releases(), 0);
    assert_eq!(w.completions(), 1);
}
