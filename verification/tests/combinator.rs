use learn_helper::try_join::{
    try_join_all, try_join_results, try_join3, ElemState, JoinPoll, PollEvent, TryJoinAll,
};

#[test]
fn join_results_single_error_wins_regardless_of_index() {
    for k in 0..4usize {
        let results: Vec<Result<u32, &str>> = (0..4usize)
            .map(|i| if i == k { Err("boom") } else { Ok(i as u32) })
            .collect();
        assert_eq!(try_join_results(results), Err("boom"));
    }
}

#[test]
fn join_results_earliest_error_wins() {
    let results: Vec<Result<u32, &str>> = vec![Ok(1), Err("first"), Ok(3), Err("second")];
    assert_eq!(try_join_results(results), Err("first"));
}

#[test]
fn join_results_empty_batch_succeeds() {
    let results: Vec<Result<u32, &str>> = vec![];
    assert_eq!(try_join_results(results), Ok(vec![]));
}

#[test]
fn join_results_all_ok_keeps_input_order() {
    let results: Vec<Result<&str, ()>> = vec![Ok("a"), Ok("b"), Ok("c")];
    assert_eq!(try_join_results(results), Ok(vec!["a", "b", "c"]));
}

#[test]
fn poll_keeps_input_order_even_when_completion_order_differs() {
    // pass 1: only the second operation completes
    let batch: TryJoinAll<&str> = try_join_all(3);
    let events: Vec<PollEvent<&str, ()>> =
        vec![PollEvent::Pending, PollEvent::Ready(Ok("b")), PollEvent::Pending];
    let batch = match batch.poll(events) {
        JoinPoll::Pending(next) => next,
        JoinPoll::Ready(_) => panic!("batch resolved too early"),
    };
    // pass 2: the remaining two complete in reverse order of their slots
    let events: Vec<PollEvent<&str, ()>> =
        vec![PollEvent::Ready(Ok("a")), PollEvent::Pending, PollEvent::Ready(Ok("c"))];
    match batch.poll(events) {
        JoinPoll::Ready(Ok(values)) => assert_eq!(values, vec!["a", "b", "c"]),
        _ => panic!("batch should have resolved with all values"),
    }
}

#[test]
fn poll_same_pass_tie_break_returns_earliest_error() {
    let batch: TryJoinAll<u32> = try_join_all(3);
    let events: Vec<PollEvent<u32, &str>> = vec![
        PollEvent::Pending,
        PollEvent::Ready(Err("early")),
        PollEvent::Ready(Err("late")),
    ];
    match batch.poll(events) {
        JoinPoll::Ready(Err(e)) => assert_eq!(e, "early"),
        _ => panic!("batch should have failed"),
    }
}

#[test]
fn poll_already_done_slot_is_not_polled_again() {
    let batch: TryJoinAll<u32> = try_join_all(2);
    let events: Vec<PollEvent<u32, &str>> =
        vec![PollEvent::Ready(Ok(7)), PollEvent::Pending];
    let batch = match batch.poll(events) {
        JoinPoll::Pending(next) => next,
        JoinPoll::Ready(_) => panic!("batch resolved too early"),
    };
    assert_eq!(batch.len(), 2);
    match &batch.slots[0] {
        ElemState::Done(v) => assert_eq!(*v, 7),
        ElemState::Pending => panic!("first slot should be done"),
    }
    let events: Vec<PollEvent<u32, &str>> =
        vec![PollEvent::Pending, PollEvent::Ready(Ok(9))];
    match batch.poll(events) {
        JoinPoll::Ready(Ok(values)) => assert_eq!(values, vec![7, 9]),
        _ => panic!("batch should have resolved"),
    }
}

#[test]
fn join3_first_error_wins() {
    let r = try_join3::<u32, &str>(Ok(1), Err("b"), Err("c"));
    assert_eq!(r, Err("b"));
    let r = try_join3::<u32, &str>(Ok(1), Ok(2), Ok(3));
    assert_eq!(r, Ok((1, 2, 3)));
}
