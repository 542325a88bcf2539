use charybdis::callbacks::{Mutation, MutationAction, MutationEvent, MutationStage};
use charybdis::errors::{HookFault, HookPhase, Misuse, QueryError, TransportFault};
use charybdis::stream::{PagingStream, Step, StreamState};

type Page = Result<(Vec<u32>, Option<Vec<u8>>), TransportFault>;

/// Runs a stream against pages served in order; returns the rows, the fetch
/// count, and whether it ended cleanly.
fn drive(pages: Vec<Page>) -> (Vec<u32>, usize, bool) {
    let mut pages = pages.into_iter();
    let mut s = PagingStream::new();
    let mut rows = Vec::new();
    let mut fetches = 0usize;
    let mut step = s.advance();
    loop {
        match step {
            Step::Row(r) => {
                rows.push(r);
                step = s.advance();
            }
            Step::Fetch(_) => {
                fetches += 1;
                match pages.next() {
                    Some(p) => step = s.resume(p),
                    None => return (rows, fetches, false),
                }
            }
            Step::End => return (rows, fetches, true),
            Step::Error(_) => return (rows, fetches, false),
        }
    }
}

#[test]
fn stream_reads_each_page_once() {
    let pages = vec![
        Ok((vec![1, 2], Some(vec![1u8]))),
        Ok((vec![], Some(vec![2u8]))),
        Ok((vec![3], None)),
    ];
    assert_eq!(drive(pages), (vec![1, 2, 3], 3, true));
}

#[test]
fn stream_of_one_empty_page_ends() {
    assert_eq!(drive(vec![Ok((vec![], None))]), (vec![], 1, true));
}

#[test]
fn stream_passes_the_previous_token() {
    let mut s = PagingStream::new();
    assert!(matches!(s.advance(), Step::Fetch(None)));
    assert!(matches!(s.resume(Ok((vec![5u32], Some(vec![7u8])))), Step::Row(5)));
    match s.advance() {
        Step::Fetch(Some(t)) => assert_eq!(t, vec![7u8]),
        _ => panic!("expected a fetch"),
    }
    assert!(matches!(s.resume(Ok((vec![], None))), Step::End));
    assert!(matches!(s.advance(), Step::End));
    assert_eq!(s.state(), StreamState::Exhausted);
}

#[test]
fn stream_transport_failure_is_terminal() {
    let mut s = PagingStream::<u32>::new();
    assert!(matches!(s.advance(), Step::Fetch(None)));
    let t = TransportFault { message: "reset".to_string() };
    match s.resume(Err(t.clone())) {
        Step::Error(e) => assert_eq!(e, QueryError::Transport(t)),
        _ => panic!("expected the transport error"),
    }
    assert_eq!(s.state(), StreamState::Failed);
    assert!(matches!(s.advance(), Step::End));
}

#[test]
fn stream_refuses_out_of_turn_calls() {
    let mut s = PagingStream::<u32>::new();
    match s.resume(Ok((vec![1], None))) {
        Step::Error(e) => assert_eq!(e, QueryError::Misuse(Misuse::OutOfTurn)),
        _ => panic!("expected misuse"),
    }
    assert!(matches!(s.advance(), Step::Fetch(None)));
    match s.advance() {
        Step::Error(e) => assert_eq!(e, QueryError::Misuse(Misuse::OutOfTurn)),
        _ => panic!("expected misuse"),
    }
}

#[test]
fn dropped_stream_stops_fetching() {
    let mut fetches = 0;
    {
        let mut s = PagingStream::new();
        if let Step::Fetch(_) = s.advance() {
            fetches += 1;
        }
        assert!(matches!(s.resume(Ok((vec![1u32, 2], Some(vec![1u8])))), Step::Row(1)));
        // dropped here, with a row and a further page left
    }
    assert_eq!(fetches, 1);
}

fn fault(m: &str) -> HookFault {
    HookFault { message: m.to_string() }
}

/// Runs a mutation with the given hook outcomes and send outcome; returns
/// how many times the statement was sent and the final result.
fn run(before: Vec<bool>, send_ok: bool, after: Vec<bool>) -> (usize, Result<(), QueryError>) {
    let mut m = Mutation::new(before.len(), after.len());
    let mut sends = 0usize;
    let mut action = m.start();
    loop {
        action = match action {
            MutationAction::RunBeforeHook(i) => m.on_event(if before[i] {
                MutationEvent::HookSucceeded
            } else {
                MutationEvent::HookFailed(fault("before"))
            }),
            MutationAction::Send => {
                sends += 1;
                m.on_event(if send_ok {
                    MutationEvent::Sent
                } else {
                    MutationEvent::SendFailed(TransportFault { message: "down".to_string() })
                })
            }
            MutationAction::RunAfterHook(i) => m.on_event(if after[i] {
                MutationEvent::HookSucceeded
            } else {
                MutationEvent::HookFailed(fault("after"))
            }),
            MutationAction::Done(r) => return (sends, r),
            MutationAction::Ignored => panic!("event out of turn"),
        }
    }
}

#[test]
fn failed_before_hook_never_sends() {
    let (sends, r) = run(vec![true, false, true], true, vec![true]);
    assert_eq!(sends, 0);
    assert_eq!(r, Err(QueryError::Hook { phase: HookPhase::Before, index: 1, fault: fault("before") }));
}

#[test]
fn failed_after_hook_still_sent_once() {
    let (sends, r) = run(vec![true], true, vec![false]);
    assert_eq!(sends, 1);
    assert_eq!(r, Err(QueryError::Hook { phase: HookPhase::After, index: 0, fault: fault("after") }));
}

#[test]
fn successful_mutation_completes() {
    assert_eq!(run(vec![true, true], true, vec![true, true]), (1, Ok(())));
    assert_eq!(run(vec![], true, vec![]), (1, Ok(())));
}

#[test]
fn failed_send_skips_after_hooks() {
    let (sends, r) = run(vec![true], false, vec![true]);
    assert_eq!(sends, 1);
    assert_eq!(r, Err(QueryError::Transport(TransportFault { message: "down".to_string() })));
}

#[test]
fn terminal_mutation_ignores_events() {
    let mut m = Mutation::new(1, 0);
    assert!(matches!(m.start(), MutationAction::RunBeforeHook(0)));
    assert!(matches!(m.on_event(MutationEvent::Sent), MutationAction::Ignored));
    assert!(matches!(m.on_event(MutationEvent::HookFailed(fault("x"))), MutationAction::Done(Err(_))));
    assert_eq!(m.stage(), MutationStage::Failed);
    assert!(matches!(m.on_event(MutationEvent::HookSucceeded), MutationAction::Ignored));
    assert!(matches!(m.start(), MutationAction::Ignored));
}

#[test]
fn stream_starts_at_its_paging_state() {
    let mut s = PagingStream::starting_at(Some(vec![4u8, 2]));
    match s.advance() {
        Step::Fetch(Some(t)) => assert_eq!(t, vec![4u8, 2]),
        _ => panic!("expected a fetch from the given token"),
    }
    assert!(matches!(s.resume(Ok((vec![8u32], None))), Step::Row(8)));
    assert!(matches!(s.advance(), Step::End));
}
