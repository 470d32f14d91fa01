use loadcheck::acceptor::{Acceptor, AcceptorAction, AcceptorEvent, Phase, ShutdownCause};
use loadcheck::admission::{AcquireError, Admission};
use loadcheck::frame::encode;
use loadcheck::handler::{handle_read, Connection, HandlerStep, ReadOutcome, StopReason};
use loadcheck::tracker::{CompletionTracker, Record};

#[test]
fn handler_records_frames_and_reads_on() {
    let mut t = CompletionTracker::new(10);
    let step = handle_read(&mut t, ReadOutcome::Frame(encode(4).to_vec()));
    assert_eq!(step, HandlerStep::Continue { task: 4, record: Record::Fresh });
    let step = handle_read(&mut t, ReadOutcome::Frame(encode(4).to_vec()));
    assert_eq!(step, HandlerStep::Continue { task: 4, record: Record::Repeat });
    assert!(t.is_observed(4));
    assert_eq!(t.missing().len(), 9);
}

#[test]
fn handler_ignores_out_of_range_ids() {
    let n = 10;
    let mut t = CompletionTracker::new(n);
    let step = handle_read(&mut t, ReadOutcome::Frame(encode(0).to_vec()));
    assert_eq!(step, HandlerStep::Continue { task: 0, record: Record::OutOfRange });
    let step = handle_read(&mut t, ReadOutcome::Frame(encode(n + 1).to_vec()));
    assert_eq!(step, HandlerStep::Continue { task: n + 1, record: Record::OutOfRange });
    assert_eq!(t.missing(), (1..=n).collect::<Vec<u32>>());
}

#[test]
fn handler_stops_on_anything_but_a_frame() {
    let mut t = CompletionTracker::new(10);
    assert_eq!(handle_read(&mut t, ReadOutcome::TimedOut), HandlerStep::Stop(StopReason::TimedOut));
    assert_eq!(handle_read(&mut t, ReadOutcome::Failed), HandlerStep::Stop(StopReason::Failed));
    assert_eq!(handle_read(&mut t, ReadOutcome::Closed), HandlerStep::Stop(StopReason::Closed));
    assert_eq!(
        handle_read(&mut t, ReadOutcome::Frame(vec![0, 0, 0, 1])),
        HandlerStep::Stop(StopReason::ShortFrame)
    );
    assert_eq!(t.missing().len(), 10);
}

#[test]
fn acceptor_reserves_before_accepting() {
    let mut adm = Admission::new(2);
    let mut acc = Acceptor::new();
    assert!(acc.wants_permit());
    assert!(!acc.wants_connection());
    assert!(matches!(acc.step(AcceptorEvent::Admission(adm.try_acquire())), AcceptorAction::Wait));
    assert!(!acc.wants_permit());
    assert!(acc.wants_connection());
    let permit = match acc.step(AcceptorEvent::Accepted) {
        AcceptorAction::Spawn(p) => p,
        other => panic!("unexpected {:?}", other),
    };
    assert!(acc.wants_permit());
    assert!(matches!(acc.step(AcceptorEvent::Accepted), AcceptorAction::Refuse));
    adm.release(permit);
    assert_eq!(adm.held(), 0);
}

#[test]
fn server_connections_bounded_under_burst() {
    let capacity = 500;
    let mut adm = Admission::new(capacity);
    let mut acc = Acceptor::new();
    let mut open = Vec::new();
    for _ in 0..1200 {
        if acc.wants_permit() {
            match acc.step(AcceptorEvent::Admission(adm.try_acquire())) {
                AcceptorAction::Wait => {}
                other => panic!("unexpected {:?}", other),
            }
        }
        if acc.wants_connection() {
            match acc.step(AcceptorEvent::Accepted) {
                AcceptorAction::Spawn(p) => open.push(p),
                other => panic!("unexpected {:?}", other),
            }
        }
        assert!(open.len() <= capacity as usize);
    }
    assert_eq!(open.len(), 500);
    assert_eq!(adm.held(), 500);
    let done = open.pop().unwrap();
    adm.release(done);
    assert!(matches!(acc.step(AcceptorEvent::Admission(adm.try_acquire())), AcceptorAction::Wait));
    assert!(matches!(acc.step(AcceptorEvent::Accepted), AcceptorAction::Spawn(_)));
}

#[test]
fn scenario_closed_admission_stops_acceptor() {
    let n = 10;
    let tracker = CompletionTracker::new(n);
    let mut adm = Admission::new(500);
    adm.close();
    let mut acc = Acceptor::new();
    let mut handled = 0;
    let action = acc.step(AcceptorEvent::Admission(adm.try_acquire()));
    assert!(matches!(action, AcceptorAction::Cancel));
    assert_eq!(acc.phase(), Phase::Draining);
    assert!(!acc.wants_permit());
    assert!(!acc.wants_connection());
    if let AcceptorAction::Spawn(_) = acc.step(AcceptorEvent::Accepted) {
        handled += 1;
    }
    match acc.step(AcceptorEvent::Shutdown(ShutdownCause::Cancelled)) {
        AcceptorAction::Stop(p) => assert!(p.is_none()),
        other => panic!("unexpected {:?}", other),
    }
    assert!(acc.is_stopped());
    assert_eq!(handled, 0);
    assert_eq!(tracker.missing(), (1..=n).collect::<Vec<u32>>());
}

#[test]
fn interrupt_returns_reserved_permit() {
    let mut adm = Admission::new(3);
    let mut acc = Acceptor::new();
    acc.step(AcceptorEvent::Admission(adm.try_acquire()));
    match acc.step(AcceptorEvent::Shutdown(ShutdownCause::Interrupted)) {
        AcceptorAction::Stop(Some(p)) => adm.release(p),
        other => panic!("unexpected {:?}", other),
    }
    assert_eq!(acc.phase(), Phase::Stopped(ShutdownCause::Interrupted));
    assert_eq!(adm.held(), 0);
    assert!(matches!(acc.step(AcceptorEvent::Shutdown(ShutdownCause::Cancelled)), AcceptorAction::Stop(None)));
}

#[test]
fn exhausted_admission_keeps_serving() {
    let mut adm = Admission::new(0);
    let mut acc = Acceptor::new();
    let r = adm.try_acquire();
    assert!(matches!(r, Err(AcquireError::Exhausted)));
    assert!(matches!(acc.step(AcceptorEvent::Admission(r)), AcceptorAction::Wait));
    assert_eq!(acc.phase(), Phase::Serving);
    assert!(acc.wants_permit());
}

#[test]
fn connection_returns_permit_once_when_it_stops() {
    let mut adm = Admission::new(1);
    let mut t = CompletionTracker::new(10);
    let mut conn = Connection::open(adm.try_acquire().unwrap());
    let (step, released) = conn.take_read(&mut t, ReadOutcome::Frame(encode(2).to_vec()));
    assert_eq!(step, HandlerStep::Continue { task: 2, record: Record::Fresh });
    assert!(released.is_none());
    let (step, released) = conn.take_read(&mut t, ReadOutcome::Frame(encode(11).to_vec()));
    assert_eq!(step, HandlerStep::Continue { task: 11, record: Record::OutOfRange });
    assert!(released.is_none());
    let (step, released) = conn.take_read(&mut t, ReadOutcome::Closed);
    assert_eq!(step, HandlerStep::Stop(StopReason::Closed));
    adm.release(released.expect("permit comes back on stop"));
    assert_eq!(adm.held(), 0);
    let (_, again) = conn.take_read(&mut t, ReadOutcome::TimedOut);
    assert!(again.is_none());
    assert!(t.is_observed(2));
}

#[test]
fn frames_in_either_order_give_same_tracker() {
    let mut a = CompletionTracker::new(200);
    let mut b = CompletionTracker::new(200);
    for id in [5u32, 70, 5, 0, 201] {
        handle_read(&mut a, ReadOutcome::Frame(encode(id).to_vec()));
    }
    for id in [201u32, 70, 0, 5] {
        handle_read(&mut b, ReadOutcome::Frame(encode(id).to_vec()));
    }
    assert_eq!(a.missing(), b.missing());
    assert_eq!(a.missing().len(), 198);
}
