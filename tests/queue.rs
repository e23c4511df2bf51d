use thread_pool::queue::{JobQueue, Received};
use thread_pool::worker::{dispatch, Action, Worker};

#[test]
fn new_queue_is_open_and_empty() {
    let mut q = JobQueue::<u32>::new();
    assert!(q.is_open());
    assert_eq!(q.len(), 0);
    assert!(matches!(q.receive(), Received::Empty));
}

#[test]
fn submit_then_receive_is_fifo() {
    let mut q = JobQueue::<&str>::new();
    assert_eq!(q.submit("a"), Ok(()));
    assert_eq!(q.submit("b"), Ok(()));
    assert_eq!(q.len(), 2);
    assert!(matches!(q.receive(), Received::Job("a")));
    assert!(matches!(q.receive(), Received::Job("b")));
    assert!(matches!(q.receive(), Received::Empty));
}

#[test]
fn close_reports_whether_it_was_open() {
    let mut q = JobQueue::<u32>::new();
    assert!(q.close());
    assert!(!q.is_open());
    assert!(!q.close());
}

#[test]
fn closed_queue_delivers_pending_then_reports_closed() {
    let mut q = JobQueue::<u32>::new();
    q.submit(8).unwrap();
    q.close();
    assert_eq!(q.submit(9), Err(9));
    assert!(matches!(q.receive(), Received::Job(8)));
    assert!(matches!(q.receive(), Received::Closed));
    assert!(matches!(q.receive(), Received::Closed));
}

#[test]
fn dispatch_runs_waits_and_exits() {
    let mut q = JobQueue::<u32>::new();
    assert!(matches!(dispatch(&mut q), Action::Wait));
    q.submit(3).unwrap();
    assert!(matches!(dispatch(&mut q), Action::Run(3)));
    assert!(matches!(dispatch(&mut q), Action::Wait));
    q.close();
    assert!(matches!(dispatch(&mut q), Action::Exit));
}

#[test]
fn worker_thread_slot_is_taken_once() {
    let mut w = Worker::<String>::new(5);
    assert_eq!(w.id(), 5);
    assert!(!w.has_thread());
    assert_eq!(w.attach("t".to_string()), None);
    assert!(w.has_thread());
    assert_eq!(w.take_thread(), Some("t".to_string()));
    assert_eq!(w.take_thread(), None);
    assert!(!w.has_thread());
    assert_eq!(w.id(), 5);
}
