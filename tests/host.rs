use std::cell::RefCell;
use std::collections::HashMap;
use std::rc::Rc;

use uacpi::{Handle, InterruptTable, Status, WorkQueue, WorkType};

/// A host's interrupt path: the table decides which handlers run, the closures are kept
/// beside it by handle.
struct MockInterrupts {
    table: InterruptTable,
    handlers: HashMap<u64, Box<dyn Fn()>>,
}

impl MockInterrupts {
    fn new() -> Self {
        MockInterrupts { table: InterruptTable::new(), handlers: HashMap::new() }
    }

    fn install(&mut self, irq: u32, handler: Box<dyn Fn()>) -> Result<Handle, Status> {
        let h = self.table.install(irq)?;
        self.handlers.insert(h.as_u64(), handler);
        Ok(h)
    }

    fn uninstall(&mut self, h: Handle) -> Result<(), Status> {
        self.table.uninstall(h)?;
        self.handlers.remove(&h.as_u64());
        Ok(())
    }

    fn trigger(&self, irq: u32) {
        for h in self.table.handlers_for(irq) {
            (self.handlers[&h.as_u64()])();
        }
    }
}

#[test]
fn interrupt_handler_runs_once_until_uninstalled() {
    let seen: Rc<RefCell<Vec<u64>>> = Rc::new(RefCell::new(Vec::new()));
    let mut host = MockInterrupts::new();
    let ctx = Handle::new(0xC0FFEE);
    let log = seen.clone();
    let h = host
        .install(9, Box::new(move || log.borrow_mut().push(ctx.as_u64())))
        .unwrap();
    assert!(h.is_valid());
    host.trigger(9);
    assert_eq!(*seen.borrow(), vec![0xC0FFEE]);
    host.trigger(10);
    assert_eq!(seen.borrow().len(), 1);
    assert_eq!(host.uninstall(h), Ok(()));
    host.trigger(9);
    assert_eq!(seen.borrow().len(), 1);
}

#[test]
fn uninstalling_twice_is_refused() {
    let mut t = InterruptTable::new();
    let h = t.install(4).unwrap();
    assert_eq!(t.uninstall(h), Ok(()));
    assert_eq!(t.uninstall(h), Err(Status::NotFound));
}

#[test]
fn handlers_are_listed_per_line() {
    let mut t = InterruptTable::new();
    let a = t.install(9).unwrap();
    let b = t.install(1).unwrap();
    let c = t.install(9).unwrap();
    assert_ne!(a, c);
    assert_eq!(t.handlers_for(9), vec![a, c]);
    assert_eq!(t.handlers_for(1), vec![b]);
    assert!(t.handlers_for(2).is_empty());
    t.uninstall(a).unwrap();
    assert_eq!(t.handlers_for(9), vec![c]);
}

/// Runs pending work until the queue is empty, the way a host waits for the completion of
/// deferred work.
fn wait_for_work_completion(queue: &mut WorkQueue<Box<dyn Fn()>>) -> Result<(), Status> {
    while let Some((_, work)) = queue.take_next() {
        work();
    }
    assert!(queue.is_empty());
    Ok(())
}

#[test]
fn work_completion_waits_for_every_item() {
    let ran: Rc<RefCell<Vec<WorkType>>> = Rc::new(RefCell::new(Vec::new()));
    let mut queue: WorkQueue<Box<dyn Fn()>> = WorkQueue::new();
    let r1 = ran.clone();
    queue.schedule(WorkType::GPEExecution, Box::new(move || r1.borrow_mut().push(WorkType::GPEExecution)));
    let r2 = ran.clone();
    queue.schedule(WorkType::Notification, Box::new(move || r2.borrow_mut().push(WorkType::Notification)));
    assert!(!queue.is_empty());
    assert!(ran.borrow().is_empty());
    assert_eq!(wait_for_work_completion(&mut queue), Ok(()));
    assert_eq!(*ran.borrow(), vec![WorkType::GPEExecution, WorkType::Notification]);
    assert!(queue.is_empty());
}

#[test]
fn work_queue_keeps_order_and_kind() {
    let mut q: WorkQueue<u32> = WorkQueue::new();
    assert_eq!(q.take_next(), None);
    q.schedule(WorkType::Notification, 1);
    q.schedule(WorkType::GPEExecution, 2);
    assert_eq!(q.take_next(), Some((WorkType::Notification, 1)));
    assert_eq!(q.take_next(), Some((WorkType::GPEExecution, 2)));
    assert_eq!(q.take_next(), None);
}

#[test]
fn install_succeeds_until_handles_run_out() {
    let mut t = InterruptTable::new();
    let a = t.install(3).unwrap();
    let b = t.install(3).unwrap();
    assert_eq!(a.as_u64(), 1);
    assert_eq!(b.as_u64(), 2);
}
