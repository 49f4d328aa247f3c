use intr_core::cell::UPIntrFreeCell;
use intr_core::cell::UPSafeCell;
use intr_core::console;
use intr_core::driver::try_deliver_irq;
use intr_core::driver::AsyncNS16550a;
use intr_core::driver::Poll;
use intr_core::executor::sched_decision;
use intr_core::executor::Executor;
use intr_core::executor::RunOutcome;
use intr_core::executor::SchedAction;
use intr_core::executor::SchedFlags;
use intr_core::executor::Task;
use intr_core::executor::TaskOp;
use intr_core::executor::WorkMarker;
use intr_core::executor::__pender;
use intr_core::executor::__work_finish;
use intr_core::masking::IntrLine;
use intr_core::masking::IntrMaskingInfo;
use intr_core::stdio::read_char;
use intr_core::stdio::Stdin;
use intr_core::stdio::Stdout;
use intr_core::uart::HwEvent;
use intr_core::uart::NS16550aRaw;
use intr_core::uart::IER_RX_AVAILABLE;
use intr_core::uart::LSR_DATA_AVAILABLE;
use intr_core::uart::LSR_THR_EMPTY;
use intr_core::uart::MCR_AUX_OUTPUT2;
use intr_core::uart::MCR_DATA_TERMINAL_READY;
use intr_core::uart::MCR_REQUEST_TO_SEND;

const BASE: usize = 0x1000_0000;

fn setup() -> (AsyncNS16550a, IntrMaskingInfo, IntrLine, SchedFlags) {
    let mut uart = AsyncNS16550a::new(BASE);
    let mut mask = IntrMaskingInfo::new();
    let mut line = IntrLine::new(true);
    let flags = SchedFlags::new();
    uart.init(&mut mask, &mut line);
    (uart, mask, line, flags)
}

#[test]
fn masking_well_nested_restores_enabled_line() {
    let mut line = IntrLine::new(true);
    let mut mask = IntrMaskingInfo::new();
    mask.enter(&mut line);
    assert!(!line.enabled);
    assert_eq!(mask.nested_level, 1);
    mask.enter(&mut line);
    assert!(!line.enabled);
    mask.exit(&mut line);
    // still nested: must stay masked
    assert!(!line.enabled);
    assert_eq!(mask.nested_level, 1);
    mask.exit(&mut line);
    assert_eq!(mask.nested_level, 0);
    assert!(line.enabled);
}

#[test]
fn masking_well_nested_keeps_disabled_line_disabled() {
    let mut line = IntrLine::new(false);
    let mut mask = IntrMaskingInfo::new();
    mask.enter(&mut line);
    mask.exit(&mut line);
    assert_eq!(mask.nested_level, 0);
    assert!(!line.enabled);
}

#[test]
fn up_safe_cell_round_trip() {
    let mut cell: UPSafeCell<u64> = UPSafeCell::new(17);
    let v = cell.exclusive_access();
    assert_eq!(v, 17);
    cell.release(v + 1);
    let v2 = cell.exclusive_access();
    assert_eq!(v2, 18);
    cell.release(v2);
}

#[test]
fn nested_guards_share_the_masking_counter() {
    let mut mask = IntrMaskingInfo::new();
    let mut line = IntrLine::new(true);
    let mut outer: UPIntrFreeCell<u32> = UPIntrFreeCell::new(1);
    let mut inner: UPIntrFreeCell<u32> = UPIntrFreeCell::new(2);
    let v1 = outer.exclusive_access(&mut mask, &mut line);
    assert!(!line.enabled);
    assert_eq!(mask.nested_level, 1);
    let v2 = inner.exclusive_access(&mut mask, &mut line);
    assert_eq!(mask.nested_level, 2);
    assert!(!line.enabled);
    inner.release(v2, &mut mask, &mut line);
    // the inner guard is gone, but the outer holder is still protected
    assert!(!line.enabled);
    assert_eq!(mask.nested_level, 1);
    outer.release(v1, &mut mask, &mut line);
    assert!(line.enabled);
}

#[test]
fn exclusive_session_releases_after_the_operation() {
    let mut mask = IntrMaskingInfo::new();
    let mut line = IntrLine::new(true);
    let mut cell: UPIntrFreeCell<u32> = UPIntrFreeCell::new(5);
    let seen = cell.exclusive_session(&mut mask, &mut line, |v: u32| (v * 2, v));
    assert_eq!(seen, 5);
    assert_eq!(mask.nested_level, 0);
    assert!(line.enabled);
    let v = cell.exclusive_access(&mut mask, &mut line);
    assert_eq!(v, 10);
    cell.release(v, &mut mask, &mut line);
}

#[test]
fn no_interrupt_mutation_while_guard_held() {
    let (mut uart, mut mask, mut line, mut flags) = setup();
    // a byte is pending at the hardware, so a delivery would mutate
    uart.hw_event(HwEvent::Recv(0x55), &mut mask, &mut line);
    let dev = uart.inner.exclusive_access(&mut mask, &mut line);
    assert!(!line.enabled);
    // fault-inject a pending interrupt during the held guard
    let delivered = try_deliver_irq(&mut uart, &mut mask, &mut line, &mut flags);
    assert!(delivered.is_none());
    assert!(!flags.work_pending);
    uart.inner.release(dev, &mut mask, &mut line);
    assert!(line.enabled);
    // no reentrant mutation happened: the byte is still undrained
    let dev = uart.inner.exclusive_access(&mut mask, &mut line);
    assert_eq!(dev.rx_fifo.len(), 1);
    assert_eq!(dev.read_buffer.len(), 0);
    uart.inner.release(dev, &mut mask, &mut line);
    // unmasked again: the same interrupt now lands
    let delivered = try_deliver_irq(&mut uart, &mut mask, &mut line, &mut flags);
    assert!(delivered.is_some());
    let dev = uart.inner.exclusive_access(&mut mask, &mut line);
    assert_eq!(dev.read_buffer.front(), Some(&0x55));
    uart.inner.release(dev, &mut mask, &mut line);
}

#[test]
fn byte_with_no_reader_waiting_is_retained_in_order() {
    let (mut uart, mut mask, mut line, mut flags) = setup();
    uart.hw_event(HwEvent::Recv(0x61), &mut mask, &mut line);
    let woken = uart.handle_irq(&mut mask, &mut line, &mut flags);
    assert_eq!(woken.0, None);
    uart.hw_event(HwEvent::Recv(0x62), &mut mask, &mut line);
    let woken = uart.handle_irq(&mut mask, &mut line, &mut flags);
    assert_eq!(woken.0, None);
    // both bytes retained; reads complete with exactly them, in order
    let mut r1 = uart.read(1);
    match r1.poll(&mut uart, &mut mask, &mut line) {
        Poll::Ready(b) => assert_eq!(b, 0x61),
        Poll::Pending => panic!("first buffered byte not delivered"),
    }
    let mut r2 = uart.read(2);
    match r2.poll(&mut uart, &mut mask, &mut line) {
        Poll::Ready(b) => assert_eq!(b, 0x62),
        Poll::Pending => panic!("second buffered byte not delivered"),
    }
}

#[test]
fn suspended_readers_complete_in_fifo_order() {
    let (mut uart, mut mask, mut line, mut flags) = setup();
    let mut r1 = uart.read(1);
    let mut r2 = uart.read(2);
    assert!(matches!(r1.poll(&mut uart, &mut mask, &mut line), Poll::Pending));
    assert!(matches!(r2.poll(&mut uart, &mut mask, &mut line), Poll::Pending));
    // two bytes arrive via the dispatcher
    uart.hw_event(HwEvent::Recv(0x10), &mut mask, &mut line);
    let woken = uart.handle_irq(&mut mask, &mut line, &mut flags);
    assert_eq!(woken.0, Some(1));
    uart.hw_event(HwEvent::Recv(0x20), &mut mask, &mut line);
    let woken = uart.handle_irq(&mut mask, &mut line, &mut flags);
    assert_eq!(woken.0, Some(2));
    match r1.poll(&mut uart, &mut mask, &mut line) {
        Poll::Ready(b) => assert_eq!(b, 0x10),
        Poll::Pending => panic!("first reader not resumed"),
    }
    match r2.poll(&mut uart, &mut mask, &mut line) {
        Poll::Ready(b) => assert_eq!(b, 0x20),
        Poll::Pending => panic!("second reader not resumed"),
    }
}

#[test]
fn repeated_reader_polls_register_once() {
    let (mut uart, mut mask, mut line, _flags) = setup();
    let mut r = uart.read(9);
    assert!(matches!(r.poll(&mut uart, &mut mask, &mut line), Poll::Pending));
    assert!(matches!(r.poll(&mut uart, &mut mask, &mut line), Poll::Pending));
    assert!(matches!(r.poll(&mut uart, &mut mask, &mut line), Poll::Pending));
    let dev = uart.inner.exclusive_access(&mut mask, &mut line);
    assert_eq!(dev.read_waker_list.len(), 1);
    uart.inner.release(dev, &mut mask, &mut line);
}

#[test]
fn writer_never_writes_before_ready_and_writes_exactly_once() {
    let (mut uart, mut mask, mut line, _flags) = setup();
    // make the transmitter busy
    let mut dev = uart.inner.exclusive_access(&mut mask, &mut line);
    dev.thr_empty = false;
    uart.inner.release(dev, &mut mask, &mut line);
    let mut w = uart.write(0x41, 3);
    assert!(matches!(w.poll(&mut uart, &mut mask, &mut line), Poll::Pending));
    assert!(matches!(w.poll(&mut uart, &mut mask, &mut line), Poll::Pending));
    let dev = uart.inner.exclusive_access(&mut mask, &mut line);
    assert_eq!(dev.tx_history.len(), 0);
    assert_eq!(dev.write_waker_list.len(), 1);
    uart.inner.release(dev, &mut mask, &mut line);
    // the transmitter runs dry; the poll that observes it performs
    // exactly one write of the writer's byte
    uart.hw_event(HwEvent::TxIdle, &mut mask, &mut line);
    assert!(matches!(w.poll(&mut uart, &mut mask, &mut line), Poll::Ready(())));
    let dev = uart.inner.exclusive_access(&mut mask, &mut line);
    assert_eq!(dev.tx_history, vec![0x41]);
    assert!(!dev.thr_empty);
    uart.inner.release(dev, &mut mask, &mut line);
}

#[test]
fn two_writers_one_ready_signal_resumes_only_the_first() {
    let (mut uart, mut mask, mut line, mut flags) = setup();
    let mut dev = uart.inner.exclusive_access(&mut mask, &mut line);
    dev.thr_empty = false;
    uart.inner.release(dev, &mut mask, &mut line);
    let mut w1 = uart.write(0x41, 1);
    let mut w2 = uart.write(0x42, 2);
    assert!(matches!(w1.poll(&mut uart, &mut mask, &mut line), Poll::Pending));
    assert!(matches!(w2.poll(&mut uart, &mut mask, &mut line), Poll::Pending));
    // one transmitter-ready signal: exactly the first suspender resumes
    uart.hw_event(HwEvent::TxIdle, &mut mask, &mut line);
    let woken = uart.handle_irq(&mut mask, &mut line, &mut flags);
    assert_eq!(woken.1, Some(1));
    assert!(matches!(w1.poll(&mut uart, &mut mask, &mut line), Poll::Ready(())));
    // the second stays suspended: the transmitter is busy again
    assert!(matches!(w2.poll(&mut uart, &mut mask, &mut line), Poll::Pending));
    let dev = uart.inner.exclusive_access(&mut mask, &mut line);
    assert_eq!(dev.tx_history, vec![0x41]);
    uart.inner.release(dev, &mut mask, &mut line);
    // the next ready signal resumes the second writer
    uart.hw_event(HwEvent::TxIdle, &mut mask, &mut line);
    let woken = uart.handle_irq(&mut mask, &mut line, &mut flags);
    assert_eq!(woken.1, Some(2));
    assert!(matches!(w2.poll(&mut uart, &mut mask, &mut line), Poll::Ready(())));
    let dev = uart.inner.exclusive_access(&mut mask, &mut line);
    assert_eq!(dev.tx_history, vec![0x41, 0x42]);
    uart.inner.release(dev, &mut mask, &mut line);
}

#[test]
fn read_completes_on_next_poll_after_delivery() {
    let (mut uart, mut mask, mut line, mut flags) = setup();
    let mut r = uart.read(4);
    // no data pending: the operation suspends
    assert!(matches!(r.poll(&mut uart, &mut mask, &mut line), Poll::Pending));
    // the dispatcher delivers one byte
    uart.hw_event(HwEvent::Recv(0x48), &mut mask, &mut line);
    let woken = uart.handle_irq(&mut mask, &mut line, &mut flags);
    assert_eq!(woken.0, Some(4));
    assert!(flags.work_pending);
    match r.poll(&mut uart, &mut mask, &mut line) {
        Poll::Ready(b) => assert_eq!(b, 0x48),
        Poll::Pending => panic!("read did not complete on the next poll"),
    }
    assert_eq!(r.result, Some(0x48));
}

#[test]
fn sched_decision_stops_iff_finished() {
    let mut flags = SchedFlags::new();
    assert!(matches!(sched_decision(&mut flags), SchedAction::Halt));
    __pender(&mut flags);
    assert!(matches!(sched_decision(&mut flags), SchedAction::Repoll));
    // the repoll decision consumed the wake signal
    assert!(!flags.work_pending);
    assert!(matches!(sched_decision(&mut flags), SchedAction::Halt));
    // spurious wakes never stop the loop
    __pender(&mut flags);
    __pender(&mut flags);
    assert!(matches!(sched_decision(&mut flags), SchedAction::Repoll));
    __work_finish(&mut flags);
    assert!(matches!(sched_decision(&mut flags), SchedAction::Stop));
}

#[test]
fn executor_terminates_iff_marker_invoked() {
    // a read task that marks finish when it completes
    let (mut uart, mut mask, mut line, _flags) = setup();
    let mut ex = Executor::new();
    ex.spawn(TaskOp::Read(uart.read(1)), Some(WorkMarker::new()));
    let events = vec![HwEvent::Recv(0x48)];
    let (outcome, consumed) = ex.run(&mut uart, &mut mask, &mut line, &events);
    assert_eq!(outcome, RunOutcome::Finished);
    assert_eq!(consumed, 1);
    assert!(ex.flags.finished);
    match ex.tasks[0].op {
        TaskOp::Read(r) => assert_eq!(r.result, Some(0x48)),
        TaskOp::Write(_) => panic!("spawned a read task"),
    }
    // the same run without the marker never stops on its own: the whole
    // event script is consumed and the loop would halt forever
    let (mut uart, mut mask, mut line, _flags) = setup();
    let mut ex = Executor::new();
    ex.spawn(TaskOp::Read(uart.read(1)), None);
    let events = vec![HwEvent::Recv(0x48)];
    let (outcome, consumed) = ex.run(&mut uart, &mut mask, &mut line, &events);
    assert_eq!(outcome, RunOutcome::Stalled);
    assert_eq!(consumed, events.len());
    assert!(!ex.flags.finished);
    match ex.tasks[0].op {
        TaskOp::Read(r) => assert_eq!(r.result, Some(0x48)),
        TaskOp::Write(_) => panic!("spawned a read task"),
    }
    // a run that starts with the flag already set returns at once
    let (mut uart, mut mask, mut line, _flags) = setup();
    let mut ex = Executor::new();
    ex.flags.finished = true;
    let (outcome, consumed) = ex.run(&mut uart, &mut mask, &mut line, &events);
    assert_eq!(outcome, RunOutcome::Finished);
    assert_eq!(consumed, 0);
    assert!(ex.flags.finished);
}

#[test]
fn executor_runs_two_writers_in_order() {
    let (mut uart, mut mask, mut line, _flags) = setup();
    let mut dev = uart.inner.exclusive_access(&mut mask, &mut line);
    dev.thr_empty = false;
    uart.inner.release(dev, &mut mask, &mut line);
    let mut ex = Executor::new();
    ex.spawn(TaskOp::Write(uart.write(0x41, 1)), None);
    ex.spawn(TaskOp::Write(uart.write(0x42, 2)), Some(WorkMarker::new()));
    let events = vec![HwEvent::TxIdle, HwEvent::TxIdle, HwEvent::TxIdle];
    let (outcome, consumed) = ex.run(&mut uart, &mut mask, &mut line, &events);
    assert_eq!(outcome, RunOutcome::Finished);
    assert_eq!(consumed, 2);
    let dev = uart.inner.exclusive_access(&mut mask, &mut line);
    assert_eq!(dev.tx_history, vec![0x41, 0x42]);
    uart.inner.release(dev, &mut mask, &mut line);
}

#[test]
fn init_sets_modem_control_and_rx_interrupt() {
    let mut dev = NS16550aRaw::new(BASE);
    dev.init();
    assert_eq!(dev.mcr, MCR_DATA_TERMINAL_READY | MCR_REQUEST_TO_SEND | MCR_AUX_OUTPUT2);
    assert_eq!(dev.ier, IER_RX_AVAILABLE);
    assert_eq!(dev.base_addr, BASE);
}

#[test]
fn raw_probes_read_line_status() {
    let mut dev = NS16550aRaw::new(BASE);
    assert_eq!(dev.lsr(), LSR_THR_EMPTY);
    assert!(dev.writable());
    assert_eq!(dev.read(), None);
    dev.hw_receive_byte(0x7f);
    assert_eq!(dev.lsr(), LSR_DATA_AVAILABLE | LSR_THR_EMPTY);
    assert_eq!(dev.read(), Some(0x7f));
    assert_eq!(dev.read(), None);
    dev.write_thr(0x30);
    assert!(!dev.writable());
    assert_eq!(dev.lsr(), 0);
    dev.hw_tx_complete();
    assert!(dev.writable());
}

#[test]
fn console_print_emits_all_bytes_in_order() {
    let (mut uart, mut mask, mut line, _flags) = setup();
    console::print(&mut uart, &mut mask, &mut line, b"hello");
    console::print(&mut uart, &mut mask, &mut line, b"");
    console::print(&mut uart, &mut mask, &mut line, b"!");
    assert_eq!(mask.nested_level, 0);
    assert!(line.enabled);
    let dev = uart.inner.exclusive_access(&mut mask, &mut line);
    assert_eq!(dev.tx_history, b"hello!".to_vec());
    uart.inner.release(dev, &mut mask, &mut line);
}

#[test]
fn stdio_directions() {
    let stdin = Stdin {};
    let stdout = Stdout {};
    assert!(stdin.readable());
    assert!(!stdin.writable());
    assert!(!stdout.readable());
    assert!(stdout.writable());
}

#[test]
fn stdin_read_one_byte_steps() {
    let (mut uart, mut mask, mut line, mut flags) = setup();
    let stdin = Stdin {};
    let mut op = uart.read(6);
    let mut buf = vec![0u8];
    // nothing buffered: the step reports no byte and suspends the op
    let n = stdin.read(&mut uart, &mut op, &mut mask, &mut line, &mut buf);
    assert_eq!(n, 0);
    assert_eq!(buf, vec![0u8]);
    // a byte arrives; the retried step consumes it
    uart.hw_event(HwEvent::Recv(0x0a), &mut mask, &mut line);
    let woken = uart.handle_irq(&mut mask, &mut line, &mut flags);
    assert_eq!(woken.0, Some(6));
    let mut op2 = uart.read(6);
    let n = stdin.read(&mut uart, &mut op2, &mut mask, &mut line, &mut buf);
    assert_eq!(n, 1);
    assert_eq!(buf, vec![0x0a]);
}

#[test]
fn stdout_write_reports_whole_buffer() {
    let (mut uart, mut mask, mut line, _flags) = setup();
    let stdout = Stdout {};
    let n = stdout.write(&mut uart, &mut mask, &mut line, b"ok");
    assert_eq!(n, 2);
    let dev = uart.inner.exclusive_access(&mut mask, &mut line);
    assert_eq!(dev.tx_history, b"ok".to_vec());
    uart.inner.release(dev, &mut mask, &mut line);
}

#[test]
fn read_char_polls_under_guard() {
    let (mut uart, mut mask, mut line, mut flags) = setup();
    let mut op = uart.read(8);
    assert!(matches!(
        read_char(&mut uart, &mut op, &mut mask, &mut line),
        Poll::Pending
    ));
    uart.hw_event(HwEvent::Recv(0x21), &mut mask, &mut line);
    let _ = uart.handle_irq(&mut mask, &mut line, &mut flags);
    match read_char(&mut uart, &mut op, &mut mask, &mut line) {
        Poll::Ready(b) => assert_eq!(b, 0x21),
        Poll::Pending => panic!("byte was delivered but not read"),
    }
    assert_eq!(mask.nested_level, 0);
    assert!(line.enabled);
}

#[test]
fn spawned_task_fields() {
    let (uart, _mask, _line, _flags) = setup();
    let mut ex = Executor::new();
    ex.spawn(TaskOp::Write(uart.write(0x5a, 2)), None);
    assert_eq!(ex.tasks.len(), 1);
    let t: Task = ex.tasks[0];
    assert!(t.runnable);
    assert!(t.finish_marker.is_none());
    match t.op {
        TaskOp::Write(w) => {
            assert_eq!(w.ch, 0x5a);
            assert_eq!(w.waker, 2);
        }
        TaskOp::Read(_) => panic!("spawned a write task"),
    }
}
