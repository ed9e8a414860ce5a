use lune_std_process::signals::{installation, HookError, Signal, SignalFlags, SignalHooks};

#[test]
fn both_signals_pending_report_interrupt_then_terminate() {
    let mut flags = SignalFlags::new();
    flags.deliver(Signal::Interrupt);
    flags.deliver(Signal::Terminate);
    assert_eq!(flags.poll(), Some(Signal::Interrupt));
    assert_eq!(flags.poll(), Some(Signal::Terminate));
    assert_eq!(flags.poll(), None);
}

#[test]
fn interrupt_keeps_terminate_pending() {
    let mut flags = SignalFlags { interrupt: true, terminate: true };
    assert_eq!(flags.poll(), Some(Signal::Interrupt));
    assert_eq!(flags, SignalFlags { interrupt: false, terminate: true });
}

#[test]
fn terminate_alone_is_reported() {
    let mut flags = SignalFlags::new();
    flags.deliver(Signal::Terminate);
    assert_eq!(flags.poll(), Some(Signal::Terminate));
    assert_eq!(flags, SignalFlags::new());
}

#[test]
fn quiet_poll_reports_nothing() {
    let mut flags = SignalFlags::new();
    assert_eq!(flags.poll(), None);
    assert_eq!(flags, SignalFlags { interrupt: false, terminate: false });
}

#[test]
fn repeated_delivery_is_reported_once() {
    let mut flags = SignalFlags::new();
    flags.deliver(Signal::Interrupt);
    flags.deliver(Signal::Interrupt);
    assert_eq!(flags.poll(), Some(Signal::Interrupt));
    assert_eq!(flags.poll(), None);
}

#[test]
fn raw_signal_numbers() {
    assert_eq!(Signal::Interrupt.number(), 2);
    assert_eq!(Signal::Terminate.number(), 15);
    assert_eq!(Signal::Interrupt.number(), signal_hook::consts::SIGINT);
    assert_eq!(Signal::Terminate.number(), signal_hook::consts::SIGTERM);
}

#[test]
fn raised_signals_are_polled_in_order() {
    let hooks = SignalHooks::install().expect("handlers install");
    assert_eq!(hooks.poll().0, None);
    signal_hook::low_level::raise(signal_hook::consts::SIGTERM).unwrap();
    signal_hook::low_level::raise(signal_hook::consts::SIGINT).unwrap();
    let (first, taken) = hooks.poll();
    assert_eq!(first, Some(Signal::Interrupt));
    assert_eq!(taken, SignalFlags { interrupt: true, terminate: false });
    let (second, taken) = hooks.poll();
    assert_eq!(second, Some(Signal::Terminate));
    assert_eq!(taken, SignalFlags { interrupt: false, terminate: true });
    assert_eq!(hooks.poll(), (None, SignalFlags::new()));
}

#[test]
fn installation_outcomes() {
    assert_eq!(installation(true, true), Ok(()));
    assert_eq!(installation(false, true), Err(HookError { signal: Signal::Interrupt }));
    assert_eq!(installation(false, false), Err(HookError { signal: Signal::Interrupt }));
    assert_eq!(installation(true, false), Err(HookError { signal: Signal::Terminate }));
}
