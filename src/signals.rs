//! Edge-triggered delivery of SIGINT and SIGTERM to a host event loop.
use std::sync::atomic::{AtomicBool, Ordering};
use std::sync::Arc;
use vstd::prelude::*;

verus! {

/// A signal that the poller reports.
#[derive(Clone, Copy, Debug, PartialEq, Eq, Structural)]
pub enum Signal {
    Interrupt,
    Terminate,
}

/// The raw number of a signal, as libc defines it on every target.
pub open spec fn raw_number(s: Signal) -> i32 {
    match s {
        Signal::Interrupt => 2,
        Signal::Terminate => 15,
    }
}

/// Relies on `signal_hook::consts::signal::SIGINT`, a re-export of libc's
/// `SIGINT`, which is 2 on every target that libc defines it for.
#[verifier::external_body]
fn sigint_number() -> (r: i32)
    ensures
        r == 2,
{
    signal_hook::consts::signal::SIGINT
}

/// Relies on `signal_hook::consts::signal::SIGTERM`, a re-export of libc's
/// `SIGTERM`, which is 15 on every target that libc defines it for.
#[verifier::external_body]
fn sigterm_number() -> (r: i32)
    ensures
        r == 15,
{
    signal_hook::consts::signal::SIGTERM
}

impl Signal {
    /// The platform's raw signal number, as handed to a host callback.
    pub fn number(self) -> (r: i32)
        ensures
            r == raw_number(self),
    {
        match self {
            Signal::Interrupt => sigint_number(),
            Signal::Terminate => sigterm_number(),
        }
    }
}

/// The pair of pending-signal flags: `true` means received and not yet
/// consumed by a poll.
#[derive(Clone, Copy, Debug, PartialEq, Eq, Structural)]
pub struct SignalFlags {
    pub interrupt: bool,
    pub terminate: bool,
}

/// What one poll reports on the given flags: SIGINT first, then SIGTERM.
pub open spec fn poll_report(f: SignalFlags) -> Option<Signal> {
    if f.interrupt {
        Some(Signal::Interrupt)
    } else if f.terminate {
        Some(Signal::Terminate)
    } else {
        None
    }
}

/// The flags after one poll: only the reported signal is consumed.
pub open spec fn poll_next(f: SignalFlags) -> SignalFlags {
    if f.interrupt {
        SignalFlags { interrupt: false, ..f }
    } else {
        SignalFlags { terminate: false, ..f }
    }
}

/// The flags after the OS delivered `s`.
pub open spec fn deliver_next(f: SignalFlags, s: Signal) -> SignalFlags {
    match s {
        Signal::Interrupt => SignalFlags { interrupt: true, ..f },
        Signal::Terminate => SignalFlags { terminate: true, ..f },
    }
}

impl SignalFlags {
    /// No signal pending.
    pub fn new() -> (r: SignalFlags)
        ensures
            !r.interrupt,
            !r.terminate,
    {
        SignalFlags { interrupt: false, terminate: false }
    }

    /// Records the delivery of `s`; delivering a pending signal again
    /// changes nothing.
    pub fn deliver(&mut self, s: Signal)
        ensures
            *final(self) == deliver_next(*old(self), s),
    {
        match s {
            Signal::Interrupt => self.interrupt = true,
            Signal::Terminate => self.terminate = true,
        }
    }

    /// Reports at most one pending signal, SIGINT before SIGTERM, and
    /// consumes only the one it reports.
    pub fn poll(&mut self) -> (r: Option<Signal>)
        ensures
            r == poll_report(*old(self)),
            *final(self) == poll_next(*old(self)),
    {
        if self.interrupt {
            self.interrupt = false;
            Some(Signal::Interrupt)
        } else if self.terminate {
            self.terminate = false;
            Some(Signal::Terminate)
        } else {
            None
        }
    }
}

/// Both signals delivered before polling: the first poll reports SIGINT, the
/// second SIGTERM, and the third nothing.
pub proof fn lemma_poll_order(f: SignalFlags)
    requires
        f.interrupt,
        f.terminate,
    ensures
        poll_report(f) == Some(Signal::Interrupt),
        poll_report(poll_next(f)) == Some(Signal::Terminate),
        poll_report(poll_next(poll_next(f))) == None::<Signal>,
{
}

/// A signal that was just delivered is reported by the first or the second
/// poll that follows.
pub proof fn lemma_delivered_is_reported(f: SignalFlags, s: Signal)
    ensures
        poll_report(deliver_next(f, s)) == Some(s)
            || poll_report(poll_next(deliver_next(f, s))) == Some(s),
{
}

/// Polling with nothing pending reports nothing and changes nothing.
pub proof fn lemma_quiet_poll(f: SignalFlags)
    requires
        !f.interrupt,
        !f.terminate,
    ensures
        poll_report(f) == None::<Signal>,
        poll_next(f) == f,
{
}

#[verifier::external_type_specification]
#[verifier::external_body]
pub struct ExSigId(signal_hook::SigId);

#[verifier::external_type_specification]
#[verifier::external_body]
pub struct ExIoError(std::io::Error);

/// Whether `signal` is one that the hooks are installed for; signal-hook
/// panics on the signals it forbids, and these are not among them.
pub open spec fn hooked(signal: i32) -> bool {
    signal == raw_number(Signal::Interrupt) || signal == raw_number(Signal::Terminate)
}

/// Relies on `signal_hook::flag::register`: installs a handler that sets
/// `flag` to `true` whenever `signal` arrives. Whether the OS accepts the
/// handler is not known beforehand.
#[verifier::external_body]
fn set_flag_on(signal: i32, flag: Arc<AtomicBool>) -> (r: Result<signal_hook::SigId, std::io::Error>)
    requires
        hooked(signal),
{
    signal_hook::flag::register(signal, flag)
}

/// Relies on `signal_hook::flag::register_conditional_default`: installs a
/// handler that runs the default action of `signal` (ending the process)
/// when `flag` is already `true` as the signal arrives, that is, when an
/// earlier delivery was not yet consumed. Whether the OS accepts the
/// handler is not known beforehand.
#[verifier::external_body]
fn default_when_flagged(signal: i32, flag: Arc<AtomicBool>) -> (r: Result<signal_hook::SigId, std::io::Error>)
    requires
        hooked(signal),
{
    signal_hook::flag::register_conditional_default(signal, flag)
}

/// The signal whose handler could not be installed.
#[derive(Clone, Copy, Debug, PartialEq, Eq, Structural)]
pub struct HookError {
    pub signal: Signal,
}

/// The outcome of installing the hooks, given whether the OS accepted the
/// handlers of each signal. SIGINT is installed first; a refusal there is
/// reported before anything about SIGTERM.
pub open spec fn install_outcome(interrupt_hooked: bool, terminate_hooked: bool) -> Result<
    (),
    HookError,
> {
    if !interrupt_hooked {
        Err(HookError { signal: Signal::Interrupt })
    } else if !terminate_hooked {
        Err(HookError { signal: Signal::Terminate })
    } else {
        Ok(())
    }
}

/// Decides the outcome of installing the hooks from the OS's answers: any
/// refused handler is an error naming its signal.
pub fn installation(interrupt_hooked: bool, terminate_hooked: bool) -> (r: Result<(), HookError>)
    ensures
        r == install_outcome(interrupt_hooked, terminate_hooked),
{
    if !interrupt_hooked {
        Err(HookError { signal: Signal::Interrupt })
    } else if !terminate_hooked {
        Err(HookError { signal: Signal::Terminate })
    } else {
        Ok(())
    }
}

/// Installs the two handlers of one signal on `flag`: first the one that
/// ends the process on a delivery while `flag` is still set, then the one
/// that sets it. Reports whether the OS accepted both.
fn hook(signal: i32, flag: &Arc<AtomicBool>) -> bool
    requires
        hooked(signal),
{
    match default_when_flagged(signal, flag.clone()) {
        Ok(_) => {},
        Err(_) => {
            return false;
        },
    }
    match set_flag_on(signal, flag.clone()) {
        Ok(_) => true,
        Err(_) => false,
    }
}

/// Process-wide pending flags for SIGINT and SIGTERM, set from signal context
/// and consumed by `poll`.
pub struct SignalHooks {
    interrupt: Arc<AtomicBool>,
    terminate: Arc<AtomicBool>,
}

impl SignalHooks {
    /// Installs handlers for SIGINT, then SIGTERM, each setting its own
    /// pending flag. A signal that arrives again before a poll consumed the
    /// previous one runs its default action. The result is what
    /// `installation` decides from the OS's answers.
    pub fn install() -> (r: Result<SignalHooks, HookError>) {
        let interrupt = Arc::new(AtomicBool::new(false));
        let terminate = Arc::new(AtomicBool::new(false));
        let interrupt_hooked = hook(Signal::Interrupt.number(), &interrupt);
        let terminate_hooked = if interrupt_hooked {
            hook(Signal::Terminate.number(), &terminate)
        } else {
            false
        };
        match installation(interrupt_hooked, terminate_hooked) {
            Ok(()) => Ok(SignalHooks { interrupt, terminate }),
            Err(e) => Err(e),
        }
    }

    /// Reports at most one signal received since it was last reported,
    /// SIGINT before SIGTERM, along with the flags it consumed. At most one
    /// flag is consumed, and it is the one reported: SIGTERM's flag is left
    /// untouched when SIGINT is reported, so that a later poll reports it.
    pub fn poll(&self) -> (r: (Option<Signal>, SignalFlags))
        ensures
            r.0 == poll_report(r.1),
            !(r.1.interrupt && r.1.terminate),
    {
        let interrupt = self.interrupt.swap(false, Ordering::SeqCst);
        let terminate = if interrupt {
            false
        } else {
            self.terminate.swap(false, Ordering::SeqCst)
        };
        let taken = SignalFlags { interrupt, terminate };
        let mut rest = taken;
        let reported = rest.poll();
        (reported, taken)
    }
}

} // verus!
