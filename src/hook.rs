//! The capability that a platform's global input hook provides, and the two
//! hooks that need no operating-system facility of their own.
use vstd::prelude::*;
use crate::debounce::{EventClass, HookState};
use crate::status::{FilterError, DEFAULT_THRESHOLD_MS};

verus! {

/// One instance of a global input hook: created, started once, stopped once.
/// `N` is the notification target that the hook reports blocked clicks to.
///
/// Every hook evaluates events against one `HookState`; the contracts below
/// describe that state as the calling thread sees it at the call.
pub trait HookControl<N>: Sized {
    /// Whether the hook is installed and filtering events.
    spec fn installed(&self) -> bool;

    /// The threshold, blocked-click counter and reference click of the hook.
    spec fn hook_state(&self) -> HookState;

    /// Whether the platform offers the facility this hook needs at all.
    spec fn available() -> bool;

    /// Whether installing can fail for reasons outside the process (a
    /// missing permission, an operating system that refuses the tap).
    spec fn install_can_fail() -> bool;

    fn new(emitter: N) -> (r: Result<Self, FilterError>)
        ensures
            Self::available() ==> (r matches Ok(h) && !h.installed() && h.hook_state()
                == HookState::initial(DEFAULT_THRESHOLD_MS)),
            !Self::available() ==> r == Err::<Self, FilterError>(FilterError::Unsupported),
    ;

    fn start(&mut self, threshold_ms: u64) -> (r: Result<(), FilterError>)
        ensures
            !Self::available() ==> r == Err::<(), FilterError>(FilterError::Unsupported),
            old(self).installed() ==> r == Err::<(), FilterError>(FilterError::AlreadyRunning),
            Self::available() && !Self::install_can_fail() && !old(self).installed() ==> r is Ok,
            r is Ok ==> final(self).installed() && final(self).hook_state() == (HookState {
                threshold_ms,
                ..old(self).hook_state()
            }),
            r is Err ==> final(self).installed() == old(self).installed() && final(self).hook_state() == old(self).hook_state(),
    ;

    fn stop(&mut self) -> (r: Result<(), FilterError>)
        ensures
            !Self::available() ==> r == Err::<(), FilterError>(FilterError::Unsupported),
            Self::available() ==> r is Ok && !final(self).installed(),
            r is Err ==> final(self).installed() == old(self).installed(),
            final(self).hook_state() == old(self).hook_state(),
    ;

    fn set_threshold(&mut self, threshold_ms: u64) -> (r: Result<(), FilterError>)
        ensures
            !Self::available() ==> r == Err::<(), FilterError>(FilterError::Unsupported)
                && final(self).hook_state() == old(self).hook_state(),
            Self::available() ==> r is Ok && final(self).hook_state() == (HookState {
                threshold_ms,
                ..old(self).hook_state()
            }),
            final(self).installed() == old(self).installed(),
    ;

    fn blocked_clicks(&self) -> (r: u64)
        ensures
            r == self.hook_state().blocked,
    ;

    /// The delivery callback: evaluates one event. `Some(elapsed_ms)` means
    /// the event is suppressed.
    fn deliver(&mut self, class: EventClass, now_us: u64) -> (r: Option<u64>)
        ensures
            final(self).installed() == old(self).installed(),
            old(self).installed() ==> (final(self).hook_state(), r) == old(self).hook_state().step(class, now_us),
            !old(self).installed() ==> r is None && final(self).hook_state() == old(self).hook_state(),
    ;
}

/// The hook of a platform without a global input hook facility: it cannot
/// be created, and every operation reports that.
#[derive(Clone, Copy, Debug)]
pub struct UnsupportedHook;

impl<N> HookControl<N> for UnsupportedHook {
    open spec fn installed(&self) -> bool {
        false
    }

    open spec fn hook_state(&self) -> HookState {
        HookState::initial(DEFAULT_THRESHOLD_MS)
    }

    open spec fn available() -> bool {
        false
    }

    open spec fn install_can_fail() -> bool {
        true
    }

    fn new(_emitter: N) -> (r: Result<Self, FilterError>) {
        Err(FilterError::Unsupported)
    }

    fn start(&mut self, _threshold_ms: u64) -> (r: Result<(), FilterError>) {
        Err(FilterError::Unsupported)
    }

    fn stop(&mut self) -> (r: Result<(), FilterError>) {
        Err(FilterError::Unsupported)
    }

    fn set_threshold(&mut self, _threshold_ms: u64) -> (r: Result<(), FilterError>) {
        Err(FilterError::Unsupported)
    }

    fn blocked_clicks(&self) -> (r: u64) {
        0
    }

    fn deliver(&mut self, _class: EventClass, _now_us: u64) -> (r: Option<u64>) {
        None
    }
}

/// A hook that keeps the whole filtering state in process: events are
/// handed to it by whoever observes them. A platform hook delegates its
/// delivery callback to one of these.
#[derive(Clone, Copy, Debug)]
pub struct DebounceHook {
    state: HookState,
    active: bool,
}

impl DebounceHook {
    pub closed spec fn state(&self) -> HookState {
        self.state
    }

    pub closed spec fn active(&self) -> bool {
        self.active
    }

    /// A fresh hook, not yet started.
    pub fn create() -> (r: DebounceHook)
        ensures
            r.state() == HookState::initial(DEFAULT_THRESHOLD_MS),
            !r.active(),
    {
        DebounceHook { state: HookState::new(DEFAULT_THRESHOLD_MS), active: false }
    }

    /// Evaluates one event as the delivery callback does: only while the
    /// hook is installed.
    pub fn on_event(&mut self, class: EventClass, now_us: u64) -> (r: Option<u64>)
        ensures
            final(self).active() == old(self).active(),
            old(self).active() ==> (final(self).state(), r) == old(self).state().step(class, now_us),
            !old(self).active() ==> r is None && final(self).state() == old(self).state(),
    {
        if !self.active {
            return None;
        }
        self.state.should_block(class, now_us)
    }

    pub fn is_installed(&self) -> (r: bool)
        ensures
            r == self.active(),
    {
        self.active
    }
}

impl<N> HookControl<N> for DebounceHook {
    open spec fn installed(&self) -> bool {
        self.active()
    }

    open spec fn hook_state(&self) -> HookState {
        self.state()
    }

    open spec fn available() -> bool {
        true
    }

    open spec fn install_can_fail() -> bool {
        false
    }

    fn new(_emitter: N) -> (r: Result<Self, FilterError>) {
        Ok(DebounceHook::create())
    }

    fn start(&mut self, threshold_ms: u64) -> (r: Result<(), FilterError>) {
        if self.active {
            return Err(FilterError::AlreadyRunning);
        }
        self.state.threshold_ms = threshold_ms;
        self.active = true;
        Ok(())
    }

    fn stop(&mut self) -> (r: Result<(), FilterError>) {
        self.active = false;
        Ok(())
    }

    fn set_threshold(&mut self, threshold_ms: u64) -> (r: Result<(), FilterError>) {
        self.state.threshold_ms = threshold_ms;
        Ok(())
    }

    fn blocked_clicks(&self) -> (r: u64) {
        self.state.blocked
    }

    fn deliver(&mut self, class: EventClass, now_us: u64) -> (r: Option<u64>) {
        self.on_event(class, now_us)
    }
}

} // verus!
