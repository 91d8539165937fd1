//! The filter service: the single owner of the current hook instance, which
//! serializes start, stop, reconfiguration and status queries and keeps the
//! blocked-click count across stop/start cycles.
use vstd::prelude::*;
use crate::debounce::{EventClass, HookState, bumped};
use crate::hook::HookControl;
use crate::status::{FilterError, FilterStatus, DEFAULT_THRESHOLD_MS};

verus! {

/// The service state. `N` is the notification target handed to each new hook.
pub struct MouseFilterService<H, N> {
    handle: Option<N>,
    hook: Option<H>,
    running: bool,
    threshold_ms: u64,
    blocked_clicks: u64,
}

impl<H: HookControl<N>, N: Clone> MouseFilterService<H, N> {
    pub closed spec fn is_running(&self) -> bool {
        self.running
    }

    pub closed spec fn remembered_threshold(&self) -> u64 {
        self.threshold_ms
    }

    /// The blocked-click count captured when the last hook was stopped.
    pub closed spec fn baseline(&self) -> u64 {
        self.blocked_clicks
    }

    pub closed spec fn has_target(&self) -> bool {
        self.handle is Some
    }

    /// The live hook, present exactly while running.
    pub closed spec fn live_hook(&self) -> Option<H> {
        self.hook
    }

    /// A hook is held exactly while running, and it is an installed hook of
    /// an available platform.
    pub open spec fn wf(&self) -> bool {
        &&& self.is_running() == (self.live_hook() is Some)
        &&& self.live_hook() matches Some(h) ==> h.installed() && H::available()
    }

    /// The status the service reports: the live counter while running, the
    /// captured one while stopped.
    pub open spec fn status_spec(&self) -> FilterStatus {
        FilterStatus {
            running: self.is_running(),
            threshold_ms: self.remembered_threshold(),
            blocked_clicks: if self.is_running() {
                self.live_hook().unwrap().hook_state().blocked
            } else {
                self.baseline()
            },
        }
    }

    pub fn new() -> (r: Self)
        ensures
            r.wf(),
            !r.has_target(),
            r.status_spec() == FilterStatus::fallback_spec(),
    {
        MouseFilterService {
            handle: None,
            hook: None,
            running: false,
            threshold_ms: DEFAULT_THRESHOLD_MS,
            blocked_clicks: 0,
        }
    }

    /// Binds the notification target that later hooks report to.
    pub fn attach_handle(&mut self, handle: N)
        requires
            old(self).wf(),
        ensures
            final(self).wf(),
            final(self).has_target(),
            final(self).is_running() == old(self).is_running(),
            final(self).remembered_threshold() == old(self).remembered_threshold(),
            final(self).baseline() == old(self).baseline(),
            final(self).live_hook() == old(self).live_hook(),
    {
        self.handle = Some(handle);
    }

    /// Starts the filter with `threshold_ms`. While running this only changes
    /// the threshold of the live hook, which keeps its count and reference
    /// click; otherwise a fresh hook is created and started, and the captured
    /// count restarts from zero. On error nothing changes.
    pub fn start(&mut self, threshold_ms: u64) -> (r: Result<(), FilterError>)
        requires
            old(self).wf(),
        ensures
            final(self).wf(),
            final(self).has_target() == old(self).has_target(),
            old(self).is_running() ==> r is Ok && final(self).live_hook().unwrap().hook_state() == (
            HookState { threshold_ms, ..old(self).live_hook().unwrap().hook_state() })
                && final(self).baseline() == old(self).baseline(),
            !old(self).is_running() && !old(self).has_target() ==> r == Err::<(), FilterError>(
                FilterError::ServiceUnavailable,
            ),
            !old(self).is_running() && old(self).has_target() && !H::available() ==> r == Err::<
                (),
                FilterError,
            >(FilterError::Unsupported),
            !old(self).is_running() && old(self).has_target() && H::available()
                && !H::install_can_fail() ==> r is Ok,
            r is Err ==> final(self).status_spec() == old(self).status_spec(),
            r is Ok ==> final(self).is_running() && final(self).remembered_threshold()
                == threshold_ms,
            r is Ok && !old(self).is_running() ==> final(self).baseline() == 0
                && final(self).live_hook().unwrap().hook_state() == (HookState {
                threshold_ms,
                ..HookState::initial(DEFAULT_THRESHOLD_MS)
            }),
    {
        if self.running {
            match self.hook.take() {
                Some(mut hook) => {
                    let res = hook.set_threshold(threshold_ms);
                    self.hook = Some(hook);
                    if let Err(e) = res {
                        return Err(e);
                    }
                },
                None => {},
            }
            self.threshold_ms = threshold_ms;
            return Ok(());
        }
        let handle = match &self.handle {
            Some(h) => h.clone(),
            None => {
                return Err(FilterError::ServiceUnavailable);
            },
        };
        let mut hook = match H::new(handle) {
            Ok(h) => h,
            Err(e) => {
                return Err(e);
            },
        };
        if let Err(e) = hook.start(threshold_ms) {
            return Err(e);
        }
        self.threshold_ms = threshold_ms;
        self.running = true;
        self.blocked_clicks = 0;
        self.hook = Some(hook);
        Ok(())
    }

    /// Stops and discards the live hook, capturing its final count.
    pub fn stop(&mut self) -> (r: Result<(), FilterError>)
        requires
            old(self).wf(),
        ensures
            final(self).wf(),
            final(self).has_target() == old(self).has_target(),
            !old(self).is_running() ==> r == Err::<(), FilterError>(FilterError::NotRunning)
                && final(self).status_spec() == old(self).status_spec(),
            old(self).is_running() ==> r is Ok && !final(self).is_running()
                && final(self).live_hook() is None && final(self).remembered_threshold()
                == old(self).remembered_threshold() && final(self).baseline()
                == old(self).status_spec().blocked_clicks,
    {
        if !self.running {
            return Err(FilterError::NotRunning);
        }
        match self.hook.take() {
            Some(mut hook) => {
                if let Err(e) = hook.stop() {
                    self.hook = Some(hook);
                    return Err(e);
                }
                self.blocked_clicks = hook.blocked_clicks();
            },
            None => {},
        }
        self.running = false;
        Ok(())
    }

    /// Remembers `threshold_ms`, and forwards it to the live hook if running.
    pub fn update_threshold(&mut self, threshold_ms: u64) -> (r: Result<(), FilterError>)
        requires
            old(self).wf(),
        ensures
            r is Ok,
            final(self).wf(),
            final(self).has_target() == old(self).has_target(),
            final(self).is_running() == old(self).is_running(),
            final(self).remembered_threshold() == threshold_ms,
            final(self).baseline() == old(self).baseline(),
            !old(self).is_running() ==> final(self).live_hook() is None,
            old(self).is_running() ==> final(self).live_hook().unwrap().hook_state() == (
            HookState { threshold_ms, ..old(self).live_hook().unwrap().hook_state() }),
    {
        self.threshold_ms = threshold_ms;
        if self.running {
            match self.hook.take() {
                Some(mut hook) => {
                    let res = hook.set_threshold(threshold_ms);
                    self.hook = Some(hook);
                    return res;
                },
                None => {},
            }
        }
        Ok(())
    }

    /// The bound notification target, if one was attached.
    pub fn target(&self) -> (r: Option<&N>)
        ensures
            r is Some == self.has_target(),
    {
        match &self.handle {
            Some(h) => Some(h),
            None => None,
        }
    }

    pub fn snapshot(&self) -> (r: FilterStatus)
        requires
            self.wf(),
        ensures
            r == self.status_spec(),
    {
        let blocked = if self.running {
            match &self.hook {
                Some(hook) => hook.blocked_clicks(),
                None => self.blocked_clicks,
            }
        } else {
            self.blocked_clicks
        };
        FilterStatus { running: self.running, threshold_ms: self.threshold_ms, blocked_clicks: blocked }
    }

    /// Hands one observed event to the live hook, if any. `Some(elapsed_ms)`
    /// means the event is suppressed.
    pub fn deliver(&mut self, class: EventClass, now_us: u64) -> (r: Option<u64>)
        requires
            old(self).wf(),
        ensures
            final(self).wf(),
            final(self).has_target() == old(self).has_target(),
            final(self).is_running() == old(self).is_running(),
            final(self).remembered_threshold() == old(self).remembered_threshold(),
            final(self).baseline() == old(self).baseline(),
            !old(self).is_running() ==> r is None && final(self).live_hook() is None,
            old(self).is_running() ==> (final(self).live_hook().unwrap().hook_state(), r) == old(
            self).live_hook().unwrap().hook_state().step(class, now_us),
            final(self).status_spec().blocked_clicks == if r is Some {
                bumped(old(self).status_spec().blocked_clicks)
            } else {
                old(self).status_spec().blocked_clicks
            },
    {
        match self.hook.take() {
            Some(mut hook) => {
                let r = hook.deliver(class, now_us);
                self.hook = Some(hook);
                r
            },
            None => None,
        }
    }
}

impl<H: HookControl<N>, N: Clone> Default for MouseFilterService<H, N> {
    fn default() -> (r: Self)
        ensures
            r.wf(),
            !r.has_target(),
            r.status_spec() == FilterStatus::fallback_spec(),
    {
        MouseFilterService::new()
    }
}

/// Binds `handle` as the notification target and starts (or reconfigures)
/// the filter; returns the resulting status.
pub fn start<H: HookControl<N>, N: Clone>(
    service: &mut MouseFilterService<H, N>,
    handle: N,
    threshold_ms: u64,
) -> (r: Result<FilterStatus, FilterError>)
    requires
        old(service).wf(),
    ensures
        final(service).wf(),
        final(service).has_target(),
        r matches Ok(st) ==> st == final(service).status_spec(),
        r is Err ==> final(service).status_spec() == old(service).status_spec(),
        old(service).is_running() ==> r == Ok::<FilterStatus, FilterError>(
            FilterStatus { threshold_ms, ..old(service).status_spec() },
        ),
        !old(service).is_running() && !H::available() ==> r == Err::<FilterStatus, FilterError>(
            FilterError::Unsupported,
        ),
        !old(service).is_running() && H::available() && !H::install_can_fail() ==> r is Ok,
        !old(service).is_running() && r is Ok ==> r == Ok::<FilterStatus, FilterError>(
            FilterStatus { running: true, threshold_ms, blocked_clicks: 0 },
        ) && final(service).baseline() == 0,
        !old(service).is_running() && r is Ok ==> final(service).live_hook().unwrap().hook_state()
            == (HookState { threshold_ms, ..HookState::initial(DEFAULT_THRESHOLD_MS) }),
        old(service).is_running() ==> final(service).live_hook().unwrap().hook_state() == (
        HookState { threshold_ms, ..old(service).live_hook().unwrap().hook_state() }),
{
    service.attach_handle(handle);
    match service.start(threshold_ms) {
        Ok(()) => Ok(service.snapshot()),
        Err(e) => Err(e),
    }
}

/// Binds `handle` as the notification target and stops the filter; returns
/// the resulting status, whose count is the one captured from the hook.
pub fn stop<H: HookControl<N>, N: Clone>(service: &mut MouseFilterService<H, N>, handle: N) -> (r:
    Result<FilterStatus, FilterError>)
    requires
        old(service).wf(),
    ensures
        final(service).wf(),
        final(service).has_target(),
        !old(service).is_running() ==> r == Err::<FilterStatus, FilterError>(
            FilterError::NotRunning,
        ) && final(service).status_spec() == old(service).status_spec(),
        old(service).is_running() ==> r == Ok::<FilterStatus, FilterError>(
            FilterStatus { running: false, ..old(service).status_spec() },
        ) && final(service).status_spec() == (FilterStatus {
            running: false,
            ..old(service).status_spec()
        }) && final(service).live_hook() is None,
{
    service.attach_handle(handle);
    match service.stop() {
        Ok(()) => Ok(service.snapshot()),
        Err(e) => Err(e),
    }
}

/// Sets the threshold, live if the filter runs; returns the resulting
/// status. While stopped only the remembered threshold changes. Never fails.
pub fn update_threshold<H: HookControl<N>, N: Clone>(
    service: &mut MouseFilterService<H, N>,
    threshold_ms: u64,
) -> (r: Result<FilterStatus, FilterError>)
    requires
        old(service).wf(),
    ensures
        final(service).wf(),
        final(service).has_target() == old(service).has_target(),
        final(service).status_spec() == (FilterStatus {
            threshold_ms,
            ..old(service).status_spec()
        }),
        r == Ok::<FilterStatus, FilterError>(final(service).status_spec()),
        !old(service).is_running() ==> final(service).live_hook() is None,
{
    match service.update_threshold(threshold_ms) {
        Ok(()) => Ok(service.snapshot()),
        Err(e) => Err(e),
    }
}

/// The current status. `None` stands for a service that cannot be reached;
/// the default status is reported then, so that this never fails.
pub fn status<H: HookControl<N>, N: Clone>(service: Option<&MouseFilterService<H, N>>) -> (r:
    FilterStatus)
    requires
        service matches Some(s) ==> s.wf(),
    ensures
        r == match service {
            Some(s) => s.status_spec(),
            None => FilterStatus::fallback_spec(),
        },
{
    match service {
        Some(s) => s.snapshot(),
        None => FilterStatus::fallback(),
    }
}

/// On a platform without the hook facility the service never runs: every
/// well-formed service over such a hook is stopped.
pub proof fn unavailable_platform_never_runs<H: HookControl<N>, N: Clone>(
    service: MouseFilterService<H, N>,
)
    requires
        service.wf(),
        !H::available(),
    ensures
        !service.is_running(),
        service.status_spec().blocked_clicks == service.baseline(),
{
}

} // verus!
