use click_filter::debounce::EventClass;
use click_filter::hook::{DebounceHook, HookControl, UnsupportedHook};
use click_filter::service::{self, MouseFilterService};
use click_filter::status::{FilterError, FilterStatus};

const MS: u64 = 1000;

fn status_of(running: bool, threshold_ms: u64, blocked_clicks: u64) -> FilterStatus {
    FilterStatus { running, threshold_ms, blocked_clicks }
}

#[test]
fn new_service_reports_default_status() {
    let svc: MouseFilterService<DebounceHook, ()> = MouseFilterService::new();
    assert_eq!(service::status(Some(&svc)), status_of(false, 100, 0));
}

#[test]
fn unreachable_service_reports_fallback() {
    let none: Option<&MouseFilterService<DebounceHook, ()>> = None;
    assert_eq!(service::status(none), status_of(false, 100, 0));
    assert_eq!(FilterStatus::fallback(), status_of(false, 100, 0));
}

#[test]
fn start_without_target_is_unavailable() {
    let mut svc: MouseFilterService<DebounceHook, ()> = MouseFilterService::new();
    assert_eq!(svc.start(100), Err(FilterError::ServiceUnavailable));
    assert_eq!(svc.snapshot(), status_of(false, 100, 0));
}

#[test]
fn start_then_stop() {
    let mut svc: MouseFilterService<DebounceHook, ()> = MouseFilterService::new();
    assert_eq!(service::start(&mut svc, (), 250), Ok(status_of(true, 250, 0)));
    assert_eq!(svc.deliver(EventClass::LeftDown, 0), None);
    assert_eq!(svc.deliver(EventClass::LeftDown, 249 * MS), Some(249));
    assert_eq!(svc.deliver(EventClass::LeftDown, 250 * MS), None);
    assert_eq!(service::stop(&mut svc, ()), Ok(status_of(false, 250, 1)));
}

#[test]
fn stopped_service_ignores_events() {
    let mut svc: MouseFilterService<DebounceHook, ()> = MouseFilterService::new();
    assert_eq!(svc.deliver(EventClass::LeftDown, 0), None);
    assert_eq!(svc.deliver(EventClass::LeftDown, MS), None);
    assert_eq!(svc.snapshot(), status_of(false, 100, 0));
}

#[test]
fn update_threshold_while_stopped_only_remembers_it() {
    let mut svc: MouseFilterService<DebounceHook, ()> = MouseFilterService::new();
    service::start(&mut svc, (), 100).unwrap();
    svc.deliver(EventClass::LeftDown, 0);
    svc.deliver(EventClass::LeftDown, 10 * MS);
    service::stop(&mut svc, ()).unwrap();
    assert_eq!(service::update_threshold(&mut svc, 300), Ok(status_of(false, 300, 1)));
    assert_eq!(service::status(Some(&svc)), status_of(false, 300, 1));
    assert_eq!(service::update_threshold(&mut svc, 300), Ok(status_of(false, 300, 1)));
}

#[test]
fn update_threshold_while_running_takes_effect_live() {
    let mut svc: MouseFilterService<DebounceHook, ()> = MouseFilterService::new();
    service::start(&mut svc, (), 100).unwrap();
    assert_eq!(svc.deliver(EventClass::LeftDown, 0), None);
    assert_eq!(service::update_threshold(&mut svc, 20), Ok(status_of(true, 20, 0)));
    assert_eq!(svc.deliver(EventClass::LeftDown, 30 * MS), None);
    assert_eq!(svc.deliver(EventClass::LeftDown, 40 * MS), Some(10));
    assert_eq!(service::status(Some(&svc)), status_of(true, 20, 1));
}

#[test]
fn counter_continues_across_cycles() {
    let mut svc: MouseFilterService<DebounceHook, ()> = MouseFilterService::new();
    service::start(&mut svc, (), 100).unwrap();
    assert_eq!(svc.deliver(EventClass::LeftDown, 0), None);
    for t in [10u64, 20, 30] {
        assert!(svc.deliver(EventClass::LeftDown, t * MS).is_some());
    }
    assert_eq!(service::stop(&mut svc, ()), Ok(status_of(false, 100, 3)));
    assert_eq!(service::start(&mut svc, (), 100), Ok(status_of(true, 100, 0)));
    assert_eq!(svc.deliver(EventClass::RightDown, 1_000 * MS), None);
    for t in [1_010u64, 1_020] {
        assert!(svc.deliver(EventClass::RightDown, t * MS).is_some());
    }
    assert_eq!(service::status(Some(&svc)), status_of(true, 100, 2));
    assert_eq!(service::stop(&mut svc, ()), Ok(status_of(false, 100, 2)));
}

#[test]
fn unsupported_platform_never_runs() {
    let mut svc: MouseFilterService<UnsupportedHook, ()> = MouseFilterService::new();
    assert_eq!(service::start(&mut svc, (), 100), Err(FilterError::Unsupported));
    assert_eq!(service::status(Some(&svc)), status_of(false, 100, 0));
    assert_eq!(service::update_threshold(&mut svc, 50), Ok(status_of(false, 50, 0)));
    assert_eq!(service::stop(&mut svc, ()), Err(FilterError::NotRunning));
    assert_eq!(service::status(Some(&svc)), status_of(false, 50, 0));
}

#[test]
fn restart_while_running_reconfigures() {
    let mut svc: MouseFilterService<DebounceHook, ()> = MouseFilterService::new();
    service::start(&mut svc, (), 100).unwrap();
    assert_eq!(svc.deliver(EventClass::LeftDown, 0), None);
    assert_eq!(svc.deliver(EventClass::LeftDown, 50 * MS), Some(50));
    assert_eq!(service::start(&mut svc, (), 40), Ok(status_of(true, 40, 1)));
    // the same hook keeps its reference click and its count
    assert_eq!(svc.deliver(EventClass::LeftDown, 60 * MS), None);
    assert_eq!(svc.deliver(EventClass::LeftDown, 90 * MS), Some(30));
    assert_eq!(service::status(Some(&svc)), status_of(true, 40, 2));
}

#[test]
fn stop_while_not_running_is_rejected() {
    let mut svc: MouseFilterService<DebounceHook, ()> = MouseFilterService::new();
    service::update_threshold(&mut svc, 70).unwrap();
    let before = service::status(Some(&svc));
    assert_eq!(service::stop(&mut svc, ()), Err(FilterError::NotRunning));
    assert_eq!(service::status(Some(&svc)), before);
}

#[test]
fn unsupported_hook_refuses_everything() {
    assert_eq!(
        <UnsupportedHook as HookControl<()>>::new(()).err(),
        Some(FilterError::Unsupported)
    );
    let mut h = UnsupportedHook;
    assert_eq!(HookControl::<()>::start(&mut h, 100), Err(FilterError::Unsupported));
    assert_eq!(HookControl::<()>::stop(&mut h), Err(FilterError::Unsupported));
    assert_eq!(HookControl::<()>::set_threshold(&mut h, 5), Err(FilterError::Unsupported));
    assert_eq!(HookControl::<()>::blocked_clicks(&h), 0);
    assert_eq!(HookControl::<()>::deliver(&mut h, EventClass::LeftDown, 0), None);
}

#[test]
fn debounce_hook_rejects_second_start() {
    let mut h = DebounceHook::create();
    assert!(!h.is_installed());
    assert_eq!(HookControl::<()>::start(&mut h, 100), Ok(()));
    assert!(h.is_installed());
    assert_eq!(HookControl::<()>::start(&mut h, 200), Err(FilterError::AlreadyRunning));
    assert_eq!(HookControl::<()>::stop(&mut h), Ok(()));
    assert!(!h.is_installed());
}

#[test]
fn debounce_hook_filters_only_while_installed() {
    let mut h = DebounceHook::create();
    assert_eq!(h.on_event(EventClass::LeftDown, 0), None);
    assert_eq!(h.on_event(EventClass::LeftDown, MS), None);
    HookControl::<()>::start(&mut h, 100).unwrap();
    assert_eq!(h.on_event(EventClass::LeftDown, 2 * MS), None);
    assert_eq!(h.on_event(EventClass::LeftDown, 3 * MS), Some(1));
    assert_eq!(HookControl::<()>::blocked_clicks(&h), 1);
}

#[test]
fn default_service_matches_new() {
    let svc: MouseFilterService<UnsupportedHook, ()> = Default::default();
    assert_eq!(svc.snapshot(), status_of(false, 100, 0));
    assert!(svc.target().is_none());
}

#[test]
fn start_binds_the_target() {
    let mut svc: MouseFilterService<DebounceHook, u8> = MouseFilterService::new();
    service::start(&mut svc, 7, 100).unwrap();
    assert_eq!(svc.target(), Some(&7));
}

#[test]
fn debounce_hook_keeps_reference_across_reconfiguration() {
    let mut h = <DebounceHook as HookControl<()>>::new(()).unwrap();
    assert_eq!(HookControl::<()>::blocked_clicks(&h), 0);
    assert_eq!(HookControl::<()>::set_threshold(&mut h, 300), Ok(()));
    assert!(!h.is_installed());
    HookControl::<()>::start(&mut h, 50).unwrap();
    assert_eq!(HookControl::<()>::deliver(&mut h, EventClass::LeftDown, 0), None);
    assert_eq!(HookControl::<()>::set_threshold(&mut h, 200), Ok(()));
    assert_eq!(HookControl::<()>::deliver(&mut h, EventClass::LeftDown, 150 * MS), Some(150));
    assert_eq!(HookControl::<()>::stop(&mut h), Ok(()));
    assert_eq!(HookControl::<()>::deliver(&mut h, EventClass::LeftDown, 160 * MS), None);
    assert_eq!(HookControl::<()>::blocked_clicks(&h), 1);
}
