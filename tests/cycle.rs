use service_restarter::clock::TimeOfDay;
use service_restarter::cycle::{Action, Config, ConfigError, Cycle, Event, Stage};

fn config(hour: u8, services: &[&str]) -> Config {
    Config {
        error_folder: "/var/log/restarter".to_string(),
        restart_at: hour,
        check_time_sleep_sec: 3600,
        service_restarted_sleep_sec: 30,
        services: services.iter().map(|s| s.to_string()).collect(),
    }
}

fn at(h: u32, m: u32, s: u32, nanos: u32) -> TimeOfDay {
    TimeOfDay { secs: h * 3600 + m * 60 + s, nanos }
}

fn report_of(a: &Action) -> Option<String> {
    match a {
        Action::Report(m) => Some(m.clone()),
        _ => None,
    }
}

/// Starts a cycle and brings it to the network probe at the restart hour.
fn at_probe(hour: u8, services: &[&str]) -> Cycle {
    let (mut c, a) = Cycle::start(config(hour, services)).unwrap();
    assert!(matches!(a, Action::SampleTime));
    let target = at(hour as u32, 0, 0, 0);
    assert!(matches!(c.step(Event::Time(target)), Action::SampleTime));
    assert!(matches!(c.step(Event::Time(target)), Action::ProbeOnline));
    c
}

#[test]
fn hour_24_is_refused() {
    let r = Cycle::start(config(24, &["a.service"]));
    match r {
        Err(e) => {
            assert_eq!(e, ConfigError::RestartHourOutOfRange(24));
            assert_eq!(e.message(), "restart_at cannot be >= 24 (restart_at=24)");
        }
        Ok(_) => panic!("hour 24 accepted"),
    }
    assert!(Cycle::start(config(255, &[])).is_err());
}

#[test]
fn every_hour_of_the_day_is_accepted() {
    for h in 0..24u8 {
        let (c, a) = Cycle::start(config(h, &[])).unwrap();
        assert_eq!(c.stage, Stage::TooLate);
        assert!(matches!(a, Action::SampleTime));
    }
}

#[test]
fn gate_waits_for_tomorrow_when_started_late() {
    let (mut c, _) = Cycle::start(config(4, &[])).unwrap();
    assert!(matches!(c.step(Event::Time(at(5, 0, 0, 0))), Action::Sleep(3600)));
    assert!(matches!(c.step(Event::Done), Action::SampleTime));
    assert!(matches!(c.step(Event::Time(at(23, 59, 0, 0))), Action::Sleep(3600)));
    assert!(matches!(c.step(Event::Done), Action::SampleTime));
    // past midnight: the first phase ends, the second looks again
    assert!(matches!(c.step(Event::Time(at(0, 30, 0, 0))), Action::SampleTime));
    assert!(matches!(c.step(Event::Time(at(0, 30, 0, 1))), Action::Sleep(3600)));
    assert!(matches!(c.step(Event::Done), Action::SampleTime));
    assert!(matches!(c.step(Event::Time(at(3, 59, 59, 999_999_999))), Action::Sleep(3600)));
    assert!(matches!(c.step(Event::Done), Action::SampleTime));
    assert!(matches!(c.step(Event::Time(at(4, 0, 0, 0))), Action::ProbeOnline));
}

#[test]
fn gate_opens_exactly_at_the_hour() {
    for h in 0..24u32 {
        let (mut c, _) = Cycle::start(config(h as u8, &[])).unwrap();
        assert!(matches!(c.step(Event::Time(at(h, 0, 0, 0))), Action::SampleTime));
        assert!(matches!(c.step(Event::Time(at(h, 0, 0, 0))), Action::ProbeOnline));
    }
}

#[test]
fn gate_never_opens_before_the_hour() {
    let (mut c, _) = Cycle::start(config(10, &[])).unwrap();
    assert!(matches!(c.step(Event::Time(at(9, 0, 0, 0))), Action::SampleTime));
    for m in 0..60u32 {
        assert!(matches!(c.step(Event::Time(at(9, m, 59, 0))), Action::Sleep(3600)));
        assert!(matches!(c.step(Event::Done), Action::SampleTime));
    }
    assert_eq!(c.stage, Stage::TooEarly);
    assert!(matches!(c.step(Event::Online(true)), Action::SampleTime));
    // a look just past the hour still ends the wait
    assert!(matches!(c.step(Event::Time(at(10, 0, 5, 0))), Action::ProbeOnline));
}

#[test]
fn missing_service_is_reported_and_skipped() {
    let mut c = at_probe(4, &["gone.service"]);
    assert!(matches!(c.step(Event::Online(true)), Action::CheckExists(ref n) if n == "gone.service"));
    let a = c.step(Event::Exists(false));
    assert_eq!(report_of(&a).unwrap(), "service `gone.service` doesn't exist");
    let a = c.step(Event::Done);
    assert_eq!(report_of(&a).unwrap(), "unreachable: service restarter should have restarted itself");
    assert!(matches!(c.step(Event::Done), Action::Exit));
}

#[test]
fn stopped_service_is_left_alone() {
    let mut c = at_probe(4, &["idle.service", "next.service"]);
    assert!(matches!(c.step(Event::Online(true)), Action::CheckExists(_)));
    assert!(matches!(c.step(Event::Exists(true)), Action::QueryUnit(ref n) if n == "idle.service"));
    let a = c.step(Event::Unit { active: false, auto_start_enabled: false });
    assert!(matches!(a, Action::CheckExists(ref n) if n == "next.service"));
}

#[test]
fn inactive_service_started_at_boot_is_restarted() {
    let mut c = at_probe(4, &["boot.service"]);
    assert!(matches!(c.step(Event::Online(true)), Action::CheckExists(_)));
    assert!(matches!(c.step(Event::Exists(true)), Action::QueryUnit(_)));
    let a = c.step(Event::Unit { active: false, auto_start_enabled: true });
    assert!(matches!(a, Action::Restart(ref n) if n == "boot.service"));
}

#[test]
fn successful_restart_cools_down() {
    let mut c = at_probe(4, &["web.service"]);
    assert!(matches!(c.step(Event::Online(true)), Action::CheckExists(_)));
    assert!(matches!(c.step(Event::Exists(true)), Action::QueryUnit(_)));
    let a = c.step(Event::Unit { active: true, auto_start_enabled: false });
    assert!(matches!(a, Action::Restart(ref n) if n == "web.service"));
    assert!(matches!(c.step(Event::Status(Some(0))), Action::Sleep(30)));
    let a = c.step(Event::Done);
    assert!(report_of(&a).unwrap().starts_with("unreachable"));
}

#[test]
fn failed_restart_reports_the_code() {
    let mut c = at_probe(4, &["db.service", "web.service"]);
    assert!(matches!(c.step(Event::Online(true)), Action::CheckExists(_)));
    assert!(matches!(c.step(Event::Exists(true)), Action::QueryUnit(_)));
    assert!(matches!(c.step(Event::Unit { active: true, auto_start_enabled: true }), Action::Restart(_)));
    let a = c.step(Event::Status(Some(5)));
    assert_eq!(report_of(&a).unwrap(), "could not restart service `db.service` -> return code 5");
    // no cool-down: straight on to the next service
    assert!(matches!(c.step(Event::Done), Action::CheckExists(ref n) if n == "web.service"));
}

#[test]
fn negative_code_and_missing_code_are_reported() {
    let mut c = at_probe(4, &["x.service", "y.service"]);
    c.step(Event::Online(true));
    c.step(Event::Exists(true));
    c.step(Event::Unit { active: true, auto_start_enabled: false });
    let a = c.step(Event::Status(Some(-2147483648)));
    assert_eq!(
        report_of(&a).unwrap(),
        "could not restart service `x.service` -> return code -2147483648"
    );
    c.step(Event::Done);
    c.step(Event::Exists(true));
    c.step(Event::Unit { active: true, auto_start_enabled: false });
    let a = c.step(Event::Status(None));
    assert_eq!(report_of(&a).unwrap(), "could not restart service `y.service` -> no return code");
}

#[test]
fn failed_lookups_are_reported_and_skipped() {
    let mut c = at_probe(4, &["a.service", "b.service", "c.service"]);
    c.step(Event::Online(true));
    let a = c.step(Event::Failed("bus down".to_string()));
    assert_eq!(report_of(&a).unwrap(), "could not inspect service `a.service`: bus down");
    assert!(matches!(c.step(Event::Done), Action::CheckExists(ref n) if n == "b.service"));
    c.step(Event::Exists(true));
    let a = c.step(Event::Failed("timeout".to_string()));
    assert_eq!(report_of(&a).unwrap(), "could not inspect service `b.service`: timeout");
    assert!(matches!(c.step(Event::Done), Action::CheckExists(ref n) if n == "c.service"));
    c.step(Event::Exists(true));
    c.step(Event::Unit { active: true, auto_start_enabled: false });
    let a = c.step(Event::Failed("no such command".to_string()));
    assert_eq!(report_of(&a).unwrap(), "could not restart service `c.service`: no such command");
}

#[test]
fn offline_host_reboots_once_then_restarts_services() {
    let mut c = at_probe(4, &["a.service"]);
    let a = c.step(Event::Online(false));
    assert_eq!(report_of(&a).unwrap(), "no internet; restarting whole server");
    assert!(matches!(c.step(Event::Done), Action::Flush));
    assert!(matches!(c.step(Event::Status(Some(0))), Action::Reboot));
    assert!(matches!(c.step(Event::Done), Action::CheckExists(ref n) if n == "a.service"));
}

#[test]
fn offline_host_with_failing_flush_and_reboot_still_restarts_services() {
    let mut c = at_probe(4, &["a.service"]);
    c.step(Event::Online(false));
    assert!(matches!(c.step(Event::Done), Action::Flush));
    let a = c.step(Event::Status(Some(1)));
    assert_eq!(report_of(&a).unwrap(), "able to call `sync`; bad return code");
    assert!(matches!(c.step(Event::Done), Action::Reboot));
    let a = c.step(Event::Failed("permission denied".to_string()));
    assert_eq!(report_of(&a).unwrap(), "could not restart server: permission denied");
    assert!(matches!(c.step(Event::Done), Action::CheckExists(ref n) if n == "a.service"));
}

#[test]
fn flush_that_cannot_start_is_reported() {
    let mut c = at_probe(4, &[]);
    c.step(Event::Online(false));
    c.step(Event::Done);
    let a = c.step(Event::Failed("not found".to_string()));
    assert_eq!(report_of(&a).unwrap(), "could not call `sync`: not found");
    assert!(matches!(c.step(Event::Done), Action::Reboot));
    let a = c.step(Event::Done);
    assert!(report_of(&a).unwrap().starts_with("unreachable"));
}

#[test]
fn end_to_end_missing_then_restarted() {
    let mut c = at_probe(4, &["a.service", "b.service"]);
    let mut calls: Vec<String> = Vec::new();
    let mut reports = 0;
    let answers = vec![
        Event::Online(true),
        Event::Exists(false),
        Event::Done,
        Event::Exists(true),
        Event::Unit { active: true, auto_start_enabled: false },
        Event::Status(Some(0)),
    ];
    for e in answers {
        let a = c.step(e);
        match a {
            Action::CheckExists(n) => calls.push(format!("check-exists({n})")),
            Action::QueryUnit(n) => calls.push(format!("query({n})")),
            Action::Restart(n) => calls.push(format!("restart({n})")),
            Action::Sleep(s) => calls.push(format!("sleep({s})")),
            Action::Report(_) => {
                reports += 1;
                calls.push("report".to_string());
            }
            other => panic!("unexpected {other:?}"),
        }
    }
    assert_eq!(
        calls,
        vec![
            "check-exists(a.service)",
            "report",
            "check-exists(b.service)",
            "query(b.service)",
            "restart(b.service)",
            "sleep(30)",
        ]
    );
    assert_eq!(reports, 1);
    let a = c.step(Event::Done);
    assert!(report_of(&a).unwrap().starts_with("unreachable"));
    assert!(matches!(c.step(Event::Done), Action::Exit));
    assert!(matches!(c.step(Event::Done), Action::Exit));
}

#[test]
fn empty_service_list_ends_the_cycle() {
    let mut c = at_probe(0, &[]);
    let a = c.step(Event::Online(true));
    assert_eq!(report_of(&a).unwrap(), "unreachable: service restarter should have restarted itself");
    assert!(matches!(c.step(Event::Done), Action::Exit));
}

#[test]
fn duplicate_services_are_each_restarted() {
    let mut c = at_probe(4, &["a.service", "a.service"]);
    c.step(Event::Online(true));
    c.step(Event::Exists(true));
    c.step(Event::Unit { active: true, auto_start_enabled: false });
    c.step(Event::Status(Some(0)));
    assert!(matches!(c.step(Event::Done), Action::CheckExists(ref n) if n == "a.service"));
    assert_eq!(c.stage, Stage::Exists(1));
}
