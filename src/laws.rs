use vstd::prelude::*;
use crate::clock::TimeOfDay;
use crate::cycle::{Call, Cycle, Event, Stage};
use crate::messages::{
    flush_failed_msg, flush_status_msg, missing_msg, offline_msg, reboot_failed_msg, restart_code_msg,
};

verus! {

/// While the clock reads a time before the restart hour, the cycle keeps
/// waiting: no answer other than a time at or after the hour lets it leave
/// the wait, and a time before the hour in the second phase is answered by a
/// sleep of the polling interval.
pub proof fn lemma_gate_holds_before_target(c: Cycle, e: Event)
    requires
        c.wf(),
        Cycle::is_gate(c.stage),
        !(e matches Event::Time(now) && !now.before(c.target())),
    ensures
        Cycle::is_gate(c.next(e).0),
        c.stage == Stage::TooEarly ==> c.next(e).0 == Stage::TooEarlySleep
            || c.next(e).0 == Stage::TooEarly,
        (c.stage == Stage::TooEarly && e is Time) ==> c.next(e) == (
            Stage::TooEarlySleep,
            Call::Sleep(c.config.check_time_sleep_sec),
        ),
{
}

/// Once the clock reads exactly the restart hour, the wait ends: at once in
/// the second phase, and after one more look at the clock in the first.
pub proof fn lemma_gate_opens_at_target(c: Cycle)
    requires
        c.wf(),
        c.stage == Stage::TooLate || c.stage == Stage::TooEarly,
    ensures
        c.stage == Stage::TooEarly ==> c.next(Event::Time(c.target())) == (
            Stage::Probe,
            Call::ProbeOnline,
        ),
        c.stage == Stage::TooLate ==> c.next(Event::Time(c.target())) == (
            Stage::TooEarly,
            Call::SampleTime,
        ) && c.after(Event::Time(c.target())).next(Event::Time(c.target())) == (
            Stage::Probe,
            Call::ProbeOnline,
        ),
{
}

/// A service that does not exist is reported once and skipped: after the
/// report the cycle goes on with the next service, and no restart is asked for.
pub proof fn lemma_missing_service_skipped(c: Cycle, i: usize)
    requires
        c.wf(),
        c.stage == Stage::Exists(i),
    ensures
        ({
            let (end, calls) = c.run(seq![Event::Exists(false), Event::Done]);
            &&& calls == seq![
                Call::Report(missing_msg(c.name(i as int))),
                c.service_from((i + 1) as nat).1,
            ]
            &&& end.stage == c.service_from((i + 1) as nat).0
        }),
{
    reveal_with_fuel(Cycle::run, 3);
    let es = seq![Event::Exists(false), Event::Done];
    assert(es.drop_first() =~= seq![Event::Done]);
    assert(es.drop_first().drop_first() =~= seq![]);
    let (end, calls) = c.run(es);
    assert(calls =~= seq![
        Call::Report(missing_msg(c.name(i as int))),
        c.service_from((i + 1) as nat).1,
    ]);
}

/// A service that exists but is neither active nor started at boot is left
/// alone: no report and no restart, the cycle goes on with the next service.
pub proof fn lemma_stopped_service_left_alone(c: Cycle, i: usize)
    requires
        c.wf(),
        c.stage == Stage::Exists(i),
    ensures
        ({
            let (end, calls) = c.run(
                seq![Event::Exists(true), Event::Unit { active: false, auto_start_enabled: false }],
            );
            &&& calls == seq![
                Call::QueryUnit(c.name(i as int)),
                c.service_from((i + 1) as nat).1,
            ]
            &&& end.stage == c.service_from((i + 1) as nat).0
        }),
{
    reveal_with_fuel(Cycle::run, 3);
    let es = seq![Event::Exists(true), Event::Unit { active: false, auto_start_enabled: false }];
    assert(es.drop_first() =~= seq![Event::Unit { active: false, auto_start_enabled: false }]);
    assert(es.drop_first().drop_first() =~= seq![]);
    let (end, calls) = c.run(es);
    assert(calls =~= seq![
        Call::QueryUnit(c.name(i as int)),
        c.service_from((i + 1) as nat).1,
    ]);
}

/// An active service whose restart succeeds is restarted once, then the
/// cycle sleeps the cool-down interval, with no report, before the next service.
pub proof fn lemma_restarted_service_cools_down(c: Cycle, i: usize, auto_start_enabled: bool)
    requires
        c.wf(),
        c.stage == Stage::Exists(i),
    ensures
        ({
            let es = seq![
                Event::Exists(true),
                Event::Unit { active: true, auto_start_enabled },
                Event::Status(Some(0i32)),
                Event::Done,
            ];
            let (end, calls) = c.run(es);
            &&& calls == seq![
                Call::QueryUnit(c.name(i as int)),
                Call::Restart(c.name(i as int)),
                Call::Sleep(c.config.service_restarted_sleep_sec),
                c.service_from((i + 1) as nat).1,
            ]
            &&& end.stage == c.service_from((i + 1) as nat).0
        }),
{
    reveal_with_fuel(Cycle::run, 5);
    let es = seq![
        Event::Exists(true),
        Event::Unit { active: true, auto_start_enabled },
        Event::Status(Some(0i32)),
        Event::Done,
    ];
    let e1 = es.drop_first();
    let e2 = e1.drop_first();
    let e3 = e2.drop_first();
    assert(e1 =~= seq![
        Event::Unit { active: true, auto_start_enabled },
        Event::Status(Some(0i32)),
        Event::Done,
    ]);
    assert(e2 =~= seq![Event::Status(Some(0i32)), Event::Done]);
    assert(e3 =~= seq![Event::Done]);
    assert(e3.drop_first() =~= seq![]);
    let (end, calls) = c.run(es);
    assert(calls =~= seq![
        Call::QueryUnit(c.name(i as int)),
        Call::Restart(c.name(i as int)),
        Call::Sleep(c.config.service_restarted_sleep_sec),
        c.service_from((i + 1) as nat).1,
    ]);
}

/// A restart that ends with a non-zero return code is reported once, with
/// that code, and the cycle goes on with the next service without cooling down.
pub proof fn lemma_failed_restart_reported(c: Cycle, i: usize, code: i32)
    requires
        c.wf(),
        c.stage == Stage::Restart(i),
        code != 0,
    ensures
        ({
            let (end, calls) = c.run(seq![Event::Status(Some(code)), Event::Done]);
            &&& calls == seq![
                Call::Report(restart_code_msg(c.name(i as int), code as int)),
                c.service_from((i + 1) as nat).1,
            ]
            &&& end.stage == c.service_from((i + 1) as nat).0
        }),
{
    reveal_with_fuel(Cycle::run, 3);
    let es = seq![Event::Status(Some(code)), Event::Done];
    assert(es.drop_first() =~= seq![Event::Done]);
    assert(es.drop_first().drop_first() =~= seq![]);
    let (end, calls) = c.run(es);
    assert(calls =~= seq![
        Call::Report(restart_code_msg(c.name(i as int), code as int)),
        c.service_from((i + 1) as nat).1,
    ]);
}

proof fn lemma_run_append(c: Cycle, a: Seq<Event>, b: Seq<Event>)
    ensures
        c.run(a + b).0 == c.run(a).0.run(b).0,
        c.run(a + b).1 == c.run(a).1 + c.run(a).0.run(b).1,
    decreases a.len(),
{
    if a.len() == 0 {
        assert(a + b =~= b);
    } else {
        assert((a + b).drop_first() =~= a.drop_first() + b);
        assert((a + b)[0] == a[0]);
        lemma_run_append(c.after(a[0]), a.drop_first(), b);
        let x = c.next(a[0]).1;
        let p = c.after(a[0]).run(a.drop_first()).1;
        let q = c.run(a).0.run(b).1;
        assert(seq![x] + (p + q) =~= (seq![x] + p) + q);
    }
}

/// The answers to a flush answered with `f`: a failed flush is reported,
/// and that report is answered too.
pub open spec fn flush_answers(f: Event) -> Seq<Event> {
    if f == Event::Status(Some(0i32)) {
        seq![f]
    } else {
        seq![f, Event::Done]
    }
}

/// The reports that a flush answered with `f` leads to.
pub open spec fn flush_reports(f: Event) -> Seq<Call> {
    match f {
        Event::Status(code) => if code == Some(0i32) {
            seq![]
        } else {
            seq![Call::Report(flush_status_msg())]
        },
        Event::Failed(err) => seq![Call::Report(flush_failed_msg(err@))],
        _ => seq![],
    }
}

/// The answers to a reboot request answered with `r`: a failed request is
/// reported, and that report is answered too.
pub open spec fn reboot_answers(r: Event) -> Seq<Event> {
    if r is Failed {
        seq![r, Event::Done]
    } else {
        seq![r]
    }
}

/// The reports that a reboot request answered with `r` leads to.
pub open spec fn reboot_reports(r: Event) -> Seq<Call> {
    match r {
        Event::Failed(err) => seq![Call::Report(reboot_failed_msg(err@))],
        _ => seq![],
    }
}

/// When the network is gone, the cycle reports it, flushes the file
/// systems, and asks for a reboot exactly once, whatever the flush and the
/// reboot request answer; the only other effects are reports of their
/// failures, and the cycle then goes on with the services.
pub proof fn lemma_offline_reboots_once(c: Cycle, flush: Event, reboot: Event)
    requires
        c.wf(),
        c.stage == Stage::Probe,
        flush is Status || flush is Failed,
    ensures
        ({
            let es = seq![Event::Online(false), Event::Done] + flush_answers(flush)
                + reboot_answers(reboot);
            let (end, calls) = c.run(es);
            &&& calls == seq![Call::Report(offline_msg()), Call::Flush] + flush_reports(flush)
                + seq![Call::Reboot] + reboot_reports(reboot) + seq![c.service_from(0).1]
            &&& end.stage == c.service_from(0).0
        }),
{
    let s1 = seq![Event::Online(false), Event::Done];
    let s2 = flush_answers(flush);
    let s3 = reboot_answers(reboot);
    reveal_with_fuel(Cycle::run, 3);
    assert(s1.drop_first() =~= seq![Event::Done]);
    assert(s1.drop_first().drop_first() =~= seq![]);
    let c1 = c.run(s1).0;
    assert(c1 == c.with_stage(Stage::Flushing));
    assert(c.run(s1).1 =~= seq![Call::Report(offline_msg()), Call::Flush]);
    if s2.len() == 2 {
        assert(s2.drop_first() =~= seq![Event::Done]);
        assert(s2.drop_first().drop_first() =~= seq![]);
    } else {
        assert(s2.drop_first() =~= seq![]);
    }
    let c2 = c1.run(s2).0;
    assert(c2 == c.with_stage(Stage::Rebooting));
    assert(c1.run(s2).1 =~= flush_reports(flush) + seq![Call::Reboot]);
    if s3.len() == 2 {
        assert(s3.drop_first() =~= seq![Event::Done]);
        assert(s3.drop_first().drop_first() =~= seq![]);
    } else {
        assert(s3.drop_first() =~= seq![]);
    }
    assert(c2.run(s3).0 == c.with_stage(c.service_from(0).0));
    assert(c2.run(s3).1 =~= reboot_reports(reboot) + seq![c.service_from(0).1]);
    lemma_run_append(c, s1, s2);
    lemma_run_append(c, s1 + s2, s3);
    assert(c.run(s1 + s2 + s3).1 =~= seq![Call::Report(offline_msg()), Call::Flush]
        + flush_reports(flush) + seq![Call::Reboot] + reboot_reports(reboot) + seq![
        c.service_from(0).1,
    ]);
}

} // verus!
