use vstd::prelude::*;
use vstd::string::*;
use crate::clock::TimeOfDay;
use crate::digits::{append_int, int_digits};
use crate::messages::{
    end, end_msg, flush_failed, flush_failed_msg, flush_status, flush_status_msg, inspect_failed,
    inspect_failed_msg, missing, missing_msg, offline, offline_msg, reboot_failed,
    reboot_failed_msg, restart_code, restart_code_msg, restart_failed, restart_failed_msg,
    restart_no_code, restart_no_code_msg,
};

verus! {

/// What one run of the restarter is told to do, fixed for the whole run.
#[derive(Clone, Debug)]
pub struct Config {
    /// Directory that receives one file per reported error.
    pub error_folder: String,
    /// Hour of the day (0 to 23) at which the restarts happen.
    pub restart_at: u8,
    /// Seconds to sleep between two looks at the clock.
    pub check_time_sleep_sec: u64,
    /// Seconds to sleep after a service has been restarted.
    pub service_restarted_sleep_sec: u64,
    /// Services to restart, in this order; may be empty or repeat a name.
    pub services: Vec<String>,
}

/// Why a configuration was refused.
#[derive(Clone, Copy, Debug, PartialEq, Eq, Structural)]
pub enum ConfigError {
    /// The restart hour is not an hour of the day.
    RestartHourOutOfRange(u8),
}

pub open spec fn config_error_msg(e: ConfigError) -> Seq<char> {
    match e {
        ConfigError::RestartHourOutOfRange(h) => "restart_at cannot be >= 24 (restart_at="@
            + int_digits(h as int) + ")"@,
    }
}

impl ConfigError {
    /// A line that explains the error.
    pub fn message(&self) -> (r: String)
        ensures
            r@ == config_error_msg(*self),
    {
        match self {
            ConfigError::RestartHourOutOfRange(h) => {
                let mut r = String::from_str("restart_at cannot be >= 24 (restart_at=");
                append_int(&mut r, *h as i32);
                r.append(")");
                r
            },
        }
    }
}

/// Where a cycle stands: each stage waits for the answer to one effect.
#[derive(Clone, Copy, Debug, PartialEq, Eq, Structural)]
pub enum Stage {
    /// Waiting for a look at the clock while it may still be past the hour.
    TooLate,
    /// Sleeping because the hour had already passed.
    TooLateSleep,
    /// Waiting for a look at the clock while it may be before the hour.
    TooEarly,
    /// Sleeping because the hour had not come yet.
    TooEarlySleep,
    /// Waiting for the network probe.
    Probe,
    /// Reporting that the network is gone.
    OfflineReported,
    /// Waiting for the file system flush.
    Flushing,
    /// Reporting a failed flush.
    FlushReported,
    /// Waiting for the reboot request.
    Rebooting,
    /// Reporting a failed reboot request.
    RebootReported,
    /// Waiting to learn whether service `i` exists.
    Exists(usize),
    /// Waiting for the state of service `i`.
    Query(usize),
    /// Waiting for the restart of service `i`.
    Restart(usize),
    /// Reporting an error about service `i`.
    ServiceReported(usize),
    /// Cooling down after service `i` was restarted.
    CoolDown(usize),
    /// Reporting that the cycle ran to its end.
    EndReported,
    /// Nothing is left but to exit with failure.
    Finished,
}

/// What the driver learned from the effect it performed.
#[derive(Clone, Debug)]
pub enum Event {
    /// The local time of day.
    Time(TimeOfDay),
    /// The effect completed (a sleep, a report, a reboot request).
    Done,
    /// Whether the network can be reached.
    Online(bool),
    /// The exit status of a command: its return code, if it had one.
    Status(Option<i32>),
    /// The effect could not be performed; the text says why.
    Failed(String),
    /// Whether the host knows the service.
    Exists(bool),
    /// The state of the service.
    Unit { active: bool, auto_start_enabled: bool },
}

/// The effect that the driver is to perform next.
#[derive(Clone, Debug)]
pub enum Action {
    /// Read the local time of day; answer with `Event::Time`.
    SampleTime,
    /// Sleep this many seconds; answer with `Event::Done`.
    Sleep(u64),
    /// Probe the network; answer with `Event::Online`.
    ProbeOnline,
    /// Record this error message; answer with `Event::Done`.
    Report(String),
    /// Flush file system buffers; answer with `Event::Status` or `Event::Failed`.
    Flush,
    /// Ask the host to reboot; answer with `Event::Done` or `Event::Failed`.
    Reboot,
    /// Ask whether the service exists; answer with `Event::Exists` or `Event::Failed`.
    CheckExists(String),
    /// Ask for the state of the service; answer with `Event::Unit` or `Event::Failed`.
    QueryUnit(String),
    /// Restart the service; answer with `Event::Status` or `Event::Failed`.
    Restart(String),
    /// Exit the process with a failure status.
    Exit,
}

/// An effect as the contracts see it.
pub enum Call {
    SampleTime,
    Sleep(u64),
    ProbeOnline,
    Report(Seq<char>),
    Flush,
    Reboot,
    CheckExists(Seq<char>),
    QueryUnit(Seq<char>),
    Restart(Seq<char>),
    Exit,
}

impl View for Action {
    type V = Call;

    open spec fn view(&self) -> Call {
        match self {
            Action::SampleTime => Call::SampleTime,
            Action::Sleep(n) => Call::Sleep(*n),
            Action::ProbeOnline => Call::ProbeOnline,
            Action::Report(m) => Call::Report(m@),
            Action::Flush => Call::Flush,
            Action::Reboot => Call::Reboot,
            Action::CheckExists(s) => Call::CheckExists(s@),
            Action::QueryUnit(s) => Call::QueryUnit(s@),
            Action::Restart(s) => Call::Restart(s@),
            Action::Exit => Call::Exit,
        }
    }
}

/// One run of the restarter: its configuration and the stage it has reached.
pub struct Cycle {
    pub config: Config,
    pub stage: Stage,
}

impl Cycle {
    /// Name of the `i`-th configured service.
    pub open spec fn name(self, i: int) -> Seq<char> {
        self.config.services@[i]@
    }

    pub open spec fn target(self) -> TimeOfDay {
        TimeOfDay::spec_at_hour(self.config.restart_at as nat)
    }

    pub open spec fn with_stage(self, stage: Stage) -> Cycle {
        Cycle { config: self.config, stage }
    }

    pub open spec fn stage_wf(stage: Stage, n: nat) -> bool {
        match stage {
            Stage::Exists(i) => i < n,
            Stage::Query(i) => i < n,
            Stage::Restart(i) => i < n,
            Stage::ServiceReported(i) => i < n,
            Stage::CoolDown(i) => i < n,
            _ => true,
        }
    }

    pub open spec fn wf(self) -> bool {
        &&& self.config.restart_at < 24
        &&& Self::stage_wf(self.stage, self.config.services.len() as nat)
    }

    /// Whether the cycle is still waiting for the restart hour.
    pub open spec fn is_gate(stage: Stage) -> bool {
        ||| stage == Stage::TooLate
        ||| stage == Stage::TooLateSleep
        ||| stage == Stage::TooEarly
        ||| stage == Stage::TooEarlySleep
    }

    /// Moving on to service `i`: ask whether it exists, or, past the last
    /// service, report that the cycle has ended.
    pub open spec fn service_from(self, i: nat) -> (Stage, Call) {
        if i < self.config.services.len() {
            (Stage::Exists(i as usize), Call::CheckExists(self.name(i as int)))
        } else {
            (Stage::EndReported, Call::Report(end_msg()))
        }
    }

    /// The stage that follows the answer `e`, and the effect asked for next.
    /// An answer that does not fit a stage's question leaves the stage as
    /// it is and asks the question again.
    pub open spec fn next(self, e: Event) -> (Stage, Call) {
        let poll = self.config.check_time_sleep_sec;
        match self.stage {
            Stage::TooLate => match e {
                Event::Time(now) => if self.target().before(now) {
                    (Stage::TooLateSleep, Call::Sleep(poll))
                } else {
                    (Stage::TooEarly, Call::SampleTime)
                },
                _ => (Stage::TooLate, Call::SampleTime),
            },
            Stage::TooLateSleep => (Stage::TooLate, Call::SampleTime),
            Stage::TooEarly => match e {
                Event::Time(now) => if now.before(self.target()) {
                    (Stage::TooEarlySleep, Call::Sleep(poll))
                } else {
                    (Stage::Probe, Call::ProbeOnline)
                },
                _ => (Stage::TooEarly, Call::SampleTime),
            },
            Stage::TooEarlySleep => (Stage::TooEarly, Call::SampleTime),
            Stage::Probe => match e {
                Event::Online(up) => if up {
                    self.service_from(0)
                } else {
                    (Stage::OfflineReported, Call::Report(offline_msg()))
                },
                _ => (Stage::Probe, Call::ProbeOnline),
            },
            Stage::OfflineReported => (Stage::Flushing, Call::Flush),
            Stage::Flushing => match e {
                Event::Status(code) => if code == Some(0i32) {
                    (Stage::Rebooting, Call::Reboot)
                } else {
                    (Stage::FlushReported, Call::Report(flush_status_msg()))
                },
                Event::Failed(err) => (Stage::FlushReported, Call::Report(flush_failed_msg(err@))),
                _ => (Stage::Flushing, Call::Flush),
            },
            Stage::FlushReported => (Stage::Rebooting, Call::Reboot),
            Stage::Rebooting => match e {
                Event::Failed(err) => (
                    Stage::RebootReported,
                    Call::Report(reboot_failed_msg(err@)),
                ),
                _ => self.service_from(0),
            },
            Stage::RebootReported => self.service_from(0),
            Stage::Exists(i) => {
                let name = self.name(i as int);
                match e {
                    Event::Exists(known) => if known {
                        (Stage::Query(i), Call::QueryUnit(name))
                    } else {
                        (Stage::ServiceReported(i), Call::Report(missing_msg(name)))
                    },
                    Event::Failed(err) => (
                        Stage::ServiceReported(i),
                        Call::Report(inspect_failed_msg(name, err@)),
                    ),
                    _ => (Stage::Exists(i), Call::CheckExists(name)),
                }
            },
            Stage::Query(i) => {
                let name = self.name(i as int);
                match e {
                    Event::Unit { active, auto_start_enabled } => if active || auto_start_enabled {
                        (Stage::Restart(i), Call::Restart(name))
                    } else {
                        self.service_from((i + 1) as nat)
                    },
                    Event::Failed(err) => (
                        Stage::ServiceReported(i),
                        Call::Report(inspect_failed_msg(name, err@)),
                    ),
                    _ => (Stage::Query(i), Call::QueryUnit(name)),
                }
            },
            Stage::Restart(i) => {
                let name = self.name(i as int);
                match e {
                    Event::Status(code) => match code {
                        Some(c) => if c == 0 {
                            (Stage::CoolDown(i), Call::Sleep(self.config.service_restarted_sleep_sec))
                        } else {
                            (Stage::ServiceReported(i), Call::Report(restart_code_msg(name, c as int)))
                        },
                        None => (Stage::ServiceReported(i), Call::Report(restart_no_code_msg(name))),
                    },
                    Event::Failed(err) => (
                        Stage::ServiceReported(i),
                        Call::Report(restart_failed_msg(name, err@)),
                    ),
                    _ => (Stage::Restart(i), Call::Restart(name)),
                }
            },
            Stage::ServiceReported(i) => self.service_from((i + 1) as nat),
            Stage::CoolDown(i) => self.service_from((i + 1) as nat),
            Stage::EndReported => (Stage::Finished, Call::Exit),
            Stage::Finished => (Stage::Finished, Call::Exit),
        }
    }

    /// The cycle after answering `e`.
    pub open spec fn after(self, e: Event) -> Cycle {
        self.with_stage(self.next(e).0)
    }

    /// The effects asked for while answering the events `es` in turn, and
    /// the cycle reached.
    pub open spec fn run(self, es: Seq<Event>) -> (Cycle, Seq<Call>)
        decreases es.len(),
    {
        if es.len() == 0 {
            (self, seq![])
        } else {
            let rest = self.after(es[0]).run(es.drop_first());
            (rest.0, seq![self.next(es[0]).1] + rest.1)
        }
    }

    /// Starts a cycle. A restart hour that is not an hour of the day is
    /// refused before any effect is asked for; otherwise the first effect
    /// is a look at the clock.
    pub fn start(config: Config) -> (r: Result<(Cycle, Action), ConfigError>)
        ensures
            config.restart_at >= 24 <==> r is Err,
            r matches Err(e) ==> e == ConfigError::RestartHourOutOfRange(config.restart_at),
            r matches Ok((c, a)) ==> {
                &&& c.config == config
                &&& c.stage == Stage::TooLate
                &&& c.wf()
                &&& a@ == Call::SampleTime
            },
    {
        if config.restart_at >= 24 {
            return Err(ConfigError::RestartHourOutOfRange(config.restart_at));
        }
        Ok((Cycle { config, stage: Stage::TooLate }, Action::SampleTime))
    }

    fn name_of(&self, i: usize) -> (r: String)
        requires
            i < self.config.services.len(),
        ensures
            r@ == self.name(i as int),
    {
        self.config.services[i].clone()
    }

    fn service_from_exec(&self, i: usize) -> (r: (Stage, Action))
        requires
            self.wf(),
            i <= self.config.services.len(),
        ensures
            r.0 == self.service_from(i as nat).0,
            r.1@ == self.service_from(i as nat).1,
    {
        if i < self.config.services.len() {
            (Stage::Exists(i), Action::CheckExists(self.name_of(i)))
        } else {
            (Stage::EndReported, Action::Report(end()))
        }
    }

    fn decide(&self, e: Event) -> (r: (Stage, Action))
        requires
            self.wf(),
        ensures
            r.0 == self.next(e).0,
            r.1@ == self.next(e).1,
    {
        let poll = self.config.check_time_sleep_sec;
        let target = TimeOfDay::at_hour(self.config.restart_at);
        match self.stage {
            Stage::TooLate => match e {
                Event::Time(now) => if target.is_before(&now) {
                    (Stage::TooLateSleep, Action::Sleep(poll))
                } else {
                    (Stage::TooEarly, Action::SampleTime)
                },
                _ => (Stage::TooLate, Action::SampleTime),
            },
            Stage::TooLateSleep => (Stage::TooLate, Action::SampleTime),
            Stage::TooEarly => match e {
                Event::Time(now) => if now.is_before(&target) {
                    (Stage::TooEarlySleep, Action::Sleep(poll))
                } else {
                    (Stage::Probe, Action::ProbeOnline)
                },
                _ => (Stage::TooEarly, Action::SampleTime),
            },
            Stage::TooEarlySleep => (Stage::TooEarly, Action::SampleTime),
            Stage::Probe => match e {
                Event::Online(up) => if up {
                    self.service_from_exec(0)
                } else {
                    (Stage::OfflineReported, Action::Report(offline()))
                },
                _ => (Stage::Probe, Action::ProbeOnline),
            },
            Stage::OfflineReported => (Stage::Flushing, Action::Flush),
            Stage::Flushing => match e {
                Event::Status(code) => if code == Some(0i32) {
                    (Stage::Rebooting, Action::Reboot)
                } else {
                    (Stage::FlushReported, Action::Report(flush_status()))
                },
                Event::Failed(err) => (
                    Stage::FlushReported,
                    Action::Report(flush_failed(err.as_str())),
                ),
                _ => (Stage::Flushing, Action::Flush),
            },
            Stage::FlushReported => (Stage::Rebooting, Action::Reboot),
            Stage::Rebooting => match e {
                Event::Failed(err) => (
                    Stage::RebootReported,
                    Action::Report(reboot_failed(err.as_str())),
                ),
                _ => self.service_from_exec(0),
            },
            Stage::RebootReported => self.service_from_exec(0),
            Stage::Exists(i) => {
                let name = self.name_of(i);
                match e {
                    Event::Exists(known) => if known {
                        (Stage::Query(i), Action::QueryUnit(name))
                    } else {
                        (Stage::ServiceReported(i), Action::Report(missing(name.as_str())))
                    },
                    Event::Failed(err) => (
                        Stage::ServiceReported(i),
                        Action::Report(inspect_failed(name.as_str(), err.as_str())),
                    ),
                    _ => (Stage::Exists(i), Action::CheckExists(name)),
                }
            },
            Stage::Query(i) => {
                let name = self.name_of(i);
                match e {
                    Event::Unit { active, auto_start_enabled } => if active || auto_start_enabled {
                        (Stage::Restart(i), Action::Restart(name))
                    } else {
                        self.service_from_exec(i + 1)
                    },
                    Event::Failed(err) => (
                        Stage::ServiceReported(i),
                        Action::Report(inspect_failed(name.as_str(), err.as_str())),
                    ),
                    _ => (Stage::Query(i), Action::QueryUnit(name)),
                }
            },
            Stage::Restart(i) => {
                let name = self.name_of(i);
                match e {
                    Event::Status(code) => match code {
                        Some(c) => if c == 0 {
                            (Stage::CoolDown(i), Action::Sleep(self.config.service_restarted_sleep_sec))
                        } else {
                            (Stage::ServiceReported(i), Action::Report(restart_code(name.as_str(), c)))
                        },
                        None => (
                            Stage::ServiceReported(i),
                            Action::Report(restart_no_code(name.as_str())),
                        ),
                    },
                    Event::Failed(err) => (
                        Stage::ServiceReported(i),
                        Action::Report(restart_failed(name.as_str(), err.as_str())),
                    ),
                    _ => (Stage::Restart(i), Action::Restart(name)),
                }
            },
            Stage::ServiceReported(i) => self.service_from_exec(i + 1),
            Stage::CoolDown(i) => self.service_from_exec(i + 1),
            Stage::EndReported => (Stage::Finished, Action::Exit),
            Stage::Finished => (Stage::Finished, Action::Exit),
        }
    }

    /// Takes the answer to the last effect, moves to the next stage and
    /// returns the effect to perform next.
    pub fn step(&mut self, e: Event) -> (a: Action)
        requires
            old(self).wf(),
        ensures
            final(self).config == old(self).config,
            final(self).stage == old(self).next(e).0,
            a@ == old(self).next(e).1,
            final(self).wf(),
    {
        let (stage, a) = self.decide(e);
        self.stage = stage;
        a
    }
}

} // verus!
