use vstd::prelude::*;
use crate::clock::{Moment, Stamp, is_weekend, weekend_day, same_day, read_stamp, stamp_reads, stamp_secs};
use crate::status::{WorkStatus, initial_status, starting_status};

verus! {

/// What is configured once and read for the whole run.
#[derive(Clone, Debug)]
pub struct Settings {
    /// The day's quota, in seconds.
    pub work_time: u64,
    /// The domains to block, in the order their entries are written.
    pub blocked_sites: Vec<String>,
}

/// The durable record that survives restarts.
#[derive(Clone, Debug)]
pub struct Save {
    /// Whether the block is engaged.
    pub detox: bool,
    /// When the running session began.
    pub time_started: Option<String>,
    /// When the quota was last met.
    pub last_completion: Option<String>,
}

impl Save {
    /// The clean host file is copied aside at launch only while no block is
    /// engaged, so that the copy never holds blocked entries.
    pub fn needs_backup(&self) -> (r: bool)
        ensures
            r == !self.detox,
    {
        !self.detox
    }
}

/// What the caller must carry out after a transition, in this order: the
/// host-file work first, then writing the durable record.
#[derive(PartialEq, Eq, Structural, Clone, Copy, Debug)]
pub enum Effect {
    /// Nothing changed.
    Nothing,
    /// Append the block entries to the host file, then persist the record.
    Engage,
    /// Persist the record.
    Persist,
    /// Restore the host file from its backup, then persist the record.
    Revert,
}

/// A persisted timestamp that could not be read.
#[derive(PartialEq, Eq, Structural, Clone, Copy, Debug)]
pub enum AppError {
    TimeParse,
}

/// The running state of the timer.
#[derive(Clone, Debug)]
pub struct App {
    /// The quota, in seconds.
    pub work_time: u64,
    /// The start of the running session, once known.
    pub time_started: Option<Moment>,
    pub status: WorkStatus,
    pub settings: Settings,
    pub save: Save,
}

/// Whether the quota was last met on the calendar date of `today`.
pub open spec fn completed_on(last: Option<Moment>, today: Moment) -> bool {
    last matches Some(l) && l.day == today.day
}

/// Whether a session begun at `start` has met a quota of `work` seconds at `now`.
pub open spec fn quota_met(work: u64, start: Moment, now: Moment) -> bool {
    now.secs - start.secs >= work
}

/// The start that a launch keeps: only a running detox with a recorded start has one.
pub open spec fn kept_start(save: Save, time_started: Option<Moment>) -> Option<Moment> {
    if save.detox && save.time_started is Some {
        time_started
    } else {
        None
    }
}

/// The status that a launch derives from the record, its read timestamps and
/// the current moment.
pub open spec fn launch_status(
    save: Save,
    time_started: Option<Moment>,
    last_completion: Option<Moment>,
    today: Moment,
) -> WorkStatus {
    initial_status(
        save.detox,
        kept_start(save, time_started) is Some,
        completed_on(last_completion, today),
        is_weekend(today.weekday),
    )
}

/// The state after a poll at `now`.
pub open spec fn after_tick(a: App, now: Stamp) -> (App, Effect) {
    if a.status == WorkStatus::Working && a.time_started is Some && quota_met(
        a.work_time,
        a.time_started->Some_0,
        now.at,
    ) {
        (
            App {
                time_started: None,
                status: WorkStatus::Complete,
                save: Save { detox: false, time_started: None, last_completion: Some(now.text) },
                ..a
            },
            Effect::Revert,
        )
    } else {
        (a, Effect::Nothing)
    }
}

/// The state after the confirm trigger at `now`.
pub open spec fn after_confirm(a: App, now: Stamp) -> (App, Effect) {
    if a.status == WorkStatus::Check {
        (
            App {
                status: WorkStatus::Start,
                save: Save { detox: true, time_started: None, ..a.save },
                ..a
            },
            Effect::Engage,
        )
    } else if a.status == WorkStatus::Start {
        if a.time_started is Some {
            (App { status: WorkStatus::Working, ..a }, Effect::Nothing)
        } else {
            (
                App {
                    status: WorkStatus::Working,
                    time_started: Some(now.at),
                    save: Save { time_started: Some(now.text), ..a.save },
                    ..a
                },
                Effect::Persist,
            )
        }
    } else {
        (a, Effect::Nothing)
    }
}

impl App {
    /// Only a running detox has a runtime start, and during one the runtime
    /// start is known exactly when the record holds one; `Working` always has one, and `Start` and `Working`
    /// occur only while the block is engaged, and `Check` only while it is not.
    pub open spec fn wf(&self) -> bool {
        &&& self.work_time == self.settings.work_time
        &&& (self.time_started is Some ==> self.save.detox)
        &&& (self.save.detox ==> (self.time_started is Some <==> self.save.time_started is Some))
        &&& (self.status == WorkStatus::Working ==> self.time_started is Some)
        &&& (self.status == WorkStatus::Start || self.status == WorkStatus::Working
            ==> self.save.detox)
        &&& (self.status == WorkStatus::Check ==> !self.save.detox)
    }

    /// Derives the launch state from the loaded record and the already read
    /// timestamps: `time_started` is the record's start (read whenever a
    /// detox runs with one), `last_completion` its last completion, `today`
    /// the current moment.
    pub fn resume(
        settings: Settings,
        save: Save,
        time_started: Option<Moment>,
        last_completion: Option<Moment>,
        today: &Moment,
    ) -> (r: App)
        requires
            save.detox && save.time_started is Some ==> time_started is Some,
        ensures
            r.wf(),
            r.settings == settings,
            r.save == save,
            r.work_time == settings.work_time,
            r.time_started == kept_start(save, time_started),
            r.status == launch_status(save, time_started, last_completion, *today),
    {
        let kept: Option<Moment> = if save.detox && save.time_started.is_some() {
            time_started
        } else {
            None
        };
        let completed = match last_completion {
            Some(l) => same_day(&l, today),
            None => false,
        };
        let weekend = weekend_day(today);
        let status = starting_status(save.detox, kept.is_some(), completed, weekend);
        App { work_time: settings.work_time, time_started: kept, status, settings, save }
    }

    /// Reads the record's timestamps and derives the launch state. The start
    /// is read only while a detox runs. A timestamp that does not read gives
    /// `TimeParse`; with none to read the launch always succeeds.
    pub fn new(settings: Settings, save: Save, today: &Moment) -> (r: Result<App, AppError>)
        ensures
            r is Ok ==> ((save.detox && save.time_started is Some) ==> stamp_reads(
                save.time_started->Some_0@,
            )) && (save.last_completion is Some ==> stamp_reads(save.last_completion->Some_0@)),
            r is Err ==> r == Err::<App, AppError>(AppError::TimeParse),
            (save.last_completion is None && !(save.detox && save.time_started is Some)) ==> r
                == Ok::<App, AppError>(
                App {
                    work_time: settings.work_time,
                    time_started: None,
                    status: initial_status(save.detox, false, false, is_weekend(today.weekday)),
                    settings,
                    save,
                },
            ),
            r matches Ok(a) ==> {
                &&& a.wf()
                &&& a.settings == settings
                &&& a.save == save
                &&& exists|ts: Option<Moment>, lc: Option<Moment>|
                    #![trigger launch_status(save, ts, lc, *today)]
                    {
                        &&& (ts is Some <==> save.detox && save.time_started is Some)
                        &&& (lc is Some <==> save.last_completion is Some)
                        &&& (ts matches Some(m) ==> m.secs == stamp_secs(save.time_started->Some_0@))
                        &&& (lc matches Some(m) ==> m.secs == stamp_secs(
                            save.last_completion->Some_0@,
                        ))
                        &&& a.time_started == kept_start(save, ts)
                        &&& a.status == launch_status(save, ts, lc, *today)
                    }
            },
    {
        let mut started: Option<Moment> = None;
        if save.detox {
            match &save.time_started {
                Some(s) => match read_stamp(s) {
                    Some(m) => {
                        started = Some(m);
                    },
                    None => {
                        return Err(AppError::TimeParse);
                    },
                },
                None => {},
            }
        }
        let mut last: Option<Moment> = None;
        match &save.last_completion {
            Some(s) => match read_stamp(s) {
                Some(m) => {
                    last = Some(m);
                },
                None => {
                    return Err(AppError::TimeParse);
                },
            },
            None => {},
        }
        let ghost save0 = save;
        let app = App::resume(settings, save, started, last, today);
        assert(launch_status(save0, started, last, *today) == app.status);
        Ok(app)
    }

    /// The confirm trigger: `Check` engages the block, drops any start that
    /// the record held without a detox, and moves to `Start`;
    /// `Start` begins the session (keeping a start already known, else
    /// recording `now`) and moves to `Working`; elsewhere it does nothing.
    pub fn confirm(&mut self, now: Stamp) -> (e: Effect)
        requires
            old(self).wf(),
        ensures
            final(self).wf(),
            (*final(self), e) == after_confirm(*old(self), now),
    {
        if self.status == WorkStatus::Check {
            self.status = WorkStatus::Start;
            self.save.detox = true;
            self.save.time_started = None;
            Effect::Engage
        } else if self.status == WorkStatus::Start {
            self.status = WorkStatus::Working;
            if self.time_started.is_some() {
                    Effect::Nothing
            } else {
                self.time_started = Some(now.at);
                self.save.time_started = Some(now.text);
                    Effect::Persist
            }
        } else {
            Effect::Nothing
        }
    }

    /// The poll: a `Working` session whose quota is met at `now` ends. The
    /// block is reverted, the record cleared of the session and marked
    /// complete at `now`, and the status becomes `Complete`.
    pub fn tick(&mut self, now: Stamp) -> (e: Effect)
        requires
            old(self).wf(),
        ensures
            final(self).wf(),
            (*final(self), e) == after_tick(*old(self), now),
    {
        if self.status == WorkStatus::Working {
            match self.time_started {
                Some(t) => {
                    if quota_met_at(self.work_time, &t, &now.at) {
                        self.time_started = None;
                        self.status = WorkStatus::Complete;
                        self.save.detox = false;
                        self.save.time_started = None;
                        self.save.last_completion = Some(now.text);
                        return Effect::Revert;
                    }
                },
                None => {},
            }
        }
        Effect::Nothing
    }
}

/// Whether a session begun at `start` has met a quota of `work` seconds at `now`.
pub fn quota_met_at(work: u64, start: &Moment, now: &Moment) -> (r: bool)
    ensures
        r == quota_met(work, *start, *now),
{
    (now.secs as i128) - (start.secs as i128) >= work as i128
}

/// The launch status is a function of the record and of the current date
/// alone: two launches on the same calendar day, at whatever time of it,
/// derive the same status.
pub proof fn lemma_launch_depends_on_date(
    save: Save,
    time_started: Option<Moment>,
    last_completion: Option<Moment>,
    today: Moment,
    later: Moment,
)
    requires
        today.wf(),
        later.wf(),
        today.day == later.day,
    ensures
        launch_status(save, time_started, last_completion, today) == launch_status(
            save,
            time_started,
            last_completion,
            later,
        ),
{
}

/// A running session ends at a poll exactly when the time elapsed since its
/// start has reached the quota; an elapsed time equal to the quota counts.
/// Before that the poll leaves everything as it was.
pub proof fn lemma_completion_exact(a: App, now: Stamp)
    requires
        a.wf(),
        a.status == WorkStatus::Working,
    ensures
        after_tick(a, now).0.status == WorkStatus::Complete <==> now.at.secs
            - a.time_started->Some_0.secs >= a.work_time,
        now.at.secs - a.time_started->Some_0.secs < a.work_time ==> after_tick(a, now) == (
            a,
            Effect::Nothing,
        ),
{
}

/// Polling twice with the same clock value gives the same state as polling
/// once, and the second poll asks for nothing.
pub proof fn lemma_tick_idempotent(a: App, now: Stamp)
    requires
        a.wf(),
    ensures
        after_tick(after_tick(a, now).0, now) == (after_tick(a, now).0, Effect::Nothing),
{
}

/// Starting from `Start` when the record already holds a start resumes that
/// session: the runtime start is kept, the record is left as it is and
/// nothing needs persisting.
pub proof fn lemma_recorded_start_reused(a: App, now: Stamp)
    requires
        a.wf(),
        a.status == WorkStatus::Start,
        a.save.time_started is Some,
    ensures
        after_confirm(a, now) == (App { status: WorkStatus::Working, ..a }, Effect::Nothing),
        a.time_started is Some,
{
}

/// The triggers never leave `Complete` or `Weekend` within a run.
pub proof fn lemma_terminal_statuses(a: App, now: Stamp)
    requires
        a.status == WorkStatus::Complete || a.status == WorkStatus::Weekend,
    ensures
        after_tick(a, now) == (a, Effect::Nothing),
        after_confirm(a, now) == (a, Effect::Nothing),
{
}

} // verus!
