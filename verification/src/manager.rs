//! The decisions of the task that manages a set of tasks.
//!
//! The managing task waits on several things at once: Ctrl+C, the timeouts of
//! a shutdown, the channel through which new tasks arrive, and the tasks it
//! holds. Which of those it waits on, and what it does when one of them
//! resolves, is decided here; the runtime around it does the waiting and
//! carries out the reaction.

use vstd::prelude::*;

use crate::builder::BuilderSettings;
use crate::results::TaskResult;

verus! {

/// The settings that the managing task decides by.
#[derive(Clone, Copy, PartialEq, Eq, Structural)]
pub struct ManagerConfig {
    /// Ctrl+C starts a shutdown.
    pub catch_signals: bool,
    /// Once a shutdown has started, running tasks are aborted after a timeout.
    pub has_graceful_shutdown_timeout: bool,
    /// Once tasks were aborted, those still running are left dangling after a
    /// timeout.
    pub has_task_abort_timeout: bool,
    /// A task that fails starts a shutdown.
    pub shutdown_if_a_task_errors: bool,
}

impl ManagerConfig {
    /// What a builder's settings make of the managing task's settings.
    pub open spec fn from_settings(settings: BuilderSettings) -> ManagerConfig {
        ManagerConfig {
            catch_signals: settings.catch_signals,
            has_graceful_shutdown_timeout: settings.graceful_shutdown_timeout is Some,
            has_task_abort_timeout: settings.task_abort_timeout is Some,
            shutdown_if_a_task_errors: settings.shutdown_if_a_task_errors,
        }
    }
}

/// Something the managing task was waiting on has resolved.
pub enum ManagerEvent {
    /// Ctrl+C was received.
    StopSignal,
    /// The graceful shutdown timeout ran out.
    GracefulShutdownTimeout,
    /// A new task arrived through the task channel.
    TaskReceived,
    /// The task channel is closed: no task will arrive any more.
    TaskChannelClosed,
    /// The task with this id finished; `errored` tells whether it failed, and
    /// `already_shutting_down` whether a shutdown had started when it did.
    TaskFinished { id: u64, errored: bool, already_shutting_down: bool },
    /// The task abort timeout ran out.
    AbortTimeout,
}

impl ManagerEvent {
    /// The event for the task with id `id` finishing with `result`, while a
    /// shutdown had or had not started.
    pub fn task_finished<E>(id: u64, result: &TaskResult<E>, already_shutting_down: bool) -> (event:
        ManagerEvent)
        ensures
            event == (ManagerEvent::TaskFinished {
                id,
                errored: result.result is Err,
                already_shutting_down,
            }),
    {
        ManagerEvent::TaskFinished { id, errored: result.result.is_err(), already_shutting_down }
    }
}

/// The state of the managing task, in mathematical terms.
pub struct ManagerModel {
    pub config: ManagerConfig,
    /// Running tasks have been told to abort.
    pub aborting: bool,
    /// No task will arrive any more.
    pub channel_closed: bool,
    /// The managing task is done.
    pub exited: bool,
    /// The ids of the tasks that are registered and have not finished.
    pub live: Set<u64>,
    /// The id the next task that arrives will get.
    pub next_id: nat,
}

/// What the managing task does in answer to an event, in mathematical terms.
pub struct ReactionModel {
    /// Start a shutdown of the whole set of tasks.
    pub start_shutdown: bool,
    /// The id given to the task that just arrived.
    pub registered: Option<u64>,
    /// The tasks to abort.
    pub abort: Set<u64>,
    /// Report the error of the task that just finished.
    pub report_error: bool,
    /// The tasks to report as left dangling.
    pub left_dangling: Set<u64>,
    /// Stop managing: the managing task ends.
    pub exit: bool,
}

impl ReactionModel {
    /// Doing nothing.
    pub open spec fn quiet() -> ReactionModel {
        ReactionModel {
            start_shutdown: false,
            registered: None,
            abort: Set::empty(),
            report_error: false,
            left_dangling: Set::empty(),
            exit: false,
        }
    }
}

impl ManagerModel {
    /// The state the managing task starts in.
    pub open spec fn initial(config: ManagerConfig) -> ManagerModel {
        ManagerModel {
            config,
            aborting: false,
            channel_closed: false,
            exited: false,
            live: Set::empty(),
            next_id: 0,
        }
    }

    /// What holds of every state the managing task reaches.
    pub open spec fn inv(self) -> bool {
        &&& self.live.finite()
        &&& forall|id: u64| #[trigger] self.live.contains(id) ==> id < self.next_id
        &&& self.next_id <= u64::MAX
        &&& self.exited ==> self.channel_closed && self.live.is_empty()
        &&& self.channel_closed && self.live.is_empty() ==> self.exited
    }

    /// Whether the managing task waits on what produces `event`.
    pub open spec fn enabled(self, event: ManagerEvent) -> bool {
        &&& !self.exited
        &&& match event {
            ManagerEvent::StopSignal => self.config.catch_signals,
            ManagerEvent::GracefulShutdownTimeout => !self.aborting
                && self.config.has_graceful_shutdown_timeout,
            ManagerEvent::TaskReceived => !self.channel_closed && self.next_id < u64::MAX,
            ManagerEvent::TaskChannelClosed => !self.channel_closed,
            ManagerEvent::TaskFinished { id, .. } => self.live.contains(id),
            ManagerEvent::AbortTimeout => self.aborting && self.channel_closed
                && self.config.has_task_abort_timeout,
        }
    }

    /// The state after `event`, and what the managing task does in answer.
    pub open spec fn next(self, event: ManagerEvent) -> (ManagerModel, ReactionModel) {
        let quiet = ReactionModel::quiet();
        match event {
            ManagerEvent::StopSignal => (self, ReactionModel { start_shutdown: true, ..quiet }),
            ManagerEvent::GracefulShutdownTimeout => (
                ManagerModel { aborting: true, ..self },
                ReactionModel { abort: self.live, ..quiet },
            ),
            ManagerEvent::TaskReceived => {
                let id = self.next_id as u64;
                (
                    ManagerModel { live: self.live.insert(id), next_id: self.next_id + 1, ..self },
                    ReactionModel {
                        registered: Some(id),
                        abort: if self.aborting {
                            Set::empty().insert(id)
                        } else {
                            Set::empty()
                        },
                        ..quiet
                    },
                )
            },
            ManagerEvent::TaskChannelClosed => {
                let exit = self.live.is_empty();
                (
                    ManagerModel { channel_closed: true, exited: exit, ..self },
                    ReactionModel { exit, ..quiet },
                )
            },
            ManagerEvent::TaskFinished { id, errored, already_shutting_down } => {
                let live = self.live.remove(id);
                let exit = self.channel_closed && live.is_empty();
                (
                    ManagerModel { live, exited: exit, ..self },
                    ReactionModel {
                        start_shutdown: errored && self.config.shutdown_if_a_task_errors
                            && !already_shutting_down,
                        report_error: errored,
                        exit,
                        ..quiet
                    },
                )
            },
            ManagerEvent::AbortTimeout => (
                ManagerModel { live: Set::empty(), exited: true, ..self },
                ReactionModel { left_dangling: self.live, exit: true, ..quiet },
            ),
        }
    }
}

/// What the managing task does in answer to an event.
pub struct Reaction {
    /// Start a shutdown of the whole set of tasks.
    pub start_shutdown: bool,
    /// The id given to the task that just arrived.
    pub registered: Option<u64>,
    /// The ids of the tasks to abort.
    pub abort: Vec<u64>,
    /// Report the error of the task that just finished.
    pub report_error: bool,
    /// The ids of the tasks to report as left dangling.
    pub left_dangling: Vec<u64>,
    /// Stop managing: the managing task ends.
    pub exit: bool,
}

impl View for Reaction {
    type V = ReactionModel;

    open spec fn view(&self) -> ReactionModel {
        ReactionModel {
            start_shutdown: self.start_shutdown,
            registered: self.registered,
            abort: self.abort@.to_set(),
            report_error: self.report_error,
            left_dangling: self.left_dangling@.to_set(),
            exit: self.exit,
        }
    }
}

impl Reaction {
    /// No id is listed twice.
    pub open spec fn wf(&self) -> bool {
        self.abort@.no_duplicates() && self.left_dangling@.no_duplicates()
    }

    fn quiet() -> (reaction: Reaction)
        ensures
            reaction@ == ReactionModel::quiet(),
            reaction.wf(),
            reaction.abort@ == Seq::<u64>::empty(),
            reaction.left_dangling@ == Seq::<u64>::empty(),
    {
        let reaction = Reaction {
            start_shutdown: false,
            registered: None,
            abort: Vec::new(),
            report_error: false,
            left_dangling: Vec::new(),
            exit: false,
        };
        assert(reaction@.abort =~= Set::empty());
        assert(reaction@.left_dangling =~= Set::empty());
        reaction
    }
}

/// The state of the managing task.
pub struct Manager {
    config: ManagerConfig,
    aborting: bool,
    channel_closed: bool,
    exited: bool,
    live: Vec<u64>,
    next_id: u64,
}

impl View for Manager {
    type V = ManagerModel;

    closed spec fn view(&self) -> ManagerModel {
        ManagerModel {
            config: self.config,
            aborting: self.aborting,
            channel_closed: self.channel_closed,
            exited: self.exited,
            live: self.live@.to_set(),
            next_id: self.next_id as nat,
        }
    }
}

/// Removing the element at `i` from a sequence without duplicates removes
/// exactly that element from its set.
proof fn lemma_remove_at(s: Seq<u64>, i: int)
    requires
        s.no_duplicates(),
        0 <= i < s.len(),
    ensures
        s.remove(i).no_duplicates(),
        s.remove(i).to_set() =~= s.to_set().remove(s[i]),
{
    let r = s.remove(i);
    assert forall|a: int, b: int| 0 <= a < r.len() && 0 <= b < r.len() && a != b implies r[a]
        != r[b] by {
        let a2 = if a < i {
            a
        } else {
            a + 1
        };
        let b2 = if b < i {
            b
        } else {
            b + 1
        };
        assert(r[a] == s[a2]);
        assert(r[b] == s[b2]);
    }
    assert forall|x: u64| r.contains(x) <==> (s.contains(x) && x != s[i]) by {
        if r.contains(x) {
            let k = choose|k: int| 0 <= k < r.len() && r[k] == x;
            let k2 = if k < i {
                k
            } else {
                k + 1
            };
            assert(s[k2] == x);
        }
        if s.contains(x) && x != s[i] {
            let k = choose|k: int| 0 <= k < s.len() && s[k] == x;
            let k2 = if k < i {
                k
            } else {
                k - 1
            };
            assert(r[k2] == x);
        }
    }
}

/// Removes `id` from a list of ids without duplicates.
fn remove_id(live: &mut Vec<u64>, id: u64)
    requires
        old(live)@.no_duplicates(),
    ensures
        final(live)@.no_duplicates(),
        final(live)@.to_set() =~= old(live)@.to_set().remove(id),
{
    let mut i: usize = 0;
    while i < live.len()
        invariant
            0 <= i <= live.len(),
            live@ == old(live)@,
            old(live)@.no_duplicates(),
            forall|j: int| 0 <= j < i ==> live@[j] != id,
        decreases live.len() - i,
    {
        if live[i] == id {
            proof {
                lemma_remove_at(live@, i as int);
            }
            live.remove(i);
            return;
        }
        i = i + 1;
    }
    assert(!live@.contains(id));
}

/// A copy of a list of ids.
fn copy_ids(ids: &Vec<u64>) -> (copy: Vec<u64>)
    ensures
        copy@ == ids@,
{
    let mut copy: Vec<u64> = Vec::new();
    let mut i: usize = 0;
    while i < ids.len()
        invariant
            0 <= i <= ids.len(),
            copy@ == ids@.subrange(0, i as int),
        decreases ids.len() - i,
    {
        copy.push(ids[i]);
        i = i + 1;
        assert(copy@ =~= ids@.subrange(0, i as int));
    }
    assert(ids@.subrange(0, ids.len() as int) =~= ids@);
    copy
}

impl Manager {
    /// The state is consistent: no id is held twice, and the model's
    /// invariant holds.
    pub closed spec fn wf(&self) -> bool {
        self.live@.no_duplicates() && self@.inv()
    }

    /// The managing task before anything has happened.
    pub fn new(config: ManagerConfig) -> (manager: Manager)
        ensures
            manager.wf(),
            manager@ == ManagerModel::initial(config),
    {
        let manager = Manager {
            config,
            aborting: false,
            channel_closed: false,
            exited: false,
            live: Vec::new(),
            next_id: 0,
        };
        assert(manager@.live =~= Set::empty());
        manager
    }

    /// Whether the managing task waits for Ctrl+C.
    pub fn listens_for_stop_signal(&self) -> (listens: bool)
        requires
            self.wf(),
        ensures
            listens == self@.enabled(ManagerEvent::StopSignal),
    {
        !self.exited && self.config.catch_signals
    }

    /// Whether the managing task waits for the graceful shutdown timeout.
    pub fn awaits_graceful_shutdown_timeout(&self) -> (awaits: bool)
        requires
            self.wf(),
        ensures
            awaits == self@.enabled(ManagerEvent::GracefulShutdownTimeout),
    {
        !self.exited && !self.aborting && self.config.has_graceful_shutdown_timeout
    }

    /// Whether the managing task waits on the task channel.
    pub fn accepts_new_tasks(&self) -> (accepts: bool)
        requires
            self.wf(),
        ensures
            accepts == self@.enabled(ManagerEvent::TaskReceived),
            accepts ==> self@.enabled(ManagerEvent::TaskChannelClosed),
    {
        !self.exited && !self.channel_closed && self.next_id < u64::MAX
    }

    /// Whether the managing task waits on the tasks it holds.
    pub fn awaits_task_results(&self) -> (awaits: bool)
        requires
            self.wf(),
        ensures
            awaits <==> !self@.exited && !self@.live.is_empty(),
    {
        proof {
            if self.live@.len() > 0 {
                assert(self@.live.contains(self.live@[0]));
            } else {
                assert(self@.live =~= Set::empty());
            }
        }
        !self.exited && self.live.len() > 0
    }

    /// Whether the task with this id is held and has not finished.
    pub fn holds_task(&self, id: u64) -> (holds: bool)
        requires
            self.wf(),
        ensures
            holds == self@.enabled(
                ManagerEvent::TaskFinished { id, errored: false, already_shutting_down: false },
            ),
    {
        if self.exited {
            return false;
        }
        let mut i: usize = 0;
        while i < self.live.len()
            invariant
                0 <= i <= self.live.len(),
                !self.exited,
                forall|j: int| 0 <= j < i ==> self.live@[j] != id,
            decreases self.live.len() - i,
        {
            if self.live[i] == id {
                assert(self.live@.contains(id));
                return true;
            }
            i = i + 1;
        }
        false
    }

    /// Whether the managing task waits for the task abort timeout.
    pub fn awaits_abort_timeout(&self) -> (awaits: bool)
        requires
            self.wf(),
        ensures
            awaits == self@.enabled(ManagerEvent::AbortTimeout),
    {
        !self.exited && self.aborting && self.channel_closed && self.config.has_task_abort_timeout
    }

    /// Takes in an event the managing task was waiting on, and says what to
    /// do in answer.
    pub fn step(&mut self, event: ManagerEvent) -> (reaction: Reaction)
        requires
            old(self).wf(),
            old(self)@.enabled(event),
        ensures
            final(self).wf(),
            (final(self)@, reaction@) == old(self)@.next(event),
            reaction.wf(),
    {
        let ghost before = self@;
        match event {
            ManagerEvent::StopSignal => {
                let mut reaction = Reaction::quiet();
                reaction.start_shutdown = true;
                reaction
            },
            ManagerEvent::GracefulShutdownTimeout => {
                let mut reaction = Reaction::quiet();
                reaction.abort = copy_ids(&self.live);
                self.aborting = true;
                reaction
            },
            ManagerEvent::TaskReceived => {
                let id = self.next_id;
                let mut reaction = Reaction::quiet();
                reaction.registered = Some(id);
                if self.aborting {
                    reaction.abort.push(id);
                    assert(reaction.abort@ =~= seq![id]);
                    assert forall|x: u64| reaction@.abort.contains(x) <==> x == id by {
                        if x == id {
                            assert(reaction.abort@[0] == id);
                        }
                    }
                    assert(reaction@.abort =~= Set::empty().insert(id));
                }
                assert(!self.live@.contains(id)) by {
                    if self.live@.contains(id) {
                        assert(before.live.contains(id));
                    }
                }
                proof {
                    self.live@.lemma_push_to_set_commute(id);
                }
                self.live.push(id);
                self.next_id = self.next_id + 1;
                assert(self@.live =~= before.live.insert(id));
                assert forall|x: u64| #[trigger] self@.live.contains(x) implies x
                    < self@.next_id by {
                    if x != id {
                        assert(before.live.contains(x));
                    }
                }
                reaction
            },
            ManagerEvent::TaskChannelClosed => {
                let exit = self.live.len() == 0;
                proof {
                    if exit {
                        assert(before.live =~= Set::empty());
                    } else {
                        assert(before.live.contains(self.live@[0]));
                    }
                }
                self.channel_closed = true;
                self.exited = exit;
                let mut reaction = Reaction::quiet();
                reaction.exit = exit;
                reaction
            },
            ManagerEvent::TaskFinished { id, errored, already_shutting_down } => {
                remove_id(&mut self.live, id);
                let exit = self.channel_closed && self.live.len() == 0;
                proof {
                    if self.live.len() == 0 {
                        assert(self@.live =~= Set::empty());
                    } else {
                        assert(self@.live.contains(self.live@[0]));
                    }
                    assert forall|x: u64| #[trigger] self@.live.contains(x) implies x
                        < self@.next_id by {
                        assert(before.live.contains(x));
                    }
                }
                self.exited = exit;
                let mut reaction = Reaction::quiet();
                reaction.start_shutdown = errored && self.config.shutdown_if_a_task_errors
                    && !already_shutting_down;
                reaction.report_error = errored;
                reaction.exit = exit;
                reaction
            },
            ManagerEvent::AbortTimeout => {
                let mut reaction = Reaction::quiet();
                reaction.left_dangling = copy_ids(&self.live);
                self.live = Vec::new();
                self.exited = true;
                reaction.exit = true;
                assert(self@.live =~= Set::empty());
                reaction
            },
        }
    }
}

/// The state the managing task starts in satisfies the invariant.
pub proof fn law_initial_state_is_consistent(config: ManagerConfig)
    ensures
        ManagerModel::initial(config).inv(),
{
}

/// Every step the managing task takes keeps the invariant: ids stay below
/// the next id to give, and once it has exited the task channel is closed
/// and no task is left unaccounted for.
pub proof fn law_step_keeps_invariant(m: ManagerModel, event: ManagerEvent)
    requires
        m.inv(),
        m.enabled(event),
    ensures
        m.next(event).0.inv(),
{
    let m2 = m.next(event).0;
    match event {
        ManagerEvent::TaskReceived => {
            assert forall|x: u64| #[trigger] m2.live.contains(x) implies x < m2.next_id by {
                if x != m.next_id as u64 {
                    assert(m.live.contains(x));
                }
            }
        },
        ManagerEvent::TaskFinished { id, .. } => {
            assert forall|x: u64| #[trigger] m2.live.contains(x) implies x < m2.next_id by {
                assert(m.live.contains(x));
            }
        },
        _ => {},
    }
}

/// The settings never change, and once the managing task is aborting, has
/// seen the task channel close, or has exited, it stays so; ids are never
/// given twice.
pub proof fn law_progress_never_reverts(m: ManagerModel, event: ManagerEvent)
    requires
        m.inv(),
        m.enabled(event),
    ensures
        ({
            let m2 = m.next(event).0;
            &&& m2.config == m.config
            &&& m.aborting ==> m2.aborting
            &&& m.channel_closed ==> m2.channel_closed
            &&& m.exited ==> m2.exited
            &&& m.next_id <= m2.next_id
        }),
{
}

/// A task that arrives gets an id that no running task holds, and joins the
/// running tasks.
pub proof fn law_new_task_gets_fresh_id(m: ManagerModel)
    requires
        m.inv(),
        m.enabled(ManagerEvent::TaskReceived),
    ensures
        ({
            let (m2, r) = m.next(ManagerEvent::TaskReceived);
            &&& r.registered matches Some(id) && !m.live.contains(id) && m2.live == m.live.insert(id)
            &&& forall|x: u64| #[trigger] m2.live.contains(x) ==> x < m2.next_id
        }),
{
    law_step_keeps_invariant(m, ManagerEvent::TaskReceived);
    assert(!m.live.contains(m.next_id as u64));
}

/// Once the managing task is aborting, no task runs without having been told
/// to abort: every task still running after a step was either running, and
/// told, before it, or is told by this step (all running tasks when the
/// graceful shutdown timeout runs out, and each task that arrives after).
pub proof fn law_aborting_reaches_every_task(m: ManagerModel, event: ManagerEvent)
    requires
        m.inv(),
        m.enabled(event),
    ensures
        ({
            let (m2, r) = m.next(event);
            m2.aborting ==> forall|id: u64| #[trigger] m2.live.contains(id) ==> (m.aborting
                && m.live.contains(id)) || r.abort.contains(id)
        }),
{
}

/// The managing task ends only once no task can arrive any more and no task
/// it holds is still running; tasks are reported as left dangling only when
/// the abort timeout runs out, and then all the tasks still running are.
pub proof fn law_exit_accounts_for_every_task(m: ManagerModel, event: ManagerEvent)
    requires
        m.inv(),
        m.enabled(event),
    ensures
        ({
            let (m2, r) = m.next(event);
            &&& r.exit ==> m2.exited && m2.channel_closed && m2.live.is_empty()
            &&& r.exit <==> (m2.exited && !m.exited)
            &&& !r.left_dangling.is_empty() ==> event is AbortTimeout
            &&& event is AbortTimeout ==> r.exit && r.left_dangling == m.live
        }),
{
    law_step_keeps_invariant(m, event);
    let r = m.next(event).1;
    if !(event is AbortTimeout) {
        assert(r.left_dangling =~= Set::empty());
    }
}

/// When a task finishes, its error is reported exactly when it failed, and a
/// shutdown is started exactly when it failed, the settings ask for it, and
/// no shutdown had started yet.
pub proof fn law_task_failure_is_reported(
    m: ManagerModel,
    id: u64,
    errored: bool,
    already_shutting_down: bool,
)
    requires
        m.inv(),
        m.enabled(ManagerEvent::TaskFinished { id, errored, already_shutting_down }),
    ensures
        ({
            let (m2, r) = m.next(ManagerEvent::TaskFinished { id, errored, already_shutting_down });
            &&& r.report_error == errored
            &&& r.start_shutdown == (errored && m.config.shutdown_if_a_task_errors
                && !already_shutting_down)
            &&& m2.live == m.live.remove(id)
            &&& r.abort.is_empty() && r.left_dangling.is_empty()
        }),
{
}

/// Only Ctrl+C and a failing task make the managing task start a shutdown.
pub proof fn law_shutdown_has_a_cause(m: ManagerModel, event: ManagerEvent)
    requires
        m.inv(),
        m.enabled(event),
    ensures
        m.next(event).1.start_shutdown ==> (event is StopSignal || event matches
            ManagerEvent::TaskFinished { errored: true, .. }),
{
}

/// The state reached from `m` through `events`, one after the other.
pub open spec fn run(m: ManagerModel, events: Seq<ManagerEvent>) -> ManagerModel
    decreases events.len(),
{
    if events.len() == 0 {
        m
    } else {
        run(m.next(events[0]).0, events.drop_first())
    }
}

/// Whether the managing task, from `m`, waits on each of `events` in turn.
pub open spec fn can_run(m: ManagerModel, events: Seq<ManagerEvent>) -> bool
    decreases events.len(),
{
    if events.len() == 0 {
        true
    } else {
        m.enabled(events[0]) && can_run(m.next(events[0]).0, events.drop_first())
    }
}

/// Every state the managing task reaches from its initial state, whatever
/// happens in between, satisfies the invariant: in particular, when it has
/// exited, no task can arrive any more and none of its tasks is running.
pub proof fn law_reachable_states_are_consistent(
    config: ManagerConfig,
    events: Seq<ManagerEvent>,
)
    requires
        can_run(ManagerModel::initial(config), events),
    ensures
        run(ManagerModel::initial(config), events).inv(),
{
    lemma_run_keeps_invariant(ManagerModel::initial(config), events);
}

proof fn lemma_run_keeps_invariant(m: ManagerModel, events: Seq<ManagerEvent>)
    requires
        m.inv(),
        can_run(m, events),
    ensures
        run(m, events).inv(),
    decreases events.len(),
{
    if events.len() > 0 {
        law_step_keeps_invariant(m, events[0]);
        lemma_run_keeps_invariant(m.next(events[0]).0, events.drop_first());
    }
}

/// The ids of the tasks that finished, and of those left dangling, as the
/// managing task goes from `m` through `events`.
pub open spec fn fates(m: ManagerModel, events: Seq<ManagerEvent>) -> (Set<u64>, Set<u64>)
    decreases events.len(),
{
    if events.len() == 0 {
        (Set::empty(), Set::empty())
    } else {
        let (m2, r) = m.next(events[0]);
        let (finished, dangling) = fates(m2, events.drop_first());
        let finished = match events[0] {
            ManagerEvent::TaskFinished { id, .. } => finished.insert(id),
            _ => finished,
        };
        (finished, dangling.union(r.left_dangling))
    }
}

/// In how many of these the task `id` stands: running, finished, left
/// dangling.
pub open spec fn fate_count(
    m: ManagerModel,
    finished: Set<u64>,
    dangling: Set<u64>,
    id: u64,
) -> int {
    (if m.live.contains(id) {
        1int
    } else {
        0
    }) + (if finished.contains(id) {
        1int
    } else {
        0
    }) + (if dangling.contains(id) {
        1int
    } else {
        0
    })
}

/// Every task given an id is running, finished, or left dangling, and only
/// one of these; no other id is any of them.
pub open spec fn each_task_has_one_fate(
    m: ManagerModel,
    finished: Set<u64>,
    dangling: Set<u64>,
) -> bool {
    forall|id: u64| #[trigger]
        fate_count(m, finished, dangling, id) == if id < m.next_id {
            1int
        } else {
            0
        }
}

proof fn lemma_step_keeps_fates(
    m: ManagerModel,
    event: ManagerEvent,
    finished: Set<u64>,
    dangling: Set<u64>,
)
    requires
        m.inv(),
        m.enabled(event),
        each_task_has_one_fate(m, finished, dangling),
    ensures
        ({
            let (m2, r) = m.next(event);
            let finished2 = match event {
                ManagerEvent::TaskFinished { id, .. } => finished.insert(id),
                _ => finished,
            };
            each_task_has_one_fate(m2, finished2, dangling.union(r.left_dangling))
        }),
{
    let (m2, r) = m.next(event);
    let finished2 = match event {
        ManagerEvent::TaskFinished { id, .. } => finished.insert(id),
        _ => finished,
    };
    let dangling2 = dangling.union(r.left_dangling);
    assert forall|x: u64| #[trigger]
        fate_count(m2, finished2, dangling2, x) == if x < m2.next_id {
            1int
        } else {
            0
        } by {
        assert(fate_count(m, finished, dangling, x) == if x < m.next_id {
            1int
        } else {
            0
        });
        match event {
            ManagerEvent::TaskReceived => {
                if x == m.next_id as u64 {
                    assert(!m.live.contains(x));
                }
            },
            ManagerEvent::TaskFinished { id, .. } => {
                if x == id {
                    assert(m.live.contains(x));
                }
            },
            ManagerEvent::AbortTimeout => {
                if m.live.contains(x) {
                    assert(r.left_dangling.contains(x));
                }
            },
            _ => {
                assert(r.left_dangling =~= Set::empty());
            },
        }
    }
}

proof fn lemma_run_keeps_fates(
    m: ManagerModel,
    events: Seq<ManagerEvent>,
    finished: Set<u64>,
    dangling: Set<u64>,
)
    requires
        m.inv(),
        can_run(m, events),
        each_task_has_one_fate(m, finished, dangling),
    ensures
        ({
            let (f, d) = fates(m, events);
            each_task_has_one_fate(run(m, events), finished.union(f), dangling.union(d))
        }),
    decreases events.len(),
{
    if events.len() == 0 {
        assert(finished.union(Set::empty()) =~= finished);
        assert(dangling.union(Set::empty()) =~= dangling);
    } else {
        let event = events[0];
        let (m2, r) = m.next(event);
        let finished2 = match event {
            ManagerEvent::TaskFinished { id, .. } => finished.insert(id),
            _ => finished,
        };
        let dangling2 = dangling.union(r.left_dangling);
        lemma_step_keeps_fates(m, event, finished, dangling);
        law_step_keeps_invariant(m, event);
        lemma_run_keeps_fates(m2, events.drop_first(), finished2, dangling2);
        let (f2, d2) = fates(m2, events.drop_first());
        let (f, d) = fates(m, events);
        assert(finished2.union(f2) =~= finished.union(f));
        assert(dangling2.union(d2) =~= dangling.union(d));
    }
}

/// No task is lost: from its initial state, whatever happens, every task the
/// managing task gave an id to is, at any point, either still running, or
/// finished (its result was taken in), or reported as left dangling, and
/// only one of these. With the invariant, once the managing task has exited
/// every task has finished or been reported as dangling.
pub proof fn law_every_task_has_one_fate(config: ManagerConfig, events: Seq<ManagerEvent>)
    requires
        can_run(ManagerModel::initial(config), events),
    ensures
        ({
            let (finished, dangling) = fates(ManagerModel::initial(config), events);
            each_task_has_one_fate(run(ManagerModel::initial(config), events), finished, dangling)
        }),
{
    let m = ManagerModel::initial(config);
    let empty = Set::<u64>::empty();
    assert forall|x: u64| #[trigger]
        fate_count(m, empty, empty, x) == if x < m.next_id {
            1int
        } else {
            0
        } by {}
    lemma_run_keeps_fates(m, events, empty, empty);
    let (f, d) = fates(m, events);
    assert(empty.union(f) =~= f);
    assert(empty.union(d) =~= d);
}

/// What the builder's settings promise: Ctrl+C is waited for, and starts a
/// shutdown, exactly when signals are caught; a task that fails while no
/// shutdown has started starts one exactly when the settings ask for it.
pub proof fn law_settings_decide_what_starts_a_shutdown(
    settings: BuilderSettings,
    m: ManagerModel,
    id: u64,
)
    requires
        m.inv(),
        m.config == ManagerConfig::from_settings(settings),
        !m.exited,
        m.live.contains(id),
    ensures
        m.enabled(ManagerEvent::StopSignal) == settings.catch_signals,
        m.next(ManagerEvent::StopSignal).1.start_shutdown,
        m.next(
            ManagerEvent::TaskFinished { id, errored: true, already_shutting_down: false },
        ).1.start_shutdown == settings.shutdown_if_a_task_errors,
        m.enabled(ManagerEvent::GracefulShutdownTimeout) ==> settings.graceful_shutdown_timeout is Some,
        m.enabled(ManagerEvent::AbortTimeout) ==> settings.task_abort_timeout is Some,
{
}

/// Whether the reaction `r` to `event` reports an error for the task `id`:
/// the task finished and failed, or it is left dangling.
pub open spec fn reports_error_of(event: ManagerEvent, r: ReactionModel, id: u64) -> bool {
    ||| r.report_error && (event matches ManagerEvent::TaskFinished { id: finished, .. }
        && finished == id)
    ||| r.left_dangling.contains(id)
}

/// How many errors are reported for the task `id` as the managing task goes
/// from `m` through `events`.
pub open spec fn error_reports(m: ManagerModel, events: Seq<ManagerEvent>, id: u64) -> nat
    decreases events.len(),
{
    if events.len() == 0 {
        0
    } else {
        let (m2, r) = m.next(events[0]);
        (if reports_error_of(events[0], r, id) {
            1nat
        } else {
            0nat
        }) + error_reports(m2, events.drop_first(), id)
    }
}

/// The ids of the tasks that finished with a failure as the managing task
/// goes from `m` through `events`.
pub open spec fn failures(m: ManagerModel, events: Seq<ManagerEvent>) -> Set<u64>
    decreases events.len(),
{
    if events.len() == 0 {
        Set::empty()
    } else {
        let rest = failures(m.next(events[0]).0, events.drop_first());
        match events[0] {
            ManagerEvent::TaskFinished { id, errored: true, .. } => rest.insert(id),
            _ => rest,
        }
    }
}

proof fn lemma_error_reports(m: ManagerModel, events: Seq<ManagerEvent>, id: u64)
    requires
        m.inv(),
        can_run(m, events),
    ensures
        error_reports(m, events, id) == if failures(m, events).contains(id) || fates(
            m,
            events,
        ).1.contains(id) {
            1nat
        } else {
            0nat
        },
        (id < m.next_id && !m.live.contains(id)) ==> error_reports(m, events, id) == 0
            && !failures(m, events).contains(id) && !fates(m, events).1.contains(id),
    decreases events.len(),
{
    if events.len() > 0 {
        let event = events[0];
        let rest = events.drop_first();
        let (m2, r) = m.next(event);
        law_step_keeps_invariant(m, event);
        lemma_error_reports(m2, rest, id);
        if !(event is AbortTimeout) {
            assert(r.left_dangling =~= Set::empty());
        }
        match event {
            ManagerEvent::TaskFinished { id: finished, .. } => {
                if finished == id {
                    assert(!m2.live.contains(id));
                } else if m.live.contains(id) {
                    assert(m2.live.contains(id));
                }
            },
            ManagerEvent::TaskReceived => {
                if m.live.contains(id) {
                    assert(m2.live.contains(id));
                }
            },
            _ => {},
        }
    }
}

/// Each task's failure is reported exactly once: from the initial state,
/// whatever happens, the managing task reports one error for a task that
/// failed or was left dangling, and none for any other id.
pub proof fn law_each_failure_reported_once(
    config: ManagerConfig,
    events: Seq<ManagerEvent>,
    id: u64,
)
    requires
        can_run(ManagerModel::initial(config), events),
    ensures
        ({
            let m = ManagerModel::initial(config);
            error_reports(m, events, id) == if failures(m, events).contains(id) || fates(
                m,
                events,
            ).1.contains(id) {
                1nat
            } else {
                0nat
            }
        }),
{
    lemma_error_reports(ManagerModel::initial(config), events, id);
}

/// The ids of the tasks told to abort as the managing task goes from `m`
/// through `events`.
pub open spec fn aborted(m: ManagerModel, events: Seq<ManagerEvent>) -> Set<u64>
    decreases events.len(),
{
    if events.len() == 0 {
        Set::empty()
    } else {
        let (m2, r) = m.next(events[0]);
        r.abort.union(aborted(m2, events.drop_first()))
    }
}

proof fn lemma_nothing_aborted_without_graceful_timeout(m: ManagerModel, events: Seq<ManagerEvent>)
    requires
        m.inv(),
        !m.aborting,
        !m.config.has_graceful_shutdown_timeout,
        can_run(m, events),
    ensures
        aborted(m, events).is_empty(),
        fates(m, events).1.is_empty(),
    decreases events.len(),
{
    if events.len() > 0 {
        let event = events[0];
        let (m2, r) = m.next(event);
        law_step_keeps_invariant(m, event);
        lemma_nothing_aborted_without_graceful_timeout(m2, events.drop_first());
        assert(r.abort =~= Set::empty());
        assert(r.left_dangling =~= Set::empty());
        assert(aborted(m, events) =~= Set::empty());
        assert(fates(m, events).1 =~= Set::empty());
    }
}

/// Without a graceful shutdown timeout, the managing task never aborts a
/// task and never leaves one dangling, whatever happens: the task abort
/// timeout then has no effect, and every task is waited for.
pub proof fn law_no_abort_without_graceful_timeout(
    config: ManagerConfig,
    events: Seq<ManagerEvent>,
)
    requires
        !config.has_graceful_shutdown_timeout,
        can_run(ManagerModel::initial(config), events),
    ensures
        aborted(ManagerModel::initial(config), events).is_empty(),
        fates(ManagerModel::initial(config), events).1.is_empty(),
{
    lemma_nothing_aborted_without_graceful_timeout(ManagerModel::initial(config), events);
}

/// Whether `event` closes the task channel, or is the end of a task running
/// in `m`.
pub open spec fn closes_or_finishes_running(m: ManagerModel, event: ManagerEvent) -> bool {
    match event {
        ManagerEvent::TaskChannelClosed => true,
        ManagerEvent::TaskFinished { id, .. } => m.live.contains(id),
        _ => false,
    }
}

/// Once no task can arrive any more and every running task finishes, the
/// managing task exits: from any consistent state in which it has not
/// exited, closing the task channel (if it is still open) and then finishing
/// its running tasks one by one is a run it waits on, and that run ends with
/// it exited. This is what lets joining all tasks return.
pub proof fn law_exit_is_reachable(m: ManagerModel) -> (events: Seq<ManagerEvent>)
    requires
        m.inv(),
        !m.exited,
    ensures
        can_run(m, events),
        run(m, events).exited,
        forall|i: int| 0 <= i < events.len() ==> closes_or_finishes_running(m, #[trigger] events[i]),
    decreases m.live.len(), if m.channel_closed { 0int } else { 1int },
{
    let event = if !m.channel_closed {
        ManagerEvent::TaskChannelClosed
    } else {
        let id = m.live.choose();
        assert(m.live.contains(id)) by {
            if !m.live.contains(id) {
                assert(m.live =~= Set::empty());
            }
        }
        ManagerEvent::TaskFinished { id, errored: false, already_shutting_down: false }
    };
    assert(m.enabled(event));
    let m2 = m.next(event).0;
    law_step_keeps_invariant(m, event);
    if m2.exited {
        let events = seq![event];
        assert(events[0] == event);
        assert(events.drop_first() =~= Seq::<ManagerEvent>::empty());
        assert(run(m2, events.drop_first()) == m2);
        assert(can_run(m2, events.drop_first()));
        events
    } else {
        if let ManagerEvent::TaskFinished { id, .. } = event {
            assert(m2.live.len() < m.live.len());
        }
        let rest = law_exit_is_reachable(m2);
        let events = seq![event] + rest;
        assert(events[0] == event);
        assert(events.drop_first() =~= rest);
        assert(events.len() > 0);
        assert forall|i: int| 0 <= i < events.len() implies closes_or_finishes_running(
            m,
            #[trigger] events[i],
        ) by {
            if i > 0 {
                assert(events[i] == rest[i - 1]);
                if let ManagerEvent::TaskFinished { id, .. } = rest[i - 1] {
                    assert(m2.live.contains(id));
                }
            }
        }
        events
    }
}

/// Whether the managing task waits on the graceful shutdown timeout does not
/// depend on the task channel: a shutdown closes the channel, and the
/// timeout must still run then. It is waited on exactly while the managing
/// task runs, is not aborting yet, and a graceful timeout is set.
pub proof fn law_graceful_timeout_ignores_the_channel(m: ManagerModel, closed: bool)
    ensures
        (ManagerModel { channel_closed: closed, ..m }).enabled(
            ManagerEvent::GracefulShutdownTimeout,
        ) == m.enabled(ManagerEvent::GracefulShutdownTimeout),
        m.enabled(ManagerEvent::GracefulShutdownTimeout) == (!m.exited && !m.aborting
            && m.config.has_graceful_shutdown_timeout),
{
}

/// With a graceful timeout set, a shutdown that closes the task channel
/// while tasks still run leaves the managing task waiting on that timeout,
/// and when it runs out every task still running is told to abort.
pub proof fn law_running_tasks_abort_after_graceful_timeout(m: ManagerModel)
    requires
        m.inv(),
        m.config.has_graceful_shutdown_timeout,
        !m.aborting,
        !m.channel_closed,
        !m.live.is_empty(),
    ensures
        ({
            let m2 = m.next(ManagerEvent::TaskChannelClosed).0;
            &&& m.enabled(ManagerEvent::TaskChannelClosed)
            &&& !m2.exited
            &&& m2.enabled(ManagerEvent::GracefulShutdownTimeout)
            &&& m2.next(ManagerEvent::GracefulShutdownTimeout).1.abort == m.live
            &&& m2.next(ManagerEvent::GracefulShutdownTimeout).0.aborting
        }),
{
}

/// No task is told to abort unless the graceful shutdown timeout has run
/// out: a reaction aborts tasks only on that timeout, or while the managing
/// task is already aborting. In particular a task that arrives while it is
/// not aborting runs on.
pub proof fn law_abort_only_after_graceful_timeout(m: ManagerModel, event: ManagerEvent)
    requires
        m.inv(),
        m.enabled(event),
    ensures
        !m.next(event).1.abort.is_empty() ==> (event is GracefulShutdownTimeout || m.aborting),
        !m.aborting ==> m.next(ManagerEvent::TaskReceived).1.abort.is_empty(),
        !m.aborting && m.next(event).0.aborting ==> event is GracefulShutdownTimeout,
{
    let r = m.next(event).1;
    if !(event is GracefulShutdownTimeout || m.aborting) {
        assert(r.abort =~= Set::empty());
    }
    if !m.aborting {
        assert(m.next(ManagerEvent::TaskReceived).1.abort =~= Set::empty());
    }
}

/// Ctrl+C only starts a shutdown: the state stays as it was (the managing
/// task does not start aborting, and keeps waiting on what it waited on),
/// no task is told to abort or left dangling, and it does not exit.
pub proof fn law_stop_signal_only_starts_a_shutdown(m: ManagerModel, other: ManagerEvent)
    requires
        m.inv(),
        m.enabled(ManagerEvent::StopSignal),
    ensures
        ({
            let (m2, r) = m.next(ManagerEvent::StopSignal);
            &&& r.start_shutdown
            &&& r.abort.is_empty() && r.left_dangling.is_empty()
            &&& !r.exit && r.registered is None && !r.report_error
            &&& m2.aborting == m.aborting && m2.live == m.live && m2.exited == m.exited
            &&& m2.channel_closed == m.channel_closed && m2.next_id == m.next_id
            &&& m2.enabled(other) == m.enabled(other)
        }),
{
    let (m2, r) = m.next(ManagerEvent::StopSignal);
    assert(r.abort =~= Set::empty());
    assert(r.left_dangling =~= Set::empty());
}

/// The managing task's settings follow each builder setting on its own:
/// whether the graceful timeout is waited on depends only on the graceful
/// shutdown timeout, whether the abort timeout is waited on only on the task
/// abort timeout, and the two flags only on themselves.
pub proof fn law_config_follows_each_setting(
    settings: BuilderSettings,
    graceful_shutdown_timeout: Option<std::time::Duration>,
    task_abort_timeout: Option<std::time::Duration>,
    catch_signals: bool,
    shutdown_if_a_task_errors: bool,
)
    ensures
        ({
            let config = ManagerConfig::from_settings(settings);
            &&& config.has_graceful_shutdown_timeout == (settings.graceful_shutdown_timeout is Some)
            &&& config.has_task_abort_timeout == (settings.task_abort_timeout is Some)
            &&& config.catch_signals == settings.catch_signals
            &&& config.shutdown_if_a_task_errors == settings.shutdown_if_a_task_errors
            &&& ManagerConfig::from_settings(
                (BuilderSettings { task_abort_timeout, catch_signals, shutdown_if_a_task_errors, ..settings }),
            ).has_graceful_shutdown_timeout == config.has_graceful_shutdown_timeout
            &&& ManagerConfig::from_settings(
                (BuilderSettings { graceful_shutdown_timeout, catch_signals, shutdown_if_a_task_errors, ..settings }),
            ).has_task_abort_timeout == config.has_task_abort_timeout
        }),
{
}

/// A set built with a graceful shutdown timeout waits on it from the start,
/// whatever the abort timeout is; one built without never does.
pub proof fn law_fresh_manager_waits_on_graceful_timeout_iff_set(settings: BuilderSettings)
    ensures
        ManagerModel::initial(ManagerConfig::from_settings(settings)).enabled(
            ManagerEvent::GracefulShutdownTimeout,
        ) == (settings.graceful_shutdown_timeout is Some),
{
}

} // verus!
