use crate::record::{DoneConf, DoneConfView};
use vstd::prelude::*;

verus! {

/// Why a transition was refused. The record is left as it was.
#[derive(Clone, Debug, PartialEq, Eq)]
pub enum TaskError {
    /// A task is already in progress; it carries that task's name.
    AlreadyStarted(String),
    /// No task is in progress.
    NothingStarted,
}

pub enum TaskErrorView {
    AlreadyStarted(Seq<char>),
    NothingStarted,
}

impl View for TaskError {
    type V = TaskErrorView;

    open spec fn view(&self) -> TaskErrorView {
        match self {
            TaskError::AlreadyStarted(s) => TaskErrorView::AlreadyStarted(s@),
            TaskError::NothingStarted => TaskErrorView::NothingStarted,
        }
    }
}

/// A transition that changes the record.
pub enum Action {
    Start(Seq<char>),
    Finish,
    Abandon,
}

/// What a transition does to a record: the new record, or why it is refused.
pub open spec fn apply(c: DoneConfView, a: Action) -> Result<DoneConfView, TaskErrorView> {
    match a {
        Action::Start(name) => match c.started {
            Some(cur) => Err(TaskErrorView::AlreadyStarted(cur)),
            None => Ok(DoneConfView { started: Some(name), ..c }),
        },
        Action::Finish => match c.started {
            Some(cur) => Ok(DoneConfView { started: None, done: c.done.push(cur), ..c }),
            None => Err(TaskErrorView::NothingStarted),
        },
        Action::Abandon => match c.started {
            Some(_) => Ok(DoneConfView { started: None, ..c }),
            None => Err(TaskErrorView::NothingStarted),
        },
    }
}

/// The record after `a`: the new record when `a` is accepted, the same record
/// when it is refused.
pub open spec fn after(c: DoneConfView, a: Action) -> DoneConfView {
    match apply(c, a) {
        Ok(n) => n,
        Err(_) => c,
    }
}

/// How many of `acts`, applied in turn from `c`, are starts that succeed.
pub open spec fn starts_succeeded(c: DoneConfView, acts: Seq<Action>) -> nat
    decreases acts.len(),
{
    if acts.len() == 0 {
        0
    } else {
        let here: nat = if acts[0] is Start && apply(c, acts[0]) is Ok {
            1
        } else {
            0
        };
        here + starts_succeeded(after(c, acts[0]), acts.drop_first())
    }
}

/// The record after `acts`, applied in turn from `c`.
pub open spec fn run(c: DoneConfView, acts: Seq<Action>) -> DoneConfView
    decreases acts.len(),
{
    if acts.len() == 0 {
        c
    } else {
        run(after(c, acts[0]), acts.drop_first())
    }
}

/// Only one task can be in progress: in a run of starts with no finish and
/// no abandon, at most one succeeds. From a record with nothing in progress
/// exactly the first succeeds and its task stays in progress; while a task is
/// in progress none succeeds and the record is left as it was.
pub proof fn lemma_one_start_until_released(c: DoneConfView, acts: Seq<Action>)
    requires
        forall|i: int| 0 <= i < acts.len() ==> #[trigger] acts[i] is Start,
    ensures
        starts_succeeded(c, acts) <= 1,
        c.started is Some ==> starts_succeeded(c, acts) == 0 && run(c, acts) == c,
        c.started is None && acts.len() > 0 ==> starts_succeeded(c, acts) == 1
            && run(c, acts).started == Some(acts[0]->Start_0),
    decreases acts.len(),
{
    if acts.len() > 0 {
        let rest = acts.drop_first();
        assert forall|i: int| 0 <= i < rest.len() implies #[trigger] rest[i] is Start by {
            assert(rest[i] == acts[i + 1]);
        }
        assert(acts[0] is Start);
        lemma_one_start_until_released(after(c, acts[0]), rest);
    }
}

/// Starting a task on a record with nothing in progress and then finishing
/// it appends that task, once, to the finished list and leaves nothing in
/// progress.
pub proof fn lemma_start_then_finish(c: DoneConfView, name: Seq<char>)
    requires
        c.started is None,
    ensures
        apply(c, Action::Start(name)) is Ok,
        apply(apply(c, Action::Start(name))->Ok_0, Action::Finish) == Ok::<
            DoneConfView,
            TaskErrorView,
        >(DoneConfView { started: None, done: c.done.push(name), date: c.date }),
{
}

/// Abandoning never changes the finished list or the date; it succeeds
/// exactly when a task is in progress, and leaves none.
pub proof fn lemma_abandon_keeps_done(c: DoneConfView)
    ensures
        apply(c, Action::Abandon) is Ok <==> c.started is Some,
        apply(c, Action::Abandon) matches Ok(n) ==> n.done == c.done && n.date == c.date
            && n.started is None,
{
}

/// Begins the task `name`, unless one is already in progress. Any name is
/// accepted, the empty one included.
pub fn start_task(name: String, config: &mut DoneConf) -> (r: Result<(), TaskError>)
    ensures
        r is Ok <==> apply(old(config)@, Action::Start(name@)) is Ok,
        r is Ok ==> final(config)@ == apply(old(config)@, Action::Start(name@))->Ok_0,
        r is Err ==> r->Err_0@ == apply(old(config)@, Action::Start(name@))->Err_0,
        r is Err ==> *final(config) == *old(config),
{
    match &config.started {
        Some(task) => Err(TaskError::AlreadyStarted(task.clone())),
        None => {
            config.started = Some(name);
            Ok(())
        },
    }
}

/// Moves the task in progress to the end of the finished list.
pub fn finish_task(config: &mut DoneConf) -> (r: Result<(), TaskError>)
    ensures
        r is Ok <==> apply(old(config)@, Action::Finish) is Ok,
        r is Ok ==> final(config)@ == apply(old(config)@, Action::Finish)->Ok_0,
        r is Err ==> r->Err_0@ == apply(old(config)@, Action::Finish)->Err_0,
        r is Err ==> *final(config) == *old(config),
{
    match config.started.take() {
        None => Err(TaskError::NothingStarted),
        Some(task) => {
            config.done.push(task);
            proof {
                assert(config@.done =~= old(config)@.done.push(task@));
            }
            Ok(())
        },
    }
}

/// Drops the task in progress without recording it as finished.
pub fn abadon_task(config: &mut DoneConf) -> (r: Result<(), TaskError>)
    ensures
        r is Ok <==> apply(old(config)@, Action::Abandon) is Ok,
        r is Ok ==> final(config)@ == apply(old(config)@, Action::Abandon)->Ok_0,
        r is Err ==> r->Err_0@ == apply(old(config)@, Action::Abandon)->Err_0,
        r is Err ==> *final(config) == *old(config),
{
    match config.started {
        Some(..) => {
            config.started = None;
            Ok(())
        },
        None => Err(TaskError::NothingStarted),
    }
}

/// The finished tasks in the order they were finished, or `None` when there
/// are none.
pub fn list_tasks(config: &DoneConf) -> (r: Option<&Vec<String>>)
    ensures
        r is None <==> config.done@.len() == 0,
        r matches Some(v) ==> v@ == config.done@,
{
    if config.done.is_empty() {
        None
    } else {
        Some(&config.done)
    }
}

} // verus!
