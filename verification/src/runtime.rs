//! The one thing asked of the surrounding runtime: to run a future to its end,
//! beside the caller.

use vstd::prelude::*;
use std::future::Future;

verus! {

/// `smol::Task` (async-task's `Task`): the handle on a spawned future. It is
/// carried through, never looked into.
#[verifier::external_type_specification]
#[verifier::external_body]
#[verifier::reject_recursive_types(T)]
#[verifier::reject_recursive_types(M)]
pub struct ExTask<T, M>(smol::Task<T, M>);

/// `smol::spawn`: the future is handed to smol's global executor, which polls
/// it to completion in the background. The call returns at once, with the
/// task that stands for the running future. Nothing is claimed of the task:
/// what the future does happens elsewhere. (On first use smol starts its
/// executor thread, and panics if the system refuses the thread.)
#[verifier::external_body]
pub(crate) fn spawn_task<T, Fut>(future: Fut) -> (task: smol::Task<T>) where
    T: Send + 'static,
    Fut: Future<Output = T> + Send + 'static,
 {
    smol::spawn(future)
}

/// `Task::detach` of smol (async-task): lets the task go, so that the future
/// keeps running in the background and its output is dropped.
#[verifier::external_body]
pub(crate) fn detach_task<T>(task: smol::Task<T>) {
    task.detach()
}

/// The runtime was handed `future` to run, and gave `task` to stand for it.
pub closed spec fn spawned<T, Fut>(future: Fut, task: smol::Task<T>) -> bool where
    T: Send + 'static,
    Fut: Future<Output = T> + Send + 'static,
 {
    call_ensures(spawn_task::<T, Fut>, (future,), task)
}

/// The runtime was handed `future` to run, and the task that stands for it
/// was let go: the future runs to its end beside the caller, detached.
pub closed spec fn handed_over<T, Fut>(future: Fut) -> bool where
    T: Send + 'static,
    Fut: Future<Output = T> + Send + 'static,
 {
    exists|task: smol::Task<T>|
        call_ensures(spawn_task::<T, Fut>, (future,), task) && call_ensures(
            detach_task::<T>,
            (task,),
            (),
        )
}

/// Has the runtime run the future, and keeps the task that stands for it.
pub(crate) fn spawn<T, Fut>(future: Fut) -> (task: smol::Task<T>) where
    T: Send + 'static,
    Fut: Future<Output = T> + Send + 'static,

    ensures
        spawned::<T, Fut>(future, task),
{
    spawn_task(future)
}

/// Runs the future to its end beside the caller and detached from it.
pub(crate) fn detach<T, Fut>(future: Fut) where
    T: Send + 'static,
    Fut: Future<Output = T> + Send + 'static,

    ensures
        handed_over::<T, Fut>(future),
{
    let task = spawn_task(future);
    detach_task(task)
}

} // verus!
