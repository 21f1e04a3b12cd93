//! A process that is created from a definition and can be started once.

use vstd::prelude::*;
use std::future::Future;
use crate::runtime::{spawn, spawned};

verus! {

/// The body of a process: a future that the runtime drives to its end.
pub struct AsyncProc<Fut> {
    fut: Fut,
}

impl<Fut> AsyncProc<Fut> where Fut: Future + Send + 'static {
    /// The future that is the body.
    pub closed spec fn future(&self) -> Fut {
        self.fut
    }

    pub fn new(fut: Fut) -> (body: Self)
        ensures
            body.future() == fut,
    {
        Self { fut }
    }

    /// The future, for whoever runs it.
    pub fn into_future(self) -> (fut: Fut)
        ensures
            fut == self.future(),
    {
        self.fut
    }
}

/// A definition of a process: whatever can be turned into a body.
pub trait ProcDef: Sized {
    type Output: Send + 'static;

    type Body: Future<Output = Self::Output> + Send + 'static;

    fn proc(self) -> AsyncProc<Self::Body>;
}

/// A start was asked for that could not be granted.
#[derive(PartialEq, Eq, Copy, Clone, Debug, Structural)]
pub enum StartError {
    /// The process has been started before.
    AlreadyRun,
}

/// Where a process is in its life.
pub enum State<TProcDef: ProcDef> {
    /// Created, and not started: the definition is still here.
    Init { proc_def: TProcDef },
    Starting,
    /// Started: the body is with the runtime, and this is the task that
    /// stands for it. The body is cancelled when the task is dropped.
    Running { task: smol::Task<TProcDef::Output> },
    /// A second start was asked for and refused.
    Done { result: Result<(), StartError> },
}

/// A process made from a definition.
pub struct Proc<TProcDef: ProcDef> {
    state: State<TProcDef>,
}

impl<TProcDef: ProcDef + Default> Default for Proc<TProcDef> {
    /// A process from the default definition, not started.
    fn default() -> (process: Self)
        ensures
            exists|proc_def: TProcDef|
                call_ensures(TProcDef::default, (), proc_def) && process.state() == (
                State::<TProcDef>::Init { proc_def }),
    {
        Proc::new(TProcDef::default())
    }
}

impl<TProcDef: ProcDef> Proc<TProcDef> {
    /// Where the process is in its life.
    pub closed spec fn state(&self) -> State<TProcDef> {
        self.state
    }

    /// Creates a new Proc from a ProcDef
    pub fn new(proc_def: TProcDef) -> (process: Self)
        ensures
            process.state() == (State::Init { proc_def }),
    {
        Self { state: State::Init { proc_def } }
    }

    /// Whether the process has yet to be started.
    pub fn is_init(&self) -> (r: bool)
        ensures
            r == self.state() is Init,
    {
        match self.state {
            State::Init { .. } => true,
            _ => false,
        }
    }

    /// Starts the Proc: a process that was never started turns its definition
    /// into a body, hands the body to the runtime and is `Running`. Any other
    /// process is `Done` with the error, and the start fails; a body that was
    /// running is given up with its task.
    pub fn start(&mut self) -> (result: Result<(), StartError>)
        ensures
            old(self).state() matches State::Init { proc_def } ==> {
                &&& result is Ok
                &&& exists|body: AsyncProc<TProcDef::Body>, task: smol::Task<TProcDef::Output>|
                    {
                        &&& call_ensures(TProcDef::proc, (proc_def,), body)
                        &&& spawned::<TProcDef::Output, TProcDef::Body>(body.future(), task)
                        &&& final(self).state() == (State::<TProcDef>::Running { task })
                    }
            },
            !(old(self).state() is Init) ==> {
                &&& result == Err::<(), StartError>(StartError::AlreadyRun)
                &&& final(self).state() == (State::<TProcDef>::Done { result })
            },
    {
        let mut state = State::Starting;
        std::mem::swap(&mut self.state, &mut state);
        match state {
            State::Init { proc_def } => {
                let body = proc_def.proc();
                let task = spawn(body.into_future());
                self.state = State::Running { task };
                Ok(())
            },
            _ => {
                self.state = State::Done { result: Err(StartError::AlreadyRun) };
                Err(StartError::AlreadyRun)
            },
        }
    }
}

} // verus!
