//! The worker pool that downloads files: how many workers it starts, what
//! a worker does with each message, and how the pool is shut down.

use vstd::prelude::*;
use crate::config::FtpAttributes;

verus! {

/// Refusal to build a pool without workers.
#[derive(Debug, Clone, Copy)]
pub struct PoolCreationError;

/// The text of a `PoolCreationError`.
pub open spec fn pool_creation_error_text() -> Seq<char> {
    "El tamaño de un pool debe ser mayor a cero"@
}

impl PoolCreationError {
    /// The error as shown to the user.
    pub fn message(&self) -> (r: String)
        ensures
            r@ == pool_creation_error_text(),
    {
        String::from_str("El tamaño de un pool debe ser mayor a cero")
    }
}

/// What the pool hands to its workers: a job to run, or the order to stop.
pub enum Message<J> {
    NewJob(J),
    Terminate,
}

/// What a worker does after receiving a message.
pub enum WorkerStep<J> {
    /// Run this job, then wait for the next message.
    Run(J),
    /// Leave the receive loop.
    Stop,
}

/// One worker of the pool, known by its number.
pub struct Worker {
    pub id: usize,
}

/// The step a worker takes on `message`.
pub open spec fn step_for<J>(message: Message<J>) -> WorkerStep<J> {
    match message {
        Message::NewJob(job) => WorkerStep::Run(job),
        Message::Terminate => WorkerStep::Stop,
    }
}

impl Worker {
    pub fn new(id: usize) -> (w: Worker)
        ensures
            w.id == id,
    {
        Worker { id }
    }

    /// The worker's reaction to a message: a job is run, `Terminate` ends
    /// the worker.
    pub fn next_step<J>(&self, message: Message<J>) -> (step: WorkerStep<J>)
        ensures
            step == step_for(message),
    {
        match message {
            Message::NewJob(job) => WorkerStep::Run(job),
            Message::Terminate => WorkerStep::Stop,
        }
    }
}

/// A pool of workers numbered from zero, all connecting with the same
/// FTP attributes.
pub struct ThreadPool {
    pub workers: Vec<Worker>,
    pub ftp_attrs: FtpAttributes,
}

impl View for ThreadPool {
    /// The numbers of the workers, in order.
    type V = Seq<int>;

    open spec fn view(&self) -> Seq<int> {
        self.workers@.map_values(|w: Worker| w.id as int)
    }
}

/// The worker numbers of a pool of `size` workers.
pub open spec fn worker_numbers(size: nat) -> Seq<int> {
    Seq::new(size, |i: int| i)
}

impl ThreadPool {
    /// A pool of `size` workers numbered `0..size`; refused when `size` is zero.
    pub fn new(size: usize, ftp_attrs: FtpAttributes) -> (r: Result<ThreadPool, PoolCreationError>)
        ensures
            r is Err <==> size == 0,
            r matches Ok(pool) ==> pool@ == worker_numbers(size as nat) && pool.ftp_attrs
                == ftp_attrs,
    {
        if size == 0 {
            return Err(PoolCreationError);
        }
        let mut workers: Vec<Worker> = Vec::with_capacity(size);
        let mut id: usize = 0;
        while id < size
            invariant
                id <= size,
                workers.len() == id,
                forall|k: int| 0 <= k < id ==> #[trigger] workers@[k].id == k,
            decreases size - id,
        {
            workers.push(Worker::new(id));
            id = id + 1;
        }
        assert(workers@.map_values(|w: Worker| w.id as int) =~= worker_numbers(size as nat));
        Ok(ThreadPool { workers, ftp_attrs })
    }

    /// The number of workers.
    pub fn size(&self) -> (n: usize)
        ensures
            n == self@.len(),
    {
        self.workers.len()
    }

    /// The message that hands `job` to the next free worker.
    pub fn execute<J>(&self, job: J) -> (m: Message<J>)
        ensures
            m == Message::NewJob(job),
    {
        Message::NewJob(job)
    }

    /// The messages sent when the pool is dropped: one `Terminate` per worker.
    pub fn shutdown_messages<J>(&self) -> (ms: Vec<Message<J>>)
        ensures
            ms.len() == self@.len(),
            forall|i: int| 0 <= i < ms.len() ==> ms@[i] is Terminate,
    {
        let n = self.workers.len();
        let mut ms: Vec<Message<J>> = Vec::with_capacity(n);
        let mut i: usize = 0;
        while i < n
            invariant
                i <= n,
                n == self@.len(),
                ms.len() == i,
                forall|k: int| 0 <= k < ms.len() ==> ms@[k] is Terminate,
            decreases n - i,
        {
            ms.push(Message::Terminate);
            i = i + 1;
        }
        ms
    }
}

/// Law: dropping a pool stops every worker. The shutdown messages of a
/// pool of `size` workers, as `shutdown_messages` describes them, are one
/// per worker, and each one makes the worker that takes it stop.
pub proof fn law_shutdown_stops_every_worker<J>(size: nat, messages: Seq<Message<J>>)
    requires
        messages.len() == size,
        forall|i: int| 0 <= i < messages.len() ==> messages[i] is Terminate,
    ensures
        messages.len() == worker_numbers(size).len(),
        forall|i: int| 0 <= i < messages.len() ==> step_for(#[trigger] messages[i]) is Stop,
{
}

/// Law: the workers of a pool of `size` are numbered `0..size`, each once.
pub proof fn law_pool_workers_distinct(size: nat, i: int, j: int)
    requires
        0 <= i < size,
        0 <= j < size,
        i != j,
    ensures
        worker_numbers(size).len() == size,
        worker_numbers(size)[i] != worker_numbers(size)[j],
        0 <= worker_numbers(size)[i] < size,
{
}

} // verus!
