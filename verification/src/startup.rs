//! Startup decisions taken before the runtime loop begins: the resource
//! locator must validate, and the bounded background worker pool must come up
//! exactly once; either failure is fatal and aborts before any terminal
//! mutation or application state exists.

use vstd::prelude::*;

verus! {

/// Size of the process-wide background worker pool.
pub const WORKER_POOL_SIZE: usize = 4;

/// A fatal startup failure; each aborts the process before the loop starts.
pub enum StartupError {
    /// The resource locator did not validate; carries the checker's message.
    InvalidPath(Vec<u8>),
    /// The global worker pool could not be initialized.
    WorkerPool,
    /// No home directory is available for the window title.
    MissingHome,
}

/// Relies on rayon_core::ThreadPoolBuilder (new, num_threads, build_global):
/// installs the process-global worker pool with the given number of threads;
/// reports an error if the pool was already installed or the threads could
/// not be created.
#[verifier::external_body]
fn build_global_pool(threads: usize) -> (r: Result<(), ()>) {
    rayon_core::ThreadPoolBuilder::new()
        .num_threads(threads)
        .build_global()
        .map_err(|_| ())
}

/// Initializes the bounded worker pool, once per process, before the loop.
/// There is no retry: a pool that cannot be created once is assumed
/// systemically broken.
pub fn init_worker_pool() -> (r: Result<(), StartupError>)
    ensures
        r matches Err(e) ==> e == StartupError::WorkerPool,
{
    match build_global_pool(WORKER_POOL_SIZE) {
        Ok(()) => Ok(()),
        Err(()) => Err(StartupError::WorkerPool),
    }
}

/// Turns the resource validity checker's verdict into the startup decision:
/// no reported error means startup proceeds; a reported error is fatal and
/// is carried out for logging before the abort.
pub fn ensure_valid_path(verdict: Option<Vec<u8>>) -> (r: Result<(), StartupError>)
    ensures
        verdict is None ==> r is Ok,
        verdict matches Some(m) ==> r == Err::<(), StartupError>(StartupError::InvalidPath(m)),
{
    match verdict {
        Some(m) => Err(StartupError::InvalidPath(m)),
        None => Ok(()),
    }
}

} // verus!
