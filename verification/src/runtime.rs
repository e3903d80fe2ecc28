use vstd::prelude::*;

verus! {

#[verifier::external_type_specification]
#[verifier::external_body]
pub struct ExRuntime(tokio::runtime::Runtime);

/// Relies on tokio::runtime::Runtime::new: a multithreaded task scheduler
/// with a worker thread pool; creation fails only when the operating system
/// refuses the resources.
#[verifier::external_body]
fn new_multithread_runtime() -> (r: Option<tokio::runtime::Runtime>)
{
    tokio::runtime::Runtime::new().ok()
}

/// Owns one multithreaded asynchronous execution engine, on which every
/// request of every client context bound to it runs. Created and disposed
/// explicitly by the caller, and it must outlive every such client context.
pub struct YahaNativeRuntimeContext {
    pub runtime: tokio::runtime::Runtime,
}

impl YahaNativeRuntimeContext {
    /// Create the execution engine; None when the operating system refuses
    /// the resources. Nothing is observable of it besides thread-pool
    /// creation.
    pub fn init() -> (r: Option<Self>)
    {
        match new_multithread_runtime() {
            Some(runtime) => Some(YahaNativeRuntimeContext { runtime }),
            None => None,
        }
    }

    /// The engine, for spawning dispatch tasks on.
    pub fn runtime(&self) -> &tokio::runtime::Runtime
    {
        &self.runtime
    }

    /// Shut the execution engine down. Tasks still running on it are cut
    /// short; driving a request past its runtime's disposal is a caller
    /// error.
    pub fn dispose(self)
    {
    }
}

} // verus!
