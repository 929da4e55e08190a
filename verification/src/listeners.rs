use vstd::prelude::*;

verus! {

/// How a server task ended: with its own result (its error as text), or
/// without one because the task itself failed.
pub enum TaskEnd<T> {
    Returned(Result<T, String>),
    Aborted,
}

/// The result of a server task: its own, or `handling failed` when the task
/// did not return.
pub fn flatten<T>(end: TaskEnd<T>) -> (r: Result<T, String>)
    ensures
        match end {
            TaskEnd::Returned(res) => r == res,
            TaskEnd::Aborted => r matches Err(m) && m@ == "handling failed"@,
        },
{
    match end {
        TaskEnd::Returned(res) => res,
        TaskEnd::Aborted => Err("handling failed".to_owned()),
    }
}

/// What is left to do once both listeners stopped.
#[derive(Debug, Clone, PartialEq, Eq)]
pub enum ServeEnd {
    /// Both stopped cleanly: remove the socket file.
    RemoveSocket,
    /// One failed; the TCP listener's error is the one reported when both
    /// did.
    Failed(String),
}

/// Decides how serving ends from how the TCP and the Unix-socket listener
/// ended.
pub fn serve_outcome(tcp: Result<(), String>, unix: Result<(), String>) -> (r: ServeEnd)
    ensures
        match (tcp, unix) {
            (Ok(_), Ok(_)) => r == ServeEnd::RemoveSocket,
            (Err(e), _) => r == ServeEnd::Failed(e),
            (Ok(_), Err(e)) => r == ServeEnd::Failed(e),
        },
{
    match (tcp, unix) {
        (Ok(_), Ok(_)) => ServeEnd::RemoveSocket,
        (Err(e), _) => ServeEnd::Failed(e),
        (Ok(_), Err(e)) => ServeEnd::Failed(e),
    }
}

} // verus!
