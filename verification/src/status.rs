use vstd::prelude::*;

verus! {

/// Reads the status that a System V or socket call returns: `-1` reports a failure (the
/// cause is then in `errno`), any other value is the identifier or descriptor it created.
pub fn checked_id(status: i32) -> (id: Option<i32>)
    ensures
        id == (if status == -1 {
            None
        } else {
            Some(status)
        }),
{
    if status == -1 {
        None
    } else {
        Some(status)
    }
}

/// Reads a status of which `0` alone means success (pthread, POSIX semaphore, `semctl`,
/// `shmdt`, `shmctl`, `connect`, `listen`, `pipe`).
pub fn succeeded(status: i32) -> (ok: bool)
    ensures
        ok == (status == 0),
{
    status == 0
}

/// Reads a status of which `-1` alone means failure (`msgsnd`, `msgrcv`, `dup2`, `bind`,
/// `fcntl`, and `semop` when waiting).
pub fn failed(status: i32) -> (failure: bool)
    ensures
        failure == (status == -1),
{
    status == -1
}

/// Reads the address that `shmat` or `mmap` returns: the all-ones address
/// (`(void *) -1`, `MAP_FAILED`) reports a failure.
pub fn address_failed(address: usize) -> (failure: bool)
    ensures
        failure == (address == usize::MAX),
{
    address == usize::MAX
}

/// Which process runs on after `fork`.
pub enum ForkRole {
    /// No child was created.
    Failed,
    /// This is the new child.
    Child,
    /// This is the parent; the child has this process id.
    Parent(i32),
}

/// Reads what `fork` returned.
pub fn fork_role(pid: i32) -> (role: ForkRole)
    ensures
        role == (if pid == -1 {
            ForkRole::Failed
        } else if pid == 0 {
            ForkRole::Child
        } else {
            ForkRole::Parent(pid)
        }),
{
    if pid == -1 {
        ForkRole::Failed
    } else if pid == 0 {
        ForkRole::Child
    } else {
        ForkRole::Parent(pid)
    }
}

/// What the server does after a non-blocking `accept`.
pub enum AcceptOutcome {
    /// A client connected on this descriptor: the state is to be written to it.
    Connected(i32),
    /// No client is waiting: nothing is to be done this round.
    NoClient,
    /// `accept` failed for another reason, with this `errno` code.
    Failed(i32),
}

/// Reads what a non-blocking `accept` returned, with the `errno` code read after it
/// and the two codes by which the system says that no client is waiting
/// (`EAGAIN` and `EWOULDBLOCK`).
pub fn accept_outcome(connection: i32, errno_code: i32, eagain: i32, ewouldblock: i32) -> (outcome:
    AcceptOutcome)
    ensures
        outcome == (if connection != -1 {
            AcceptOutcome::Connected(connection)
        } else if errno_code == eagain || errno_code == ewouldblock {
            AcceptOutcome::NoClient
        } else {
            AcceptOutcome::Failed(errno_code)
        }),
{
    if connection != -1 {
        AcceptOutcome::Connected(connection)
    } else if errno_code == eagain || errno_code == ewouldblock {
        AcceptOutcome::NoClient
    } else {
        AcceptOutcome::Failed(errno_code)
    }
}

/// How many load averages are asked of `getloadavg`: over 1, 5 and 15 minutes.
pub const LOADAVG_SAMPLES: i32 = 3;

/// Reads what `getloadavg` returned when asked for three samples: `-1` is a failure,
/// otherwise all three samples were written.
pub fn loadavg_samples(status: i32) -> (samples: Option<usize>)
    requires
        status == -1 || status == LOADAVG_SAMPLES,
    ensures
        samples == (if status == -1 {
            None::<usize>
        } else {
            Some(3usize)
        }),
{
    if status == -1 {
        None
    } else {
        Some(3)
    }
}

} // verus!
