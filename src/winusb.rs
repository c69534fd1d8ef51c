use vstd::prelude::*;
use crate::error::IoError;
use crate::setup::ERROR_NO_MORE_ITEMS;

verus! {

/// Error code of an overlapped request that was queued and has not completed.
pub const ERROR_IO_PENDING: u32 = 997;

/// Error code of a completion check on a request that is still running.
pub const ERROR_IO_INCOMPLETE: u32 = 996;

/// The two system resources that an open connection owns: the file handle
/// of the device path and the interface object bound to it.
#[derive(Debug, Clone, Copy, PartialEq, Eq, Structural)]
pub enum Resource {
    File,
    Interface,
}

/// What opening a device has acquired, in order: the file handle when the
/// path opened, then the interface when its initialisation succeeded.
pub open spec fn acquired(file_error: Option<u32>, init_error: Option<u32>) -> Seq<Resource> {
    if file_error is Some {
        Seq::empty()
    } else if init_error is Some {
        seq![Resource::File]
    } else {
        seq![Resource::File, Resource::Interface]
    }
}

/// The error that ends an attempt to open a device, if any.
pub open spec fn open_error(file_error: Option<u32>, init_error: Option<u32>) -> Option<IoError> {
    match file_error {
        Some(c) => Some(IoError { code: c }),
        None => match init_error {
            Some(c) => Some(IoError { code: c }),
            None => None,
        },
    }
}

/// What a failed attempt releases before it returns its error: the file
/// handle, when the path opened but the interface could not be initialised.
pub open spec fn released_on_open(file_error: Option<u32>, init_error: Option<u32>) -> Seq<
    Resource,
> {
    if file_error is None && init_error is Some {
        seq![Resource::File]
    } else {
        Seq::empty()
    }
}

/// What dropping an open connection releases, in order.
pub open spec fn released_on_drop() -> Seq<Resource> {
    seq![Resource::Interface, Resource::File]
}

/// The outcome of opening a device: the connection, or the error that ends
/// the attempt together with the resources to release before returning it.
#[derive(Debug, Clone, PartialEq, Eq)]
pub enum OpenOutcome {
    Opened,
    Failed { error: IoError, release: Vec<Resource> },
}

/// Decides the outcome of opening a device from the two system calls: the
/// file open (`file_error`: its failure code, if it failed) and, only when
/// that succeeded, the interface initialisation (`init_error`). When the
/// initialisation fails the file handle is closed before the error is
/// returned.
pub fn open_outcome(file_error: Option<u32>, init_error: Option<u32>) -> (r: OpenOutcome)
    ensures
        match r {
            OpenOutcome::Opened => open_error(file_error, init_error) is None,
            OpenOutcome::Failed { error, release } => open_error(file_error, init_error) == Some(
                error,
            ) && release@ == released_on_open(file_error, init_error),
        },
{
    match file_error {
        Some(c) => OpenOutcome::Failed { error: IoError { code: c }, release: Vec::new() },
        None => match init_error {
            Some(c) => {
                let mut release = Vec::new();
                release.push(Resource::File);
                assert(release@ =~= seq![Resource::File]);
                OpenOutcome::Failed { error: IoError { code: c }, release }
            },
            None => OpenOutcome::Opened,
        },
    }
}

/// The releases that dropping an open connection performs: the interface
/// first, which needs the file handle while it is freed, then the file handle.
pub fn drop_releases() -> (r: Vec<Resource>)
    ensures
        r@ == released_on_drop(),
{
    let mut r = Vec::new();
    r.push(Resource::Interface);
    r.push(Resource::File);
    assert(r@ =~= released_on_drop());
    r
}

/// Opening a device and dropping the connection at once, if one resulted,
/// releases every resource that was acquired exactly once, in the reverse
/// order of acquisition, whatever the two system calls reported.
pub proof fn lemma_open_then_drop_releases_all(file_error: Option<u32>, init_error: Option<u32>)
    ensures
        ({
            let released = released_on_open(file_error, init_error) + if open_error(
                file_error,
                init_error,
            ) is None {
                released_on_drop()
            } else {
                Seq::empty()
            };
            &&& released == acquired(file_error, init_error).reverse()
            &&& released.no_duplicates()
        }),
{
    let released = released_on_open(file_error, init_error) + if open_error(file_error, init_error)
        is None {
        released_on_drop()
    } else {
        Seq::empty()
    };
    assert(released =~= acquired(file_error, init_error).reverse());
    if file_error is None && init_error is None {
        assert(released[0] != released[1]);
    }
}

/// The result of a blocking transfer: the byte count, or the error code.
pub fn transfer_result(ok: bool, transferred: u32, last_error: u32) -> (r: Result<usize, IoError>)
    ensures
        ok ==> r == Ok::<usize, IoError>(transferred as usize),
        !ok ==> r == Err::<usize, IoError>(IoError { code: last_error }),
{
    if ok {
        Ok(transferred as usize)
    } else {
        Err(IoError { code: last_error })
    }
}

/// The result of a pipe control call (flush, reset, abort).
pub fn status_result(ok: bool, last_error: u32) -> (r: Result<(), IoError>)
    ensures
        ok ==> r == Ok::<(), IoError>(()),
        !ok ==> r == Err::<(), IoError>(IoError { code: last_error }),
{
    if ok {
        Ok(())
    } else {
        Err(IoError { code: last_error })
    }
}

/// The result of a query by index (an interface setting, a pipe): the record,
/// none past the last index, or the error.
pub fn lookup_result<T>(ok: bool, last_error: u32, record: T) -> (r: Result<Option<T>, IoError>)
    ensures
        ok ==> r == Ok::<Option<T>, IoError>(Some(record)),
        !ok && last_error == ERROR_NO_MORE_ITEMS ==> r == Ok::<Option<T>, IoError>(None),
        !ok && last_error != ERROR_NO_MORE_ITEMS ==> r == Err::<Option<T>, IoError>(
            IoError { code: last_error },
        ),
{
    if ok {
        Ok(Some(record))
    } else if last_error == ERROR_NO_MORE_ITEMS {
        Ok(None)
    } else {
        Err(IoError { code: last_error })
    }
}

/// How an overlapped request was taken by the system.
#[derive(Debug, Clone, Copy, PartialEq, Eq, Structural)]
pub enum Issued {
    /// Queued: the operation token is to be polled until it is ready.
    Pending,
    /// Completed before the call returned. The overlapped path has no way to
    /// hand such a result over, so this breaks its contract.
    CompletedSynchronously,
}

/// Classifies the return of an overlapped read or write: `ok` is what the
/// call returned, `last_error` the error code read right after.
pub fn issue_result(ok: bool, last_error: u32) -> (r: Result<Issued, IoError>)
    ensures
        ok ==> r == Ok::<Issued, IoError>(Issued::CompletedSynchronously),
        !ok && last_error == ERROR_IO_PENDING ==> r == Ok::<Issued, IoError>(Issued::Pending),
        !ok && last_error != ERROR_IO_PENDING ==> r == Err::<Issued, IoError>(
            IoError { code: last_error },
        ),
{
    if ok {
        Ok(Issued::CompletedSynchronously)
    } else if last_error == ERROR_IO_PENDING {
        Ok(Issued::Pending)
    } else {
        Err(IoError { code: last_error })
    }
}

/// The state of an overlapped operation at one completion check.
#[derive(Debug, Clone, Copy, PartialEq, Eq, Structural)]
pub enum Poll<T> {
    Ready(T),
    Pending,
}

/// Classifies one non-blocking completion check: still running, or done with
/// the byte count or the error.
pub fn poll_result(ok: bool, transferred: u32, last_error: u32) -> (r: Poll<Result<usize, IoError>>)
    ensures
        ok ==> r == Poll::Ready(Ok::<usize, IoError>(transferred as usize)),
        !ok && last_error == ERROR_IO_INCOMPLETE ==> r == Poll::<Result<usize, IoError>>::Pending,
        !ok && last_error != ERROR_IO_INCOMPLETE ==> r == Poll::Ready(
            Err::<usize, IoError>(IoError { code: last_error }),
        ),
{
    if ok {
        Poll::Ready(Ok(transferred as usize))
    } else if last_error == ERROR_IO_INCOMPLETE {
        Poll::Pending
    } else {
        Poll::Ready(Err(IoError { code: last_error }))
    }
}

} // verus!
