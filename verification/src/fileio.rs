//! The EventFd/FileIo bridge: each file opened for asynchronous use gets a
//! kernel notification descriptor that becomes readable when outstanding
//! operations complete, plus a reactor registration token, so an I/O
//! completion can ultimately reach a waiting coroutine through `unpark`.
//!
//! The reactor itself is an external collaborator; its registration token is
//! modelled here as a record of the descriptor it was produced for. The one
//! kernel resource — the event descriptor — is real: it is allocated and
//! closed through the trusted wrappers below.

use vstd::prelude::*;

verus! {

/// An OS-level failure surfaced to the caller, carrying the raw errno.
#[derive(Debug, Copy, Clone, Eq, PartialEq, Structural)]
pub struct OsError {
    pub code: i32,
}

/// An exclusively-owned kernel notification descriptor. The sentinel value -1
/// marks the inert placeholder of an instance with no real kernel resource;
/// it is never closed.
#[derive(Debug, Copy, Clone, Eq, PartialEq, Structural)]
pub struct EventFd {
    pub fd: i32,
}

impl EventFd {
    /// The raw descriptor value.
    pub fn as_raw_fd(&self) -> (fd: i32)
        ensures
            fd == self.fd,
    {
        self.fd
    }
}

/// The reactor registration token for a descriptor, modelled as a record of
/// the descriptor it was produced for; registering with the actual reactor is
/// the external collaborator's job.
#[derive(Debug, Copy, Clone, Eq, PartialEq, Structural)]
pub struct IoData {
    pub fd: i32,
}

impl IoData {
    /// A token for the given descriptor.
    pub fn new(ev: &EventFd) -> (io: IoData)
        ensures
            io.fd == ev.fd,
    {
        IoData { fd: ev.fd }
    }
}

/// The per-file readiness bridge: the notification descriptor and its
/// registration token.
#[derive(Debug, Copy, Clone, Eq, PartialEq, Structural)]
pub struct FileIo {
    pub fd: EventFd,
    pub io: IoData,
}

/// Anything that owns a readiness bridge for its asynchronous operations.
pub trait AsFileIo {
    fn as_file_io(&self) -> &FileIo;
}

/// Relies on nix::sys::eventfd::eventfd: allocates a fresh event descriptor
/// with the close-on-exec and non-blocking flags. On success the kernel hands
/// back a new, non-negative descriptor; on failure the OS errno is returned.
#[verifier::external_body]
fn sys_eventfd_cloexec_nonblock() -> (r: Result<i32, i32>)
    ensures
        r matches Ok(fd) ==> fd >= 0,
{
    let flags = nix::sys::eventfd::EfdFlags::EFD_CLOEXEC | nix::sys::eventfd::EfdFlags::EFD_NONBLOCK;
    match nix::sys::eventfd::eventfd(0, flags) {
        Ok(fd) => Ok(fd),
        Err(e) => Err(e as i32),
    }
}

/// Relies on nix::unistd::close: closes the descriptor; any error is
/// deliberately discarded, as teardown has nobody to report it to.
#[verifier::external_body]
fn sys_close(fd: i32)
    requires
        fd >= 0,
{
    let _ = nix::unistd::close(fd);
}

impl FileIo {
    /// Builds the readiness bridge. With a backing file, a fresh event
    /// descriptor is allocated and bundled with its registration token, and a
    /// descriptor-creation failure surfaces the underlying OS error, never
    /// silently discarded. With no backing file, the result is an inert
    /// instance carrying the never-closed sentinel descriptor, for code paths
    /// that need the type uniformly.
    pub fn new(has_file: bool) -> (r: Result<FileIo, OsError>)
        ensures
            !has_file ==> r == Ok::<FileIo, OsError>(
                (FileIo { fd: (EventFd { fd: -1i32 }), io: (IoData { fd: -1i32 }) }),
            ),
            r matches Ok(f) ==> f.io.fd == f.fd.fd,
            has_file ==> (r matches Ok(f) ==> f.fd.fd >= 0),
    {
        if has_file {
            let raw = sys_eventfd_cloexec_nonblock();
            Self::from_eventfd_result(raw)
        } else {
            let fd = EventFd { fd: -1 };
            let io = IoData::new(&fd);
            Ok(FileIo { io, fd })
        }
    }

    /// What is made of a descriptor-creation outcome: a descriptor is bundled
    /// with its registration token, and an errno becomes the surfaced error.
    pub fn from_eventfd_result(raw: Result<i32, i32>) -> (r: Result<FileIo, OsError>)
        ensures
            raw matches Ok(fd) ==> r == Ok::<FileIo, OsError>(
                (FileIo { fd: (EventFd { fd: fd }), io: (IoData { fd: fd }) }),
            ),
            raw matches Err(code) ==> r == Err::<FileIo, OsError>((OsError { code })),
    {
        match raw {
            Ok(raw_fd) => {
                let fd = EventFd { fd: raw_fd };
                let io = IoData::new(&fd);
                Ok(FileIo { io, fd })
            },
            Err(code) => Err(OsError { code }),
        }
    }

    /// Teardown: the event descriptor is closed first — before the
    /// registration token's own cleanup would run, since the registration
    /// subsystem may still reference the descriptor's identity — and only a
    /// real descriptor is ever closed, never the sentinel. The result says
    /// whether a close happened.
    pub fn close(self) -> (closed: bool)
        ensures
            closed == (self.fd.fd >= 0),
    {
        if self.fd.fd >= 0 {
            sys_close(self.fd.fd);
            true
        } else {
            false
        }
    }
}

} // verus!
