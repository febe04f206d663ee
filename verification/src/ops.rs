//! The device-operations contract a driver author implements.

use vstd::prelude::*;
use crate::error::Error;
use crate::file::File;
use crate::file::SeqFile;
use crate::foreign::ForeignOwnable;
use crate::registration::MiscDeviceRegistration;
use crate::vtable::CapabilityDescriptor;

verus! {

/// The operations of one device type.
///
/// `open` establishes a session by producing the owned per-session value;
/// `release` ends it and receives the value back with full ownership.
/// The remaining operations are optional, and each is installed in the
/// host's callback table only as [`crate::vtable::vtable_spec`] says.
///
/// Every operation with an observable result is pinned to a spec-level
/// function (`open_spec`, `ioctl_spec`, `compat_ioctl_spec`,
/// `show_fdinfo_spec`): each operation must return exactly what its spec
/// function says, and the dispatch shims' contracts speak through those
/// functions, so what a caller proves about a shim is exactly what the
/// author's operation declares.
///
/// The spec functions of the optional operations carry the default
/// behavior — the distinguished not-implemented error, or, for fdinfo
/// reporting, no effect, since that slot has no failure channel.  An
/// implementation that does not override an operation keeps its default
/// spec and writes the operation as the matching one-line body; one that
/// overrides it overrides both together.
///
/// A type states which optional operations it overrides through its
/// capability descriptor; the descriptor is fixed per type and is the
/// single input to table construction.  The descriptor is the author's
/// own declaration: nothing checks it against the spec functions, so a
/// type that declares a capability while keeping an operation's default
/// installs a slot that answers with the default — the distinguished
/// not-implemented error.
pub trait MiscDevice: Sized {
    /// The owned per-session value; it must satisfy the foreign-ownership
    /// adapter contract and tolerate concurrent shared access.
    type Ptr: ForeignOwnable + Send + Sync;

    /// Which optional operations this type overrides, as a spec-level
    /// record.
    spec fn capabilities_spec() -> CapabilityDescriptor;

    /// Which optional operations this type overrides.
    fn capabilities() -> (c: CapabilityDescriptor)
        ensures
            c == Self::capabilities_spec(),
    ;

    /// What `open` decides for a given file and registration.
    spec fn open_spec(file: File, misc: MiscDeviceRegistration<Self>) -> Result<Self::Ptr, Error>;

    /// Called once per new session.  On success the returned value
    /// becomes the session's owned value; on failure the session is never
    /// established and the failure code reaches the opener.
    fn open(file: &File, misc: &MiscDeviceRegistration<Self>) -> (r: Result<Self::Ptr, Error>)
        ensures
            r == Self::open_spec(*file, *misc),
    ;

    /// Called exactly once when a session ends, with full ownership of
    /// the session's value.  There is no failure channel; the default
    /// merely drops the value.
    fn release(device: Self::Ptr, file: &File) {
    }

    /// What `ioctl` does to the session value, and what it returns, for
    /// given inputs.  The default pairs an untouched value with the
    /// distinguished not-implemented error.
    open spec fn ioctl_spec(device: Self::Ptr, file: File, cmd: u32, arg: usize) -> (
        Self::Ptr,
        Result<isize, Error>,
    ) {
        (device, Err(Error::NotImplemented))
    }

    /// Handler for control requests on an open session.
    fn ioctl(device: &mut Self::Ptr, file: &File, cmd: u32, arg: usize) -> (r: Result<
        isize,
        Error,
    >)
        ensures
            (*final(device), r) == Self::ioctl_spec(*old(device), *file, cmd, arg),
    ;

    /// What `compat_ioctl` does to the session value, and what it
    /// returns, for given inputs; the default as for `ioctl_spec`.
    open spec fn compat_ioctl_spec(device: Self::Ptr, file: File, cmd: u32, arg: usize) -> (
        Self::Ptr,
        Result<isize, Error>,
    ) {
        (device, Err(Error::NotImplemented))
    }

    /// Handler for control requests arriving through the alternate
    /// calling convention of openers with a different pointer width.
    /// Only needed when a request's argument layout differs between the
    /// two conventions; when it is not overridden but `ioctl` is, the
    /// generic fallback reroutes translated requests there.
    fn compat_ioctl(device: &mut Self::Ptr, file: &File, cmd: u32, arg: usize) -> (r: Result<
        isize,
        Error,
    >)
        ensures
            (*final(device), r) == Self::compat_ioctl_spec(*old(device), *file, cmd, arg),
    ;

    /// What `show_fdinfo` leaves in the sink, given the session value and
    /// the sink's prior contents.  The default writes nothing: the slot
    /// has no failure channel, so "not implemented" is silence.
    open spec fn show_fdinfo_spec(device: Self::Ptr, sink: Seq<u8>, file: File) -> Seq<u8> {
        sink
    }

    /// Write diagnostic status for one open session into the sink.
    fn show_fdinfo(device: &Self::Ptr, m: &mut SeqFile, file: &File)
        ensures
            final(m)@ == Self::show_fdinfo_spec(*device, old(m)@, *file),
    ;
}

} // verus!
