//! Sessions and the dispatch shims: one shim per host-visible callback
//! slot.
//!
//! Each shim (1) reaches the opaque per-session slot in the host's file
//! record, (2) applies the one ownership operation its slot is entitled
//! to — open installs a freshly produced token, release reclaims it,
//! every other operation borrows — (3) calls the author's operation, and
//! (4) translates the result into the host's status encoding.
//!
//! The shims' `requires` are exactly the host's per-session ordering
//! contract, phrased through [`crate::lifecycle::event_allowed`]; their
//! phase transitions are [`crate::lifecycle::event_step`].  The lemmas of
//! [`crate::lifecycle`] therefore apply to every call sequence the host
//! can legally make, which is how "exactly one reclaim per install" is
//! enforced: by sequencing, not by a runtime count.

use vstd::prelude::*;
use crate::error::Error;
use crate::file::File;
use crate::file::Inode;
use crate::file::SeqFile;
use crate::file::file_open_ok;
use crate::file::generic_file_open;
use crate::foreign::ForeignOwnable;
use crate::foreign::ForeignToken;
use crate::lifecycle::SessionEvent;
use crate::lifecycle::SessionPhase;
use crate::lifecycle::event_allowed;
use crate::lifecycle::event_step;
use crate::ops::MiscDevice;
use crate::registration::MiscDeviceRegistration;

verus! {

/// What the host's file record holds in its opaque per-session slot.
/// The slot is reinterpreted exactly once, at open time, from "still the
/// registration's file" to "the author's owned value"; release is the
/// one transition out.
enum PrivateData<P> {
    /// No author value installed yet; the slot still designates the
    /// registration itself.
    Unopened,
    /// The author's owned value, held as the opaque token.
    Open(ForeignToken<P>),
    /// The value has been reclaimed; terminal.
    Released,
}

/// The state associated with one open file handle on the device.
pub struct Session<P> {
    inode: Inode,
    file: File,
    private_data: PrivateData<P>,
}

impl<P> Session<P> {
    /// The inode the device node lives on.
    pub closed spec fn spec_inode(&self) -> Inode {
        self.inode
    }

    /// The open-file context handed to every operation.
    pub closed spec fn spec_file(&self) -> File {
        self.file
    }

    /// Where this session stands in its lifecycle.
    pub closed spec fn phase_spec(&self) -> SessionPhase {
        match self.private_data {
            PrivateData::Unopened => SessionPhase::Unopened,
            PrivateData::Open(_) => SessionPhase::Open,
            PrivateData::Released => SessionPhase::Released,
        }
    }

    /// The owned value installed at open time; meaningful only while the
    /// session is open.
    pub closed spec fn value_spec(&self) -> P
        recommends
            self.phase_spec() is Open,
    {
        match self.private_data {
            PrivateData::Open(t) => t@,
            _ => vstd::pervasive::arbitrary(),
        }
    }

    /// A session the host just created for a file: nothing installed.
    pub fn new(inode: Inode, file: File) -> (s: Session<P>)
        ensures
            s.spec_inode() == inode,
            s.spec_file() == file,
            s.phase_spec() is Unopened,
    {
        Session { inode, file, private_data: PrivateData::Unopened }
    }

    /// Where this session stands, for an observer.
    pub fn phase(&self) -> (p: SessionPhase)
        ensures
            p == self.phase_spec(),
    {
        match &self.private_data {
            PrivateData::Unopened => SessionPhase::Unopened,
            PrivateData::Open(_) => SessionPhase::Open,
            PrivateData::Released => SessionPhase::Released,
        }
    }
}

/// The host's status encoding for an ioctl-shaped result: success is the
/// operation's own non-negative value, failure the negated error code.
pub open spec fn ioctl_status(r: Result<isize, Error>) -> int {
    match r {
        Ok(v) => v as int,
        Err(e) => e.spec_errno(),
    }
}

/// Translate an ioctl-shaped result into the host's status word.
pub fn ioctl_result_to_status(r: Result<isize, Error>) -> (s: isize)
    ensures
        s as int == ioctl_status(r),
{
    match r {
        Ok(v) => v,
        Err(e) => e.to_errno() as isize,
    }
}

/// The open shim.  Runs the host's file-initialization step first and
/// calls the author's `open` only if that step succeeded; on success it
/// installs the returned value as the session's token, on failure it
/// installs nothing and hands the failure code through unmodified.
pub fn fops_open<T: MiscDevice>(
    session: &mut Session<T::Ptr>,
    misc: &MiscDeviceRegistration<T>,
) -> (r: i32)
    requires
        event_allowed(old(session).phase_spec(), SessionEvent::Open),
    ensures
        final(session).spec_inode() == old(session).spec_inode(),
        final(session).spec_file() == old(session).spec_file(),
        r == 0 <==> final(session).phase_spec() is Open,
        !file_open_ok(old(session).spec_inode(), old(session).spec_file()) ==> {
            &&& r as int == Error::Overflow.spec_errno()
            &&& *final(session) == *old(session)
        },
        file_open_ok(old(session).spec_inode(), old(session).spec_file()) ==> match T::open_spec(
            old(session).spec_file(),
            *misc,
        ) {
            Ok(v) => {
                &&& r == 0
                &&& final(session).phase_spec() == event_step(
                    old(session).phase_spec(),
                    SessionEvent::Open,
                )
                &&& final(session).value_spec() == v
            },
            Err(e) => {
                &&& r as int == e.spec_errno()
                &&& *final(session) == *old(session)
            },
        },
{
    let init = generic_file_open(&session.inode, &session.file);
    if init != 0 {
        return init;
    }
    match T::open(&session.file, misc) {
        Ok(v) => {
            session.private_data = PrivateData::Open(
                <T::Ptr as ForeignOwnable>::into_foreign(v),
            );
            0
        },
        Err(e) => e.to_errno(),
    }
}

/// The release shim: reclaims the session's token — the one reclaim this
/// session will ever see — passes the value to the author's `release`
/// with full ownership, and reports the fixed success code; release has
/// no failure channel.
pub fn fops_release<T: MiscDevice>(session: &mut Session<T::Ptr>) -> (r: i32)
    requires
        event_allowed(old(session).phase_spec(), SessionEvent::Release),
    ensures
        r == 0,
        final(session).spec_inode() == old(session).spec_inode(),
        final(session).spec_file() == old(session).spec_file(),
        final(session).phase_spec() == event_step(
            old(session).phase_spec(),
            SessionEvent::Release,
        ),
{
    let mut slot: PrivateData<T::Ptr> = PrivateData::Released;
    core::mem::swap(&mut session.private_data, &mut slot);
    match slot {
        PrivateData::Open(t) => {
            let v = <T::Ptr as ForeignOwnable>::from_foreign(t);
            T::release(v, &session.file);
        },
        _ => {
            proof {
                assert(false);
            }
        },
    }
    0
}

/// The ioctl shim: borrows the session's value — exclusively, since a
/// control request may mutate it, but the token stays installed and
/// nothing is reclaimed — calls the author's `ioctl`, and encodes the
/// result.
///
/// The second component is the author's result: the session value and
/// that result are exactly what the device type's `ioctl_spec` declares
/// for the old value, and the returned status is its encoding.
pub fn fops_ioctl<T: MiscDevice>(
    session: &mut Session<T::Ptr>,
    cmd: u32,
    arg: usize,
) -> (r: (isize, Ghost<Result<isize, Error>>))
    requires
        event_allowed(old(session).phase_spec(), SessionEvent::Ioctl),
    ensures
        final(session).spec_inode() == old(session).spec_inode(),
        final(session).spec_file() == old(session).spec_file(),
        final(session).phase_spec() == event_step(
            old(session).phase_spec(),
            SessionEvent::Ioctl,
        ),
        (final(session).value_spec(), r.1@) == T::ioctl_spec(
            old(session).value_spec(),
            old(session).spec_file(),
            cmd,
            arg,
        ),
        r.0 as int == ioctl_status(r.1@),
{
    match &mut session.private_data {
        PrivateData::Open(t) => {
            let dev = <T::Ptr as ForeignOwnable>::borrow_mut(t);
            let ar = T::ioctl(dev, &session.file, cmd, arg);
            let ghost w = ar;
            (ioctl_result_to_status(ar), Ghost(w))
        },
        _ => {
            proof {
                assert(false);
            }
            vstd::pervasive::unreached()
        },
    }
}

/// The compat ioctl shim: as [`fops_ioctl`], but calling the author's
/// own `compat_ioctl` handler, so the session value and the reported
/// result are exactly what `compat_ioctl_spec` declares.  Installed only
/// when the author overrode it; requests arriving without such a handler
/// go through [`compat_ptr_ioctl`] or nowhere, as the table says.
pub fn fops_compat_ioctl<T: MiscDevice>(
    session: &mut Session<T::Ptr>,
    cmd: u32,
    arg: usize,
) -> (r: (isize, Ghost<Result<isize, Error>>))
    requires
        event_allowed(old(session).phase_spec(), SessionEvent::CompatIoctl),
    ensures
        final(session).spec_inode() == old(session).spec_inode(),
        final(session).spec_file() == old(session).spec_file(),
        final(session).phase_spec() == event_step(
            old(session).phase_spec(),
            SessionEvent::CompatIoctl,
        ),
        (final(session).value_spec(), r.1@) == T::compat_ioctl_spec(
            old(session).value_spec(),
            old(session).spec_file(),
            cmd,
            arg,
        ),
        r.0 as int == ioctl_status(r.1@),
{
    match &mut session.private_data {
        PrivateData::Open(t) => {
            let dev = <T::Ptr as ForeignOwnable>::borrow_mut(t);
            let ar = T::compat_ioctl(dev, &session.file, cmd, arg);
            let ghost w = ar;
            (ioctl_result_to_status(ar), Ghost(w))
        },
        _ => {
            proof {
                assert(false);
            }
            vstd::pervasive::unreached()
        },
    }
}

/// The argument as the narrow calling convention delivers it: only the
/// low 32 bits survive the width change.
pub open spec fn compat_arg(arg: usize) -> usize {
    arg & 0xFFFF_FFFF
}

/// Narrow an argument to the compat calling convention's width.
pub fn compat_mask(arg: usize) -> (m: usize)
    ensures
        m == compat_arg(arg),
{
    arg & 0xFFFF_FFFF
}

/// The generic fallback for the compat slot: reinterpret the argument in
/// the primary handler's layout — narrow it to the compat width — and
/// route the request to the primary `ioctl` handler, so the session
/// value and the reported result are what `ioctl_spec` declares for the
/// narrowed argument.
pub fn compat_ptr_ioctl<T: MiscDevice>(
    session: &mut Session<T::Ptr>,
    cmd: u32,
    arg: usize,
) -> (r: (isize, Ghost<Result<isize, Error>>))
    requires
        event_allowed(old(session).phase_spec(), SessionEvent::CompatIoctl),
    ensures
        final(session).spec_inode() == old(session).spec_inode(),
        final(session).spec_file() == old(session).spec_file(),
        final(session).phase_spec() == event_step(
            old(session).phase_spec(),
            SessionEvent::CompatIoctl,
        ),
        (final(session).value_spec(), r.1@) == T::ioctl_spec(
            old(session).value_spec(),
            old(session).spec_file(),
            cmd,
            compat_arg(arg),
        ),
        r.0 as int == ioctl_status(r.1@),
{
    fops_ioctl::<T>(session, cmd, compat_mask(arg))
}

/// The fdinfo shim: borrows the session's value without any transfer of
/// ownership and lets the author's `show_fdinfo` write into the sink, so
/// the sink ends holding exactly what `show_fdinfo_spec` declares.  The
/// slot has no return value and no failure channel, so nothing is
/// encoded; a session stays exactly as it was.
pub fn fops_show_fdinfo<T: MiscDevice>(session: &Session<T::Ptr>, m: &mut SeqFile)
    requires
        event_allowed(session.phase_spec(), SessionEvent::ShowFdinfo),
    ensures
        final(m)@ == T::show_fdinfo_spec(session.value_spec(), old(m)@, session.spec_file()),
{
    match &session.private_data {
        PrivateData::Open(t) => {
            let dev = <T::Ptr as ForeignOwnable>::borrow(t);
            T::show_fdinfo(dev, m, &session.file);
        },
        _ => {
            proof {
                assert(false);
            }
        },
    }
}

} // verus!
