//! The host device-management subsystem, as far as this layer relies on
//! it: a registry of name/minor pairs that accepts or refuses a
//! device-description record, and the file-side call paths that route an
//! operation through a registered device's callback table.

use vstd::prelude::*;
use crate::error::Error;
use crate::file::SeqFile;
use crate::lifecycle::SessionEvent;
use crate::lifecycle::event_allowed;
use crate::lifecycle::event_step;
use crate::ops::MiscDevice;
use crate::registration::Device;
use crate::registration::MiscDeviceRegistration;
use crate::registration::RawMiscDevice;
use crate::session::Session;
use crate::session::fops_compat_ioctl;
use crate::session::fops_ioctl;
use crate::session::fops_show_fdinfo;
use crate::session::compat_ptr_ioctl;
use crate::session::ioctl_status;
use crate::session::compat_arg;
use crate::vtable::CompatSlot;
use crate::vtable::vtable_spec;

verus! {

/// How many minor numbers the host can hand out dynamically.
pub const DYNAMIC_MINORS: u32 = 64;

struct MiscEntry {
    name: Vec<u8>,
    minor: u32,
}

/// The host's registry of live device registrations.
pub struct HostRegistry {
    entries: Vec<MiscEntry>,
}

/// Compare two byte strings.
fn bytes_eq(a: &[u8], b: &[u8]) -> (r: bool)
    ensures
        r == (a@ == b@),
{
    if a.len() != b.len() {
        return false;
    }
    let mut i: usize = 0;
    while i < a.len()
        invariant
            i <= a@.len(),
            a@.len() == b@.len(),
            forall|j: int| 0 <= j < i ==> a@[j] == b@[j],
        decreases a@.len() - i,
    {
        if a[i] != b[i] {
            return false;
        }
        i = i + 1;
    }
    proof {
        assert(a@ =~= b@);
    }
    true
}

/// Copy a byte string.
fn clone_bytes(v: &Vec<u8>) -> (r: Vec<u8>)
    ensures
        r@ == v@,
{
    let mut r: Vec<u8> = Vec::new();
    let mut i: usize = 0;
    while i < v.len()
        invariant
            i <= v@.len(),
            r@ == v@.subrange(0, i as int),
        decreases v@.len() - i,
    {
        r.push(v[i]);
        i = i + 1;
        proof {
            assert(r@ =~= v@.subrange(0, i as int));
        }
    }
    proof {
        assert(r@ =~= v@);
    }
    r
}

impl HostRegistry {
    /// The names registered, in registration order.
    pub closed spec fn names(&self) -> Seq<Seq<u8>> {
        Seq::new(self.entries@.len(), |i: int| self.entries@[i].name@)
    }

    /// The minors assigned, in registration order.
    pub closed spec fn minors(&self) -> Seq<u32> {
        Seq::new(self.entries@.len(), |i: int| self.entries@[i].minor)
    }

    /// Names are unique, minors are unique and in range: what the host
    /// maintains across every registration and deregistration.
    pub open spec fn wf(&self) -> bool {
        &&& forall|i: int, j: int|
            0 <= i < j < self.names().len() ==> self.names()[i] != self.names()[j]
        &&& forall|i: int, j: int|
            0 <= i < j < self.minors().len() ==> self.minors()[i] != self.minors()[j]
        &&& forall|i: int| 0 <= i < self.minors().len() ==> self.minors()[i] < DYNAMIC_MINORS
    }

    /// Whether some dynamic minor is still unassigned.
    pub open spec fn has_free_minor(&self) -> bool {
        exists|m: u32| m < DYNAMIC_MINORS && !self.minors().contains(m)
    }

    /// A host with no registrations.
    pub fn new() -> (h: HostRegistry)
        ensures
            h.wf(),
            h.names() == Seq::<Seq<u8>>::empty(),
            h.minors() == Seq::<u32>::empty(),
    {
        let h = HostRegistry { entries: Vec::new() };
        proof {
            assert(h.names() =~= Seq::<Seq<u8>>::empty());
            assert(h.minors() =~= Seq::<u32>::empty());
        }
        h
    }

    /// How many registrations are live.
    pub fn device_count(&self) -> (n: usize)
        ensures
            n == self.names().len(),
    {
        self.entries.len()
    }

    /// Whether a device with this name is registered.
    pub fn name_used(&self, name: &[u8]) -> (b: bool)
        ensures
            b == self.names().contains(name@),
    {
        let mut i: usize = 0;
        while i < self.entries.len()
            invariant
                i <= self.entries@.len(),
                forall|j: int| 0 <= j < i ==> self.names()[j] != name@,
            decreases self.entries@.len() - i,
        {
            if bytes_eq(self.entries[i].name.as_slice(), name) {
                proof {
                    assert(self.names()[i as int] == name@);
                }
                return true;
            }
            i = i + 1;
        }
        proof {
            if self.names().contains(name@) {
                let j = choose|j: int|
                    0 <= j < self.names().len() && self.names()[j] == name@;
                assert(self.names()[j] != name@);
            }
        }
        false
    }

    fn minor_used(&self, m: u32) -> (b: bool)
        ensures
            b == self.minors().contains(m),
    {
        let mut i: usize = 0;
        while i < self.entries.len()
            invariant
                i <= self.entries@.len(),
                forall|j: int| 0 <= j < i ==> self.minors()[j] != m,
            decreases self.entries@.len() - i,
        {
            if self.entries[i].minor == m {
                proof {
                    assert(self.minors()[i as int] == m);
                }
                return true;
            }
            i = i + 1;
        }
        proof {
            if self.minors().contains(m) {
                let j = choose|j: int|
                    0 <= j < self.minors().len() && self.minors()[j] == m;
                assert(self.minors()[j] != m);
            }
        }
        false
    }

    /// The lowest unassigned dynamic minor, if any is left.
    fn find_free_minor(&self) -> (r: Option<u32>)
        ensures
            r matches Some(m) ==> m < DYNAMIC_MINORS && !self.minors().contains(m),
            r is None ==> !self.has_free_minor(),
    {
        let mut m: u32 = 0;
        while m < DYNAMIC_MINORS
            invariant
                m <= DYNAMIC_MINORS,
                forall|k: u32| k < m ==> self.minors().contains(k),
            decreases DYNAMIC_MINORS - m,
        {
            if !self.minor_used(m) {
                return Some(m);
            }
            m = m + 1;
        }
        None
    }

    /// Accept or refuse a registration: refuse a taken name, refuse when
    /// no dynamic minor is left, and otherwise assign a free minor,
    /// populate the record's device object, and record the registration.
    pub fn misc_register(&mut self, dev: &mut RawMiscDevice) -> (r: i32)
        requires
            old(self).wf(),
        ensures
            final(self).wf(),
            r == 0 || crate::error::is_known_errno(r as int),
            r == 0 <==> (!old(self).names().contains(old(dev).name@) && old(
                self,
            ).has_free_minor()),
            old(self).names().contains(old(dev).name@) ==> r as int
                == Error::Exists.spec_errno(),
            (!old(self).names().contains(old(dev).name@) && !old(self).has_free_minor())
                ==> r as int == Error::Busy.spec_errno(),
            r != 0 ==> *final(self) == *old(self) && *final(dev) == *old(dev),
            r == 0 ==> {
                &&& final(dev).name@ == old(dev).name@
                &&& final(dev).fops == old(dev).fops
                &&& final(dev).minor < DYNAMIC_MINORS
                &&& !old(self).minors().contains(final(dev).minor)
                &&& final(dev).this_device == Some(Device { minor: final(dev).minor })
                &&& final(self).names() == old(self).names().push(old(dev).name@)
                &&& final(self).minors() == old(self).minors().push(final(dev).minor)
            },
    {
        if self.name_used(dev.name.as_slice()) {
            proof {
                assert(Error::Exists.spec_errno() == -17);
            }
            return Error::Exists.to_errno();
        }
        match self.find_free_minor() {
            None => {
                proof {
                    assert(Error::Busy.spec_errno() == -16);
                }
                Error::Busy.to_errno()
            },
            Some(m) => {
                dev.minor = m;
                dev.this_device = Some(Device { minor: m });
                let entry = MiscEntry { name: clone_bytes(&dev.name), minor: m };
                self.entries.push(entry);
                proof {
                    assert(self.names() =~= old(self).names().push(old(dev).name@));
                    assert(self.minors() =~= old(self).minors().push(m));
                    assert forall|i: int, j: int|
                        0 <= i < j < self.names().len() implies self.names()[i]
                        != self.names()[j] by {
                        if j == old(self).names().len() {
                            if self.names()[i] == self.names()[j] {
                                assert(old(self).names()[i] == old(dev).name@);
                                assert(old(self).names().contains(old(dev).name@));
                            }
                        }
                    }
                    assert forall|i: int, j: int|
                        0 <= i < j < self.minors().len() implies self.minors()[i]
                        != self.minors()[j] by {
                        if j == old(self).minors().len() {
                            if self.minors()[i] == self.minors()[j] {
                                assert(old(self).minors()[i] == m);
                                assert(old(self).minors().contains(m));
                            }
                        }
                    }
                }
                0
            },
        }
    }

    /// Remove the registration carrying this name; every other
    /// registration survives untouched.
    pub fn misc_deregister(&mut self, name: &[u8])
        requires
            old(self).wf(),
            old(self).names().contains(name@),
        ensures
            final(self).wf(),
            final(self).names().len() == old(self).names().len() - 1,
            !final(self).names().contains(name@),
            forall|n: Seq<u8>|
                n != name@ ==> (final(self).names().contains(n) <==> old(
                    self,
                ).names().contains(n)),
    {
        let mut i: usize = 0;
        while i < self.entries.len()
            invariant
                old(self).wf(),
                old(self).names().contains(name@),
                *self == *old(self),
                i <= self.entries@.len(),
                forall|j: int| 0 <= j < i ==> self.names()[j] != name@,
            decreases self.entries@.len() - i,
        {
            if bytes_eq(self.entries[i].name.as_slice(), name) {
                let ghost ii = i as int;
                self.entries.remove(i);
                proof {
                    assert(old(self).names()[ii] == name@);
                    assert(self.names() =~= old(self).names().remove(ii));
                    assert(self.minors() =~= old(self).minors().remove(ii));
                    assert forall|k: int|
                        0 <= k < self.names().len() implies self.names()[k] != name@ by {
                        if k < ii {
                            assert(old(self).names()[k] != old(self).names()[ii]);
                        } else {
                            assert(old(self).names()[ii] != old(self).names()[k + 1]);
                        }
                    }
                    if self.names().contains(name@) {
                        let k = choose|k: int|
                            0 <= k < self.names().len() && self.names()[k] == name@;
                        assert(self.names()[k] != name@);
                    }
                    assert forall|n: Seq<u8>|
                        n != name@ implies (self.names().contains(n) <==> old(self).names().contains(
                        n,
                    )) by {
                        if self.names().contains(n) {
                            let k = choose|k: int|
                                0 <= k < self.names().len() && self.names()[k] == n;
                            if k < ii {
                                assert(old(self).names()[k] == n);
                            } else {
                                assert(old(self).names()[k + 1] == n);
                            }
                            assert(old(self).names().contains(n));
                        }
                        if old(self).names().contains(n) {
                            let k = choose|k: int|
                                0 <= k < old(self).names().len() && old(self).names()[k] == n;
                            if k < ii {
                                assert(self.names()[k] == n);
                                assert(self.names().contains(n));
                            } else if k == ii {
                                assert(old(self).names()[k] == name@);
                            } else {
                                assert(self.names()[k - 1] == n);
                                assert(self.names().contains(n));
                            }
                        }
                    }
                    assert forall|p: int, q: int|
                        0 <= p < q < self.names().len() implies self.names()[p]
                        != self.names()[q] by {
                        let p0 = if p < ii { p } else { p + 1 };
                        let q0 = if q < ii { q } else { q + 1 };
                        assert(self.names()[p] == old(self).names()[p0]);
                        assert(self.names()[q] == old(self).names()[q0]);
                        assert(old(self).names()[p0] != old(self).names()[q0]);
                    }
                    assert forall|p: int, q: int|
                        0 <= p < q < self.minors().len() implies self.minors()[p]
                        != self.minors()[q] by {
                        let p0 = if p < ii { p } else { p + 1 };
                        let q0 = if q < ii { q } else { q + 1 };
                        assert(self.minors()[p] == old(self).minors()[p0]);
                        assert(self.minors()[q] == old(self).minors()[q0]);
                        assert(old(self).minors()[p0] != old(self).minors()[q0]);
                    }
                    assert forall|p: int|
                        0 <= p < self.minors().len() implies self.minors()[p]
                        < DYNAMIC_MINORS by {
                        let p0 = if p < ii { p } else { p + 1 };
                        assert(self.minors()[p] == old(self).minors()[p0]);
                    }
                }
                return;
            }
            i = i + 1;
        }
        proof {
            let j = choose|j: int| 0 <= j < old(self).names().len() && old(self).names()[j] == name@;
            assert(self.names()[j] != name@);
        }
    }
}


/// The host's routing of a control request: if the device type installed
/// a primary ioctl handler the request goes through its shim — so the
/// session value and the reported result are exactly what the type's
/// `ioctl_spec` declares — otherwise the host answers with its own
/// default, the not-a-control-request code, and the author is never
/// involved.
///
/// The second component is the author's result; it is `None` when the
/// slot is absent and no handler ran.
pub fn host_ioctl<T: MiscDevice>(
    misc: &MiscDeviceRegistration<T>,
    session: &mut Session<T::Ptr>,
    cmd: u32,
    arg: usize,
) -> (r: (isize, Ghost<Option<Result<isize, Error>>>))
    requires
        misc.wf(),
        event_allowed(old(session).phase_spec(), SessionEvent::Ioctl),
    ensures
        final(session).spec_inode() == old(session).spec_inode(),
        final(session).spec_file() == old(session).spec_file(),
        final(session).phase_spec() == event_step(
            old(session).phase_spec(),
            SessionEvent::Ioctl,
        ),
        !vtable_spec(T::capabilities_spec()).unlocked_ioctl ==> {
            &&& r.0 as int == Error::NotTty.spec_errno()
            &&& r.1@ is None
            &&& *final(session) == *old(session)
        },
        vtable_spec(T::capabilities_spec()).unlocked_ioctl ==> (r.1@ matches Some(ar)
            && (final(session).value_spec(), ar) == T::ioctl_spec(
            old(session).value_spec(),
            old(session).spec_file(),
            cmd,
            arg,
        ) && r.0 as int == ioctl_status(ar)),
{
    if misc.as_raw().fops.unlocked_ioctl {
        let (s, w) = fops_ioctl::<T>(session, cmd, arg);
        (s, Ghost(Some(w@)))
    } else {
        (Error::NotTty.to_errno() as isize, Ghost(None))
    }
}

/// The host's routing of a control request arriving through the compat
/// calling convention, following the three-way slot: the author's own
/// compat handler when installed (its `compat_ioctl_spec` decides), the
/// generic pointer-width fallback into the primary handler when that is
/// what the table holds (`ioctl_spec` over the narrowed argument
/// decides), and the host's default answer when the slot is absent.
pub fn host_compat_ioctl<T: MiscDevice>(
    misc: &MiscDeviceRegistration<T>,
    session: &mut Session<T::Ptr>,
    cmd: u32,
    arg: usize,
) -> (r: (isize, Ghost<Option<Result<isize, Error>>>))
    requires
        misc.wf(),
        event_allowed(old(session).phase_spec(), SessionEvent::CompatIoctl),
    ensures
        final(session).spec_inode() == old(session).spec_inode(),
        final(session).spec_file() == old(session).spec_file(),
        final(session).phase_spec() == event_step(
            old(session).phase_spec(),
            SessionEvent::CompatIoctl,
        ),
        vtable_spec(T::capabilities_spec()).compat_ioctl is Absent ==> {
            &&& r.0 as int == Error::NotTty.spec_errno()
            &&& r.1@ is None
            &&& *final(session) == *old(session)
        },
        vtable_spec(T::capabilities_spec()).compat_ioctl is Author ==> (r.1@ matches Some(ar)
            && (final(session).value_spec(), ar) == T::compat_ioctl_spec(
            old(session).value_spec(),
            old(session).spec_file(),
            cmd,
            arg,
        ) && r.0 as int == ioctl_status(ar)),
        vtable_spec(T::capabilities_spec()).compat_ioctl is Fallback ==> (r.1@ matches Some(ar)
            && (final(session).value_spec(), ar) == T::ioctl_spec(
            old(session).value_spec(),
            old(session).spec_file(),
            cmd,
            compat_arg(arg),
        ) && r.0 as int == ioctl_status(ar)),
{
    match misc.as_raw().fops.compat_ioctl {
        CompatSlot::Author => {
            let (s, w) = fops_compat_ioctl::<T>(session, cmd, arg);
            (s, Ghost(Some(w@)))
        },
        CompatSlot::Fallback => {
            let (s, w) = compat_ptr_ioctl::<T>(session, cmd, arg);
            (s, Ghost(Some(w@)))
        },
        CompatSlot::Absent => (Error::NotTty.to_errno() as isize, Ghost(None)),
    }
}

/// The host's fdinfo path: the author's handler runs only when the
/// device type installed one, and then leaves in the sink exactly what
/// its `show_fdinfo_spec` declares; with the slot absent the sink is
/// left untouched, silently — the slot has no failure channel.
pub fn host_show_fdinfo<T: MiscDevice>(
    misc: &MiscDeviceRegistration<T>,
    session: &Session<T::Ptr>,
    m: &mut SeqFile,
)
    requires
        misc.wf(),
        event_allowed(session.phase_spec(), SessionEvent::ShowFdinfo),
    ensures
        !vtable_spec(T::capabilities_spec()).show_fdinfo ==> final(m)@ == old(m)@,
        vtable_spec(T::capabilities_spec()).show_fdinfo ==> final(m)@ == T::show_fdinfo_spec(
            session.value_spec(),
            old(m)@,
            session.spec_file(),
        ),
{
    if misc.as_raw().fops.show_fdinfo {
        fops_show_fdinfo::<T>(session, m);
    }
}


/// A well-formed host below capacity always has a free minor: with
/// fewer than [`DYNAMIC_MINORS`] live registrations, each holding a
/// distinct minor below that bound, some minor is unassigned — so for
/// every fresh usable name, registration is owed success.
pub proof fn lemma_below_capacity_has_free_minor(h: HostRegistry)
    requires
        h.wf(),
        h.names().len() < DYNAMIC_MINORS,
    ensures
        h.has_free_minor(),
{
    broadcast use vstd::seq_lib::seq_to_set_is_finite;

    if !h.has_free_minor() {
        let ms = h.minors().map_values(|m: u32| m as int);
        let s = ms.to_set();
        assert(vstd::set_lib::set_int_range(0, DYNAMIC_MINORS as int).subset_of(s)) by {
            assert forall|x: int|
                vstd::set_lib::set_int_range(0, DYNAMIC_MINORS as int).contains(
                    x,
                ) implies s.contains(x) by {
                assert(h.minors().contains(x as u32));
                let k = choose|k: int|
                    0 <= k < h.minors().len() && h.minors()[k] == x as u32;
                assert(ms[k] == x);
                assert(ms.contains(x));
            }
        }
        vstd::set_lib::lemma_int_range(0, DYNAMIC_MINORS as int);
        vstd::set_lib::lemma_len_subset(
            vstd::set_lib::set_int_range(0, DYNAMIC_MINORS as int),
            s,
        );
        ms.lemma_cardinality_of_set();
    }
}

} // verus!
