//! The registration handle: it owns the device-description record for
//! its whole lifetime, registers on construction, and deregisters when
//! torn down.

use core::marker::PhantomData;
use vstd::prelude::*;
use crate::error::Error;
use crate::error::to_result;
use crate::host::HostRegistry;
use crate::host::DYNAMIC_MINORS;
use crate::ops::MiscDevice;
use crate::vtable::FileOperations;
use crate::vtable::create_vtable;
use crate::vtable::vtable_spec;

verus! {

/// The minor number that asks the host to pick one dynamically.
pub const MISC_DYNAMIC_MINOR: u32 = 255;

/// A usable device name: a byte string without an interior zero byte,
/// as the host's string representation demands.
pub open spec fn valid_name(n: Seq<u8>) -> bool {
    forall|i: int| 0 <= i < n.len() ==> n[i] != 0
}

/// Options for creating a misc device.
pub struct MiscDeviceOptions {
    /// The name of the device.
    pub name: Vec<u8>,
}

/// The host's derived device object, populated by the host during
/// registration.
#[derive(Copy, Clone, PartialEq, Eq, Structural, Debug)]
pub struct Device {
    /// The minor number the host assigned.
    pub minor: u32,
}

/// The host-visible device-description record: name, minor number,
/// callback table, and the device object the host fills in when it
/// accepts the registration.
pub struct RawMiscDevice {
    /// The minor number: the dynamic-allocation request before
    /// registration, the assigned number after.
    pub minor: u32,
    /// The device name.
    pub name: Vec<u8>,
    /// The callback table for the device's type.
    pub fops: FileOperations,
    /// The derived device object; `None` until the host populates it.
    pub this_device: Option<Device>,
}

impl MiscDeviceOptions {
    /// Create a record ready for registration: dynamic minor requested,
    /// the given name, and the callback table synthesized for `T`.
    pub fn into_raw<T: MiscDevice>(self) -> (r: RawMiscDevice)
        ensures
            r.minor == MISC_DYNAMIC_MINOR,
            r.name@ == self.name@,
            r.fops == vtable_spec(T::capabilities_spec()),
            r.this_device is None,
    {
        RawMiscDevice {
            minor: MISC_DYNAMIC_MINOR,
            name: self.name,
            fops: create_vtable::<T>(),
            this_device: None,
        }
    }
}

/// A live registration of a misc device.
///
/// Once constructed successfully it denotes exactly one registered device
/// until [`MiscDeviceRegistration::unregister`] consumes it; consuming
/// the handle is the only way to deregister, so deregistration happens
/// exactly once.
#[verifier::reject_recursive_types(T)]
pub struct MiscDeviceRegistration<T> {
    inner: RawMiscDevice,
    _t: PhantomData<T>,
}

impl<T: MiscDevice> MiscDeviceRegistration<T> {
    /// The registered name.
    pub closed spec fn spec_name(&self) -> Seq<u8> {
        self.inner.name@
    }

    /// The minor number the host assigned.
    pub closed spec fn spec_minor(&self) -> u32 {
        self.inner.minor
    }

    /// The record's callback table.
    pub closed spec fn spec_fops(&self) -> FileOperations {
        self.inner.fops
    }

    /// The derived device object, as the host populated it.
    pub closed spec fn spec_device(&self) -> Option<Device> {
        self.inner.this_device
    }

    /// What every successfully constructed handle satisfies: the table is
    /// the one synthesized for `T`, the name is usable, and the host has
    /// populated the device object with the assigned minor.
    pub open spec fn wf(&self) -> bool {
        &&& self.spec_fops() == vtable_spec(T::capabilities_spec())
        &&& valid_name(self.spec_name())
        &&& self.spec_minor() < DYNAMIC_MINORS
        &&& self.spec_device() == Some(Device { minor: self.spec_minor() })
    }

    /// Register a misc device.
    ///
    /// Succeeds exactly when the name is not taken and the host still has
    /// a dynamic minor to assign; on success the host holds one more
    /// registration, carrying this name.  On failure no handle exists and
    /// the host is unchanged: there is no partially registered state.
    pub fn register(host: &mut HostRegistry, opts: MiscDeviceOptions) -> (r: Result<Self, Error>)
        requires
            old(host).wf(),
            valid_name(opts.name@),
        ensures
            final(host).wf(),
            r is Ok <==> (!old(host).names().contains(opts.name@) && old(host).has_free_minor()),
            r matches Ok(reg) ==> {
                &&& reg.wf()
                &&& reg.spec_name() == opts.name@
                &&& final(host).names() == old(host).names().push(opts.name@)
            },
            r is Err ==> *final(host) == *old(host),
            r matches Err(e) ==> if old(host).names().contains(opts.name@) {
                e == Error::Exists
            } else {
                e == Error::Busy
            },
    {
        let mut raw = opts.into_raw::<T>();
        let rc = host.misc_register(&mut raw);
        match to_result(rc) {
            Ok(()) => Ok(MiscDeviceRegistration { inner: raw, _t: PhantomData }),
            Err(e) => Err(e),
        }
    }

    /// The raw device-description record.
    pub fn as_raw(&self) -> (r: &RawMiscDevice)
        ensures
            r.minor == self.spec_minor(),
            r.name@ == self.spec_name(),
            r.fops == self.spec_fops(),
            r.this_device == self.spec_device(),
    {
        &self.inner
    }

    /// The host's derived device object.  The returned reference cannot
    /// outlive the handle, so the device is only ever observed while the
    /// registration is alive.
    pub fn device(&self) -> (d: &Device)
        requires
            self.wf(),
        ensures
            d.minor == self.spec_minor(),
    {
        match &self.inner.this_device {
            Some(d) => d,
            None => vstd::pervasive::unreached(),
        }
    }

    /// Deregister the device, consuming the handle: the host drops
    /// exactly this registration and keeps every other one.
    pub fn unregister(self, host: &mut HostRegistry)
        requires
            old(host).wf(),
            old(host).names().contains(self.spec_name()),
        ensures
            final(host).wf(),
            final(host).names().len() == old(host).names().len() - 1,
            !final(host).names().contains(self.spec_name()),
            forall|n: Seq<u8>|
                n != self.spec_name() ==> (final(host).names().contains(n) <==> old(
                    host,
                ).names().contains(n)),
    {
        host.misc_deregister(self.inner.name.as_slice());
    }
}

} // verus!
