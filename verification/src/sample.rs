//! Reference device implementations, one per interesting shape of the
//! capability descriptor.  They exercise the layer end to end — through
//! registration, the synthesized table, the shims and the adapter — and
//! double as worked examples for driver authors.

use vstd::prelude::*;
use crate::error::Error;
use crate::file::File;
use crate::file::Inode;
use crate::file::SeqFile;
use crate::foreign::ForeignOwnable;
use crate::host::DYNAMIC_MINORS;
use crate::host::HostRegistry;
use crate::ops::MiscDevice;
use crate::registration::Device;
use crate::registration::MiscDeviceOptions;
use crate::registration::MiscDeviceRegistration;
use crate::registration::valid_name;
use crate::session::Session;
use crate::session::fops_ioctl;
use crate::session::fops_open;
use crate::session::fops_release;
use crate::session::fops_show_fdinfo;
use crate::vtable::CapabilityDescriptor;

verus! {

/// Control request: add one to the session's counter.
pub const COUNTER_INCR: u32 = 1;

/// Control request: report whether the argument needed more than the
/// compat calling convention's 32 bits.
pub const COUNTER_WIDTH_PROBE: u32 = 2;

/// Byte `i` of a counter reading, least significant first.
pub open spec fn counter_le_byte(x: u64, i: int) -> u8 {
    ((x >> ((8 * i) as u64)) & 0xFF) as u8
}

/// A counter reading as fdinfo reports it: eight bytes, least
/// significant first.
pub open spec fn counter_le_bytes(x: u64) -> Seq<u8> {
    Seq::new(8, |i: int| counter_le_byte(x, i))
}

/// Encode a counter reading as fdinfo reports it.
pub fn counter_encode(x: u64) -> (v: Vec<u8>)
    ensures
        v@ == counter_le_bytes(x),
{
    let mut v: Vec<u8> = Vec::new();
    let mut i: usize = 0;
    while i < 8
        invariant
            i <= 8,
            v@.len() == i,
            forall|j: int| 0 <= j < i ==> v@[j] == counter_le_byte(x, j),
        decreases 8 - i,
    {
        let sh: u64 = 8 * (i as u64);
        let wide: u64 = (x >> sh) & 0xFF;
        proof {
            assert((x >> sh) & 0xFF < 256) by (bit_vector);
        }
        v.push(wide as u8);
        i = i + 1;
    }
    proof {
        assert(v@ =~= counter_le_bytes(x));
    }
    v
}

/// The counting device's per-session value.
pub struct CounterValue {
    /// How many increments this session has seen.
    pub count: u64,
}

impl ForeignOwnable for CounterValue {

}

/// A device whose sessions count increments: it overrides `ioctl` and
/// `show_fdinfo` but not `compat_ioctl`, so its table routes compat
/// requests through the generic fallback.
pub struct CounterDevice;

impl MiscDevice for CounterDevice {
    type Ptr = CounterValue;

    open spec fn capabilities_spec() -> CapabilityDescriptor {
        CapabilityDescriptor { has_ioctl: true, has_compat_ioctl: false, has_show_fdinfo: true }
    }

    fn capabilities() -> (c: CapabilityDescriptor) {
        CapabilityDescriptor { has_ioctl: true, has_compat_ioctl: false, has_show_fdinfo: true }
    }

    open spec fn open_spec(file: File, misc: MiscDeviceRegistration<Self>) -> Result<
        CounterValue,
        Error,
    > {
        Ok(CounterValue { count: 0 })
    }

    fn open(file: &File, misc: &MiscDeviceRegistration<Self>) -> (r: Result<CounterValue, Error>) {
        Ok(CounterValue { count: 0 })
    }

    open spec fn ioctl_spec(device: CounterValue, file: File, cmd: u32, arg: usize) -> (
        CounterValue,
        Result<isize, Error>,
    ) {
        if cmd == COUNTER_INCR {
            if device.count == u64::MAX {
                (device, Err(Error::Overflow))
            } else {
                (CounterValue { count: (device.count + 1) as u64 }, Ok(0))
            }
        } else if cmd == COUNTER_WIDTH_PROBE {
            (device, Ok(if arg > 0xFFFF_FFFF { 1 } else { 0 }))
        } else {
            (device, Err(Error::Invalid))
        }
    }

    fn ioctl(device: &mut CounterValue, file: &File, cmd: u32, arg: usize) -> (r: Result<
        isize,
        Error,
    >) {
        if cmd == COUNTER_INCR {
            if device.count == u64::MAX {
                Err(Error::Overflow)
            } else {
                device.count = device.count + 1;
                Ok(0)
            }
        } else if cmd == COUNTER_WIDTH_PROBE {
            if arg > 0xFFFF_FFFF {
                Ok(1)
            } else {
                Ok(0)
            }
        } else {
            Err(Error::Invalid)
        }
    }

    fn compat_ioctl(device: &mut CounterValue, file: &File, cmd: u32, arg: usize) -> (r: Result<
        isize,
        Error,
    >) {
        Err(Error::NotImplemented)
    }

    open spec fn show_fdinfo_spec(device: CounterValue, sink: Seq<u8>, file: File) -> Seq<u8> {
        sink + counter_le_bytes(device.count)
    }

    fn show_fdinfo(device: &CounterValue, m: &mut SeqFile, file: &File) {
        let bytes = counter_encode(device.count);
        m.write_bytes(bytes.as_slice());
    }
}

/// The echoing device's per-session value; it carries no state.
pub struct EchoValue;

impl ForeignOwnable for EchoValue {

}

/// A device that overrides both `ioctl` and `compat_ioctl`, so its own
/// compat handler is installed verbatim.  Each handler echoes the
/// argument's low byte, offset so the two are distinguishable.
pub struct EchoDevice;

impl MiscDevice for EchoDevice {
    type Ptr = EchoValue;

    open spec fn capabilities_spec() -> CapabilityDescriptor {
        CapabilityDescriptor { has_ioctl: true, has_compat_ioctl: true, has_show_fdinfo: false }
    }

    fn capabilities() -> (c: CapabilityDescriptor) {
        CapabilityDescriptor { has_ioctl: true, has_compat_ioctl: true, has_show_fdinfo: false }
    }

    open spec fn open_spec(file: File, misc: MiscDeviceRegistration<Self>) -> Result<
        EchoValue,
        Error,
    > {
        Ok(EchoValue)
    }

    fn open(file: &File, misc: &MiscDeviceRegistration<Self>) -> (r: Result<EchoValue, Error>) {
        Ok(EchoValue)
    }

    open spec fn ioctl_spec(device: EchoValue, file: File, cmd: u32, arg: usize) -> (
        EchoValue,
        Result<isize, Error>,
    ) {
        (device, Ok((arg % 256) as isize))
    }

    fn ioctl(device: &mut EchoValue, file: &File, cmd: u32, arg: usize) -> (r: Result<
        isize,
        Error,
    >) {
        Ok((arg % 256) as isize)
    }

    open spec fn compat_ioctl_spec(device: EchoValue, file: File, cmd: u32, arg: usize) -> (
        EchoValue,
        Result<isize, Error>,
    ) {
        (device, Ok(((arg % 256) + 256) as isize))
    }

    fn compat_ioctl(device: &mut EchoValue, file: &File, cmd: u32, arg: usize) -> (r: Result<
        isize,
        Error,
    >) {
        Ok(((arg % 256) + 256) as isize)
    }

    fn show_fdinfo(device: &EchoValue, m: &mut SeqFile, file: &File) {
    }
}

/// The minimal device's per-session value; it carries no state.
pub struct NullValue;

impl ForeignOwnable for NullValue {

}

/// A device overriding no optional operation at all: its table leaves
/// every optional slot absent, and the defaults answer any direct call
/// with the distinguished not-implemented error.
pub struct NullDevice;

impl MiscDevice for NullDevice {
    type Ptr = NullValue;

    open spec fn capabilities_spec() -> CapabilityDescriptor {
        CapabilityDescriptor { has_ioctl: false, has_compat_ioctl: false, has_show_fdinfo: false }
    }

    fn capabilities() -> (c: CapabilityDescriptor) {
        CapabilityDescriptor { has_ioctl: false, has_compat_ioctl: false, has_show_fdinfo: false }
    }

    open spec fn open_spec(file: File, misc: MiscDeviceRegistration<Self>) -> Result<
        NullValue,
        Error,
    > {
        Ok(NullValue)
    }

    fn open(file: &File, misc: &MiscDeviceRegistration<Self>) -> (r: Result<NullValue, Error>) {
        Ok(NullValue)
    }

    fn ioctl(device: &mut NullValue, file: &File, cmd: u32, arg: usize) -> (r: Result<
        isize,
        Error,
    >) {
        Err(Error::NotImplemented)
    }

    fn compat_ioctl(device: &mut NullValue, file: &File, cmd: u32, arg: usize) -> (r: Result<
        isize,
        Error,
    >) {
        Err(Error::NotImplemented)
    }

    fn show_fdinfo(device: &NullValue, m: &mut SeqFile, file: &File) {
    }
}

/// A device that admits no sessions: its `open` always refuses, so no
/// value is ever installed and the failure code reaches the opener
/// unmodified.
pub struct BusyDevice;

impl MiscDevice for BusyDevice {
    type Ptr = NullValue;

    open spec fn capabilities_spec() -> CapabilityDescriptor {
        CapabilityDescriptor { has_ioctl: false, has_compat_ioctl: false, has_show_fdinfo: false }
    }

    fn capabilities() -> (c: CapabilityDescriptor) {
        CapabilityDescriptor { has_ioctl: false, has_compat_ioctl: false, has_show_fdinfo: false }
    }

    open spec fn open_spec(file: File, misc: MiscDeviceRegistration<Self>) -> Result<
        NullValue,
        Error,
    > {
        Err(Error::Busy)
    }

    fn open(file: &File, misc: &MiscDeviceRegistration<Self>) -> (r: Result<NullValue, Error>) {
        Err(Error::Busy)
    }

    fn ioctl(device: &mut NullValue, file: &File, cmd: u32, arg: usize) -> (r: Result<
        isize,
        Error,
    >) {
        Err(Error::NotImplemented)
    }

    fn compat_ioctl(device: &mut NullValue, file: &File, cmd: u32, arg: usize) -> (r: Result<
        isize,
        Error,
    >) {
        Err(Error::NotImplemented)
    }

    fn show_fdinfo(device: &NullValue, m: &mut SeqFile, file: &File) {
    }
}


/// One complete, verified pass through the layer: register a counting
/// device under a fresh name, run a whole session against it — open,
/// five increments, one fdinfo report, release — and deregister again.
///
/// What is proved, for every well-formed host with a dynamic minor to
/// spare and a fresh usable name: registration succeeds and its handle
/// carries a populated device object; the session walks Unopened to
/// Open to Released, installing the author's value exactly once and
/// reclaiming it exactly once; after the five increments the fdinfo
/// report read a counter of exactly five; and once the handle is
/// consumed the host holds exactly the registrations it held before.
pub fn exercise_counter_device(host: &mut HostRegistry, name: Vec<u8>) -> (r: (Device, SeqFile))
    requires
        old(host).wf(),
        valid_name(name@),
        !old(host).names().contains(name@),
        old(host).names().len() < DYNAMIC_MINORS,
    ensures
        final(host).wf(),
        final(host).names().len() == old(host).names().len(),
        forall|x: Seq<u8>|
            final(host).names().contains(x) <==> old(host).names().contains(x),
        r.0.minor < DYNAMIC_MINORS,
        r.1@ == counter_le_bytes(5),
{
    proof {
        crate::host::lemma_below_capacity_has_free_minor(*old(host));
    }
    let ghost n = name@;
    let opts = MiscDeviceOptions { name };
    let reg = match MiscDeviceRegistration::<CounterDevice>::register(host, opts) {
        Ok(reg) => reg,
        Err(_) => {
            proof {
                assert(false);
            }
            vstd::pervasive::unreached()
        },
    };
    let ghost pushed = *host;
    let d = *reg.device();

    let mut session: Session<CounterValue> = Session::new(
        Inode { size: 0 },
        File { large_file: true },
    );
    assert(session.phase_spec() is Unopened);
    let rc = fops_open::<CounterDevice>(&mut session, &reg);
    assert(rc == 0);
    assert(session.value_spec().count == 0);

    let mut i: u32 = 0;
    while i < 5
        invariant
            i <= 5,
            session.phase_spec() is Open,
            session.value_spec().count == i,
            session.spec_file() == (File { large_file: true }),
        decreases 5 - i,
    {
        let (status, _) = fops_ioctl::<CounterDevice>(&mut session, COUNTER_INCR, 0);
        assert(status == 0);
        i = i + 1;
    }
    assert(session.value_spec().count == 5);

    let mut sink = SeqFile::new();
    fops_show_fdinfo::<CounterDevice>(&session, &mut sink);
    proof {
        assert(sink@ =~= counter_le_bytes(5));
    }

    let rc2 = fops_release::<CounterDevice>(&mut session);
    assert(rc2 == 0);
    assert(session.phase_spec() is Released);

    proof {
        assert(host.names()[old(host).names().len() as int] == n);
        assert(host.names().contains(n));
    }
    reg.unregister(host);
    proof {
        assert forall|x: Seq<u8>|
            host.names().contains(x) <==> old(host).names().contains(x) by {
            if x == n {
                if old(host).names().contains(x) {
                    assert(false);
                }
            } else {
                if pushed.names().contains(x) {
                    let k = choose|k: int|
                        0 <= k < pushed.names().len() && pushed.names()[k] == x;
                    assert(old(host).names()[k] == x);
                    assert(old(host).names().contains(x));
                }
                if old(host).names().contains(x) {
                    let k = choose|k: int|
                        0 <= k < old(host).names().len() && old(host).names()[k] == x;
                    assert(pushed.names()[k] == x);
                    assert(pushed.names().contains(x));
                }
            }
        }
    }
    (d, sink)
}

} // verus!
