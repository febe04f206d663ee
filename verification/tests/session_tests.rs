use miscdevice::error::Error;
use miscdevice::file::File;
use miscdevice::file::Inode;
use miscdevice::file::SeqFile;
use miscdevice::file::generic_file_open;
use miscdevice::host::HostRegistry;
use miscdevice::host::host_compat_ioctl;
use miscdevice::host::host_ioctl;
use miscdevice::host::host_show_fdinfo;
use miscdevice::lifecycle::SessionPhase;
use miscdevice::ops::MiscDevice;
use miscdevice::registration::MiscDeviceOptions;
use miscdevice::registration::MiscDeviceRegistration;
use miscdevice::sample::BusyDevice;
use miscdevice::sample::CounterDevice;
use miscdevice::sample::CounterValue;
use miscdevice::sample::EchoDevice;
use miscdevice::sample::NullDevice;
use miscdevice::sample::NullValue;
use miscdevice::sample::COUNTER_INCR;
use miscdevice::sample::COUNTER_WIDTH_PROBE;
use miscdevice::session::Session;
use miscdevice::session::fops_open;
use miscdevice::session::fops_release;
use miscdevice::session::fops_ioctl;
use miscdevice::session::fops_show_fdinfo;
use miscdevice::session::compat_ptr_ioctl;
use miscdevice::session::ioctl_result_to_status;
use miscdevice::session::compat_mask;

fn plain_file() -> File {
    File { large_file: true }
}

fn small_inode() -> Inode {
    Inode { size: 0 }
}

#[test]
fn session_lifecycle_open_then_ops_then_release() {
    let mut host = HostRegistry::new();
    let reg = MiscDeviceRegistration::<CounterDevice>::register(
        &mut host,
        MiscDeviceOptions { name: b"lifecycle".to_vec() },
    )
    .unwrap();

    let mut session: Session<CounterValue> = Session::new(small_inode(), plain_file());
    assert_eq!(session.phase(), SessionPhase::Unopened);

    let rc = fops_open::<CounterDevice>(&mut session, &reg);
    assert_eq!(rc, 0);
    assert_eq!(session.phase(), SessionPhase::Open);

    // Repeated borrows against the one installed token: none of them
    // observes a reclaimed value and none reclaims it.
    for _ in 0..5 {
        let (status, _) = fops_ioctl::<CounterDevice>(&mut session, COUNTER_INCR, 0);
        assert_eq!(status, 0);
        assert_eq!(session.phase(), SessionPhase::Open);
    }

    // The one reclaim, after every other operation.
    let rc = fops_release::<CounterDevice>(&mut session);
    assert_eq!(rc, 0);
    assert_eq!(session.phase(), SessionPhase::Released);

    reg.unregister(&mut host);
}

#[test]
fn open_failure_installs_nothing() {
    let mut host = HostRegistry::new();
    let reg = MiscDeviceRegistration::<BusyDevice>::register(
        &mut host,
        MiscDeviceOptions { name: b"busy".to_vec() },
    )
    .unwrap();
    let mut session: Session<NullValue> = Session::new(small_inode(), plain_file());
    let rc = fops_open::<BusyDevice>(&mut session, &reg);
    assert_eq!(rc, Error::Busy.to_errno());
    assert_eq!(session.phase(), SessionPhase::Unopened);
    reg.unregister(&mut host);
}

#[test]
fn host_file_init_failure_precedes_author_open() {
    // A small-file opener may not open an inode that needs more than
    // 31 bits; the author's open never runs and nothing is installed.
    let big = Inode { size: 1 << 40 };
    let narrow = File { large_file: false };
    assert_eq!(generic_file_open(&big, &narrow), Error::Overflow.to_errno());

    let mut host = HostRegistry::new();
    let reg = MiscDeviceRegistration::<CounterDevice>::register(
        &mut host,
        MiscDeviceOptions { name: b"large".to_vec() },
    )
    .unwrap();
    let mut session: Session<CounterValue> = Session::new(big, narrow);
    let rc = fops_open::<CounterDevice>(&mut session, &reg);
    assert_eq!(rc, Error::Overflow.to_errno());
    assert_eq!(session.phase(), SessionPhase::Unopened);
    reg.unregister(&mut host);
}

#[test]
fn unoverridden_operations_return_not_implemented() {
    let file = plain_file();
    let mut v = NullValue;
    assert_eq!(
        <NullDevice as MiscDevice>::ioctl(&mut v, &file, 0, 0),
        Err(Error::NotImplemented)
    );
    assert_eq!(
        <NullDevice as MiscDevice>::compat_ioctl(&mut v, &file, 0, 0),
        Err(Error::NotImplemented)
    );
    // The fdinfo default has no failure channel: it writes nothing.
    let mut sink = SeqFile::new();
    <NullDevice as MiscDevice>::show_fdinfo(&v, &mut sink, &file);
    assert!(sink.contents().is_empty());
}

#[test]
fn overridden_operations_return_the_declared_result() {
    let file = plain_file();
    let mut c = CounterValue { count: 0 };
    assert_eq!(
        <CounterDevice as MiscDevice>::ioctl(&mut c, &file, COUNTER_INCR, 0),
        Ok(0)
    );
    assert_eq!(c.count, 1);
    assert_eq!(
        <CounterDevice as MiscDevice>::ioctl(&mut c, &file, 999, 0),
        Err(Error::Invalid)
    );
    let mut saturated = CounterValue { count: u64::MAX };
    assert_eq!(
        <CounterDevice as MiscDevice>::ioctl(&mut saturated, &file, COUNTER_INCR, 0),
        Err(Error::Overflow)
    );
    let mut e = miscdevice::sample::EchoValue;
    assert_eq!(
        <EchoDevice as MiscDevice>::ioctl(&mut e, &file, 0, 0x1_23),
        Ok(0x23)
    );
    assert_eq!(
        <EchoDevice as MiscDevice>::compat_ioctl(&mut e, &file, 0, 0x1_23),
        Ok(0x23 + 256)
    );
}

#[test]
fn host_routes_ioctl_through_installed_slot_only() {
    let mut host = HostRegistry::new();
    let reg = MiscDeviceRegistration::<NullDevice>::register(
        &mut host,
        MiscDeviceOptions { name: b"noops".to_vec() },
    )
    .unwrap();
    let mut session: Session<NullValue> = Session::new(small_inode(), plain_file());
    assert_eq!(fops_open::<NullDevice>(&mut session, &reg), 0);

    // No ioctl slot installed: the host answers with its own default.
    let (status, _) = host_ioctl::<NullDevice>(&reg, &mut session, 0, 0);
    assert_eq!(status, Error::NotTty.to_errno() as isize);
    let (status, _) = host_compat_ioctl::<NullDevice>(&reg, &mut session, 0, 0);
    assert_eq!(status, Error::NotTty.to_errno() as isize);
    // No fdinfo slot installed: the sink stays untouched.
    let mut sink = SeqFile::new();
    host_show_fdinfo::<NullDevice>(&reg, &session, &mut sink);
    assert!(sink.contents().is_empty());

    assert_eq!(fops_release::<NullDevice>(&mut session), 0);
    reg.unregister(&mut host);
}

#[test]
fn compat_fallback_narrows_the_argument() {
    let mut host = HostRegistry::new();
    let reg = MiscDeviceRegistration::<CounterDevice>::register(
        &mut host,
        MiscDeviceOptions { name: b"narrow".to_vec() },
    )
    .unwrap();
    let mut session: Session<CounterValue> = Session::new(small_inode(), plain_file());
    assert_eq!(fops_open::<CounterDevice>(&mut session, &reg), 0);

    let wide_arg: usize = (1usize << 32) + 5;
    assert_eq!(compat_mask(wide_arg), 5);

    // Through the primary convention the probe sees the wide argument.
    let (status, _) =
        host_ioctl::<CounterDevice>(&reg, &mut session, COUNTER_WIDTH_PROBE, wide_arg);
    assert_eq!(status, 1);

    // Through the compat convention the fallback narrows it first.
    let (status, _) =
        host_compat_ioctl::<CounterDevice>(&reg, &mut session, COUNTER_WIDTH_PROBE, wide_arg);
    assert_eq!(status, 0);

    // The same narrowing, straight through the fallback shim.
    let (status, _) =
        compat_ptr_ioctl::<CounterDevice>(&mut session, COUNTER_WIDTH_PROBE, wide_arg);
    assert_eq!(status, 0);

    assert_eq!(fops_release::<CounterDevice>(&mut session), 0);
    reg.unregister(&mut host);
}

#[test]
fn compat_author_handler_is_used_verbatim() {
    let mut host = HostRegistry::new();
    let reg = MiscDeviceRegistration::<EchoDevice>::register(
        &mut host,
        MiscDeviceOptions { name: b"echo".to_vec() },
    )
    .unwrap();
    let mut session: Session<miscdevice::sample::EchoValue> =
        Session::new(small_inode(), plain_file());
    assert_eq!(fops_open::<EchoDevice>(&mut session, &reg), 0);

    let (status, _) = host_ioctl::<EchoDevice>(&reg, &mut session, 0, 7);
    assert_eq!(status, 7);
    let (status, _) = host_compat_ioctl::<EchoDevice>(&reg, &mut session, 0, 7);
    assert_eq!(status, 7 + 256);

    assert_eq!(fops_release::<EchoDevice>(&mut session), 0);
    reg.unregister(&mut host);
}

#[test]
fn status_encoding_is_value_or_negated_code() {
    assert_eq!(ioctl_result_to_status(Ok(41)), 41);
    assert_eq!(ioctl_result_to_status(Ok(0)), 0);
    assert_eq!(ioctl_result_to_status(Err(Error::Invalid)), -22);
    assert_eq!(ioctl_result_to_status(Err(Error::NotImplemented)), -38);
}

#[test]
fn end_to_end_counter_device() {
    let mut host = HostRegistry::new();
    let reg = MiscDeviceRegistration::<CounterDevice>::register(
        &mut host,
        MiscDeviceOptions { name: b"testdev".to_vec() },
    )
    .unwrap();
    assert_eq!(host.device_count(), 1);

    let mut session: Session<CounterValue> = Session::new(small_inode(), plain_file());
    assert_eq!(fops_open::<CounterDevice>(&mut session, &reg), 0);

    // Five sequential increments, as the host contract demands.
    for _ in 0..5 {
        let (status, _) = host_ioctl::<CounterDevice>(&reg, &mut session, COUNTER_INCR, 0);
        assert_eq!(status, 0);
    }

    // The counter reads five through the fdinfo path.
    let mut sink = SeqFile::new();
    host_show_fdinfo::<CounterDevice>(&reg, &session, &mut sink);
    assert_eq!(sink.contents().as_slice(), &[5, 0, 0, 0, 0, 0, 0, 0]);

    // The shim path reports the same bytes.
    let mut sink2 = SeqFile::new();
    fops_show_fdinfo::<CounterDevice>(&session, &mut sink2);
    assert_eq!(sink2.contents().as_slice(), &[5, 0, 0, 0, 0, 0, 0, 0]);

    assert_eq!(fops_release::<CounterDevice>(&mut session), 0);
    assert_eq!(session.phase(), SessionPhase::Released);

    // Releasing the session does not deregister the device; only
    // destroying the registration does.
    assert_eq!(host.device_count(), 1);
    reg.unregister(&mut host);
    assert_eq!(host.device_count(), 0);
}
