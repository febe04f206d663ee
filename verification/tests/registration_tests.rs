use miscdevice::error::Error;
use miscdevice::host::HostRegistry;
use miscdevice::registration::MiscDeviceOptions;
use miscdevice::registration::MiscDeviceRegistration;
use miscdevice::sample::CounterDevice;
use miscdevice::sample::EchoDevice;
use miscdevice::sample::NullDevice;
use miscdevice::vtable::CompatSlot;
use miscdevice::vtable::build_vtable;
use miscdevice::vtable::create_vtable;
use miscdevice::vtable::CapabilityDescriptor;

fn name(bytes: &[u8]) -> Vec<u8> {
    bytes.to_vec()
}

#[test]
fn register_unique_names_succeeds() {
    let mut host = HostRegistry::new();
    assert_eq!(host.device_count(), 0);

    let a = MiscDeviceRegistration::<CounterDevice>::register(
        &mut host,
        MiscDeviceOptions { name: name(b"alpha") },
    )
    .unwrap();
    let b = MiscDeviceRegistration::<NullDevice>::register(
        &mut host,
        MiscDeviceOptions { name: name(b"beta") },
    )
    .unwrap();
    assert_eq!(host.device_count(), 2);

    // Both handles expose a populated device object with an assigned
    // dynamic minor.
    assert!(a.device().minor < 64);
    assert!(b.device().minor < 64);
    assert_ne!(a.device().minor, b.device().minor);
    assert_eq!(a.as_raw().this_device, Some(*a.device()));

    // Destroying each handle deregisters exactly once: the count
    // returns to zero.
    a.unregister(&mut host);
    assert_eq!(host.device_count(), 1);
    b.unregister(&mut host);
    assert_eq!(host.device_count(), 0);
}

#[test]
fn register_colliding_name_fails() {
    let mut host = HostRegistry::new();
    let first = MiscDeviceRegistration::<CounterDevice>::register(
        &mut host,
        MiscDeviceOptions { name: name(b"shared") },
    );
    assert!(first.is_ok());
    assert_eq!(host.device_count(), 1);

    let second = MiscDeviceRegistration::<NullDevice>::register(
        &mut host,
        MiscDeviceOptions { name: name(b"shared") },
    );
    match second {
        Err(e) => assert_eq!(e, Error::Exists),
        Ok(_) => panic!("colliding registration must fail"),
    }
    // No partial state: the collision left the host untouched.
    assert_eq!(host.device_count(), 1);
    assert!(host.name_used(b"shared"));
    assert!(!host.name_used(b"other"));
}

#[test]
fn exercise_runs_one_full_device_lifetime() {
    let mut host = HostRegistry::new();
    let keeper = MiscDeviceRegistration::<NullDevice>::register(
        &mut host,
        MiscDeviceOptions { name: name(b"keeper") },
    )
    .unwrap();
    let (d, sink) = miscdevice::sample::exercise_counter_device(&mut host, name(b"exercised"));
    assert!(d.minor < 64);
    // The verified pass observed five increments through the fdinfo path.
    assert_eq!(sink.contents().as_slice(), &[5, 0, 0, 0, 0, 0, 0, 0]);
    // The exercised device came and went; the keeper is still there.
    assert_eq!(host.device_count(), 1);
    assert!(host.name_used(b"keeper"));
    assert!(!host.name_used(b"exercised"));
    keeper.unregister(&mut host);
}

#[test]
fn register_exhaustion_fails_with_busy() {
    let mut host = HostRegistry::new();
    let mut handles = Vec::new();
    for i in 0..64u32 {
        let mut n = name(b"dev");
        n.push(b'a' + (i / 26) as u8);
        n.push(b'a' + (i % 26) as u8);
        handles.push(
            MiscDeviceRegistration::<NullDevice>::register(
                &mut host,
                MiscDeviceOptions { name: n },
            )
            .unwrap(),
        );
    }
    assert_eq!(host.device_count(), 64);
    let overflowing = MiscDeviceRegistration::<NullDevice>::register(
        &mut host,
        MiscDeviceOptions { name: name(b"onemore") },
    );
    match overflowing {
        Err(e) => assert_eq!(e, Error::Busy),
        Ok(_) => panic!("registration without a free minor must fail"),
    }
    for h in handles {
        h.unregister(&mut host);
    }
    assert_eq!(host.device_count(), 0);
}

#[test]
fn vtable_ioctl_only_installs_fallback_compat() {
    let t = create_vtable::<CounterDevice>();
    assert!(t.open);
    assert!(t.release);
    assert!(t.unlocked_ioctl);
    assert_eq!(t.compat_ioctl, CompatSlot::Fallback);
    assert!(t.show_fdinfo);
}

#[test]
fn vtable_both_handlers_installs_author_compat() {
    let t = create_vtable::<EchoDevice>();
    assert!(t.unlocked_ioctl);
    assert_eq!(t.compat_ioctl, CompatSlot::Author);
    assert!(!t.show_fdinfo);
}

#[test]
fn vtable_no_overrides_installs_no_optional_slot() {
    let t = create_vtable::<NullDevice>();
    assert!(t.open);
    assert!(t.release);
    assert!(!t.unlocked_ioctl);
    assert_eq!(t.compat_ioctl, CompatSlot::Absent);
    assert!(!t.show_fdinfo);
}

#[test]
fn vtable_builder_follows_descriptor() {
    let c = CapabilityDescriptor {
        has_ioctl: false,
        has_compat_ioctl: true,
        has_show_fdinfo: false,
    };
    let t = build_vtable(c);
    assert_eq!(t.compat_ioctl, CompatSlot::Author);
    assert!(!t.unlocked_ioctl);
}

#[test]
fn error_kinds_convert_to_their_codes() {
    assert_eq!(Error::Invalid.to_errno(), -22);
    assert_eq!(Error::NoMemory.to_errno(), -12);
    assert_eq!(Error::Busy.to_errno(), -16);
    assert_eq!(Error::Exists.to_errno(), -17);
    assert_eq!(Error::NotTty.to_errno(), -25);
    assert_eq!(Error::Overflow.to_errno(), -75);
    assert_eq!(Error::NotImplemented.to_errno(), -38);
}

#[test]
fn known_codes_convert_back() {
    for k in [
        Error::Invalid,
        Error::NoMemory,
        Error::Busy,
        Error::Exists,
        Error::NotTty,
        Error::Overflow,
        Error::NotImplemented,
    ] {
        assert_eq!(miscdevice::error::from_errno(k.to_errno()), k);
    }
}

#[test]
fn into_raw_requests_dynamic_minor() {
    let raw = MiscDeviceOptions { name: name(b"rawdev") }
        .into_raw::<CounterDevice>();
    assert_eq!(raw.minor, miscdevice::registration::MISC_DYNAMIC_MINOR);
    assert_eq!(raw.name, name(b"rawdev"));
    assert_eq!(raw.this_device, None);
    assert!(raw.fops.unlocked_ioctl);
}
