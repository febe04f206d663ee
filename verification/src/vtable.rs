//! The capability descriptor and the dispatch-table builder.
//!
//! A device type states once, at construction time, which optional
//! operations it overrides; the builder turns that descriptor into the
//! host's callback table, choosing per slot between the author's handler,
//! a generic fallback, or leaving the slot absent.

use vstd::prelude::*;

verus! {

/// Which optional operations a device type actually overrides.
///
/// Computed once per type, before any table is built, and never mutated:
/// every table for the type is a pure function of this record.
#[derive(Copy, Clone, PartialEq, Eq, Structural, Debug)]
pub struct CapabilityDescriptor {
    /// The type overrides `ioctl`.
    pub has_ioctl: bool,
    /// The type overrides `compat_ioctl`.
    pub has_compat_ioctl: bool,
    /// The type overrides `show_fdinfo`.
    pub has_show_fdinfo: bool,
}

/// What the compat ioctl slot holds: the author's own handler, the
/// generic fallback that reinterprets the primary handler's argument
/// layout, or nothing.
#[derive(Copy, Clone, PartialEq, Eq, Structural, Debug)]
pub enum CompatSlot {
    /// The author's `compat_ioctl` handler is installed verbatim.
    Author,
    /// The generic pointer-width fallback routes to the primary `ioctl`
    /// handler.
    Fallback,
    /// No handler; the host falls back to its own default behavior.
    Absent,
}

/// The host's callback table for one device type: per slot, whether (and
/// which) handler is installed.  Immutable once built and shared by every
/// registration and session of the type.
#[derive(Copy, Clone, PartialEq, Eq, Structural, Debug)]
pub struct FileOperations {
    /// The open handler; mandatory, always installed.
    pub open: bool,
    /// The release handler; mandatory, always installed.
    pub release: bool,
    /// The primary ioctl handler; installed iff overridden.
    pub unlocked_ioctl: bool,
    /// The compat ioctl slot, chosen by the three-way rule.
    pub compat_ioctl: CompatSlot,
    /// The fdinfo handler; installed iff overridden.
    pub show_fdinfo: bool,
}

/// The table the builder produces for a descriptor: open and release are
/// always installed; `ioctl` and `show_fdinfo` exactly when overridden;
/// the compat slot holds the author's handler when overridden, else the
/// generic fallback when the primary handler was overridden, else
/// nothing.
pub open spec fn vtable_spec(c: CapabilityDescriptor) -> FileOperations {
    FileOperations {
        open: true,
        release: true,
        unlocked_ioctl: c.has_ioctl,
        compat_ioctl: if c.has_compat_ioctl {
            CompatSlot::Author
        } else if c.has_ioctl {
            CompatSlot::Fallback
        } else {
            CompatSlot::Absent
        },
        show_fdinfo: c.has_show_fdinfo,
    }
}

/// Build the callback table for a descriptor.
pub fn build_vtable(c: CapabilityDescriptor) -> (t: FileOperations)
    ensures
        t == vtable_spec(c),
{
    FileOperations {
        open: true,
        release: true,
        unlocked_ioctl: c.has_ioctl,
        compat_ioctl: if c.has_compat_ioctl {
            CompatSlot::Author
        } else if c.has_ioctl {
            CompatSlot::Fallback
        } else {
            CompatSlot::Absent
        },
        show_fdinfo: c.has_show_fdinfo,
    }
}

/// Synthesize the callback table for a device type from its capability
/// descriptor.
pub fn create_vtable<T: crate::ops::MiscDevice>() -> (t: FileOperations)
    ensures
        t == vtable_spec(T::capabilities_spec()),
{
    build_vtable(T::capabilities())
}

/// A populated optional slot always traces back to the descriptor: a
/// handler is installed if and only if the descriptor marks the
/// operation overridden, or the fallback rule for the compat slot
/// applies.
pub proof fn lemma_slot_iff_capability(c: CapabilityDescriptor)
    ensures
        vtable_spec(c).open && vtable_spec(c).release,
        vtable_spec(c).unlocked_ioctl <==> c.has_ioctl,
        vtable_spec(c).show_fdinfo <==> c.has_show_fdinfo,
        vtable_spec(c).compat_ioctl is Author <==> c.has_compat_ioctl,
        vtable_spec(c).compat_ioctl is Fallback <==> (!c.has_compat_ioctl && c.has_ioctl),
        vtable_spec(c).compat_ioctl is Absent <==> (!c.has_compat_ioctl && !c.has_ioctl),
{
}

} // verus!
