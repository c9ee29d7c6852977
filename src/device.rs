//! Device class records: realization, migration layout and properties.

use vstd::prelude::*;
use crate::object::ObjectClass;
use crate::reset::{declared_phases, ResettableClass, ResettablePhases, ResettablePhasesImpl};

verus! {

/// The host's descriptor of a property's type (its parser and printer),
/// known here only by its identity.
#[derive(Clone, Copy, Debug, PartialEq, Eq, Structural)]
pub struct PropertyInfo {
    pub id: u64,
}

/// The migration layout of a device, consumed by the host's migration engine.
#[derive(Clone, Copy, Debug)]
pub struct VMStateDescription {
    pub name: &'static str,
    pub version_id: u32,
}

/// A property that the user can set on a device: a name bound to a field of
/// the device's state, at byte `offset`, with an optional default value.
/// Bit properties also carry the index of their bit in the field.
#[derive(Clone, Copy, Debug)]
pub struct Property {
    pub name: &'static str,
    pub info: PropertyInfo,
    pub offset: usize,
    pub bitnr: u8,
    pub set_default: bool,
    pub defval: u64,
}

/// Realization, properties and migration layout of a device type.
pub trait DeviceImpl: ResettablePhasesImpl {
    /// Whether the type overrides `realize`.
    const REALIZE: bool = false;

    /// The properties that the user can set on the device; `&[]` for a type
    /// with none.  The table lives as long as the process: the class record
    /// keeps it.
    const PROPERTIES: &'static [Property];

    /// The migration layout of the device, if it has one.
    const VMSD: Option<VMStateDescription> = None;

    /// What `realize` makes of a device `before`.
    spec fn realized(before: Self, after: Self) -> bool;

    /// The second stage of device creation, run once property values have
    /// been assigned.  Never called unless the type sets `REALIZE`.
    fn realize(&mut self)
        requires
            Self::REALIZE,
        ensures
            Self::realized(*old(self), *final(self)),
    ;
}

/// Forwards `realize` to `T`'s own, handing it the device unchanged.
/// Installed only for types that declare it.
pub fn rust_realize_fn<T: DeviceImpl>(dev: &mut T)
    requires
        T::REALIZE,
    ensures
        T::realized(*old(dev), *final(dev)),
{
    dev.realize();
}

/// How many times `class_init` installs a property table: once when the
/// table is not empty, never when it is.
pub open spec fn props_registrations_added(table: Seq<Property>) -> nat {
    if table.len() > 0 {
        1
    } else {
        0
    }
}

/// `class_init` never installs a property table twice: on a class record
/// with no table installed yet, the count of installations afterwards is one
/// when the type has properties and zero when it has none.
pub proof fn class_init_registers_props_once(table: Seq<Property>)
    ensures
        props_registrations_added(table) <= 1,
        props_registrations_added(table) == 1 <==> table.len() > 0,
{
}

/// The class record of a device type.
///
/// `realize` holds the key of the type whose realize trampoline is
/// installed.  `props_registrations` counts the calls of the host's
/// property-table installation on this record, including those that a
/// superclass's record carried when it was copied.  `parent_class` is the
/// object layer's part of the record.
pub struct DeviceClass {
    pub realize: Option<u64>,
    pub vmsd: Option<VMStateDescription>,
    pub props: &'static [Property],
    pub props_registrations: u64,
    pub resettable: ResettableClass,
    pub parent_class: ObjectClass,
}

impl DeviceClass {
    /// The record of the base device type: nothing installed yet.
    pub fn new() -> (r: DeviceClass)
        ensures
            r.realize is None,
            r.vmsd is None,
            r.props@.len() == 0,
            r.props_registrations == 0,
            r.resettable.phases == (ResettablePhases { enter: None, hold: None, exit: None }),
            r.parent_class.unparent is None,
    {
        DeviceClass {
            realize: None,
            vmsd: None,
            props: &[],
            props_registrations: 0,
            resettable: ResettableClass::new(),
            parent_class: ObjectClass::new(),
        }
    }

    /// The host's installation of a property table on the class record.
    fn set_props(&mut self, props: &'static [Property])
        requires
            old(self).props_registrations < u64::MAX,
        ensures
            final(self).props@ == props@,
            final(self).props_registrations == old(self).props_registrations + 1,
            final(self).realize == old(self).realize,
            final(self).vmsd == old(self).vmsd,
            final(self).resettable == old(self).resettable,
            final(self).parent_class == old(self).parent_class,
    {
        self.props = props;
        self.props_registrations = self.props_registrations + 1;
    }

    /// Fills the class record of the device type `T`: its realize
    /// trampoline if it declares one, its migration layout if it has one,
    /// its property table if that is not empty, then its reset hooks through
    /// the `Resettable` bridge, and last the object layer's part through the
    /// object class-init.  What `T` does not declare keeps the value
    /// inherited from the superclass.
    pub fn class_init<T: DeviceImpl>(&mut self)
        requires
            old(self).props_registrations < u64::MAX,
        ensures
            final(self).realize == if T::REALIZE {
                Some(T::KEY)
            } else {
                old(self).realize
            },
            final(self).vmsd == match T::VMSD {
                Some(v) => Some(v),
                None => old(self).vmsd,
            },
            final(self).props_registrations == old(self).props_registrations
                + props_registrations_added(T::PROPERTIES@),
            final(self).props@ == if T::PROPERTIES@.len() > 0 {
                T::PROPERTIES@
            } else {
                old(self).props@
            },
            final(self).resettable.phases == old(self).resettable.phases.installed(
                T::KEY,
                declared_phases::<T>(),
            ),
            final(self).parent_class.unparent == if T::UNPARENT {
                Some(T::KEY)
            } else {
                old(self).parent_class.unparent
            },
    {
        if T::REALIZE {
            self.realize = Some(T::KEY);
        }
        if let Some(vmsd) = T::VMSD {
            self.vmsd = Some(vmsd);
        }
        let props = T::PROPERTIES;
        if props.len() > 0 {
            self.set_props(props);
        }
        self.resettable.class_init::<T>();
        self.parent_class.class_init::<T>();
    }
}

} // verus!
