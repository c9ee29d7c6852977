use qdev::device::{rust_realize_fn, DeviceClass, DeviceImpl, Property, PropertyInfo, VMStateDescription};
use qdev::object::{ObjectClass, ObjectImpl};
use qdev::reset::{ResetType, ResettablePhases, ResettablePhasesImpl};

const UINT32: PropertyInfo = PropertyInfo { id: 32 };
const BIT: PropertyInfo = PropertyInfo { id: 1 };

struct Uart {
    baud: u32,
    flags: u32,
    realized: bool,
    resets: u32,
}

impl ObjectImpl for Uart {
    const KEY: u64 = 5;
    const UNPARENT: bool = true;
}

impl ResettablePhasesImpl for Uart {
    const HOLD: bool = true;

    fn entered(_before: Self, _after: Self, _typ: ResetType) -> bool {
        false
    }

    fn held(before: Self, after: Self, _typ: ResetType) -> bool {
        after.resets == before.resets + 1
    }

    fn exited(_before: Self, _after: Self, _typ: ResetType) -> bool {
        false
    }

    fn enter(&mut self, _typ: ResetType) {}

    fn hold(&mut self, _typ: ResetType) {
        self.resets += 1;
    }

    fn exit(&mut self, _typ: ResetType) {}
}

impl DeviceImpl for Uart {
    const REALIZE: bool = true;
    const PROPERTIES: &'static [Property] = &[
        Property { name: "baud", info: UINT32, offset: 0, bitnr: 0, set_default: true, defval: 9600 },
        Property { name: "loopback", info: BIT, offset: 4, bitnr: 3, set_default: true, defval: 0 },
    ];
    const VMSD: Option<VMStateDescription> = Some(VMStateDescription { name: "uart", version_id: 2 });

    fn realized(_before: Self, after: Self) -> bool {
        after.realized
    }

    fn realize(&mut self) {
        self.realized = true;
    }
}

struct Plain;

impl ObjectImpl for Plain {
    const KEY: u64 = 6;
}

impl ResettablePhasesImpl for Plain {
    fn entered(_before: Self, _after: Self, _typ: ResetType) -> bool {
        false
    }

    fn held(_before: Self, _after: Self, _typ: ResetType) -> bool {
        false
    }

    fn exited(_before: Self, _after: Self, _typ: ResetType) -> bool {
        false
    }

    fn enter(&mut self, _typ: ResetType) {}

    fn hold(&mut self, _typ: ResetType) {}

    fn exit(&mut self, _typ: ResetType) {}
}

impl DeviceImpl for Plain {
    const PROPERTIES: &'static [Property] = &[];

    fn realized(_before: Self, _after: Self) -> bool {
        false
    }

    fn realize(&mut self) {}
}

#[test]
fn device_class_init_installs_everything_declared() {
    let mut dc = DeviceClass::new();
    dc.class_init::<Uart>();
    assert_eq!(dc.realize, Some(5));
    assert_eq!(dc.vmsd.unwrap().name, "uart");
    assert_eq!(dc.vmsd.unwrap().version_id, 2);
    assert_eq!(dc.props.len(), 2);
    assert_eq!(dc.props[0].name, "baud");
    assert_eq!(dc.props[0].defval, 9600);
    assert_eq!(dc.props[1].name, "loopback");
    assert_eq!(dc.props[1].bitnr, 3);
    assert_eq!(dc.props_registrations, 1);
    assert_eq!(dc.resettable.phases, ResettablePhases { enter: None, hold: Some(5), exit: None });
    assert_eq!(dc.parent_class, ObjectClass { unparent: Some(5) });
}

#[test]
fn device_class_init_without_declarations_keeps_inherited_record() {
    let mut dc = DeviceClass::new();
    dc.class_init::<Uart>();
    dc.class_init::<Plain>();
    assert_eq!(dc.realize, Some(5));
    assert_eq!(dc.vmsd.unwrap().name, "uart");
    assert_eq!(dc.props.len(), 2);
    assert_eq!(dc.props_registrations, 1);
    assert_eq!(dc.resettable.phases, ResettablePhases { enter: None, hold: Some(5), exit: None });
}

#[test]
fn empty_property_table_is_never_registered() {
    let mut dc = DeviceClass::new();
    dc.class_init::<Plain>();
    assert_eq!(dc.props_registrations, 0);
    assert!(dc.props.is_empty());
    assert_eq!(dc.realize, None);
    assert!(dc.vmsd.is_none());
    assert_eq!(dc.parent_class.unparent, None);
}

#[test]
fn property_table_registered_once_per_class() {
    let mut dc = DeviceClass::new();
    dc.class_init::<Uart>();
    assert_eq!(dc.props_registrations, 1);
    let mut other = DeviceClass::new();
    other.class_init::<Plain>();
    assert_eq!(other.props_registrations, 0);
}

#[test]
fn realize_and_reset_trampolines_reach_the_device() {
    let mut uart = Uart { baud: 0, flags: 0, realized: false, resets: 0 };
    rust_realize_fn(&mut uart);
    assert!(uart.realized);
    qdev::reset::rust_resettable_hold_fn(&mut uart, ResetType::Wakeup);
    assert_eq!(uart.resets, 1);
    assert_eq!(uart.baud, 0);
    assert_eq!(uart.flags, 0);
}
