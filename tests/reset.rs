use qdev::object::ObjectImpl;
use qdev::reset::{
    reset_schedule, rust_resettable_enter_fn, rust_resettable_exit_fn, rust_resettable_hold_fn,
    PhaseCall, ResetPhase, ResetType, ResettableClass, ResettablePhases,
    ResettablePhasesImpl,
};

const COUNTER_KEY: u64 = 1;
const BASE_KEY: u64 = 10;
const LEAF_KEY: u64 = 11;

#[derive(Clone, Copy)]
struct Counter {
    counter: u32,
    other: u32,
}

impl ObjectImpl for Counter {
    const KEY: u64 = COUNTER_KEY;
}

impl ResettablePhasesImpl for Counter {
    const HOLD: bool = true;

    fn entered(_before: Self, _after: Self, _typ: ResetType) -> bool {
        false
    }

    fn held(before: Self, after: Self, _typ: ResetType) -> bool {
        after.counter == before.counter + 1 && after.other == before.other
    }

    fn exited(_before: Self, _after: Self, _typ: ResetType) -> bool {
        false
    }

    fn enter(&mut self, _typ: ResetType) {
        self.other += 100;
    }

    fn hold(&mut self, _typ: ResetType) {
        self.counter += 1;
    }

    fn exit(&mut self, _typ: ResetType) {
        self.other += 1000;
    }
}

struct Base {
    entered: u32,
}

impl ObjectImpl for Base {
    const KEY: u64 = BASE_KEY;
}

impl ResettablePhasesImpl for Base {
    const ENTER: bool = true;

    fn entered(before: Self, after: Self, _typ: ResetType) -> bool {
        after.entered == before.entered + 1
    }

    fn held(_before: Self, _after: Self, _typ: ResetType) -> bool {
        false
    }

    fn exited(_before: Self, _after: Self, _typ: ResetType) -> bool {
        false
    }

    fn enter(&mut self, _typ: ResetType) {
        self.entered += 1;
    }

    fn hold(&mut self, _typ: ResetType) {}

    fn exit(&mut self, _typ: ResetType) {}
}

struct Leaf {
    base: Base,
    own: u32,
}

impl ObjectImpl for Leaf {
    const KEY: u64 = LEAF_KEY;
}

impl ResettablePhasesImpl for Leaf {
    fn entered(_before: Self, _after: Self, _typ: ResetType) -> bool {
        false
    }

    fn held(_before: Self, _after: Self, _typ: ResetType) -> bool {
        false
    }

    fn exited(_before: Self, _after: Self, _typ: ResetType) -> bool {
        false
    }

    fn enter(&mut self, _typ: ResetType) {
        self.own += 1;
    }

    fn hold(&mut self, _typ: ResetType) {
        self.own += 1;
    }

    fn exit(&mut self, _typ: ResetType) {
        self.own += 1;
    }
}

fn run_counter(obj: &mut Counter, call: &PhaseCall, typ: ResetType) {
    assert_eq!(call.key, COUNTER_KEY);
    match call.phase {
        ResetPhase::Enter => rust_resettable_enter_fn(obj, typ),
        ResetPhase::Hold => rust_resettable_hold_fn(obj, typ),
        ResetPhase::Exit => rust_resettable_exit_fn(obj, typ),
    }
}

#[test]
fn counter_declaring_hold_only_counts_once_per_reset() {
    let mut rc = ResettableClass::new();
    rc.class_init::<Counter>();
    assert_eq!(rc.phases.enter, None);
    assert_eq!(rc.phases.hold, Some(COUNTER_KEY));
    assert_eq!(rc.phases.exit, None);

    let mut obj = Counter { counter: 0, other: 0 };
    let calls = reset_schedule(&vec![rc.phases]);
    assert_eq!(calls, vec![PhaseCall { object: 0, phase: ResetPhase::Hold, key: COUNTER_KEY }]);
    for call in calls.iter() {
        run_counter(&mut obj, call, ResetType::Cold);
    }
    assert_eq!(obj.counter, 1);
    assert_eq!(obj.other, 0);
}

#[test]
fn leaf_without_hooks_runs_base_enter() {
    let mut base_rc = ResettableClass::new();
    base_rc.class_init::<Base>();
    let mut leaf_rc = base_rc;
    leaf_rc.class_init::<Leaf>();
    assert_eq!(leaf_rc.phases, base_rc.phases);
    assert_eq!(leaf_rc.phases.enter, Some(BASE_KEY));
    assert_eq!(leaf_rc.phases.hold, None);
    assert_eq!(leaf_rc.phases.exit, None);

    let mut leaf = Leaf { base: Base { entered: 0 }, own: 0 };
    let calls = reset_schedule(&vec![leaf_rc.phases]);
    assert_eq!(calls.len(), 1);
    assert_eq!(calls[0].phase, ResetPhase::Enter);
    assert_eq!(calls[0].key, BASE_KEY);
    rust_resettable_enter_fn(&mut leaf.base, ResetType::Cold);
    assert_eq!(leaf.base.entered, 1);
    assert_eq!(leaf.own, 0);
}

#[test]
fn class_init_fills_declared_slots_and_keeps_inherited() {
    let inherited = ResettablePhases { enter: Some(7), hold: Some(8), exit: None };
    let mut rc = ResettableClass { phases: inherited };
    rc.class_init::<Counter>();
    assert_eq!(rc.phases, ResettablePhases { enter: Some(7), hold: Some(COUNTER_KEY), exit: None });

    let mut rc = ResettableClass { phases: inherited };
    rc.class_init::<Leaf>();
    assert_eq!(rc.phases, inherited);

    let mut rc = ResettableClass { phases: inherited };
    rc.class_init::<Base>();
    assert_eq!(rc.phases, ResettablePhases { enter: Some(BASE_KEY), hold: Some(8), exit: None });
}

#[test]
fn schedule_runs_all_enters_then_holds_then_exits() {
    let objs = vec![
        ResettablePhases { enter: Some(1), hold: None, exit: Some(1) },
        ResettablePhases { enter: Some(2), hold: Some(2), exit: None },
        ResettablePhases { enter: None, hold: Some(3), exit: Some(3) },
    ];
    let calls = reset_schedule(&objs);
    let expected = vec![
        PhaseCall { object: 0, phase: ResetPhase::Enter, key: 1 },
        PhaseCall { object: 1, phase: ResetPhase::Enter, key: 2 },
        PhaseCall { object: 1, phase: ResetPhase::Hold, key: 2 },
        PhaseCall { object: 2, phase: ResetPhase::Hold, key: 3 },
        PhaseCall { object: 0, phase: ResetPhase::Exit, key: 1 },
        PhaseCall { object: 2, phase: ResetPhase::Exit, key: 3 },
    ];
    assert_eq!(calls, expected);
}

#[test]
fn schedule_of_no_objects_or_empty_slots_is_empty() {
    assert!(reset_schedule(&vec![]).is_empty());
    let empty = ResettableClass::new().phases;
    assert!(reset_schedule(&vec![empty, empty]).is_empty());
}

#[test]
fn hold_trampoline_result_meets_the_hooks_predicate() {
    let mut obj = Counter { counter: 0, other: 5 };
    let before = obj;
    rust_resettable_hold_fn(&mut obj, ResetType::SnapshotLoad);
    assert!(Counter::held(before, obj, ResetType::SnapshotLoad));
    assert_eq!(obj.counter, 1);
    assert_eq!(obj.other, 5);
}
