//! The three-phase reset protocol of the `Resettable` interface.

use vstd::prelude::*;
use crate::object::ObjectImpl;

verus! {

/// The kind of reset that is being performed.
#[derive(Clone, Copy, Debug, PartialEq, Eq, Structural)]
pub enum ResetType {
    Cold,
    SnapshotLoad,
    Wakeup,
}

/// One of the three phases of a reset.
#[derive(Clone, Copy, Debug, PartialEq, Eq, Structural)]
pub enum ResetPhase {
    Enter,
    Hold,
    Exit,
}

/// Which of the optional reset hooks a type declares.
#[derive(Clone, Copy, Debug, PartialEq, Eq, Structural)]
pub struct PhaseSet {
    pub enter: bool,
    pub hold: bool,
    pub exit: bool,
}

impl PhaseSet {
    pub open spec fn has(self, p: ResetPhase) -> bool {
        match p {
            ResetPhase::Enter => self.enter,
            ResetPhase::Hold => self.hold,
            ResetPhase::Exit => self.exit,
        }
    }
}

/// The `phases` member of a `Resettable` class record.
///
/// A slot holds the key of the type whose trampoline is installed there, or
/// `None` when no hook is installed: the host then calls nothing for that
/// phase.
#[derive(Clone, Copy, Debug, PartialEq, Eq, Structural)]
pub struct ResettablePhases {
    pub enter: Option<u64>,
    pub hold: Option<u64>,
    pub exit: Option<u64>,
}

impl ResettablePhases {
    pub open spec fn slot(self, p: ResetPhase) -> Option<u64> {
        match p {
            ResetPhase::Enter => self.enter,
            ResetPhase::Hold => self.hold,
            ResetPhase::Exit => self.exit,
        }
    }

    /// The record after a type with key `key` has installed the hooks in
    /// `declared`; every other slot keeps what it inherited.
    pub open spec fn installed(self, key: u64, declared: PhaseSet) -> ResettablePhases {
        ResettablePhases {
            enter: if declared.enter { Some(key) } else { self.enter },
            hold: if declared.hold { Some(key) } else { self.hold },
            exit: if declared.exit { Some(key) } else { self.exit },
        }
    }
}

/// The class record of the `Resettable` interface.
#[derive(Clone, Copy, Debug, PartialEq, Eq, Structural)]
pub struct ResettableClass {
    pub phases: ResettablePhases,
}

/// Reset hooks of a type.  Each hook is optional: a type sets `ENTER`,
/// `HOLD` or `EXIT` for the ones it implements, and only those are ever
/// installed or called.  What a hook does to the object is stated by the
/// type's predicate for it (`entered`, `held`, `exited`); a hook that the
/// type does not declare can never be called, so its body is free.
pub trait ResettablePhasesImpl: ObjectImpl {
    /// Whether the type implements `enter`.
    const ENTER: bool = false;

    /// Whether the type implements `hold`.
    const HOLD: bool = false;

    /// Whether the type implements `exit`.
    const EXIT: bool = false;

    /// What `enter` makes of an object `before`, for a reset of type `typ`.
    spec fn entered(before: Self, after: Self, typ: ResetType) -> bool;

    /// What `hold` makes of an object `before`, for a reset of type `typ`.
    spec fn held(before: Self, after: Self, typ: ResetType) -> bool;

    /// What `exit` makes of an object `before`, for a reset of type `typ`.
    spec fn exited(before: Self, after: Self, typ: ResetType) -> bool;

    /// Called when the object enters reset.  It may reset local state of the
    /// object, but must have no side effect on other objects.
    fn enter(&mut self, typ: ResetType)
        requires
            Self::ENTER,
        ensures
            Self::entered(*old(self), *final(self), typ),
    ;

    /// Called once every object being reset has run its enter phase.
    /// Actions that affect other objects are allowed here.  If in doubt,
    /// implement this phase.
    fn hold(&mut self, typ: ResetType)
        requires
            Self::HOLD,
        ensures
            Self::held(*old(self), *final(self), typ),
    ;

    /// Called when the object leaves reset.  Actions that affect other
    /// objects are allowed.
    fn exit(&mut self, typ: ResetType)
        requires
            Self::EXIT,
        ensures
            Self::exited(*old(self), *final(self), typ),
    ;
}

/// The hooks that `T` declares.
pub open spec fn declared_phases<T: ResettablePhasesImpl>() -> PhaseSet {
    PhaseSet { enter: T::ENTER, hold: T::HOLD, exit: T::EXIT }
}

impl ResettableClass {
    /// The record of the interface itself: no hook installed.
    pub fn new() -> (r: ResettableClass)
        ensures
            r.phases.enter is None,
            r.phases.hold is None,
            r.phases.exit is None,
    {
        ResettableClass { phases: ResettablePhases { enter: None, hold: None, exit: None } }
    }

    /// Installs the trampolines of `T` for the phases that `T` declares,
    /// leaving the inherited slot of every other phase untouched.
    pub fn class_init<T: ResettablePhasesImpl>(&mut self)
        ensures
            final(self).phases == old(self).phases.installed(T::KEY, declared_phases::<T>()),
    {
        if T::ENTER {
            self.phases.enter = Some(T::KEY);
        }
        if T::HOLD {
            self.phases.hold = Some(T::KEY);
        }
        if T::EXIT {
            self.phases.exit = Some(T::KEY);
        }
    }
}

/// After `class_init` of a type, the slot of each phase that the type
/// declares holds that type's trampoline, and the slot of every other phase
/// is the one inherited from the superclass.
pub proof fn class_init_installs_exactly_declared(
    inherited: ResettablePhases,
    key: u64,
    declared: PhaseSet,
    p: ResetPhase,
)
    ensures
        inherited.installed(key, declared).slot(p) == if declared.has(p) {
            Some(key)
        } else {
            inherited.slot(p)
        },
{
}

/// Forwards the enter phase to `T`'s hook, handing it the object and the
/// reset type unchanged.  Installed only for types that declare that hook.
pub fn rust_resettable_enter_fn<T: ResettablePhasesImpl>(obj: &mut T, typ: ResetType)
    requires
        T::ENTER,
    ensures
        T::entered(*old(obj), *final(obj), typ),
{
    obj.enter(typ);
}

/// Forwards the hold phase to `T`'s hook, handing it the object and the
/// reset type unchanged.  Installed only for types that declare that hook.
pub fn rust_resettable_hold_fn<T: ResettablePhasesImpl>(obj: &mut T, typ: ResetType)
    requires
        T::HOLD,
    ensures
        T::held(*old(obj), *final(obj), typ),
{
    obj.hold(typ);
}

/// Forwards the exit phase to `T`'s hook, handing it the object and the
/// reset type unchanged.  Installed only for types that declare that hook.
pub fn rust_resettable_exit_fn<T: ResettablePhasesImpl>(obj: &mut T, typ: ResetType)
    requires
        T::EXIT,
    ensures
        T::exited(*old(obj), *final(obj), typ),
{
    obj.exit(typ);
}

/// One call that the host makes during a reset: the hook installed in slot
/// `phase` of object number `object`, which is the trampoline of the type
/// with key `key`.
#[derive(Clone, Copy, Debug, PartialEq, Eq, Structural)]
pub struct PhaseCall {
    pub object: usize,
    pub phase: ResetPhase,
    pub key: u64,
}

/// The calls of phase `p` over the objects `objs`, in the objects' order;
/// an object whose slot is empty contributes nothing.
pub open spec fn phase_calls(objs: Seq<ResettablePhases>, p: ResetPhase) -> Seq<PhaseCall>
    decreases objs.len(),
{
    if objs.len() == 0 {
        Seq::empty()
    } else {
        let before = phase_calls(objs.drop_last(), p);
        match objs.last().slot(p) {
            Some(key) => before.push(PhaseCall { object: (objs.len() - 1) as usize, phase: p, key }),
            None => before,
        }
    }
}

/// All calls of a reset of the objects `objs`: every enter, then every hold,
/// then every exit.
pub open spec fn reset_calls(objs: Seq<ResettablePhases>) -> Seq<PhaseCall> {
    phase_calls(objs, ResetPhase::Enter) + phase_calls(objs, ResetPhase::Hold) + phase_calls(
        objs,
        ResetPhase::Exit,
    )
}

/// The position of a phase in the protocol.
pub open spec fn phase_rank(p: ResetPhase) -> int {
    match p {
        ResetPhase::Enter => 0,
        ResetPhase::Hold => 1,
        ResetPhase::Exit => 2,
    }
}

fn slot_of(phases: &ResettablePhases, p: ResetPhase) -> (r: Option<u64>)
    ensures
        r == phases.slot(p),
{
    match p {
        ResetPhase::Enter => phases.enter,
        ResetPhase::Hold => phases.hold,
        ResetPhase::Exit => phases.exit,
    }
}

/// Appends to `calls` the calls of phase `p` over `objs`.
fn push_phase_calls(objs: &Vec<ResettablePhases>, p: ResetPhase, calls: &mut Vec<PhaseCall>)
    ensures
        final(calls)@ == old(calls)@ + phase_calls(objs@, p),
{
    let n = objs.len();
    let mut i: usize = 0;
    while i < n
        invariant
            n == objs@.len(),
            i <= n,
            calls@ == old(calls)@ + phase_calls(objs@.take(i as int), p),
        decreases n - i,
    {
        let ghost before = calls@;
        proof {
            assert(objs@.take(i + 1).drop_last() =~= objs@.take(i as int));
        }
        match slot_of(&objs[i], p) {
            Some(key) => {
                calls.push(PhaseCall { object: i, phase: p, key });
            },
            None => {},
        }
        i = i + 1;
        assert(calls@ =~= old(calls)@ + phase_calls(objs@.take(i as int), p));
    }
    assert(objs@.take(n as int) =~= objs@);
}

/// The calls that the host makes to reset the objects whose class records
/// are `objs`: all enter hooks, then all hold hooks, then all exit hooks,
/// each phase in the order of the objects.  Empty slots give no call.
pub fn reset_schedule(objs: &Vec<ResettablePhases>) -> (r: Vec<PhaseCall>)
    ensures
        r@ == reset_calls(objs@),
{
    let mut calls: Vec<PhaseCall> = Vec::new();
    push_phase_calls(objs, ResetPhase::Enter, &mut calls);
    push_phase_calls(objs, ResetPhase::Hold, &mut calls);
    push_phase_calls(objs, ResetPhase::Exit, &mut calls);
    assert(calls@ =~= reset_calls(objs@));
    calls
}

proof fn lemma_phase_calls_sound(objs: Seq<ResettablePhases>, p: ResetPhase)
    requires
        objs.len() <= usize::MAX,
    ensures
        forall|k: int|
            0 <= k < phase_calls(objs, p).len() ==> {
                let c = #[trigger] phase_calls(objs, p)[k];
                &&& c.phase == p
                &&& c.object < objs.len()
                &&& objs[c.object as int].slot(p) == Some(c.key)
            },
    decreases objs.len(),
{
    if objs.len() > 0 {
        let rest = objs.drop_last();
        lemma_phase_calls_sound(rest, p);
        let before = phase_calls(rest, p);
        let all = phase_calls(objs, p);
        assert forall|k: int| 0 <= k < all.len() implies {
            let c = #[trigger] all[k];
            &&& c.phase == p
            &&& c.object < objs.len()
            &&& objs[c.object as int].slot(p) == Some(c.key)
        } by {
            if k < before.len() {
                assert(all[k] == before[k]);
                assert(rest[before[k].object as int] == objs[before[k].object as int]);
            } else {
                let last = objs.len() - 1;
                assert(objs.last() == objs[last]);
                assert(all[k] == PhaseCall {
                    object: last as usize,
                    phase: p,
                    key: objs[last].slot(p)->0,
                });
            }
        }
    }
}

proof fn lemma_phase_calls_complete(objs: Seq<ResettablePhases>, p: ResetPhase, o: int)
    requires
        objs.len() <= usize::MAX,
        0 <= o < objs.len(),
        objs[o].slot(p) is Some,
    ensures
        phase_calls(objs, p).contains(
            PhaseCall { object: o as usize, phase: p, key: objs[o].slot(p)->0 },
        ),
    decreases objs.len(),
{
    let c = PhaseCall { object: o as usize, phase: p, key: objs[o].slot(p)->0 };
    let before = phase_calls(objs.drop_last(), p);
    if o < objs.len() - 1 {
        lemma_phase_calls_complete(objs.drop_last(), p, o);
        let k = choose|k: int| 0 <= k < before.len() && before[k] == c;
        if objs.last().slot(p) is Some {
            assert(phase_calls(objs, p)[k] == c);
        }
    } else {
        assert(objs.last() == objs[o]);
        assert(phase_calls(objs, p).last() == c);
    }
}

/// In a reset, every enter call comes before every hold call and every hold
/// call before every exit call, across all the objects being reset.
pub proof fn reset_phases_in_order(objs: Seq<ResettablePhases>)
    requires
        objs.len() <= usize::MAX,
    ensures
        forall|i: int, j: int|
            0 <= i < j < reset_calls(objs).len() ==> phase_rank(#[trigger] reset_calls(objs)[i].phase)
                <= phase_rank(#[trigger] reset_calls(objs)[j].phase),
{
    lemma_phase_calls_sound(objs, ResetPhase::Enter);
    lemma_phase_calls_sound(objs, ResetPhase::Hold);
    lemma_phase_calls_sound(objs, ResetPhase::Exit);
    let e = phase_calls(objs, ResetPhase::Enter);
    let h = phase_calls(objs, ResetPhase::Hold);
    let x = phase_calls(objs, ResetPhase::Exit);
    let all = reset_calls(objs);
    assert forall|i: int| 0 <= i < all.len() implies phase_rank(#[trigger] all[i].phase) == if i
        < e.len() {
        0int
    } else if i < e.len() + h.len() {
        1int
    } else {
        2int
    } by {
        if i < e.len() {
            assert(all[i] == e[i]);
        } else if i < e.len() + h.len() {
            assert(all[i] == h[i - e.len()]);
        } else {
            assert(all[i] == x[i - e.len() - h.len()]);
        }
    }
}

/// A reset calls exactly the hooks installed in the objects' class records:
/// an object and phase appear, with the installed key, if and only if that
/// slot is filled.  An empty slot gives no call at all.
pub proof fn reset_calls_exactly_installed(objs: Seq<ResettablePhases>, call: PhaseCall)
    requires
        objs.len() <= usize::MAX,
    ensures
        reset_calls(objs).contains(call) <==> (call.object < objs.len() && objs[call.object as int].slot(
            call.phase,
        ) == Some(call.key)),
{
    let p = call.phase;
    lemma_phase_calls_sound(objs, ResetPhase::Enter);
    lemma_phase_calls_sound(objs, ResetPhase::Hold);
    lemma_phase_calls_sound(objs, ResetPhase::Exit);
    let e = phase_calls(objs, ResetPhase::Enter);
    let h = phase_calls(objs, ResetPhase::Hold);
    let x = phase_calls(objs, ResetPhase::Exit);
    let all = reset_calls(objs);
    if all.contains(call) {
        let k = choose|k: int| 0 <= k < all.len() && all[k] == call;
        if k < e.len() {
            assert(all[k] == e[k]);
        } else if k < e.len() + h.len() {
            assert(all[k] == h[k - e.len()]);
        } else {
            assert(all[k] == x[k - e.len() - h.len()]);
        }
    }
    if call.object < objs.len() && objs[call.object as int].slot(p) == Some(call.key) {
        lemma_phase_calls_complete(objs, p, call.object as int);
        let own = phase_calls(objs, p);
        let k = choose|k: int| 0 <= k < own.len() && own[k] == call;
        match p {
            ResetPhase::Enter => {
                assert(all[k] == call);
            },
            ResetPhase::Hold => {
                assert(all[e.len() + k] == call);
            },
            ResetPhase::Exit => {
                assert(all[e.len() + h.len() + k] == call);
            },
        }
    }
}

} // verus!
