//! The state of a device instance that the bridge touches: its clock list
//! and its character-device properties, with the operations that every
//! device offers.

use vstd::prelude::*;
use crate::clock::{Clock, ClockCallback, ClockDirection, ClockEvent, ClockHandle, ClockView};

verus! {

/// A character device backend, known by its identity.
#[derive(Clone, Copy, Debug, PartialEq, Eq, Structural)]
pub struct Chardev {
    pub id: u64,
}

/// A property of a device that holds a character device backend.
#[derive(Debug)]
pub struct ChrProperty {
    pub name: String,
    pub backend: Option<u64>,
}

pub struct ChrPropertyView {
    pub name: Seq<char>,
    pub backend: Option<u64>,
}

impl View for ChrProperty {
    type V = ChrPropertyView;

    open spec fn view(&self) -> ChrPropertyView {
        ChrPropertyView { name: self.name@, backend: self.backend }
    }
}

/// A device instance: its identity, which clock callbacks get back as their
/// context, every clock created for it (freed ones included, with no
/// reference left), and its character-device properties.
#[derive(Debug)]
pub struct DeviceState {
    pub id: u64,
    pub clocks: Vec<Clock>,
    pub chr_props: Vec<ChrProperty>,
}

pub struct DeviceView {
    pub id: u64,
    pub clocks: Seq<ClockView>,
    pub chr_props: Seq<ChrPropertyView>,
}

impl View for DeviceState {
    type V = DeviceView;

    open spec fn view(&self) -> DeviceView {
        DeviceView {
            id: self.id,
            clocks: self.clocks@.map_values(|c: Clock| c@),
            chr_props: self.chr_props@.map_values(|p: ChrProperty| p@),
        }
    }
}

/// Whether `s` can be handed to the host as a C string: it holds no NUL.
pub open spec fn is_c_name(s: Seq<char>) -> bool {
    !s.contains('\0')
}

/// A new input clock of device `dev`: the host and the component each hold
/// one reference, and the callback, if any, gets the device back.
pub open spec fn input_clock(dev: u64, name: Seq<char>, cb: Option<u64>, events: ClockEvent) -> ClockView {
    ClockView {
        name,
        direction: ClockDirection::Input,
        parent: dev,
        callback: match cb {
            Some(func) => Some(ClockCallback { func, opaque: dev }),
            None => None,
        },
        events,
        refs: 2,
    }
}

/// A new output clock of device `dev`, with no callback and the two
/// references of the host and of the component.
pub open spec fn output_clock(dev: u64, name: Seq<char>) -> ClockView {
    ClockView {
        name,
        direction: ClockDirection::Output,
        parent: dev,
        callback: None,
        events: ClockEvent(0),
        refs: 2,
    }
}

/// No two properties of `props` share a name.
pub open spec fn unique_names(props: Seq<ChrPropertyView>) -> bool {
    forall|i: int, j: int|
        0 <= i < props.len() && 0 <= j < props.len() && i != j ==> #[trigger] props[i].name
            != #[trigger] props[j].name
}

/// A clock after the host dropped its reference and disabled its callback.
pub open spec fn finalized_clock(c: ClockView) -> ClockView {
    if c.refs > 0 {
        ClockView { refs: (c.refs - 1) as u32, callback: None, ..c }
    } else {
        c
    }
}

/// A property after property `name` has been bound to backend `chr`.
pub open spec fn chr_bound(p: ChrPropertyView, name: Seq<char>, chr: u64) -> ChrPropertyView {
    if p.name == name {
        ChrPropertyView { name: p.name, backend: Some(chr) }
    } else {
        p
    }
}

impl DeviceView {
    /// Every clock belongs to this device, has at most the two references
    /// of the host and the component, and only an input clock has a
    /// callback, which gets this device back.  No two character-device
    /// properties share a name.
    pub open spec fn wf(self) -> bool {
        &&& unique_names(self.chr_props)
        &&& forall|i: int|
            0 <= i < self.clocks.len() ==> {
                let c = #[trigger] self.clocks[i];
                &&& c.parent == self.id
                &&& c.refs <= 2
                &&& c.callback matches Some(cb) ==> cb.opaque == self.id && c.direction
                    == ClockDirection::Input
            }
    }

    pub open spec fn with_clock(self, c: ClockView) -> DeviceView {
        DeviceView { clocks: self.clocks.push(c), ..self }
    }

    /// The device after one reference to clock `i` has been dropped.
    pub open spec fn released(self, i: int) -> DeviceView {
        DeviceView {
            clocks: self.clocks.update(i, ClockView { refs: (self.clocks[i].refs - 1) as u32, ..self.clocks[i] }),
            ..self
        }
    }

    /// The device after the host has torn down its clock list: each live
    /// clock loses the host's reference and its callback.
    pub open spec fn clocks_finalized(self) -> DeviceView {
        DeviceView {
            clocks: self.clocks.map_values(|c: ClockView| finalized_clock(c)),
            ..self
        }
    }

    /// The device after property `name` has been bound to backend `chr`.
    pub open spec fn chr_set(self, name: Seq<char>, chr: u64) -> DeviceView {
        DeviceView {
            chr_props: self.chr_props.map_values(|p: ChrPropertyView| chr_bound(p, name, chr)),
            ..self
        }
    }

    pub open spec fn has_chr_prop(self, name: Seq<char>) -> bool {
        exists|i: int| 0 <= i < self.chr_props.len() && #[trigger] self.chr_props[i].name == name
    }
}

/// A clock created with no callback triggers nothing, whatever the event.
pub proof fn clock_without_callback_never_triggers(
    dev: u64,
    name: Seq<char>,
    events: ClockEvent,
    event: ClockEvent,
)
    ensures
        input_clock(dev, name, None, events).triggered(event) is None,
        output_clock(dev, name).triggered(event) is None,
{
}

/// A clock created with a callback triggers it on exactly the events that
/// its mask selects, with the owning device as context.
pub proof fn clock_callback_follows_mask(
    dev: u64,
    name: Seq<char>,
    func: u64,
    events: ClockEvent,
    event: ClockEvent,
)
    ensures
        input_clock(dev, name, Some(func), events).triggered(event) == if events.selects(event) {
            Some(ClockCallback { func, opaque: dev })
        } else {
            None
        },
{
}

/// An output clock and then an input clock added to one device get two
/// distinct handles and the same parent.  Dropping the component's handle
/// to the input clock leaves it alive, held by the host; the clock is freed
/// only when the host then tears down the device's clock list.
pub proof fn released_clock_outlives_handle(
    d: DeviceView,
    out_name: Seq<char>,
    in_name: Seq<char>,
    cb: Option<u64>,
    events: ClockEvent,
)
    requires
        d.wf(),
    ensures
        ({
            let i_out = d.clocks.len() as int;
            let i_in = i_out + 1;
            let both = d.with_clock(output_clock(d.id, out_name)).with_clock(
                input_clock(d.id, in_name, cb, events),
            );
            &&& i_out != i_in
            &&& both.clocks[i_out].parent == d.id
            &&& both.clocks[i_in].parent == d.id
            &&& both.released(i_in).clocks[i_in].is_alive()
            &&& !both.released(i_in).clocks_finalized().clocks[i_in].is_alive()
        }),
{
}

/// Operations that every device offers: adding clocks and assigning
/// character-device properties.  The caller holds the global lock that
/// serializes device mutation.
pub trait DeviceMethods: Sized {
    /// The device state behind `self`.
    spec fn device(&self) -> DeviceView;

    /// Adds an input clock named `name`.  When `cb` names a callback, the
    /// host calls it, with the device as context, on the events of `events`.
    /// The clock is referenced by the host until its clock list is torn
    /// down, and by the returned handle.
    fn init_clock_in(&mut self, name: &str, cb: Option<u64>, events: ClockEvent) -> (r:
        ClockHandle)
        requires
            old(self).device().wf(),
            old(self).device().clocks.len() < usize::MAX,
            is_c_name(name@),
        ensures
            r.index == old(self).device().clocks.len(),
            final(self).device() == old(self).device().with_clock(
                input_clock(old(self).device().id, name@, cb, events),
            ),
            final(self).device().wf(),
    ;

    /// Adds an output clock named `name`, referenced by the host and by the
    /// returned handle.
    fn init_clock_out(&mut self, name: &str) -> (r: ClockHandle)
        requires
            old(self).device().wf(),
            old(self).device().clocks.len() < usize::MAX,
            is_c_name(name@),
        ensures
            r.index == old(self).device().clocks.len(),
            final(self).device() == old(self).device().with_clock(
                output_clock(old(self).device().id, name@),
            ),
            final(self).device().wf(),
    ;

    /// Binds the character-device property `propname`, the only one of
    /// that name, to `chr`.
    fn prop_set_chr(&mut self, propname: &str, chr: &Chardev)
        requires
            old(self).device().wf(),
            is_c_name(propname@),
            old(self).device().has_chr_prop(propname@),
        ensures
            final(self).device() == old(self).device().chr_set(propname@, chr.id),
            final(self).device().wf(),
    ;
}

impl DeviceState {
    /// A device with identity `id`, no clock and the character-device
    /// properties named in `chr_names`, all unbound.  The names are
    /// distinct.
    pub fn new(id: u64, chr_names: Vec<String>) -> (r: DeviceState)
        requires
            forall|i: int, j: int|
                0 <= i < chr_names@.len() && 0 <= j < chr_names@.len() && i != j
                    ==> #[trigger] chr_names@[i]@ != #[trigger] chr_names@[j]@,
        ensures
            r@.id == id,
            r@.clocks.len() == 0,
            r@.chr_props.len() == chr_names@.len(),
            forall|i: int|
                0 <= i < chr_names@.len() ==> #[trigger] r@.chr_props[i] == (ChrPropertyView {
                    name: chr_names@[i]@,
                    backend: None,
                }),
            r@.wf(),
    {
        let mut chr_props: Vec<ChrProperty> = Vec::new();
        let n = chr_names.len();
        let mut i: usize = 0;
        while i < n
            invariant
                n == chr_names@.len(),
                i <= n,
                chr_props@.len() == i,
                forall|k: int|
                    0 <= k < i ==> #[trigger] chr_props@[k]@ == (ChrPropertyView {
                        name: chr_names@[k]@,
                        backend: None,
                    }),
            decreases n - i,
        {
            let name = chr_names[i].clone();
            chr_props.push(ChrProperty { name, backend: None });
            i = i + 1;
        }
        let r = DeviceState { id, clocks: Vec::new(), chr_props };
        assert forall|a: int, b: int|
            0 <= a < r@.chr_props.len() && 0 <= b < r@.chr_props.len() && a != b implies #[trigger] r@.chr_props[a].name
            != #[trigger] r@.chr_props[b].name by {
            assert(chr_props@[a]@.name == chr_names@[a]@);
            assert(chr_props@[b]@.name == chr_names@[b]@);
        }
        r
    }

    /// The host's creation of a clock: the clock list keeps one reference
    /// and the caller gets another.
    fn add_clock(
        &mut self,
        name: &str,
        direction: ClockDirection,
        callback: Option<ClockCallback>,
        events: ClockEvent,
    ) -> (r: ClockHandle)
        requires
            old(self)@.clocks.len() < usize::MAX,
        ensures
            r.index == old(self)@.clocks.len(),
            final(self)@ == old(self)@.with_clock(
                ClockView {
                    name: name@,
                    direction,
                    parent: old(self).id,
                    callback,
                    events,
                    refs: 2,
                },
            ),
    {
        let index = self.clocks.len();
        let clk = Clock {
            name: name.to_owned(),
            direction,
            parent: self.id,
            callback,
            events,
            refs: 2,
        };
        self.clocks.push(clk);
        assert(self@.clocks =~= old(self)@.clocks.push(clk@));
        ClockHandle { index }
    }

    /// Drops the component's reference to a clock, which `h` stands for.
    /// The component releases its handle before the host tears down the
    /// clock list, so the host's reference is still held.
    pub fn release_clock(&mut self, h: ClockHandle)
        requires
            old(self)@.wf(),
            h.index < old(self)@.clocks.len(),
            old(self)@.clocks[h.index as int].refs == 2,
        ensures
            final(self)@ == old(self)@.released(h.index as int),
            final(self)@.wf(),
    {
        let i = h.index;
        let c = &self.clocks[i];
        let clk = Clock {
            name: c.name.clone(),
            direction: c.direction,
            parent: c.parent,
            callback: c.callback,
            events: c.events,
            refs: c.refs - 1,
        };
        self.clocks.set(i, clk);
        assert(self@.clocks =~= old(self)@.released(i as int).clocks);
    }

    /// The host's teardown of the clock list when the device is finalized:
    /// each live clock loses the host's reference and its callback.
    pub fn finalize_clocklist(&mut self)
        requires
            old(self)@.wf(),
        ensures
            final(self)@ == old(self)@.clocks_finalized(),
            final(self)@.wf(),
    {
        let n = self.clocks.len();
        let mut i: usize = 0;
        while i < n
            invariant
                n == self.clocks@.len(),
                n == old(self).clocks@.len(),
                i <= n,
                self.id == old(self).id,
                self.chr_props == old(self).chr_props,
                forall|k: int|
                    0 <= k < n ==> #[trigger] self.clocks@[k]@ == if k < i {
                        finalized_clock(old(self).clocks@[k]@)
                    } else {
                        old(self).clocks@[k]@
                    },
            decreases n - i,
        {
            let ghost before = self.clocks@;
            assert(before[i as int]@ == old(self).clocks@[i as int]@);
            let c = &self.clocks[i];
            if c.refs > 0 {
                let clk = Clock {
                    name: c.name.clone(),
                    direction: c.direction,
                    parent: c.parent,
                    callback: None,
                    events: c.events,
                    refs: c.refs - 1,
                };
                self.clocks.set(i, clk);
                assert(self.clocks@[i as int]@ == finalized_clock(old(self).clocks@[i as int]@));
            }
            assert(forall|k: int| 0 <= k < n && k != i ==> self.clocks@[k] == before[k]);
            i = i + 1;
        }
        assert(self@.clocks =~= old(self)@.clocks_finalized().clocks);
    }
}

impl DeviceMethods for DeviceState {
    open spec fn device(&self) -> DeviceView {
        self@
    }

    fn init_clock_in(&mut self, name: &str, cb: Option<u64>, events: ClockEvent) -> (r:
        ClockHandle) {
        let callback = match cb {
            Some(func) => Some(ClockCallback { func, opaque: self.id }),
            None => None,
        };
        self.add_clock(name, ClockDirection::Input, callback, events)
    }

    fn init_clock_out(&mut self, name: &str) -> (r: ClockHandle) {
        self.add_clock(name, ClockDirection::Output, None, ClockEvent(0))
    }

    fn prop_set_chr(&mut self, propname: &str, chr: &Chardev) {
        let target = propname.to_owned();
        let n = self.chr_props.len();
        let mut i: usize = 0;
        while i < n
            invariant
                n == self.chr_props@.len(),
                n == old(self).chr_props@.len(),
                i <= n,
                target@ == propname@,
                self.id == old(self).id,
                self.clocks == old(self).clocks,
                forall|k: int|
                    0 <= k < n ==> #[trigger] self.chr_props@[k]@ == if k < i {
                        chr_bound(old(self).chr_props@[k]@, propname@, chr.id)
                    } else {
                        old(self).chr_props@[k]@
                    },
            decreases n - i,
        {
            let ghost before = self.chr_props@;
            assert(before[i as int]@ == old(self).chr_props@[i as int]@);
            if self.chr_props[i].name == target {
                let name = self.chr_props[i].name.clone();
                self.chr_props.set(i, ChrProperty { name, backend: Some(chr.id) });
                assert(self.chr_props@[i as int]@ == chr_bound(before[i as int]@, propname@, chr.id));
            }
            assert(forall|k: int| 0 <= k < n && k != i ==> self.chr_props@[k] == before[k]);
            i = i + 1;
        }
        assert(self@.chr_props =~= old(self)@.chr_set(propname@, chr.id).chr_props);
    }
}

} // verus!
