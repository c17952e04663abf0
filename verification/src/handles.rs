//! The table of live instances.
//!
//! A host never holds an instance, only a handle to it.  A handle names a
//! seat in the table and the generation of that seat at the time the handle
//! was issued.  Releasing an instance moves its seat to the next generation,
//! so a released handle is never valid again: not after a second release,
//! and not after the seat has been given to another instance.
use vstd::prelude::*;
use crate::runtime::ModelInstance;

verus! {

/// An opaque reference to an instance.
#[derive(Clone, Copy, Debug, PartialEq, Eq, Structural)]
pub struct Handle {
    pub index: usize,
    pub generation: u64,
}

/// The number of values that 32 bits can hold.
pub open spec fn half() -> int {
    0x1_0000_0000
}

impl Handle {
    /// Whether a handle can be packed into one 64-bit number: its index and
    /// its generation each fit in 32 bits, the index with one to spare.
    pub open spec fn packable(self) -> bool {
        self.index + 1 < half() && self.generation < half()
    }

    /// A handle as one number: the generation in the upper half, the index
    /// plus one in the lower.  The number is never zero.
    pub open spec fn packed(self) -> int {
        self.generation * half() + self.index + 1
    }

    /// The handle that a number stands for, if it stands for one.
    pub open spec fn unpacked(number: u64) -> Option<Handle> {
        if number % 0x1_0000_0000 == 0 {
            None
        } else {
            Some(
                Handle {
                    index: (number % 0x1_0000_0000 - 1) as usize,
                    generation: number / 0x1_0000_0000,
                },
            )
        }
    }

    /// What is packed can be unpacked, and gives the handle back.
    pub proof fn lemma_unpack_undoes_pack(self)
        requires
            self.packable(),
        ensures
            0 < self.packed() <= u64::MAX,
            Self::unpacked(self.packed() as u64) == Some(self),
    {
    }

    /// Packs a handle into one number that is not zero, so that it can
    /// cross a boundary where zero stands for no handle.
    pub fn pack(self) -> (number: Option<u64>)
        ensures
            number is Some <==> self.packable(),
            number matches Some(n) ==> n == self.packed() && n != 0 && Self::unpacked(n) == Some(
                self,
            ),
    {
        if self.index < 0xffff_ffff && self.generation <= 0xffff_ffff {
            let low: u64 = self.index as u64 + 1;
            Some(self.generation * 0x1_0000_0000 + low)
        } else {
            None
        }
    }

    /// Unpacks the handle that a number stands for.  Zero, and any number
    /// whose lower half is zero, stands for none.
    pub fn unpack(number: u64) -> (handle: Option<Handle>)
        ensures
            handle == Self::unpacked(number),
    {
        let low: u64 = number % 0x1_0000_0000;
        if low == 0 {
            None
        } else {
            Some(Handle { index: (low - 1) as usize, generation: number / 0x1_0000_0000 })
        }
    }
}

/// The handle type under the name the interface gives it.
pub type fmi2Component = Handle;

struct Seat {
    generation: u64,
    /// Set when the seat was vacated in its last possible generation.
    spent: bool,
    occupant: Option<ModelInstance>,
}

/// The instances that are alive, each under the handle it was issued.
pub struct HandleTable {
    seats: Vec<Seat>,
}

impl HandleTable {
    /// Whether a handle names a live instance.
    pub closed spec fn registered(&self, handle: Handle) -> bool {
        &&& handle.index < self.seats@.len()
        &&& self.seats@[handle.index as int].generation == handle.generation
        &&& self.seats@[handle.index as int].occupant is Some
    }

    /// The instance that a registered handle names.
    pub closed spec fn instance(&self, handle: Handle) -> ModelInstance {
        self.seats@[handle.index as int].occupant->0
    }

    /// Whether a handle was released: it named an instance once and never
    /// will again.
    ///
    /// A seat's generations below its current one are all spent, and so is
    /// the current one of a vacant seat that is marked spent.
    pub closed spec fn retired(&self, handle: Handle) -> bool {
        &&& handle.index < self.seats@.len()
        &&& {
            let seat = self.seats@[handle.index as int];
            ||| handle.generation < seat.generation
            ||| handle.generation == seat.generation && seat.spent && seat.occupant is None
        }
    }

    /// Whether every handle has the same standing in two tables, except
    /// possibly one.
    pub open spec fn same_except(&self, other: &HandleTable, handle: Handle) -> bool {
        forall|h: Handle|
            #![trigger self.registered(h)]
            #![trigger self.retired(h)]
            h != handle ==> {
                &&& self.registered(h) == other.registered(h)
                &&& self.registered(h) ==> self.instance(h) == other.instance(h)
                &&& self.retired(h) == other.retired(h)
            }
    }

    /// A released handle names no instance.
    pub proof fn lemma_retired_is_not_registered(&self, handle: Handle)
        ensures
            self.retired(handle) ==> !self.registered(handle),
    {
    }

    /// A table without instances.
    pub fn new() -> (table: HandleTable)
        ensures
            forall|h: Handle| !table.registered(h) && !table.retired(h),
    {
        HandleTable { seats: Vec::new() }
    }

    /// Decides whether a handle names a live instance.
    pub fn is_registered(&self, handle: Handle) -> (live: bool)
        ensures
            live == self.registered(handle),
    {
        handle.index < self.seats.len() && self.seats[handle.index].generation
            == handle.generation && self.seats[handle.index].occupant.is_some()
    }

    /// Registers an instance and issues its handle.
    ///
    /// The handle is fresh: it names no other instance and was never
    /// released.  Every other handle keeps its standing.
    pub fn acquire(&mut self, instance: ModelInstance) -> (handle: Handle)
        ensures
            !old(self).registered(handle),
            !old(self).retired(handle),
            final(self).registered(handle),
            final(self).instance(handle) == instance,
            !final(self).retired(handle),
            final(self).same_except(old(self), handle),
    {
        let mut i: usize = 0;
        while i < self.seats.len()
            invariant
                i <= self.seats.len(),
                *self == *old(self),
            decreases self.seats.len() - i,
        {
            if self.seats[i].occupant.is_none() && !self.seats[i].spent {
                let generation = self.seats[i].generation;
                self.seats.set(i, Seat { generation, spent: false, occupant: Some(instance) });
                return Handle { index: i, generation };
            }
            i += 1;
        }
        let index = self.seats.len();
        self.seats.push(Seat { generation: 0, spent: false, occupant: Some(instance) });
        Handle { index, generation: 0 }
    }

    /// Takes an instance out of the table, for good.
    ///
    /// A registered handle yields its instance and is retired.  Any other
    /// handle, one that was released before among them, yields nothing and
    /// changes nothing.
    pub fn release(&mut self, handle: Handle) -> (instance: Option<ModelInstance>)
        ensures
            old(self).registered(handle) ==> instance == Some(old(self).instance(handle))
                && final(self).retired(handle),
            !old(self).registered(handle) ==> instance is None && *final(self) == *old(self),
            !final(self).registered(handle),
            final(self).same_except(old(self), handle),
    {
        if !self.is_registered(handle) {
            return None;
        }
        let generation = self.seats[handle.index].generation;
        let instance = self.seats[handle.index].occupant.take();
        if generation < u64::MAX {
            self.seats[handle.index].generation = generation + 1;
            self.seats[handle.index].spent = false;
        } else {
            self.seats[handle.index].spent = true;
        }
        instance
    }

    /// The instance that a handle names, if it names one.
    pub fn get(&self, handle: Handle) -> (instance: Option<&ModelInstance>)
        ensures
            instance is Some <==> self.registered(handle),
            instance matches Some(found) ==> *found == self.instance(handle),
    {
        if handle.index < self.seats.len() && self.seats[handle.index].generation
            == handle.generation {
            self.seats[handle.index].occupant.as_ref()
        } else {
            None
        }
    }

    /// The instance that a handle names, for changing it in place.
    pub fn get_mut(&mut self, handle: Handle) -> (instance: Option<&mut ModelInstance>)
        ensures
            instance is Some <==> old(self).registered(handle),
            instance is None ==> *final(self) == *old(self),
            instance matches Some(found) ==> {
                &&& *found == old(self).instance(handle)
                &&& final(self).registered(handle)
                &&& final(self).instance(handle) == *final(found)
                &&& final(self).same_except(old(self), handle)
                &&& !final(self).retired(handle)
            },
    {
        if self.is_registered(handle) {
            self.seats[handle.index].occupant.as_mut()
        } else {
            None
        }
    }
}

} // verus!
