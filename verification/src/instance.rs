//! Instances of the object system, as far as the bridge reads and changes
//! them, and the guard that protects them during a callback.
use vstd::prelude::*;
use crate::types::Type;

verus! {

/// The header of a live instance: its type, how many owners it has, and
/// whether it is still floating.
///
/// A floating instance has been constructed but not yet claimed: its one
/// reference belongs to nobody in particular, and the first party to sink it
/// takes that reference over.
#[derive(Clone, Copy, Debug, PartialEq, Eq, Structural)]
pub struct Object {
    pub type_: Type,
    pub ref_count: u32,
    pub floating: bool,
}

impl Object {
    /// The same instance with its floating reference claimed.
    pub open spec fn sunk(self) -> Object {
        Object { floating: false, ..self }
    }

    /// The instance after a party took a reference of its own: a floating
    /// reference is taken over as it is, otherwise one is added.
    pub open spec fn after_ref_sink(self) -> Object {
        if self.floating {
            self.sunk()
        } else {
            Object { ref_count: (self.ref_count + 1) as u32, ..self }
        }
    }

    /// The instance after one reference was given up.
    pub open spec fn after_unref(self) -> Object {
        Object { ref_count: (self.ref_count - 1) as u32, ..self }
    }

    /// The instance marked as floating again.
    pub open spec fn after_force_floating(self) -> Object {
        Object { floating: true, ..self }
    }

    /// The instance after a guard was released that had found it floating
    /// or not.
    pub open spec fn released(self, found_floating: bool) -> Object {
        if found_floating {
            self.after_force_floating()
        } else {
            self
        }
    }

    /// Whether anybody still holds the instance. Once nobody does, it has
    /// been finalized and must not be touched again.
    pub open spec fn is_alive(self) -> bool {
        self.ref_count > 0
    }

    /// What `new` hands out for `type_`.
    pub open spec fn new_spec(type_: Type) -> Object {
        Object { type_, ref_count: 1, floating: false }
    }

    /// A freshly constructed instance of `type_`, owned by its creator.
    pub fn new(type_: Type) -> (obj: Object)
        ensures
            obj == Object::new_spec(type_),
    {
        Object { type_, ref_count: 1, floating: false }
    }

    /// A freshly constructed instance of `type_` that nobody has claimed yet.
    pub fn new_floating(type_: Type) -> (obj: Object)
        ensures
            obj == (Object { type_, ref_count: 1, floating: true }),
    {
        Object { type_, ref_count: 1, floating: true }
    }

    /// Whether the instance is still floating.
    pub fn is_floating(&self) -> (b: bool)
        ensures
            b == self.floating,
    {
        self.floating
    }

    /// Whether the instance is still held by anybody.
    pub fn alive(&self) -> (b: bool)
        ensures
            b == self.is_alive(),
    {
        self.ref_count > 0
    }

    /// Takes a reference: claims the floating one if there is one, adds a
    /// new one otherwise.
    pub fn ref_sink(&mut self)
        requires
            old(self).is_alive(),
            old(self).floating || old(self).ref_count < u32::MAX,
        ensures
            *final(self) == old(self).after_ref_sink(),
    {
        if self.floating {
            self.floating = false;
        } else {
            self.ref_count = self.ref_count + 1;
        }
    }

    /// Gives up one reference. The instance is finalized when that was the
    /// last one.
    pub fn unref(&mut self)
        requires
            old(self).is_alive(),
        ensures
            *final(self) == old(self).after_unref(),
    {
        self.ref_count = self.ref_count - 1;
    }

    /// Marks the instance as floating, whatever it was before.
    pub fn force_floating(&mut self)
        requires
            old(self).is_alive(),
        ensures
            *final(self) == old(self).after_force_floating(),
    {
        self.floating = true;
    }
}

/// Keeps an instance from being finalized under a callback's feet.
///
/// While an instance floats, a callback that takes and drops a reference of
/// its own would take over the floating reference and then give up the only
/// one there is. The guard claims the floating reference for the length of
/// the callback and puts the instance back to floating when it is released,
/// so that every reference the callback takes is one it added itself.
#[derive(Debug)]
pub struct FloatingReferenceGuard {
    restore: bool,
}

impl FloatingReferenceGuard {
    /// Whether releasing the guard puts the instance back to floating.
    pub closed spec fn restores_floating(self) -> bool {
        self.restore
    }

    /// Takes the guard: a floating instance is sunk, any other is left alone.
    pub fn new(obj: &mut Object) -> (guard: FloatingReferenceGuard)
        requires
            old(obj).is_alive(),
        ensures
            *final(obj) == old(obj).sunk(),
            guard.restores_floating() == old(obj).floating,
    {
        if obj.is_floating() {
            obj.ref_sink();
            FloatingReferenceGuard { restore: true }
        } else {
            FloatingReferenceGuard { restore: false }
        }
    }

    /// Releases the guard: an instance that floated when the guard was taken
    /// floats again, any other is left as the callback left it.
    pub fn release(self, obj: &mut Object)
        requires
            old(obj).is_alive(),
        ensures
            *final(obj) == old(obj).released(self.restores_floating()),
    {
        if self.restore {
            obj.force_floating();
        }
    }
}

/// Under the guard a callback may take a reference and drop it again: the
/// instance stays alive throughout and ends up exactly as it was.
pub proof fn lemma_guarded_borrow_is_neutral(obj: Object)
    requires
        obj.is_alive(),
        obj.ref_count < u32::MAX,
    ensures
        obj.sunk().after_ref_sink().is_alive(),
        obj.sunk().after_ref_sink().after_unref().is_alive(),
        obj.sunk().after_ref_sink().after_unref().released(obj.floating) == obj,
{
}

/// Without the guard the same callback finalizes a floating instance that
/// has only its floating reference: the hazard the guard is there for.
pub proof fn lemma_unguarded_borrow_finalizes(obj: Object)
    requires
        obj.floating,
        obj.ref_count == 1,
    ensures
        !obj.after_ref_sink().after_unref().is_alive(),
{
}

/// The memory of one instance: the object system's header, and behind it the
/// implementing object that belongs to the instance for all of its life.
#[derive(Debug)]
pub struct InstanceStruct<T> {
    pub parent: Object,
    pub imp: T,
}

impl<T> InstanceStruct<T> {
    /// What `new` hands out for `type_` and `imp`.
    pub open spec fn new_spec(type_: Type, imp: T) -> InstanceStruct<T> {
        InstanceStruct { parent: Object::new_spec(type_), imp }
    }

    /// The memory of a new instance of `type_` with `imp` as its
    /// implementing object.
    pub fn new(type_: Type, imp: T) -> (instance: InstanceStruct<T>)
        ensures
            instance == InstanceStruct::new_spec(type_, imp),
    {
        InstanceStruct { parent: Object::new(type_), imp }
    }

    /// The implementing object, borrowed for as long as the instance is.
    pub fn get_impl(&self) -> (imp: &T)
        ensures
            *imp == self.imp,
    {
        &self.imp
    }
}

} // verus!
