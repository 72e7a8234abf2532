//! Type identifiers, virtual function tables and per-class type data.
use vstd::prelude::*;

verus! {

/// The identifier under which the object system knows a registered type.
#[derive(Clone, Copy, Debug, PartialEq, Eq, Structural)]
pub struct Type {
    pub id: usize,
}

impl Type {
    /// The identifier that names no type; an unset value slot carries it.
    pub fn invalid() -> (t: Type)
        ensures
            t == Type::spec_invalid(),
    {
        Type { id: 0 }
    }

    pub open spec fn spec_invalid() -> Type {
        Type { id: 0 }
    }

    /// Wraps an identifier as the object system hands it out.
    pub fn from_glib(id: usize) -> (t: Type)
        ensures
            t.id == id,
    {
        Type { id }
    }

    /// The identifier as the object system expects it in a call.
    pub fn to_glib(&self) -> (id: usize)
        ensures
            id == self.id,
    {
        self.id
    }
}

/// A handler that sits in a slot of a virtual function table, named by the
/// class that supplied it.
#[derive(Clone, Copy, Debug, PartialEq, Eq, Structural)]
pub struct Vfunc {
    pub owner: Type,
}

/// The overridable slots of a class's virtual function table.
#[derive(Clone, Copy, Debug, PartialEq, Eq, Structural)]
pub struct Vtable {
    pub set_property: Option<Vfunc>,
    pub get_property: Option<Vfunc>,
    pub constructed: Option<Vfunc>,
}

/// What type registration keeps for a class for as long as the process
/// runs: the virtual function table of the class it derives from.
#[derive(Clone, Copy, Debug, PartialEq, Eq, Structural)]
pub struct TypeData {
    pub parent_class: Vtable,
}

impl TypeData {
    /// The parent class's virtual function table.
    pub fn get_parent_class(&self) -> (parent: Vtable)
        ensures
            parent == self.parent_class,
    {
        self.parent_class
    }
}

} // verus!
