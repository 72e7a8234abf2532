//! The class struct of a subclass, and the record of what has been
//! registered for it with the object system.
use vstd::prelude::*;
use crate::instance::InstanceStruct;
use crate::types::{Type, Vfunc, Vtable};

verus! {

/// How a property may be accessed from outside.
#[derive(Clone, Copy, Debug, PartialEq, Eq, Structural)]
pub enum PropertyAccess {
    ReadOnly,
    WriteOnly,
    ReadWrite,
}

/// Describes one property of a class.
#[derive(Debug, PartialEq, Eq)]
pub struct Property {
    pub name: String,
    pub value_type: Type,
    pub access: PropertyAccess,
}

/// A property descriptor as contracts see it.
pub struct PropertyView {
    pub name: Seq<char>,
    pub value_type: Type,
    pub access: PropertyAccess,
}

impl DeepView for Property {
    type V = PropertyView;

    open spec fn deep_view(&self) -> PropertyView {
        PropertyView { name: self.name@, value_type: self.value_type, access: self.access }
    }
}

/// Everything the object system is told when a signal is registered.
#[derive(Debug, PartialEq, Eq)]
pub struct SignalDescriptor {
    /// The signal's name.
    pub name: String,
    /// The type the signal belongs to.
    pub itype: usize,
    /// When the class handler runs, and whether outside code may emit the
    /// signal as an action.
    pub flags: u32,
    /// Whether the registration supplies a class handler.
    pub class_handler: bool,
    /// Whether the registration supplies an accumulator.
    pub accumulator: bool,
    /// The type of the value an emission returns.
    pub return_type: usize,
    /// How many arguments an emission takes: the length of `param_types`,
    /// cut to the 32 bits in which the object system takes it.
    pub n_params: u32,
    /// The types of those arguments, in order.
    pub param_types: Vec<usize>,
}

/// A signal descriptor as contracts see it.
pub struct SignalDescriptorView {
    pub name: Seq<char>,
    pub itype: usize,
    pub flags: u32,
    pub class_handler: bool,
    pub accumulator: bool,
    pub return_type: usize,
    pub n_params: u32,
    pub param_types: Seq<usize>,
}

impl DeepView for SignalDescriptor {
    type V = SignalDescriptorView;

    open spec fn deep_view(&self) -> SignalDescriptorView {
        SignalDescriptorView {
            name: self.name@,
            itype: self.itype,
            flags: self.flags,
            class_handler: self.class_handler,
            accumulator: self.accumulator,
            return_type: self.return_type,
            n_params: self.n_params,
            param_types: self.param_types@,
        }
    }
}

/// One registration call made on behalf of a class, with its arguments.
#[derive(Debug, PartialEq, Eq)]
pub enum Registration {
    /// A batch of properties, as the array that is handed over: the entry
    /// at index 0 is reserved and stays empty, the property with index `i`
    /// sits at `i + 1`. `n_pspecs` is the length of the array, cut to the
    /// 32 bits in which the object system takes it.
    Properties { n_pspecs: u32, pspecs: Vec<Option<Property>> },
    /// One signal.
    Signal(SignalDescriptor),
}

/// A registration call as contracts see it.
pub enum RegistrationView {
    Properties { n_pspecs: u32, pspecs: Seq<Option<PropertyView>> },
    Signal(SignalDescriptorView),
}

impl DeepView for Registration {
    type V = RegistrationView;

    open spec fn deep_view(&self) -> RegistrationView {
        match self {
            Registration::Properties { n_pspecs, pspecs } => RegistrationView::Properties {
                n_pspecs: *n_pspecs,
                pspecs: pspecs.deep_view(),
            },
            Registration::Signal(signal) => RegistrationView::Signal(signal.deep_view()),
        }
    }
}

/// Where a class stands in its life. A class only ever moves forward.
#[derive(Clone, Copy, Debug, PartialEq, Eq, Structural)]
pub enum ClassState {
    /// The class struct is as it was inherited.
    Unregistered,
    /// The bridge's handlers are in the virtual function table.
    VtableOverridden,
    /// At least one batch of properties has been installed, and no signal
    /// registered yet.
    PropertiesInstalled,
    /// At least one signal has been registered.
    SignalsRegistered,
    /// The class has been instantiated and does not change any more.
    Active,
}

impl ClassState {
    /// The position of a state along the one way a class can go.
    pub open spec fn rank(self) -> nat {
        match self {
            ClassState::Unregistered => 0,
            ClassState::VtableOverridden => 1,
            ClassState::PropertiesInstalled => 2,
            ClassState::SignalsRegistered => 3,
            ClassState::Active => 4,
        }
    }

    /// The later of `self` and `target`.
    pub open spec fn advanced_to(self, target: ClassState) -> ClassState {
        if self.rank() < target.rank() {
            target
        } else {
            self
        }
    }

    /// Whether properties and signals may be registered in this state: the
    /// virtual function table has been overridden and no instance exists.
    pub open spec fn accepts_registration(self) -> bool {
        1 <= self.rank() <= 3
    }

    fn position(self) -> (rank: u8)
        ensures
            rank == self.rank(),
    {
        match self {
            ClassState::Unregistered => 0,
            ClassState::VtableOverridden => 1,
            ClassState::PropertiesInstalled => 2,
            ClassState::SignalsRegistered => 3,
            ClassState::Active => 4,
        }
    }

    fn advance_to(self, target: ClassState) -> (next: ClassState)
        ensures
            next == self.advanced_to(target),
    {
        if self.position() < target.position() {
            target
        } else {
            self
        }
    }
}

impl Vtable {
    /// The table in which all three slots hold the handlers of `owner`.
    pub open spec fn overridden_by(owner: Type) -> Vtable {
        Vtable {
            set_property: Some(Vfunc { owner }),
            get_property: Some(Vfunc { owner }),
            constructed: Some(Vfunc { owner }),
        }
    }
}

/// The class struct of one registered type, and what has been registered
/// for it so far.
#[derive(Debug)]
pub struct ObjectClass {
    type_: Type,
    vtable: Vtable,
    state: ClassState,
    registrations: Vec<Registration>,
}

/// A class as contracts see it.
pub struct ObjectClassView {
    pub type_: Type,
    pub vtable: Vtable,
    pub state: ClassState,
    pub registrations: Seq<RegistrationView>,
}

impl ObjectClassView {
    /// What holds of every class. In every state but the first, all three
    /// slots of the virtual function table hold the class's own handlers.
    /// Until it is in use, the state of a class tells what has been
    /// registered for it: nothing as long as it has not gone beyond
    /// overriding the table, only properties while it has its properties
    /// installed, and at least one signal once it has its signals
    /// registered.
    pub open spec fn is_consistent(self) -> bool {
        &&& self.state != ClassState::Unregistered ==> self.vtable == Vtable::overridden_by(
            self.type_,
        )
        &&& self.state.rank() <= 1 ==> self.registrations.len() == 0
        &&& self.state == ClassState::PropertiesInstalled ==> {
            &&& self.registrations.len() > 0
            &&& forall|i: int|
                0 <= i < self.registrations.len() ==> (#[trigger] self.registrations[i])
                    is Properties
        }
        &&& self.state == ClassState::SignalsRegistered ==> exists|i: int|
            0 <= i < self.registrations.len() && (#[trigger] self.registrations[i]) is Signal
    }

    /// The class after its virtual function table was overridden.
    pub open spec fn with_vfuncs_overridden(self) -> ObjectClassView {
        ObjectClassView {
            vtable: Vtable::overridden_by(self.type_),
            state: self.state.advanced_to(ClassState::VtableOverridden),
            ..self
        }
    }

    /// The class after one more registration call.
    pub open spec fn with_registration(self, registration: RegistrationView) -> ObjectClassView {
        ObjectClassView {
            state: self.state.advanced_to(
                match registration {
                    RegistrationView::Properties { .. } => ClassState::PropertiesInstalled,
                    RegistrationView::Signal(_) => ClassState::SignalsRegistered,
                },
            ),
            registrations: self.registrations.push(registration),
            ..self
        }
    }

    /// The class after its first instance was made.
    pub open spec fn activated(self) -> ObjectClassView {
        ObjectClassView { state: ClassState::Active, ..self }
    }
}

/// A class only moves forward: whatever is done to it, it never gets back
/// into an earlier state. Overriding the virtual function table a second
/// time changes nothing.
pub proof fn lemma_class_moves_forward(class: ObjectClassView, registration: RegistrationView)
    requires
        class.is_consistent(),
    ensures
        class.with_vfuncs_overridden().state.rank() >= class.state.rank(),
        class.with_registration(registration).state.rank() >= class.state.rank(),
        class.activated().state.rank() >= class.state.rank(),
        class.state != ClassState::Unregistered ==> class.with_vfuncs_overridden() == class,
{
}

/// Every step in the life of a class keeps the class consistent.
pub proof fn lemma_class_stays_consistent(class: ObjectClassView, registration: RegistrationView)
    requires
        class.is_consistent(),
    ensures
        class.with_vfuncs_overridden().is_consistent(),
        class.state.accepts_registration() ==> class.with_registration(
            registration,
        ).is_consistent(),
        class.state != ClassState::Unregistered ==> class.activated().is_consistent(),
{
    if class.state.accepts_registration() {
        let after = class.with_registration(registration);
        let last = class.registrations.len() as int;
        assert(after.registrations[last] == registration);
        if after.state == ClassState::PropertiesInstalled {
            assert forall|i: int| 0 <= i < after.registrations.len() implies (
            #[trigger] after.registrations[i]) is Properties by {
                if i < last {
                    assert(after.registrations[i] == class.registrations[i]);
                }
            }
        }
        if after.state == ClassState::SignalsRegistered {
            if registration is Signal {
                assert(after.registrations[last] is Signal);
            } else {
                let i = choose|i: int|
                    0 <= i < class.registrations.len() && (#[trigger] class.registrations[i])
                        is Signal;
                assert(after.registrations[i] == class.registrations[i]);
            }
        }
    }
}

impl View for ObjectClass {
    type V = ObjectClassView;

    closed spec fn view(&self) -> ObjectClassView {
        ObjectClassView {
            type_: self.type_,
            vtable: self.vtable,
            state: self.state,
            registrations: self.registrations.deep_view(),
        }
    }
}

impl ObjectClass {
    #[verifier::type_invariant]
    spec fn consistent(self) -> bool {
        self@.is_consistent()
    }

    /// The class struct of the newly registered `type_`. It starts out with
    /// the virtual function table of the class it derives from.
    pub fn new(type_: Type, parent_class: Vtable) -> (class: ObjectClass)
        ensures
            class@ == (ObjectClassView {
                type_,
                vtable: parent_class,
                state: ClassState::Unregistered,
                registrations: Seq::empty(),
            }),
    {
        let class = ObjectClass {
            type_,
            vtable: parent_class,
            state: ClassState::Unregistered,
            registrations: Vec::new(),
        };
        assert(class.registrations.deep_view() =~= Seq::empty());
        class
    }

    /// The type this is the class of.
    pub fn get_type(&self) -> (t: Type)
        ensures
            t == self@.type_,
    {
        self.type_
    }

    /// The virtual function table as it stands.
    pub fn vtable(&self) -> (vtable: Vtable)
        ensures
            vtable == self@.vtable,
    {
        self.vtable
    }

    /// Where the class stands in its life.
    pub fn state(&self) -> (state: ClassState)
        ensures
            state == self@.state,
            self@.is_consistent(),
    {
        proof {
            use_type_invariant(self);
        }
        self.state
    }

    /// The registration calls made so far, oldest first.
    pub fn registrations(&self) -> (registrations: &Vec<Registration>)
        ensures
            registrations.deep_view() == self@.registrations,
    {
        &self.registrations
    }

    pub(crate) fn set_vfuncs(&mut self, vtable: Vtable)
        requires
            vtable == Vtable::overridden_by(old(self)@.type_),
        ensures
            final(self)@ == old(self)@.with_vfuncs_overridden(),
    {
        proof {
            use_type_invariant(&*self);
        }
        self.vtable = vtable;
        self.state = self.state.advance_to(ClassState::VtableOverridden);
    }

    pub(crate) fn register(&mut self, registration: Registration)
        requires
            old(self)@.state.accepts_registration(),
        ensures
            final(self)@ == old(self)@.with_registration(registration.deep_view()),
    {
        proof {
            use_type_invariant(&*self);
        }
        let target = match &registration {
            Registration::Properties { .. } => ClassState::PropertiesInstalled,
            Registration::Signal(_) => ClassState::SignalsRegistered,
        };
        let mut taken = ObjectClass {
            type_: self.type_,
            vtable: self.vtable,
            state: ClassState::Unregistered,
            registrations: Vec::new(),
        };
        core::mem::swap(self, &mut taken);
        let ObjectClass { type_, vtable, state, mut registrations } = taken;
        registrations.push(registration);
        proof {
            assert(registrations.deep_view() =~= old(self).registrations.deep_view().push(
                registration.deep_view(),
            ));
            lemma_class_stays_consistent(old(self)@, registration.deep_view());
        }
        *self = ObjectClass { type_, vtable, state: state.advance_to(target), registrations };
    }

    /// Makes the memory of an instance of this class around `imp`. The
    /// virtual function table must have been overridden by then. With its
    /// first instance a class is in use, and stays as it is from then on.
    pub fn new_instance<T>(&mut self, imp: T) -> (instance: InstanceStruct<T>)
        requires
            old(self)@.state != ClassState::Unregistered,
        ensures
            final(self)@ == old(self)@.activated(),
            instance == InstanceStruct::new_spec(old(self)@.type_, imp),
    {
        proof {
            use_type_invariant(&*self);
        }
        self.state = ClassState::Active;
        InstanceStruct::new(self.type_, imp)
    }
}

} // verus!
