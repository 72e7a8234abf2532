//! Subclassing the root class: the contract an implementing object fulfils,
//! the handlers that the object system calls and that forward to it, and
//! the operations by which a class declares its properties and signals.
use vstd::prelude::*;
use crate::class::{
    ObjectClass, ObjectClassView, Property, PropertyView, Registration, RegistrationView,
    SignalDescriptor, SignalDescriptorView,
};
use crate::instance::{FloatingReferenceGuard, InstanceStruct, Object};
use crate::signal::{
    signature_accepts, type_ids, types_to_glib, Accumulator, Closure, SIGNAL_ACTION,
    SIGNAL_RUN_LAST,
};
use crate::types::{Type, TypeData, Vfunc, Vtable};
use crate::value::Value;

verus! {

/// What a type implements to be the behaviour of a subclass of the root
/// class.
///
/// The handlers in the virtual function table call these methods, and only
/// with an instance that is alive and, thanks to the guard they hold, not
/// floating.
pub trait ObjectImpl: Sized + 'static {
    /// The type data that was stored when the type was registered.
    spec fn type_data(&self) -> TypeData;

    /// What reading the property with index `id` may answer: a value, or
    /// nothing where the read fails.
    spec fn property_read(&self, obj: &Object, id: u32, result: Option<Value>) -> bool;

    /// What setting the property with index `id` to `value` may turn the
    /// implementing object into.
    spec fn property_written(&self, obj: &Object, id: u32, value: &Value, after: Self) -> bool;

    /// Storage for the type-specific data used during registration. It is the
    /// same whenever it is asked for.
    fn get_type_data(&self) -> (data: TypeData)
        ensures
            data == self.type_data(),
    ;

    /// Property setter.
    ///
    /// Called whenever the property with the given index is set. The index
    /// counts from zero, in the order in which the properties were
    /// installed.
    fn set_property(&mut self, obj: &Object, id: u32, value: &Value)
        requires
            obj.is_alive(),
            !obj.floating,
        ensures
            old(self).property_written(obj, id, value, *final(self)),
            final(self).type_data() == old(self).type_data(),
    ;

    /// Property getter.
    ///
    /// Called whenever the value of the property with the given index is
    /// asked for. The index counts from zero, in the order in which the
    /// properties were installed.
    fn get_property(&self, obj: &Object, id: u32) -> (result: Result<Value, ()>)
        requires
            obj.is_alive(),
            !obj.floating,
        ensures
            self.property_read(
                obj,
                id,
                match result {
                    Ok(value) => Some(value),
                    Err(_) => None,
                },
            ),
    ;

    /// Called once construction of the instance is finished.
    ///
    /// Returns the parent class's handler if it is to run for this instance
    /// too, which is what an implementation should want; unless overridden,
    /// this chains up to the parent class.
    fn constructed(&self, obj: &Object) -> (chained: Option<Vfunc>)
        requires
            obj.is_alive(),
            !obj.floating,
        ensures
            chained is None || chained == self.type_data().parent_class.constructed,
        default_ensures
            chained == self.type_data().parent_class.constructed,
    {
        self.parent_constructed(obj)
    }

    /// Chains up to the parent class's `constructed`: looks the handler up in
    /// the parent's virtual function table and hands it out to be run on
    /// `obj`, once. Where the parent has none, nothing is to be run.
    ///
    /// There is nothing to gain from overriding this: whatever stands in its
    /// place has to return the same.
    fn parent_constructed(&self, obj: &Object) -> (chained: Option<Vfunc>)
        ensures
            chained == self.type_data().parent_class.constructed,
    {
        let data = self.get_type_data();
        let parent_class = data.get_parent_class();
        match parent_class.constructed {
            Some(func) => Some(func),
            None => None,
        }
    }
}

/// The property with index `id` could not be read.
#[derive(Clone, Copy, Debug, PartialEq, Eq, Structural)]
pub struct GetPropertyError {
    pub id: u32,
}

impl GetPropertyError {
    /// What to tell whoever operates the program.
    pub fn message(&self) -> (text: &'static str)
        ensures
            text@ == "Failed to get property"@,
    {
        "Failed to get property"
    }
}

/// Finishes a property read: a value that the implementing object returned
/// is moved into the caller's slot; a failure leaves the slot as it is and
/// is reported.
pub fn store_property_result(result: Result<Value, ()>, id: u32, slot: &mut Value) -> (r: Result<
    (),
    GetPropertyError,
>)
    ensures
        match result {
            Ok(v) => r is Ok && *final(slot) == v,
            Err(_) => r == Err::<(), GetPropertyError>(GetPropertyError { id }) && *final(slot)
                == *old(slot),
        },
{
    match result {
        Ok(v) => {
            v.move_into(slot);
            Ok(())
        },
        Err(()) => Err(GetPropertyError { id }),
    }
}

/// The handler for the `get_property` slot.
///
/// The object system asks with the one-based identifier under which it
/// knows the property; the implementing object is asked with the index
/// counted from zero.
pub fn get_property<T: ObjectImpl>(instance: &mut InstanceStruct<T>, id: u32, value: &mut Value) -> (r:
    Result<(), GetPropertyError>)
    requires
        old(instance).parent.is_alive(),
        id >= 1,
    ensures
        *final(instance) == *old(instance),
        match r {
            Ok(_) => old(instance).imp.property_read(
                &old(instance).parent.sunk(),
                (id - 1) as u32,
                Some(*final(value)),
            ),
            Err(error) => {
                &&& old(instance).imp.property_read(
                    &old(instance).parent.sunk(),
                    (id - 1) as u32,
                    None,
                )
                &&& *final(value) == *old(value)
                &&& error.id == id - 1
            },
        },
{
    let guard = FloatingReferenceGuard::new(&mut instance.parent);
    let result = instance.get_impl().get_property(&instance.parent, id - 1);
    let r = store_property_result(result, id - 1, value);
    guard.release(&mut instance.parent);
    r
}

/// The handler for the `set_property` slot.
///
/// The object system asks with the one-based identifier under which it
/// knows the property; the implementing object is asked with the index
/// counted from zero.
pub fn set_property<T: ObjectImpl>(instance: &mut InstanceStruct<T>, id: u32, value: &Value)
    requires
        old(instance).parent.is_alive(),
        id >= 1,
    ensures
        final(instance).parent == old(instance).parent,
        old(instance).imp.property_written(
            &old(instance).parent.sunk(),
            (id - 1) as u32,
            value,
            final(instance).imp,
        ),
        final(instance).imp.type_data() == old(instance).imp.type_data(),
{
    let guard = FloatingReferenceGuard::new(&mut instance.parent);
    instance.imp.set_property(&instance.parent, id - 1, value);
    guard.release(&mut instance.parent);
}

/// The handler for the `constructed` slot.
///
/// Returns what the implementing object's `constructed` returns for this
/// instance: the parent's handler where it chained up, for the object system
/// to run on the same instance, and nothing where it did not.
pub fn constructed<T: ObjectImpl>(instance: &mut InstanceStruct<T>) -> (chained: Option<Vfunc>)
    requires
        old(instance).parent.is_alive(),
    ensures
        *final(instance) == *old(instance),
        call_ensures(
            T::constructed,
            (&old(instance).imp, &old(instance).parent.sunk()),
            chained,
        ),
        chained is None || chained == old(instance).imp.type_data().parent_class.constructed,
{
    let guard = FloatingReferenceGuard::new(&mut instance.parent);
    let chained = instance.get_impl().constructed(&instance.parent);
    guard.release(&mut instance.parent);
    chained
}

impl ObjectClass {
    /// Puts the bridge's handlers into the slots for `set_property`,
    /// `get_property` and `constructed`.
    pub fn override_vfuncs(&mut self)
        ensures
            final(self)@ == old(self)@.with_vfuncs_overridden(),
    {
        let owner = self.get_type();
        self.set_vfuncs(
            Vtable {
                set_property: Some(Vfunc { owner }),
                get_property: Some(Vfunc { owner }),
                constructed: Some(Vfunc { owner }),
            },
        );
    }
}

/// The array that is handed over when `properties` are installed: an empty
/// entry at index 0, then the properties in their order.
pub open spec fn property_table(properties: Seq<PropertyView>) -> Seq<Option<PropertyView>> {
    seq![None::<PropertyView>] + properties.map_values(|p: PropertyView| Some(p))
}

/// The identifier under which the object system asks for a property is its
/// place in the table that was handed over, and one more than the index
/// that the implementing object is asked with: what the handlers subtract
/// leads back to the property as it was given to `install_properties`.
pub proof fn lemma_identifier_leads_to_property(properties: Seq<PropertyView>, id: u32)
    requires
        1 <= id <= properties.len(),
    ensures
        property_table(properties).len() == properties.len() + 1,
        property_table(properties)[0] is None,
        property_table(properties)[id as int] == Some(properties[(id - 1) as int]),
{
}

/// The registration call that installs `properties`.
pub open spec fn properties_registration(properties: Seq<PropertyView>) -> RegistrationView {
    RegistrationView::Properties {
        n_pspecs: (properties.len() + 1) as u32,
        pspecs: property_table(properties),
    }
}

/// The registration call for a signal of the class `itype`.
pub open spec fn signal_registration(
    itype: Type,
    name: Seq<char>,
    flags: u32,
    class_handler: bool,
    accumulator: bool,
    arg_types: Seq<Type>,
    ret_type: Type,
) -> RegistrationView {
    RegistrationView::Signal(
        SignalDescriptorView {
            name,
            itype: itype.id,
            flags,
            class_handler,
            accumulator,
            return_type: ret_type.id,
            n_params: arg_types.len() as u32,
            param_types: type_ids(arg_types),
        },
    )
}

/// What a class can do to declare its properties and signals.
///
/// All of it happens after the virtual function table has been overridden
/// and before the first instance is made.
pub trait ObjectClassSubclassExt: View<V = ObjectClassView> + Sized + 'static {
    /// Installs properties on the subclass.
    ///
    /// The index of a property in `properties` is the index that the
    /// property setter and getter are called with. Installing no
    /// properties does nothing at all, in whatever state the class is.
    fn install_properties(&mut self, properties: &[Property])
        requires
            properties@.len() > 0 ==> old(self)@.state.accepts_registration(),
        ensures
            final(self)@ == if properties@.len() == 0 {
                old(self)@
            } else {
                old(self)@.with_registration(properties_registration(properties.deep_view()))
            },
    ;

    /// Adds a new signal to the subclass: the class handler's place is
    /// after the connected handlers, and there is neither a class handler
    /// nor an accumulator.
    fn add_signal(&mut self, name: &str, arg_types: &[Type], ret_type: Type)
        requires
            old(self)@.state.accepts_registration(),
        ensures
            final(self)@ == old(self)@.with_registration(
                signal_registration(
                    old(self)@.type_,
                    name@,
                    SIGNAL_RUN_LAST,
                    false,
                    false,
                    arg_types@,
                    ret_type,
                ),
            ),
    ;

    /// Adds a new signal with an accumulator to the subclass.
    ///
    /// The accumulator combines the return values of the handlers: it gets
    /// the value accumulated so far and what the latest handler returned,
    /// and answers `false` when no further handler is to be called. It is
    /// handed back in the form in which it is registered, to be kept for as
    /// long as the class exists.
    fn add_signal_with_accumulator<F>(
        &mut self,
        name: &str,
        arg_types: &[Type],
        ret_type: Type,
        accumulator: F,
    ) -> (data: Accumulator<F>) where F: Fn(&mut Value, &Value) -> bool + Send + Sync + 'static
        requires
            old(self)@.state.accepts_registration(),
            forall|accu: &mut Value, handler_return: &Value|
                call_requires(accumulator, (accu, handler_return)),
        ensures
            final(self)@ == old(self)@.with_registration(
                signal_registration(
                    old(self)@.type_,
                    name@,
                    SIGNAL_RUN_LAST,
                    false,
                    true,
                    arg_types@,
                    ret_type,
                ),
            ),
            data.predicate() == accumulator,
    ;

    /// Adds a new action signal to the subclass.
    ///
    /// An action signal is there to be emitted by outside code, which makes
    /// the handler run: a function call by name. The handler is handed back
    /// as the closure that is registered as the signal's class handler.
    fn add_action_signal<F>(
        &mut self,
        name: &str,
        arg_types: &[Type],
        ret_type: Type,
        handler: F,
    ) -> (class_closure: Closure<F>) where F: Fn(&[Value]) -> Option<Value> + Send + Sync + 'static
        requires
            old(self)@.state.accepts_registration(),
            forall|args: &[Value]|
                signature_accepts(type_ids(arg_types@), args@) ==> call_requires(handler, (args,)),
        ensures
            final(self)@ == old(self)@.with_registration(
                signal_registration(
                    old(self)@.type_,
                    name@,
                    SIGNAL_RUN_LAST | SIGNAL_ACTION,
                    true,
                    false,
                    arg_types@,
                    ret_type,
                ),
            ),
            class_closure.callback() == handler,
            class_closure.param_types() == type_ids(arg_types@),
    ;
}

fn signal_descriptor(
    itype: Type,
    name: &str,
    flags: u32,
    class_handler: bool,
    accumulator: bool,
    arg_types: &[Type],
    ret_type: Type,
) -> (registration: Registration)
    ensures
        registration.deep_view() == signal_registration(
            itype,
            name@,
            flags,
            class_handler,
            accumulator,
            arg_types@,
            ret_type,
        ),
{
    let param_types = types_to_glib(arg_types);
    Registration::Signal(
        SignalDescriptor {
            name: name.to_owned(),
            itype: itype.to_glib(),
            flags,
            class_handler,
            accumulator,
            return_type: ret_type.to_glib(),
            n_params: #[verifier::truncate]
            (param_types.len() as u32),
            param_types,
        },
    )
}

impl ObjectClassSubclassExt for ObjectClass {
    fn install_properties(&mut self, properties: &[Property]) {
        if properties.len() == 0 {
            return;
        }
        let mut pspecs: Vec<Option<Property>> = Vec::with_capacity(properties.len());
        pspecs.push(None);
        let mut i: usize = 0;
        while i < properties.len()
            invariant
                i <= properties.len(),
                pspecs.deep_view() == property_table(properties.deep_view().take(i as int)),
            decreases properties.len() - i,
        {
            let ghost installed = pspecs.deep_view();
            let property = &properties[i];
            pspecs.push(
                Some(
                    Property {
                        name: property.name.clone(),
                        value_type: property.value_type,
                        access: property.access,
                    },
                ),
            );
            proof {
                let all = properties.deep_view();
                assert(all.take(i + 1) =~= all.take(i as int).push(all[i as int]));
                assert(pspecs.deep_view() =~= installed.push(Some(all[i as int])));
                assert(property_table(all.take(i + 1)) =~= property_table(all.take(i as int)).push(
                    Some(all[i as int]),
                ));
            }
            i = i + 1;
        }
        assert(properties.deep_view().take(i as int) =~= properties.deep_view());
        let n_pspecs = #[verifier::truncate]
        (pspecs.len() as u32);
        self.register(Registration::Properties { n_pspecs, pspecs });
    }

    fn add_signal(&mut self, name: &str, arg_types: &[Type], ret_type: Type) {
        let signal = signal_descriptor(
            self.get_type(),
            name,
            SIGNAL_RUN_LAST,
            false,
            false,
            arg_types,
            ret_type,
        );
        self.register(signal);
    }

    fn add_signal_with_accumulator<F>(
        &mut self,
        name: &str,
        arg_types: &[Type],
        ret_type: Type,
        accumulator: F,
    ) -> (data: Accumulator<F>) where F: Fn(&mut Value, &Value) -> bool + Send + Sync + 'static {
        let signal = signal_descriptor(
            self.get_type(),
            name,
            SIGNAL_RUN_LAST,
            false,
            true,
            arg_types,
            ret_type,
        );
        self.register(signal);
        Accumulator::new(accumulator)
    }

    fn add_action_signal<F>(
        &mut self,
        name: &str,
        arg_types: &[Type],
        ret_type: Type,
        handler: F,
    ) -> (class_closure: Closure<F>) where F: Fn(&[Value]) -> Option<Value> + Send + Sync + 'static {
        let signal = signal_descriptor(
            self.get_type(),
            name,
            SIGNAL_RUN_LAST | SIGNAL_ACTION,
            true,
            false,
            arg_types,
            ret_type,
        );
        self.register(signal);
        Closure::new(handler, types_to_glib(arg_types))
    }
}

} // verus!
