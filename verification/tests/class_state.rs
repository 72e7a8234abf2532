use glib_subclass::class::{ClassState, ObjectClass, Property, PropertyAccess, Registration};
use glib_subclass::object::ObjectClassSubclassExt;
use glib_subclass::store::PropertyStore;
use glib_subclass::types::{Type, TypeData, Vfunc, Vtable};

const ROOT: usize = 80;
const WIDGET: usize = 4000;
const INT: usize = 24;
const NONE: usize = 4;

fn root_class() -> Vtable {
    let root = Vfunc { owner: Type::from_glib(ROOT) };
    Vtable { set_property: Some(root), get_property: None, constructed: Some(root) }
}

fn one_property() -> Vec<Property> {
    vec![Property {
        name: "width".to_string(),
        value_type: Type::from_glib(INT),
        access: PropertyAccess::ReadWrite,
    }]
}

#[test]
fn new_class_inherits_the_parent_table() {
    let klass = ObjectClass::new(Type::from_glib(WIDGET), root_class());
    assert_eq!(klass.state(), ClassState::Unregistered);
    assert_eq!(klass.vtable(), root_class());
    assert_eq!(klass.get_type(), Type::from_glib(WIDGET));
    assert!(klass.registrations().is_empty());
}

#[test]
fn override_vfuncs_puts_the_class_into_all_three_slots() {
    let mut klass = ObjectClass::new(Type::from_glib(WIDGET), root_class());
    klass.override_vfuncs();
    let own = Some(Vfunc { owner: Type::from_glib(WIDGET) });
    assert_eq!(klass.vtable(), Vtable { set_property: own, get_property: own, constructed: own });
    assert_eq!(klass.state(), ClassState::VtableOverridden);
    assert!(klass.registrations().is_empty());

    klass.override_vfuncs();
    assert_eq!(klass.vtable(), Vtable { set_property: own, get_property: own, constructed: own });
    assert_eq!(klass.state(), ClassState::VtableOverridden);
}

#[test]
fn class_walks_through_its_states_in_one_direction() {
    let mut klass = ObjectClass::new(Type::from_glib(WIDGET), root_class());
    assert_eq!(klass.state(), ClassState::Unregistered);
    klass.override_vfuncs();
    assert_eq!(klass.state(), ClassState::VtableOverridden);
    klass.install_properties(&one_property());
    assert_eq!(klass.state(), ClassState::PropertiesInstalled);
    klass.add_signal("resized", &[Type::from_glib(INT)], Type::from_glib(NONE));
    assert_eq!(klass.state(), ClassState::SignalsRegistered);
    klass.add_signal("moved", &[], Type::from_glib(NONE));
    assert_eq!(klass.state(), ClassState::SignalsRegistered);
    klass.override_vfuncs();
    assert_eq!(klass.state(), ClassState::SignalsRegistered);
    let store = PropertyStore::new(TypeData { parent_class: root_class() }, &one_property());
    let instance = klass.new_instance(store);
    assert_eq!(klass.state(), ClassState::Active);
    assert_eq!(instance.parent.type_, Type::from_glib(WIDGET));
    klass.override_vfuncs();
    assert_eq!(klass.state(), ClassState::Active);
}

#[test]
fn properties_after_signals_leave_the_state_where_it_is() {
    let mut klass = ObjectClass::new(Type::from_glib(WIDGET), root_class());
    klass.override_vfuncs();
    klass.add_signal("resized", &[], Type::from_glib(NONE));
    klass.install_properties(&one_property());
    assert_eq!(klass.state(), ClassState::SignalsRegistered);
    assert_eq!(klass.registrations().len(), 2);
}

#[test]
fn registrations_are_kept_in_the_order_they_were_made() {
    let mut klass = ObjectClass::new(Type::from_glib(WIDGET), root_class());
    klass.override_vfuncs();
    klass.install_properties(&one_property());
    klass.add_signal("resized", &[Type::from_glib(INT)], Type::from_glib(NONE));
    let _data = klass.add_signal_with_accumulator("vote", &[], Type::from_glib(INT), |_, _| true);
    let _closure = klass.add_action_signal("reset", &[], Type::from_glib(NONE), |_| None);
    let names: Vec<String> = klass
        .registrations()
        .iter()
        .map(|registration| match registration {
            Registration::Properties { n_pspecs, .. } => format!("{} properties", n_pspecs - 1),
            Registration::Signal(signal) => signal.name.clone(),
        })
        .collect();
    assert_eq!(names, vec!["1 properties", "resized", "vote", "reset"]);
}
