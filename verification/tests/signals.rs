use glib_subclass::class::{ClassState, ObjectClass, Registration, SignalDescriptor};
use glib_subclass::object::ObjectClassSubclassExt;
use glib_subclass::signal::{
    accumulator_trampoline, check_arguments, types_to_glib, EmitError, GFALSE, GTRUE,
    SIGNAL_ACTION, SIGNAL_RUN_LAST,
};
use glib_subclass::types::{Type, Vtable};
use glib_subclass::value::Value;
use std::sync::atomic::{AtomicUsize, Ordering};
use std::sync::Arc;

const EMITTER: usize = 3000;
const NONE: usize = 4;
const BOOLEAN: usize = 20;
const INT: usize = 24;
const STRING: usize = 64;

fn overridden_class() -> ObjectClass {
    let parent = Vtable { set_property: None, get_property: None, constructed: None };
    let mut klass = ObjectClass::new(Type::from_glib(EMITTER), parent);
    klass.override_vfuncs();
    klass
}

fn only_signal(klass: &ObjectClass) -> &SignalDescriptor {
    assert_eq!(klass.registrations().len(), 1);
    match &klass.registrations()[0] {
        Registration::Signal(signal) => signal,
        Registration::Properties { .. } => panic!("properties were installed"),
    }
}

fn int_value(data: u64) -> Value {
    Value::new(Type::from_glib(INT), data)
}

#[test]
fn signal_flags_are_those_of_the_object_system() {
    assert_eq!(SIGNAL_RUN_LAST, 2);
    assert_eq!(SIGNAL_ACTION, 32);
    assert_eq!(GFALSE, 0);
    assert_eq!(GTRUE, 1);
}

#[test]
fn types_to_glib_keeps_the_order() {
    let types = [Type::from_glib(STRING), Type::from_glib(INT), Type::from_glib(STRING)];
    assert_eq!(types_to_glib(&types), vec![STRING, INT, STRING]);
    assert_eq!(types_to_glib(&[]), Vec::<usize>::new());
}

#[test]
fn add_signal_registers_a_plain_signal() {
    let mut klass = overridden_class();
    klass.add_signal(
        "changed",
        &[Type::from_glib(STRING), Type::from_glib(INT)],
        Type::from_glib(NONE),
    );
    assert_eq!(klass.state(), ClassState::SignalsRegistered);
    assert_eq!(
        *only_signal(&klass),
        SignalDescriptor {
            name: "changed".to_string(),
            itype: EMITTER,
            flags: 2,
            class_handler: false,
            accumulator: false,
            return_type: NONE,
            n_params: 2,
            param_types: vec![STRING, INT],
        }
    );
}

#[test]
fn add_signal_with_accumulator_registers_the_accumulator() {
    let mut klass = overridden_class();
    let _data = klass.add_signal_with_accumulator(
        "vote",
        &[],
        Type::from_glib(BOOLEAN),
        |_accu: &mut Value, _handler_return: &Value| true,
    );
    assert_eq!(
        *only_signal(&klass),
        SignalDescriptor {
            name: "vote".to_string(),
            itype: EMITTER,
            flags: 2,
            class_handler: false,
            accumulator: true,
            return_type: BOOLEAN,
            n_params: 0,
            param_types: vec![],
        }
    );
}

#[test]
fn add_action_signal_registers_a_class_handler() {
    let mut klass = overridden_class();
    let _closure =
        klass.add_action_signal("reset", &[Type::from_glib(INT)], Type::from_glib(NONE), |_args| None);
    assert_eq!(
        *only_signal(&klass),
        SignalDescriptor {
            name: "reset".to_string(),
            itype: EMITTER,
            flags: 34,
            class_handler: true,
            accumulator: false,
            return_type: NONE,
            n_params: 1,
            param_types: vec![INT],
        }
    );
}

#[test]
fn accumulator_trampoline_passes_the_answer_on() {
    let mut klass = overridden_class();
    let data = klass.add_signal_with_accumulator(
        "sum",
        &[],
        Type::from_glib(INT),
        |accu: &mut Value, handler_return: &Value| {
            accu.data += handler_return.data;
            accu.data < 10
        },
    );
    let mut accu = int_value(0);
    assert_eq!(accumulator_trampoline(&mut accu, &int_value(4), &data), 1);
    assert_eq!(accu, int_value(4));
    assert_eq!(accumulator_trampoline(&mut accu, &int_value(5), &data), 1);
    assert_eq!(accu, int_value(9));
    assert_eq!(accumulator_trampoline(&mut accu, &int_value(1), &data), 0);
    assert_eq!(accu, int_value(10));
}

/// Runs the handlers of one emission in their order, asking the accumulator
/// after each whether to go on, and counts the handlers that ran.
fn emit<F>(
    handlers: &[&dyn Fn() -> Value],
    accu: &mut Value,
    data: &glib_subclass::signal::Accumulator<F>,
) -> usize
where
    F: Fn(&mut Value, &Value) -> bool + Send + Sync + 'static,
{
    let mut ran = 0;
    for handler in handlers {
        let handler_return = handler();
        ran += 1;
        if accumulator_trampoline(accu, &handler_return, data) == GFALSE {
            break;
        }
    }
    ran
}

#[test]
fn accumulator_that_answers_false_keeps_the_second_handler_from_running() {
    let mut klass = overridden_class();
    let data = klass.add_signal_with_accumulator(
        "first-only",
        &[],
        Type::from_glib(INT),
        |accu: &mut Value, handler_return: &Value| {
            accu.data = handler_return.data;
            false
        },
    );
    let second_ran = AtomicUsize::new(0);
    let first = || int_value(1);
    let second = || {
        second_ran.fetch_add(1, Ordering::SeqCst);
        int_value(2)
    };
    let mut accu = int_value(0);
    assert_eq!(emit(&[&first, &second], &mut accu, &data), 1);
    assert_eq!(second_ran.load(Ordering::SeqCst), 0);
    assert_eq!(accu, int_value(1));
}

#[test]
fn accumulator_that_answers_true_lets_every_handler_run() {
    let mut klass = overridden_class();
    let data = klass.add_signal_with_accumulator(
        "all",
        &[],
        Type::from_glib(INT),
        |accu: &mut Value, handler_return: &Value| {
            accu.data += handler_return.data;
            true
        },
    );
    let second_ran = AtomicUsize::new(0);
    let first = || int_value(1);
    let second = || {
        second_ran.fetch_add(1, Ordering::SeqCst);
        int_value(2)
    };
    let mut accu = int_value(0);
    assert_eq!(emit(&[&first, &second], &mut accu, &data), 2);
    assert_eq!(second_ran.load(Ordering::SeqCst), 1);
    assert_eq!(accu, int_value(3));
}

#[test]
fn action_signal_calls_the_handler_with_the_declared_arguments() {
    let mut klass = overridden_class();
    let calls = Arc::new(AtomicUsize::new(0));
    let seen = calls.clone();
    let closure = klass.add_action_signal(
        "add",
        &[Type::from_glib(INT), Type::from_glib(INT)],
        Type::from_glib(INT),
        move |args: &[Value]| {
            seen.fetch_add(1, Ordering::SeqCst);
            assert_eq!(args.len(), 2);
            assert_eq!(args[0].type_(), Type::from_glib(INT));
            assert_eq!(args[1].type_(), Type::from_glib(INT));
            Some(Value::new(Type::from_glib(INT), args[0].data + args[1].data))
        },
    );
    assert_eq!(closure.invoke(&[int_value(3), int_value(4)]), Ok(Some(int_value(7))));
    assert_eq!(calls.load(Ordering::SeqCst), 1);
}

#[test]
fn action_signal_turns_a_wrong_argument_count_away() {
    let mut klass = overridden_class();
    let calls = Arc::new(AtomicUsize::new(0));
    let seen = calls.clone();
    let closure = klass.add_action_signal(
        "add",
        &[Type::from_glib(INT), Type::from_glib(INT)],
        Type::from_glib(INT),
        move |args: &[Value]| {
            seen.fetch_add(1, Ordering::SeqCst);
            Some(Value::new(Type::from_glib(INT), args[0].data + args[1].data))
        },
    );
    assert_eq!(
        closure.invoke(&[int_value(3)]),
        Err(EmitError::ArgumentCount { expected: 2, found: 1 })
    );
    assert_eq!(
        closure.invoke(&[int_value(3), int_value(4), int_value(5)]),
        Err(EmitError::ArgumentCount { expected: 2, found: 3 })
    );
    assert_eq!(closure.invoke(&[]), Err(EmitError::ArgumentCount { expected: 2, found: 0 }));
    assert_eq!(calls.load(Ordering::SeqCst), 0);
}

#[test]
fn action_signal_turns_a_wrong_argument_type_away() {
    let mut klass = overridden_class();
    let calls = Arc::new(AtomicUsize::new(0));
    let seen = calls.clone();
    let closure = klass.add_action_signal(
        "add",
        &[Type::from_glib(INT), Type::from_glib(INT)],
        Type::from_glib(INT),
        move |_args: &[Value]| {
            seen.fetch_add(1, Ordering::SeqCst);
            None
        },
    );
    assert_eq!(
        closure.invoke(&[int_value(3), Value::new(Type::from_glib(STRING), 4)]),
        Err(EmitError::ArgumentType { index: 1, expected: INT, found: STRING })
    );
    assert_eq!(
        closure.invoke(&[Value::new(Type::from_glib(BOOLEAN), 1), Value::new(Type::from_glib(STRING), 4)]),
        Err(EmitError::ArgumentType { index: 0, expected: INT, found: BOOLEAN })
    );
    assert_eq!(calls.load(Ordering::SeqCst), 0);
    assert_eq!(closure.invoke(&[int_value(3), int_value(4)]), Ok(None));
    assert_eq!(calls.load(Ordering::SeqCst), 1);
}

#[test]
fn action_signal_without_parameters_takes_no_arguments() {
    let mut klass = overridden_class();
    let closure = klass.add_action_signal("ping", &[], Type::from_glib(BOOLEAN), |_args: &[Value]| {
        Some(Value::new(Type::from_glib(BOOLEAN), 1))
    });
    assert_eq!(closure.invoke(&[]), Ok(Some(Value::new(Type::from_glib(BOOLEAN), 1))));
    assert_eq!(
        closure.invoke(&[int_value(1)]),
        Err(EmitError::ArgumentCount { expected: 0, found: 1 })
    );
}

#[test]
fn check_arguments_names_the_first_mismatch() {
    assert_eq!(check_arguments(&[INT, STRING], &[int_value(1), Value::new(Type::from_glib(STRING), 2)]), Ok(()));
    assert_eq!(check_arguments(&[], &[]), Ok(()));
    assert_eq!(
        check_arguments(&[INT, STRING], &[Value::new(Type::from_glib(STRING), 2), int_value(1)]),
        Err(EmitError::ArgumentType { index: 0, expected: INT, found: STRING })
    );
    assert_eq!(
        check_arguments(&[INT, STRING], &[int_value(1)]),
        Err(EmitError::ArgumentCount { expected: 2, found: 1 })
    );
}
