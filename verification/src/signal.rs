//! What the bridge puts between the object system's signal machinery and the
//! closures that a class registers with its signals.
use vstd::prelude::*;
use crate::types::Type;
use crate::value::Value;

verus! {

/// The class handler runs after the handlers that outside code connected.
pub const SIGNAL_RUN_LAST: u32 = 2;

/// Outside code may emit the signal, as a way to call the class handler.
pub const SIGNAL_ACTION: u32 = 32;

/// "Stop here" as the object system's boolean says it.
pub const GFALSE: i32 = 0;

/// "Go on" as the object system's boolean says it.
pub const GTRUE: i32 = 1;

/// The identifiers of `types`, in order, as the object system takes them.
pub open spec fn type_ids(types: Seq<Type>) -> Seq<usize> {
    types.map_values(|t: Type| t.id)
}

/// Turns a list of types into the list of identifiers that goes into a
/// registration call.
pub fn types_to_glib(types: &[Type]) -> (ids: Vec<usize>)
    ensures
        ids@ == type_ids(types@),
{
    let mut ids: Vec<usize> = Vec::with_capacity(types.len());
    let mut i: usize = 0;
    while i < types.len()
        invariant
            i <= types.len(),
            ids@ == type_ids(types@.take(i as int)),
        decreases types.len() - i,
    {
        ids.push(types[i].to_glib());
        assert(types@.take(i + 1) =~= types@.take(i as int).push(types@[i as int]));
        assert(ids@ =~= type_ids(types@.take(i + 1)));
        i = i + 1;
    }
    assert(types@.take(i as int) =~= types@);
    ids
}

/// The context that is registered together with an accumulating signal: the
/// predicate, kept at one place for as long as the class exists.
pub struct Accumulator<F: Fn(&mut Value, &Value) -> bool + Send + Sync + 'static> {
    predicate: F,
}

impl<F: Fn(&mut Value, &Value) -> bool + Send + Sync + 'static> Accumulator<F> {
    /// The predicate that was registered.
    pub closed spec fn predicate(self) -> F {
        self.predicate
    }

    #[verifier::type_invariant]
    spec fn callable(self) -> bool {
        forall|accu: &mut Value, handler_return: &Value|
            call_requires(self.predicate, (accu, handler_return))
    }

    /// Wraps a predicate that can be run on any two values.
    pub fn new(predicate: F) -> (accumulator: Accumulator<F>)
        requires
            forall|accu: &mut Value, handler_return: &Value|
                call_requires(predicate, (accu, handler_return)),
        ensures
            accumulator.predicate() == predicate,
    {
        Accumulator { predicate }
    }
}

/// The function the object system calls after each handler of an
/// accumulating signal: it runs the registered predicate on the accumulated
/// value and the handler's return value, and tells the object system whether
/// to call further handlers.
///
/// The answer is `GTRUE` exactly when the predicate answered `true`, and
/// `GFALSE` exactly when it answered `false`; the accumulated value is left
/// as the predicate left it.
pub fn accumulator_trampoline<F: Fn(&mut Value, &Value) -> bool + Send + Sync + 'static>(
    return_accu: &mut Value,
    handler_return: &Value,
    data: &Accumulator<F>,
) -> (go_on: i32)
    ensures
        exists|accu: &mut Value, answer: bool|
            mut_ref_current(accu) == *old(return_accu)
                && mut_ref_future(accu) == *final(return_accu)
                && #[trigger] call_ensures(data.predicate(), (accu, handler_return), answer)
                && go_on == if answer { GTRUE } else { GFALSE },
{
    proof {
        use_type_invariant(data);
    }
    let answer = (data.predicate)(return_accu, handler_return);
    assert(data.predicate() == data.predicate);
    if answer {
        GTRUE
    } else {
        GFALSE
    }
}

/// Why an emission was turned away before any handler ran.
#[derive(Clone, Copy, Debug, PartialEq, Eq, Structural)]
pub enum EmitError {
    /// The emission does not have as many arguments as the signal takes.
    ArgumentCount { expected: usize, found: usize },
    /// The argument at `index` is not of the type the signal takes there.
    ArgumentType { index: usize, expected: usize, found: usize },
}

/// Whether `args` are what a signal with parameters `param_types` takes.
pub open spec fn signature_accepts(param_types: Seq<usize>, args: Seq<Value>) -> bool {
    &&& args.len() == param_types.len()
    &&& forall|i: int| 0 <= i < args.len() ==> (#[trigger] args[i]).type_.id == param_types[i]
}

/// Whether `error` names the first thing that is wrong with `args`.
pub open spec fn signature_rejects(
    param_types: Seq<usize>,
    args: Seq<Value>,
    error: EmitError,
) -> bool {
    match error {
        EmitError::ArgumentCount { expected, found } => {
            &&& args.len() != param_types.len()
            &&& expected == param_types.len()
            &&& found == args.len()
        },
        EmitError::ArgumentType { index, expected, found } => {
            &&& args.len() == param_types.len()
            &&& index < args.len()
            &&& signature_accepts(param_types.take(index as int), args.take(index as int))
            &&& expected == param_types[index as int]
            &&& found == args[index as int].type_.id
            &&& expected != found
        },
    }
}

/// Holds `args` against the parameters of a signal.
pub fn check_arguments(param_types: &[usize], args: &[Value]) -> (r: Result<(), EmitError>)
    ensures
        r is Ok <==> signature_accepts(param_types@, args@),
        r matches Err(error) ==> signature_rejects(param_types@, args@, error),
{
    if args.len() != param_types.len() {
        return Err(EmitError::ArgumentCount { expected: param_types.len(), found: args.len() });
    }
    let mut i: usize = 0;
    while i < args.len()
        invariant
            i <= args.len(),
            args.len() == param_types.len(),
            signature_accepts(param_types@.take(i as int), args@.take(i as int)),
        decreases args.len() - i,
    {
        let found = args[i].type_().to_glib();
        if found != param_types[i] {
            return Err(EmitError::ArgumentType { index: i, expected: param_types[i], found });
        }
        assert(signature_accepts(param_types@.take(i + 1), args@.take(i + 1))) by {
            assert forall|j: int| 0 <= j < i + 1 implies (#[trigger] args@.take(i + 1)[j]).type_.id
                == param_types@.take(i + 1)[j] by {
                if j < i {
                    assert(args@.take(i as int)[j] == args@[j]);
                }
            }
        }
        i = i + 1;
    }
    assert(param_types@.take(i as int) =~= param_types@);
    assert(args@.take(i as int) =~= args@);
    Ok(())
}

/// A handler together with the parameter types it was registered for, in
/// the form in which the object system can call it as a class handler.
pub struct Closure<F: Fn(&[Value]) -> Option<Value> + Send + Sync + 'static> {
    callback: F,
    param_types: Vec<usize>,
}

impl<F: Fn(&[Value]) -> Option<Value> + Send + Sync + 'static> Closure<F> {
    /// The handler that was wrapped.
    pub closed spec fn callback(self) -> F {
        self.callback
    }

    /// The parameter types the handler was registered for.
    pub closed spec fn param_types(self) -> Seq<usize> {
        self.param_types@
    }

    #[verifier::type_invariant]
    spec fn callable(self) -> bool {
        forall|args: &[Value]|
            signature_accepts(self.param_types@, args@) ==> call_requires(self.callback, (args,))
    }

    /// Wraps a handler that can be run on all arguments of the given types.
    pub fn new(callback: F, param_types: Vec<usize>) -> (closure: Closure<F>)
        requires
            forall|args: &[Value]|
                signature_accepts(param_types@, args@) ==> call_requires(callback, (args,)),
        ensures
            closure.callback() == callback,
            closure.param_types() == param_types@,
    {
        Closure { callback, param_types }
    }

    /// Calls the handler on behalf of an emission.
    ///
    /// Arguments that are not what the signal was registered with are the
    /// emitter's mistake: they are turned away here and never reach the
    /// handler.
    pub fn invoke(&self, args: &[Value]) -> (r: Result<Option<Value>, EmitError>)
        ensures
            r is Ok <==> signature_accepts(self.param_types(), args@),
            r matches Ok(returned) ==> call_ensures(self.callback(), (args,), returned),
            r matches Err(error) ==> signature_rejects(self.param_types(), args@, error),
    {
        proof {
            use_type_invariant(self);
        }
        match check_arguments(self.param_types.as_slice(), args) {
            Ok(()) => Ok((self.callback)(args)),
            Err(error) => Err(error),
        }
    }
}

} // verus!
