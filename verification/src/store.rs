//! An implementing object that keeps the values of its properties and does
//! nothing else.
use vstd::prelude::*;
use crate::class::Property;
use crate::instance::Object;
use crate::object::ObjectImpl;
use crate::types::TypeData;
use crate::value::Value;

verus! {

/// An implementing object whose whole state is one stored value for each of
/// its properties.
#[derive(Debug)]
pub struct PropertyStore {
    type_data: TypeData,
    values: Vec<Value>,
}

impl View for PropertyStore {
    type V = Seq<Value>;

    /// The stored values, by property index.
    closed spec fn view(&self) -> Seq<Value> {
        self.values@
    }
}

/// What the properties hold before anything was set: for each an empty
/// payload of the property's type.
pub open spec fn initial_values(properties: Seq<Property>) -> Seq<Value> {
    properties.map_values(|p: Property| Value { type_: p.value_type, data: 0 })
}

impl PropertyStore {
    /// A store for `properties`, in their order.
    pub fn new(type_data: TypeData, properties: &[Property]) -> (store: PropertyStore)
        ensures
            store.type_data() == type_data,
            store@ == initial_values(properties@),
    {
        let mut values: Vec<Value> = Vec::with_capacity(properties.len());
        let mut i: usize = 0;
        while i < properties.len()
            invariant
                i <= properties.len(),
                values@ == initial_values(properties@.take(i as int)),
            decreases properties.len() - i,
        {
            values.push(Value::new(properties[i].value_type, 0));
            assert(properties@.take(i + 1) =~= properties@.take(i as int).push(properties@[i as int]));
            assert(values@ =~= initial_values(properties@.take(i + 1)));
            i = i + 1;
        }
        assert(properties@.take(i as int) =~= properties@);
        PropertyStore { type_data, values }
    }

    /// How many properties the store has.
    pub fn len(&self) -> (n: usize)
        ensures
            n == self@.len(),
    {
        self.values.len()
    }
}

impl ObjectImpl for PropertyStore {
    closed spec fn type_data(&self) -> TypeData {
        self.type_data
    }

    /// A property that the store has reads as the stored value; any other
    /// index fails.
    open spec fn property_read(&self, obj: &Object, id: u32, result: Option<Value>) -> bool {
        result == if id < self@.len() {
            Some(self@[id as int])
        } else {
            None
        }
    }

    /// A property that the store has takes the new value; any other index is
    /// ignored.
    open spec fn property_written(&self, obj: &Object, id: u32, value: &Value, after: Self) -> bool {
        after@ == if id < self@.len() {
            self@.update(id as int, *value)
        } else {
            self@
        }
    }

    fn get_type_data(&self) -> (data: TypeData) {
        self.type_data
    }

    fn set_property(&mut self, obj: &Object, id: u32, value: &Value) {
        let index = id as usize;
        if index < self.values.len() {
            self.values.set(index, Value::new(value.type_(), value.data));
        }
    }

    fn get_property(&self, obj: &Object, id: u32) -> (result: Result<Value, ()>) {
        let index = id as usize;
        if index < self.values.len() {
            let stored = &self.values[index];
            Ok(Value::new(stored.type_(), stored.data))
        } else {
            Err(())
        }
    }
}

/// Reading a property that the store has never fails, and setting the
/// property to the value that was read leaves the store as it was.
pub proof fn lemma_get_then_set_changes_nothing(
    store: PropertyStore,
    obj: Object,
    id: u32,
    read: Value,
    after: PropertyStore,
)
    requires
        id < store@.len(),
        store.property_read(&obj, id, Some(read)),
        store.property_written(&obj, id, &read, after),
    ensures
        !store.property_read(&obj, id, None),
        after@ == store@,
{
    assert(store@.update(id as int, store@[id as int]) =~= store@);
}

} // verus!
