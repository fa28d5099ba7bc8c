use vstd::prelude::*;

verus! {

/// The name of an attribute.
#[derive(Clone, Debug)]
pub struct Key(String);

impl View for Key {
    type V = Seq<char>;

    closed spec fn view(&self) -> Seq<char> {
        self.0@
    }
}

/// The value of an attribute.
#[derive(Clone, Debug)]
pub enum Value {
    Bool(bool),
    I64(i64),
    U64(u64),
    String(String),
    Bytes(Vec<u8>),
}

/// A named attribute value.
#[derive(Clone, Debug)]
pub struct KeyValue {
    pub key: Key,
    pub value: Value,
}

impl Key {
    pub fn new(value: &str) -> (r: Key)
        ensures
            r@ == value@,
    {
        Key(String::from_str(value))
    }

    pub fn as_str(&self) -> (r: &str)
        ensures
            r@ == self@,
    {
        self.0.as_str()
    }

    fn copy_key(&self) -> (r: Key)
        ensures
            r@ == self@,
    {
        Key(self.0.clone())
    }

    pub fn bool(&self, value: bool) -> (r: KeyValue)
        ensures
            r.key@ == self@,
            r.value == Value::Bool(value),
    {
        KeyValue { key: self.copy_key(), value: Value::Bool(value) }
    }

    pub fn i64(&self, value: i64) -> (r: KeyValue)
        ensures
            r.key@ == self@,
            r.value == Value::I64(value),
    {
        KeyValue { key: self.copy_key(), value: Value::I64(value) }
    }

    pub fn u64(&self, value: u64) -> (r: KeyValue)
        ensures
            r.key@ == self@,
            r.value == Value::U64(value),
    {
        KeyValue { key: self.copy_key(), value: Value::U64(value) }
    }

    pub fn string(&self, value: &str) -> (r: KeyValue)
        ensures
            r.key@ == self@,
            r.value matches Value::String(s) && s@ == value@,
    {
        KeyValue { key: self.copy_key(), value: Value::String(String::from_str(value)) }
    }

    pub fn bytes(&self, value: Vec<u8>) -> (r: KeyValue)
        ensures
            r.key@ == self@,
            r.value == Value::Bytes(value),
    {
        KeyValue { key: self.copy_key(), value: Value::Bytes(value) }
    }
}

} // verus!
