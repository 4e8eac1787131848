use vstd::prelude::*;

verus! {

/// One row of the store: a key and up to one populated scalar field.
///
/// A float is carried as its IEEE-754 bit pattern, so that the library never
/// computes with it; callers convert with `f64::to_bits` / `f64::from_bits`.
#[derive(Clone, Debug, PartialEq, Eq)]
pub struct KeyValue {
    pub key: String,
    pub str_value: Option<String>,
    pub int_value: Option<i64>,
    pub float_value: Option<u64>,
    pub bool_value: Option<bool>,
}

/// The mathematical value of a `KeyValue`.
pub ghost struct KeyValueView {
    pub key: Seq<char>,
    pub str_value: Option<Seq<char>>,
    pub int_value: Option<i64>,
    pub float_value: Option<u64>,
    pub bool_value: Option<bool>,
}

pub open spec fn opt_str_view(o: Option<String>) -> Option<Seq<char>> {
    match o {
        Some(s) => Some(s@),
        None => None,
    }
}

impl View for KeyValue {
    type V = KeyValueView;

    open spec fn view(&self) -> KeyValueView {
        KeyValueView {
            key: self.key@,
            str_value: opt_str_view(self.str_value),
            int_value: self.int_value,
            float_value: self.float_value,
            bool_value: self.bool_value,
        }
    }
}

impl KeyValueView {
    /// A record under `key` with no field populated.
    pub open spec fn empty(key: Seq<char>) -> KeyValueView {
        KeyValueView {
            key,
            str_value: None,
            int_value: None,
            float_value: None,
            bool_value: None,
        }
    }

    pub open spec fn of_str(key: Seq<char>, v: Seq<char>) -> KeyValueView {
        KeyValueView { str_value: Some(v), ..KeyValueView::empty(key) }
    }

    pub open spec fn of_int(key: Seq<char>, v: i64) -> KeyValueView {
        KeyValueView { int_value: Some(v), ..KeyValueView::empty(key) }
    }

    pub open spec fn of_float(key: Seq<char>, v: u64) -> KeyValueView {
        KeyValueView { float_value: Some(v), ..KeyValueView::empty(key) }
    }

    pub open spec fn of_bool(key: Seq<char>, v: bool) -> KeyValueView {
        KeyValueView { bool_value: Some(v), ..KeyValueView::empty(key) }
    }
}

impl KeyValue {
    /// A record under `key` with every value field absent.
    pub fn new(key: &str) -> (r: KeyValue)
        ensures
            r@ == KeyValueView::empty(key@),
    {
        KeyValue {
            key: key.to_owned(),
            str_value: None,
            int_value: None,
            float_value: None,
            bool_value: None,
        }
    }

    /// A record under `key` holding only the string `value`.
    pub fn from_str_value(key: &str, value: String) -> (r: KeyValue)
        ensures
            r@ == KeyValueView::of_str(key@, value@),
    {
        let mut item = KeyValue::new(key);
        item.str_value = Some(value);
        item
    }

    /// A record under `key` holding only the integer `value`.
    pub fn from_int_value(key: &str, value: i64) -> (r: KeyValue)
        ensures
            r@ == KeyValueView::of_int(key@, value),
    {
        let mut item = KeyValue::new(key);
        item.int_value = Some(value);
        item
    }

    /// A record under `key` holding only the float whose bit pattern is `bits`.
    pub fn from_float_bits(key: &str, bits: u64) -> (r: KeyValue)
        ensures
            r@ == KeyValueView::of_float(key@, bits),
    {
        let mut item = KeyValue::new(key);
        item.float_value = Some(bits);
        item
    }

    /// A record under `key` holding only the boolean `value`.
    pub fn from_bool_value(key: &str, value: bool) -> (r: KeyValue)
        ensures
            r@ == KeyValueView::of_bool(key@, value),
    {
        let mut item = KeyValue::new(key);
        item.bool_value = Some(value);
        item
    }
}

} // verus!
