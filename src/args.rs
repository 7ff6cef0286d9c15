//! Tool-call arguments: the decoded JSON object handed to a tool, and typed
//! access to its fields.

use serde_json::Value;
use crate::text::views;
use vstd::prelude::*;

verus! {

/// One argument value, as far as the tools read it.
#[derive(Clone, Debug)]
pub enum ArgValue {
    Null,
    Flag(bool),
    /// A number; it holds the value when it is a non-negative integer that
    /// fits in 64 bits.
    Number(Option<u64>),
    Text(String),
    /// An array; each element is kept when it is a string.
    List(Vec<Option<String>>),
    Object,
}

/// The fields of a decoded argument object, in the decoder's order.
#[derive(Clone, Debug)]
pub struct ToolArgs {
    pub fields: Vec<(String, ArgValue)>,
}

/// The value of the first field named `key`.
pub open spec fn field_of(fields: Seq<(String, ArgValue)>, key: Seq<char>) -> Option<ArgValue>
    decreases fields.len(),
{
    if fields.len() == 0 {
        None
    } else if fields[0].0@ == key {
        Some(fields[0].1)
    } else {
        field_of(fields.drop_first(), key)
    }
}

/// The text of field `key`, when it holds a string.
pub open spec fn text_field(args: ToolArgs, key: Seq<char>) -> Option<Seq<char>> {
    match field_of(args.fields@, key) {
        Some(ArgValue::Text(s)) => Some(s@),
        _ => None,
    }
}

/// The flag of field `key`, when it holds a boolean.
pub open spec fn flag_field(args: ToolArgs, key: Seq<char>) -> Option<bool> {
    match field_of(args.fields@, key) {
        Some(ArgValue::Flag(b)) => Some(b),
        _ => None,
    }
}

/// The number of field `key`, when it holds a non-negative integer.
pub open spec fn number_field(args: ToolArgs, key: Seq<char>) -> Option<u64> {
    match field_of(args.fields@, key) {
        Some(ArgValue::Number(n)) => n,
        _ => None,
    }
}

/// The string elements of `items`, in order.
pub open spec fn strings_of(items: Seq<Option<String>>) -> Seq<Seq<char>>
    decreases items.len(),
{
    if items.len() == 0 {
        Seq::empty()
    } else {
        match items.last() {
            Some(s) => strings_of(items.drop_last()).push(s@),
            None => strings_of(items.drop_last()),
        }
    }
}

/// The string elements of field `key`, when it holds an array.
pub open spec fn list_field(args: ToolArgs, key: Seq<char>) -> Option<Seq<Seq<char>>> {
    match field_of(args.fields@, key) {
        Some(ArgValue::List(items)) => Some(strings_of(items@)),
        _ => None,
    }
}

/// The view of an optional string.
pub open spec fn opt_view(s: Option<String>) -> Option<Seq<char>> {
    match s {
        Some(s) => Some(s@),
        None => None,
    }
}

/// The argument object that `serde_json` decodes from `raw`, if any.
pub uninterp spec fn decoded_args(raw: Seq<char>) -> Option<ToolArgs>;

/// Relies on `serde_json::from_str`, which reads `raw` as one JSON object
/// (into `serde_json::Map`) and fails on anything else; the result depends on
/// `raw` alone. Each field is moved into an [`ArgValue`], a number through
/// `Number::as_u64` and an array's elements through `Value::as_str`.
#[verifier::external_body]
fn decode_arguments(raw: &str) -> (r: Option<ToolArgs>)
    ensures
        r == decoded_args(raw@),
{
    match serde_json::from_str::<serde_json::Map<String, Value>>(raw) {
        Ok(map) => Some(ToolArgs {
            fields: map.into_iter().map(|(k, v)| (k, match v {
                Value::Null => ArgValue::Null,
                Value::Bool(b) => ArgValue::Flag(b),
                Value::Number(n) => ArgValue::Number(n.as_u64()),
                Value::String(s) => ArgValue::Text(s),
                Value::Array(a) => ArgValue::List(a.iter().map(|e| e.as_str().map(String::from)).collect()),
                Value::Object(_) => ArgValue::Object,
            })).collect(),
        }),
        Err(_) => None,
    }
}

impl ToolArgs {
    /// Decodes the raw argument payload of a tool call.
    pub fn decode(raw: &str) -> (r: Option<ToolArgs>)
        ensures
            r == decoded_args(raw@),
    {
        decode_arguments(raw)
    }

    /// The position of the first field named `key`.
    pub fn find(&self, key: &str) -> (r: Option<usize>)
        ensures
            match r {
                Some(i) => i < self.fields@.len() && field_of(self.fields@, key@) == Some(
                    self.fields@[i as int].1,
                ),
                None => field_of(self.fields@, key@) is None,
            },
    {
        let mut i: usize = 0;
        assert(self.fields@.skip(0) =~= self.fields@);
        while i < self.fields.len()
            invariant
                i <= self.fields@.len(),
                field_of(self.fields@, key@) == field_of(self.fields@.skip(i as int), key@),
            decreases self.fields@.len() - i,
        {
            let ghost rest = self.fields@.skip(i as int);
            assert(rest.drop_first() =~= self.fields@.skip(i + 1));
            if str_eq_key(&self.fields[i].0, key) {
                return Some(i);
            }
            i = i + 1;
        }
        None
    }

    /// The text of field `key`, when it holds a string.
    pub fn text(&self, key: &str) -> (r: Option<String>)
        ensures
            opt_view(r) == text_field(*self, key@),
    {
        match self.find(key) {
            Some(i) => match &self.fields[i].1 {
                ArgValue::Text(s) => Some(s.clone()),
                _ => None,
            },
            None => None,
        }
    }

    /// The flag of field `key`, when it holds a boolean.
    pub fn flag(&self, key: &str) -> (r: Option<bool>)
        ensures
            r == flag_field(*self, key@),
    {
        match self.find(key) {
            Some(i) => match &self.fields[i].1 {
                ArgValue::Flag(b) => Some(*b),
                _ => None,
            },
            None => None,
        }
    }

    /// The number of field `key`, when it holds a non-negative integer.
    pub fn number(&self, key: &str) -> (r: Option<u64>)
        ensures
            r == number_field(*self, key@),
    {
        match self.find(key) {
            Some(i) => match &self.fields[i].1 {
                ArgValue::Number(n) => *n,
                _ => None,
            },
            None => None,
        }
    }

    /// The string elements of field `key`, when it holds an array.
    pub fn texts(&self, key: &str) -> (r: Option<Vec<String>>)
        ensures
            match r {
                Some(v) => list_field(*self, key@) == Some(views(v@)),
                None => list_field(*self, key@) is None,
            },
    {
        match self.find(key) {
            Some(i) => match &self.fields[i].1 {
                ArgValue::List(items) => Some(strings_in(items)),
                _ => None,
            },
            None => None,
        }
    }
}

fn str_eq_key(a: &String, b: &str) -> (r: bool)
    ensures
        r == (a@ == b@),
{
    crate::text::str_eq(a.as_str(), b)
}

fn strings_in(items: &Vec<Option<String>>) -> (r: Vec<String>)
    ensures
        views(r@) == strings_of(items@),
{
    let mut r: Vec<String> = Vec::new();
    let mut i: usize = 0;
    while i < items.len()
        invariant
            i <= items@.len(),
            views(r@) == strings_of(items@.subrange(0, i as int)),
        decreases items@.len() - i,
    {
        let ghost next = items@.subrange(0, i + 1);
        assert(next.drop_last() =~= items@.subrange(0, i as int));
        match &items[i] {
            Some(s) => {
                r.push(s.clone());
            },
            None => {},
        }
        assert(views(r@) =~= strings_of(next));
        i = i + 1;
    }
    assert(items@.subrange(0, items@.len() as int) =~= items@);
    r
}

} // verus!
