//! Tool contracts: each tool's name, description and parameter schema, the
//! well-formedness of a catalog of them, and argument validation.

use crate::args::{field_of, ArgValue, ToolArgs};
use crate::text::str_eq;
use vstd::prelude::*;

verus! {

/// The JSON type of a parameter.
#[derive(Clone, Copy, Debug, PartialEq, Eq, Structural)]
pub enum ParamType {
    Text,
    Integer,
    Boolean,
    Array,
}

/// One named parameter of a tool.
#[derive(Clone, Debug)]
pub struct PropertySchema {
    pub name: String,
    pub schema_type: ParamType,
    pub description: String,
    /// The default value, for a string parameter that has one.
    pub default: Option<String>,
    /// The element type, for an array parameter.
    pub items: Option<ParamType>,
    /// The allowed values, for a string parameter limited to a few.
    pub enum_values: Option<Vec<String>>,
}

/// The parameters of a tool: an object with named properties, some required.
#[derive(Clone, Debug)]
pub struct ToolInputSchema {
    pub properties: Vec<PropertySchema>,
    pub required: Vec<String>,
}

/// What a tool publishes to the model: its name, what it does and how to
/// call it.
#[derive(Clone, Debug)]
pub struct ToolDefinition {
    pub name: String,
    pub description: String,
    pub input_schema: ToolInputSchema,
}

/// `schema` declares a property named `name`.
pub open spec fn declares(schema: ToolInputSchema, name: Seq<char>) -> bool {
    exists|i: int| 0 <= i < schema.properties@.len() && schema.properties@[i].name@ == name
}

/// Property names are distinct, and each required name is a declared
/// property.
pub open spec fn schema_wf(schema: ToolInputSchema) -> bool {
    &&& forall|i: int, j: int|
        0 <= i < j < schema.properties@.len() ==> schema.properties@[i].name@
            != schema.properties@[j].name@
    &&& forall|k: int|
        0 <= k < schema.required@.len() ==> declares(schema, #[trigger] schema.required@[k]@)
}

/// Tool names are distinct, and each tool's schema is well formed.
pub open spec fn catalog_wf(tools: Seq<ToolDefinition>) -> bool {
    &&& forall|i: int, j: int| 0 <= i < j < tools.len() ==> tools[i].name@ != tools[j].name@
    &&& forall|i: int| 0 <= i < tools.len() ==> schema_wf(#[trigger] tools[i].input_schema)
}

/// `v` has the JSON type `t`.
pub open spec fn has_type(t: ParamType, v: ArgValue) -> bool {
    match t {
        ParamType::Text => v is Text,
        ParamType::Integer => v is Number,
        ParamType::Boolean => v is Flag,
        ParamType::Array => v is List,
    }
}

/// `v` is among the values that `p` allows, if it limits them.
pub open spec fn is_allowed(p: PropertySchema, v: ArgValue) -> bool {
    match (p.enum_values, v) {
        (Some(vals), ArgValue::Text(s)) => exists|k: int| 0 <= k < vals@.len() && vals@[k]@ == s@,
        _ => true,
    }
}

/// The value given for `p`, if any, has its type and an allowed value.
pub open spec fn property_ok(p: PropertySchema, args: ToolArgs) -> bool {
    match field_of(args.fields@, p.name@) {
        None => true,
        Some(v) => has_type(p.schema_type, v) && is_allowed(p, v),
    }
}

/// `args` gives every required field, and every declared property given has
/// its type and an allowed value. Fields that the schema does not declare
/// are ignored.
pub open spec fn args_valid(schema: ToolInputSchema, args: ToolArgs) -> bool {
    &&& forall|k: int|
        0 <= k < schema.required@.len() ==> field_of(args.fields@, #[trigger] schema.required@[k]@)
            is Some
    &&& forall|i: int|
        0 <= i < schema.properties@.len() ==> property_ok(#[trigger] schema.properties@[i], args)
}

/// Why arguments do not fit a schema.
#[derive(Clone, Debug)]
pub enum ArgError {
    /// The payload is not a JSON object.
    NotAnObject,
    /// A required field is absent.
    Missing(String),
    /// A field has another type than its property declares.
    WrongType(String, ParamType),
    /// A field holds a string that its property does not allow.
    NotAllowed(String, String),
}

/// `e` names a real violation of `schema` by `args`.
pub open spec fn describes(schema: ToolInputSchema, args: ToolArgs, e: ArgError) -> bool {
    match e {
        ArgError::NotAnObject => false,
        ArgError::Missing(n) => exists|k: int|
            0 <= k < schema.required@.len() && schema.required@[k]@ == n@ && field_of(
                args.fields@,
                n@,
            ) is None,
        ArgError::WrongType(n, t) => exists|i: int|
            0 <= i < schema.properties@.len() && schema.properties@[i].name@ == n@
                && schema.properties@[i].schema_type == t && match field_of(args.fields@, n@) {
                Some(v) => !has_type(t, v),
                None => false,
            },
        ArgError::NotAllowed(n, s) => exists|i: int|
            0 <= i < schema.properties@.len() && schema.properties@[i].name@ == n@
                && field_of(args.fields@, n@) == Some(ArgValue::Text(s)) && !is_allowed(
                schema.properties@[i],
                ArgValue::Text(s),
            ),
    }
}

fn value_has_type(t: ParamType, v: &ArgValue) -> (r: bool)
    ensures
        r == has_type(t, *v),
{
    match t {
        ParamType::Text => matches!(v, ArgValue::Text(_)),
        ParamType::Integer => matches!(v, ArgValue::Number(_)),
        ParamType::Boolean => matches!(v, ArgValue::Flag(_)),
        ParamType::Array => matches!(v, ArgValue::List(_)),
    }
}

/// Whether `s` is one of `vals`.
pub fn among(vals: &Vec<String>, s: &str) -> (r: bool)
    ensures
        r == exists|k: int| 0 <= k < vals@.len() && vals@[k]@ == s@,
{
    let mut k: usize = 0;
    while k < vals.len()
        invariant
            k <= vals@.len(),
            forall|j: int| 0 <= j < k ==> vals@[j]@ != s@,
        decreases vals@.len() - k,
    {
        if str_eq(vals[k].as_str(), s) {
            return true;
        }
        k = k + 1;
    }
    false
}

/// Checks `args` against `schema`: first the required fields, in order,
/// then the declared properties, in order.
pub fn validate(schema: &ToolInputSchema, args: &ToolArgs) -> (r: Result<(), ArgError>)
    ensures
        r is Ok <==> args_valid(*schema, *args),
        r matches Err(e) ==> describes(*schema, *args, e),
{
    let mut k: usize = 0;
    while k < schema.required.len()
        invariant
            k <= schema.required@.len(),
            forall|j: int| 0 <= j < k ==> field_of(args.fields@, #[trigger] schema.required@[j]@) is Some,
        decreases schema.required@.len() - k,
    {
        if args.find(schema.required[k].as_str()).is_none() {
            return Err(ArgError::Missing(schema.required[k].clone()));
        }
        k = k + 1;
    }
    let mut i: usize = 0;
    while i < schema.properties.len()
        invariant
            i <= schema.properties@.len(),
            forall|j: int| 0 <= j < schema.required@.len() ==> field_of(args.fields@, #[trigger] schema.required@[j]@) is Some,
            forall|j: int| 0 <= j < i ==> property_ok(#[trigger] schema.properties@[j], *args),
        decreases schema.properties@.len() - i,
    {
        let p = &schema.properties[i];
        match args.find(p.name.as_str()) {
            Some(f) => {
                let v = &args.fields[f].1;
                if !value_has_type(p.schema_type, v) {
                    return Err(ArgError::WrongType(p.name.clone(), p.schema_type));
                }
                match (&p.enum_values, v) {
                    (Some(vals), ArgValue::Text(s)) => {
                        if !among(vals, s.as_str()) {
                            return Err(ArgError::NotAllowed(p.name.clone(), s.clone()));
                        }
                    },
                    _ => {},
                }
            },
            None => {},
        }
        i = i + 1;
    }
    Ok(())
}

} // verus!
