//! The model of interpreter-native values that the bridge produces and
//! consumes: the image of configuration trees and script return values,
//! held as plain host values.
use vstd::prelude::*;

verus! {

/// A script-side integer. The interpreter has a single arbitrary-precision
/// integer type; the bridge only ever hands it signed 64-bit values, or
/// unsigned 64-bit values too large for the signed form.
#[derive(Clone, Copy, PartialEq, Eq, Structural)]
pub enum ScriptInt {
    Signed(i64),
    Unsigned(u64),
}

/// A script-side value: what the marshaller builds for the interpreter, and
/// what the interpreter hands back. Floating-point values are carried as
/// their raw 64-bit pattern.
pub enum ScriptValue {
    PyNone,
    PyBool(bool),
    PyInt(ScriptInt),
    PyFloatBits(u64),
    PyString(String),
    PyBytes(Vec<u8>),
    PyList(Vec<ScriptValue>),
    PyDict(Vec<(String, ScriptValue)>),
}

/// The mathematical shape of a script-side value.
#[verifier::ext_equal]
pub enum ScriptData {
    PyNone,
    PyBool(bool),
    PyInt(ScriptInt),
    PyFloatBits(u64),
    PyString(Seq<char>),
    PyBytes(Seq<u8>),
    PyList(Seq<ScriptData>),
    PyDict(Seq<(Seq<char>, ScriptData)>),
}

/// The view of a script-side value.
pub open spec fn script_view(v: ScriptValue) -> ScriptData
    decreases v,
    via script_view_decreases
{
    match v {
        ScriptValue::PyNone => ScriptData::PyNone,
        ScriptValue::PyBool(b) => ScriptData::PyBool(b),
        ScriptValue::PyInt(i) => ScriptData::PyInt(i),
        ScriptValue::PyFloatBits(b) => ScriptData::PyFloatBits(b),
        ScriptValue::PyString(s) => ScriptData::PyString(s@),
        ScriptValue::PyBytes(b) => ScriptData::PyBytes(b@),
        ScriptValue::PyList(items) => ScriptData::PyList(
            Seq::new(
                items@.len(),
                |i: int|
                    if 0 <= i < items@.len() {
                        script_view(items@[i])
                    } else {
                        ScriptData::PyNone
                    },
            ),
        ),
        ScriptValue::PyDict(entries) => ScriptData::PyDict(
            Seq::new(
                entries@.len(),
                |i: int|
                    (
                        entries@[i].0@,
                        if 0 <= i < entries@.len() {
                            script_view(entries@[i].1)
                        } else {
                            ScriptData::PyNone
                        },
                    ),
            ),
        ),
    }
}

#[via_fn]
proof fn script_view_decreases(v: ScriptValue) {
    match v {
        ScriptValue::PyList(items) => {
            assert forall|i: int| 0 <= i < items@.len() implies decreases_to!(
                v => items@[i],
            ) by {
                assert(decreases_to!(v => items));
                assert(decreases_to!(items => items@));
                assert(decreases_to!(items@ => items@[i]));
            }
        },
        ScriptValue::PyDict(entries) => {
            assert forall|i: int| 0 <= i < entries@.len() implies decreases_to!(
                v => entries@[i].1,
            ) by {
                assert(decreases_to!(v => entries));
                assert(decreases_to!(entries => entries@));
                assert(decreases_to!(entries@ => entries@[i]));
                assert(decreases_to!(entries@[i] => entries@[i].1));
            }
        },
        _ => {},
    }
}

impl View for ScriptValue {
    type V = ScriptData;

    open spec fn view(&self) -> ScriptData {
        script_view(*self)
    }
}

/// The interpreter's name for a value's type, used when a conversion error
/// must name what it received.
pub open spec fn spec_py_type_name(v: ScriptData) -> Seq<char> {
    match v {
        ScriptData::PyNone => "NoneType"@,
        ScriptData::PyBool(_) => "bool"@,
        ScriptData::PyInt(_) => "int"@,
        ScriptData::PyFloatBits(_) => "float"@,
        ScriptData::PyString(_) => "str"@,
        ScriptData::PyBytes(_) => "bytes"@,
        ScriptData::PyList(_) => "list"@,
        ScriptData::PyDict(_) => "dict"@,
    }
}

impl ScriptValue {
    /// The interpreter's name for this value's type.
    pub fn py_type_name(&self) -> (r: String)
        ensures
            r@ == spec_py_type_name(self@),
    {
        match self {
            ScriptValue::PyNone => String::from_str("NoneType"),
            ScriptValue::PyBool(_) => String::from_str("bool"),
            ScriptValue::PyInt(_) => String::from_str("int"),
            ScriptValue::PyFloatBits(_) => String::from_str("float"),
            ScriptValue::PyString(_) => String::from_str("str"),
            ScriptValue::PyBytes(_) => String::from_str("bytes"),
            ScriptValue::PyList(_) => String::from_str("list"),
            ScriptValue::PyDict(_) => String::from_str("dict"),
        }
    }
}

} // verus!
