//! The value marshaller: configuration trees become script values, with the
//! numeric subtype preserved, and the conversion is lossless.
use vstd::prelude::*;

use crate::config::{cfg_view, ConfigData, ConfigValue, Number};
use crate::script::{script_view, ScriptData, ScriptInt, ScriptValue};

verus! {

/// The numeric conversion policy: a number representable as a signed 64-bit
/// integer crosses as a signed integer; else, one representable as an
/// unsigned 64-bit integer crosses as an unsigned integer; else it crosses
/// as a 64-bit floating-point value. The order must not change, or precision
/// would be lost silently.
pub open spec fn number_to_script(n: Number) -> ScriptData {
    if n.spec_is_i64() {
        ScriptData::PyInt(ScriptInt::Signed(n.spec_as_i64()))
    } else if n.spec_is_u64() {
        ScriptData::PyInt(ScriptInt::Unsigned(n.spec_as_u64()))
    } else {
        ScriptData::PyFloatBits(n.spec_float_bits())
    }
}

/// What a configuration tree becomes on the script side: structure is kept,
/// numbers follow `number_to_script`.
pub open spec fn to_script(c: ConfigData) -> ScriptData
    decreases c,
    via to_script_decreases
{
    match c {
        ConfigData::Null => ScriptData::PyNone,
        ConfigData::Bool(b) => ScriptData::PyBool(b),
        ConfigData::Num(n) => number_to_script(n),
        ConfigData::Str(s) => ScriptData::PyString(s),
        ConfigData::Arr(items) => ScriptData::PyList(
            Seq::new(
                items.len(),
                |i: int|
                    if 0 <= i < items.len() {
                        to_script(items[i])
                    } else {
                        ScriptData::PyNone
                    },
            ),
        ),
        ConfigData::Obj(entries) => ScriptData::PyDict(
            Seq::new(
                entries.len(),
                |i: int|
                    (
                        entries[i].0,
                        if 0 <= i < entries.len() {
                            to_script(entries[i].1)
                        } else {
                            ScriptData::PyNone
                        },
                    ),
            ),
        ),
    }
}

#[via_fn]
proof fn to_script_decreases(c: ConfigData) {
    match c {
        ConfigData::Arr(items) => {
            assert forall|i: int| 0 <= i < items.len() implies decreases_to!(c => items[i]) by {
                assert(decreases_to!(c => items));
                assert(decreases_to!(items => items[i]));
            }
        },
        ConfigData::Obj(entries) => {
            assert forall|i: int| 0 <= i < entries.len() implies decreases_to!(
                c => entries[i].1,
            ) by {
                assert(decreases_to!(c => entries));
                assert(decreases_to!(entries => entries[i]));
                assert(decreases_to!(entries[i] => entries[i].1));
            }
        },
        _ => {},
    }
}

/// Whether a script value lies in the image of `to_script`: everything but
/// byte strings, with well-formed components.
pub open spec fn from_script_ok(v: ScriptData) -> bool
    decreases v,
    via from_script_ok_decreases
{
    match v {
        ScriptData::PyBytes(_) => false,
        ScriptData::PyList(items) => forall|i: int|
            0 <= i < items.len() ==> from_script_ok(#[trigger] items[i]),
        ScriptData::PyDict(entries) => forall|i: int|
            0 <= i < entries.len() ==> from_script_ok((#[trigger] entries[i]).1),
        _ => true,
    }
}

#[via_fn]
proof fn from_script_ok_decreases(v: ScriptData) {
    match v {
        ScriptData::PyList(items) => {
            assert forall|i: int| 0 <= i < items.len() implies decreases_to!(v => items[i]) by {
                assert(decreases_to!(v => items));
                assert(decreases_to!(items => items[i]));
            }
        },
        ScriptData::PyDict(entries) => {
            assert forall|i: int| 0 <= i < entries.len() implies decreases_to!(
                v => entries[i].1,
            ) by {
                assert(decreases_to!(v => entries));
                assert(decreases_to!(entries => entries[i]));
                assert(decreases_to!(entries[i] => entries[i].1));
            }
        },
        _ => {},
    }
}

/// The configuration tree a script value stands for, meaningful on values
/// where `from_script_ok` holds. Integers below zero come back in the
/// negative form, others in the non-negative form, so a canonical tree
/// returns exactly as it left.
pub open spec fn from_script(v: ScriptData) -> ConfigData
    decreases v,
    via from_script_decreases
{
    match v {
        ScriptData::PyNone => ConfigData::Null,
        ScriptData::PyBool(b) => ConfigData::Bool(b),
        ScriptData::PyInt(ScriptInt::Signed(i)) => ConfigData::Num(
            if i < 0 {
                Number::NegInt(i)
            } else {
                Number::PosInt(i as u64)
            },
        ),
        ScriptData::PyInt(ScriptInt::Unsigned(u)) => ConfigData::Num(Number::PosInt(u)),
        ScriptData::PyFloatBits(b) => ConfigData::Num(Number::FloatBits(b)),
        ScriptData::PyString(s) => ConfigData::Str(s),
        ScriptData::PyBytes(_) => ConfigData::Null,
        ScriptData::PyList(items) => ConfigData::Arr(
            Seq::new(
                items.len(),
                |i: int|
                    if 0 <= i < items.len() {
                        from_script(items[i])
                    } else {
                        ConfigData::Null
                    },
            ),
        ),
        ScriptData::PyDict(entries) => ConfigData::Obj(
            Seq::new(
                entries.len(),
                |i: int|
                    (
                        entries[i].0,
                        if 0 <= i < entries.len() {
                            from_script(entries[i].1)
                        } else {
                            ConfigData::Null
                        },
                    ),
            ),
        ),
    }
}

#[via_fn]
proof fn from_script_decreases(v: ScriptData) {
    match v {
        ScriptData::PyList(items) => {
            assert forall|i: int| 0 <= i < items.len() implies decreases_to!(v => items[i]) by {
                assert(decreases_to!(v => items));
                assert(decreases_to!(items => items[i]));
            }
        },
        ScriptData::PyDict(entries) => {
            assert forall|i: int| 0 <= i < entries.len() implies decreases_to!(
                v => entries[i].1,
            ) by {
                assert(decreases_to!(v => entries));
                assert(decreases_to!(entries => entries[i]));
                assert(decreases_to!(entries[i] => entries[i].1));
            }
        },
        _ => {},
    }
}

/// The marshalling round trip is lossless: a well-formed configuration tree
/// sent to the script side reads back as exactly the tree it was, structure
/// and numeric subtype included.
pub proof fn lemma_round_trip(c: ConfigData)
    requires
        c.wf(),
    ensures
        from_script_ok(to_script(c)),
        from_script(to_script(c)) == c,
    decreases c,
{
    match c {
        ConfigData::Num(n) => {
            match n {
                Number::PosInt(u) => {
                    if u <= i64::MAX as u64 {
                        assert(u as i64 >= 0);
                        assert((u as i64) as u64 == u);
                    }
                },
                Number::NegInt(_) => {},
                Number::FloatBits(_) => {},
            }
        },
        ConfigData::Arr(items) => {
            let m = to_script(c)->PyList_0;
            assert forall|i: int| 0 <= i < m.len() implies from_script_ok(#[trigger] m[i])
                && from_script(m[i]) == items[i] by {
                assert(items[i].wf());
                assert(decreases_to!(c => items));
                assert(decreases_to!(items => items[i]));
                lemma_round_trip(items[i]);
                assert(m[i] == to_script(items[i]));
            }
            let back = from_script(to_script(c))->Arr_0;
            assert(back =~= items);
        },
        ConfigData::Obj(entries) => {
            let m = to_script(c)->PyDict_0;
            assert forall|i: int| 0 <= i < m.len() implies from_script_ok((#[trigger] m[i]).1)
                && from_script(m[i].1) == entries[i].1 && m[i].0 == entries[i].0 by {
                assert(entries[i].1.wf());
                assert(decreases_to!(c => entries));
                assert(decreases_to!(entries => entries[i]));
                assert(decreases_to!(entries[i] => entries[i].1));
                lemma_round_trip(entries[i].1);
                assert(m[i] == (entries[i].0, to_script(entries[i].1)));
            }
            let back = from_script(to_script(c))->Obj_0;
            assert forall|i: int| 0 <= i < back.len() implies #[trigger] back[i] == entries[i] by {
                assert(back[i] == (m[i].0, from_script(m[i].1)));
            }
            assert(back =~= entries);
        },
        _ => {},
    }
}

impl ConfigValue {
    /// Converts a configuration tree into the script value the interpreter
    /// receives, following the numeric policy of `number_to_script`. The
    /// host's number storage makes every number representable, so the
    /// conversion is total.
    pub fn configuration_into_py(&self) -> (r: ScriptValue)
        ensures
            r@ == to_script(self@),
        decreases self,
    {
        match self {
            ConfigValue::Null => ScriptValue::PyNone,
            ConfigValue::Bool(b) => ScriptValue::PyBool(*b),
            ConfigValue::Number(n) => {
                if n.is_i64() {
                    ScriptValue::PyInt(ScriptInt::Signed(n.as_i64()))
                } else if n.is_u64() {
                    ScriptValue::PyInt(ScriptInt::Unsigned(n.as_u64()))
                } else {
                    ScriptValue::PyFloatBits(n.float_bits())
                }
            },
            ConfigValue::Text(s) => ScriptValue::PyString(s.clone()),
            ConfigValue::Array(items) => {
                let ghost cs = self@->Arr_0;
                proof {
                    assert(cs.len() == items@.len());
                    assert(forall|k: int|
                        0 <= k < cs.len() ==> #[trigger] cs[k] == cfg_view(items@[k]));
                }
                let n = items.len();
                let mut out: Vec<ScriptValue> = Vec::new();
                let mut i: usize = 0;
                while i < n
                    invariant
                        n == items@.len(),
                        n == cs.len(),
                        0 <= i <= n,
                        self matches ConfigValue::Array(x) && x == items,
                        out@.len() == i,
                        forall|k: int|
                            0 <= k < cs.len() ==> #[trigger] cs[k] == cfg_view(items@[k]),
                        forall|k: int|
                            0 <= k < i ==> script_view(#[trigger] out@[k]) == to_script(cs[k]),
                    decreases n - i,
                {
                    proof {
                        assert(decreases_to!(*self => (*self)->Array_0));
                        assert(decreases_to!((*self)->Array_0 => (*self)->Array_0@));
                        assert(decreases_to!((*self)->Array_0@ => (*self)->Array_0@[i as int]));
                        assert((*self)->Array_0@[i as int] == items@[i as int]);
                    }
                    let child = items[i].configuration_into_py();
                    out.push(child);
                    i = i + 1;
                }
                let r = ScriptValue::PyList(out);
                proof {
                    assert(r@->PyList_0 =~= to_script(self@)->PyList_0);
                    assert(r@ == to_script(self@));
                }
                r
            },
            ConfigValue::Object(entries) => {
                let ghost cs = self@->Obj_0;
                proof {
                    assert(cs.len() == entries@.len());
                    assert(forall|k: int|
                        0 <= k < cs.len() ==> #[trigger] cs[k] == (
                            entries@[k].0@,
                            cfg_view(entries@[k].1),
                        ));
                }
                let n = entries.len();
                let mut out: Vec<(String, ScriptValue)> = Vec::new();
                let mut i: usize = 0;
                while i < n
                    invariant
                        n == entries@.len(),
                        n == cs.len(),
                        0 <= i <= n,
                        self matches ConfigValue::Object(x) && x == entries,
                        out@.len() == i,
                        forall|k: int|
                            0 <= k < cs.len() ==> #[trigger] cs[k] == (
                                entries@[k].0@,
                                cfg_view(entries@[k].1),
                            ),
                        forall|k: int|
                            0 <= k < i ==> (#[trigger] out@[k]).0@ == cs[k].0 && script_view(
                                out@[k].1,
                            ) == to_script(cs[k].1),
                    decreases n - i,
                {
                    proof {
                        assert(decreases_to!(*self => (*self)->Object_0));
                        assert(decreases_to!((*self)->Object_0 => (*self)->Object_0@));
                        assert(decreases_to!(
                            (*self)->Object_0@ => (*self)->Object_0@[i as int]));
                        assert(decreases_to!(
                            (*self)->Object_0@[i as int] => (*self)->Object_0@[i as int].1));
                        assert((*self)->Object_0@[i as int].1 == entries@[i as int].1);
                    }
                    let key = entries[i].0.clone();
                    let child = entries[i].1.configuration_into_py();
                    out.push((key, child));
                    i = i + 1;
                }
                let r = ScriptValue::PyDict(out);
                proof {
                    assert(r@->PyDict_0 =~= to_script(self@)->PyDict_0);
                    assert(r@ == to_script(self@));
                }
                r
            },
        }
    }
}

} // verus!
