//! The host's recursive configuration tree: null, booleans, numbers,
//! strings, arrays and string-keyed objects, with the numeric subtypes the
//! host distinguishes.
use vstd::prelude::*;

verus! {

/// A numeric configuration value, as the host stores it: a non-negative
/// 64-bit integer, a negative 64-bit integer, or the raw bits of a 64-bit
/// floating-point value. Keeping the three storage forms apart is what lets
/// the marshaller preserve the numeric subtype across the language boundary.
#[derive(Clone, Copy, PartialEq, Eq, Structural)]
pub enum Number {
    PosInt(u64),
    NegInt(i64),
    FloatBits(u64),
}

impl Number {
    /// Canonical form: the negative-integer variant holds only negative
    /// values, so each number has exactly one representation.
    pub open spec fn wf(self) -> bool {
        match self {
            Number::NegInt(i) => i < 0,
            _ => true,
        }
    }

    /// Whether the number is representable as a signed 64-bit integer.
    pub open spec fn spec_is_i64(self) -> bool {
        match self {
            Number::PosInt(u) => u <= i64::MAX as u64,
            Number::NegInt(_) => true,
            Number::FloatBits(_) => false,
        }
    }

    /// Whether the number is representable as an unsigned 64-bit integer.
    pub open spec fn spec_is_u64(self) -> bool {
        self is PosInt
    }

    /// The signed value, meaningful when `spec_is_i64` holds.
    pub open spec fn spec_as_i64(self) -> i64 {
        match self {
            Number::PosInt(u) => u as i64,
            Number::NegInt(i) => i,
            Number::FloatBits(_) => 0,
        }
    }

    /// The unsigned value, meaningful when `spec_is_u64` holds.
    pub open spec fn spec_as_u64(self) -> u64 {
        match self {
            Number::PosInt(u) => u,
            Number::NegInt(_) => 0,
            Number::FloatBits(_) => 0,
        }
    }

    /// The raw floating-point bits, meaningful for the floating-point form.
    pub open spec fn spec_float_bits(self) -> u64 {
        match self {
            Number::FloatBits(b) => b,
            _ => 0,
        }
    }

    /// Whether the number is representable as a signed 64-bit integer.
    pub fn is_i64(&self) -> (r: bool)
        ensures
            r == self.spec_is_i64(),
    {
        match self {
            Number::PosInt(u) => *u <= i64::MAX as u64,
            Number::NegInt(_) => true,
            Number::FloatBits(_) => false,
        }
    }

    /// Whether the number is representable as an unsigned 64-bit integer.
    pub fn is_u64(&self) -> (r: bool)
        ensures
            r == self.spec_is_u64(),
    {
        match self {
            Number::PosInt(_) => true,
            _ => false,
        }
    }

    /// The signed value, meaningful when `is_i64` holds.
    pub fn as_i64(&self) -> (r: i64)
        ensures
            r == self.spec_as_i64(),
    {
        match self {
            Number::PosInt(u) => *u as i64,
            Number::NegInt(i) => *i,
            Number::FloatBits(_) => 0,
        }
    }

    /// The unsigned value, meaningful when `is_u64` holds.
    pub fn as_u64(&self) -> (r: u64)
        ensures
            r == self.spec_as_u64(),
    {
        match self {
            Number::PosInt(u) => *u,
            Number::NegInt(_) => 0,
            Number::FloatBits(_) => 0,
        }
    }

    /// The raw floating-point bits, meaningful for the floating-point form.
    pub fn float_bits(&self) -> (r: u64)
        ensures
            r == self.spec_float_bits(),
    {
        match self {
            Number::FloatBits(b) => *b,
            _ => 0,
        }
    }
}

/// The host's configuration tree. Object keys are unique in a well-formed
/// tree; their order carries no meaning.
pub enum ConfigValue {
    Null,
    Bool(bool),
    Number(Number),
    Text(String),
    Array(Vec<ConfigValue>),
    Object(Vec<(String, ConfigValue)>),
}

/// The mathematical shape of a configuration tree: what `ConfigValue` views
/// as, with sequences in place of vectors and character sequences in place
/// of strings.
#[verifier::ext_equal]
pub enum ConfigData {
    Null,
    Bool(bool),
    Num(Number),
    Str(Seq<char>),
    Arr(Seq<ConfigData>),
    Obj(Seq<(Seq<char>, ConfigData)>),
}

/// The view of a configuration tree.
pub open spec fn cfg_view(c: ConfigValue) -> ConfigData
    decreases c,
    via cfg_view_decreases
{
    match c {
        ConfigValue::Null => ConfigData::Null,
        ConfigValue::Bool(b) => ConfigData::Bool(b),
        ConfigValue::Number(n) => ConfigData::Num(n),
        ConfigValue::Text(s) => ConfigData::Str(s@),
        ConfigValue::Array(items) => ConfigData::Arr(
            Seq::new(
                items@.len(),
                |i: int|
                    if 0 <= i < items@.len() {
                        cfg_view(items@[i])
                    } else {
                        ConfigData::Null
                    },
            ),
        ),
        ConfigValue::Object(entries) => ConfigData::Obj(
            Seq::new(
                entries@.len(),
                |i: int|
                    (
                        entries@[i].0@,
                        if 0 <= i < entries@.len() {
                            cfg_view(entries@[i].1)
                        } else {
                            ConfigData::Null
                        },
                    ),
            ),
        ),
    }
}

#[via_fn]
proof fn cfg_view_decreases(c: ConfigValue) {
    match c {
        ConfigValue::Array(items) => {
            assert forall|i: int| 0 <= i < items@.len() implies decreases_to!(c => items@[i]) by {
                assert(decreases_to!(c => items));
                assert(decreases_to!(items => items@));
                assert(decreases_to!(items@ => items@[i]));
            }
        },
        ConfigValue::Object(entries) => {
            assert forall|i: int| 0 <= i < entries@.len() implies decreases_to!(
                c => entries@[i].1,
            ) by {
                assert(decreases_to!(c => entries));
                assert(decreases_to!(entries => entries@));
                assert(decreases_to!(entries@ => entries@[i]));
                assert(decreases_to!(entries@[i] => entries@[i].1));
            }
        },
        _ => {},
    }
}

impl View for ConfigValue {
    type V = ConfigData;

    open spec fn view(&self) -> ConfigData {
        cfg_view(*self)
    }
}

impl ConfigData {
    /// Well-formed: every number is in canonical form and every object's
    /// keys are pairwise distinct.
    pub open spec fn wf(self) -> bool
        decreases self,
    {
        match self {
            ConfigData::Num(n) => n.wf(),
            ConfigData::Arr(items) => forall|i: int|
                0 <= i < items.len() ==> (#[trigger] items[i]).wf(),
            ConfigData::Obj(entries) => (forall|i: int|
                0 <= i < entries.len() ==> (#[trigger] entries[i]).1.wf()) && (forall|i: int, j: int|
                0 <= i < j < entries.len() ==> entries[i].0 != entries[j].0),
            _ => true,
        }
    }
}

/// The value under `key` in a sequence of object entries: the first entry
/// whose key matches, or null when none does.
pub open spec fn entries_index(entries: Seq<(Seq<char>, ConfigData)>, key: Seq<char>) -> ConfigData
    decreases entries.len(),
{
    if entries.len() == 0 {
        ConfigData::Null
    } else if entries[0].0 == key {
        entries[0].1
    } else {
        entries_index(entries.drop_first(), key)
    }
}

/// Indexing a configuration tree by a string key, as the host's
/// configuration type does: the entry's value in an object that has the
/// key, and null on a missing key or on anything that is not an object.
pub open spec fn obj_index(c: ConfigData, key: Seq<char>) -> ConfigData {
    match c {
        ConfigData::Obj(entries) => entries_index(entries, key),
        _ => ConfigData::Null,
    }
}

impl ConfigValue {
    /// A structural copy of the tree: same shape, same values.
    pub fn deep_clone(&self) -> (r: ConfigValue)
        ensures
            r@ == self@,
        decreases self,
    {
        match self {
            ConfigValue::Null => ConfigValue::Null,
            ConfigValue::Bool(b) => ConfigValue::Bool(*b),
            ConfigValue::Number(n) => ConfigValue::Number(*n),
            ConfigValue::Text(s) => ConfigValue::Text(s.clone()),
            ConfigValue::Array(items) => {
                let ghost cs = self@->Arr_0;
                proof {
                    assert(cs.len() == items@.len());
                    assert(forall|k: int|
                        0 <= k < cs.len() ==> #[trigger] cs[k] == cfg_view(items@[k]));
                }
                let n = items.len();
                let mut out: Vec<ConfigValue> = Vec::new();
                let mut i: usize = 0;
                while i < n
                    invariant
                        n == items@.len(),
                        n == cs.len(),
                        0 <= i <= n,
                        self matches ConfigValue::Array(x) && x == items,
                        out@.len() == i,
                        forall|k: int|
                            0 <= k < cs.len() ==> #[trigger] cs[k] == cfg_view(items@[k]),
                        forall|k: int| 0 <= k < i ==> cfg_view(#[trigger] out@[k]) == cs[k],
                    decreases n - i,
                {
                    proof {
                        assert(decreases_to!(*self => (*self)->Array_0));
                        assert(decreases_to!((*self)->Array_0 => (*self)->Array_0@));
                        assert(decreases_to!((*self)->Array_0@ => (*self)->Array_0@[i as int]));
                        assert((*self)->Array_0@[i as int] == items@[i as int]);
                    }
                    let child = items[i].deep_clone();
                    out.push(child);
                    i = i + 1;
                }
                let r = ConfigValue::Array(out);
                proof {
                    assert(r@->Arr_0 =~= cs);
                    assert(r@ == self@);
                }
                r
            },
            ConfigValue::Object(entries) => {
                let ghost cs = self@->Obj_0;
                proof {
                    assert(cs.len() == entries@.len());
                    assert(forall|k: int|
                        0 <= k < cs.len() ==> #[trigger] cs[k] == (
                            entries@[k].0@,
                            cfg_view(entries@[k].1),
                        ));
                }
                let n = entries.len();
                let mut out: Vec<(String, ConfigValue)> = Vec::new();
                let mut i: usize = 0;
                while i < n
                    invariant
                        n == entries@.len(),
                        n == cs.len(),
                        0 <= i <= n,
                        self matches ConfigValue::Object(x) && x == entries,
                        out@.len() == i,
                        forall|k: int|
                            0 <= k < cs.len() ==> #[trigger] cs[k] == (
                                entries@[k].0@,
                                cfg_view(entries@[k].1),
                            ),
                        forall|k: int|
                            0 <= k < i ==> (#[trigger] out@[k]).0@ == cs[k].0 && cfg_view(
                                out@[k].1,
                            ) == cs[k].1,
                    decreases n - i,
                {
                    proof {
                        assert(decreases_to!(*self => (*self)->Object_0));
                        assert(decreases_to!((*self)->Object_0 => (*self)->Object_0@));
                        assert(decreases_to!(
                            (*self)->Object_0@ => (*self)->Object_0@[i as int]));
                        assert(decreases_to!(
                            (*self)->Object_0@[i as int] => (*self)->Object_0@[i as int].1));
                        assert((*self)->Object_0@[i as int].1 == entries@[i as int].1);
                    }
                    let key = entries[i].0.clone();
                    let child = entries[i].1.deep_clone();
                    out.push((key, child));
                    i = i + 1;
                }
                let r = ConfigValue::Object(out);
                proof {
                    assert(r@->Obj_0 =~= cs);
                    assert(r@ == self@);
                }
                r
            },
        }
    }

    /// Looks up `key` in an object tree. `None` stands for the null that the
    /// host's indexing yields on a missing key or on anything that is not an
    /// object; an entry whose value is null comes back as `Some`.
    pub fn get<'a>(&'a self, key: &String) -> (r: Option<&'a ConfigValue>)
        ensures
            r matches Some(v) ==> v@ == obj_index(self@, key@),
            r is None ==> obj_index(self@, key@) == ConfigData::Null,
    {
        match self {
            ConfigValue::Object(entries) => {
                let ghost ve = self@->Obj_0;
                proof {
                    assert(ve.len() == entries@.len());
                    assert(forall|k: int|
                        0 <= k < ve.len() ==> #[trigger] ve[k] == (
                            entries@[k].0@,
                            cfg_view(entries@[k].1),
                        ));
                    assert(ve.skip(0) =~= ve);
                }
                let n = entries.len();
                let mut i: usize = 0;
                while i < n
                    invariant
                        n == entries@.len(),
                        n == ve.len(),
                        0 <= i <= n,
                        ve == self@->Obj_0,
                        self@ matches ConfigData::Obj(e) && e == ve,
                        forall|k: int|
                            0 <= k < ve.len() ==> #[trigger] ve[k] == (
                                entries@[k].0@,
                                cfg_view(entries@[k].1),
                            ),
                        entries_index(ve.skip(i as int), key@) == entries_index(ve, key@),
                    decreases n - i,
                {
                    if entries[i].0 == *key {
                        proof {
                            assert(ve.skip(i as int)[0] == ve[i as int]);
                            assert(entries_index(ve.skip(i as int), key@) == ve[i as int].1);
                        }
                        return Some(&entries[i].1);
                    }
                    proof {
                        assert(ve.skip(i as int)[0] == ve[i as int]);
                        assert(ve.skip(i as int).drop_first() =~= ve.skip(i as int + 1));
                    }
                    i = i + 1;
                }
                proof {
                    assert(ve.skip(n as int).len() == 0);
                }
                None
            },
            _ => None,
        }
    }
}

} // verus!
