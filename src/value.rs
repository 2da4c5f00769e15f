use vstd::prelude::*;

verus! {

/// A host number as the coercions read it: its integer part (rounded toward
/// zero, saturated to the range of `i64`) and whether it differs from zero.
#[derive(Clone, Copy, Debug, PartialEq, Eq, Structural)]
pub struct Number {
    pub whole: i64,
    pub nonzero: bool,
}

impl Number {
    /// An integral host number.
    pub fn integer(v: i64) -> (r: Number)
        ensures
            r == (Number { whole: v, nonzero: v != 0 }),
    {
        Number { whole: v, nonzero: v != 0 }
    }
}

/// A value held by a field of a host record.
#[derive(Debug)]
pub enum DynValue {
    Number(Number),
    Str(String),
    Bool(bool),
    Object(DynObject),
}

/// A host key/value record of unknown static shape. A name that no entry
/// carries is an absent field; where several entries carry it, the first wins.
#[derive(Debug)]
pub struct DynObject {
    pub fields: Vec<(String, DynValue)>,
}

/// The value of the first entry named `name`, if any.
pub open spec fn lookup(fields: Seq<(String, DynValue)>, name: Seq<char>) -> Option<DynValue>
    decreases fields.len(),
{
    if fields.len() == 0 {
        None
    } else if fields[0].0@ == name {
        Some(fields[0].1)
    } else {
        lookup(fields.drop_first(), name)
    }
}

/// Chained lookup along `path`: no value as soon as a field is missing or an
/// intermediate value is not a record. An empty path names no value.
pub open spec fn lookup_path(obj: DynObject, path: Seq<Seq<char>>) -> Option<DynValue>
    decreases path.len(),
{
    if path.len() == 0 {
        None
    } else {
        match lookup(obj.fields@, path[0]) {
            None => None,
            Some(v) => if path.len() == 1 {
                Some(v)
            } else {
                match v {
                    DynValue::Object(inner) => lookup_path(inner, path.drop_first()),
                    _ => None,
                }
            },
        }
    }
}

/// The value a lookup handed back.
pub open spec fn found(r: Option<&DynValue>) -> Option<DynValue> {
    match r {
        Some(v) => Some(*v),
        None => None,
    }
}

/// A field path as a sequence of names.
pub open spec fn names_of(path: Seq<&str>) -> Seq<Seq<char>> {
    path.map_values(|s: &str| s@)
}

/// `n` saturated into the range of `u8`.
pub open spec fn saturate_u8(n: int) -> u8 {
    if n < 0 {
        0
    } else if n > u8::MAX {
        u8::MAX
    } else {
        n as u8
    }
}

/// `n` saturated into the range of `i32`.
pub open spec fn saturate_i32(n: int) -> i32 {
    if n < i32::MIN {
        i32::MIN
    } else if n > i32::MAX {
        i32::MAX
    } else {
        n as i32
    }
}

/// String coercion: only a string-typed value.
pub open spec fn string_of(v: Option<DynValue>) -> Option<Seq<char>> {
    match v {
        Some(DynValue::Str(s)) => Some(s@),
        _ => None,
    }
}

/// Boolean coercion: a number, true where nonzero. Like every numeric
/// coercion it reads numbers only, so a boolean-typed value gives no value.
pub open spec fn bool_of(v: Option<DynValue>) -> Option<bool> {
    match v {
        Some(DynValue::Number(n)) => Some(n.nonzero),
        _ => None,
    }
}

/// Numeric coercion to `u8`: the integer part, saturated.
pub open spec fn u8_of(v: Option<DynValue>) -> Option<u8> {
    match v {
        Some(DynValue::Number(n)) => Some(saturate_u8(n.whole as int)),
        _ => None,
    }
}

/// Numeric coercion to `i32`: the integer part, saturated.
pub open spec fn i32_of(v: Option<DynValue>) -> Option<i32> {
    match v {
        Some(DynValue::Number(n)) => Some(saturate_i32(n.whole as int)),
        _ => None,
    }
}

/// Whether two strings hold the same characters.
pub fn text_eq(a: &str, b: &str) -> (r: bool)
    ensures
        r == (a@ == b@),
{
    let n = a.unicode_len();
    if n != b.unicode_len() {
        return false;
    }
    let mut i: usize = 0;
    while i < n
        invariant
            n == a@.len(),
            n == b@.len(),
            i <= n,
            a@.subrange(0, i as int) == b@.subrange(0, i as int),
        decreases n - i,
    {
        if a.get_char(i) != b.get_char(i) {
            return false;
        }
        assert(a@.subrange(0, i + 1) == a@.subrange(0, i as int).push(a@[i as int]));
        assert(b@.subrange(0, i + 1) == b@.subrange(0, i as int).push(b@[i as int]));
        i = i + 1;
    }
    assert(a@ == a@.subrange(0, n as int));
    assert(b@ == b@.subrange(0, n as int));
    true
}

/// String coercion of a looked-up value.
pub fn as_string(v: Option<&DynValue>) -> (r: Option<String>)
    ensures
        match r {
            Some(s) => string_of(found(v)) == Some(s@),
            None => string_of(found(v)) is None,
        },
{
    match v {
        Some(DynValue::Str(s)) => Some(s.clone()),
        _ => None,
    }
}

/// Boolean coercion of a looked-up value.
pub fn as_bool(v: Option<&DynValue>) -> (r: Option<bool>)
    ensures
        r == bool_of(found(v)),
{
    match v {
        Some(DynValue::Number(n)) => Some(n.nonzero),
        _ => None,
    }
}

/// Numeric coercion of a looked-up value to `u8`.
pub fn as_u8(v: Option<&DynValue>) -> (r: Option<u8>)
    ensures
        r == u8_of(found(v)),
{
    match v {
        Some(DynValue::Number(n)) => {
            if n.whole < 0 {
                Some(0)
            } else if n.whole > u8::MAX as i64 {
                Some(u8::MAX)
            } else {
                Some(n.whole as u8)
            }
        },
        _ => None,
    }
}

/// Numeric coercion of a looked-up value to `i32`.
pub fn as_i32(v: Option<&DynValue>) -> (r: Option<i32>)
    ensures
        r == i32_of(found(v)),
{
    match v {
        Some(DynValue::Number(n)) => {
            if n.whole < i32::MIN as i64 {
                Some(i32::MIN)
            } else if n.whole > i32::MAX as i64 {
                Some(i32::MAX)
            } else {
                Some(n.whole as i32)
            }
        },
        _ => None,
    }
}

impl DynObject {
    /// The value of the field `name`, if present.
    pub fn field(&self, name: &str) -> (r: Option<&DynValue>)
        ensures
            found(r) == lookup(self.fields@, name@),
    {
        let mut i: usize = 0;
        assert(self.fields@.subrange(0, self.fields@.len() as int) == self.fields@);
        while i < self.fields.len()
            invariant
                i <= self.fields@.len(),
                lookup(self.fields@, name@) == lookup(self.fields@.subrange(i as int, self.fields@.len() as int), name@),
            decreases self.fields@.len() - i,
        {
            let ghost rest = self.fields@.subrange(i as int, self.fields@.len() as int);
            if text_eq(self.fields[i].0.as_str(), name) {
                return Some(&self.fields[i].1);
            }
            assert(rest.drop_first() == self.fields@.subrange(i + 1, self.fields@.len() as int));
            i = i + 1;
        }
        None
    }

    /// Chained lookup along `path`.
    pub fn get(&self, path: &[&str]) -> (r: Option<&DynValue>)
        ensures
            found(r) == lookup_path(*self, names_of(path@)),
    {
        let ghost names = names_of(path@);
        if path.len() == 0 {
            return None;
        }
        let mut cur: &DynObject = self;
        let mut i: usize = 0;
        assert(names.subrange(0, names.len() as int) == names);
        while i < path.len() - 1
            invariant
                names == names_of(path@),
                i < path@.len(),
                lookup_path(*self, names) == lookup_path(*cur, names.subrange(i as int, names.len() as int)),
            decreases path@.len() - i,
        {
            let ghost rest = names.subrange(i as int, names.len() as int);
            assert(rest.drop_first() == names.subrange(i + 1, names.len() as int));
            match cur.field(path[i]) {
                Some(DynValue::Object(inner)) => {
                    cur = inner;
                }
                _ => {
                    return None;
                }
            }
            i = i + 1;
        }
        let ghost last = names.subrange(i as int, names.len() as int);
        assert(last.len() == 1);
        cur.field(path[i])
    }
}

} // verus!
