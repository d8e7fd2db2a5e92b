//! A JSON document as plain values, with the lookups that the enrichment
//! sources need. Lookups never fail: a missing key, an index out of range or a
//! value of the wrong shape reads as `Null`.
use vstd::prelude::*;

verus! {

/// A JSON value. Numbers are kept as far as the sources read them: a
/// non-negative integer that fits in `u64`, or some other number.
#[derive(Debug)]
pub enum Json {
    Null,
    Bool(bool),
    UInt(u64),
    OtherNumber,
    Str(String),
    Array(Vec<Json>),
    Object(Vec<(String, Json)>),
}

/// The value of the first entry named `key`, or `Null`.
pub open spec fn lookup(fs: Seq<(String, Json)>, key: Seq<char>) -> Json
    decreases fs.len(),
{
    if fs.len() == 0 {
        Json::Null
    } else if fs[0].0@ == key {
        fs[0].1
    } else {
        lookup(fs.drop_first(), key)
    }
}

/// `v[key]`: the member named `key` of an object, else `Null`.
pub open spec fn field(v: Json, key: Seq<char>) -> Json {
    match v {
        Json::Object(fs) => lookup(fs@, key),
        _ => Json::Null,
    }
}

/// `v[i]`: the element at `i` of an array, else `Null`.
pub open spec fn element(v: Json, i: int) -> Json {
    match v {
        Json::Array(xs) => if 0 <= i < xs@.len() {
            xs@[i]
        } else {
            Json::Null
        },
        _ => Json::Null,
    }
}

pub open spec fn text_of(v: Json) -> Option<Seq<char>> {
    match v {
        Json::Str(s) => Some(s@),
        _ => None,
    }
}

pub open spec fn uint_of(v: Json) -> Option<u64> {
    match v {
        Json::UInt(n) => Some(n),
        _ => None,
    }
}

/// Whether two strings hold the same characters.
pub fn same_text(a: &str, b: &str) -> (r: bool)
    ensures
        r == (a@ == b@),
{
    let n = a.unicode_len();
    if n != b.unicode_len() {
        return false;
    }
    let mut i: usize = 0;
    while i < n
        invariant
            n == a@.len(),
            n == b@.len(),
            i <= n,
            forall|j: int| 0 <= j < i ==> a@[j] == b@[j],
        decreases n - i,
    {
        if a.get_char(i) != b.get_char(i) {
            return false;
        }
        i = i + 1;
    }
    proof {
        assert(a@ =~= b@);
    }
    true
}

impl Json {
    /// The member named `key`; `None` where `field` reads `Null` for want of one.
    pub fn get<'a>(&'a self, key: &str) -> (r: Option<&'a Json>)
        ensures
            match r {
                Some(x) => *x == field(*self, key@),
                None => field(*self, key@) == Json::Null,
            },
    {
        match self {
            Json::Object(fs) => {
                let mut i: usize = 0;
                proof {
                    assert(fs@.subrange(0, fs@.len() as int) =~= fs@);
                }
                while i < fs.len()
                    invariant
                        i <= fs@.len(),
                        field(*self, key@) == lookup(fs@, key@),
                        lookup(fs@, key@) == lookup(fs@.subrange(i as int, fs@.len() as int), key@),
                    decreases fs@.len() - i,
                {
                    proof {
                        let rest = fs@.subrange(i as int, fs@.len() as int);
                        assert(rest[0] == fs@[i as int]);
                        assert(rest.drop_first() =~= fs@.subrange(i + 1, fs@.len() as int));
                    }
                    if same_text(fs[i].0.as_str(), key) {
                        proof {
                            let rest = fs@.subrange(i as int, fs@.len() as int);
                            assert(rest[0].0@ == key@);
                            assert(lookup(rest, key@) == fs@[i as int].1);
                        }
                        return Some(&fs[i].1);
                    }
                    i = i + 1;
                }
                None
            },
            _ => None,
        }
    }

    /// The element at `i`; `None` where `element` reads `Null` for want of one.
    pub fn at(&self, i: usize) -> (r: Option<&Json>)
        ensures
            match r {
                Some(x) => *x == element(*self, i as int),
                None => element(*self, i as int) == Json::Null,
            },
    {
        match self {
            Json::Array(xs) => if i < xs.len() {
                Some(&xs[i])
            } else {
                None
            },
            _ => None,
        }
    }

    pub fn as_text(&self) -> (r: Option<String>)
        ensures
            match r {
                Some(s) => text_of(*self) == Some(s@),
                None => text_of(*self) is None,
            },
    {
        match self {
            Json::Str(s) => Some(s.clone()),
            _ => None,
        }
    }

    pub fn as_uint(&self) -> (r: Option<u64>)
        ensures
            r == uint_of(*self),
    {
        match self {
            Json::UInt(n) => Some(*n),
            _ => None,
        }
    }
}

} // verus!
