//! Storage-item model: one record of the backing store as a generic
//! key-to-typed-value map.
//!
//! An item is an ordered list of attributes. Each value is either a
//! string or a nested sub-object whose fields are all strings (the only
//! two shapes this layer reads or writes). Lookup returns the first
//! entry with the given key; writers of this crate never repeat a key.

use vstd::prelude::*;

verus! {

/// Spec-level value of one attribute.
pub ghost enum AttrValV {
    S(Seq<char>),
    M(Seq<(Seq<char>, Seq<char>)>),
}

/// Nested sub-object: string-valued fields only.
#[derive(Debug, Clone, PartialEq, Eq)]
pub struct StrMap {
    pub entries: Vec<(String, String)>,
}

/// One typed attribute value of a storage item.
#[derive(Debug, Clone, PartialEq, Eq)]
pub enum AttrVal {
    S(String),
    M(StrMap),
}

/// One storage item: a key-to-typed-value map.
#[derive(Debug, Clone, PartialEq, Eq)]
pub struct AttrMap {
    pub entries: Vec<(String, AttrVal)>,
}

impl View for StrMap {
    type V = Seq<(Seq<char>, Seq<char>)>;

    open spec fn view(&self) -> Seq<(Seq<char>, Seq<char>)> {
        self.entries@.map_values(|p: (String, String)| (p.0@, p.1@))
    }
}

impl View for AttrVal {
    type V = AttrValV;

    open spec fn view(&self) -> AttrValV {
        match self {
            AttrVal::S(s) => AttrValV::S(s@),
            AttrVal::M(m) => AttrValV::M(m@),
        }
    }
}

impl View for AttrMap {
    type V = Seq<(Seq<char>, AttrValV)>;

    open spec fn view(&self) -> Seq<(Seq<char>, AttrValV)> {
        self.entries@.map_values(|p: (String, AttrVal)| (p.0@, p.1@))
    }
}

/// First entry with key `k`, if any.
pub open spec fn sget<T>(s: Seq<(Seq<char>, T)>, k: Seq<char>) -> Option<T>
    decreases s.len(),
{
    if s.len() == 0 {
        None
    } else if s[0].0 == k {
        Some(s[0].1)
    } else {
        sget(s.drop_first(), k)
    }
}

/// Appending an entry leaves every earlier key's lookup unchanged and
/// resolves the new key only when it was absent before.
pub broadcast proof fn lemma_sget_push<T>(s: Seq<(Seq<char>, T)>, pr: (Seq<char>, T), k: Seq<char>)
    ensures
        #[trigger] sget(s.push(pr), k) == if sget(s, k) is Some {
            sget(s, k)
        } else if pr.0 == k {
            Some(pr.1)
        } else {
            None::<T>
        },
    decreases s.len(),
{
    if s.len() == 0 {
        assert(s.push(pr)[0] == pr);
        assert(s.push(pr).drop_first() =~= Seq::<(Seq<char>, T)>::empty());
    } else {
        assert(s.push(pr)[0] == s[0]);
        if s[0].0 != k {
            assert(s.push(pr).drop_first() =~= s.drop_first().push(pr));
            lemma_sget_push(s.drop_first(), pr, k);
        }
    }
}

/// String value under key `k`: present and string-typed, or nothing.
pub open spec fn sget_s(m: Seq<(Seq<char>, AttrValV)>, k: Seq<char>) -> Option<Seq<char>> {
    match sget(m, k) {
        Some(AttrValV::S(s)) => Some(s),
        _ => None,
    }
}

/// Sub-object under key `k`: present and map-typed, or nothing.
pub open spec fn sget_m(m: Seq<(Seq<char>, AttrValV)>, k: Seq<char>) -> Option<
    Seq<(Seq<char>, Seq<char>)>,
> {
    match sget(m, k) {
        Some(AttrValV::M(sub)) => Some(sub),
        _ => None,
    }
}

/// String equality over the character views.
pub fn str_eq(a: &str, b: &str) -> (r: bool)
    ensures
        r == (a@ == b@),
{
    let sa = a.to_owned();
    let sb = b.to_owned();
    sa == sb
}

impl StrMap {
    /// The empty sub-object.
    pub fn new() -> (r: StrMap)
        ensures
            r@ =~= Seq::<(Seq<char>, Seq<char>)>::empty(),
    {
        StrMap { entries: Vec::new() }
    }

    /// Appends a string field. Callers do not repeat keys.
    pub fn insert(&mut self, key: &str, val: String)
        ensures
            final(self)@ =~= old(self)@.push((key@, val@)),
    {
        self.entries.push((key.to_owned(), val));
    }

    /// The first field named `key`, if any.
    pub fn get<'a>(&'a self, key: &str) -> (r: Option<&'a String>)
        ensures
            match r {
                Some(v) => sget(self@, key@) == Some(v@),
                None => sget(self@, key@) is None,
            },
    {
        let k = key.to_owned();
        let n = self.entries.len();
        let mut i: usize = 0;
        proof {
            assert(self@.skip(0) =~= self@);
        }
        while i < n
            invariant
                n == self.entries.len(),
                i <= n,
                k@ == key@,
                sget(self@, key@) == sget(self@.skip(i as int), key@),
            decreases n - i,
        {
            let e = &self.entries[i];
            if e.0 == k {
                proof {
                    assert(self@.skip(i as int)[0] == self@[i as int]);
                }
                return Some(&e.1);
            }
            proof {
                assert(self@.skip(i as int).drop_first() =~= self@.skip(i + 1));
                assert(self@.skip(i as int)[0] == self@[i as int]);
            }
            i = i + 1;
        }
        proof {
            assert(self@.skip(n as int) =~= Seq::<(Seq<char>, Seq<char>)>::empty());
        }
        None
    }
}

impl AttrMap {
    /// The empty item.
    pub fn new() -> (r: AttrMap)
        ensures
            r@ =~= Seq::<(Seq<char>, AttrValV)>::empty(),
    {
        AttrMap { entries: Vec::new() }
    }

    /// Appends a string attribute. Callers do not repeat keys.
    pub fn insert_s(&mut self, key: &str, val: String)
        ensures
            final(self)@ =~= old(self)@.push((key@, AttrValV::S(val@))),
    {
        self.entries.push((key.to_owned(), AttrVal::S(val)));
    }

    /// Appends a sub-object attribute. Callers do not repeat keys.
    pub fn insert_m(&mut self, key: &str, val: StrMap)
        ensures
            final(self)@ =~= old(self)@.push((key@, AttrValV::M(val@))),
    {
        self.entries.push((key.to_owned(), AttrVal::M(val)));
    }

    /// The first attribute named `key`, if any.
    pub fn get<'a>(&'a self, key: &str) -> (r: Option<&'a AttrVal>)
        ensures
            match r {
                Some(v) => sget(self@, key@) == Some(v@),
                None => sget(self@, key@) is None,
            },
    {
        let k = key.to_owned();
        let n = self.entries.len();
        let mut i: usize = 0;
        proof {
            assert(self@.skip(0) =~= self@);
        }
        while i < n
            invariant
                n == self.entries.len(),
                i <= n,
                k@ == key@,
                sget(self@, key@) == sget(self@.skip(i as int), key@),
            decreases n - i,
        {
            let e = &self.entries[i];
            if e.0 == k {
                proof {
                    assert(self@.skip(i as int)[0] == self@[i as int]);
                }
                return Some(&e.1);
            }
            proof {
                assert(self@.skip(i as int).drop_first() =~= self@.skip(i + 1));
                assert(self@.skip(i as int)[0] == self@[i as int]);
            }
            i = i + 1;
        }
        proof {
            assert(self@.skip(n as int) =~= Seq::<(Seq<char>, AttrValV)>::empty());
        }
        None
    }

    /// The string attribute named `key`: present and string-typed, or nothing.
    pub fn get_s<'a>(&'a self, key: &str) -> (r: Option<&'a String>)
        ensures
            match r {
                Some(v) => sget_s(self@, key@) == Some(v@),
                None => sget_s(self@, key@) is None,
            },
    {
        match self.get(key) {
            Some(AttrVal::S(s)) => Some(s),
            _ => None,
        }
    }

    /// The sub-object named `key`: present and map-typed, or nothing.
    pub fn get_m<'a>(&'a self, key: &str) -> (r: Option<&'a StrMap>)
        ensures
            match r {
                Some(v) => sget_m(self@, key@) == Some(v@),
                None => sget_m(self@, key@) is None,
            },
    {
        match self.get(key) {
            Some(AttrVal::M(m)) => Some(m),
            _ => None,
        }
    }
}

} // verus!
