//! Request bodies: a map of explicitly-set fields.
//!
//! The service's API distinguishes "field omitted" from "field set to an
//! empty or false value", so a body holds exactly the fields a caller
//! set, and a field left unset never appears in it at all.

use vstd::prelude::*;

verus! {

/// A value a body field can carry.
pub enum FieldValue {
    Text(String),
    TextList(Vec<String>),
    Flag(bool),
    Uint(u32),
}

/// The mathematical shape of a [`FieldValue`].
pub enum FieldView {
    Text(Seq<char>),
    TextList(Seq<Seq<char>>),
    Flag(bool),
    Uint(u32),
}

impl View for FieldValue {
    type V = FieldView;

    open spec fn view(&self) -> FieldView {
        match self {
            FieldValue::Text(s) => FieldView::Text(s@),
            FieldValue::TextList(v) => FieldView::TextList(v.deep_view()),
            FieldValue::Flag(b) => FieldView::Flag(*b),
            FieldValue::Uint(u) => FieldView::Uint(*u),
        }
    }
}

/// The map described by an entry list, later entries overriding earlier
/// ones, as in a JSON object.
pub open spec fn entries_map(s: Seq<(String, FieldValue)>) -> Map<Seq<char>, FieldView>
    decreases s.len(),
{
    if s.len() == 0 {
        Map::empty()
    } else {
        entries_map(s.drop_last()).insert(s.last().0@, s.last().1@)
    }
}

/// The binding a map holds for a key, if any.
pub open spec fn map_at(m: Map<Seq<char>, FieldView>, k: Seq<char>) -> Option<FieldView> {
    if m.contains_key(k) {
        Some(m[k])
    } else {
        None
    }
}

/// A request body: the fields the caller actually set, nothing else,
/// in the order they were set.
pub struct Body {
    pub entries: Vec<(String, FieldValue)>,
}

impl View for Body {
    type V = Map<Seq<char>, FieldView>;

    open spec fn view(&self) -> Map<Seq<char>, FieldView> {
        entries_map(self.entries@)
    }
}

impl Body {
    /// An empty body: no field set.
    pub fn new() -> (r: Body)
        ensures
            r@ == Map::<Seq<char>, FieldView>::empty(),
    {
        let r = Body { entries: Vec::new() };
        r
    }

    /// Sets one field.
    pub fn set(&mut self, key: String, value: FieldValue)
        ensures
            final(self)@ == old(self)@.insert(key@, value@),
    {
        let ghost pre = self.entries@;
        self.entries.push((key, value));
        proof {
            assert(self.entries@.drop_last() =~= pre);
        }
    }

    /// The value bound to `key`, if that field was set.
    pub fn get<'a>(&'a self, key: &str) -> (r: Option<&'a FieldValue>)
        ensures
            match r {
                Some(v) => self@.contains_key(key@) && self@[key@] == v@,
                None => !self@.contains_key(key@),
            },
    {
        let k: String = key.to_owned();
        let n = self.entries.len();
        proof {
            assert(self.entries@.take(n as int) =~= self.entries@);
        }
        for i in 0..n
            invariant
                n == self.entries@.len(),
                k@ == key@,
                map_at(self@, key@) == map_at(entries_map(self.entries@.take(n - i)), key@),
        {
            proof {
                let pre = self.entries@.take(n - i);
                assert(pre.drop_last() =~= self.entries@.take(n - i - 1));
                assert(pre.last() == self.entries@[n - 1 - i]);
            }
            let idx = n - 1 - i;
            if self.entries[idx].0 == k {
                return Some(&self.entries[idx].1);
            }
        }
        proof {
            assert(self.entries@.take(0).len() == 0);
        }
        None
    }

    /// How many fields are set.
    pub fn len(&self) -> (r: usize)
        ensures
            r == self.entries@.len(),
    {
        self.entries.len()
    }
}

/// The view of an optional text field as a body value.
pub open spec fn opt_text(o: Option<String>) -> Option<FieldView> {
    match o {
        Some(s) => Some(FieldView::Text(s@)),
        None => None,
    }
}

/// The view of an optional list-of-strings field as a body value.
pub open spec fn opt_list(o: Option<Vec<String>>) -> Option<FieldView> {
    match o {
        Some(v) => Some(FieldView::TextList(v.deep_view())),
        None => None,
    }
}

/// The view of an optional boolean field as a body value.
pub open spec fn opt_flag(o: Option<bool>) -> Option<FieldView> {
    match o {
        Some(b) => Some(FieldView::Flag(b)),
        None => None,
    }
}

/// The view of an optional integer field as a body value.
pub open spec fn opt_uint(o: Option<u32>) -> Option<FieldView> {
    match o {
        Some(u) => Some(FieldView::Uint(u)),
        None => None,
    }
}

/// Inserts a field only when it carries a value: an unset field leaves
/// the map untouched, so its key is absent from the serialized body.
pub open spec fn set_opt(
    m: Map<Seq<char>, FieldView>,
    key: Seq<char>,
    o: Option<FieldView>,
) -> Map<Seq<char>, FieldView> {
    match o {
        Some(v) => m.insert(key, v),
        None => m,
    }
}

/// Copies a list of strings.
pub fn clone_strings(v: &Vec<String>) -> (r: Vec<String>)
    ensures
        r.deep_view() == v.deep_view(),
{
    let mut r: Vec<String> = Vec::new();
    let n = v.len();
    for i in 0..n
        invariant
            n == v@.len(),
            r@.len() == i,
            forall|j: int| 0 <= j < i ==> r@[j]@ == v@[j]@,
    {
        r.push(v[i].clone());
    }
    proof {
        assert(r.deep_view() =~= v.deep_view());
    }
    r
}

/// Sets a text field when it carries a value.
pub fn set_opt_text(b: &mut Body, key: &str, o: &Option<String>)
    ensures
        final(b)@ == set_opt(old(b)@, key@, opt_text(*o)),
{
    match o {
        Some(s) => b.set(key.to_owned(), FieldValue::Text(s.clone())),
        None => (),
    }
}

/// Sets a list-of-strings field when it carries a value.
pub fn set_opt_list(b: &mut Body, key: &str, o: &Option<Vec<String>>)
    ensures
        final(b)@ == set_opt(old(b)@, key@, opt_list(*o)),
{
    match o {
        Some(v) => b.set(key.to_owned(), FieldValue::TextList(clone_strings(v))),
        None => (),
    }
}

/// Sets a boolean field when it carries a value.
pub fn set_opt_flag(b: &mut Body, key: &str, o: &Option<bool>)
    ensures
        final(b)@ == set_opt(old(b)@, key@, opt_flag(*o)),
{
    match o {
        Some(v) => b.set(key.to_owned(), FieldValue::Flag(*v)),
        None => (),
    }
}

/// Sets an integer field when it carries a value.
pub fn set_opt_uint(b: &mut Body, key: &str, o: &Option<u32>)
    ensures
        final(b)@ == set_opt(old(b)@, key@, opt_uint(*o)),
{
    match o {
        Some(v) => b.set(key.to_owned(), FieldValue::Uint(*v)),
        None => (),
    }
}

/// Sets a text field unconditionally.
pub fn set_text(b: &mut Body, key: &str, s: &String)
    ensures
        final(b)@ == old(b)@.insert(key@, FieldView::Text(s@)),
{
    b.set(key.to_owned(), FieldValue::Text(s.clone()));
}

} // verus!
