//! JSON values as exchanged with debugger clients.
//!
//! The protocol frames one JSON object per logical packet. The library
//! builds and inspects packets as `Json` values; turning them into bytes on
//! a connection, and bytes into values, is the transport's concern and
//! happens outside the library.
//!
//! `Json` is the executable value; its mathematical counterpart is `JVal`,
//! reached through the view operator. Objects keep their fields as an
//! ordered list of pairs; a lookup takes the first binding of a key.

use vstd::prelude::*;

verus! {

broadcast use vstd::std_specs::vec::group_vec_axioms;

/// The mathematical form of a JSON value.
#[verifier::ext_equal]
pub enum JVal {
    Null,
    Bool(bool),
    Int(i64),
    Uint(u64),
    Str(Seq<char>),
    Arr(Seq<JVal>),
    Obj(Seq<(Seq<char>, JVal)>),
}

/// A JSON value.
#[derive(Debug, PartialEq)]
pub enum Json {
    Null,
    Bool(bool),
    Int(i64),
    Uint(u64),
    Str(String),
    Arr(Vec<Json>),
    Obj(Vec<(String, Json)>),
}

/// The mathematical value of a JSON tree.
pub open spec fn jval_of(j: Json) -> JVal
    decreases j,
    via jval_of_decreases
{
    match j {
        Json::Null => JVal::Null,
        Json::Bool(b) => JVal::Bool(b),
        Json::Int(i) => JVal::Int(i),
        Json::Uint(u) => JVal::Uint(u),
        Json::Str(s) => JVal::Str(s@),
        Json::Arr(items) => JVal::Arr(jvals_of(items@)),
        Json::Obj(fields) => JVal::Obj(jflds_of(fields@)),
    }
}

/// The mathematical values of a list of JSON trees.
pub open spec fn jvals_of(items: Seq<Json>) -> Seq<JVal>
    decreases items,
{
    if items.len() == 0 {
        Seq::empty()
    } else {
        seq![jval_of(items[0])] + jvals_of(items.drop_first())
    }
}

/// The mathematical values of the fields of a JSON object.
pub open spec fn jflds_of(fields: Seq<(String, Json)>) -> Seq<(Seq<char>, JVal)>
    decreases fields,
{
    if fields.len() == 0 {
        Seq::empty()
    } else {
        seq![(fields[0].0@, jval_of(fields[0].1))] + jflds_of(fields.drop_first())
    }
}

#[via_fn]
proof fn jval_of_decreases(j: Json) {
    match j {
        Json::Arr(items) => {
            assert(decreases_to!(j => items));
            assert(decreases_to!(items => items@));
        },
        Json::Obj(fields) => {
            assert(decreases_to!(j => fields));
            assert(decreases_to!(fields => fields@));
        },
        _ => {},
    }
}

/// The length and elements of `jvals_of`, stated pointwise.
pub broadcast proof fn lemma_jvals_of(items: Seq<Json>)
    ensures
        (#[trigger] jvals_of(items)).len() == items.len(),
        forall|i: int| 0 <= i < items.len() ==> jvals_of(items)[i] == jval_of(items[i]),
    decreases items.len(),
{
    if items.len() > 0 {
        lemma_jvals_of(items.drop_first());
    }
}

/// The length and elements of `jflds_of`, stated pointwise.
pub broadcast proof fn lemma_jflds_of(fields: Seq<(String, Json)>)
    ensures
        (#[trigger] jflds_of(fields)).len() == fields.len(),
        forall|i: int| 0 <= i < fields.len() ==> jflds_of(fields)[i] == (
            fields[i].0@,
            jval_of(fields[i].1),
        ),
    decreases fields.len(),
{
    if fields.len() > 0 {
        lemma_jflds_of(fields.drop_first());
    }
}

impl View for Json {
    type V = JVal;

    open spec fn view(&self) -> JVal {
        jval_of(*self)
    }
}

/// The first binding of `key` among the fields of an object, if any.
pub open spec fn jfield(fields: Seq<(Seq<char>, JVal)>, key: Seq<char>) -> Option<JVal>
    decreases fields.len(),
{
    if fields.len() == 0 {
        None
    } else if fields[0].0 == key {
        Some(fields[0].1)
    } else {
        jfield(fields.drop_first(), key)
    }
}

/// The binding of `key` if the value is an object holding one.
pub open spec fn jget(j: JVal, key: Seq<char>) -> Option<JVal> {
    match j {
        JVal::Obj(fields) => jfield(fields, key),
        _ => None,
    }
}

/// The string under `key` if the value is an object binding `key` to a string.
pub open spec fn jget_str(j: JVal, key: Seq<char>) -> Option<Seq<char>> {
    match jget(j, key) {
        Some(JVal::Str(s)) => Some(s),
        _ => None,
    }
}

pub proof fn lemma_jfield_at(fields: Seq<(Seq<char>, JVal)>, key: Seq<char>, i: int)
    requires
        0 <= i < fields.len(),
        forall|k: int| 0 <= k < i ==> fields[k].0 != key,
        fields[i].0 == key,
    ensures
        jfield(fields, key) == Some(fields[i].1),
    decreases i,
{
    if i > 0 {
        lemma_jfield_at(fields.drop_first(), key, i - 1);
    }
}

pub proof fn lemma_jfield_absent(fields: Seq<(Seq<char>, JVal)>, key: Seq<char>)
    requires
        forall|k: int| 0 <= k < fields.len() ==> fields[k].0 != key,
    ensures
        jfield(fields, key) is None,
    decreases fields.len(),
{
    if fields.len() > 0 {
        lemma_jfield_absent(fields.drop_first(), key);
    }
}

/// The first field of an object decides its key's binding.
pub proof fn lemma_jfield_first(fields: Seq<(String, Json)>, key: Seq<char>)
    requires
        fields.len() > 0,
        fields[0].0@ == key,
    ensures
        jget(JVal::Obj(jflds_of(fields)), key) == Some(jval_of(fields[0].1)),
{
    lemma_jflds_of(fields);
    lemma_jfield_at(jflds_of(fields), key, 0);
}

impl Json {
    /// The binding of `key` if this value is an object holding one.
    #[verifier::loop_isolation(false)]
    pub fn get<'a>(&'a self, key: &str) -> (r: Option<&'a Json>)
        ensures
            match r {
                Some(v) => jget(self@, key@) == Some(v@),
                None => jget(self@, key@) is None,
            },
    {
        match self {
            Json::Obj(fields) => {
                let key_owned: String = key.to_owned();
                let ghost gfields = jflds_of(fields@);
                proof {
                    lemma_jflds_of(fields@);
                }
                let n = fields.len();
                let mut i: usize = 0;
                while i < n
                    invariant
                        n == fields@.len(),
                        gfields == jflds_of(fields@),
                        gfields.len() == n,
                        self@ == JVal::Obj(gfields),
                        i <= n,
                        forall|k: int| 0 <= k < i ==> gfields[k].0 != key@,
                    decreases n - i,
                {
                    proof {
                        lemma_jflds_of(fields@);
                    }
                    let pair = &fields[i];
                    if pair.0 == key_owned {
                        proof {
                            assert(gfields[i as int].0 == key@);
                            lemma_jfield_at(gfields, key@, i as int);
                        }
                        return Some(&pair.1);
                    }
                    proof {
                        assert(gfields[i as int].0 == fields@[i as int].0@);
                    }
                    i = i + 1;
                }
                proof {
                    lemma_jflds_of(fields@);
                    lemma_jfield_absent(gfields, key@);
                }
                None
            },
            _ => None,
        }
    }

    /// The string under `key` if this value is an object binding `key` to a
    /// string.
    pub fn get_str<'a>(&'a self, key: &str) -> (r: Option<&'a String>)
        ensures
            match r {
                Some(s) => jget_str(self@, key@) == Some(s@),
                None => jget_str(self@, key@) is None,
            },
    {
        match self.get(key) {
            Some(Json::Str(s)) => Some(s),
            _ => None,
        }
    }

    /// The unsigned integer under `key` if this value is an object binding
    /// `key` to one.
    pub fn get_uint(&self, key: &str) -> (r: Option<u64>)
        ensures
            match r {
                Some(u) => jget(self@, key@) == Some(JVal::Uint(u)),
                None => !(jget(self@, key@) matches Some(JVal::Uint(_))),
            },
    {
        match self.get(key) {
            Some(Json::Uint(u)) => Some(*u),
            _ => None,
        }
    }

    /// A copy of this value, equal to it.
    #[verifier::loop_isolation(false)]
    pub fn dup(&self) -> (r: Json)
        ensures
            r@ == self@,
        decreases *self,
    {
        match self {
            Json::Null => Json::Null,
            Json::Bool(b) => Json::Bool(*b),
            Json::Int(i) => Json::Int(*i),
            Json::Uint(u) => Json::Uint(*u),
            Json::Str(s) => Json::Str(s.clone()),
            Json::Arr(items) => {
                let mut out: Vec<Json> = Vec::new();
                let n = items.len();
                let mut i: usize = 0;
                while i < n
                    invariant
                        n == items@.len(),
                        i <= n,
                        out@.len() == i,
                        forall|k: int| 0 <= k < i ==> jval_of(#[trigger] out@[k]) == jval_of(
                            items@[k],
                        ),
                    decreases n - i,
                {
                    proof {
                        let jj = *self;
                        assert(jj == Json::Arr(*items));
                        assert(jj->Arr_0 == *items);
                        assert(decreases_to!(jj => jj->Arr_0));
                        assert(decreases_to!(*items => items@));
                        assert(decreases_to!(items@ => items@[i as int]));
                    }
                    let c = items[i].dup();
                    out.push(c);
                    i = i + 1;
                }
                let r = Json::Arr(out);
                proof {
                    lemma_jvals_of(out@);
                    lemma_jvals_of(items@);
                    assert(jvals_of(out@) =~= jvals_of(items@));
                }
                r
            },
            Json::Obj(fields) => {
                let mut out: Vec<(String, Json)> = Vec::new();
                let n = fields.len();
                let mut i: usize = 0;
                while i < n
                    invariant
                        n == fields@.len(),
                        i <= n,
                        out@.len() == i,
                        forall|k: int| 0 <= k < i ==> (#[trigger] out@[k]).0@ == fields@[k].0@
                            && jval_of(out@[k].1) == jval_of(fields@[k].1),
                    decreases n - i,
                {
                    proof {
                        let jj = *self;
                        assert(jj == Json::Obj(*fields));
                        assert(jj->Obj_0 == *fields);
                        assert(decreases_to!(jj => jj->Obj_0));
                        assert(decreases_to!(*fields => fields@));
                        assert(decreases_to!(fields@ => fields@[i as int]));
                        assert(decreases_to!(fields@[i as int] => fields@[i as int].1));
                    }
                    let pair = &fields[i];
                    let c = pair.1.dup();
                    out.push((pair.0.clone(), c));
                    i = i + 1;
                }
                let r = Json::Obj(out);
                proof {
                    lemma_jflds_of(out@);
                    lemma_jflds_of(fields@);
                    assert(jflds_of(out@) =~= jflds_of(fields@));
                }
                r
            },
        }
    }

    /// A string value made from a string slice.
    pub fn of_str(s: &str) -> (r: Json)
        ensures
            r@ == JVal::Str(s@),
    {
        Json::Str(s.to_owned())
    }
}

/// Whether two string slices hold the same characters.
pub fn str_eq(a: &str, b: &str) -> (r: bool)
    ensures
        r == (a@ == b@),
{
    let a_owned: String = a.to_owned();
    let b_owned: String = b.to_owned();
    a_owned == b_owned
}

/// An object of one field.
pub open spec fn jobj1(k: Seq<char>, v: JVal) -> JVal {
    JVal::Obj(seq![(k, v)])
}

/// An object of two fields.
pub open spec fn jobj2(k1: Seq<char>, v1: JVal, k2: Seq<char>, v2: JVal) -> JVal {
    JVal::Obj(seq![(k1, v1), (k2, v2)])
}

/// An object of three fields.
pub open spec fn jobj3(
    k1: Seq<char>,
    v1: JVal,
    k2: Seq<char>,
    v2: JVal,
    k3: Seq<char>,
    v3: JVal,
) -> JVal {
    JVal::Obj(seq![(k1, v1), (k2, v2), (k3, v3)])
}

/// Builds an object of one field.
pub fn mk_obj1(k: &str, v: Json) -> (r: Json)
    ensures
        r@ == jobj1(k@, v@),
{
    let fields: Vec<(String, Json)> = vec![(k.to_owned(), v)];
    let r = Json::Obj(fields);
    proof {
        lemma_jflds_of(fields@);
        assert(jflds_of(fields@) =~= seq![(k@, v@)]);
    }
    r
}

/// Builds an object of two fields.
pub fn mk_obj2(k1: &str, v1: Json, k2: &str, v2: Json) -> (r: Json)
    ensures
        r@ == jobj2(k1@, v1@, k2@, v2@),
{
    let fields: Vec<(String, Json)> = vec![(k1.to_owned(), v1), (k2.to_owned(), v2)];
    let r = Json::Obj(fields);
    proof {
        lemma_jflds_of(fields@);
        assert(jflds_of(fields@) =~= seq![(k1@, v1@), (k2@, v2@)]);
    }
    r
}

/// Builds an object of three fields.
pub fn mk_obj3(k1: &str, v1: Json, k2: &str, v2: Json, k3: &str, v3: Json) -> (r: Json)
    ensures
        r@ == jobj3(k1@, v1@, k2@, v2@, k3@, v3@),
{
    let fields: Vec<(String, Json)> = vec![
        (k1.to_owned(), v1),
        (k2.to_owned(), v2),
        (k3.to_owned(), v3),
    ];
    let r = Json::Obj(fields);
    proof {
        lemma_jflds_of(fields@);
        assert(jflds_of(fields@) =~= seq![(k1@, v1@), (k2@, v2@), (k3@, v3@)]);
    }
    r
}

} // verus!
