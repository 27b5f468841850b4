//! A JSON document model held as plain values, with the accessors the
//! client reads responses through.

use vstd::prelude::*;
use crate::text::str_eq;
use crate::state::views;

verus! {

/// A JSON number as carried on the local bus: a non-negative integer, a
/// negative integer, or any other number kept as its decimal text.
#[derive(Debug)]
pub enum JsonNumber {
    PosInt(u64),
    NegInt(i64),
    Float(String),
}

/// A JSON value. Object members keep their order.
#[derive(Debug)]
pub enum Json {
    Null,
    Bool(bool),
    Number(JsonNumber),
    Str(String),
    Array(Vec<Json>),
    Object(Vec<(String, Json)>),
}

/// Mathematical model of a JSON number.
pub enum NumV {
    PosInt(u64),
    NegInt(i64),
    Float(Seq<char>),
}

/// Mathematical model of a JSON value.
pub enum JsonV {
    Null,
    Bool(bool),
    Number(NumV),
    Str(Seq<char>),
    Array(Seq<JsonV>),
    Object(Seq<(Seq<char>, JsonV)>),
}

pub open spec fn num_view(n: JsonNumber) -> NumV {
    match n {
        JsonNumber::PosInt(u) => NumV::PosInt(u),
        JsonNumber::NegInt(i) => NumV::NegInt(i),
        JsonNumber::Float(s) => NumV::Float(s@),
    }
}

pub open spec fn json_view(j: Json) -> JsonV
    decreases j,
{
    match j {
        Json::Null => JsonV::Null,
        Json::Bool(b) => JsonV::Bool(b),
        Json::Number(n) => JsonV::Number(num_view(n)),
        Json::Str(s) => JsonV::Str(s@),
        Json::Array(v) => JsonV::Array(
            Seq::new(
                v.len() as nat,
                |i: int|
                    if 0 <= i < v.len() {
                        json_view(v[i])
                    } else {
                        JsonV::Null
                    },
            ),
        ),
        Json::Object(v) => JsonV::Object(
            Seq::new(
                v.len() as nat,
                |i: int|
                    if 0 <= i < v.len() {
                        (v[i].0@, json_view(v[i].1))
                    } else {
                        (Seq::empty(), JsonV::Null)
                    },
            ),
        ),
    }
}

impl View for Json {
    type V = JsonV;

    open spec fn view(&self) -> JsonV {
        json_view(*self)
    }
}

pub open spec fn opt_json_view(o: Option<&Json>) -> Option<JsonV> {
    match o {
        Some(j) => Some(j@),
        None => None,
    }
}

/// The value of the first member named `k`.
pub open spec fn obj_lookup(es: Seq<(Seq<char>, JsonV)>, k: Seq<char>) -> Option<JsonV>
    decreases es.len(),
{
    if es.len() == 0 {
        None
    } else if es[0].0 == k {
        Some(es[0].1)
    } else {
        obj_lookup(es.drop_first(), k)
    }
}

/// `value[key]` for an object, nothing for any other value.
pub open spec fn jget(j: JsonV, k: Seq<char>) -> Option<JsonV> {
    match j {
        JsonV::Object(es) => obj_lookup(es, k),
        _ => None,
    }
}

/// `value[a][b]`.
pub open spec fn jget2(j: JsonV, a: Seq<char>, b: Seq<char>) -> Option<JsonV> {
    match jget(j, a) {
        Some(inner) => jget(inner, b),
        None => None,
    }
}

pub open spec fn jstr(j: Option<JsonV>) -> Option<Seq<char>> {
    match j {
        Some(JsonV::Str(s)) => Some(s),
        _ => None,
    }
}

/// The items of an array, or no items for anything else.
pub open spec fn jitems(j: Option<JsonV>) -> Seq<JsonV> {
    match j {
        Some(JsonV::Array(a)) => a,
        _ => Seq::empty(),
    }
}

pub open spec fn is_jarray(j: Option<JsonV>) -> bool {
    j matches Some(JsonV::Array(_))
}

pub open spec fn ju64(j: Option<JsonV>) -> Option<u64> {
    match j {
        Some(JsonV::Number(NumV::PosInt(u))) => Some(u),
        _ => None,
    }
}

pub open spec fn ji64(j: Option<JsonV>) -> Option<i64> {
    match j {
        Some(JsonV::Number(NumV::PosInt(u))) => if u <= i64::MAX {
            Some(u as i64)
        } else {
            None
        },
        Some(JsonV::Number(NumV::NegInt(i))) => Some(i),
        _ => None,
    }
}

pub open spec fn jbool(j: Option<JsonV>) -> Option<bool> {
    match j {
        Some(JsonV::Bool(b)) => Some(b),
        _ => None,
    }
}

/// The text of member `f`, or `d` when it is missing or not text.
pub open spec fn sfield(v: JsonV, f: Seq<char>, d: Seq<char>) -> Seq<char> {
    match jstr(jget(v, f)) {
        Some(s) => s,
        None => d,
    }
}

/// The text items of an array member, others skipped.
pub open spec fn str_items(items: Seq<JsonV>) -> Seq<Seq<char>>
    decreases items.len(),
{
    if items.len() == 0 {
        Seq::empty()
    } else {
        let rest = str_items(items.drop_last());
        match items.last() {
            JsonV::Str(s) => rest.push(s),
            _ => rest,
        }
    }
}


/// A member found by name is one of the object's members.
pub proof fn lemma_lookup_in(es: Seq<(Seq<char>, JsonV)>, k: Seq<char>)
    ensures
        obj_lookup(es, k) matches Some(v) ==> exists|i: int| 0 <= i < es.len() && es[i].1 == v,
    decreases es.len(),
{
    if es.len() > 0 && es[0].0 != k {
        lemma_lookup_in(es.drop_first(), k);
        if obj_lookup(es, k) is Some {
            let i = choose|i: int|
                0 <= i < es.drop_first().len() && es.drop_first()[i].1 == obj_lookup(es, k)->0;
            assert(es[i + 1].1 == obj_lookup(es, k)->0);
        }
    }
}

proof fn lemma_lookup_skip(es: Seq<(Seq<char>, JsonV)>, k: Seq<char>, i: int)
    requires
        0 <= i < es.len(),
        es[i].0 != k,
    ensures
        obj_lookup(es.skip(i), k) == obj_lookup(es.skip(i + 1), k),
{
    assert(es.skip(i).drop_first() =~= es.skip(i + 1));
}

impl JsonNumber {
    pub fn copy(&self) -> (r: JsonNumber)
        ensures
            num_view(r) == num_view(*self),
    {
        match self {
            JsonNumber::PosInt(u) => JsonNumber::PosInt(*u),
            JsonNumber::NegInt(i) => JsonNumber::NegInt(*i),
            JsonNumber::Float(s) => JsonNumber::Float(s.clone()),
        }
    }
}

/// The position of the first member named `key`.
pub fn find_member(entries: &Vec<(String, Json)>, key: &str) -> (r: Option<usize>)
    ensures
        match r {
            Some(k) => k < entries.len() && obj_lookup(
                Seq::new(entries.len() as nat, |i: int| (entries[i].0@, entries[i].1@)),
                key@,
            ) == Some(entries[k as int].1@),
            None => obj_lookup(
                Seq::new(entries.len() as nat, |i: int| (entries[i].0@, entries[i].1@)),
                key@,
            ) is None,
        },
{
    let ghost es = Seq::new(entries.len() as nat, |i: int| (entries[i].0@, entries[i].1@));
    assert(es.skip(0) =~= es);
    let mut i: usize = 0;
    while i < entries.len()
        invariant
            0 <= i <= entries.len(),
            es == Seq::new(entries.len() as nat, |i: int| (entries[i].0@, entries[i].1@)),
            obj_lookup(es, key@) == obj_lookup(es.skip(i as int), key@),
        decreases entries.len() - i,
    {
        if str_eq(entries[i].0.as_str(), key) {
            assert(es.skip(i as int)[0] == es[i as int]);
            return Some(i);
        }
        proof {
            lemma_lookup_skip(es, key@, i as int);
        }
        i = i + 1;
    }
    assert(es.skip(i as int).len() == 0);
    None
}

pub proof fn lemma_object_view(entries: Vec<(String, Json)>)
    ensures
        json_view(Json::Object(entries)) == JsonV::Object(
            Seq::new(entries.len() as nat, |i: int| (entries[i].0@, entries[i].1@)),
        ),
{
    assert(json_view(Json::Object(entries))->Object_0 =~= Seq::new(
        entries.len() as nat,
        |i: int| (entries[i].0@, entries[i].1@),
    ));
}

pub proof fn lemma_array_view(items: Vec<Json>)
    ensures
        json_view(Json::Array(items)) == JsonV::Array(items@.map_values(|x: Json| x@)),
{
    assert(json_view(Json::Array(items))->Array_0 =~= items@.map_values(|x: Json| x@));
}

impl Json {
    /// `self[key]` on an object.
    pub fn get(&self, key: &str) -> (r: Option<&Json>)
        ensures
            opt_json_view(r) == jget(self@, key@),
    {
        match self {
            Json::Object(entries) => {
                let ghost es = self@->Object_0;
                assert(es.skip(0) =~= es);
                let mut i: usize = 0;
                while i < entries.len()
                    invariant
                        0 <= i <= entries.len(),
                        es.len() == entries.len(),
                        self@ == JsonV::Object(es),
                        *self == Json::Object(*entries),
                        forall|j: int| 0 <= j < es.len() ==> #[trigger] es[j] == (entries[j].0@, entries[j].1@),
                        obj_lookup(es, key@) == obj_lookup(es.skip(i as int), key@),
                    decreases entries.len() - i,
                {
                    if str_eq(entries[i].0.as_str(), key) {
                        return Some(&entries[i].1);
                    }
                    proof {
                        lemma_lookup_skip(es, key@, i as int);
                    }
                    i = i + 1;
                }
                assert(es.skip(i as int).len() == 0);
                None
            },
            _ => None,
        }
    }

    /// `self[a][b]`.
    pub fn get2(&self, a: &str, b: &str) -> (r: Option<&Json>)
        ensures
            opt_json_view(r) == jget2(self@, a@, b@),
    {
        match self.get(a) {
            Some(inner) => inner.get(b),
            None => None,
        }
    }

    pub fn as_str(&self) -> (r: Option<&String>)
        ensures
            match r {
                Some(s) => jstr(Some(self@)) == Some(s@),
                None => jstr(Some(self@)) is None,
            },
    {
        match self {
            Json::Str(s) => Some(s),
            _ => None,
        }
    }

    pub fn as_array(&self) -> (r: Option<&Vec<Json>>)
        ensures
            r is Some == is_jarray(Some(self@)),
            r matches Some(v) ==> v@.map_values(|x: Json| x@) == jitems(Some(self@)),
    {
        match self {
            Json::Array(v) => {
                assert(v@.map_values(|x: Json| x@) =~= jitems(Some(self@)));
                Some(v)
            },
            _ => None,
        }
    }

    pub fn as_u64(&self) -> (r: Option<u64>)
        ensures
            r == ju64(Some(self@)),
    {
        match self {
            Json::Number(JsonNumber::PosInt(u)) => Some(*u),
            _ => None,
        }
    }

    pub fn as_i64(&self) -> (r: Option<i64>)
        ensures
            r == ji64(Some(self@)),
    {
        match self {
            Json::Number(JsonNumber::PosInt(u)) => if *u <= 9223372036854775807u64 {
                Some(*u as i64)
            } else {
                None
            },
            Json::Number(JsonNumber::NegInt(i)) => Some(*i),
            _ => None,
        }
    }

    pub fn as_bool(&self) -> (r: Option<bool>)
        ensures
            r == jbool(Some(self@)),
    {
        match self {
            Json::Bool(b) => Some(*b),
            _ => None,
        }
    }

    /// A copy of the value.
    pub fn copy(&self) -> (r: Json)
        ensures
            r@ == self@,
        decreases self,
    {
        match self {
            Json::Null => Json::Null,
            Json::Bool(b) => Json::Bool(*b),
            Json::Number(n) => Json::Number(n.copy()),
            Json::Str(s) => Json::Str(s.clone()),
            Json::Array(v) => {
                let mut out: Vec<Json> = Vec::new();
                let mut i: usize = 0;
                while i < v.len()
                    invariant
                        0 <= i <= v.len(),
                        out.len() == i,
                        *self == Json::Array(*v),
                        forall|j: int| 0 <= j < i ==> #[trigger] out[j]@ == v[j]@,
                    decreases v.len() - i,
                {
                    proof {
                        vstd::std_specs::vec::axiom_vec_index_decreases(*v, i as int);
                        assert((*self)->Array_0 == *v);
                        assert(decreases_to!(*self => (*self)->Array_0));
                    }
                    let c = v[i].copy();
                    out.push(c);
                    i = i + 1;
                }
                let r = Json::Array(out);
                assert(r@->Array_0 =~= self@->Array_0) by {
                    assert forall|j: int| 0 <= j < out.len() implies r@->Array_0[j] == self@->Array_0[j] by {
                        assert(out[j]@ == v[j]@);
                    }
                }
                r
            },
            Json::Object(v) => {
                let mut out: Vec<(String, Json)> = Vec::new();
                let mut i: usize = 0;
                while i < v.len()
                    invariant
                        0 <= i <= v.len(),
                        out.len() == i,
                        *self == Json::Object(*v),
                        forall|j: int|
                            #![trigger out[j]]
                            0 <= j < i ==> out[j].0@ == v[j].0@ && out[j].1@ == v[j].1@,
                    decreases v.len() - i,
                {
                    proof {
                        vstd::std_specs::vec::axiom_vec_index_decreases(*v, i as int);
                        assert((*self)->Object_0 == *v);
                        assert(decreases_to!(*self => (*self)->Object_0));
                        assert(decreases_to!(v[i as int] => v[i as int].1));
                    }
                    let c = v[i].1.copy();
                    out.push((v[i].0.clone(), c));
                    i = i + 1;
                }
                let r = Json::Object(out);
                assert(r@->Object_0 =~= self@->Object_0) by {
                    assert forall|j: int| 0 <= j < out.len() implies r@->Object_0[j] == self@->Object_0[j] by {
                        assert(out[j].0@ == v[j].0@ && out[j].1@ == v[j].1@);
                    }
                }
                r
            },
        }
    }
}

/// The text of member `field`, or `default` when it is missing or not text.
pub fn string_field(value: &Json, field: &str, default: &str) -> (r: String)
    ensures
        r@ == sfield(value@, field@, default@),
{
    match value.get(field) {
        Some(v) => match v.as_str() {
            Some(s) => s.clone(),
            None => default.to_owned(),
        },
        None => default.to_owned(),
    }
}

/// The text items of the array `items`, in order, others skipped.
pub fn collect_strings(items: &Vec<Json>) -> (r: Vec<String>)
    ensures
        views(r@) == str_items(items@.map_values(|x: Json| x@)),
{
    let ghost iv = items@.map_values(|x: Json| x@);
    let mut out: Vec<String> = Vec::new();
    let mut i: usize = 0;
    while i < items.len()
        invariant
            0 <= i <= items.len(),
            iv == items@.map_values(|x: Json| x@),
            views(out@) == str_items(iv.take(i as int)),
        decreases items.len() - i,
    {
        assert(iv.take(i as int + 1).drop_last() =~= iv.take(i as int));
        assert(iv.take(i as int + 1).last() == items@[i as int]@);
        match items[i].as_str() {
            Some(s) => {
                let ghost prev = out@;
                out.push(s.clone());
                assert(views(out@) =~= views(prev).push(s@));
            },
            None => {},
        }
        i = i + 1;
    }
    assert(iv.take(items.len() as int) =~= iv);
    out
}

} // verus!
