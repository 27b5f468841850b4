//! Requests to the local SDK bus, and building their JSON bodies.

use vstd::prelude::*;
use crate::json::{Json, JsonNumber, JsonV, NumV};
use crate::state::opt_view;

verus! {

/// One request to the local SDK bus.
#[derive(Debug)]
pub struct BusRequest {
    pub account_id: Option<String>,
    pub sdk_api: String,
    pub method: String,
    pub body: Json,
}

pub struct BusRequestV {
    pub account_id: Option<Seq<char>>,
    pub sdk_api: Seq<char>,
    pub method: Seq<char>,
    pub body: JsonV,
}

impl View for BusRequest {
    type V = BusRequestV;

    open spec fn view(&self) -> BusRequestV {
        BusRequestV {
            account_id: opt_view(self.account_id),
            sdk_api: self.sdk_api@,
            method: self.method@,
            body: self.body@,
        }
    }
}

pub open spec fn request_v(account: Seq<char>, api: Seq<char>, method: Seq<char>, body: JsonV) -> BusRequestV {
    BusRequestV { account_id: Some(account), sdk_api: api, method, body }
}

/// A request made as `account`.
pub fn request(account: &String, api: &str, method: &str, body: Json) -> (r: BusRequest)
    ensures
        r@ == request_v(account@, api@, method@, body@),
{
    BusRequest {
        account_id: Some(account.clone()),
        sdk_api: api.to_owned(),
        method: method.to_owned(),
        body,
    }
}

pub open spec fn entries_v(es: Seq<(String, Json)>) -> Seq<(Seq<char>, JsonV)> {
    es.map_values(|e: (String, Json)| (e.0@, e.1@))
}

/// A JSON object with the given members, in order.
pub fn object(entries: Vec<(String, Json)>) -> (r: Json)
    ensures
        r@ == JsonV::Object(entries_v(entries@)),
{
    let r = Json::Object(entries);
    proof {
        crate::json::lemma_object_view(entries);
        assert(r@->Object_0 =~= entries_v(entries@));
    }
    r
}

pub fn member(key: &str, value: Json) -> (r: (String, Json))
    ensures
        r.0@ == key@,
        r.1@ == value@,
{
    (key.to_owned(), value)
}

pub fn text(s: &str) -> (r: Json)
    ensures
        r@ == JsonV::Str(s@),
{
    Json::Str(s.to_owned())
}

pub open spec fn opt_text_v(o: Option<Seq<char>>) -> JsonV {
    match o {
        Some(s) => JsonV::Str(s),
        None => JsonV::Null,
    }
}

pub fn opt_text(o: &Option<String>) -> (r: Json)
    ensures
        r@ == opt_text_v(opt_view(*o)),
{
    match o {
        Some(s) => Json::Str(s.clone()),
        None => Json::Null,
    }
}

pub open spec fn uint_v(n: u64) -> JsonV {
    JsonV::Number(NumV::PosInt(n))
}

pub fn uint(n: u64) -> (r: Json)
    ensures
        r@ == uint_v(n),
{
    Json::Number(JsonNumber::PosInt(n))
}

/// A signed integer as JSON: non-negative ones as unsigned numbers.
pub open spec fn int_v(n: i64) -> JsonV {
    if n >= 0 {
        JsonV::Number(NumV::PosInt(n as u64))
    } else {
        JsonV::Number(NumV::NegInt(n))
    }
}

pub fn signed(n: i64) -> (r: Json)
    ensures
        r@ == int_v(n),
{
    if n >= 0 {
        Json::Number(JsonNumber::PosInt(n as u64))
    } else {
        Json::Number(JsonNumber::NegInt(n))
    }
}

pub open spec fn opt_int_v(o: Option<i64>) -> JsonV {
    match o {
        Some(n) => int_v(n),
        None => JsonV::Null,
    }
}

pub fn opt_int(o: Option<i64>) -> (r: Json)
    ensures
        r@ == opt_int_v(o),
{
    match o {
        Some(n) => signed(n),
        None => Json::Null,
    }
}

pub open spec fn opt_uint_v(o: Option<u64>) -> JsonV {
    match o {
        Some(n) => uint_v(n),
        None => JsonV::Null,
    }
}

pub fn opt_uint(o: Option<u64>) -> (r: Json)
    ensures
        r@ == opt_uint_v(o),
{
    match o {
        Some(n) => uint(n),
        None => Json::Null,
    }
}

pub fn empty_object() -> (r: Json)
    ensures
        r@ == JsonV::Object(Seq::empty()),
{
    let r = object(Vec::new());
    assert(entries_v(Seq::<(String, Json)>::empty()) =~= Seq::empty());
    r
}

} // verus!
