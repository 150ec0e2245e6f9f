//! The two value representations that meet at the sandbox boundary.
//!
//! `HostValue` is the host's structured data: a JSON-like tree of null,
//! booleans, integers, strings, ordered lists and ordered string-keyed
//! records. `GuestValue` models the sandbox's native values as far as the
//! host's decisions read them: the same shapes, plus `Undefined` and an
//! opaque `Function` marker for invocable values.
//!
//! Numbers: the scripting side's numbers are floating point; this model
//! carries integers and is exact for every integer within the sandbox's
//! safe-integer range (|n| <= 2^53). Outside that range the real engine
//! rounds, which is a documented precision limitation of the bridge, not
//! something the bridge repairs.

use vstd::prelude::*;

verus! {

/// Mathematical image of a host value: a JSON-like tree over mathematical
/// integers and character sequences.
pub enum JsonData {
    Null,
    Bool(bool),
    Int(int),
    Str(Seq<char>),
    Arr(Seq<JsonData>),
    Obj(Seq<(Seq<char>, JsonData)>),
}

/// A host-side JSON-like value: the payload of an invocation and the result
/// reported back to the platform.
#[derive(Debug, PartialEq, Eq)]
pub enum HostValue {
    Null,
    Bool(bool),
    Int(i64),
    Str(String),
    Arr(Vec<HostValue>),
    Obj(Vec<(String, HostValue)>),
}

/// Mathematical image of a sandbox value.
pub enum GuestData {
    Undefined,
    Null,
    Bool(bool),
    Num(int),
    Str(Seq<char>),
    Arr(Seq<GuestData>),
    Obj(Seq<(Seq<char>, GuestData)>),
    Function,
}

/// A sandbox-side value as the host observes it: what crosses the bridge
/// into the sandbox, and what a script call returns or throws. `Function`
/// stands for any invocable value; the host never looks inside one.
#[derive(Debug, PartialEq, Eq)]
pub enum GuestValue {
    Undefined,
    Null,
    Bool(bool),
    Num(i64),
    Str(String),
    Arr(Vec<GuestValue>),
    Obj(Vec<(String, GuestValue)>),
    Function,
}

/// The mathematical image of a host value.
pub open spec fn host_data(v: HostValue) -> JsonData
    decreases v,
{
    match v {
        HostValue::Null => JsonData::Null,
        HostValue::Bool(b) => JsonData::Bool(b),
        HostValue::Int(i) => JsonData::Int(i as int),
        HostValue::Str(s) => JsonData::Str(s@),
        HostValue::Arr(xs) => JsonData::Arr(host_data_elems(xs@)),
        HostValue::Obj(fs) => JsonData::Obj(host_data_fields(fs@)),
    }
}

/// Element-wise image of a sequence of host values.
pub open spec fn host_data_elems(s: Seq<HostValue>) -> Seq<JsonData>
    decreases s,
{
    if s.len() == 0 {
        Seq::empty()
    } else {
        host_data_elems(s.subrange(0, s.len() - 1)).push(host_data(s[s.len() - 1]))
    }
}

/// Field-wise image of a sequence of named host values.
pub open spec fn host_data_fields(s: Seq<(String, HostValue)>) -> Seq<(Seq<char>, JsonData)>
    decreases s,
{
    if s.len() == 0 {
        Seq::empty()
    } else {
        host_data_fields(s.subrange(0, s.len() - 1)).push(
            (s[s.len() - 1].0@, host_data(s[s.len() - 1].1)),
        )
    }
}

impl View for HostValue {
    type V = JsonData;

    open spec fn view(&self) -> JsonData {
        host_data(*self)
    }
}

/// The mathematical image of a guest value.
pub open spec fn guest_data(v: GuestValue) -> GuestData
    decreases v,
{
    match v {
        GuestValue::Undefined => GuestData::Undefined,
        GuestValue::Null => GuestData::Null,
        GuestValue::Bool(b) => GuestData::Bool(b),
        GuestValue::Num(i) => GuestData::Num(i as int),
        GuestValue::Str(s) => GuestData::Str(s@),
        GuestValue::Arr(xs) => GuestData::Arr(guest_data_elems(xs@)),
        GuestValue::Obj(fs) => GuestData::Obj(guest_data_fields(fs@)),
        GuestValue::Function => GuestData::Function,
    }
}

/// Element-wise image of a sequence of guest values.
pub open spec fn guest_data_elems(s: Seq<GuestValue>) -> Seq<GuestData>
    decreases s,
{
    if s.len() == 0 {
        Seq::empty()
    } else {
        guest_data_elems(s.subrange(0, s.len() - 1)).push(guest_data(s[s.len() - 1]))
    }
}

/// Field-wise image of a sequence of named guest values.
pub open spec fn guest_data_fields(s: Seq<(String, GuestValue)>) -> Seq<(Seq<char>, GuestData)>
    decreases s,
{
    if s.len() == 0 {
        Seq::empty()
    } else {
        guest_data_fields(s.subrange(0, s.len() - 1)).push(
            (s[s.len() - 1].0@, guest_data(s[s.len() - 1].1)),
        )
    }
}

impl View for GuestValue {
    type V = GuestData;

    open spec fn view(&self) -> GuestData {
        guest_data(*self)
    }
}

/// The largest integer magnitude the sandbox's number type represents
/// exactly: 2^53.
pub const SAFE_INTEGER_BOUND: u64 = 0x20_0000_0000_0000;

/// Whether every integer in the tree lies within the sandbox's safe-integer
/// range, so that the bridge is exact on it.
pub open spec fn ints_in_safe_range(d: JsonData) -> bool
    decreases d,
{
    match d {
        JsonData::Null => true,
        JsonData::Bool(_) => true,
        JsonData::Int(i) => -(SAFE_INTEGER_BOUND as int) <= i <= SAFE_INTEGER_BOUND as int,
        JsonData::Str(_) => true,
        JsonData::Arr(xs) => forall|i: int| 0 <= i < xs.len() ==> ints_in_safe_range(#[trigger] xs[i]),
        JsonData::Obj(fs) => forall|i: int|
            0 <= i < fs.len() ==> ints_in_safe_range(#[trigger] fs[i].1),
    }
}

/// The image of a host value list is element-wise.
pub proof fn lemma_host_data_elems(s: Seq<HostValue>)
    ensures
        host_data_elems(s).len() == s.len(),
        forall|i: int| 0 <= i < s.len() ==> host_data_elems(s)[i] == host_data(s[i]),
    decreases s.len(),
{
    if s.len() > 0 {
        let pre = s.subrange(0, s.len() - 1);
        lemma_host_data_elems(pre);
        assert forall|i: int| 0 <= i < s.len() implies host_data_elems(s)[i] == host_data(s[i]) by {
            if i < s.len() - 1 {
                assert(pre[i] == s[i]);
            }
        }
    }
}

/// The image of a host field list is field-wise.
pub proof fn lemma_host_data_fields(s: Seq<(String, HostValue)>)
    ensures
        host_data_fields(s).len() == s.len(),
        forall|i: int|
            0 <= i < s.len() ==> host_data_fields(s)[i] == (s[i].0@, host_data(s[i].1)),
    decreases s.len(),
{
    if s.len() > 0 {
        let pre = s.subrange(0, s.len() - 1);
        lemma_host_data_fields(pre);
        assert forall|i: int|
            0 <= i < s.len() implies host_data_fields(s)[i] == (s[i].0@, host_data(s[i].1)) by {
            if i < s.len() - 1 {
                assert(pre[i] == s[i]);
            }
        }
    }
}

/// The image of a guest value list is element-wise.
pub proof fn lemma_guest_data_elems(s: Seq<GuestValue>)
    ensures
        guest_data_elems(s).len() == s.len(),
        forall|i: int| 0 <= i < s.len() ==> guest_data_elems(s)[i] == guest_data(s[i]),
    decreases s.len(),
{
    if s.len() > 0 {
        let pre = s.subrange(0, s.len() - 1);
        lemma_guest_data_elems(pre);
        assert forall|i: int| 0 <= i < s.len() implies guest_data_elems(s)[i] == guest_data(s[i]) by {
            if i < s.len() - 1 {
                assert(pre[i] == s[i]);
            }
        }
    }
}

/// The image of a guest field list is field-wise.
pub proof fn lemma_guest_data_fields(s: Seq<(String, GuestValue)>)
    ensures
        guest_data_fields(s).len() == s.len(),
        forall|i: int|
            0 <= i < s.len() ==> guest_data_fields(s)[i] == (s[i].0@, guest_data(s[i].1)),
    decreases s.len(),
{
    if s.len() > 0 {
        let pre = s.subrange(0, s.len() - 1);
        lemma_guest_data_fields(pre);
        assert forall|i: int|
            0 <= i < s.len() implies guest_data_fields(s)[i] == (s[i].0@, guest_data(s[i].1)) by {
            if i < s.len() - 1 {
                assert(pre[i] == s[i]);
            }
        }
    }
}

/// Looks a name up in an ordered field list; the latest binding of the name
/// wins, matching how repeated assignments to one property settle.
pub open spec fn field_lookup(fs: Seq<(Seq<char>, GuestData)>, name: Seq<char>) -> Option<GuestData>
    decreases fs.len(),
{
    if fs.len() == 0 {
        None
    } else if fs[fs.len() - 1].0 == name {
        Some(fs[fs.len() - 1].1)
    } else {
        field_lookup(fs.drop_last(), name)
    }
}

} // verus!
