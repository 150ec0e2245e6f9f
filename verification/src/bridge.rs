//! The value bridge: a pure, deep, ownership-transferring conversion
//! between host data and sandbox values, one direction each way.
//!
//! Host to sandbox: null maps to the sandbox's null, booleans, integers and
//! strings map to their sandbox counterparts, lists map element-wise to
//! arrays, records map field-wise to plain objects.
//!
//! Sandbox to host: `Undefined` joins null on the way back, and any value
//! the host data model cannot represent (an invocable value) maps to an
//! explicit marker string rather than disappearing silently.

use vstd::prelude::*;
use vstd::string::StringExecFns;

use crate::value::{
    guest_data, guest_data_elems, guest_data_fields, host_data, host_data_elems, host_data_fields,
    ints_in_safe_range, lemma_guest_data_elems, lemma_guest_data_fields, lemma_host_data_elems,
    lemma_host_data_fields, GuestData, GuestValue, HostValue, JsonData,
};

verus! {

/// The marker a value bridges to when the host data model cannot represent
/// it (an invocable sandbox value).
pub open spec fn unrepresentable_marker() -> Seq<char> {
    "<unrepresentable>"@
}

/// The image of a host value on the sandbox side of the bridge.
pub open spec fn bridged_in(d: JsonData) -> GuestData
    decreases d,
{
    match d {
        JsonData::Null => GuestData::Null,
        JsonData::Bool(b) => GuestData::Bool(b),
        JsonData::Int(i) => GuestData::Num(i),
        JsonData::Str(s) => GuestData::Str(s),
        JsonData::Arr(xs) => GuestData::Arr(bridged_in_elems(xs)),
        JsonData::Obj(fs) => GuestData::Obj(bridged_in_fields(fs)),
    }
}

/// Element-wise inward bridge.
pub open spec fn bridged_in_elems(s: Seq<JsonData>) -> Seq<GuestData>
    decreases s,
{
    if s.len() == 0 {
        Seq::empty()
    } else {
        bridged_in_elems(s.subrange(0, s.len() - 1)).push(bridged_in(s[s.len() - 1]))
    }
}

/// Field-wise inward bridge.
pub open spec fn bridged_in_fields(s: Seq<(Seq<char>, JsonData)>) -> Seq<(Seq<char>, GuestData)>
    decreases s,
{
    if s.len() == 0 {
        Seq::empty()
    } else {
        bridged_in_fields(s.subrange(0, s.len() - 1)).push(
            (s[s.len() - 1].0, bridged_in(s[s.len() - 1].1)),
        )
    }
}

/// The image of a sandbox value on the host side of the bridge.
pub open spec fn bridged_out(d: GuestData) -> JsonData
    decreases d,
{
    match d {
        GuestData::Undefined => JsonData::Null,
        GuestData::Null => JsonData::Null,
        GuestData::Bool(b) => JsonData::Bool(b),
        GuestData::Num(i) => JsonData::Int(i),
        GuestData::Str(s) => JsonData::Str(s),
        GuestData::Arr(xs) => JsonData::Arr(bridged_out_elems(xs)),
        GuestData::Obj(fs) => JsonData::Obj(bridged_out_fields(fs)),
        GuestData::Function => JsonData::Str(unrepresentable_marker()),
    }
}

/// Element-wise outward bridge.
pub open spec fn bridged_out_elems(s: Seq<GuestData>) -> Seq<JsonData>
    decreases s,
{
    if s.len() == 0 {
        Seq::empty()
    } else {
        bridged_out_elems(s.subrange(0, s.len() - 1)).push(bridged_out(s[s.len() - 1]))
    }
}

/// Field-wise outward bridge.
pub open spec fn bridged_out_fields(s: Seq<(Seq<char>, GuestData)>) -> Seq<(Seq<char>, JsonData)>
    decreases s,
{
    if s.len() == 0 {
        Seq::empty()
    } else {
        bridged_out_fields(s.subrange(0, s.len() - 1)).push(
            (s[s.len() - 1].0, bridged_out(s[s.len() - 1].1)),
        )
    }
}

/// The inward bridge of a list is element-wise.
pub proof fn lemma_bridged_in_elems(s: Seq<JsonData>)
    ensures
        bridged_in_elems(s).len() == s.len(),
        forall|i: int| 0 <= i < s.len() ==> bridged_in_elems(s)[i] == bridged_in(s[i]),
    decreases s.len(),
{
    if s.len() > 0 {
        let pre = s.subrange(0, s.len() - 1);
        lemma_bridged_in_elems(pre);
        assert forall|i: int| 0 <= i < s.len() implies bridged_in_elems(s)[i] == bridged_in(s[i]) by {
            if i < s.len() - 1 {
                assert(pre[i] == s[i]);
            }
        }
    }
}

/// The inward bridge of a record is field-wise.
pub proof fn lemma_bridged_in_fields(s: Seq<(Seq<char>, JsonData)>)
    ensures
        bridged_in_fields(s).len() == s.len(),
        forall|i: int|
            0 <= i < s.len() ==> bridged_in_fields(s)[i] == (s[i].0, bridged_in(s[i].1)),
    decreases s.len(),
{
    if s.len() > 0 {
        let pre = s.subrange(0, s.len() - 1);
        lemma_bridged_in_fields(pre);
        assert forall|i: int|
            0 <= i < s.len() implies bridged_in_fields(s)[i] == (s[i].0, bridged_in(s[i].1)) by {
            if i < s.len() - 1 {
                assert(pre[i] == s[i]);
            }
        }
    }
}

/// The outward bridge of a list is element-wise.
pub proof fn lemma_bridged_out_elems(s: Seq<GuestData>)
    ensures
        bridged_out_elems(s).len() == s.len(),
        forall|i: int| 0 <= i < s.len() ==> bridged_out_elems(s)[i] == bridged_out(s[i]),
    decreases s.len(),
{
    if s.len() > 0 {
        let pre = s.subrange(0, s.len() - 1);
        lemma_bridged_out_elems(pre);
        assert forall|i: int|
            0 <= i < s.len() implies bridged_out_elems(s)[i] == bridged_out(s[i]) by {
            if i < s.len() - 1 {
                assert(pre[i] == s[i]);
            }
        }
    }
}

/// The outward bridge of a record is field-wise.
pub proof fn lemma_bridged_out_fields(s: Seq<(Seq<char>, GuestData)>)
    ensures
        bridged_out_fields(s).len() == s.len(),
        forall|i: int|
            0 <= i < s.len() ==> bridged_out_fields(s)[i] == (s[i].0, bridged_out(s[i].1)),
    decreases s.len(),
{
    if s.len() > 0 {
        let pre = s.subrange(0, s.len() - 1);
        lemma_bridged_out_fields(pre);
        assert forall|i: int|
            0 <= i < s.len() implies bridged_out_fields(s)[i] == (s[i].0, bridged_out(s[i].1)) by {
            if i < s.len() - 1 {
                assert(pre[i] == s[i]);
            }
        }
    }
}

/// Bridging a host value into the sandbox and back yields the same value:
/// the round trip is the identity on every host value whose integers stay
/// within the sandbox's safe-integer range. (Beyond that range the real
/// engine's number type rounds, which this model documents rather than
/// repairs; host values contain no unrepresentable variants, so no other
/// exception arises.)
pub proof fn lemma_bridge_round_trip(d: JsonData)
    requires
        ints_in_safe_range(d),
    ensures
        bridged_out(bridged_in(d)) == d,
    decreases d,
{
    match d {
        JsonData::Arr(xs) => {
            lemma_bridged_in_elems(xs);
            lemma_bridged_out_elems(bridged_in_elems(xs));
            assert forall|i: int|
                0 <= i < xs.len() implies bridged_out_elems(bridged_in_elems(xs))[i] == xs[i] by {
                assert(ints_in_safe_range(xs[i]));
                lemma_bridge_round_trip(xs[i]);
            }
            assert(bridged_out_elems(bridged_in_elems(xs)) =~= xs);
        }
        JsonData::Obj(fs) => {
            lemma_bridged_in_fields(fs);
            lemma_bridged_out_fields(bridged_in_fields(fs));
            assert forall|i: int|
                0 <= i < fs.len() implies bridged_out_fields(bridged_in_fields(fs))[i] == fs[i] by {
                assert(ints_in_safe_range(fs[i].1));
                lemma_bridge_round_trip(fs[i].1);
            }
            assert(bridged_out_fields(bridged_in_fields(fs)) =~= fs);
        }
        _ => {}
    }
}

/// Bridges a host value into its sandbox representation: a deep copy with
/// no identity or reference shared across the boundary.
#[verifier::loop_isolation(false)]
pub fn bridge_to_guest(v: &HostValue) -> (r: GuestValue)
    ensures
        r@ == bridged_in(v@),
    decreases v,
{
    match v {
        HostValue::Null => GuestValue::Null,
        HostValue::Bool(b) => GuestValue::Bool(*b),
        HostValue::Int(i) => GuestValue::Num(*i),
        HostValue::Str(s) => GuestValue::Str(s.clone()),
        HostValue::Arr(xs) => {
            let mut out: Vec<GuestValue> = Vec::new();
            let mut k: usize = 0;
            while k < xs.len()
                invariant
                    k <= xs.len(),
                    out@.len() == k,
                    forall|i: int| 0 <= i < k ==> out@[i]@ == bridged_in(host_data(xs@[i])),
                decreases xs.len() - k,
            {
                let g = bridge_to_guest(&xs[k]);
                out.push(g);
                k = k + 1;
            }
            proof {
                lemma_host_data_elems(xs@);
                lemma_bridged_in_elems(host_data_elems(xs@));
                lemma_guest_data_elems(out@);
                assert(guest_data_elems(out@) =~= bridged_in_elems(host_data_elems(xs@)));
            }
            GuestValue::Arr(out)
        }
        HostValue::Obj(fs) => {
            let mut out: Vec<(String, GuestValue)> = Vec::new();
            let mut k: usize = 0;
            while k < fs.len()
                invariant
                    k <= fs.len(),
                    out@.len() == k,
                    forall|i: int|
                        0 <= i < k ==> out@[i].0@ == fs@[i].0@ && out@[i].1@ == bridged_in(
                            host_data(fs@[i].1),
                        ),
                decreases fs.len() - k,
            {
                let name = fs[k].0.clone();
                let g = bridge_to_guest(&fs[k].1);
                out.push((name, g));
                k = k + 1;
            }
            proof {
                lemma_host_data_fields(fs@);
                lemma_bridged_in_fields(host_data_fields(fs@));
                lemma_guest_data_fields(out@);
                assert(guest_data_fields(out@) =~= bridged_in_fields(host_data_fields(fs@)));
            }
            GuestValue::Obj(out)
        }
    }
}

/// Bridges a sandbox value back to host data: `Undefined` joins null, and
/// an invocable value becomes the explicit unrepresentable marker.
#[verifier::loop_isolation(false)]
pub fn bridge_to_host(v: &GuestValue) -> (r: HostValue)
    ensures
        r@ == bridged_out(v@),
    decreases v,
{
    match v {
        GuestValue::Undefined => HostValue::Null,
        GuestValue::Null => HostValue::Null,
        GuestValue::Bool(b) => HostValue::Bool(*b),
        GuestValue::Num(i) => HostValue::Int(*i),
        GuestValue::Str(s) => HostValue::Str(s.clone()),
        GuestValue::Function => {
            let marker = String::from_str("<unrepresentable>");
            HostValue::Str(marker)
        }
        GuestValue::Arr(xs) => {
            let mut out: Vec<HostValue> = Vec::new();
            let mut k: usize = 0;
            while k < xs.len()
                invariant
                    k <= xs.len(),
                    out@.len() == k,
                    forall|i: int| 0 <= i < k ==> out@[i]@ == bridged_out(guest_data(xs@[i])),
                decreases xs.len() - k,
            {
                let h = bridge_to_host(&xs[k]);
                out.push(h);
                k = k + 1;
            }
            proof {
                lemma_guest_data_elems(xs@);
                lemma_bridged_out_elems(guest_data_elems(xs@));
                lemma_host_data_elems(out@);
                assert(host_data_elems(out@) =~= bridged_out_elems(guest_data_elems(xs@)));
            }
            HostValue::Arr(out)
        }
        GuestValue::Obj(fs) => {
            let mut out: Vec<(String, HostValue)> = Vec::new();
            let mut k: usize = 0;
            while k < fs.len()
                invariant
                    k <= fs.len(),
                    out@.len() == k,
                    forall|i: int|
                        0 <= i < k ==> out@[i].0@ == fs@[i].0@ && out@[i].1@ == bridged_out(
                            guest_data(fs@[i].1),
                        ),
                decreases fs.len() - k,
            {
                let name = fs[k].0.clone();
                let h = bridge_to_host(&fs[k].1);
                out.push((name, h));
                k = k + 1;
            }
            proof {
                lemma_guest_data_fields(fs@);
                lemma_bridged_out_fields(guest_data_fields(fs@));
                lemma_host_data_fields(out@);
                assert(host_data_fields(out@) =~= bridged_out_fields(guest_data_fields(fs@)));
            }
            HostValue::Obj(out)
        }
    }
}

} // verus!
