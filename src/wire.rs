//! The messages exchanged with the authorization service, as plain values,
//! and the mapping between typed tuples and their wire form.
use vstd::prelude::*;

use crate::{Condition, Namespace, Obj, Rel, SubjectView, Tuple, TupleView, User};

verus! {

/// A userset subject on the wire: `ns:obj#rel`.
pub struct WireUserSet {
    pub ns: String,
    pub obj: String,
    pub rel: String,
}

/// The subject of a wire tuple: one of a user id or a userset.
pub enum WireUser {
    UserId(String),
    UserSet(WireUserSet),
}

impl View for WireUser {
    type V = SubjectView;

    open spec fn view(&self) -> SubjectView {
        match self {
            WireUser::UserId(u) => SubjectView::UserId(u@),
            WireUser::UserSet(s) => SubjectView::UserSet { ns: s.ns@, obj: s.obj@, rel: s.rel@ },
        }
    }
}

/// The condition of a wire tuple: expiry in Unix seconds.
#[derive(Clone, Copy, Debug, PartialEq, Eq, Structural)]
pub enum WireCondition {
    Expires(i64),
}

/// A tuple as it travels: the subject may be absent in what a server sends.
pub struct WireTuple {
    pub ns: String,
    pub obj: String,
    pub rel: String,
    pub user: Option<WireUser>,
    pub condition: Option<WireCondition>,
}

pub struct WireTupleView {
    pub ns: Seq<char>,
    pub obj: Seq<char>,
    pub rel: Seq<char>,
    pub user: Option<SubjectView>,
    pub condition: Option<WireCondition>,
}

impl View for WireTuple {
    type V = WireTupleView;

    open spec fn view(&self) -> WireTupleView {
        WireTupleView {
            ns: self.ns@,
            obj: self.obj@,
            rel: self.rel@,
            user: match self.user {
                Some(u) => Some(u@),
                None => None,
            },
            condition: self.condition,
        }
    }
}

/// A membership query: does `user_id` hold `rel` on `ns:obj` as of `ts`?
pub struct CheckRequest {
    pub ns: String,
    pub obj: String,
    pub rel: String,
    pub user_id: String,
    pub ts: String,
}

/// The answer to a check: the principal the subject resolved to, if any, and
/// whether the permission is granted.
pub struct CheckResponse {
    pub principal: Option<String>,
    pub ok: bool,
}

/// A query for every object of `ns` on which `user_id` holds `rel`.
pub struct ListRequest {
    pub ns: String,
    pub rel: String,
    pub user_id: String,
    pub ts: String,
}

pub struct ListResponse {
    pub objs: Vec<String>,
}

/// The tuples of one object, optionally of one relation only.
pub struct ObjectSpec {
    pub obj: String,
    pub rel: Option<String>,
}

pub enum TupleSetSpec {
    ObjectSpec(ObjectSpec),
}

/// A set of tuples to read within a namespace.
pub struct TupleSet {
    pub ns: String,
    pub spec: Option<TupleSetSpec>,
}

pub struct ReadRequest {
    pub tuple_sets: Vec<TupleSet>,
    pub ts: Option<String>,
}

pub struct ReadResponse {
    pub tuples: Vec<WireTuple>,
}

/// One atomic batch of additions and deletions.
pub struct WriteRequest {
    pub add_tuples: Vec<WireTuple>,
    pub del_tuples: Vec<WireTuple>,
}

/// The consistency token at which a write took effect.
pub struct WriteResponse {
    pub ts: String,
}

pub open spec fn wire_condition(c: Option<Condition>) -> Option<WireCondition> {
    match c {
        Some(Condition::Expires(t)) => Some(WireCondition::Expires(t)),
        None => None,
    }
}

/// The wire form of a tuple, carrying the condition unchanged.
pub open spec fn encode(t: TupleView, c: Option<Condition>) -> WireTupleView {
    WireTupleView {
        ns: t.ns,
        obj: t.obj,
        rel: t.rel,
        user: Some(t.sbj),
        condition: wire_condition(c),
    }
}

/// The typed tuple that a wire tuple stands for; none without a subject.
pub open spec fn decode(w: WireTupleView) -> Option<TupleView> {
    match w.user {
        Some(s) => Some(TupleView { ns: w.ns, obj: w.obj, rel: w.rel, sbj: s }),
        None => None,
    }
}

/// The wire form of a sequence of tuples, each unconditional.
pub open spec fn encode_all(ts: Seq<TupleView>) -> Seq<WireTupleView> {
    ts.map_values(|t: TupleView| encode(t, None))
}

/// The typed tuples of a sequence of wire tuples; none if one lacks a subject.
pub open spec fn decode_all(ws: Seq<WireTupleView>) -> Option<Seq<TupleView>> {
    if forall|i: int| 0 <= i < ws.len() ==> (#[trigger] decode(ws[i])) is Some {
        Some(ws.map_values(|w: WireTupleView| decode(w)->0))
    } else {
        None
    }
}

pub open spec fn tuple_views(ts: Seq<Tuple>) -> Seq<TupleView> {
    ts.map_values(|t: Tuple| t@)
}

pub open spec fn wire_views(ws: Seq<WireTuple>) -> Seq<WireTupleView> {
    ws.map_values(|w: WireTuple| w@)
}

fn wire_user(s: &User) -> (r: WireUser)
    ensures
        r@ == s@,
{
    match s {
        User::UserId(u) => WireUser::UserId(u.clone()),
        User::UserSet { ns, obj, rel } => WireUser::UserSet(
            WireUserSet { ns: ns.0.clone(), obj: obj.0.clone(), rel: rel.0.clone() },
        ),
    }
}

/// The wire tuple for `t` with `condition`.
pub fn to_wire(t: &Tuple, condition: Option<Condition>) -> (w: WireTuple)
    ensures
        w@ == encode(t@, condition),
{
    let c = match condition {
        Some(Condition::Expires(at)) => Some(WireCondition::Expires(at)),
        None => None,
    };
    WireTuple {
        ns: t.ns.0.clone(),
        obj: t.obj.0.clone(),
        rel: t.rel.0.clone(),
        user: Some(wire_user(&t.sbj)),
        condition: c,
    }
}

/// The typed tuple for a wire tuple; `None` when it carries no subject.
pub fn from_wire(w: &WireTuple) -> (r: Option<Tuple>)
    ensures
        match r {
            Some(t) => decode(w@) == Some(t@),
            None => decode(w@) is None,
        },
{
    let sbj = match &w.user {
        None => {
            return None;
        },
        Some(WireUser::UserId(u)) => User::UserId(u.clone()),
        Some(WireUser::UserSet(s)) => User::UserSet {
            ns: Namespace(s.ns.clone()),
            obj: Obj(s.obj.clone()),
            rel: Rel(s.rel.clone()),
        },
    };
    Some(Tuple { ns: Namespace(w.ns.clone()), obj: Obj(w.obj.clone()), rel: Rel(w.rel.clone()), sbj })
}

/// The wire tuples for `ts`, in order, each unconditional.
pub fn to_wire_all(ts: &Vec<Tuple>) -> (ws: Vec<WireTuple>)
    ensures
        wire_views(ws@) == encode_all(tuple_views(ts@)),
{
    let mut ws: Vec<WireTuple> = Vec::new();
    let mut i: usize = 0;
    while i < ts.len()
        invariant
            i <= ts@.len(),
            ws@.len() == i,
            forall|j: int| 0 <= j < i ==> (#[trigger] ws@[j])@ == encode(ts@[j]@, None),
        decreases ts@.len() - i,
    {
        ws.push(to_wire(&ts[i], None));
        i = i + 1;
    }
    assert(wire_views(ws@) =~= encode_all(tuple_views(ts@)));
    ws
}

/// The typed tuples for `ws`, in order; `None` when one carries no subject.
pub fn from_wire_all(ws: &Vec<WireTuple>) -> (r: Option<Vec<Tuple>>)
    ensures
        match r {
            Some(ts) => decode_all(wire_views(ws@)) == Some(tuple_views(ts@)),
            None => decode_all(wire_views(ws@)) is None,
        },
{
    let mut ts: Vec<Tuple> = Vec::new();
    let mut i: usize = 0;
    while i < ws.len()
        invariant
            i <= ws@.len(),
            ts@.len() == i,
            forall|j: int| 0 <= j < i ==> decode(#[trigger] ws@[j]@) == Some(ts@[j]@),
        decreases ws@.len() - i,
    {
        match from_wire(&ws[i]) {
            Some(t) => {
                ts.push(t);
            },
            None => {
                proof {
                    let vs = wire_views(ws@);
                    assert(decode(vs[i as int]) is None);
                }
                return None;
            },
        }
        i = i + 1;
    }
    proof {
        let vs = wire_views(ws@);
        assert forall|j: int| 0 <= j < vs.len() implies (#[trigger] decode(vs[j])) is Some by {
            assert(decode(ws@[j]@) == Some(ts@[j]@));
        }
        assert(vs.map_values(|w: WireTupleView| decode(w)->0) =~= tuple_views(ts@));
    }
    Some(ts)
}

/// Encoding a tuple and decoding the result gives the tuple back, whatever
/// condition travelled with it.
pub proof fn lemma_tuple_round_trip(t: TupleView, c: Option<Condition>)
    ensures
        decode(encode(t, c)) == Some(t),
{
}

/// Encoding a sequence of tuples and decoding the result gives the same
/// tuples back, in the same order.
pub proof fn lemma_tuples_round_trip(ts: Seq<TupleView>)
    ensures
        decode_all(encode_all(ts)) == Some(ts),
{
    let ws = encode_all(ts);
    assert forall|i: int| 0 <= i < ws.len() implies (#[trigger] decode(ws[i])) is Some by {
        lemma_tuple_round_trip(ts[i], None);
    }
    assert(ws.map_values(|w: WireTupleView| decode(w)->0) =~= ts);
}

} // verus!
