//! The operations of the protocol client: the request each one sends and how
//! the response, or the failure of the call, becomes its result.
use vstd::prelude::*;

use crate::auth::{CallError, CheckResult, Principal};
use crate::error::{AddError, ReadError};
use crate::wire::{
    decode_all, encode, encode_all, from_wire_all, to_wire, to_wire_all, tuple_views, wire_views,
    CheckRequest, CheckResponse, ListRequest, ListResponse, ObjectSpec, ReadRequest, ReadResponse,
    TupleSet, TupleSetSpec, WriteRequest, WriteResponse,
};
use crate::{
    token_or_latest, Condition, Namespace, Obj, Permission, Rel, Timestamp, Tuple, UserId,
};

verus! {

fn token(ts: Option<Timestamp>) -> (r: String)
    ensures
        r@ == token_or_latest(ts),
{
    match ts {
        Some(t) => t.0,
        None => Timestamp::empty().0,
    }
}

/// The check query for `permission` of `user` on `ns:obj`, at `ts` or else
/// at the latest consistency point.
pub fn check_request(
    ns: Namespace,
    obj: Obj,
    permission: Permission,
    user: UserId,
    ts: Option<Timestamp>,
) -> (r: CheckRequest)
    ensures
        r.ns@ == ns@,
        r.obj@ == obj@,
        r.rel@ == permission@,
        r.user_id@ == user@,
        r.ts@ == token_or_latest(ts),
{
    CheckRequest {
        ns: ns.0,
        obj: obj.0,
        rel: Rel::of_permission(&permission).0,
        user_id: user.0,
        ts: token(ts),
    }
}

/// The result of a check call: granted or forbidden to the principal the
/// server resolved, unknown when it resolved none, and the call's status when
/// it failed.
pub fn check_outcome(resp: Result<CheckResponse, tonic::Status>) -> (r: Result<
    CheckResult,
    CallError,
>)
    ensures
        match resp {
            Ok(c) => match c.principal {
                Some(id) => if c.ok {
                    r matches Ok(CheckResult::Granted(p)) && p@ == id@
                } else {
                    r matches Ok(CheckResult::Forbidden(p)) && p@ == id@
                },
                None => r matches Ok(CheckResult::UnknownPutativeUser),
            },
            Err(s) => r matches Err(CallError::Status(t)) && t == s,
        },
        r matches Ok(CheckResult::Granted(_)) <==> (resp matches Ok(c) && c.ok
            && c.principal is Some),
{
    match resp {
        Ok(CheckResponse { principal: Some(id), ok }) => {
            if ok {
                Ok(CheckResult::Granted(Principal::new(id)))
            } else {
                Ok(CheckResult::Forbidden(Principal::new(id)))
            }
        },
        Ok(CheckResponse { principal: None, .. }) => Ok(CheckResult::UnknownPutativeUser),
        Err(status) => Err(CallError::Status(status)),
    }
}

/// The list query for the objects of `ns` on which `user` holds `rel`.
pub fn list_request(ns: Namespace, rel: Rel, user: UserId, ts: Option<Timestamp>) -> (r:
    ListRequest)
    ensures
        r.ns@ == ns@,
        r.rel@ == rel@,
        r.user_id@ == user@,
        r.ts@ == token_or_latest(ts),
{
    ListRequest { ns: ns.0, rel: rel.0, user_id: user.0, ts: token(ts) }
}

/// The result of a list call: the objects as the server sent them, in order.
pub fn list_outcome(resp: Result<ListResponse, tonic::Status>) -> (r: Result<
    Vec<String>,
    CallError,
>)
    ensures
        match resp {
            Ok(l) => r matches Ok(objs) && objs == l.objs,
            Err(s) => r matches Err(CallError::Status(t)) && t == s,
        },
{
    match resp {
        Ok(l) => Ok(l.objs),
        Err(status) => Err(CallError::Status(status)),
    }
}

/// The read query for every tuple of `ns:obj`, at the latest consistency
/// point.
pub fn read_request(ns: &Namespace, obj: &Obj) -> (r: ReadRequest)
    ensures
        r.tuple_sets@.len() == 1,
        r.tuple_sets@[0].ns@ == ns@,
        r.tuple_sets@[0].spec matches Some(TupleSetSpec::ObjectSpec(o)) && o.obj@ == obj@
            && o.rel is None,
        r.ts is None,
{
    let set = TupleSet {
        ns: ns.0.clone(),
        spec: Some(TupleSetSpec::ObjectSpec(ObjectSpec { obj: obj.0.clone(), rel: None })),
    };
    ReadRequest { tuple_sets: vec![set], ts: None }
}

/// The result of a read call: the typed tuples, in the order sent; an error
/// when one of them has no subject, or with the status when the call failed.
pub fn read_outcome(resp: Result<ReadResponse, tonic::Status>) -> (r: Result<
    Vec<Tuple>,
    ReadError,
>)
    ensures
        match resp {
            Ok(rr) => match decode_all(wire_views(rr.tuples@)) {
                Some(ts) => r matches Ok(v) && tuple_views(v@) == ts,
                None => r matches Err(ReadError::UnmappedSubject),
            },
            Err(s) => r matches Err(ReadError::Status(t)) && t == s,
        },
{
    match resp {
        Ok(rr) => match from_wire_all(&rr.tuples) {
            Some(v) => Ok(v),
            None => Err(ReadError::UnmappedSubject),
        },
        Err(status) => Err(ReadError::Status(status)),
    }
}

/// One batch that adds `add` and deletes `delete`, all unconditional.
pub fn write_request(add: &Vec<Tuple>, delete: &Vec<Tuple>) -> (r: WriteRequest)
    ensures
        wire_views(r.add_tuples@) == encode_all(tuple_views(add@)),
        wire_views(r.del_tuples@) == encode_all(tuple_views(delete@)),
{
    WriteRequest { add_tuples: to_wire_all(add), del_tuples: to_wire_all(delete) }
}

/// A batch that adds `tuple` alone.
pub fn add_one_request(tuple: Tuple) -> (r: WriteRequest)
    ensures
        r.add_tuples@.len() == 1,
        r.add_tuples@[0]@ == encode(tuple@, None),
        r.del_tuples@.len() == 0,
{
    WriteRequest { add_tuples: vec![to_wire(&tuple, None)], del_tuples: Vec::new() }
}

/// A batch that adds `tuple` alone, under `condition`, passed on unchanged.
pub fn add_one_with_condition_request(tuple: Tuple, condition: Condition) -> (r: WriteRequest)
    ensures
        r.add_tuples@.len() == 1,
        r.add_tuples@[0]@ == encode(tuple@, Some(condition)),
        r.del_tuples@.len() == 0,
{
    WriteRequest { add_tuples: vec![to_wire(&tuple, Some(condition))], del_tuples: Vec::new() }
}

/// A batch that adds all of `tuples`, in order.
pub fn add_many_request(tuples: Vec<Tuple>) -> (r: WriteRequest)
    ensures
        wire_views(r.add_tuples@) == encode_all(tuple_views(tuples@)),
        r.del_tuples@.len() == 0,
{
    WriteRequest { add_tuples: to_wire_all(&tuples), del_tuples: Vec::new() }
}

/// A batch that deletes `tuple` alone.
pub fn delete_one_request(tuple: Tuple) -> (r: WriteRequest)
    ensures
        r.add_tuples@.len() == 0,
        r.del_tuples@.len() == 1,
        r.del_tuples@[0]@ == encode(tuple@, None),
{
    WriteRequest { add_tuples: Vec::new(), del_tuples: vec![to_wire(&tuple, None)] }
}

/// The result of a write call: the consistency token it took effect at, or
/// the status when it failed.
pub fn write_outcome(resp: Result<WriteResponse, tonic::Status>) -> (r: Result<String, AddError>)
    ensures
        match resp {
            Ok(w) => r matches Ok(ts) && ts == w.ts,
            Err(s) => r matches Err(AddError(t)) && t == s,
        },
{
    match resp {
        Ok(w) => Ok(w.ts),
        Err(status) => Err(AddError(status)),
    }
}

} // verus!
