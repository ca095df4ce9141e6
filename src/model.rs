//! The mathematical model of one key: what it holds, what a handler sees of
//! it, what a handler decides, and how a decision changes the key.

use vstd::prelude::*;
use crate::command::{CommandError, Request};
use crate::decimal::{decimal_text, i64_of};

verus! {

/// What a key holds.
pub enum Held {
    Absent,
    Scalar(Seq<u8>),
    Hash(Map<Seq<u8>, Seq<u8>>),
}

/// A key: its value and its time to live in seconds, if any.
pub struct KeyModel {
    pub held: Held,
    pub expire: Option<u64>,
}

/// What a handler reads of a key: absent, a scalar, or a hash with the value
/// of the field that the handler addresses, if it addresses one and it is set.
pub enum Seen {
    Absent,
    Scalar(Seq<u8>),
    Hash(Option<Seq<u8>>),
}

/// How a handler changes a key's value.
pub enum Edit {
    Keep,
    Write(Seq<u8>),
    Delete,
    WriteField(Seq<u8>, Seq<u8>),
}

/// What a handler answers its caller.
pub enum Answer {
    Nil,
    Bulk(Seq<u8>),
    Integer(i64),
    Length(nat),
}

/// A handler's decision: its answer, its edit, and the time to live that it
/// sets, if any.
pub struct Effect {
    pub answer: Answer,
    pub edit: Edit,
    pub expire: Option<u64>,
}

/// Whether an effect changes the key, and so has to reach the replicas.
pub open spec fn changes(e: Effect) -> bool {
    !(e.edit is Keep && e.expire is None)
}

pub open spec fn prepend_effect(seen: Seen, value: Seq<u8>) -> Result<Effect, CommandError> {
    match seen {
        Seen::Absent => Ok(
            Effect { answer: Answer::Length(value.len()), edit: Edit::Write(value), expire: None },
        ),
        Seen::Scalar(cur) => Ok(
            Effect {
                answer: Answer::Length(value.len() + cur.len()),
                edit: Edit::Write(value + cur),
                expire: None,
            },
        ),
        Seen::Hash(_) => Err(CommandError::WrongType),
    }
}

pub open spec fn getsetex_effect(seen: Seen, value: Seq<u8>, seconds: u64) -> Result<Effect, CommandError> {
    match seen {
        Seen::Absent => Ok(
            Effect { answer: Answer::Nil, edit: Edit::Write(value), expire: Some(seconds) },
        ),
        Seen::Scalar(cur) => Ok(
            Effect { answer: Answer::Bulk(cur), edit: Edit::Write(value), expire: Some(seconds) },
        ),
        Seen::Hash(_) => Err(CommandError::WrongType),
    }
}

pub open spec fn getex_effect(seen: Seen, seconds: u64) -> Result<Effect, CommandError> {
    match seen {
        Seen::Absent => Ok(Effect { answer: Answer::Nil, edit: Edit::Keep, expire: None }),
        Seen::Scalar(cur) => Ok(
            Effect { answer: Answer::Bulk(cur), edit: Edit::Keep, expire: Some(seconds) },
        ),
        Seen::Hash(_) => Err(CommandError::WrongType),
    }
}

pub open spec fn getdel_effect(seen: Seen) -> Result<Effect, CommandError> {
    match seen {
        Seen::Absent => Ok(Effect { answer: Answer::Nil, edit: Edit::Keep, expire: None }),
        Seen::Scalar(cur) => Ok(
            Effect { answer: Answer::Bulk(cur), edit: Edit::Delete, expire: None },
        ),
        Seen::Hash(_) => Err(CommandError::WrongType),
    }
}

pub open spec fn incrbyex_effect(seen: Seen, increment: i64, seconds: u64) -> Result<Effect, CommandError> {
    let base: Result<int, CommandError> = match seen {
        Seen::Absent => Ok(0),
        Seen::Scalar(cur) => match i64_of(cur) {
            Some(n) => Ok(n as int),
            None => Err(CommandError::InvalidInteger),
        },
        Seen::Hash(_) => Err(CommandError::WrongType),
    };
    match base {
        Err(e) => Err(e),
        Ok(b) => {
            let sum = b + increment;
            if i64::MIN <= sum <= i64::MAX {
                Ok(
                    Effect {
                        answer: Answer::Integer(sum as i64),
                        edit: Edit::Write(decimal_text(sum)),
                        expire: Some(seconds),
                    },
                )
            } else {
                Err(CommandError::Overflow)
            }
        },
    }
}

pub open spec fn happend_effect(seen: Seen, field: Seq<u8>, value: Seq<u8>) -> Result<Effect, CommandError> {
    let cur: Option<Seq<u8>> = match seen {
        Seen::Absent => Some(Seq::empty()),
        Seen::Scalar(_) => None,
        Seen::Hash(Some(v)) => Some(v),
        Seen::Hash(None) => Some(Seq::empty()),
    };
    match cur {
        None => Err(CommandError::WrongType),
        Some(c) => Ok(
            Effect {
                answer: Answer::Length(c.len() + value.len()),
                edit: Edit::WriteField(field, c + value),
                expire: None,
            },
        ),
    }
}

/// The decision of the handler for `req` on a key seen as `seen`.
pub open spec fn effect_of(req: Request, seen: Seen) -> Result<Effect, CommandError> {
    match req {
        Request::Prepend { value, .. } => prepend_effect(seen, value),
        Request::GetSetEx { value, seconds, .. } => getsetex_effect(seen, value, seconds),
        Request::GetEx { seconds, .. } => getex_effect(seen, seconds),
        Request::GetDel { .. } => getdel_effect(seen),
        Request::IncrByEx { increment, seconds, .. } => incrbyex_effect(seen, increment, seconds),
        Request::HAppend { field, value, .. } => happend_effect(seen, field, value),
    }
}

/// The field that the handler for `req` addresses, if any.
pub open spec fn field_of(req: Request) -> Option<Seq<u8>> {
    match req {
        Request::HAppend { field, .. } => Some(field),
        _ => None,
    }
}

/// What a handler that addresses `field` sees of key `k`.
pub open spec fn seen_of(k: KeyModel, field: Option<Seq<u8>>) -> Seen {
    match k.held {
        Held::Absent => Seen::Absent,
        Held::Scalar(v) => Seen::Scalar(v),
        Held::Hash(m) => Seen::Hash(
            match field {
                Some(f) => if m.contains_key(f) {
                    Some(m[f])
                } else {
                    None
                },
                None => None,
            },
        ),
    }
}

/// Key `k` once effect `e` is applied. Writing a scalar replaces the value
/// whole, its time to live included; writing a field keeps the time to live;
/// a time to live in the effect is set last.
pub open spec fn applied(k: KeyModel, e: Effect) -> KeyModel {
    let held = match e.edit {
        Edit::Keep => k.held,
        Edit::Write(v) => Held::Scalar(v),
        Edit::Delete => Held::Absent,
        Edit::WriteField(f, v) => Held::Hash(
            match k.held {
                Held::Hash(m) => m.insert(f, v),
                _ => Map::empty().insert(f, v),
            },
        ),
    };
    let kept = match e.edit {
        Edit::Keep => k.expire,
        Edit::WriteField(_, _) => k.expire,
        _ => None,
    };
    KeyModel {
        held,
        expire: match e.expire {
            Some(t) => Some(t),
            None => kept,
        },
    }
}

/// The decision of the handler for `req` on key `k`.
pub open spec fn outcome_on(k: KeyModel, req: Request) -> Result<Effect, CommandError> {
    effect_of(req, seen_of(k, field_of(req)))
}

/// Key `k` after the handler for `req` has run on it; a failed handler
/// leaves the key as it was.
pub open spec fn after(k: KeyModel, req: Request) -> KeyModel {
    match outcome_on(k, req) {
        Ok(e) => applied(k, e),
        Err(_) => k,
    }
}

} // verus!
