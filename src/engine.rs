//! The handlers: each decides, from its arguments and what it reads of its
//! key, what to answer and how the key changes. Nothing here touches a store;
//! the caller reads the key, runs a handler and applies its outcome under one
//! exclusive access to the key.

use vstd::prelude::*;
use crate::command::{copy_bytes, Command, CommandError};
use crate::decimal::{parse_i64, render_i64};
use crate::model::{
    changes, effect_of, getdel_effect, getex_effect, getsetex_effect, happend_effect,
    incrbyex_effect, prepend_effect, Answer, Edit, Effect, Seen,
};

verus! {

/// What a handler read of its key.
#[derive(Debug)]
pub enum Observed {
    Absent,
    Scalar(Vec<u8>),
    /// A hash, with the value of the addressed field where it is set.
    Hash(Option<Vec<u8>>),
}

/// How the key's value changes.
#[derive(Debug)]
pub enum Change {
    Keep,
    Write(Vec<u8>),
    Delete,
    WriteField(Vec<u8>, Vec<u8>),
}

/// A handler's answer.
#[derive(Debug)]
pub enum Reply {
    Nil,
    Bulk(Vec<u8>),
    Integer(i64),
    Length(usize),
}

/// A handler's decision.
#[derive(Debug)]
pub struct Outcome {
    pub reply: Reply,
    pub change: Change,
    /// A time to live in seconds to set once the change is made.
    pub expire: Option<u64>,
}

impl View for Observed {
    type V = Seen;

    open spec fn view(&self) -> Seen {
        match self {
            Observed::Absent => Seen::Absent,
            Observed::Scalar(v) => Seen::Scalar(v@),
            Observed::Hash(Some(v)) => Seen::Hash(Some(v@)),
            Observed::Hash(None) => Seen::Hash(None),
        }
    }
}

impl View for Change {
    type V = Edit;

    open spec fn view(&self) -> Edit {
        match self {
            Change::Keep => Edit::Keep,
            Change::Write(v) => Edit::Write(v@),
            Change::Delete => Edit::Delete,
            Change::WriteField(f, v) => Edit::WriteField(f@, v@),
        }
    }
}

impl View for Reply {
    type V = Answer;

    open spec fn view(&self) -> Answer {
        match self {
            Reply::Nil => Answer::Nil,
            Reply::Bulk(v) => Answer::Bulk(v@),
            Reply::Integer(n) => Answer::Integer(*n),
            Reply::Length(n) => Answer::Length(*n as nat),
        }
    }
}

impl View for Outcome {
    type V = Effect;

    open spec fn view(&self) -> Effect {
        Effect { answer: self.reply@, edit: self.change@, expire: self.expire }
    }
}

pub open spec fn effect_result(r: Result<Outcome, CommandError>) -> Result<Effect, CommandError> {
    match r {
        Ok(o) => Ok(o@),
        Err(e) => Err(e),
    }
}

impl Outcome {
    /// Whether the outcome changes the key, so that it has to be propagated
    /// to replicas once it has been applied.
    pub fn replicates(&self) -> (r: bool)
        ensures
            r == changes(self@),
    {
        !(matches!(self.change, Change::Keep) && self.expire.is_none())
    }
}

/// `a` followed by `b`.
pub fn concat(a: &Vec<u8>, b: &Vec<u8>) -> (r: Vec<u8>)
    ensures
        r@ == a@ + b@,
{
    let mut r = copy_bytes(a);
    let mut tail = copy_bytes(b);
    r.append(&mut tail);
    r
}

/// Puts `value` in front of the scalar at the key, which counts as empty
/// where the key is absent; answers the new length.
pub fn prepend(seen: &Observed, value: &Vec<u8>) -> (r: Result<Outcome, CommandError>)
    ensures
        effect_result(r) == prepend_effect(seen@, value@),
{
    match seen {
        Observed::Absent => {
            let v = copy_bytes(value);
            let n = v.len();
            Ok(Outcome { reply: Reply::Length(n), change: Change::Write(v), expire: None })
        },
        Observed::Scalar(cur) => {
            let v = concat(value, cur);
            let n = v.len();
            Ok(Outcome { reply: Reply::Length(n), change: Change::Write(v), expire: None })
        },
        Observed::Hash(_) => Err(CommandError::WrongType),
    }
}

/// Replaces the scalar at the key and sets its time to live; answers the
/// value it replaced, or nil where the key was absent.
pub fn getsetex(seen: &Observed, value: &Vec<u8>, seconds: u64) -> (r: Result<Outcome, CommandError>)
    ensures
        effect_result(r) == getsetex_effect(seen@, value@, seconds),
{
    let reply = match seen {
        Observed::Absent => Reply::Nil,
        Observed::Scalar(cur) => Reply::Bulk(copy_bytes(cur)),
        Observed::Hash(_) => {
            return Err(CommandError::WrongType);
        },
    };
    Ok(Outcome { reply, change: Change::Write(copy_bytes(value)), expire: Some(seconds) })
}

/// Answers the scalar at the key and sets its time to live; on an absent key
/// answers nil and changes nothing.
pub fn getex(seen: &Observed, seconds: u64) -> (r: Result<Outcome, CommandError>)
    ensures
        effect_result(r) == getex_effect(seen@, seconds),
{
    match seen {
        Observed::Absent => Ok(Outcome { reply: Reply::Nil, change: Change::Keep, expire: None }),
        Observed::Scalar(cur) => Ok(
            Outcome {
                reply: Reply::Bulk(copy_bytes(cur)),
                change: Change::Keep,
                expire: Some(seconds),
            },
        ),
        Observed::Hash(_) => Err(CommandError::WrongType),
    }
}

/// Answers the scalar at the key and deletes the key; on an absent key
/// answers nil and changes nothing.
pub fn getdel(seen: &Observed) -> (r: Result<Outcome, CommandError>)
    ensures
        effect_result(r) == getdel_effect(seen@),
{
    match seen {
        Observed::Absent => Ok(Outcome { reply: Reply::Nil, change: Change::Keep, expire: None }),
        Observed::Scalar(cur) => Ok(
            Outcome { reply: Reply::Bulk(copy_bytes(cur)), change: Change::Delete, expire: None },
        ),
        Observed::Hash(_) => Err(CommandError::WrongType),
    }
}

/// Adds `increment` to the integer at the key, which counts as zero where the
/// key is absent, and sets its time to live; answers the new integer.
pub fn incrbyex(seen: &Observed, increment: i64, seconds: u64) -> (r: Result<Outcome, CommandError>)
    ensures
        effect_result(r) == incrbyex_effect(seen@, increment, seconds),
{
    let base: i64 = match seen {
        Observed::Absent => 0,
        Observed::Scalar(cur) => match parse_i64(cur) {
            Some(n) => n,
            None => {
                return Err(CommandError::InvalidInteger);
            },
        },
        Observed::Hash(_) => {
            return Err(CommandError::WrongType);
        },
    };
    match base.checked_add(increment) {
        Some(sum) => Ok(
            Outcome {
                reply: Reply::Integer(sum),
                change: Change::Write(render_i64(sum)),
                expire: Some(seconds),
            },
        ),
        None => Err(CommandError::Overflow),
    }
}

/// Appends `value` to the field of the hash at the key, which counts as empty
/// where the field or the key is absent; answers the field's new length.
pub fn happend(seen: &Observed, field: &Vec<u8>, value: &Vec<u8>) -> (r: Result<Outcome, CommandError>)
    ensures
        effect_result(r) == happend_effect(seen@, field@, value@),
{
    let joined = match seen {
        Observed::Absent => copy_bytes(value),
        Observed::Scalar(_) => {
            return Err(CommandError::WrongType);
        },
        Observed::Hash(Some(cur)) => concat(cur, value),
        Observed::Hash(None) => copy_bytes(value),
    };
    proof {
        assert(Seq::<u8>::empty() + value@ =~= value@);
    }
    let n = joined.len();
    Ok(
        Outcome {
            reply: Reply::Length(n),
            change: Change::WriteField(copy_bytes(field), joined),
            expire: None,
        },
    )
}

/// Runs the handler for `cmd` on a key seen as `seen`.
pub fn execute(cmd: &Command, seen: &Observed) -> (r: Result<Outcome, CommandError>)
    ensures
        effect_result(r) == effect_of(cmd@, seen@),
{
    match cmd {
        Command::Prepend { value, .. } => prepend(seen, value),
        Command::GetSetEx { value, seconds, .. } => getsetex(seen, value, *seconds),
        Command::GetEx { seconds, .. } => getex(seen, *seconds),
        Command::GetDel { .. } => getdel(seen),
        Command::IncrByEx { increment, seconds, .. } => incrbyex(seen, *increment, *seconds),
        Command::HAppend { field, value, .. } => happend(seen, field, value),
    }
}

} // verus!
