//! Commands: their names, their argument vectors, and the errors a command
//! can end in.

use vstd::prelude::*;
use crate::decimal::{i64_of, parse_i64};
use crate::model::field_of;

verus! {

/// Why a command failed.
#[derive(Clone, Copy, Debug, PartialEq, Eq, Structural)]
pub enum CommandError {
    /// The argument vector has the wrong length.
    WrongArity,
    /// An argument, or the stored value, is not integer text in range.
    InvalidInteger,
    /// The key holds a value of a type that the command does not work on.
    WrongType,
    /// The new integer would not fit in 64 signed bits.
    Overflow,
}

/// The commands of the engine, without their arguments.
#[derive(Clone, Copy, Debug, PartialEq, Eq, Structural)]
pub enum CommandKind {
    Prepend,
    GetSetEx,
    GetEx,
    GetDel,
    IncrByEx,
    HAppend,
}

/// A command with its arguments decoded.
#[derive(Debug)]
pub enum Command {
    Prepend { key: Vec<u8>, value: Vec<u8> },
    GetSetEx { key: Vec<u8>, value: Vec<u8>, seconds: u64 },
    GetEx { key: Vec<u8>, seconds: u64 },
    GetDel { key: Vec<u8> },
    IncrByEx { key: Vec<u8>, increment: i64, seconds: u64 },
    HAppend { key: Vec<u8>, field: Vec<u8>, value: Vec<u8> },
}

/// What a decoded command says, over byte sequences.
pub enum Request {
    Prepend { key: Seq<u8>, value: Seq<u8> },
    GetSetEx { key: Seq<u8>, value: Seq<u8>, seconds: u64 },
    GetEx { key: Seq<u8>, seconds: u64 },
    GetDel { key: Seq<u8> },
    IncrByEx { key: Seq<u8>, increment: i64, seconds: u64 },
    HAppend { key: Seq<u8>, field: Seq<u8>, value: Seq<u8> },
}

impl View for Command {
    type V = Request;

    open spec fn view(&self) -> Request {
        match self {
            Command::Prepend { key, value } => Request::Prepend { key: key@, value: value@ },
            Command::GetSetEx { key, value, seconds } => Request::GetSetEx {
                key: key@,
                value: value@,
                seconds: *seconds,
            },
            Command::GetEx { key, seconds } => Request::GetEx { key: key@, seconds: *seconds },
            Command::GetDel { key } => Request::GetDel { key: key@ },
            Command::IncrByEx { key, increment, seconds } => Request::IncrByEx {
                key: key@,
                increment: *increment,
                seconds: *seconds,
            },
            Command::HAppend { key, field, value } => Request::HAppend {
                key: key@,
                field: field@,
                value: value@,
            },
        }
    }
}

/// The largest time to live, in seconds, whose milliseconds fit in 64 signed bits.
pub const MAX_TTL_SECONDS: u64 = 9223372036854775;

/// The time to live that an argument spells.
pub open spec fn ttl_of(s: Seq<u8>) -> Option<u64> {
    match i64_of(s) {
        Some(n) => if 0 <= n <= MAX_TTL_SECONDS {
            Some(n as u64)
        } else {
            None
        },
        None => None,
    }
}

pub open spec fn texts_of(args: Seq<Vec<u8>>) -> Seq<Seq<u8>> {
    args.map_values(|a: Vec<u8>| a@)
}

/// What an argument vector decodes to. The vector starts with the command's
/// name; arguments are taken in order, so a missing argument is reported
/// only once the ones before it have been read.
pub open spec fn request_of(kind: CommandKind, a: Seq<Seq<u8>>) -> Result<Request, CommandError> {
    match kind {
        CommandKind::Prepend => if a.len() == 3 {
            Ok(Request::Prepend { key: a[1], value: a[2] })
        } else {
            Err(CommandError::WrongArity)
        },
        CommandKind::GetSetEx => if a.len() != 4 {
            Err(CommandError::WrongArity)
        } else {
            match ttl_of(a[3]) {
                Some(t) => Ok(Request::GetSetEx { key: a[1], value: a[2], seconds: t }),
                None => Err(CommandError::InvalidInteger),
            }
        },
        CommandKind::GetEx => if a.len() != 3 {
            Err(CommandError::WrongArity)
        } else {
            match ttl_of(a[2]) {
                Some(t) => Ok(Request::GetEx { key: a[1], seconds: t }),
                None => Err(CommandError::InvalidInteger),
            }
        },
        CommandKind::GetDel => if a.len() == 2 {
            Ok(Request::GetDel { key: a[1] })
        } else {
            Err(CommandError::WrongArity)
        },
        CommandKind::IncrByEx => if a.len() > 4 || a.len() < 3 {
            Err(CommandError::WrongArity)
        } else {
            match i64_of(a[2]) {
                None => Err(CommandError::InvalidInteger),
                Some(n) => if a.len() == 3 {
                    Err(CommandError::WrongArity)
                } else {
                    match ttl_of(a[3]) {
                        Some(t) => Ok(Request::IncrByEx { key: a[1], increment: n, seconds: t }),
                        None => Err(CommandError::InvalidInteger),
                    }
                },
            }
        },
        CommandKind::HAppend => if a.len() == 4 {
            Ok(Request::HAppend { key: a[1], field: a[2], value: a[3] })
        } else {
            Err(CommandError::WrongArity)
        },
    }
}

pub open spec fn request_result(r: Result<Command, CommandError>) -> Result<Request, CommandError> {
    match r {
        Ok(c) => Ok(c@),
        Err(e) => Err(e),
    }
}

/// A copy of a byte string.
pub fn copy_bytes(b: &Vec<u8>) -> (r: Vec<u8>)
    ensures
        r@ == b@,
{
    let mut r: Vec<u8> = Vec::new();
    let mut i: usize = 0;
    while i < b.len()
        invariant
            i <= b@.len(),
            r@ == b@.subrange(0, i as int),
        decreases b@.len() - i,
    {
        r.push(b[i]);
        i = i + 1;
        assert(r@ =~= b@.subrange(0, i as int));
    }
    assert(r@ =~= b@);
    r
}

/// Reads a time to live in seconds.
pub fn parse_ttl(s: &Vec<u8>) -> (r: Option<u64>)
    ensures
        r == ttl_of(s@),
{
    match parse_i64(s) {
        Some(n) => if 0 <= n && n as u64 <= MAX_TTL_SECONDS {
            Some(n as u64)
        } else {
            None
        },
        None => None,
    }
}

/// Decodes the argument vector of a command of the given kind, name first.
pub fn parse_command(kind: CommandKind, args: &Vec<Vec<u8>>) -> (r: Result<Command, CommandError>)
    ensures
        request_result(r) == request_of(kind, texts_of(args@)),
{
    let ghost a = texts_of(args@);
    let n = args.len();
    assert(a.len() == n);
    assert(forall|i: int| 0 <= i < n ==> #[trigger] a[i] == args@[i]@);
    match kind {
        CommandKind::Prepend => {
            if n != 3 {
                return Err(CommandError::WrongArity);
            }
            Ok(Command::Prepend { key: copy_bytes(&args[1]), value: copy_bytes(&args[2]) })
        },
        CommandKind::GetSetEx => {
            if n != 4 {
                return Err(CommandError::WrongArity);
            }
            match parse_ttl(&args[3]) {
                Some(t) => Ok(
                    Command::GetSetEx {
                        key: copy_bytes(&args[1]),
                        value: copy_bytes(&args[2]),
                        seconds: t,
                    },
                ),
                None => Err(CommandError::InvalidInteger),
            }
        },
        CommandKind::GetEx => {
            if n != 3 {
                return Err(CommandError::WrongArity);
            }
            match parse_ttl(&args[2]) {
                Some(t) => Ok(Command::GetEx { key: copy_bytes(&args[1]), seconds: t }),
                None => Err(CommandError::InvalidInteger),
            }
        },
        CommandKind::GetDel => {
            if n != 2 {
                return Err(CommandError::WrongArity);
            }
            Ok(Command::GetDel { key: copy_bytes(&args[1]) })
        },
        CommandKind::IncrByEx => {
            if n > 4 || n < 3 {
                return Err(CommandError::WrongArity);
            }
            match parse_i64(&args[2]) {
                None => Err(CommandError::InvalidInteger),
                Some(increment) => {
                    if n == 3 {
                        return Err(CommandError::WrongArity);
                    }
                    match parse_ttl(&args[3]) {
                        Some(t) => Ok(
                            Command::IncrByEx { key: copy_bytes(&args[1]), increment, seconds: t },
                        ),
                        None => Err(CommandError::InvalidInteger),
                    }
                },
            }
        },
        CommandKind::HAppend => {
            if n != 4 {
                return Err(CommandError::WrongArity);
            }
            Ok(
                Command::HAppend {
                    key: copy_bytes(&args[1]),
                    field: copy_bytes(&args[2]),
                    value: copy_bytes(&args[3]),
                },
            )
        },
    }
}

impl Command {
    /// The key that the command works on.
    pub fn key(&self) -> (r: &Vec<u8>)
        ensures
            r@ == match self@ {
                Request::Prepend { key, .. } => key,
                Request::GetSetEx { key, .. } => key,
                Request::GetEx { key, .. } => key,
                Request::GetDel { key } => key,
                Request::IncrByEx { key, .. } => key,
                Request::HAppend { key, .. } => key,
            },
    {
        match self {
            Command::Prepend { key, .. } => key,
            Command::GetSetEx { key, .. } => key,
            Command::GetEx { key, .. } => key,
            Command::GetDel { key } => key,
            Command::IncrByEx { key, .. } => key,
            Command::HAppend { key, .. } => key,
        }
    }

    /// The hash field that the command addresses, if any.
    pub fn field(&self) -> (r: Option<&Vec<u8>>)
        ensures
            match r {
                Some(f) => field_of(self@) == Some(f@),
                None => field_of(self@) is None,
            },
    {
        match self {
            Command::HAppend { field, .. } => Some(field),
            _ => None,
        }
    }
}

} // verus!
