//! What holds of the handlers over every key and every argument.

use vstd::prelude::*;
use crate::command::{CommandError, Request};
use crate::decimal::{decimal_text, i64_of, lemma_decimal_round_trip};
use crate::model::{after, changes, outcome_on, Answer, Effect, Held, KeyModel};

verus! {

/// Prepending to an absent key leaves it holding exactly the value, and
/// answers the value's length.
pub proof fn prepend_on_absent(k: KeyModel, key: Seq<u8>, v: Seq<u8>)
    requires
        k.held is Absent,
    ensures
        ({
            let req = Request::Prepend { key, value: v };
            &&& outcome_on(k, req) is Ok
            &&& outcome_on(k, req)->Ok_0.answer == Answer::Length(v.len())
            &&& after(k, req).held == Held::Scalar(v)
        }),
{
}

/// Two prepends on an absent key leave it holding the second value followed
/// by the first.
pub proof fn prepend_twice(k: KeyModel, key: Seq<u8>, v1: Seq<u8>, v2: Seq<u8>)
    requires
        k.held is Absent,
    ensures
        after(
            after(k, Request::Prepend { key, value: v1 }),
            Request::Prepend { key, value: v2 },
        ).held == Held::Scalar(v2 + v1),
{
}

/// Get-set-with-expiry answers nil on an absent key and the old value on a
/// key holding one; either way the key then holds the new value and the new
/// time to live.
pub proof fn getsetex_replaces(k: KeyModel, key: Seq<u8>, v: Seq<u8>, t: u64)
    requires
        k.held is Absent || k.held is Scalar,
    ensures
        ({
            let req = Request::GetSetEx { key, value: v, seconds: t };
            &&& outcome_on(k, req) is Ok
            &&& outcome_on(k, req)->Ok_0.answer == match k.held {
                Held::Scalar(old) => Answer::Bulk(old),
                _ => Answer::Nil,
            }
            &&& after(k, req) == (KeyModel { held: Held::Scalar(v), expire: Some(t) })
        }),
{
}

/// Get-with-expiry on an absent key answers nil, changes nothing and is not
/// propagated; on a key holding a value it answers that value, keeps it, and
/// sets only the time to live.
pub proof fn getex_touches_ttl_only(k: KeyModel, key: Seq<u8>, t: u64)
    requires
        k.held is Absent || k.held is Scalar,
    ensures
        ({
            let req = Request::GetEx { key, seconds: t };
            &&& outcome_on(k, req) is Ok
            &&& k.held is Absent ==> {
                &&& outcome_on(k, req)->Ok_0.answer == Answer::Nil
                &&& !changes(outcome_on(k, req)->Ok_0)
                &&& after(k, req) == k
            }
            &&& k.held is Scalar ==> {
                &&& outcome_on(k, req)->Ok_0.answer == Answer::Bulk(k.held->Scalar_0)
                &&& after(k, req) == (KeyModel { held: k.held, expire: Some(t) })
            }
        }),
{
}

/// Get-and-delete on an absent key answers nil, changes nothing and is not
/// propagated; on a key holding a value it answers that value and the key is
/// absent afterwards.
pub proof fn getdel_removes(k: KeyModel, key: Seq<u8>)
    requires
        k.held is Absent || k.held is Scalar,
    ensures
        ({
            let req = Request::GetDel { key };
            &&& outcome_on(k, req) is Ok
            &&& k.held is Absent ==> {
                &&& outcome_on(k, req)->Ok_0.answer == Answer::Nil
                &&& !changes(outcome_on(k, req)->Ok_0)
                &&& after(k, req) == k
            }
            &&& k.held is Scalar ==> {
                &&& outcome_on(k, req)->Ok_0.answer == Answer::Bulk(k.held->Scalar_0)
                &&& after(k, req).held is Absent
            }
        }),
{
}

/// Increment-with-expiry on an absent key counts from zero: it answers the
/// increment, stores its text, and sets the time to live.
pub proof fn incrbyex_from_zero(k: KeyModel, key: Seq<u8>, n: i64, t: u64)
    requires
        k.held is Absent,
    ensures
        ({
            let req = Request::IncrByEx { key, increment: n, seconds: t };
            &&& outcome_on(k, req) is Ok
            &&& outcome_on(k, req)->Ok_0.answer == Answer::Integer(n)
            &&& after(k, req) == (KeyModel {
                held: Held::Scalar(decimal_text(n as int)),
                expire: Some(t),
            })
        }),
{
}

/// Increment-with-expiry on a key whose value is no integer text fails and
/// leaves the key as it was.
pub proof fn incrbyex_rejects_non_integer(k: KeyModel, key: Seq<u8>, n: i64, t: u64)
    requires
        k.held is Hash || (k.held is Scalar && i64_of(k.held->Scalar_0) is None),
    ensures
        ({
            let req = Request::IncrByEx { key, increment: n, seconds: t };
            &&& outcome_on(k, req) == Err::<Effect, CommandError>(
                if k.held is Hash {
                    CommandError::WrongType
                } else {
                    CommandError::InvalidInteger
                },
            )
            &&& after(k, req) == k
        }),
{
}

/// Two hash appends to a field that is not set leave the field holding the
/// two values in order; the second answers their total length.
pub proof fn happend_accumulates(k: KeyModel, key: Seq<u8>, f: Seq<u8>, v1: Seq<u8>, v2: Seq<u8>)
    requires
        k.held is Absent || (k.held is Hash && !k.held->Hash_0.contains_key(f)),
    ensures
        ({
            let first = Request::HAppend { key, field: f, value: v1 };
            let second = Request::HAppend { key, field: f, value: v2 };
            let k1 = after(k, first);
            &&& outcome_on(k, first) is Ok
            &&& outcome_on(k, first)->Ok_0.answer == Answer::Length(v1.len())
            &&& k1.held is Hash && k1.held->Hash_0[f] == v1
            &&& outcome_on(k1, second) is Ok
            &&& outcome_on(k1, second)->Ok_0.answer == Answer::Length(v1.len() + v2.len())
            &&& after(k1, second).held is Hash
            &&& after(k1, second).held->Hash_0[f] == v1 + v2
        }),
{
    let first = Request::HAppend { key, field: f, value: v1 };
    let k1 = after(k, first);
    assert(Seq::<u8>::empty() + v1 =~= v1);
    assert(k1.held->Hash_0.contains_key(f));
}

/// Get-with-expiry run twice with the same time to live ends as running it
/// once, and neither run changes the key's value.
pub proof fn getex_idempotent(k: KeyModel, key: Seq<u8>, t: u64)
    ensures
        ({
            let req = Request::GetEx { key, seconds: t };
            &&& after(after(k, req), req) == after(k, req)
            &&& after(k, req).held == k.held
        }),
{
}

/// Two increments-with-expiry on an absent key add up: the second answers
/// the sum of both increments, where it fits in 64 signed bits, and the key
/// keeps the second time to live.
pub proof fn incrbyex_twice(k: KeyModel, key: Seq<u8>, a: i64, b: i64, t1: u64, t2: u64)
    requires
        k.held is Absent,
        i64::MIN <= a + b <= i64::MAX,
    ensures
        ({
            let first = Request::IncrByEx { key, increment: a, seconds: t1 };
            let second = Request::IncrByEx { key, increment: b, seconds: t2 };
            let k1 = after(k, first);
            &&& outcome_on(k1, second) is Ok
            &&& outcome_on(k1, second)->Ok_0.answer == Answer::Integer((a + b) as i64)
            &&& after(k1, second) == (KeyModel {
                held: Held::Scalar(decimal_text(a + b)),
                expire: Some(t2),
            })
        }),
{
    lemma_decimal_round_trip(a as int);
}

} // verus!
