//! An in-memory key: the value store's side of one key, which applies the
//! handlers' outcomes.

use vstd::prelude::*;
use crate::command::{copy_bytes, Command, CommandError};
use crate::engine::{execute, Change, Observed, Outcome, Reply};
use crate::model::{after, applied, field_of, outcome_on, seen_of, Held, KeyModel};

verus! {

/// The fields of a hash, each name once.
#[derive(Debug)]
pub struct FieldTable {
    entries: Vec<(Vec<u8>, Vec<u8>)>,
}

pub open spec fn table_map(s: Seq<(Vec<u8>, Vec<u8>)>) -> Map<Seq<u8>, Seq<u8>>
    decreases s.len(),
{
    if s.len() == 0 {
        Map::empty()
    } else {
        table_map(s.drop_last()).insert(s.last().0@, s.last().1@)
    }
}

pub open spec fn names_unique(s: Seq<(Vec<u8>, Vec<u8>)>) -> bool {
    forall|i: int, j: int| 0 <= i < j < s.len() ==> s[i].0@ != s[j].0@
}

proof fn lemma_table_miss(s: Seq<(Vec<u8>, Vec<u8>)>, f: Seq<u8>)
    requires
        forall|i: int| 0 <= i < s.len() ==> s[i].0@ != f,
    ensures
        !table_map(s).contains_key(f),
    decreases s.len(),
{
    if s.len() > 0 {
        lemma_table_miss(s.drop_last(), f);
    }
}

proof fn lemma_table_hit(s: Seq<(Vec<u8>, Vec<u8>)>, i: int)
    requires
        names_unique(s),
        0 <= i < s.len(),
    ensures
        table_map(s).contains_key(s[i].0@),
        table_map(s)[s[i].0@] == s[i].1@,
    decreases s.len(),
{
    if i < s.len() - 1 {
        lemma_table_hit(s.drop_last(), i);
    }
}

proof fn lemma_table_update(s: Seq<(Vec<u8>, Vec<u8>)>, i: int, e: (Vec<u8>, Vec<u8>))
    requires
        names_unique(s),
        0 <= i < s.len(),
        e.0@ == s[i].0@,
    ensures
        table_map(s.update(i, e)) == table_map(s).insert(e.0@, e.1@),
        names_unique(s.update(i, e)),
    decreases s.len(),
{
    let u = s.update(i, e);
    assert(u.drop_last() =~= if i < s.len() - 1 {
        s.drop_last().update(i, e)
    } else {
        s.drop_last()
    });
    if i < s.len() - 1 {
        lemma_table_update(s.drop_last(), i, e);
        assert(table_map(u) =~= table_map(s).insert(e.0@, e.1@));
    } else {
        assert(table_map(u) =~= table_map(s).insert(e.0@, e.1@));
    }
}

/// Whether two byte strings are equal.
pub fn bytes_equal(a: &Vec<u8>, b: &Vec<u8>) -> (r: bool)
    ensures
        r == (a@ == b@),
{
    if a.len() != b.len() {
        return false;
    }
    let mut i: usize = 0;
    while i < a.len()
        invariant
            a@.len() == b@.len(),
            i <= a@.len(),
            forall|k: int| 0 <= k < i ==> a@[k] == b@[k],
        decreases a@.len() - i,
    {
        if a[i] != b[i] {
            return false;
        }
        i = i + 1;
    }
    assert(a@ =~= b@);
    true
}

impl View for FieldTable {
    type V = Map<Seq<u8>, Seq<u8>>;

    closed spec fn view(&self) -> Map<Seq<u8>, Seq<u8>> {
        table_map(self.entries@)
    }
}

impl FieldTable {
    pub closed spec fn wf(&self) -> bool {
        names_unique(self.entries@)
    }

    pub fn new() -> (r: FieldTable)
        ensures
            r.wf(),
            r@ == Map::<Seq<u8>, Seq<u8>>::empty(),
    {
        FieldTable { entries: Vec::new() }
    }

    fn position(&self, field: &Vec<u8>) -> (r: Option<usize>)
        requires
            self.wf(),
        ensures
            match r {
                Some(i) => i < self.entries@.len() && self.entries@[i as int].0@ == field@,
                None => !self@.contains_key(field@) && forall|k: int|
                    0 <= k < self.entries@.len() ==> self.entries@[k].0@ != field@,
            },
    {
        let mut i: usize = 0;
        while i < self.entries.len()
            invariant
                i <= self.entries@.len(),
                forall|k: int| 0 <= k < i ==> self.entries@[k].0@ != field@,
            decreases self.entries@.len() - i,
        {
            if bytes_equal(&self.entries[i].0, field) {
                return Some(i);
            }
            i = i + 1;
        }
        proof {
            lemma_table_miss(self.entries@, field@);
        }
        None
    }

    /// The value of a field, if it is set.
    pub fn get(&self, field: &Vec<u8>) -> (r: Option<Vec<u8>>)
        requires
            self.wf(),
        ensures
            match r {
                Some(v) => self@.contains_key(field@) && v@ == self@[field@],
                None => !self@.contains_key(field@),
            },
    {
        match self.position(field) {
            Some(i) => {
                proof {
                    lemma_table_hit(self.entries@, i as int);
                }
                Some(copy_bytes(&self.entries[i].1))
            },
            None => None,
        }
    }

    /// Sets a field, adding it where it is not set yet.
    pub fn set(&mut self, field: Vec<u8>, value: Vec<u8>)
        requires
            old(self).wf(),
        ensures
            final(self).wf(),
            final(self)@ == old(self)@.insert(field@, value@),
    {
        match self.position(&field) {
            Some(i) => {
                proof {
                    lemma_table_update(self.entries@, i as int, (field, value));
                }
                self.entries.set(i, (field, value));
            },
            None => {
                proof {
                    lemma_table_miss(self.entries@, field@);
                    assert(self.entries@.push((field, value)).drop_last() =~= self.entries@);
                }
                self.entries.push((field, value));
            },
        }
    }
}

} // verus!

verus! {

/// What an in-memory key holds.
#[derive(Debug)]
pub enum Stored {
    Absent,
    Scalar(Vec<u8>),
    Hash(FieldTable),
}

/// One key of an in-memory value store.
#[derive(Debug)]
pub struct Slot {
    stored: Stored,
    expire: Option<u64>,
}

impl View for Slot {
    type V = KeyModel;

    closed spec fn view(&self) -> KeyModel {
        KeyModel {
            held: match self.stored {
                Stored::Absent => Held::Absent,
                Stored::Scalar(v) => Held::Scalar(v@),
                Stored::Hash(t) => Held::Hash(t@),
            },
            expire: self.expire,
        }
    }
}

impl Slot {
    pub closed spec fn wf(&self) -> bool {
        match self.stored {
            Stored::Hash(t) => t.wf(),
            _ => true,
        }
    }

    /// An absent key.
    pub fn new() -> (r: Slot)
        ensures
            r.wf(),
            r@ == (KeyModel { held: Held::Absent, expire: None }),
    {
        Slot { stored: Stored::Absent, expire: None }
    }

    /// What a handler that addresses `field` reads of the key.
    pub fn observe(&self, field: Option<&Vec<u8>>) -> (r: Observed)
        requires
            self.wf(),
        ensures
            r@ == seen_of(
                self@,
                match field {
                    Some(f) => Some(f@),
                    None => None,
                },
            ),
    {
        match &self.stored {
            Stored::Absent => Observed::Absent,
            Stored::Scalar(v) => Observed::Scalar(copy_bytes(v)),
            Stored::Hash(t) => match field {
                Some(f) => Observed::Hash(t.get(f)),
                None => Observed::Hash(None),
            },
        }
    }

    /// Applies a handler's outcome to the key.
    pub fn apply(&mut self, outcome: Outcome)
        requires
            old(self).wf(),
        ensures
            final(self).wf(),
            final(self)@ == applied(old(self)@, outcome@),
    {
        let Outcome { reply: _, change, expire } = outcome;
        match change {
            Change::Keep => {},
            Change::Write(v) => {
                self.stored = Stored::Scalar(v);
                self.expire = None;
            },
            Change::Delete => {
                self.stored = Stored::Absent;
                self.expire = None;
            },
            Change::WriteField(f, v) => {
                let mut taken = Stored::Absent;
                core::mem::swap(&mut taken, &mut self.stored);
                let mut table = match taken {
                    Stored::Hash(t) => t,
                    _ => FieldTable::new(),
                };
                table.set(f, v);
                self.stored = Stored::Hash(table);
            },
        }
        if let Some(t) = expire {
            self.expire = Some(t);
        }
    }

    /// Runs `cmd` on the key: reads it, decides, and applies the decision
    /// where the handler succeeded; answers the handler's reply or error.
    pub fn run(&mut self, cmd: &Command) -> (r: Result<Reply, CommandError>)
        requires
            old(self).wf(),
        ensures
            final(self).wf(),
            final(self)@ == after(old(self)@, cmd@),
            match outcome_on(old(self)@, cmd@) {
                Ok(e) => r is Ok && r->Ok_0@ == e.answer,
                Err(x) => r == Err::<Reply, CommandError>(x),
            },
    {
        let seen = self.observe(cmd.field());
        match execute(cmd, &seen) {
            Ok(outcome) => {
                let Outcome { reply, change, expire } = outcome;
                self.apply(Outcome { reply: Reply::Nil, change, expire });
                Ok(reply)
            },
            Err(e) => Err(e),
        }
    }

    /// The scalar that the key holds, if it holds one.
    pub fn value(&self) -> (r: Option<Vec<u8>>)
        ensures
            match self@.held {
                Held::Scalar(v) => r is Some && r->Some_0@ == v,
                _ => r is None,
            },
    {
        match &self.stored {
            Stored::Scalar(v) => Some(copy_bytes(v)),
            _ => None,
        }
    }

    /// The value of a field of the hash at the key, if the key holds a hash
    /// with that field set.
    pub fn field(&self, field: &Vec<u8>) -> (r: Option<Vec<u8>>)
        requires
            self.wf(),
        ensures
            match self@.held {
                Held::Hash(m) => if m.contains_key(field@) {
                    r is Some && r->Some_0@ == m[field@]
                } else {
                    r is None
                },
                _ => r is None,
            },
    {
        match &self.stored {
            Stored::Hash(t) => t.get(field),
            _ => None,
        }
    }

    /// Whether the key is absent.
    pub fn is_absent(&self) -> (r: bool)
        ensures
            r == self@.held is Absent,
    {
        matches!(self.stored, Stored::Absent)
    }

    /// The key's time to live in seconds, if it has one.
    pub fn ttl(&self) -> (r: Option<u64>)
        ensures
            r == self@.expire,
    {
        self.expire
    }
}

} // verus!
