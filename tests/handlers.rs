use redisx::command::{parse_command, Command, CommandError, CommandKind};
use redisx::engine::{execute, getdel, getex, happend, incrbyex, prepend, Change, Observed, Reply};
use redisx::slot::Slot;

fn b(s: &str) -> Vec<u8> {
    s.as_bytes().to_vec()
}

fn prepend_cmd(key: &str, value: &str) -> Command {
    Command::Prepend { key: b(key), value: b(value) }
}

fn length(r: Result<Reply, CommandError>) -> usize {
    match r {
        Ok(Reply::Length(n)) => n,
        other => panic!("unexpected reply {:?}", other),
    }
}

#[test]
fn prepend_scenario() {
    let mut x = Slot::new();
    assert_eq!(length(x.run(&prepend_cmd("x", "hello"))), 5);
    assert_eq!(x.value(), Some(b("hello")));
    assert_eq!(length(x.run(&prepend_cmd("x", "!"))), 6);
    assert_eq!(x.value(), Some(b("!hello")));
}

#[test]
fn prepend_empty_value_still_writes() {
    let mut x = Slot::new();
    assert_eq!(length(x.run(&prepend_cmd("x", ""))), 0);
    assert!(!x.is_absent());
    assert_eq!(x.value(), Some(Vec::new()));
    let o = prepend(&Observed::Absent, &Vec::new()).unwrap();
    assert!(o.replicates());
}

#[test]
fn prepend_on_hash_is_wrong_type() {
    let mut x = Slot::new();
    x.run(&Command::HAppend { key: b("x"), field: b("f"), value: b("a") }).unwrap();
    assert_eq!(x.run(&prepend_cmd("x", "z")).unwrap_err(), CommandError::WrongType);
    assert_eq!(x.field(&b("f")), Some(b("a")));
}

#[test]
fn getsetex_scenario() {
    let mut y = Slot::new();
    let r = y.run(&Command::GetSetEx { key: b("y"), value: b("v1"), seconds: 100 }).unwrap();
    assert!(matches!(r, Reply::Nil));
    assert_eq!(y.value(), Some(b("v1")));
    assert_eq!(y.ttl(), Some(100));
    let r = y.run(&Command::GetSetEx { key: b("y"), value: b("v2"), seconds: 50 }).unwrap();
    match r {
        Reply::Bulk(v) => assert_eq!(v, b("v1")),
        other => panic!("unexpected reply {:?}", other),
    }
    assert_eq!(y.value(), Some(b("v2")));
    assert_eq!(y.ttl(), Some(50));
}

#[test]
fn getex_on_absent_creates_nothing() {
    let mut k = Slot::new();
    let r = k.run(&Command::GetEx { key: b("k"), seconds: 10 }).unwrap();
    assert!(matches!(r, Reply::Nil));
    assert!(k.is_absent());
    assert_eq!(k.ttl(), None);
    let o = getex(&Observed::Absent, 10).unwrap();
    assert!(!o.replicates());
}

#[test]
fn getex_twice_keeps_value_and_sets_ttl() {
    let mut k = Slot::new();
    k.run(&prepend_cmd("k", "val")).unwrap();
    for _ in 0..2 {
        match k.run(&Command::GetEx { key: b("k"), seconds: 30 }).unwrap() {
            Reply::Bulk(v) => assert_eq!(v, b("val")),
            other => panic!("unexpected reply {:?}", other),
        }
        assert_eq!(k.value(), Some(b("val")));
        assert_eq!(k.ttl(), Some(30));
    }
    let o = getex(&Observed::Scalar(b("val")), 30).unwrap();
    assert!(o.replicates());
    assert!(matches!(o.change, Change::Keep));
}

#[test]
fn getdel_absent_and_present() {
    let mut k = Slot::new();
    assert!(matches!(k.run(&Command::GetDel { key: b("k") }).unwrap(), Reply::Nil));
    assert!(!getdel(&Observed::Absent).unwrap().replicates());
    k.run(&Command::GetSetEx { key: b("k"), value: b("v"), seconds: 5 }).unwrap();
    match k.run(&Command::GetDel { key: b("k") }).unwrap() {
        Reply::Bulk(v) => assert_eq!(v, b("v")),
        other => panic!("unexpected reply {:?}", other),
    }
    assert!(k.is_absent());
    assert_eq!(k.ttl(), None);
}

#[test]
fn incrbyex_from_absent() {
    let mut k = Slot::new();
    let r = k.run(&Command::IncrByEx { key: b("k"), increment: 7, seconds: 9 }).unwrap();
    assert!(matches!(r, Reply::Integer(7)));
    assert_eq!(k.value(), Some(b("7")));
    assert_eq!(k.ttl(), Some(9));
    let r = k.run(&Command::IncrByEx { key: b("k"), increment: -20, seconds: 3 }).unwrap();
    assert!(matches!(r, Reply::Integer(-13)));
    assert_eq!(k.value(), Some(b("-13")));
    assert_eq!(k.ttl(), Some(3));
}

#[test]
fn incrbyex_non_integer_leaves_key() {
    let mut k = Slot::new();
    k.run(&prepend_cmd("k", "abc")).unwrap();
    let e = k.run(&Command::IncrByEx { key: b("k"), increment: 1, seconds: 9 }).unwrap_err();
    assert_eq!(e, CommandError::InvalidInteger);
    assert_eq!(k.value(), Some(b("abc")));
    assert_eq!(k.ttl(), None);
    assert_eq!(incrbyex(&Observed::Hash(None), 1, 1).unwrap_err(), CommandError::WrongType);
}

#[test]
fn incrbyex_overflow() {
    let seen = Observed::Scalar(b("9223372036854775807"));
    assert_eq!(incrbyex(&seen, 1, 1).unwrap_err(), CommandError::Overflow);
    let seen = Observed::Scalar(b("-9223372036854775808"));
    assert_eq!(incrbyex(&seen, -1, 1).unwrap_err(), CommandError::Overflow);
    let o = incrbyex(&seen, 0, 1).unwrap();
    match o.change {
        Change::Write(v) => assert_eq!(v, b("-9223372036854775808")),
        other => panic!("unexpected change {:?}", other),
    }
}

#[test]
fn happend_accumulates_field() {
    let mut k = Slot::new();
    let a = Command::HAppend { key: b("k"), field: b("f"), value: b("a") };
    let bb = Command::HAppend { key: b("k"), field: b("f"), value: b("b") };
    assert_eq!(length(k.run(&a)), 1);
    assert_eq!(length(k.run(&bb)), 2);
    assert_eq!(k.field(&b("f")), Some(b("ab")));
    let g = Command::HAppend { key: b("k"), field: b("g"), value: b("xyz") };
    assert_eq!(length(k.run(&g)), 3);
    assert_eq!(k.field(&b("f")), Some(b("ab")));
    assert_eq!(k.field(&b("g")), Some(b("xyz")));
    assert_eq!(k.field(&b("h")), None);
}

#[test]
fn happend_on_scalar_is_wrong_type() {
    let seen = Observed::Scalar(b("s"));
    assert_eq!(happend(&seen, &b("f"), &b("v")).unwrap_err(), CommandError::WrongType);
    let o = happend(&Observed::Hash(Some(b("12"))), &b("f"), &b("3")).unwrap();
    assert!(matches!(o.reply, Reply::Length(3)));
    match o.change {
        Change::WriteField(f, v) => {
            assert_eq!(f, b("f"));
            assert_eq!(v, b("123"));
        }
        other => panic!("unexpected change {:?}", other),
    }
}

#[test]
fn parse_then_execute() {
    let args = vec![b("x.getsetex"), b("y"), b("v1"), b("100")];
    let cmd = parse_command(CommandKind::GetSetEx, &args).unwrap();
    assert_eq!(cmd.key(), &b("y"));
    assert!(cmd.field().is_none());
    let o = execute(&cmd, &Observed::Absent).unwrap();
    assert!(matches!(o.reply, Reply::Nil));
    assert_eq!(o.expire, Some(100));
    let args = vec![b("x.happend"), b("k"), b("f"), b("v")];
    let cmd = parse_command(CommandKind::HAppend, &args).unwrap();
    assert_eq!(cmd.field(), Some(&b("f")));
}

#[test]
fn incrbyex_twice_adds_up() {
    let mut k = Slot::new();
    k.run(&Command::IncrByEx { key: b("k"), increment: 40, seconds: 1 }).unwrap();
    let r = k.run(&Command::IncrByEx { key: b("k"), increment: 2, seconds: 8 }).unwrap();
    assert!(matches!(r, Reply::Integer(42)));
    assert_eq!(k.value(), Some(b("42")));
    assert_eq!(k.ttl(), Some(8));
}
