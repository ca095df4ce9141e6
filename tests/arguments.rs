use redisx::command::{parse_command, parse_ttl, Command, CommandError, CommandKind};
use redisx::decimal::{parse_i64, render_i64};

fn args(xs: &[&str]) -> Vec<Vec<u8>> {
    xs.iter().map(|s| s.as_bytes().to_vec()).collect()
}

#[test]
fn arity_too_many_and_too_few() {
    let e = parse_command(CommandKind::Prepend, &args(&["x.prepend", "k", "v", "extra"]));
    assert_eq!(e.unwrap_err(), CommandError::WrongArity);
    let e = parse_command(CommandKind::Prepend, &args(&["x.prepend", "k"]));
    assert_eq!(e.unwrap_err(), CommandError::WrongArity);
    let e = parse_command(CommandKind::GetDel, &args(&["x.getdel"]));
    assert_eq!(e.unwrap_err(), CommandError::WrongArity);
    let e = parse_command(CommandKind::GetDel, &args(&[]));
    assert_eq!(e.unwrap_err(), CommandError::WrongArity);
    let e = parse_command(CommandKind::GetSetEx, &args(&["x.getsetex", "k", "v"]));
    assert_eq!(e.unwrap_err(), CommandError::WrongArity);
    let e = parse_command(CommandKind::HAppend, &args(&["x.happend", "k", "f", "v", "w"]));
    assert_eq!(e.unwrap_err(), CommandError::WrongArity);
}

#[test]
fn incrbyex_reads_arguments_in_order() {
    let e = parse_command(CommandKind::IncrByEx, &args(&["x.incrbyex", "k", "nope"]));
    assert_eq!(e.unwrap_err(), CommandError::InvalidInteger);
    let e = parse_command(CommandKind::IncrByEx, &args(&["x.incrbyex", "k", "5"]));
    assert_eq!(e.unwrap_err(), CommandError::WrongArity);
    let e = parse_command(CommandKind::IncrByEx, &args(&["x.incrbyex", "k", "5", "-1"]));
    assert_eq!(e.unwrap_err(), CommandError::InvalidInteger);
    match parse_command(CommandKind::IncrByEx, &args(&["x.incrbyex", "k", "-5", "10"])).unwrap() {
        Command::IncrByEx { key, increment, seconds } => {
            assert_eq!(key, b"k".to_vec());
            assert_eq!(increment, -5);
            assert_eq!(seconds, 10);
        }
        other => panic!("unexpected command {:?}", other),
    }
}

#[test]
fn ttl_argument_errors() {
    let e = parse_command(CommandKind::GetEx, &args(&["x.getex", "k", "ten"]));
    assert_eq!(e.unwrap_err(), CommandError::InvalidInteger);
    assert_eq!(parse_ttl(&b"0".to_vec()), Some(0));
    assert_eq!(parse_ttl(&b"9223372036854775".to_vec()), Some(9223372036854775));
    assert_eq!(parse_ttl(&b"9223372036854776".to_vec()), None);
    assert_eq!(parse_ttl(&b"-3".to_vec()), None);
}

#[test]
fn integer_text_forms() {
    assert_eq!(parse_i64(&b"0".to_vec()), Some(0));
    assert_eq!(parse_i64(&b"42".to_vec()), Some(42));
    assert_eq!(parse_i64(&b"-42".to_vec()), Some(-42));
    assert_eq!(parse_i64(&b"9223372036854775807".to_vec()), Some(i64::MAX));
    assert_eq!(parse_i64(&b"-9223372036854775808".to_vec()), Some(i64::MIN));
    assert_eq!(parse_i64(&b"9223372036854775808".to_vec()), None);
    assert_eq!(parse_i64(&b"-9223372036854775809".to_vec()), None);
    assert_eq!(parse_i64(&b"99999999999999999999999".to_vec()), None);
    assert_eq!(parse_i64(&b"".to_vec()), None);
    assert_eq!(parse_i64(&b"-".to_vec()), None);
    assert_eq!(parse_i64(&b"-0".to_vec()), None);
    assert_eq!(parse_i64(&b"007".to_vec()), None);
    assert_eq!(parse_i64(&b"+7".to_vec()), None);
    assert_eq!(parse_i64(&b"1x".to_vec()), None);
    assert_eq!(parse_i64(&b" 1".to_vec()), None);
}

#[test]
fn integer_rendering() {
    assert_eq!(render_i64(0), b"0".to_vec());
    assert_eq!(render_i64(1234), b"1234".to_vec());
    assert_eq!(render_i64(-5), b"-5".to_vec());
    assert_eq!(render_i64(i64::MIN), b"-9223372036854775808".to_vec());
    assert_eq!(render_i64(i64::MAX), b"9223372036854775807".to_vec());
}
