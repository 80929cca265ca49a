use system_calls::handlers::answer_lookup;
use system_calls::parse_syscall_number;
use system_calls::AppError;
use system_calls::Syscall;

#[test]
fn parses_valid_number() {
    assert_eq!(parse_syscall_number("123").unwrap(), 123);
}

#[test]
fn rejects_negative_number() {
    match parse_syscall_number("-1").unwrap_err() {
        AppError::BadRequest(msg) => {
            assert_eq!(msg, "number must be a non-negative 32-bit integer")
        }
        err => panic!("unexpected error: {err:?}"),
    }
}

#[test]
fn rejects_number_larger_than_u32() {
    match parse_syscall_number("4294967296").unwrap_err() {
        AppError::BadRequest(msg) => {
            assert_eq!(msg, "number must be a non-negative 32-bit integer")
        }
        err => panic!("unexpected error: {err:?}"),
    }
}

fn sample_syscall() -> Syscall {
    Syscall {
        os: "linux".into(),
        arch: "x86_64".into(),
        number: 1,
        abi: "sysv".into(),
        name: "write".into(),
        entry: "sys_write".into(),
        man_url: Some("https://man7.org/linux/man-pages/man2/write.2.html".into()),
    }
}

fn is_bad_number(r: Result<u32, AppError>) -> bool {
    matches!(r, Err(AppError::BadRequest(ref m)) if m == "number must be a non-negative 32-bit integer")
}

#[test]
fn accepts_the_forms_that_parse_accepts() {
    assert_eq!(parse_syscall_number("0").unwrap(), 0);
    assert_eq!(parse_syscall_number("+7").unwrap(), 7);
    assert_eq!(parse_syscall_number("007").unwrap(), 7);
    assert_eq!(parse_syscall_number("4294967295").unwrap(), u32::MAX);
    assert_eq!(parse_syscall_number("0004294967295").unwrap(), u32::MAX);
}

#[test]
fn refuses_what_parse_refuses() {
    for s in ["", "+", "-", "-0", " 1", "1 ", "1a", "0x10", "1_000", "++1", "\u{663}", "99999999999999999999"] {
        assert!(is_bad_number(parse_syscall_number(s)), "{s:?}");
        assert_eq!(s.parse::<u32>().is_err(), true, "{s:?}");
    }
}

#[test]
fn agrees_with_std_parse() {
    for s in ["0", "1", "12", "+12", "00", "4294967295", "4294967296", "-5", "5-", "+", "", "12345678901"] {
        match s.parse::<u32>() {
            Ok(n) => assert_eq!(parse_syscall_number(s).unwrap(), n),
            Err(_) => assert!(is_bad_number(parse_syscall_number(s))),
        }
    }
}

#[test]
fn invalid_number_is_answered_with_bad_request_json() {
    let err = parse_syscall_number("-1").unwrap_err();
    assert_eq!(err.status_code(), 400);
    assert_eq!(err.client_message(), "number must be a non-negative 32-bit integer");
}

#[test]
fn missing_syscall_is_answered_with_not_found() {
    let err = answer_lookup::<Syscall>(Ok(None)).unwrap_err();
    assert!(matches!(err, AppError::NotFound));
    assert_eq!(err.status_code(), 404);
    assert_eq!(err.client_message(), "not found");
}

#[test]
fn found_syscall_is_answered_as_stored() {
    let s = answer_lookup(Ok(Some(sample_syscall()))).unwrap();
    assert_eq!(s.os, "linux");
    assert_eq!(s.arch, "x86_64");
    assert_eq!(s.number, 1);
    assert_eq!(s.abi, "sysv");
    assert_eq!(s.name, "write");
    assert_eq!(s.entry, "sys_write");
    assert_eq!(s.man_url.as_deref(), Some("https://man7.org/linux/man-pages/man2/write.2.html"));
}

#[test]
fn read_failure_is_passed_on() {
    let err = answer_lookup::<Syscall>(Err(AppError::Ddb("timeout".into()))).unwrap_err();
    assert!(matches!(err, AppError::Ddb(ref m) if m == "timeout"));
    assert_eq!(err.status_code(), 500);
}
