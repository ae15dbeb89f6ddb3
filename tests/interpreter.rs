use virtualenv_rs::interpreter::{
    cache_file_name, cache_file_path, check_cache_entry, check_probe_output, new_cache_entry,
    probe_failed, CacheDecision, CacheRead, InterpreterInfo, ProbeError,
};

fn info() -> InterpreterInfo {
    InterpreterInfo {
        base_exec_prefix: "/usr".to_string(),
        base_prefix: "/usr".to_string(),
        major: 3,
        minor: 11,
        python_version: "3.11.4".to_string(),
    }
}

#[test]
fn cache_file_name_is_decimal_json() {
    assert_eq!(cache_file_name(0), "0.json");
    assert_eq!(cache_file_name(9876543210), "9876543210.json");
}

#[test]
fn cache_file_path_uses_seahash_of_path() {
    let interpreter = "/usr/bin/python3.11";
    let expected = format!(
        "/home/u/.cache/virtualenv-rs/interpreter_info/{}.json",
        seahash::hash(interpreter.as_bytes())
    );
    assert_eq!(cache_file_path("/home/u/.cache/virtualenv-rs", interpreter), expected);
    assert_ne!(
        cache_file_path("/c", "/usr/bin/python3.11"),
        cache_file_path("/c", "/usr/bin/python3.12")
    );
}

#[test]
fn stored_entry_hits_until_touched() {
    let entry = new_cache_entry("/usr/bin/python3", 1500, &info());
    match check_cache_entry(CacheRead::Found(entry.clone()), "/usr/bin/python3", 1500) {
        CacheDecision::Hit(i) => assert_eq!(i.python_version, "3.11.4"),
        CacheDecision::Probe { .. } => panic!("expected a hit"),
    }
    assert!(matches!(
        check_cache_entry(CacheRead::Found(entry.clone()), "/usr/bin/python3", 1501),
        CacheDecision::Probe { remove_broken: false }
    ));
    assert!(matches!(
        check_cache_entry(CacheRead::Found(entry), "/usr/bin/python", 1500),
        CacheDecision::Probe { remove_broken: false }
    ));
}

#[test]
fn missing_cache_probes() {
    assert!(matches!(
        check_cache_entry(CacheRead::Missing, "/usr/bin/python3", 1),
        CacheDecision::Probe { remove_broken: false }
    ));
}

#[test]
fn broken_cache_is_removed_and_reprobed() {
    let d = check_cache_entry(CacheRead::Broken("expected value at line 1".to_string()), "/p", 3);
    assert!(matches!(d, CacheDecision::Probe { remove_broken: true }));
    let rewritten = new_cache_entry("/p", 3, &info());
    assert!(matches!(check_cache_entry(CacheRead::Found(rewritten), "/p", 3), CacheDecision::Hit(_)));
}

#[test]
fn probe_success_returns_stdout() {
    let r = check_probe_output(true, b"{\"major\": 3}\n", b"");
    assert!(matches!(r, Ok(ref s) if s == "{\"major\": 3}\n"));
    let r = check_probe_output(true, b"out", b"  \n\t");
    assert!(matches!(r, Ok(ref s) if s == "out"));
}

#[test]
fn probe_with_stderr_fails() {
    match check_probe_output(true, b"  out \n", b"\nDeprecationWarning: x\n") {
        Err(ProbeError::Failed { stdout, stderr }) => {
            assert_eq!(stdout, "out");
            assert_eq!(stderr, "DeprecationWarning: x");
        }
        Ok(_) => panic!("expected a failure"),
    }
}

#[test]
fn probe_with_failed_status_fails() {
    assert!(matches!(check_probe_output(false, b"x", b""), Err(ProbeError::Failed { .. })));
}

#[test]
fn probe_output_decoded_lossily() {
    match check_probe_output(true, b"ab\xffcd", b"") {
        Ok(s) => assert_eq!(s, "ab\u{FFFD}cd"),
        Err(_) => panic!("invalid UTF-8 must not fail the probe"),
    }
}

#[test]
fn probe_failed_rule() {
    assert!(!probe_failed(true, ""));
    assert!(probe_failed(false, ""));
    assert!(probe_failed(true, "w"));
}

#[test]
fn interpreter_info_duplicate_keeps_fields() {
    let d = info().duplicate();
    assert_eq!(d.major, 3);
    assert_eq!(d.minor, 11);
    assert_eq!(d.base_prefix, "/usr");
    assert_eq!(d.python_version, "3.11.4");
}
