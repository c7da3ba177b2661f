use judge_agent::procinfo::{is_oom, parse_vm_hwm, ExitStatus};

const STATUS_FILE: &str = "Name:\tcat\n\
Umask:\t0022\n\
State:\tR (running)\n\
VmPeak:\t    5964 kB\n\
VmSize:\t    5964 kB\n\
VmHWM:\t    1796 kB\n\
VmRSS:\t    1796 kB\n\
Threads:\t1\n";

#[test]
fn hwm_reads_kilobytes_as_bytes() {
    assert_eq!(parse_vm_hwm(STATUS_FILE.as_bytes()), Some(1796 * 1024));
}

#[test]
fn hwm_first_matching_line_wins() {
    let contents = b"VmHWM:     12 kB\nVmHWM:     99 kB\n";
    assert_eq!(parse_vm_hwm(contents), Some(12 * 1024));
}

#[test]
fn hwm_line_missing_is_none() {
    let contents = b"Name:\tcat\nVmPeak:\t 5964 kB\n";
    assert_eq!(parse_vm_hwm(contents), None);
}

#[test]
fn hwm_without_trailing_unit_is_malformed() {
    // The token must be delimited by a space, as the status file always
    // writes it; a bare number reaching the end of the line is rejected.
    assert_eq!(parse_vm_hwm(b"VmHWM:\t1796\n"), None);
    assert_eq!(parse_vm_hwm(b"VmHWM:\t1796kB\n"), None);
}

#[test]
fn hwm_non_decimal_is_malformed() {
    assert_eq!(parse_vm_hwm(b"VmHWM:\t  12a4 kB\n"), None);
    assert_eq!(parse_vm_hwm(b"VmHWM:\t   kB\n"), None);
}

#[test]
fn hwm_overflow_is_malformed() {
    // More than 64 bits of kilobytes.
    assert_eq!(parse_vm_hwm(b"VmHWM:\t99999999999999999999 kB\n"), None);
    // Fits 64 bits as kilobytes but not scaled to bytes.
    assert_eq!(parse_vm_hwm(b"VmHWM:\t18446744073709551615 kB\n"), None);
}

#[test]
fn hwm_empty_contents_is_none() {
    assert_eq!(parse_vm_hwm(b""), None);
}

#[test]
fn hwm_line_without_newline_at_eof() {
    assert_eq!(parse_vm_hwm(b"Name:\tx\nVmHWM:   4 kB"), Some(4096));
}

#[test]
fn oom_is_sigkill_without_exit_code() {
    assert!(is_oom(&ExitStatus {
        code: None,
        signal: Some(9)
    }));
    assert!(!is_oom(&ExitStatus {
        code: None,
        signal: Some(11)
    }));
    assert!(!is_oom(&ExitStatus {
        code: Some(137),
        signal: None
    }));
    assert!(!is_oom(&ExitStatus {
        code: Some(0),
        signal: None
    }));
}

#[test]
fn success_is_exit_code_zero() {
    assert!(ExitStatus {
        code: Some(0),
        signal: None
    }
    .success());
    assert!(!ExitStatus {
        code: Some(1),
        signal: None
    }
    .success());
    assert!(!ExitStatus {
        code: None,
        signal: Some(9)
    }
    .success());
}
