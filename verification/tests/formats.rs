use unix_ipc::decimal::{push_signed, push_unsigned};
use unix_ipc::errno::Errno;
use unix_ipc::state::{describe_state, running_time};

#[test]
fn decimal_of_unsigned() {
    for (n, text) in [(0u64, "0"), (7, "7"), (10, "10"), (225072, "225072"), (u64::MAX, "18446744073709551615")] {
        let mut s = String::from("x=");
        push_unsigned(&mut s, n);
        assert_eq!(s, format!("x={}", text));
    }
}

#[test]
fn decimal_of_signed() {
    for n in [0i64, 1, -1, 9, -10, 12345, i64::MAX, i64::MIN] {
        let mut s = String::new();
        push_signed(&mut s, n);
        assert_eq!(s, n.to_string());
    }
}

#[test]
fn errno_description() {
    let e = Errno::new(2, String::from("No such file or directory"));
    assert_eq!(e.code, 2);
    assert_eq!(e.info(), "No such file or directory");
    assert_eq!(e.describe(), "Errno code: 2, strerror: No such file or directory");
    let n = Errno::new(-5, String::new());
    assert_eq!(n.describe(), "Errno code: -5, strerror: ");
}

#[test]
fn state_description() {
    let text = describe_state(4242, 1000, 100, 17, "(0.5, 0.25, 0.0)");
    assert_eq!(
        text,
        "Current state is: pid = 4242, uid = 1000, gid = 100, running_time = 17, loadavg = (0.5, 0.25, 0.0)"
    );
    let negative = describe_state(1, 0, 0, -3, "()");
    assert_eq!(
        negative,
        "Current state is: pid = 1, uid = 0, gid = 0, running_time = -3, loadavg = ()"
    );
}

#[test]
fn running_time_is_elapsed_seconds() {
    assert_eq!(running_time(1_700_000_000, 1_700_000_042), 42);
    assert_eq!(running_time(100, 100), 0);
    assert_eq!(running_time(100, 90), -10);
}
