use unix_ipc::pipe::every_second_byte;
use unix_ipc::socket_path::{path_to_c, vec_to_array, SUN_PATH_LEN};
use unix_ipc::status::{
    accept_outcome, address_failed, checked_id, failed, fork_role, loadavg_samples, succeeded,
    AcceptOutcome, ForkRole, LOADAVG_SAMPLES,
};

#[test]
fn ids_and_statuses() {
    assert_eq!(checked_id(-1), None);
    assert_eq!(checked_id(0), Some(0));
    assert_eq!(checked_id(32769), Some(32769));
    assert_eq!(checked_id(-2), Some(-2));
    assert!(succeeded(0));
    assert!(!succeeded(-1));
    assert!(!succeeded(11));
    assert!(failed(-1));
    assert!(!failed(0));
    assert!(!failed(3));
    assert!(address_failed(usize::MAX));
    assert!(!address_failed(0x7f00_0000));
}

#[test]
fn fork_roles() {
    assert!(matches!(fork_role(-1), ForkRole::Failed));
    assert!(matches!(fork_role(0), ForkRole::Child));
    assert!(matches!(fork_role(1234), ForkRole::Parent(1234)));
}

#[test]
fn accept_outcomes() {
    let (eagain, ewouldblock) = (libc::EAGAIN, libc::EWOULDBLOCK);
    assert!(matches!(accept_outcome(5, 0, eagain, ewouldblock), AcceptOutcome::Connected(5)));
    assert!(matches!(accept_outcome(-1, eagain, eagain, ewouldblock), AcceptOutcome::NoClient));
    assert!(matches!(accept_outcome(-1, ewouldblock, eagain, ewouldblock), AcceptOutcome::NoClient));
    assert!(matches!(
        accept_outcome(-1, libc::EBADF, eagain, ewouldblock),
        AcceptOutcome::Failed(code) if code == libc::EBADF
    ));
}

#[test]
fn loadavg_sample_counts() {
    assert_eq!(LOADAVG_SAMPLES, 3);
    assert_eq!(loadavg_samples(-1), None);
    assert_eq!(loadavg_samples(3), Some(3));
}

#[test]
fn socket_path_field() {
    let bytes = path_to_c("/tmp/225072_socket");
    assert_eq!(bytes, b"/tmp/225072_socket".to_vec());
    let field = vec_to_array(&bytes);
    assert_eq!(field.len(), SUN_PATH_LEN);
    for (i, b) in bytes.iter().enumerate() {
        assert_eq!(field[i], *b as i8);
    }
    assert!(field[bytes.len()..].iter().all(|&c| c == 0));
    let high = vec_to_array(&vec![0xC3, 0xA9]);
    assert_eq!(high[0], -61);
    assert_eq!(high[1], -87);
    let full = vec_to_array(&vec![b'a'; 108]);
    assert!(full.iter().all(|&c| c == 97));
    assert_eq!(path_to_c("é"), vec![0xC3, 0xA9]);
}

#[test]
fn every_second_byte_from_first() {
    assert_eq!(every_second_byte(&b"abcdef".to_vec()), b"ace".to_vec());
    assert_eq!(every_second_byte(&b"abcde".to_vec()), b"ace".to_vec());
    assert_eq!(every_second_byte(&b"a".to_vec()), b"a".to_vec());
    assert_eq!(every_second_byte(&Vec::new()), Vec::<u8>::new());
}
