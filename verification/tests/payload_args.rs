use lib::payload_param::{next_token, payload_arg_count_after_boundary, PayloadParam};
use lib::state::State;

#[test]
fn tokens_split_on_ascii_whitespace() {
    let line = b"  console=ttyS0\tinit=/sbin/init  -- a  b\n";
    assert_eq!(next_token(line, 0), Some((2, 15)));
    assert_eq!(next_token(line, 15), Some((16, 31)));
    assert_eq!(next_token(line, 41), None);
    assert_eq!(next_token(b"", 0), None);
}

#[test]
fn payload_args_follow_the_boundary() {
    let line = b"quiet -- alpha beta  gamma";
    let boundary = Some(8);
    assert_eq!(payload_arg_count_after_boundary(line, boundary), 3);
    assert_eq!(payload_arg_count_after_boundary(line, None), 0);
    let mut p = PayloadParam::new();
    assert!(p.setup(State::Base, boundary, State::Ready, line).is_err());
    assert!(p.setup(State::Ready, boundary, State::Ready, line).is_ok());
    assert_eq!(p.arg_count(), 3);
    assert_eq!(p.arg(line, boundary, 0), Some(&b"alpha"[..]));
    assert_eq!(p.arg(line, boundary, 2), Some(&b"gamma"[..]));
    assert_eq!(p.arg(line, boundary, 3), None);
    assert_eq!(p.arg(line, None, 0), None);
}
