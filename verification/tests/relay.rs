use line_relay::coordinator::broadcast_plan;
use line_relay::coordinator::on_connect;
use line_relay::coordinator::send_to;
use line_relay::coordinator::on_line;
use line_relay::coordinator::on_read_error;
use line_relay::coordinator::on_write_error;
use line_relay::registry::Registry;
use line_relay::wire::ack_line;
use line_relay::wire::login_line;
use line_relay::wire::message_line;

#[test]
fn login_line_small_id() {
    assert_eq!(login_line(0), b"LOGIN:0\n".to_vec());
    assert_eq!(login_line(7), b"LOGIN:7\n".to_vec());
}

#[test]
fn login_line_multi_digit_id() {
    assert_eq!(login_line(100), b"LOGIN:100\n".to_vec());
    assert_eq!(login_line(8888), b"LOGIN:8888\n".to_vec());
}

#[test]
fn login_line_largest_id() {
    assert_eq!(login_line(65535), b"LOGIN:65535\n".to_vec());
}

#[test]
fn message_line_wraps_sender_and_text() {
    assert_eq!(
        message_line(100, &b"hello".to_vec()),
        b"MESSAGE:100 hello\n".to_vec()
    );
}

#[test]
fn message_line_empty_text() {
    assert_eq!(message_line(7, &b"".to_vec()), b"MESSAGE:7 \n".to_vec());
}

#[test]
fn ack_line_is_fixed_token() {
    assert_eq!(ack_line(), b"ACK:MESSAGE\n".to_vec());
}

#[test]
fn new_registry_is_empty() {
    let reg = Registry::new();
    assert_eq!(reg.len(), 0);
    assert!(!reg.contains(100));
}

#[test]
fn register_makes_id_live() {
    let mut reg = Registry::new();
    reg.register(100);
    assert_eq!(reg.len(), 1);
    assert!(reg.contains(100));
    assert!(!reg.contains(200));
}

#[test]
fn register_colliding_id_keeps_one_entry() {
    let mut reg = Registry::new();
    reg.register(100);
    reg.register(100);
    assert_eq!(reg.len(), 1);
    assert!(reg.contains(100));
}

#[test]
fn deregister_removes_only_that_id() {
    let mut reg = Registry::new();
    reg.register(100);
    reg.register(200);
    reg.deregister(100);
    assert_eq!(reg.len(), 1);
    assert!(!reg.contains(100));
    assert!(reg.contains(200));
}

#[test]
fn deregister_absent_id_is_a_no_op() {
    let mut reg = Registry::new();
    reg.register(100);
    reg.deregister(200);
    assert_eq!(reg.len(), 1);
    assert!(reg.contains(100));
}

#[test]
fn register_again_after_deregister_succeeds() {
    let mut reg = Registry::new();
    reg.register(100);
    reg.deregister(100);
    assert!(!reg.contains(100));
    reg.register(100);
    assert!(reg.contains(100));
    assert_eq!(reg.len(), 1);
}

#[test]
fn send_to_live_id_owes_the_bytes() {
    let mut reg = Registry::new();
    reg.register(100);
    let d = send_to(&reg, 100, b"LOGIN:100\n".to_vec()).unwrap();
    assert_eq!(d.target, 100);
    assert_eq!(d.bytes, b"LOGIN:100\n".to_vec());
}

#[test]
fn send_to_absent_id_is_silent() {
    let reg = Registry::new();
    assert!(send_to(&reg, 100, b"x".to_vec()).is_none());
}

#[test]
fn broadcast_plan_payload_or_ack() {
    let mut reg = Registry::new();
    reg.register(100);
    reg.register(200);
    reg.register(300);
    let plan = broadcast_plan(&reg, 200, &b"payload".to_vec());
    assert_eq!(plan.len(), 3);
    assert_eq!(plan[0].target, 100);
    assert_eq!(plan[0].bytes, b"payload".to_vec());
    assert_eq!(plan[1].target, 200);
    assert_eq!(plan[1].bytes, b"ACK:MESSAGE\n".to_vec());
    assert_eq!(plan[2].target, 300);
    assert_eq!(plan[2].bytes, b"payload".to_vec());
}

#[test]
fn two_logins_then_broadcast() {
    let mut reg = Registry::new();

    let plan = on_connect(&mut reg, 100);
    assert_eq!(plan.len(), 1);
    assert_eq!(plan[0].target, 100);
    assert_eq!(plan[0].bytes, b"LOGIN:100\n".to_vec());

    let plan = on_connect(&mut reg, 200);
    assert_eq!(plan.len(), 1);
    assert_eq!(plan[0].target, 200);
    assert_eq!(plan[0].bytes, b"LOGIN:200\n".to_vec());

    let plan = on_line(&reg, 100, &b"hello".to_vec());
    assert_eq!(plan.len(), 2);
    assert_eq!(plan[0].target, 100);
    assert_eq!(plan[0].bytes, b"ACK:MESSAGE\n".to_vec());
    assert_eq!(plan[1].target, 200);
    assert_eq!(plan[1].bytes, b"MESSAGE:100 hello\n".to_vec());
}

#[test]
fn lone_sender_gets_only_the_ack() {
    let mut reg = Registry::new();
    on_connect(&mut reg, 100);

    let plan = on_line(&reg, 100, &b"hi".to_vec());
    assert_eq!(plan.len(), 1);
    assert_eq!(plan[0].target, 100);
    assert_eq!(plan[0].bytes, b"ACK:MESSAGE\n".to_vec());
    assert!(plan.iter().all(|d| !d.bytes.starts_with(b"MESSAGE:")));
}

#[test]
fn no_delivery_toward_disconnected_peer() {
    let mut reg = Registry::new();
    on_connect(&mut reg, 100);
    on_connect(&mut reg, 200);

    on_read_error(&mut reg, 100);
    assert!(!reg.contains(100));

    let plan = on_line(&reg, 200, &b"x".to_vec());
    assert!(plan.iter().all(|d| d.target != 100));
    assert_eq!(plan.len(), 1);
    assert_eq!(plan[0].target, 200);
    assert_eq!(plan[0].bytes, b"ACK:MESSAGE\n".to_vec());
}

#[test]
fn empty_line_is_broadcast_like_any_other() {
    let mut reg = Registry::new();
    on_connect(&mut reg, 100);
    on_connect(&mut reg, 200);

    let plan = on_line(&reg, 100, &b"".to_vec());
    assert_eq!(plan.len(), 2);
    assert_eq!(plan[1].target, 200);
    assert_eq!(plan[1].bytes, b"MESSAGE:100 \n".to_vec());
}

#[test]
fn peer_sees_lines_in_send_order() {
    let mut reg = Registry::new();
    on_connect(&mut reg, 100);
    on_connect(&mut reg, 200);

    let first = on_line(&reg, 100, &b"L1".to_vec());
    let second = on_line(&reg, 100, &b"L2".to_vec());

    let to_peer_first = first.iter().find(|d| d.target == 200).unwrap();
    let to_peer_second = second.iter().find(|d| d.target == 200).unwrap();
    assert_eq!(to_peer_first.bytes, b"MESSAGE:100 L1\n".to_vec());
    assert_eq!(to_peer_second.bytes, b"MESSAGE:100 L2\n".to_vec());
    assert_ne!(to_peer_first.bytes, to_peer_second.bytes);
}

#[test]
fn write_failure_does_not_deregister() {
    let mut reg = Registry::new();
    on_connect(&mut reg, 100);
    on_connect(&mut reg, 200);
    on_connect(&mut reg, 300);

    on_write_error(&mut reg, 200);
    assert_eq!(reg.len(), 3);
    assert!(reg.contains(200));

    let plan = on_line(&reg, 100, &b"still here".to_vec());
    assert_eq!(plan.len(), 3);
    let to_200 = plan.iter().find(|d| d.target == 200).unwrap();
    let to_300 = plan.iter().find(|d| d.target == 300).unwrap();
    assert_eq!(to_200.bytes, b"MESSAGE:100 still here\n".to_vec());
    assert_eq!(to_300.bytes, b"MESSAGE:100 still here\n".to_vec());
}

#[test]
fn colliding_connect_keeps_registry_and_sends_login() {
    let mut reg = Registry::new();
    on_connect(&mut reg, 100);
    let plan = on_connect(&mut reg, 100);
    assert_eq!(reg.len(), 1);
    assert_eq!(plan.len(), 1);
    assert_eq!(plan[0].target, 100);
    assert_eq!(plan[0].bytes, b"LOGIN:100\n".to_vec());
}
