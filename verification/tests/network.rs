use luhbots::network::{
    plan_poll, ssl_vision_multicast_group, DhcpAction, DhcpEvent, SocketPlan, SocketState,
    SERVER_PORT, SSL_VISION_MULTICAST_PORT,
};
use luhbots::status::Status;

#[test]
fn vision_group_and_ports() {
    assert_eq!(ssl_vision_multicast_group(), [224, 5, 23, 2]);
    assert_eq!(SSL_VISION_MULTICAST_PORT, 10006);
    assert_eq!(SERVER_PORT, 46174);
}

#[test]
fn a_lease_configures_the_interface_and_the_status() {
    let mut status = Status { ip: None };
    let closed = SocketState { open: false, can_recv: false };
    let plan = plan_poll(
        Some(DhcpEvent::Configured { address: [10, 0, 0, 7], prefix_len: 24, router: [10, 0, 0, 1] }),
        closed,
        closed,
        &mut status,
    );
    assert_eq!(
        plan.dhcp,
        DhcpAction::Configure { address: [10, 0, 0, 7], prefix_len: 24, router: [10, 0, 0, 1] }
    );
    assert_eq!(plan.vision, SocketPlan { bind: true, receive: false });
    assert_eq!(plan.server, SocketPlan { bind: true, receive: false });
    assert_eq!(status.ip, Some([10, 0, 0, 7]));
    assert_eq!(status.text(), b"IP: 10.0.0.7\n\r".to_vec());
}

#[test]
fn a_lost_lease_deconfigures_and_keeps_the_status() {
    let mut status = Status { ip: Some([192, 168, 1, 2]) };
    let open = SocketState { open: true, can_recv: true };
    let plan = plan_poll(Some(DhcpEvent::Deconfigured), open, open, &mut status);
    assert_eq!(plan.dhcp, DhcpAction::Deconfigure);
    assert_eq!(plan.vision, SocketPlan { bind: false, receive: true });
    assert_eq!(plan.server, SocketPlan { bind: false, receive: true });
    assert_eq!(status.ip, Some([192, 168, 1, 2]));
}

#[test]
fn no_event_keeps_the_interface() {
    let mut status = Status { ip: None };
    let plan = plan_poll(
        None,
        SocketState { open: true, can_recv: false },
        SocketState { open: false, can_recv: true },
        &mut status,
    );
    assert_eq!(plan.dhcp, DhcpAction::Keep);
    assert_eq!(plan.vision, SocketPlan { bind: false, receive: false });
    assert_eq!(plan.server, SocketPlan { bind: true, receive: true });
    assert_eq!(status.ip, None);
}
