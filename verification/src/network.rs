//! The decisions of the base station's network poll. Once the interface has
//! processed traffic, a DHCP event reconfigures the interface and updates the
//! status, a closed vision socket is bound to the SSL vision multicast port, a
//! closed server socket is bound to the server port on the interface's addresses,
//! and each socket with a datagram waiting is read.
use vstd::prelude::*;

use crate::status::Status;

verus! {

/// The UDP port of the SSL vision multicast group.
pub const SSL_VISION_MULTICAST_PORT: u16 = 10006;
/// The UDP port on which the base station listens for the server.
pub const SERVER_PORT: u16 = 0xb45e;

/// The SSL vision multicast group, 224.5.23.2.
pub fn ssl_vision_multicast_group() -> (r: [u8; 4])
    ensures
        r@ == seq![224u8, 5u8, 23u8, 2u8],
{
    let r: [u8; 4] = [224, 5, 23, 2];
    assert(r@ =~= seq![224u8, 5u8, 23u8, 2u8]);
    r
}

/// What the DHCP client reported.
#[derive(Clone, Copy, Debug, PartialEq, Eq)]
pub enum DhcpEvent {
    /// A lease: the address with its prefix length, and the default gateway.
    Configured { address: [u8; 4], prefix_len: u8, router: [u8; 4] },
    /// The lease was lost.
    Deconfigured,
}

/// What to do to the interface.
#[derive(Clone, Copy, Debug, PartialEq, Eq)]
pub enum DhcpAction {
    /// Replace the default route by `router`, make `address/prefix_len` the only
    /// address, and join the SSL vision multicast group.
    Configure { address: [u8; 4], prefix_len: u8, router: [u8; 4] },
    /// Drop all addresses and the default route.
    Deconfigure,
    /// Leave the interface as it is.
    Keep,
}

/// What is known of a UDP socket after the interface ran.
#[derive(Clone, Copy, Debug, PartialEq, Eq, Structural)]
pub struct SocketState {
    pub open: bool,
    pub can_recv: bool,
}

/// What to do with a UDP socket: bind it, and read one datagram from it.
#[derive(Clone, Copy, Debug, PartialEq, Eq, Structural)]
pub struct SocketPlan {
    pub bind: bool,
    pub receive: bool,
}

/// The whole of what one poll does.
#[derive(Clone, Copy, Debug, PartialEq, Eq)]
pub struct PollPlan {
    pub dhcp: DhcpAction,
    pub vision: SocketPlan,
    pub server: SocketPlan,
}

/// The interface change a DHCP event (or none) asks for.
pub open spec fn spec_dhcp_action(event: Option<DhcpEvent>) -> DhcpAction {
    match event {
        Some(DhcpEvent::Configured { address, prefix_len, router }) =>
            DhcpAction::Configure { address, prefix_len, router },
        Some(DhcpEvent::Deconfigured) => DhcpAction::Deconfigure,
        None => DhcpAction::Keep,
    }
}

/// A closed socket is bound; a socket with a datagram waiting is read.
pub open spec fn spec_socket_plan(state: SocketState) -> SocketPlan {
    SocketPlan { bind: !state.open, receive: state.can_recv }
}

/// Decides one poll after the interface has processed traffic: the DHCP event
/// `dhcp` and the sockets' states decide the plan, and a new lease's address
/// becomes the status's address (a lost lease leaves the status as it was).
pub fn plan_poll(dhcp: Option<DhcpEvent>, vision: SocketState, server: SocketState, status: &mut Status)
    -> (r: PollPlan)
    ensures
        r.dhcp == spec_dhcp_action(dhcp),
        r.vision == spec_socket_plan(vision),
        r.server == spec_socket_plan(server),
        final(status).ip == (match dhcp {
            Some(DhcpEvent::Configured { address, .. }) => Some(address),
            _ => old(status).ip,
        }),
{
    let action = match dhcp {
        Some(DhcpEvent::Configured { address, prefix_len, router }) => {
            status.ip = Some(address);
            DhcpAction::Configure { address, prefix_len, router }
        },
        Some(DhcpEvent::Deconfigured) => DhcpAction::Deconfigure,
        None => DhcpAction::Keep,
    };
    PollPlan {
        dhcp: action,
        vision: SocketPlan { bind: !vision.open, receive: vision.can_recv },
        server: SocketPlan { bind: !server.open, receive: server.can_recv },
    }
}

} // verus!
