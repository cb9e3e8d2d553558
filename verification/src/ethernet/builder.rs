//! Configuration of the GMAC controller before it is built.
use vstd::prelude::*;
use super::eui48::Identifier as EthernetAddress;

verus! {

/// Number of alternate MAC addresses the controller can match.
pub const MAX_ALTERNATE_ADDRESSES: usize = 3;

/// GMAC controller configuration.
pub struct Builder {
    ethernet_address: EthernetAddress,
    alternate_addresses: [Option<EthernetAddress>; 3],
    alternate_address_count: usize,
    disable_broadcast: bool,
    phy_address: u8,
}

/// The configuration held by a [`Builder`].
pub struct BuilderModel {
    pub ethernet_address: EthernetAddress,
    pub alternate_addresses: Seq<EthernetAddress>,
    pub disable_broadcast: bool,
    pub phy_address: u8,
}

impl View for Builder {
    type V = BuilderModel;

    closed spec fn view(&self) -> BuilderModel {
        BuilderModel {
            ethernet_address: self.ethernet_address,
            alternate_addresses: Seq::new(
                self.alternate_address_count as nat,
                |i: int| self.alternate_addresses[i]->0,
            ),
            disable_broadcast: self.disable_broadcast,
            phy_address: self.phy_address,
        }
    }
}

impl Builder {
    /// The alternate addresses stored are the first `count` slots, all filled.
    pub closed spec fn wf(&self) -> bool {
        &&& self.alternate_address_count <= 3
        &&& forall|i: int| 0 <= i < self.alternate_address_count ==> #[trigger] self.alternate_addresses[i] is Some
    }

    /// A configuration with the default address, no alternate addresses, broadcast
    /// enabled and PHY address 0.
    pub fn new() -> (r: Self)
        ensures
            r.wf(),
            r@.ethernet_address.0@ == seq![0x02u8, 0x00u8, 0x00u8, 0x00u8, 0x00u8, 0x00u8],
            r@.alternate_addresses == Seq::<EthernetAddress>::empty(),
            !r@.disable_broadcast,
            r@.phy_address == 0,
    {
        let r = Builder {
            ethernet_address: EthernetAddress::default(),
            alternate_addresses: [None; 3],
            alternate_address_count: 0,
            disable_broadcast: false,
            phy_address: 0,
        };
        proof {
            assert(r@.alternate_addresses =~= Seq::<EthernetAddress>::empty());
        }
        r
    }

    /// Sets the controller's MAC address.
    pub fn set_ethernet_address(self, ethernet_address: EthernetAddress) -> (r: Self)
        requires self.wf(),
        ensures r.wf(), r@ == (BuilderModel { ethernet_address, ..self@ }),
    {
        let r = Builder { ethernet_address, ..self };
        proof {
            assert(r@.alternate_addresses =~= self@.alternate_addresses);
        }
        r
    }

    /// The controller's MAC address.
    pub fn ethernet_address(&self) -> (r: EthernetAddress)
        ensures r == self@.ethernet_address,
    {
        self.ethernet_address
    }

    /// Adds an alternate MAC address; at most three can be added.
    pub fn add_alternate_ethernet_address(self, ethernet_address: EthernetAddress) -> (r: Self)
        requires
            self.wf(),
            self@.alternate_addresses.len() < MAX_ALTERNATE_ADDRESSES,
        ensures
            r.wf(),
            r@ == (BuilderModel {
                alternate_addresses: self@.alternate_addresses.push(ethernet_address),
                ..self@
            }),
    {
        let mut r = self;
        r.alternate_addresses[r.alternate_address_count] = Some(ethernet_address);
        r.alternate_address_count += 1;
        proof {
            assert(r@.alternate_addresses =~= self@.alternate_addresses.push(ethernet_address));
        }
        r
    }

    /// Number of alternate MAC addresses added.
    pub fn alternate_ethernet_address_count(&self) -> (r: usize)
        requires self.wf(),
        ensures r == self@.alternate_addresses.len(), r <= MAX_ALTERNATE_ADDRESSES,
    {
        self.alternate_address_count
    }

    /// The alternate MAC address added `index`-th.
    pub fn alternate_ethernet_address(&self, index: usize) -> (r: EthernetAddress)
        requires
            self.wf(),
            index < self@.alternate_addresses.len(),
        ensures r == self@.alternate_addresses[index as int],
    {
        match self.alternate_addresses[index] {
            Some(a) => a,
            None => {
                proof {
                    assert(self.alternate_addresses[index as int] is Some);
                }
                self.ethernet_address
            },
        }
    }

    /// Disables the reception of broadcast frames.
    pub fn disable_broadcast(self) -> (r: Self)
        requires self.wf(),
        ensures r.wf(), r@ == (BuilderModel { disable_broadcast: true, ..self@ }),
    {
        let r = Builder { disable_broadcast: true, ..self };
        proof {
            assert(r@.alternate_addresses =~= self@.alternate_addresses);
        }
        r
    }

    /// Whether broadcast reception is disabled.
    pub fn has_disable_broadcast(&self) -> (r: bool)
        ensures r == self@.disable_broadcast,
    {
        self.disable_broadcast
    }

    /// Sets the address of the PHY on the management bus.
    pub fn set_phy_address(self, phy_address: u8) -> (r: Self)
        requires self.wf(),
        ensures r.wf(), r@ == (BuilderModel { phy_address, ..self@ }),
    {
        let r = Builder { phy_address, ..self };
        proof {
            assert(r@.alternate_addresses =~= self@.alternate_addresses);
        }
        r
    }

    /// The address of the PHY on the management bus.
    pub fn phy_address(&self) -> (r: u8)
        ensures r == self@.phy_address,
    {
        self.phy_address
    }
}

impl Default for Builder {
    fn default() -> (r: Self)
        ensures
            r.wf(),
            r@.ethernet_address.0@ == seq![0x02u8, 0x00u8, 0x00u8, 0x00u8, 0x00u8, 0x00u8],
            r@.alternate_addresses == Seq::<EthernetAddress>::empty(),
            !r@.disable_broadcast,
            r@.phy_address == 0,
    {
        Self::new()
    }
}

} // verus!
