//! GMAC Ethernet controller: MAC addresses, configuration, DMA descriptor tables
//! and words, the receiver and transmitter, and the PHY registers.
pub mod builder;
pub mod controller;
pub mod descriptor_table;
pub mod eui48;
pub mod phy;
pub mod receiver;
pub mod rx;
pub mod transmitter;
pub mod tx;
