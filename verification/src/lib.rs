//! The decisions of the firmware of a device in a DRTIO network: how the master
//! starts, how a satellite serves the packets of its auxiliary channel, and how
//! it runs kernels of its own.
//!
//! Nothing here touches a board. Where a decision needs something of the board,
//! it is asked for as a value and the answer is passed back in.

pub mod drtioaux;
pub mod gateware;
pub mod routing;
pub mod runtime;
pub mod satman;
