//! The runtime's two roles in a DRTIO network.

pub mod master;
pub mod packet;
pub mod satman;
pub mod startup;
