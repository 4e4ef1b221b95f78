//! The satellite manager: serves the packets that arrive from upstream, and
//! brings the device up and down with its uplink.

pub mod board_steps;
pub mod exchange;
pub mod exchange_laws;
pub mod moninj;
pub mod uplink;

pub use self::board_steps::{drtiosat_reset, drtiosat_reset_phy};
pub use self::exchange::{is_ignored, process_aux_packet, process_aux_packets, resume};
pub use self::uplink::{
    drtiosat_link_rx_up, drtiosat_process_errors, drtiosat_tsc_loaded, hardware_tick,
    playback_done, satman_thread, start, tsc_loaded,
};
