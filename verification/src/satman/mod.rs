//! A satellite that runs kernels of its own.

pub mod aux;
pub mod aux_laws;
pub mod aux_step_laws;
pub mod inbox;
pub mod kernel;
pub mod kernel_cpu;
pub mod kernel_laws;
pub mod kernel_proto;
pub mod log_lines;
pub mod packet;
pub mod sliceable;
pub mod transaction;
