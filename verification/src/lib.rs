//! Host-side driver logic for ORCA linear motors on a Modbus RTU serial line.
//!
//! The motor speaks standard Modbus RTU, and on top of it a high-speed
//! streaming protocol whose frames carry no length: the request that was sent
//! fixes how many bytes the reply has.
//!
//! - `pdu_payload`: the high-speed frames, how they are written and read
//! - `checksum`: the CRC-16/MODBUS that closes every frame
//! - `wire`, `bits`: integers and flags as they stand in a frame
//! - `modbus`: the two standard Modbus requests the driver needs
//! - `register_map`: the registers of the motor and its modes
//! - `session`: what a round trip with the motor decides
//!
//! The crate performs no input or output. A caller writes the request bytes
//! to the serial line, reads as many bytes as the crate tells it to, and hands
//! them back.

pub mod bits;
pub mod checksum;
pub mod modbus;
pub mod pdu_payload;
pub mod register_map;
pub mod session;
pub mod wire;
