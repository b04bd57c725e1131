//! Conversions between the library frames and native CAN frame types; they
//! only convert frame representations in memory and never touch a CAN
//! peripheral.

pub mod embassy;
pub mod embedded_can;
