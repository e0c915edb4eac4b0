//! Small lessons on data modelling: a decimal number type, a payment method
//! with payloads of several shapes and its description, and records that share
//! a validity capability.

pub mod decimal;
pub mod payment;
pub mod rand_info;
pub mod structs;
