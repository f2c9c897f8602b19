//! Control logic of the SEACom test basin: the vocabulary shared by the
//! basin and its interface, the decisions of the hardware back end (which
//! pins and bridges each driver uses, how a status is read from the sensors,
//! how commands expand over the drivers) and the bookkeeping of the operator
//! interface (queued positions, drivers in motion).
pub mod definitions;
pub mod error;
pub mod text;
pub mod driver_cn_pin;
pub mod drivers_cn_rs232;
pub mod arm_backend;
pub mod interface;
pub mod beaglebone;
