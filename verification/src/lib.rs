//! Power-capping experiments on a server: the parsers for what the
//! baseboard management controller prints, the conversion of energy
//! counters into power, the generator of test configurations, and the
//! decisions of the run coordinator and of the two sampling monitors.

pub mod bmc;
pub mod clock;
pub mod coordinator;
pub mod firestarter;
pub mod model;
pub mod monitor;
pub mod power;
pub mod rapl;
pub mod text;
