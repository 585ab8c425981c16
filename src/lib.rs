//! A discrete-time model of a road vehicle: engine speed, road speed and
//! energy use derived tick by tick from the driver's controls.
pub mod units;
pub mod smoothing;
pub mod controls;
pub mod profile;
pub mod powertrain;
pub mod motion;
pub mod electric;
pub mod combustion;
pub mod laws;
pub mod driver;

pub use combustion::CombustionCar;
pub use controls::{Gear, GearTable, HandBrake};
pub use electric::Car;
pub use smoothing::{exponential_moving_average, SmoothingWindow};
pub use profile::Profile;
