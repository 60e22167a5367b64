pub mod protocol;
pub mod thermometer;
