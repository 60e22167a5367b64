pub mod device;
pub mod smart_socket;
pub mod temperature;
pub mod thermometer;
