use crate::devices::temperature::Temperature;
use crate::devices::thermometer::SmartThermometer;
use vstd::prelude::*;

verus! {

/// The datagram-fed thermometer: the thermometer's identity and the
/// shared cell its background receive loop keeps fresh.
///
/// The loop itself — receive a message, try to read a sample out of it,
/// store what was read — lives outside the library and feeds each
/// outcome to [`Self::record_sample`].
#[derive(Debug)]
pub struct ThermometerSocketServer {
    pub device: SmartThermometer,
    pub temperature: Temperature,
}

impl ThermometerSocketServer {
    /// A server for the given thermometer, with the all-zero sample.
    pub fn new(device: SmartThermometer) -> (s: ThermometerSocketServer)
        ensures
            s.device == device,
            s.temperature.bits == 0,
    {
        ThermometerSocketServer { device, temperature: Temperature::new() }
    }

    /// The current sample, as raw single-precision bits.
    pub fn get_temperature(&self) -> (r: u32)
        ensures
            r == self.temperature.bits,
    {
        self.temperature.get()
    }

    /// The thermometer this server stands for.
    pub fn get_device(&self) -> (r: SmartThermometer)
        ensures
            r == self.device,
    {
        self.device.clone()
    }

    /// One step of the background loop: a sample that was decoded from a
    /// received message is stored whole; a message that held no sample
    /// leaves the cell as it was.
    pub fn record_sample(&mut self, sample: Option<u32>)
        ensures
            final(self).device == old(self).device,
            match sample {
                Some(bits) => final(self).temperature.bits == bits,
                None => final(self).temperature == old(self).temperature,
            },
    {
        self.temperature.apply_sample(sample);
    }
}

} // verus!
