use crate::devices::device::Device;
use vstd::prelude::*;

verus! {

/// A thermometer device.  The registry only needs its identity; the sampled
/// temperature itself is kept by [`crate::devices::temperature::Temperature`].
#[derive(Debug)]
pub struct SmartThermometer {
    pub name: String,
    pub description: String,
}

impl SmartThermometer {
    pub fn new(name: &str, description: &str) -> (t: SmartThermometer)
        ensures
            t.name@ == name@,
            t.description@ == description@,
    {
        SmartThermometer { name: name.to_owned(), description: description.to_owned() }
    }
}

impl Clone for SmartThermometer {
    fn clone(&self) -> (r: Self)
        ensures
            r == *self,
    {
        SmartThermometer { name: self.name.clone(), description: self.description.clone() }
    }
}

impl Device for SmartThermometer {
    open spec fn spec_name(&self) -> Seq<char> {
        self.name@
    }

    open spec fn spec_description(&self) -> Seq<char> {
        self.description@
    }

    fn get_name(&self) -> (r: &str) {
        self.name.as_str()
    }

    fn get_description(&self) -> (r: &str) {
        self.description.as_str()
    }
}

} // verus!
