use crate::devices::device::Device;
use vstd::prelude::*;

verus! {

/// A wall socket that can be switched on and off and reports its power
/// consumption.  It starts switched off.
#[derive(Debug)]
pub struct SmartSocket {
    pub power_consumption: u32,
    pub is_on: bool,
    pub description: String,
    pub name: String,
}

/// The state of a socket after one `switch` command: the on/off flag is
/// inverted and everything else is kept.
pub open spec fn apply_switch(s: SmartSocket) -> SmartSocket {
    SmartSocket { is_on: !s.is_on, ..s }
}

/// The state of a socket after a run of `n` `switch` commands.
pub open spec fn apply_switches(s: SmartSocket, n: nat) -> SmartSocket
    decreases n,
{
    if n == 0 {
        s
    } else {
        apply_switch(apply_switches(s, (n - 1) as nat))
    }
}

/// A socket that starts switched off is on after `n` `switch` commands
/// exactly when `n` is odd.
pub proof fn lemma_switch_parity(s: SmartSocket, n: nat)
    requires
        !s.is_on,
    ensures
        apply_switches(s, n).is_on == (n % 2 == 1),
    decreases n,
{
    if n > 0 {
        lemma_switch_parity(s, (n - 1) as nat);
    }
}

impl SmartSocket {
    pub fn new(name: &str, description: &str, power_consumption: u32) -> (s: SmartSocket)
        ensures
            s.name@ == name@,
            s.description@ == description@,
            s.power_consumption == power_consumption,
            !s.is_on,
    {
        SmartSocket {
            power_consumption,
            name: name.to_owned(),
            description: description.to_owned(),
            is_on: false,
        }
    }

    pub fn turn_on(&mut self)
        ensures
            *final(self) == (SmartSocket { is_on: true, ..*old(self) }),
    {
        self.is_on = true;
    }

    pub fn turn_off(&mut self)
        ensures
            *final(self) == (SmartSocket { is_on: false, ..*old(self) }),
    {
        self.is_on = false;
    }

    pub fn switch(&mut self)
        ensures
            *final(self) == apply_switch(*old(self)),
    {
        self.is_on = !self.is_on;
    }

    pub fn is_on(&self) -> (r: bool)
        ensures
            r == self.is_on,
    {
        self.is_on
    }

    pub fn power_consumption(&self) -> (r: u32)
        ensures
            r == self.power_consumption,
    {
        self.power_consumption
    }

    pub fn description(&self) -> (r: &str)
        ensures
            r@ == self.description@,
    {
        self.description.as_str()
    }
}

impl Device for SmartSocket {
    open spec fn spec_name(&self) -> Seq<char> {
        self.name@
    }

    open spec fn spec_description(&self) -> Seq<char> {
        self.description@
    }

    fn get_name(&self) -> (r: &str) {
        self.name.as_str()
    }

    fn get_description(&self) -> (r: &str) {
        self.description.as_str()
    }
}

} // verus!
