use vstd::prelude::*;

verus! {

/// A caller-supplied source of the device names that a report should
/// cover.  Implementations may own their devices or borrow them; the
/// report generator takes whatever list they hand back and is verified
/// for every such list.
pub trait DeviceInfoProvider {
    fn get_devices(&self) -> Vec<&str>;
}

} // verus!
