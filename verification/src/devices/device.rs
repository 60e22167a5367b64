use vstd::prelude::*;

verus! {

/// The capability that every smart device offers: a name that identifies it
/// and a free-form description.
pub trait Device {
    /// The device's name, as a sequence of characters.
    spec fn spec_name(&self) -> Seq<char>;

    /// The device's description, as a sequence of characters.
    spec fn spec_description(&self) -> Seq<char>;

    fn get_name(&self) -> (r: &str)
        ensures
            r@ == self.spec_name(),
    ;

    fn get_description(&self) -> (r: &str)
        ensures
            r@ == self.spec_description(),
    ;
}

} // verus!
