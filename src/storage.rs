//! Storage addressed by URI.
use vstd::prelude::*;

verus! {

/// An adaptor that accepts URIs in place of explicit bucket and path pairs,
/// and forwards them to the underlying driver.
#[derive(Debug)]
pub struct DriverUri<D> {
    driver: D,
}

impl<D> DriverUri<D> {
    /// The underlying driver.
    pub closed spec fn driver_spec(&self) -> D {
        self.driver
    }

    /// Address `driver` by URI.
    pub fn new(driver: D) -> (r: Self)
        ensures
            r.driver_spec() == driver,
    {
        DriverUri { driver }
    }

    /// The underlying driver.
    pub fn driver(&self) -> (r: &D)
        ensures
            *r == self.driver_spec(),
    {
        &self.driver
    }
}

impl DriverUri<()> {
    /// The adaptor for the local file system, which needs no driver.
    pub fn file() -> (r: Self)
        ensures
            r.driver_spec() == (),
    {
        DriverUri { driver: () }
    }
}

} // verus!
