//! The decision engine around a fetch capability.
use vstd::prelude::*;

verus! {

/// Bytes held without copying, freed by whoever holds them with the right allocator.
pub trait DataHolder {
    fn bytes(&self) -> &[u8];
}

impl DataHolder for Vec<u8> {
    fn bytes(&self) -> &[u8] {
        self.as_slice()
    }
}

/// A library instance: owns the capability that fetches bytes for a key.
pub struct Lib<D> {
    data_access: D,
}

impl<D> Lib<D> {
    /// The capability this instance owns.
    pub closed spec fn spec_data_access(&self) -> D {
        self.data_access
    }

    pub fn new(data_access: D) -> (r: Lib<D>)
        ensures
            r.spec_data_access() == data_access,
    {
        Lib { data_access }
    }

    /// The capability this instance fetches through.
    pub fn data_access(&self) -> (r: &D)
        ensures
            *r == self.spec_data_access(),
    {
        &self.data_access
    }

    /// Gives the capability back, ending the instance.
    pub fn into_data_access(self) -> (r: D)
        ensures
            r == self.spec_data_access(),
    {
        self.data_access
    }
}

} // verus!
