use vstd::prelude::*;

use super::DataView;

verus! {

/// A run of coils packed eight to a byte, as a PDU carries them.
#[derive(Debug, PartialEq, Eq, Clone, Copy)]
pub struct DataCoils<'a> {
    data: &'a [u8],
    quantity: u16,
}

impl<'a> View for DataCoils<'a> {
    type V = DataView;

    closed spec fn view(&self) -> DataView {
        DataView { bytes: self.data@, quantity: self.quantity }
    }
}

impl<'a> DataCoils<'a> {
    /// The coils packed in `data`, `quantity` of them.
    pub fn new(data: &'a [u8], quantity: u16) -> (res: Self)
        ensures
            res@ == (DataView { bytes: data@, quantity }),
    {
        DataCoils { data, quantity }
    }

    /// The packed bytes.
    pub fn data(&self) -> (res: &'a [u8])
        ensures
            res@ == self@.bytes,
    {
        self.data
    }

    /// The number of coils.
    pub fn quantity(&self) -> (res: u16)
        ensures
            res == self@.quantity,
    {
        self.quantity
    }
}

} // verus!
