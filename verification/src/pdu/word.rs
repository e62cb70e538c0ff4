use vstd::prelude::*;

use super::DataView;

verus! {

/// A run of registers packed two bytes each, most significant first, as a PDU carries them.
#[derive(Debug, PartialEq, Eq, Clone, Copy)]
pub struct DataWords<'a> {
    data: &'a [u8],
    quantity: u16,
}

impl<'a> View for DataWords<'a> {
    type V = DataView;

    closed spec fn view(&self) -> DataView {
        DataView { bytes: self.data@, quantity: self.quantity }
    }
}

impl<'a> DataWords<'a> {
    /// The registers packed in `data`, `quantity` of them.
    pub fn new(data: &'a [u8], quantity: u16) -> (res: Self)
        ensures
            res@ == (DataView { bytes: data@, quantity }),
    {
        DataWords { data, quantity }
    }

    /// The packed bytes.
    pub fn data(&self) -> (res: &'a [u8])
        ensures
            res@ == self@.bytes,
    {
        self.data
    }

    /// The number of registers.
    pub fn quantity(&self) -> (res: u16)
        ensures
            res == self@.quantity,
    {
        self.quantity
    }
}

} // verus!
