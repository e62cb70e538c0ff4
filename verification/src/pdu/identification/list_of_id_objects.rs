use vstd::prelude::*;

use crate::pdu::identification::devid_object::DeviceIdentificationObject;

verus! {

/// The bytes that a run of objects is written as: each object's bytes, one
/// object after the other.
pub open spec fn objects_bytes(objects: Seq<DeviceIdentificationObject>) -> Seq<u8>
    decreases objects.len(),
{
    if objects.len() == 0 {
        Seq::empty()
    } else {
        objects_bytes(objects.drop_last()) + objects.last().spec_bytes()
    }
}

/// Every object takes 247 bytes.
pub proof fn lemma_objects_bytes_len(objects: Seq<DeviceIdentificationObject>)
    ensures
        objects_bytes(objects).len() == 247 * objects.len(),
    decreases objects.len(),
{
    if objects.len() > 0 {
        lemma_objects_bytes_len(objects.drop_last());
    }
}

/// The full list of device identification objects of a response.
#[derive(Debug, PartialEq, Eq)]
pub struct ListOfIdObjects {
    pub list_of_id_objects: [DeviceIdentificationObject; 256],
}

impl ListOfIdObjects {
    /// The bytes the list is written as.
    pub open spec fn spec_bytes(&self) -> Seq<u8> {
        objects_bytes(self.list_of_id_objects@)
    }

    pub fn bytes_len(&self) -> (res: usize)
        ensures
            res == self.spec_bytes().len(),
            res == 256 * 247,
    {
        proof {
            lemma_objects_bytes_len(self.list_of_id_objects@);
        }
        let mut sum: usize = 0;
        let mut k: usize = 0;
        while k < 256
            invariant
                k <= 256,
                sum == 247 * k,
            decreases 256 - k,
        {
            sum = sum + self.list_of_id_objects[k].bytes_len();
            k = k + 1;
        }
        sum
    }

    /// The bytes of all objects, in order.
    pub fn bytes(&self) -> (res: Vec<u8>)
        ensures
            res@ == self.spec_bytes(),
    {
        let ghost objs = self.list_of_id_objects@;
        let mut out: Vec<u8> = Vec::new();
        let mut k: usize = 0;
        while k < 256
            invariant
                k <= 256,
                objs == self.list_of_id_objects@,
                objs.len() == 256,
                out@ == objects_bytes(objs.take(k as int)),
            decreases 256 - k,
        {
            let mut b = self.list_of_id_objects[k].bytes();
            proof {
                assert(objs.take(k + 1).drop_last() =~= objs.take(k as int));
            }
            out.append(&mut b);
            k = k + 1;
        }
        assert(objs.take(256) =~= objs);
        out
    }
}

} // verus!
