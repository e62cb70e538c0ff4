use vstd::prelude::*;

verus! {

/// One device identification object: its id, its length and a fixed-size
/// value area (247 bytes in all on the wire).
#[derive(Debug, Clone, Copy, PartialEq, Eq)]
pub struct DeviceIdentificationObject {
    pub id: u8,
    pub length: u8,
    pub value: [u8; 245],
}

impl DeviceIdentificationObject {
    /// The bytes an object is written as: its id, its length, then the whole
    /// value area.
    pub open spec fn spec_bytes(&self) -> Seq<u8> {
        seq![self.id, self.length] + self.value@
    }

    pub fn bytes_len(&self) -> (res: usize)
        ensures
            res == self.spec_bytes().len(),
            res == 247,
    {
        2 + self.value.len()
    }

    /// The bytes of the object, in order.
    pub fn bytes(&self) -> (res: Vec<u8>)
        ensures
            res@ == self.spec_bytes(),
    {
        let mut out: Vec<u8> = Vec::new();
        out.push(self.id);
        out.push(self.length);
        let mut i: usize = 0;
        while i < 245
            invariant
                i <= 245,
                out@ =~= seq![self.id, self.length] + self.value@.take(i as int),
            decreases 245 - i,
        {
            out.push(self.value[i]);
            i = i + 1;
            assert(out@ =~= seq![self.id, self.length] + self.value@.take(i as int));
        }
        assert(self.value@.take(245) =~= self.value@);
        out
    }

    /// An object with id 0, length 0 and a zeroed value area.
    pub fn new_empty() -> (res: Self)
        ensures
            res.id == 0,
            res.length == 0,
            forall|i: int| 0 <= i < 245 ==> res.value[i] == 0,
    {
        Self { id: 0, length: 0, value: [0; 245] }
    }

    /// Reads an object from `code`: its id at 0, its length at 1, then the
    /// first `length` bytes after them (as many as the value area holds);
    /// the rest of the value area stays zero.
    pub fn try_from(code: &[u8]) -> (res: Result<Self, u8>)
        requires
            code@.len() >= 2,
            code@[1] + 2 <= code@.len(),
        ensures
            res matches Ok(obj) && obj.id == code@[0] && obj.length == code@[1] && (forall|i: int|
                0 <= i < 245 ==> obj.value[i] == (if i < code@[1] {
                    code@[i + 2]
                } else {
                    0u8
                })),
    {
        let length = code[1];
        let mut value: [u8; 245] = [0; 245];
        let n: usize = length as usize;
        let mut i: usize = 0;
        while i < 245 && i < n
            invariant
                i <= 245,
                i <= n,
                n == code@[1],
                n + 2 <= code@.len(),
                forall|j: int|
                    0 <= j < 245 ==> value[j] == (if j < i {
                        code@[j + 2]
                    } else {
                        0u8
                    }),
            decreases 245 - i,
        {
            value[i] = code[i + 2];
            i = i + 1;
        }
        Ok(Self { id: code[0], length, value })
    }
}

} // verus!
