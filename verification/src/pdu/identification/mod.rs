pub mod conformity_level;
pub mod devid_object;
pub mod list_of_id_objects;
pub mod mei_type;
pub mod more_follows;
pub mod read_device_id_code;

use vstd::prelude::*;

verus! {

/// The id of a device identification object.
pub type ObjectId = u8;

/// The id of the object that the next read should start from.
pub type NextObjectId = u8;

/// The number of objects in a device identification response.
pub type NumberOfObjects = u8;

} // verus!
