//! The wire types and what they are written to and read from.

pub mod bigendian;
pub mod buf;
pub mod cid;
pub mod codec;
pub mod pn;
pub mod varint;

pub use self::cid::ConnectionID;
pub use self::codec::{Decoder, Encoder};
pub use self::pn::{Generater, PackageNumber};
pub use self::varint::VarInt;

use vstd::prelude::*;

verus! {

/// Identifier of the protocol draft that these layouts belong to.
pub const VERSION: u32 = 0xff00000C;

} // verus!
