//! Bidirectional binary codec for 128-bit globally-unique identifiers as they
//! appear in a tabular-data wire protocol's native identifier column type.
//!
//! The canonical rendering of such an identifier keeps every multi-byte group
//! in big-endian order, while the wire column type stores the first three
//! groups (4 + 2 + 2 bytes) little-endian and leaves the trailing 8 bytes in
//! network order. The whole codec therefore reduces to one involutive byte
//! permutation ([`reorder::reorder_bytes`]), applied on the way in and on the
//! way out, plus the column-type compatibility check that gates its use.

pub mod codec;
pub mod descriptor;
pub mod reorder;
