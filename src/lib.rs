//! A JSend-style response envelope: a value that is either a success carrying
//! data, an anticipated failure, or an unanticipated error, together with a
//! structural encoding that names the outcome in a `"status"` field and omits
//! absent optional fields.

pub mod envelope;
pub mod fields;
pub mod wire;

pub use envelope::RjShip;
pub use fields::ResultFields;
pub use wire::{DecodeError, Field, Status, WireValue};
