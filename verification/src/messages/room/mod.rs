//! Room messages and the records they carry.
pub mod records;
pub mod prop_ops;
pub mod room_ops;
pub mod hotspot_ops;
pub mod door_ops;
pub mod picture_ops;
