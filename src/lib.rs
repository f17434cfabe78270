//! Catalog entries of a merchant platform (items, their purchasable
//! variations and add-on modifications), the envelope that holds any one of
//! them, the stored document around it, and their encoding to and from a
//! self-describing wire value, with the round trip proved.

pub mod wire;
pub mod catalog;
pub mod codec;
pub mod laws;
