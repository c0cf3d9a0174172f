//! Family-generic IP addresses: a closed pair of families (v4 and v6), each
//! bound to its address type and socket-address type, so that one generic
//! routine serves both families while a runtime tag remains available.

/// Address values of each family and of either family.
pub mod addr;
/// The family markers and the capability traits that bind them to their types.
pub mod capability;
/// Text forms of addresses and socket addresses.
pub mod display;
/// The runtime family tag and family extraction.
pub mod family;
mod sealed;
/// Socket addresses: an address with a port.
pub mod socket;
/// Reading addresses and socket addresses from text.
pub mod text;
