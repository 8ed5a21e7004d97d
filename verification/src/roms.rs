//! Cartridge decoding: the fixed-layout header and its lookup tables, the
//! validation rules, and batch scanning helpers.

pub mod cart;
pub mod cart_type;
pub mod cgbflag;
pub mod publisher;
pub mod validate;
