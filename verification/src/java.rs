//! Tags for the classes of the virtual machine that the library itself
//! names.

pub mod lang;
