//! Safe handles, attachment state and reference ownership for an embedded
//! Java virtual machine, as a call-free core: every function here decides
//! what to ask of the virtual machine and what its answers mean, and leaves
//! the native call itself to the host.
//!
//! An operation that needs the virtual machine comes in steps. A step
//! returns the `Call` that the host is to make, and the next step takes what
//! came back, as plain addresses and status codes. The module `protocol`
//! holds a picture of the virtual machine and proves, against it, what the
//! steps achieve together.

pub mod error;
pub mod find;
pub mod java;
pub mod jvm;
pub mod protocol;
pub mod raw;
pub mod ref_;
pub mod str;
pub mod text;
pub mod thread;

pub use crate::error::{Error, GlobalResult, LocalResult};
pub use crate::jvm::{JavaObject, JavaScalar, JavaType, Jvm};
pub use crate::ref_::{Global, Local};
