//! Tags for classes of the package `java.lang`.

use crate::jvm::{JavaObject, Upcast};
use vstd::prelude::*;

verus! {

/// `java.lang.Object`.
#[derive(Debug, PartialEq, Eq)]
pub struct Object {
    _private: (),
}

/// `java.lang.Class`.
#[derive(Debug, PartialEq, Eq)]
pub struct Class {
    _private: (),
}

/// `java.lang.Throwable`.
#[derive(Debug, PartialEq, Eq)]
pub struct Throwable {
    _private: (),
}

/// `java.lang.String`.
#[derive(Debug, PartialEq, Eq)]
pub struct JavaString {
    _private: (),
}

impl JavaObject for Object {

}

impl JavaObject for Class {

}

impl JavaObject for Throwable {

}

impl JavaObject for JavaString {

}

impl Upcast<Object> for Object {

}

impl Upcast<Object> for Class {

}

impl Upcast<Class> for Class {

}

impl Upcast<Object> for Throwable {

}

impl Upcast<Throwable> for Throwable {

}

impl Upcast<Object> for JavaString {

}

impl Upcast<JavaString> for JavaString {

}

} // verus!
