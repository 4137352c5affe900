//! Looking up classes, methods and constructors by name.

use crate::error::{checked, explain, is_internal, Error, LocalResult};
use crate::java::lang::{Class, Throwable};
use crate::jvm::Jvm;
use crate::raw::{Call, MethodPtr, Step};
use crate::ref_::{Borrowed, Local};
use vstd::prelude::*;
use vstd::string::*;

verus! {

/// The name under which every constructor is looked up.
pub open spec fn constructor_name() -> Seq<char> {
    "<init>"@
}

/// The description of a class that was not found, though nothing was thrown.
pub open spec fn no_class(jni_name: Seq<char>) -> Seq<char> {
    "failed to find class `"@ + jni_name + "`"@
}

/// The description of a method that was not found, though nothing was
/// thrown.
pub open spec fn no_method(jni_name: Seq<char>, jni_descriptor: Seq<char>) -> Seq<char> {
    "failed to find method `"@ + jni_name + "` with signature `"@ + jni_descriptor + "`"@
}

impl<'jvm> Jvm<'jvm> {
    /// The call that looks a class up by its name: `FindClass`. `find_class`
    /// takes what it returns.
    pub fn find_class(&self, jni_name: &str) -> (call: Call<'jvm>)
        ensures
            call matches Call::FindClass(e, n) && e == self@.attachment.env && n@ == jni_name@,
    {
        Call::FindClass(self.env(), String::from_str(jni_name))
    }

    /// The call that looks a method of `class` up by its name and
    /// descriptor: `GetMethodID`. `find_method` takes what it returns.
    pub fn get_method_id(
        &self,
        class: &Borrowed<'_, Class>,
        jni_name: &str,
        jni_descriptor: &str,
    ) -> (call: Call<'jvm>)
        ensures
            call matches Call::GetMethodID(e, c, n, d) && e == self@.attachment.env && c
                == class.obj() && n@ == jni_name@ && d@ == jni_descriptor@,
    {
        Call::GetMethodID(
            self.env(),
            class.as_raw(),
            String::from_str(jni_name),
            String::from_str(jni_descriptor),
        )
    }

    /// The call that looks a constructor of `class` up by its descriptor:
    /// `GetMethodID` under the name of all constructors. `find_constructor`
    /// takes what it returns.
    pub fn get_constructor_id(&self, class: &Borrowed<'_, Class>, jni_descriptor: &str) -> (call:
        Call<'jvm>)
        ensures
            call matches Call::GetMethodID(e, c, n, d) && e == self@.attachment.env && c
                == class.obj() && n@ == constructor_name() && d@ == jni_descriptor@,
    {
        self.get_method_id(class, "<init>", jni_descriptor)
    }
}

/// What `FindClass` found, where `class` is the address that it returned. A
/// class that was found is held by a scoped reference, which the scope now
/// counts. Where none was found the virtual machine should have thrown: the
/// library asks, by `ExceptionOccurred`, and the caller goes on with
/// `class_not_found`.
pub fn find_class<'jvm>(jvm: &mut Jvm<'jvm>, class: usize) -> (r: Step<
    'jvm,
    Local<'jvm, Class>,
>)
    ensures
        final(jvm)@.attachment == old(jvm)@.attachment,
        class != 0 ==> (r matches Step::Done(l) && l.env() == old(jvm)@.attachment.env
            && l.obj().addr() == class && final(jvm)@.live == old(jvm)@.live.push(l.obj())),
        class == 0 ==> final(jvm)@ == old(jvm)@ && (r matches Step::Call(
            Call::ExceptionOccurred(e),
        ) && e == old(jvm)@.attachment.env),
{
    match crate::raw::ObjectPtr::new(class) {
        Some(obj) => Step::Done(Local::from_raw(jvm, obj)),
        None => Step::Call(jvm.exception_occurred()),
    }
}

/// Why the class `jni_name` was not found, where `ExceptionOccurred` returned
/// the address `thrown`: the exception that was thrown, or an internal error
/// where nothing was.
pub fn class_not_found<'jvm>(jvm: &mut Jvm<'jvm>, jni_name: &str, thrown: usize) -> (r: (
    Error<Local<'jvm, Throwable>>,
    Option<Call<'jvm>>,
))
    ensures
        thrown != 0 ==> checked(
            old(jvm)@,
            thrown,
            LocalResult::<'jvm, ()>::Err(r.0),
            r.1,
            final(jvm)@,
        ),
        thrown == 0 ==> is_internal(r.0, no_class(jni_name@)) && r.1 is None && final(jvm)@
            == old(jvm)@,
{
    let mut text = String::from_str("failed to find class `");
    text.append(jni_name);
    text.append("`");
    explain(jvm, thrown, text)
}

/// What `GetMethodID` found, where `method` is the address that it returned.
/// Where nothing was found the virtual machine should have thrown: the
/// library asks, by `ExceptionOccurred`, and the caller goes on with
/// `method_not_found`.
pub fn find_method<'jvm>(jvm: &Jvm<'jvm>, method: usize) -> (r: Step<'jvm, MethodPtr>)
    ensures
        method != 0 ==> (r matches Step::Done(m) && m.addr() == method),
        method == 0 ==> (r matches Step::Call(Call::ExceptionOccurred(e)) && e
            == jvm@.attachment.env),
{
    match MethodPtr::new(method) {
        Some(m) => Step::Done(m),
        None => Step::Call(jvm.exception_occurred()),
    }
}

/// Why the method `jni_name` with the descriptor `jni_descriptor` was not
/// found, where `ExceptionOccurred` returned the address `thrown`: the
/// exception that was thrown, or an internal error where nothing was.
pub fn method_not_found<'jvm>(
    jvm: &mut Jvm<'jvm>,
    jni_name: &str,
    jni_descriptor: &str,
    thrown: usize,
) -> (r: (Error<Local<'jvm, Throwable>>, Option<Call<'jvm>>))
    ensures
        thrown != 0 ==> checked(
            old(jvm)@,
            thrown,
            LocalResult::<'jvm, ()>::Err(r.0),
            r.1,
            final(jvm)@,
        ),
        thrown == 0 ==> is_internal(r.0, no_method(jni_name@, jni_descriptor@)) && r.1 is None
            && final(jvm)@ == old(jvm)@,
{
    let mut text = String::from_str("failed to find method `");
    text.append(jni_name);
    text.append("` with signature `");
    text.append(jni_descriptor);
    text.append("`");
    explain(jvm, thrown, text)
}

/// What `GetMethodID` found of a constructor: as `find_method`.
pub fn find_constructor<'jvm>(jvm: &Jvm<'jvm>, method: usize) -> (r: Step<'jvm, MethodPtr>)
    ensures
        method != 0 ==> (r matches Step::Done(m) && m.addr() == method),
        method == 0 ==> (r matches Step::Call(Call::ExceptionOccurred(e)) && e
            == jvm@.attachment.env),
{
    find_method(jvm, method)
}

/// Why the constructor with the descriptor `jni_descriptor` was not found: as
/// `method_not_found`, under the name of all constructors.
pub fn constructor_not_found<'jvm>(jvm: &mut Jvm<'jvm>, jni_descriptor: &str, thrown: usize) -> (r:
    (Error<Local<'jvm, Throwable>>, Option<Call<'jvm>>))
    ensures
        thrown != 0 ==> checked(
            old(jvm)@,
            thrown,
            LocalResult::<'jvm, ()>::Err(r.0),
            r.1,
            final(jvm)@,
        ),
        thrown == 0 ==> is_internal(r.0, no_method(constructor_name(), jni_descriptor@))
            && r.1 is None && final(jvm)@ == old(jvm)@,
{
    method_not_found(jvm, "<init>", jni_descriptor, thrown)
}

} // verus!
