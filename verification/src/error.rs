//! The errors of the library, and the bridge from the virtual machine's
//! pending exception to one of them.

use crate::java::lang::Throwable;
use crate::jvm::{without, Jvm, Scope};
use crate::raw::Call;
use crate::ref_::{Global, Local};
use crate::text::{decimal, push_decimal};
use vstd::prelude::*;
use vstd::string::*;

verus! {

/// What can go wrong. Only `Thrown` carries a reference; the others carry at
/// most a description.
#[derive(Debug, PartialEq, Eq)]
pub enum Error<T> {
    /// A reference to an exception that the virtual machine threw and nothing
    /// caught.
    Thrown(T),
    /// A slice of this length is longer than any array of the virtual
    /// machine.
    SliceTooLong(usize),
    /// A null object was used where an object is needed.
    NullDeref,
    /// A call scope was opened on a thread that is inside one.
    NestedUsage,
    /// The virtual machine had no room for one more reference.
    ResourceExhausted,
    /// The virtual machine did what its interface says it never does.
    JvmInternal(String),
}

/// The outcome of an operation inside a call scope: an exception is held by
/// a scoped reference.
pub type LocalResult<'jvm, T> = Result<T, Error<Local<'jvm, Throwable>>>;

/// The outcome of an operation that has left its call scope: an exception is
/// held by a durable reference.
pub type GlobalResult<T> = Result<T, Error<Global<Throwable>>>;

/// `e` is the internal error with the description `text`.
pub open spec fn is_internal<T>(e: Error<T>, text: Seq<char>) -> bool {
    e matches Error::JvmInternal(m) && m@ == text
}

/// The internal error with the description `text`.
pub fn internal<T>(text: String) -> (e: Error<T>)
    ensures
        is_internal(e, text@),
{
    Error::JvmInternal(text)
}

/// What an error says of itself.
pub open spec fn description<T>(e: Error<T>) -> Seq<char> {
    match e {
        Error::Thrown(_) => "Java invocation threw"@,
        Error::SliceTooLong(n) => "slice was too long (`"@ + decimal(n as nat)
            + "`) to convert to a Java array, which are limited to `i32::MAX`"@,
        Error::NullDeref => "attempted to deref a null Java object pointer"@,
        Error::NestedUsage => "attempted to nest `Jvm::with` calls"@,
        Error::ResourceExhausted => "the JVM has no room for another reference"@,
        Error::JvmInternal(m) => m@,
    }
}

impl<T> Error<T> {
    /// What the error says of itself.
    pub fn message(&self) -> (text: String)
        ensures
            text@ == description(*self),
    {
        match self {
            Error::Thrown(_) => String::from_str("Java invocation threw"),
            Error::SliceTooLong(n) => {
                let mut text = String::from_str("slice was too long (`");
                push_decimal(&mut text, *n as u64);
                text.append("`) to convert to a Java array, which are limited to `i32::MAX`");
                text
            },
            Error::NullDeref => String::from_str("attempted to deref a null Java object pointer"),
            Error::NestedUsage => String::from_str("attempted to nest `Jvm::with` calls"),
            Error::ResourceExhausted => String::from_str(
                "the JVM has no room for another reference",
            ),
            Error::JvmInternal(m) => m.clone(),
        }
    }
}

impl<'jvm> Jvm<'jvm> {
    /// The call that asks whether an exception is pending on the scope's
    /// environment: `ExceptionOccurred`. `check_exception` takes what it
    /// returns.
    pub fn exception_occurred(&self) -> (call: Call<'jvm>)
        ensures
            call matches Call::ExceptionOccurred(e) && e == self@.attachment.env,
    {
        Call::ExceptionOccurred(self.env())
    }
}

/// What the check of the pending exception comes to, where
/// `ExceptionOccurred` returned the address `thrown` in a scope that stood as
/// `before`: the outcome, the call that is owed, and the scope afterwards.
///
/// Nothing pending is success, with nothing to call. A pending exception is
/// an error that holds it by a scoped reference, which the scope now counts;
/// and it must be cleared, by `ExceptionClear` on the scope's environment,
/// before any other call is made there.
pub open spec fn checked<'jvm>(
    before: Scope,
    thrown: usize,
    outcome: LocalResult<'jvm, ()>,
    owed: Option<Call<'jvm>>,
    after: Scope,
) -> bool {
    if thrown == 0 {
        &&& outcome is Ok
        &&& owed is None
        &&& after == before
    } else {
        &&& outcome matches Err(Error::Thrown(t))
        &&& t.env() == before.attachment.env
        &&& t.obj().addr() == thrown
        &&& owed matches Some(Call::ExceptionClear(e))
        &&& e == before.attachment.env
        &&& after.attachment == before.attachment
        &&& after.live == before.live.push(t.obj())
    }
}

/// Checks the pending exception, where `thrown` is the address that
/// `ExceptionOccurred` returned. The caller makes the call that is returned,
/// if any, before any other on this environment.
pub fn check_exception<'jvm>(jvm: &mut Jvm<'jvm>, thrown: usize) -> (r: (
    LocalResult<'jvm, ()>,
    Option<Call<'jvm>>,
))
    ensures
        checked(old(jvm)@, thrown, r.0, r.1, final(jvm)@),
{
    match crate::raw::ObjectPtr::new(thrown) {
        Some(obj) => {
            let env = jvm.env();
            let t = Local::from_raw(jvm, obj);
            (Err(Error::Thrown(t)), Some(Call::ExceptionClear(env)))
        },
        None => (Ok(()), None),
    }
}

/// What a call that returned nothing comes to, where `ExceptionOccurred`
/// then returned the address `thrown`: the pending exception, checked as by
/// `check_exception`; or, where none is pending, the internal error that says
/// `otherwise`, since the virtual machine has then failed without a reason.
pub fn explain<'jvm>(jvm: &mut Jvm<'jvm>, thrown: usize, otherwise: String) -> (r: (
    Error<Local<'jvm, Throwable>>,
    Option<Call<'jvm>>,
))
    ensures
        thrown != 0 ==> checked(
            old(jvm)@,
            thrown,
            LocalResult::<'jvm, ()>::Err(r.0),
            r.1,
            final(jvm)@,
        ),
        thrown == 0 ==> is_internal(r.0, otherwise@) && r.1 is None && final(jvm)@ == old(jvm)@,
{
    match check_exception(jvm, thrown) {
        (Err(e), owed) => (e, owed),
        (Ok(()), owed) => (internal(otherwise), owed),
    }
}

/// What the promotion of an error comes to, where `NewGlobalRef` returned the
/// address `new_ref` in a scope that stood as `before`.
///
/// An exception moves from its scoped reference to a durable one, and the
/// scoped reference is given up; where the virtual machine had no room for
/// the durable reference, that is the error. Every other error stays what it
/// was, and nothing is owed.
pub open spec fn promoted<'jvm>(
    before: Scope,
    e: Error<Local<'jvm, Throwable>>,
    new_ref: usize,
    outcome: Error<Global<Throwable>>,
    owed: Option<Call<'jvm>>,
    after: Scope,
) -> bool {
    match e {
        Error::Thrown(t) => {
            &&& new_ref != 0 ==> (outcome matches Error::Thrown(g) && g.jvm()
                == before.attachment.jvm && g.obj().addr() == new_ref)
            &&& new_ref == 0 ==> outcome is ResourceExhausted
            &&& after.attachment == before.attachment
            &&& before.counts(t.env(), t.obj()) ==> after.live == without(before.live, t.obj())
                && (owed matches Some(Call::DeleteLocalRef(e, o)) && e == t.env() && o == t.obj())
            &&& !before.counts(t.env(), t.obj()) ==> after == before && owed is None
        },
        Error::SliceTooLong(n) => outcome == Error::<Global<Throwable>>::SliceTooLong(n) && owed is None
            && after == before,
        Error::NullDeref => outcome is NullDeref && owed is None && after == before,
        Error::NestedUsage => outcome is NestedUsage && owed is None && after == before,
        Error::ResourceExhausted => outcome is ResourceExhausted && owed is None && after
            == before,
        Error::JvmInternal(m) => outcome == Error::<Global<Throwable>>::JvmInternal(m) && owed is None
            && after == before,
    }
}

impl<'jvm> Error<Local<'jvm, Throwable>> {
    /// The call that the promotion of this error needs: for an exception,
    /// `NewGlobalRef` of it on the scope's environment; for any other error,
    /// none.
    pub fn promotion(&self, jvm: &Jvm<'jvm>) -> (call: Option<Call<'jvm>>)
        ensures
            self matches Error::Thrown(t) ==> (call matches Some(Call::NewGlobalRef(e, o)) && e
                == jvm@.attachment.env && o == t.obj()),
            !(self is Thrown) ==> call is None,
    {
        match self {
            Error::Thrown(t) => Some(jvm.new_global_ref(&t.deref())),
            _ => None,
        }
    }

    /// Makes of an error of this scope one that can leave it, where `new_ref`
    /// is the address that the call of `promotion` returned (it is not read
    /// where there was no call). The caller makes the call that is returned,
    /// if any.
    pub fn into_global(self, jvm: &mut Jvm<'jvm>, new_ref: usize) -> (r: (
        Error<Global<Throwable>>,
        Option<Call<'jvm>>,
    ))
        ensures
            promoted(old(jvm)@, self, new_ref, r.0, r.1, final(jvm)@),
    {
        match self {
            Error::Thrown(t) => {
                let outcome = match Global::new(jvm.vm(), new_ref) {
                    Ok(g) => Error::Thrown(g),
                    Err(e) => e,
                };
                let owed = t.release(jvm);
                (outcome, owed)
            },
            Error::SliceTooLong(n) => (Error::SliceTooLong(n), None),
            Error::NullDeref => (Error::NullDeref, None),
            Error::NestedUsage => (Error::NestedUsage, None),
            Error::ResourceExhausted => (Error::ResourceExhausted, None),
            Error::JvmInternal(m) => (Error::JvmInternal(m), None),
        }
    }
}

} // verus!
