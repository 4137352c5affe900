//! The two kinds of owned reference to an object of the virtual machine, and
//! the borrowed view that both give.

use crate::error::{Error, LocalResult};
use crate::jvm::{without, JavaObject, Jvm, Upcast};
use crate::raw::{jni_version, Call, EnvPtr, JvmPtr, ObjectPtr, JNI_EDETACHED, JNI_OK, VERSION};
use std::marker::PhantomData;
use vstd::prelude::*;

verus! {

/// An owned reference that is good within the call scope that made it, on
/// the thread of that scope. The scope keeps count of it until it is
/// released.
#[derive(Debug, PartialEq, Eq)]
pub struct Local<'jvm, T: JavaObject> {
    env: EnvPtr<'jvm>,
    obj: ObjectPtr,
    _marker: PhantomData<T>,
}

/// An owned reference that is good on every thread, until it is released.
#[derive(Debug, PartialEq, Eq)]
pub struct Global<T: JavaObject> {
    jvm: JvmPtr,
    obj: ObjectPtr,
    _marker: PhantomData<T>,
}

/// An object seen as a `T`, for as long as the reference lives that it was
/// borrowed from.
#[derive(Debug, PartialEq, Eq)]
pub struct Borrowed<'a, T: JavaObject> {
    obj: ObjectPtr,
    _marker: PhantomData<&'a T>,
}

impl<'a, T: JavaObject> Borrowed<'a, T> {
    /// The handle of the object.
    pub closed spec fn obj(self) -> ObjectPtr {
        self.obj
    }

    /// The view of the object at `ptr` as a `T`.
    pub closed spec fn of(ptr: ObjectPtr) -> Self {
        Borrowed { obj: ptr, _marker: PhantomData }
    }

    /// A view is nothing but its handle.
    pub proof fn of_obj(ptr: ObjectPtr)
        ensures
            Self::of(ptr).obj() == ptr,
    {
    }

    /// Sees the object at `ptr` as a `T`. That it is one the caller knows.
    pub fn from_raw(ptr: ObjectPtr) -> (r: Self)
        ensures
            r == Self::of(ptr),
            r.obj() == ptr,
    {
        Borrowed { obj: ptr, _marker: PhantomData }
    }

    /// The handle of the object.
    pub fn as_raw(&self) -> (ptr: ObjectPtr)
        ensures
            ptr == self.obj(),
    {
        self.obj
    }
}

impl ObjectPtr {
    /// Sees the object as a `T`. That it is one the caller knows.
    pub fn as_ref<'a, T: JavaObject>(self) -> (r: Borrowed<'a, T>)
        ensures
            r == Borrowed::<T>::of(self),
            r.obj() == self,
    {
        Borrowed::from_raw(self)
    }
}

impl<'jvm, T: JavaObject> Local<'jvm, T> {
    /// The environment that the reference was made on.
    pub closed spec fn env(self) -> EnvPtr<'jvm> {
        self.env
    }

    /// The handle of the object.
    pub closed spec fn obj(self) -> ObjectPtr {
        self.obj
    }

    /// The same reference under the tag `S`.
    pub closed spec fn retagged<S: JavaObject>(self) -> Local<'jvm, S> {
        Local { env: self.env, obj: self.obj, _marker: PhantomData }
    }

    /// Retagging changes neither the environment nor the handle.
    pub proof fn retagged_same<S: JavaObject>(self)
        ensures
            self.retagged::<S>().env() == self.env(),
            self.retagged::<S>().obj() == self.obj(),
    {
    }

    /// Takes into the scope a reference that the virtual machine has just
    /// handed out on the scope's environment, and that nothing else owns. No
    /// call is made: the handle is put under the scope's count.
    pub fn from_raw(jvm: &mut Jvm<'jvm>, obj: ObjectPtr) -> (r: Self)
        ensures
            r.env() == old(jvm)@.attachment.env,
            r.obj() == obj,
            final(jvm)@.attachment == old(jvm)@.attachment,
            final(jvm)@.live == old(jvm)@.live.push(obj),
    {
        jvm.register(obj);
        Local { env: jvm.env(), obj, _marker: PhantomData }
    }

    /// The reference that `NewLocalRef` made, where `new_ref` is the address
    /// that it returned: null says that the virtual machine had no room.
    pub fn new(jvm: &mut Jvm<'jvm>, new_ref: usize) -> (r: LocalResult<'jvm, Self>)
        ensures
            final(jvm)@.attachment == old(jvm)@.attachment,
            new_ref == 0 ==> final(jvm)@ == old(jvm)@ && r matches Err(Error::ResourceExhausted),
            new_ref != 0 ==> (r matches Ok(l) && l.env() == old(jvm)@.attachment.env
                && l.obj().addr() == new_ref && final(jvm)@.live == old(jvm)@.live.push(l.obj())),
    {
        match ObjectPtr::new(new_ref) {
            Some(obj) => Ok(Local::from_raw(jvm, obj)),
            None => Err(Error::ResourceExhausted),
        }
    }

    /// The handle of the object.
    pub fn as_raw(&self) -> (ptr: ObjectPtr)
        ensures
            ptr == self.obj(),
    {
        self.obj
    }

    /// The object, seen as a `T`, while the reference is borrowed.
    pub fn deref(&self) -> (r: Borrowed<'_, T>)
        ensures
            r == Borrowed::<T>::of(self.obj()),
            r.obj() == self.obj(),
    {
        Borrowed::from_raw(self.obj)
    }

    /// The object, seen as one of the supertype `S`, while the reference is
    /// borrowed.
    pub fn as_ref<S: JavaObject>(&self) -> (r: Borrowed<'_, S>) where T: Upcast<S>
        ensures
            r == Borrowed::<S>::of(self.obj()),
            r.obj() == self.obj(),
    {
        Borrowed::from_raw(self.obj)
    }

    /// The same reference under the supertype's tag. No call is made, and
    /// the scope counts the reference as before.
    pub fn upcast<S: JavaObject>(self) -> (r: Local<'jvm, S>) where T: Upcast<S>
        ensures
            r == self.retagged::<S>(),
    {
        Local { env: self.env, obj: self.obj, _marker: PhantomData }
    }

    /// Gives the reference up. Where the scope counts it, the scope strikes
    /// it off and the caller makes the call that is returned, which deletes
    /// it on the environment that made it. A reference that the scope does
    /// not count (one of another scope, or one struck off before) is left
    /// alone: nothing is returned and nothing changes.
    pub fn release(self, jvm: &mut Jvm<'jvm>) -> (call: Option<Call<'jvm>>)
        ensures
            final(jvm)@.attachment == old(jvm)@.attachment,
            old(jvm)@.counts(self.env(), self.obj()) ==> final(jvm)@.live == without(
                old(jvm)@.live,
                self.obj(),
            ) && (call matches Some(Call::DeleteLocalRef(e, o)) && e == self.env() && o
                == self.obj()),
            !old(jvm)@.counts(self.env(), self.obj()) ==> final(jvm)@ == old(jvm)@ && call is None,
    {
        if jvm.strike(self.env, self.obj) {
            Some(Call::DeleteLocalRef(self.env, self.obj))
        } else {
            None
        }
    }
}

impl<T: JavaObject> Global<T> {
    /// The virtual machine that the reference belongs to.
    pub closed spec fn jvm(self) -> JvmPtr {
        self.jvm
    }

    /// The handle of the object.
    pub closed spec fn obj(self) -> ObjectPtr {
        self.obj
    }

    /// The same reference under the tag `S`.
    pub closed spec fn retagged<S: JavaObject>(self) -> Global<S> {
        Global { jvm: self.jvm, obj: self.obj, _marker: PhantomData }
    }

    /// Retagging changes neither the virtual machine nor the handle.
    pub proof fn retagged_same<S: JavaObject>(self)
        ensures
            self.retagged::<S>().jvm() == self.jvm(),
            self.retagged::<S>().obj() == self.obj(),
    {
    }

    pub(crate) fn from_raw(jvm: JvmPtr, obj: ObjectPtr) -> (r: Self)
        ensures
            r.jvm() == jvm,
            r.obj() == obj,
    {
        Global { jvm, obj, _marker: PhantomData }
    }

    /// The reference that `NewGlobalRef` made, where `new_ref` is the address
    /// that it returned: null says that the virtual machine had no room.
    pub fn new<E>(jvm: JvmPtr, new_ref: usize) -> (r: Result<Self, Error<E>>)
        ensures
            new_ref == 0 ==> r matches Err(Error::ResourceExhausted),
            new_ref != 0 ==> (r matches Ok(g) && g.jvm() == jvm && g.obj().addr() == new_ref),
    {
        match ObjectPtr::new(new_ref) {
            Some(obj) => Ok(Global::from_raw(jvm, obj)),
            None => Err(Error::ResourceExhausted),
        }
    }

    /// The handle of the object.
    pub fn as_raw(&self) -> (ptr: ObjectPtr)
        ensures
            ptr == self.obj(),
    {
        self.obj
    }

    /// The object, seen as a `T`, while the reference is borrowed.
    pub fn deref(&self) -> (r: Borrowed<'_, T>)
        ensures
            r == Borrowed::<T>::of(self.obj()),
            r.obj() == self.obj(),
    {
        Borrowed::from_raw(self.obj)
    }

    /// The object, seen as one of the supertype `S`, while the reference is
    /// borrowed.
    pub fn as_ref<S: JavaObject>(&self) -> (r: Borrowed<'_, S>) where T: Upcast<S>
        ensures
            r == Borrowed::<S>::of(self.obj()),
            r.obj() == self.obj(),
    {
        Borrowed::from_raw(self.obj)
    }

    /// The same reference under the supertype's tag. No call is made.
    pub fn upcast<S: JavaObject>(self) -> (r: Global<S>) where T: Upcast<S>
        ensures
            r == self.retagged::<S>(),
    {
        Global { jvm: self.jvm, obj: self.obj, _marker: PhantomData }
    }

    /// Begins to give the reference up, on whatever thread this is. The
    /// library asks first, by `GetEnv`, whether the thread has an
    /// environment; the caller makes that call and goes on with
    /// `Releasing::probed`.
    pub fn release(self) -> (r: (Releasing, Call<'static>))
        ensures
            r.0.jvm() == self.jvm(),
            r.0.obj() == self.obj(),
            r.1 matches Call::GetEnv(j, v) && j == self.jvm() && v == VERSION,
    {
        (Releasing { jvm: self.jvm, obj: self.obj }, Call::GetEnv(self.jvm, jni_version()))
    }
}

/// A durable reference that is being given up.
#[derive(Debug, PartialEq, Eq)]
pub struct Releasing {
    jvm: JvmPtr,
    obj: ObjectPtr,
}

/// How the release of a durable reference goes on.
#[derive(Debug, PartialEq, Eq)]
pub enum Release<'a> {
    /// The caller makes these calls, in order, and the release is over. It
    /// is over too where there is nothing to call: then no environment could
    /// be had, and the reference is left to the virtual machine.
    Finish(Vec<Call<'a>>),
    /// The thread has no environment. The caller makes this call, which
    /// attaches it, and goes on with `Releasing::attached`.
    Attach(Call<'a>, Releasing),
}

/// `calls` is the deletion of the durable reference `obj` on the environment
/// at `env`, and nothing else.
pub open spec fn deletes_on<'a>(calls: Seq<Call<'a>>, env: usize, obj: ObjectPtr) -> bool {
    &&& calls.len() == 1
    &&& calls[0] matches Call::DeleteGlobalRef(e, o)
    &&& e.addr() == env
    &&& o == obj
}

/// `calls` is the deletion of the durable reference `obj` on the environment
/// at `env`, and after it the detachment of the thread from `jvm`.
pub open spec fn deletes_and_detaches<'a>(
    calls: Seq<Call<'a>>,
    env: usize,
    obj: ObjectPtr,
    jvm: JvmPtr,
) -> bool {
    &&& calls.len() == 2
    &&& calls[0] matches Call::DeleteGlobalRef(e, o)
    &&& e.addr() == env
    &&& o == obj
    &&& calls[1] matches Call::DetachCurrentThread(j)
    &&& j == jvm
}

/// How the release of `r` goes on after `GetEnv` answered with status `code`
/// and the address `env`.
pub open spec fn after_probe<'a>(r: Releasing, code: i32, env: usize, next: Release<'a>) -> bool {
    if code == JNI_OK && env != 0 {
        next matches Release::Finish(calls) && deletes_on(calls@, env, r.obj())
    } else if code == JNI_EDETACHED {
        next matches Release::Attach(call, rest) && rest == r && (
        call matches Call::AttachCurrentThread(j) && j == r.jvm())
    } else {
        next matches Release::Finish(calls) && calls@.len() == 0
    }
}

/// What ends the release of `r` after `AttachCurrentThread` answered with
/// status `code` and the address `env`.
pub open spec fn after_attach<'a>(r: Releasing, code: i32, env: usize, calls: Seq<Call<'a>>) -> bool {
    if code == JNI_OK && env != 0 {
        deletes_and_detaches(calls, env, r.obj(), r.jvm())
    } else {
        calls.len() == 0
    }
}

impl Releasing {
    /// The virtual machine that the reference belongs to.
    pub closed spec fn jvm(self) -> JvmPtr {
        self.jvm
    }

    /// The handle of the object.
    pub closed spec fn obj(self) -> ObjectPtr {
        self.obj
    }

    /// Goes on once `GetEnv` has answered with status `code` and the address
    /// `env`. On a thread that has an environment the reference is deleted
    /// there. A thread that has none is attached first. Any other answer
    /// ends the release without a call and without an error: a release
    /// cannot fail its caller.
    pub fn probed<'a>(self, code: i32, env: usize) -> (next: Release<'a>)
        ensures
            after_probe(self, code, env, next),
    {
        match self.jvm.env(code, env) {
            Ok(Some(env)) => {
                let mut calls: Vec<Call<'a>> = Vec::new();
                calls.push(Call::DeleteGlobalRef(env, self.obj));
                Release::Finish(calls)
            },
            Ok(None) => Release::Attach(Call::AttachCurrentThread(self.jvm), self),
            Err(_) => Release::Finish(Vec::new()),
        }
    }

    /// Ends the release once `AttachCurrentThread` has answered with status
    /// `code` and the address `env`. The reference is deleted on the new
    /// environment, and the thread, attached for this alone, is detached
    /// again; the status of that last call is of no account. Where the thread
    /// could not be attached there is nothing to call.
    pub fn attached<'a>(self, code: i32, env: usize) -> (calls: Vec<Call<'a>>)
        ensures
            after_attach(self, code, env, calls@),
    {
        let mut calls: Vec<Call<'a>> = Vec::new();
        match self.jvm.attach_thread(code, env) {
            Ok(env) => {
                calls.push(Call::DeleteGlobalRef(env, self.obj));
                calls.push(Call::DetachCurrentThread(self.jvm));
            },
            Err(_) => {},
        }
        calls
    }
}

} // verus!
