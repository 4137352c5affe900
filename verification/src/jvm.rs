//! The call scope, and the traits that tag types of the virtual machine.

use crate::raw::{Call, EnvPtr, JvmPtr, ObjectPtr, Step};
use crate::error::{Error, LocalResult};
use crate::ref_::{Borrowed, Global, Local};
use crate::thread::{released, AttachGuard, Attachment, Detaching, Tenure, ThreadState};
use std::marker::PhantomData;
use vstd::prelude::*;
use vstd::string::*;

verus! {

/// A tag for a class or interface of the virtual machine. A tag has no
/// values; it only says of a reference what it refers to.
pub trait JavaObject: 'static + Sized {

}

/// `Self` is a `S`: every object of the class that `Self` tags is also one of
/// the class or interface that `S` tags.
pub trait Upcast<S: JavaObject>: JavaObject {

}

/// A type of the virtual machine: a class, an interface or a scalar. Each
/// can be the element type of an array.
pub trait JavaType: 'static {

}

impl<T: JavaObject> JavaType for T {

}

/// A scalar type of the virtual machine, by the Rust type that holds its
/// values.
pub trait JavaScalar: JavaType {
    /// The name of the class of arrays of this scalar.
    spec fn array_class() -> Seq<char>;

    /// The name of the class of arrays of this scalar, under which
    /// `FindClass` knows it.
    fn array_class_name() -> (name: &'static str)
        ensures
            name@ == Self::array_class(),
    ;
}

impl JavaType for bool {

}

impl JavaScalar for bool {
    open spec fn array_class() -> Seq<char> {
        "[Z"@
    }

    fn array_class_name() -> (name: &'static str) {
        "[Z"
    }
}

impl JavaType for i8 {

}

impl JavaScalar for i8 {
    open spec fn array_class() -> Seq<char> {
        "[B"@
    }

    fn array_class_name() -> (name: &'static str) {
        "[B"
    }
}

impl JavaType for i16 {

}

impl JavaScalar for i16 {
    open spec fn array_class() -> Seq<char> {
        "[S"@
    }

    fn array_class_name() -> (name: &'static str) {
        "[S"
    }
}

impl JavaType for u16 {

}

impl JavaScalar for u16 {
    open spec fn array_class() -> Seq<char> {
        "[C"@
    }

    fn array_class_name() -> (name: &'static str) {
        "[C"
    }
}

impl JavaType for i32 {

}

impl JavaScalar for i32 {
    open spec fn array_class() -> Seq<char> {
        "[I"@
    }

    fn array_class_name() -> (name: &'static str) {
        "[I"
    }
}

impl JavaType for i64 {

}

impl JavaScalar for i64 {
    open spec fn array_class() -> Seq<char> {
        "[J"@
    }

    fn array_class_name() -> (name: &'static str) {
        "[J"
    }
}

/// Implemented by `()` alone, which stands for the virtual machine's `void`.
pub trait IsVoid: Default {

}

impl IsVoid for () {

}

/// What holds the environment of a call scope.
pub trait HasEnvPtr<'jvm> {
    /// The environment.
    fn env(&self) -> EnvPtr<'jvm>;
}

/// What a call scope holds.
pub struct Scope {
    /// The attachment that the scope runs under.
    pub attachment: Attachment,
    /// The handles of the scoped references that the scope has handed out
    /// and not taken back, oldest first.
    pub live: Seq<ObjectPtr>,
}

impl Scope {
    /// Whether the scope counts a reference with handle `obj` on environment
    /// `env`.
    pub open spec fn counts(self, env: EnvPtr<'static>, obj: ObjectPtr) -> bool {
        env == self.attachment.env && self.live.contains(obj)
    }
}

/// `live` without the first `obj` in it.
pub open spec fn without(live: Seq<ObjectPtr>, obj: ObjectPtr) -> Seq<ObjectPtr>
    decreases live.len(),
{
    if live.len() == 0 {
        live
    } else if live[0] == obj {
        live.drop_first()
    } else {
        seq![live[0]] + without(live.drop_first(), obj)
    }
}

/// The deletion of each of `live` on `env`, in order.
pub open spec fn deletions<'jvm>(env: EnvPtr<'jvm>, live: Seq<ObjectPtr>) -> Seq<Call<'jvm>> {
    Seq::new(live.len(), |i: int| Call::DeleteLocalRef(env, live[i]))
}

/// What is owed when a scope is closed: the deletion of every scoped
/// reference that it still counts, each on the scope's environment, and after
/// them the detachment of a thread that was attached for this scope alone.
pub open spec fn closing<'jvm>(scope: Scope) -> Seq<Call<'jvm>> {
    deletions(scope.attachment.env, scope.live) + (if scope.attachment.tenure
        == Tenure::Transient {
        seq![Call::DetachCurrentThread(scope.attachment.jvm)]
    } else {
        Seq::<Call<'jvm>>::empty()
    })
}

/// One call scope on one attached thread. Every scoped reference is made
/// through it and counted by it, so that none is left when the attachment
/// ends.
#[derive(Debug, PartialEq, Eq)]
pub struct Jvm<'jvm> {
    guard: AttachGuard,
    live: Vec<ObjectPtr>,
    _marker: PhantomData<&'jvm ()>,
}

impl<'jvm> View for Jvm<'jvm> {
    type V = Scope;

    closed spec fn view(&self) -> Scope {
        Scope { attachment: self.guard@, live: self.live@ }
    }
}

proof fn lemma_without_at(live: Seq<ObjectPtr>, obj: ObjectPtr, i: int)
    requires
        0 <= i < live.len(),
        live[i] == obj,
        forall|j: int| 0 <= j < i ==> live[j] != obj,
    ensures
        without(live, obj) == live.remove(i),
    decreases i,
{
    if i == 0 {
        assert(live.remove(0) =~= live.drop_first());
    } else {
        let rest = live.drop_first();
        assert forall|j: int| 0 <= j < i - 1 implies rest[j] != obj by {
            assert(rest[j] == live[j + 1]);
        }
        lemma_without_at(rest, obj, i - 1);
        assert(live.remove(i) =~= seq![live[0]] + rest.remove(i - 1));
    }
}

impl<'jvm> Jvm<'jvm> {
    /// Opens the call scope of an attachment. Nothing is counted yet.
    pub fn new(guard: AttachGuard) -> (jvm: Self)
        ensures
            jvm@.attachment == guard@,
            jvm@.live == Seq::<ObjectPtr>::empty(),
    {
        Jvm { guard, live: Vec::new(), _marker: PhantomData }
    }

    /// The environment of the scope's thread.
    pub fn env(&self) -> (env: EnvPtr<'jvm>)
        ensures
            env == self@.attachment.env,
    {
        self.guard.environment()
    }

    /// The virtual machine.
    pub fn vm(&self) -> (jvm: JvmPtr)
        ensures
            jvm == self@.attachment.jvm,
    {
        self.guard.jvm()
    }

    /// How many scoped references the scope has handed out and not taken
    /// back.
    pub fn outstanding(&self) -> (n: usize)
        ensures
            n == self@.live.len(),
    {
        self.live.len()
    }

    /// The call that makes one more scoped reference to the object that `r`
    /// views: `NewLocalRef` on the scope's environment. `local` takes what it
    /// returns.
    pub fn new_local_ref<R: JavaObject>(&self, r: &Borrowed<'_, R>) -> (call: Call<'jvm>)
        ensures
            call matches Call::NewLocalRef(e, o) && e == self@.attachment.env && o == r.obj(),
    {
        Call::NewLocalRef(self.env(), r.as_raw())
    }

    /// The call that makes a durable reference to the object that `r` views:
    /// `NewGlobalRef` on the scope's environment. `global` takes what it
    /// returns.
    pub fn new_global_ref<R: JavaObject>(&self, r: &Borrowed<'_, R>) -> (call: Call<'jvm>)
        ensures
            call matches Call::NewGlobalRef(e, o) && e == self@.attachment.env && o == r.obj(),
    {
        Call::NewGlobalRef(self.env(), r.as_raw())
    }

    /// The scoped reference that `NewLocalRef` made, where `new_ref` is the
    /// address that it returned: null says that the virtual machine had no
    /// room. The scope counts the new reference.
    pub fn local<R: JavaObject>(&mut self, new_ref: usize) -> (r: LocalResult<'jvm, Local<'jvm, R>>)
        ensures
            final(self)@.attachment == old(self)@.attachment,
            new_ref == 0 ==> final(self)@ == old(self)@ && r matches Err(Error::ResourceExhausted),
            new_ref != 0 ==> (r matches Ok(l) && l.env() == old(self)@.attachment.env
                && l.obj().addr() == new_ref && final(self)@.live == old(self)@.live.push(
                l.obj(),
            )),
    {
        Local::new(self, new_ref)
    }

    /// The durable reference that `NewGlobalRef` made, where `new_ref` is
    /// the address that it returned: null says that the virtual machine had
    /// no room.
    pub fn global<R: JavaObject>(&self, new_ref: usize) -> (r: LocalResult<'jvm, Global<R>>)
        ensures
            new_ref == 0 ==> r matches Err(Error::ResourceExhausted),
            new_ref != 0 ==> (r matches Ok(g) && g.jvm() == self@.attachment.jvm && g.obj().addr()
                == new_ref),
    {
        Global::new(self.vm(), new_ref)
    }

    /// Closes the scope and gives up its attachment. The host makes the
    /// calls that are returned, in order: first the deletion of every scoped
    /// reference that the scope still counts, then, for a transient
    /// attachment, `DetachCurrentThread`. With the status of that last call
    /// and the token, the host goes on in `thread::detached`. The thread,
    /// which is `InUse` while the scope is open, is left as by the release of
    /// the guard.
    pub fn finish(self, cell: &mut ThreadState) -> (r: (Vec<Call<'jvm>>, Option<Detaching>))
        requires
            old(cell)@ is InUse,
        ensures
            r.0@ == closing::<'jvm>(self@),
            final(cell)@ == released(self@.attachment),
            self@.attachment.tenure == Tenure::Transient ==> (r.1 matches Some(token)
                && token.jvm() == self@.attachment.jvm),
            self@.attachment.tenure != Tenure::Transient ==> r.1 is None,
    {
        let Jvm { guard, live, _marker } = self;
        let env: EnvPtr<'jvm> = guard.environment();
        let mut calls: Vec<Call<'jvm>> = Vec::new();
        let mut i: usize = 0;
        while i < live.len()
            invariant
                i <= live.len(),
                calls@ == deletions(env, live@.take(i as int)),
            decreases live.len() - i,
        {
            calls.push(Call::DeleteLocalRef(env, live[i]));
            i = i + 1;
            assert(calls@ =~= deletions(env, live@.take(i as int)));
        }
        assert(live@.take(i as int) =~= live@);
        let ghost deleted = calls@;
        match guard.release(cell) {
            Some((call, token)) => {
                calls.push(call);
                assert(calls@ =~= deleted + seq![Call::DetachCurrentThread(guard@.jvm)]);
                (calls, Some(token))
            },
            None => {
                assert(calls@ =~= deleted + Seq::<Call<'jvm>>::empty());
                (calls, None)
            },
        }
    }

    pub(crate) fn register(&mut self, obj: ObjectPtr)
        ensures
            final(self)@.attachment == old(self)@.attachment,
            final(self)@.live == old(self)@.live.push(obj),
    {
        self.live.push(obj);
    }

    pub(crate) fn strike(&mut self, env: EnvPtr<'jvm>, obj: ObjectPtr) -> (struck: bool)
        ensures
            struck == old(self)@.counts(env, obj),
            final(self)@.attachment == old(self)@.attachment,
            struck ==> final(self)@.live == without(old(self)@.live, obj),
            !struck ==> final(self)@ == old(self)@,
    {
        let own = self.guard.environment();
        if env.as_ptr() != own.as_ptr() {
            return false;
        }
        proof {
            env.same_addr(own);
        }
        let mut i: usize = 0;
        while i < self.live.len()
            invariant
                i <= self.live.len(),
                forall|j: int| 0 <= j < i ==> self.live@[j] != obj,
                self.live@ == old(self).live@,
                self.guard == old(self).guard,
                env == old(self)@.attachment.env,
            decreases self.live.len() - i,
        {
            if self.live[i].as_ptr() == obj.as_ptr() {
                proof {
                    self.live@[i as int].same_addr(obj);
                    lemma_without_at(self.live@, obj, i as int);
                    assert(old(self)@.live[i as int] == obj);
                }
                self.live.remove(i);
                return true;
            }
            i = i + 1;
        }
        proof {
            assert(!self.live@.contains(obj));
        }
        false
    }
}

impl<'jvm> HasEnvPtr<'jvm> for Jvm<'jvm> {
    fn env(&self) -> (env: EnvPtr<'jvm>)
        ensures
            env == self@.attachment.env,
    {
        self.guard.environment()
    }
}

/// The option that makes the virtual machine check every call of the
/// library.
pub open spec fn check_option() -> Seq<char> {
    "-Xcheck:jni"@
}

/// The option that hands the class path to the virtual machine.
pub open spec fn class_path_option(classpath: Seq<char>) -> Seq<char> {
    "-Djava.class.path="@ + classpath
}

/// The options with which the library creates the process's virtual
/// machine: that it check the library's calls, and the class path if there
/// is one.
pub fn default_options(classpath: Option<&str>) -> (options: Vec<String>)
    ensures
        classpath is None ==> options@.len() == 1,
        classpath is Some ==> options@.len() == 2 && options@[1]@ == class_path_option(
            classpath->Some_0@,
        ),
        options@[0]@ == check_option(),
{
    let mut options: Vec<String> = Vec::new();
    options.push(String::from_str("-Xcheck:jni"));
    match classpath {
        Some(classpath) => {
            let mut option = String::from_str("-Djava.class.path=");
            option.append(classpath);
            options.push(option);
        },
        None => {},
    }
    options
}

/// Settles on the process's one virtual machine, where `found` is the one
/// that exists already, if any. One that exists is taken. Else one is to be
/// created, with the default options: the caller makes the call and hands
/// what it returns to `raw::create_jvm`. The class path is handed over as a C
/// string, so it holds no character U+0000.
pub fn global_jvm(found: Option<JvmPtr>, classpath: Option<&str>) -> (r: Step<'static, JvmPtr>)
    requires
        classpath matches Some(c) ==> forall|j: int| 0 <= j < c@.len() ==> c@[j] != '\0',
    ensures
        found matches Some(jvm) ==> r == Step::<'static, JvmPtr>::Done(jvm),
        found is None ==> (r matches Step::Call(Call::CreateJavaVM(args)) && args.version
            == crate::raw::VERSION && args.ignore_unrecognized == 0 && args.n_options
            == args.options@.len() && args.options@[0]@ == check_option() && (
        classpath is None ==> args.options@.len() == 1) && (classpath matches Some(c)
            ==> args.options@.len() == 2 && args.options@[1]@ == class_path_option(c@))),
{
    match found {
        Some(jvm) => Step::Done(jvm),
        None => {
            let options = default_options(classpath);
            proof {
                reveal_strlit("-Xcheck:jni");
                reveal_strlit("-Djava.class.path=");
            }
            Step::Call(crate::raw::create_java_vm(options))
        },
    }
}

} // verus!
