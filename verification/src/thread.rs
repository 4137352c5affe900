//! The attachment of one thread to the virtual machine: a small state
//! machine that says when the thread may call in, and what is owed when it
//! stops.
//!
//! A call scope is opened in steps, and each step but the first takes a
//! token that only the step before it hands out. So a guard is had only by
//! way of `attached_or`, which refuses a thread that is inside a call scope.

use crate::error::{is_internal, Error, GlobalResult};
use crate::raw::{failed_with, jni_version, Call, EnvPtr, JvmPtr, JNI_EDETACHED, JNI_OK, VERSION};
use vstd::prelude::*;

verus! {

/// Whose attachment a thread's attachment is, and so who ends it.
#[derive(Clone, Copy, Debug, PartialEq, Eq, Structural)]
pub enum Tenure {
    /// The library attached the thread for one call scope and detaches it
    /// when that scope is closed.
    Transient,
    /// The library attached the thread at the caller's request to keep it
    /// attached. It never detaches such a thread by itself.
    Permanent,
    /// The thread was attached when the library looked. That attachment is
    /// somebody else's: the library never ends it, and does not rely on it
    /// beyond the call scope that found it.
    External,
}

/// How one thread stands to the virtual machine.
#[derive(Clone, Copy, Debug, PartialEq, Eq)]
pub enum State {
    /// A call scope is open on the thread, or is being opened or closed.
    InUse,
    /// The thread is attached and no call scope is open. The flag says
    /// whether the attachment is a permanent one. The library leaves a
    /// thread in this state only under a permanent attachment, and sets the
    /// flag then.
    Attached(EnvPtr<'static>, bool),
    /// The library holds no attachment of the thread.
    Detached,
}

/// The state of one thread, to be kept by the host in storage of that
/// thread. Only the functions of this module change it.
#[derive(Debug, PartialEq, Eq)]
pub struct ThreadState {
    state: State,
}

/// What a guard stands for.
pub struct Attachment {
    /// The virtual machine.
    pub jvm: JvmPtr,
    /// The environment of the attached thread.
    pub env: EnvPtr<'static>,
    /// Who ends the attachment.
    pub tenure: Tenure,
}

/// The right to call into the virtual machine on this thread, for one call
/// scope. It is given up by `release`.
#[derive(Debug, PartialEq, Eq)]
pub struct AttachGuard {
    jvm: JvmPtr,
    env: EnvPtr<'static>,
    tenure: Tenure,
}

/// A call scope that is being opened on a thread that was detached: the
/// library has asked, by `GetEnv`, whether somebody else attached the thread.
/// It is handed out by `attached_or` alone and taken by `attach_probed`.
#[derive(Debug, PartialEq, Eq)]
pub struct Probing {
    jvm: JvmPtr,
}

/// A call scope that is being opened on a thread that was detached: the
/// library has asked for the thread to be attached. It is handed out by
/// `attached_or` and `attach_probed` alone and taken by `attach_settled`.
#[derive(Debug, PartialEq, Eq)]
pub struct Attaching {
    jvm: JvmPtr,
    permanent: bool,
}

/// A call scope that is being closed on a thread that was attached for it
/// alone: the library has asked for the thread to be detached. It is handed
/// out by the release of a transient guard alone and taken by `detached`.
#[derive(Debug, PartialEq, Eq)]
pub struct Detaching {
    jvm: JvmPtr,
}

/// How the opening of a call scope goes on.
#[derive(Debug, PartialEq, Eq)]
pub enum Opening {
    /// It is over, with this outcome.
    Done(GlobalResult<AttachGuard>),
    /// The host makes this call, `GetEnv`, and goes on with
    /// `attach_probed`.
    Probe(Call<'static>, Probing),
    /// The host makes this call, `AttachCurrentThread`, and goes on with
    /// `attach_settled`.
    Attach(Call<'static>, Attaching),
}

impl View for ThreadState {
    type V = State;

    closed spec fn view(&self) -> State {
        self.state
    }
}

impl View for AttachGuard {
    type V = Attachment;

    closed spec fn view(&self) -> Attachment {
        Attachment { jvm: self.jvm, env: self.env, tenure: self.tenure }
    }
}

impl Probing {
    /// The virtual machine that was asked.
    pub closed spec fn jvm(self) -> JvmPtr {
        self.jvm
    }
}

impl Attaching {
    /// The virtual machine that was asked.
    pub closed spec fn jvm(self) -> JvmPtr {
        self.jvm
    }

    /// Whether the attachment is to last.
    pub closed spec fn permanent(self) -> bool {
        self.permanent
    }
}

impl Detaching {
    /// The virtual machine that was asked.
    pub closed spec fn jvm(self) -> JvmPtr {
        self.jvm
    }
}

/// How a thread meets the opening of a call scope.
pub enum Entry {
    /// The thread is attached and lends its environment.
    Lent(Attachment),
    /// The thread is inside a call scope and refuses another.
    Refused,
    /// The thread has to be attached first.
    Unattached,
}

/// The tenure under which an attachment is entered again that was left with
/// this flag.
pub open spec fn tenure_of(permanent: bool) -> Tenure {
    if permanent {
        Tenure::Permanent
    } else {
        Tenure::External
    }
}

/// The tenure of an attachment that the library makes.
pub open spec fn tenure_made(permanent: bool) -> Tenure {
    if permanent {
        Tenure::Permanent
    } else {
        Tenure::Transient
    }
}

/// How a thread in state `s` meets the opening of a call scope on `jvm`.
pub open spec fn entry(s: State, jvm: JvmPtr) -> Entry {
    match s {
        State::Attached(env, permanent) => Entry::Lent(
            Attachment { jvm, env, tenure: tenure_of(permanent) },
        ),
        State::InUse => Entry::Refused,
        State::Detached => Entry::Unattached,
    }
}

/// `r` is how the opening of a call scope on `jvm` begins on a thread that
/// meets it as `e`: a guard for what was lent; the error of nested usage
/// where the thread refused; and where the thread has to be attached, the
/// call that attaches it if the attachment is to last, else the call that
/// asks first whether somebody else attached it.
pub open spec fn opened(e: Entry, jvm: JvmPtr, permanent: bool, r: Opening) -> bool {
    match e {
        Entry::Lent(a) => r matches Opening::Done(Ok(g)) && g@ == a,
        Entry::Refused => r matches Opening::Done(Err(Error::NestedUsage)),
        Entry::Unattached => if permanent {
            r matches Opening::Attach(Call::AttachCurrentThread(j), token) && j == jvm
                && token.jvm() == jvm && token.permanent()
        } else {
            r matches Opening::Probe(Call::GetEnv(j, v), token) && j == jvm && v == VERSION
                && token.jvm() == jvm
        },
    }
}

/// The state in which the release of a guard leaves its thread. A
/// permanent attachment stays, and the thread remembers its environment. An
/// attachment of somebody else is no longer relied on: the thread counts as
/// detached, and nothing is owed. A transient attachment is still to be
/// detached: until the virtual machine has answered, the thread stays
/// `InUse`.
pub open spec fn released(a: Attachment) -> State {
    match a.tenure {
        Tenure::Transient => State::InUse,
        Tenure::Permanent => State::Attached(a.env, true),
        Tenure::External => State::Detached,
    }
}

/// The state in which a thread is left once the scope under attachment `a`
/// is closed and the call that this owes, if any, has been answered,
/// whatever the answer: never `InUse`.
pub open spec fn closed(a: Attachment) -> State {
    match a.tenure {
        Tenure::Transient => State::Detached,
        Tenure::Permanent => State::Attached(a.env, true),
        Tenure::External => State::Detached,
    }
}

impl ThreadState {
    /// The state of a thread that the library has not attached.
    pub fn new() -> (cell: Self)
        ensures
            cell@ is Detached,
    {
        ThreadState { state: State::Detached }
    }

    /// The state as it stands.
    pub fn get(&self) -> (s: State)
        ensures
            s == self@,
    {
        self.state
    }
}

/// Begins to open a call scope on the thread: the thread's state becomes
/// `InUse` whatever it was.
///
/// - An attached thread lends its environment: the guard holds it under the
///   tenure with which it was left.
/// - A thread that is inside a call scope refuses a second one, and stays
///   inside the first.
/// - A detached thread has to be attached first. Where the attachment is to
///   last, it is attached by `AttachCurrentThread`, which does nothing to a
///   thread that somebody else attached. Else the library first asks, by
///   `GetEnv`, whether somebody else attached it. The host makes the call and
///   goes on with the token, in `attach_settled` or `attach_probed`.
pub fn attached_or(cell: &mut ThreadState, jvm: JvmPtr, permanent: bool) -> (r: Opening)
    ensures
        final(cell)@ is InUse,
        opened(entry(old(cell)@, jvm), jvm, permanent, r),
{
    let before = cell.state;
    cell.state = State::InUse;
    match before {
        State::Attached(env, lasting) => {
            let tenure = if lasting {
                Tenure::Permanent
            } else {
                Tenure::External
            };
            Opening::Done(Ok(AttachGuard { jvm, env, tenure }))
        },
        State::InUse => Opening::Done(Err(Error::NestedUsage)),
        State::Detached => {
            if permanent {
                Opening::Attach(Call::AttachCurrentThread(jvm), Attaching { jvm, permanent })
            } else {
                Opening::Probe(Call::GetEnv(jvm, jni_version()), Probing { jvm })
            }
        },
    }
}

/// Begins to open a call scope on a thread that is to stay attached: as
/// `attached_or`, for an attachment that is to last.
pub fn attach_permanently(cell: &mut ThreadState, jvm: JvmPtr) -> (r: Opening)
    ensures
        final(cell)@ is InUse,
        opened(entry(old(cell)@, jvm), jvm, true, r),
{
    attached_or(cell, jvm, true)
}

/// Begins to open a call scope on a thread for the length of that scope: as
/// `attached_or`, for an attachment that is not to last.
pub fn attach(cell: &mut ThreadState, jvm: JvmPtr) -> (r: Opening)
    ensures
        final(cell)@ is InUse,
        opened(entry(old(cell)@, jvm), jvm, false, r),
{
    attached_or(cell, jvm, false)
}

/// How the opening of a call scope goes on after `GetEnv` answered with
/// status `code` and the address `env`, and the state in which the thread is
/// then.
///
/// - The thread has an environment: somebody else attached it. The guard
///   borrows that attachment and will not end it.
/// - The thread is not attached: it is to be attached by
///   `AttachCurrentThread`, for this scope alone.
/// - Anything else is an error, and the thread is `Detached` again.
pub open spec fn probed(token: Probing, code: i32, env: usize, r: Opening, after: State) -> bool {
    if code == JNI_OK && env != 0 {
        &&& after is InUse
        &&& r matches Opening::Done(Ok(g))
        &&& g@.jvm == token.jvm()
        &&& g@.env.addr() == env
        &&& g@.tenure == Tenure::External
    } else if code == JNI_EDETACHED {
        &&& after is InUse
        &&& r matches Opening::Attach(Call::AttachCurrentThread(j), next)
        &&& j == token.jvm()
        &&& next.jvm() == token.jvm()
        &&& !next.permanent()
    } else if code == JNI_OK {
        &&& after is Detached
        &&& r matches Opening::Done(Err(e))
        &&& is_internal(e, "GetEnv returned null pointer"@)
    } else {
        &&& after is Detached
        &&& r matches Opening::Done(Err(e))
        &&& is_internal(e, failed_with("GetEnv"@, code as int))
    }
}

/// Goes on with the opening of a call scope once `GetEnv` has answered with
/// status `code` and the address `env`. The thread is `InUse`, as the step
/// that handed the token out left it.
pub fn attach_probed(cell: &mut ThreadState, token: Probing, code: i32, env: usize) -> (r: Opening)
    requires
        old(cell)@ is InUse,
    ensures
        probed(token, code, env, r, final(cell)@),
{
    let jvm = token.jvm;
    match jvm.env(code, env) {
        Ok(Some(env)) => Opening::Done(Ok(AttachGuard { jvm, env, tenure: Tenure::External })),
        Ok(None) => Opening::Attach(
            Call::AttachCurrentThread(jvm),
            Attaching { jvm, permanent: false },
        ),
        Err(e) => {
            cell.state = State::Detached;
            Opening::Done(Err(e))
        },
    }
}

/// What the opening of a call scope comes to after `AttachCurrentThread`
/// answered with status `code` and the address `env`, and the state in which
/// the thread is then. Where the thread could not be attached it is
/// `Detached` again, never left `InUse`.
pub open spec fn settled(
    token: Attaching,
    code: i32,
    env: usize,
    r: GlobalResult<AttachGuard>,
    after: State,
) -> bool {
    if code == JNI_OK && env != 0 {
        &&& after is InUse
        &&& r matches Ok(g)
        &&& g@.jvm == token.jvm()
        &&& g@.env.addr() == env
        &&& g@.tenure == tenure_made(token.permanent())
    } else if code == JNI_OK {
        &&& after is Detached
        &&& r matches Err(e)
        &&& is_internal(e, "AttachCurrentThread returned null pointer"@)
    } else {
        &&& after is Detached
        &&& r matches Err(e)
        &&& is_internal(e, failed_with("AttachCurrentThread"@, code as int))
    }
}

/// Ends the opening of a call scope once `AttachCurrentThread` has answered
/// with status `code` and the address `env`. The thread is `InUse`, as the
/// step that handed the token out left it.
pub fn attach_settled(cell: &mut ThreadState, token: Attaching, code: i32, env: usize) -> (r:
    GlobalResult<AttachGuard>)
    requires
        old(cell)@ is InUse,
    ensures
        settled(token, code, env, r, final(cell)@),
{
    let jvm = token.jvm;
    match jvm.attach_thread(code, env) {
        Ok(env) => {
            let tenure = if token.permanent {
                Tenure::Permanent
            } else {
                Tenure::Transient
            };
            Ok(AttachGuard { jvm, env, tenure })
        },
        Err(e) => {
            cell.state = State::Detached;
            Err(e)
        },
    }
}

/// Ends the closing of a call scope once `DetachCurrentThread` has answered
/// with status `code`. The scope is over whatever the answer, and the thread
/// is `Detached`: a thread that the virtual machine did not detach is found
/// attached by the next scope, which then borrows that attachment. A status
/// other than success is returned as the error that names it.
pub fn detached(cell: &mut ThreadState, token: Detaching, code: i32) -> (r: GlobalResult<()>)
    requires
        old(cell)@ is InUse,
    ensures
        final(cell)@ is Detached,
        code == JNI_OK ==> r is Ok,
        code != JNI_OK ==> (r matches Err(e) && is_internal(
            e,
            failed_with("DetachCurrentThread"@, code as int),
        )),
{
    cell.state = State::Detached;
    token.jvm.detach_thread(code)
}

impl AttachGuard {
    /// The environment of the attached thread, for as long as the guard is
    /// borrowed.
    pub fn env(&mut self) -> (env: EnvPtr<'_>)
        ensures
            env == old(self)@.env,
            final(self)@ == old(self)@,
    {
        self.env
    }

    pub(crate) fn environment(&self) -> (env: EnvPtr<'static>)
        ensures
            env == self@.env,
    {
        self.env
    }

    /// The virtual machine that the thread is attached to.
    pub fn jvm(&self) -> (jvm: JvmPtr)
        ensures
            jvm == self@.jvm,
    {
        self.jvm
    }

    /// Who ends the attachment.
    pub fn tenure(&self) -> (tenure: Tenure)
        ensures
            tenure == self@.tenure,
    {
        self.tenure
    }

    /// Closes the call scope: the thread, which is `InUse` while the guard
    /// is held, is left as `released` says. A transient attachment is to be
    /// detached: the host makes the call that is returned and goes on with
    /// the token, in `detached`. Any other attachment owes nothing.
    pub fn release(self, cell: &mut ThreadState) -> (owed: Option<(Call<'static>, Detaching)>)
        requires
            old(cell)@ is InUse,
        ensures
            final(cell)@ == released(self@),
            self@.tenure == Tenure::Transient ==> (owed matches Some(
                (Call::DetachCurrentThread(j), token),
            ) && j == self@.jvm && token.jvm() == self@.jvm),
            self@.tenure != Tenure::Transient ==> owed is None,
    {
        match self.tenure {
            Tenure::Transient => Some(
                (Call::DetachCurrentThread(self.jvm), Detaching { jvm: self.jvm }),
            ),
            Tenure::Permanent => {
                cell.state = State::Attached(self.env, true);
                None
            },
            Tenure::External => {
                cell.state = State::Detached;
                None
            },
        }
    }
}

} // verus!
