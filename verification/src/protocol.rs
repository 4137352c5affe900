//! What the library supposes of the virtual machine, and what its requests
//! achieve on a virtual machine that is as supposed.
//!
//! Nothing here runs. `Machine` is a picture of the virtual machine, drawn
//! from the description of its native interface: which threads are attached,
//! which references are live and what they refer to, and which exceptions
//! are pending. `answers` says how such a machine meets one call. The proofs
//! below follow the library's requests through that picture.

use crate::error::{checked, Error, LocalResult};
use crate::jvm::{closing, without, JavaObject, Scope};
use crate::raw::{Call, EnvPtr, JvmPtr, ObjectPtr, JNI_EDETACHED, JNI_OK};
use crate::ref_::{after_attach, after_probe, Borrowed, Global, Local, Release, Releasing};
use crate::thread::{closed, entry, released, Attachment, Entry, State, Tenure};
use vstd::prelude::*;

verus! {

/// The virtual machine, as far as the library's requests go.
pub struct Machine {
    /// The address of the environment of each attached thread.
    pub envs: Map<int, usize>,
    /// The object that each live reference refers to, by the address of the
    /// reference.
    pub referent: Map<usize, int>,
    /// The environment on which each live scoped reference was made, by the
    /// address of the reference. A durable reference has none.
    pub scoped: Map<usize, usize>,
    /// The object that was thrown and is pending on an environment, by the
    /// address of the environment.
    pub pending: Map<usize, int>,
}

/// What comes back from a call: a status code, an address, or both.
pub struct Answer {
    /// The status code, for a call that returns one.
    pub code: i32,
    /// The address that the call returned or wrote, null for none.
    pub addr: usize,
}

impl Machine {
    /// No environment and no reference is at the null address.
    pub open spec fn wf(self) -> bool {
        &&& forall|t: int| self.envs.contains_key(t) ==> self.envs[t] != 0
        &&& !self.referent.contains_key(0)
    }

    /// The machine with one more durable reference, at `addr`, to `object`.
    pub open spec fn with_durable(self, addr: usize, object: int) -> Machine {
        Machine { referent: self.referent.insert(addr, object), ..self }
    }

    /// The machine with one more scoped reference, at `addr`, to `object`,
    /// made on the environment at `env`.
    pub open spec fn with_scoped(self, addr: usize, env: usize, object: int) -> Machine {
        Machine {
            referent: self.referent.insert(addr, object),
            scoped: self.scoped.insert(addr, env),
            ..self
        }
    }

    /// The machine without the reference at `addr`.
    pub open spec fn without_reference(self, addr: usize) -> Machine {
        Machine {
            referent: self.referent.remove(addr),
            scoped: self.scoped.remove(addr),
            ..self
        }
    }

    /// Whether a scoped reference made on the environment at `env` is live
    /// at `addr`.
    pub open spec fn scoped_on(self, addr: usize, env: usize) -> bool {
        self.scoped.contains_key(addr) && self.scoped[addr] == env
    }
}

/// The machine `pre` makes a new scoped reference to `object` on the
/// environment at `env`: at an address where no reference is live.
pub open spec fn makes_scoped(
    pre: Machine,
    env: usize,
    object: int,
    answer: Answer,
    post: Machine,
) -> bool {
    &&& answer.addr != 0
    &&& !pre.referent.contains_key(answer.addr)
    &&& !pre.scoped.contains_key(answer.addr)
    &&& post == pre.with_scoped(answer.addr, env, object)
}

/// The machine `pre` makes a new durable reference to `object`: at an
/// address where no reference is live.
pub open spec fn makes_durable(pre: Machine, object: int, answer: Answer, post: Machine) -> bool {
    &&& answer.addr != 0
    &&& !pre.referent.contains_key(answer.addr)
    &&& post == pre.with_durable(answer.addr, object)
}

/// On `thread`, the machine `pre` meets `call` with `answer` and is `post`
/// afterwards. Calls that the proofs below do not follow are left open.
pub open spec fn answers(
    pre: Machine,
    thread: int,
    call: Call<'_>,
    answer: Answer,
    post: Machine,
) -> bool {
    match call {
        Call::GetEnv(_, _) => {
            &&& post == pre
            &&& pre.envs.contains_key(thread) ==> answer.code == JNI_OK && answer.addr
                == pre.envs[thread]
            &&& !pre.envs.contains_key(thread) ==> answer.code == JNI_EDETACHED
        },
        Call::AttachCurrentThread(_) => {
            if pre.envs.contains_key(thread) {
                answer.code == JNI_OK && answer.addr == pre.envs[thread] && post == pre
            } else {
                ||| answer.code != JNI_OK && post == pre
                ||| answer.code == JNI_OK && answer.addr != 0 && post == (Machine {
                    envs: pre.envs.insert(thread, answer.addr),
                    ..pre
                })
            }
        },
        Call::DetachCurrentThread(_) => {
            ||| answer.code != JNI_OK && post == pre
            ||| answer.code == JNI_OK && post == (Machine { envs: pre.envs.remove(thread), ..pre })
        },
        Call::NewLocalRef(env, of) => pre.referent.contains_key(of.addr()) ==> {
            ||| answer.addr == 0 && post == pre
            ||| makes_scoped(pre, env.addr(), pre.referent[of.addr()], answer, post)
        },
        Call::NewGlobalRef(_, of) => pre.referent.contains_key(of.addr()) ==> {
            ||| answer.addr == 0 && post == pre
            ||| makes_durable(pre, pre.referent[of.addr()], answer, post)
        },
        Call::DeleteLocalRef(_, obj) => post == pre.without_reference(obj.addr()),
        Call::DeleteGlobalRef(_, obj) => post == pre.without_reference(obj.addr()),
        Call::ExceptionOccurred(env) => {
            if pre.pending.contains_key(env.addr()) {
                makes_scoped(pre, env.addr(), pre.pending[env.addr()], answer, post)
            } else {
                answer.addr == 0 && post == pre
            }
        },
        Call::ExceptionClear(env) => post == (Machine {
            pending: pre.pending.remove(env.addr()),
            ..pre
        }),
        _ => true,
    }
}

/// The scope's count covers the machine: every scoped reference that is
/// live on the scope's environment is one that the scope counts.
pub open spec fn covers(scope: Scope, m: Machine) -> bool {
    forall|addr: usize| #[trigger]
        m.scoped_on(addr, scope.attachment.env.addr()) ==> counted(scope.live, addr)
}

/// Whether a handle at `addr` is among `live`.
pub open spec fn counted(live: Seq<ObjectPtr>, addr: usize) -> bool {
    exists|i: int| 0 <= i < live.len() && (#[trigger] live[i]).addr() == addr
}

proof fn lemma_counted_without(live: Seq<ObjectPtr>, obj: ObjectPtr, addr: usize)
    requires
        counted(live, addr),
        addr != obj.addr(),
    ensures
        counted(without(live, obj), addr),
    decreases live.len(),
{
    let i = choose|i: int| 0 <= i < live.len() && (#[trigger] live[i]).addr() == addr;
    let rest = live.drop_first();
    if live[0] == obj {
        assert(i > 0);
        assert(rest[i - 1] == live[i]);
    } else if i == 0 {
        assert(without(live, obj)[0] == live[0]);
    } else {
        assert(rest[i - 1] == live[i]);
        lemma_counted_without(rest, obj, addr);
        let j = choose|j: int|
            0 <= j < without(rest, obj).len() && (#[trigger] without(rest, obj)[j]).addr() == addr;
        assert(without(live, obj)[j + 1] == without(rest, obj)[j]);
    }
}

/// The count keeps up with the making of a scoped reference: where it
/// covered the machine before, and the scope counts the reference that the
/// machine has made on its environment, it covers the machine afterwards.
/// Every function of the library that takes such a reference from the
/// machine counts it so.
pub proof fn count_covers_a_new_reference(
    before: Scope,
    m: Machine,
    object: int,
    answer: Answer,
    post: Machine,
    obj: ObjectPtr,
    after: Scope,
)
    requires
        covers(before, m),
        makes_scoped(m, before.attachment.env.addr(), object, answer, post),
        obj.addr() == answer.addr,
        after.attachment == before.attachment,
        after.live == before.live.push(obj),
    ensures
        covers(after, post),
{
    let env = before.attachment.env.addr();
    assert forall|addr: usize| #[trigger] post.scoped_on(addr, env) implies counted(
        after.live,
        addr,
    ) by {
        if addr == answer.addr {
            assert(after.live[before.live.len() as int] == obj);
        } else {
            assert(m.scoped_on(addr, env));
            let i = choose|i: int|
                0 <= i < before.live.len() && (#[trigger] before.live[i]).addr() == addr;
            assert(after.live[i] == before.live[i]);
        }
    }
}

/// The count keeps up with the release of a scoped reference: where it
/// covered the machine before, it covers the machine in which the reference
/// has been deleted, once the scope has struck the reference off.
pub proof fn count_covers_a_release(before: Scope, m: Machine, obj: ObjectPtr, after: Scope)
    requires
        covers(before, m),
        after.attachment == before.attachment,
        after.live == without(before.live, obj),
    ensures
        covers(after, m.without_reference(obj.addr())),
{
    let env = before.attachment.env.addr();
    let post = m.without_reference(obj.addr());
    assert forall|addr: usize| #[trigger] post.scoped_on(addr, env) implies counted(
        after.live,
        addr,
    ) by {
        assert(m.scoped_on(addr, env));
        lemma_counted_without(before.live, obj, addr);
    }
}

proof fn lemma_deleted_so_far<'jvm>(
    scope: Scope,
    thread: int,
    states: Seq<Machine>,
    replies: Seq<Answer>,
    k: int,
    addr: usize,
)
    requires
        covers(scope, states[0]),
        states.len() == scope.live.len() + 1,
        replies.len() == scope.live.len(),
        forall|i: int|
            0 <= i < scope.live.len() ==> answers(
                #[trigger] states[i],
                thread,
                closing::<'jvm>(scope)[i],
                replies[i],
                states[i + 1],
            ),
        0 <= k <= scope.live.len(),
        states[k].scoped_on(addr, scope.attachment.env.addr()),
    ensures
        states[0].scoped_on(addr, scope.attachment.env.addr()),
        forall|i: int| 0 <= i < k ==> (#[trigger] scope.live[i]).addr() != addr,
    decreases k,
{
    if k > 0 {
        assert(answers(
            states[k - 1],
            thread,
            closing::<'jvm>(scope)[k - 1],
            replies[k - 1],
            states[k - 1 + 1],
        ));
        assert(closing::<'jvm>(scope)[k - 1] == Call::<'jvm>::DeleteLocalRef(
            scope.attachment.env,
            scope.live[k - 1],
        ));
        assert(states[k] == states[k - 1].without_reference(scope.live[k - 1].addr()));
        lemma_deleted_so_far(scope, thread, states, replies, k - 1, addr);
    }
}

/// A scoped reference never outlives its attachment. When a scope is
/// closed, every reference that it still counts is deleted, on the scope's
/// own environment, and only after all of them is the thread detached, if it
/// is detached at all. Nothing but the closing of its scope gives an
/// attachment up once a scope is open on it.
pub proof fn scoped_references_end_before_their_attachment<'jvm>(scope: Scope)
    ensures
        forall|i: int|
            0 <= i < scope.live.len() ==> closing::<'jvm>(scope)[i] == Call::<
                'jvm,
            >::DeleteLocalRef(scope.attachment.env, scope.live[i]),
        forall|j: int|
            0 <= j < closing::<'jvm>(scope).len() && closing::<'jvm>(scope)[j]
                is DetachCurrentThread ==> scope.live.len() <= j,
        scope.attachment.tenure == Tenure::Transient ==> closing::<'jvm>(scope).last() == Call::<
            'jvm,
        >::DetachCurrentThread(scope.attachment.jvm),
        scope.attachment.tenure != Tenure::Transient ==> closing::<'jvm>(scope).len()
            == scope.live.len(),
{
}

/// When the attachment of a scope is given up, no scoped reference is live
/// on its environment. `states` are the machine before the closing of the
/// scope and after each deletion that the closing owes, and `replies` what
/// came back from each: where the count covered the machine before, the
/// machine that is reached when all deletions are made, and in which the
/// thread is then detached or left attached, holds no scoped reference of
/// that environment.
pub proof fn no_scoped_reference_is_left_at_the_end<'jvm>(
    scope: Scope,
    thread: int,
    states: Seq<Machine>,
    replies: Seq<Answer>,
)
    requires
        covers(scope, states[0]),
        states.len() == scope.live.len() + 1,
        replies.len() == scope.live.len(),
        forall|i: int|
            0 <= i < scope.live.len() ==> answers(
                #[trigger] states[i],
                thread,
                closing::<'jvm>(scope)[i],
                replies[i],
                states[i + 1],
            ),
    ensures
        forall|addr: usize|
            !(#[trigger] states.last().scoped_on(addr, scope.attachment.env.addr())),
{
    let n = scope.live.len() as int;
    let env = scope.attachment.env.addr();
    assert forall|addr: usize| !(#[trigger] states.last().scoped_on(addr, env)) by {
        if states[n].scoped_on(addr, env) {
            lemma_deleted_so_far(scope, thread, states, replies, n, addr);
            assert(counted(scope.live, addr));
        }
    }
}

/// A thread that is inside a call scope refuses a second one, and the
/// attempt leaves it inside the first. A call scope never ends with the
/// thread still `InUse`: the release of a guard that owes nothing leaves the
/// thread attached or detached at once, and the one that owes a detachment
/// leaves it `InUse` only until that call is answered, when the thread is
/// `Detached` whatever the answer. So once the first scope is closed, another
/// is not refused.
pub proof fn nested_scope_is_refused_and_harmless(a: Attachment, jvm: JvmPtr)
    ensures
        entry(State::InUse, jvm) is Refused,
        a.tenure != Tenure::Transient ==> closed(a) == released(a),
        a.tenure == Tenure::Transient ==> released(a) is InUse && closed(a) is Detached,
        !(closed(a) is InUse),
        !(entry(closed(a), jvm) is Refused),
        a.tenure == Tenure::Permanent ==> entry(closed(a), jvm) is Lent,
        a.tenure != Tenure::Permanent ==> entry(closed(a), jvm) is Unattached,
{
}

/// A durable reference can be released on a thread that has an environment,
/// whoever attached it: the one call that the release owes deletes the
/// reference there, and the thread stays attached.
pub proof fn durable_release_on_attached_thread(
    m: Machine,
    thread: int,
    r: Releasing,
    probe: Answer,
    next: Release<'_>,
    deleted: Answer,
    end: Machine,
)
    requires
        m.wf(),
        m.envs.contains_key(thread),
        answers(m, thread, Call::GetEnv(r.jvm(), crate::raw::VERSION), probe, m),
        after_probe(r, probe.code, probe.addr, next),
        next matches Release::Finish(calls) ==> calls@.len() == 1 ==> answers(
            m,
            thread,
            calls@[0],
            deleted,
            end,
        ),
    ensures
        next matches Release::Finish(calls) && calls@.len() == 1 && (
        calls@[0] matches Call::DeleteGlobalRef(e, o) && e.addr() == m.envs[thread] && o == r.obj()),
        !end.referent.contains_key(r.obj().addr()),
        end.envs == m.envs,
{
}

/// A durable reference can be released on a thread that is not attached at
/// all, with no attachment prepared: the release has the thread attached,
/// deletes the reference on the new environment and has the thread detached
/// again. Where the virtual machine attaches and detaches the thread, the
/// reference is gone afterwards and the thread is as it was.
pub proof fn durable_release_on_detached_thread(
    m: Machine,
    thread: int,
    r: Releasing,
    probe: Answer,
    next: Release<'_>,
    attach: Answer,
    attached: Machine,
    calls: Seq<Call<'_>>,
    deleted: Answer,
    without: Machine,
    detach: Answer,
    end: Machine,
)
    requires
        m.wf(),
        !m.envs.contains_key(thread),
        answers(m, thread, Call::GetEnv(r.jvm(), crate::raw::VERSION), probe, m),
        after_probe(r, probe.code, probe.addr, next),
        next matches Release::Attach(call, rest) ==> answers(m, thread, call, attach, attached)
            && after_attach(rest, attach.code, attach.addr, calls),
        attach.code == JNI_OK,
        calls.len() == 2 ==> answers(attached, thread, calls[0], deleted, without) && answers(
            without,
            thread,
            calls[1],
            detach,
            end,
        ),
        detach.code == JNI_OK,
    ensures
        next matches Release::Attach(call, rest) && rest == r && (
        call matches Call::AttachCurrentThread(j) && j == r.jvm()),
        calls.len() == 2,
        calls[0] matches Call::DeleteGlobalRef(e, o) && e.addr() == attach.addr && o == r.obj(),
        calls[1] matches Call::DetachCurrentThread(j) && j == r.jvm(),
        !end.referent.contains_key(r.obj().addr()),
        end.envs =~= m.envs,
{
}

/// A pending exception is reported once. The check that finds it holds it
/// by a scoped reference to the very object that was thrown, and owes the
/// call that clears it; on a virtual machine that has answered that call, the
/// next check finds nothing, owes nothing, and leaves the scope as it was.
pub proof fn pending_exception_is_reported_once<'jvm>(
    m: Machine,
    thread: int,
    scope: Scope,
    first: Answer,
    m1: Machine,
    outcome1: LocalResult<'jvm, ()>,
    owed1: Option<Call<'jvm>>,
    scope1: Scope,
    cleared: Answer,
    m2: Machine,
    second: Answer,
    m3: Machine,
    outcome2: LocalResult<'jvm, ()>,
    owed2: Option<Call<'jvm>>,
    scope2: Scope,
)
    requires
        m.wf(),
        m.pending.contains_key(scope.attachment.env.addr()),
        answers(m, thread, Call::ExceptionOccurred(scope.attachment.env), first, m1),
        checked(scope, first.addr, outcome1, owed1, scope1),
        owed1 matches Some(call) ==> answers(m1, thread, call, cleared, m2),
        answers(m2, thread, Call::ExceptionOccurred(scope.attachment.env), second, m3),
        checked(scope1, second.addr, outcome2, owed2, scope2),
    ensures
        outcome1 matches Err(Error::Thrown(t)) && t.env() == scope.attachment.env
            && m1.referent.contains_key(t.obj().addr()) && m1.referent[t.obj().addr()]
            == m.pending[scope.attachment.env.addr()] && scope1.live == scope.live.push(t.obj()),
        owed1 matches Some(Call::ExceptionClear(e)) && e == scope.attachment.env,
        !m2.pending.contains_key(scope.attachment.env.addr()),
        outcome2 is Ok,
        owed2 is None,
        scope2 == scope1,
        m3 == m2,
{
}

/// An upcast costs nothing and changes nothing but the tag: the view
/// through the supertype is of the same object, by the same handle, as the
/// view through the type itself, and the environment is the same.
pub proof fn upcast_is_free<T: JavaObject, S: JavaObject>(r: Local<'_, T>)
    ensures
        Borrowed::<S>::of(r.retagged::<S>().obj()).obj() == Borrowed::<T>::of(r.obj()).obj(),
        r.retagged::<S>().obj() == r.obj(),
        r.retagged::<S>().env() == r.env(),
{
    r.retagged_same::<S>();
    Borrowed::<S>::of_obj(r.retagged::<S>().obj());
    Borrowed::<T>::of_obj(r.obj());
}

/// The same of a durable reference.
pub proof fn durable_upcast_is_free<T: JavaObject, S: JavaObject>(r: Global<T>)
    ensures
        Borrowed::<S>::of(r.retagged::<S>().obj()).obj() == Borrowed::<T>::of(r.obj()).obj(),
        r.retagged::<S>().obj() == r.obj(),
        r.retagged::<S>().jvm() == r.jvm(),
{
    r.retagged_same::<S>();
    Borrowed::<S>::of_obj(r.retagged::<S>().obj());
    Borrowed::<T>::of_obj(r.obj());
}

/// From a scoped reference to a durable one and back, the object stays the
/// same: where the virtual machine had room both times, the scoped reference
/// that comes back refers to the object that the first one referred to, and
/// the first one is still live.
pub proof fn round_trip_keeps_the_object<'jvm, T: JavaObject>(
    m: Machine,
    thread: int,
    env: EnvPtr<'jvm>,
    origin: Local<'jvm, T>,
    up: Answer,
    m1: Machine,
    durable: Global<T>,
    down: Answer,
    m2: Machine,
    back: Local<'jvm, T>,
)
    requires
        m.wf(),
        m.referent.contains_key(origin.obj().addr()),
        answers(m, thread, Call::NewGlobalRef(env, Borrowed::<T>::of(origin.obj()).obj()), up, m1),
        up.addr != 0,
        durable.obj().addr() == up.addr,
        answers(
            m1,
            thread,
            Call::NewLocalRef(env, Borrowed::<T>::of(durable.obj()).obj()),
            down,
            m2,
        ),
        down.addr != 0,
        back.obj().addr() == down.addr,
    ensures
        m2.referent.contains_key(back.obj().addr()),
        m2.referent[back.obj().addr()] == m.referent[origin.obj().addr()],
        m2.referent.contains_key(origin.obj().addr()),
        m2.referent.contains_key(durable.obj().addr()),
        m2.referent[durable.obj().addr()] == m.referent[origin.obj().addr()],
{
    Borrowed::<T>::of_obj(origin.obj());
    Borrowed::<T>::of_obj(durable.obj());
}

} // verus!
