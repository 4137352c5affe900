use duchess::error::{check_exception, Error, GlobalResult, LocalResult};
use duchess::find::{
    class_not_found, constructor_not_found, find_class, find_constructor, find_method,
    method_not_found,
};
use duchess::java::lang::{Class, JavaString, Object, Throwable};
use duchess::jvm::{JavaObject, Jvm, Upcast};
use duchess::raw::{
    Call, EnvPtr, FromJniValue, IntoJniValue, JValue, JvmPtr, MethodPtr, ObjectPtr, Step,
    JNI_EDETACHED, JNI_OK, VERSION,
};
use duchess::ref_::{Borrowed, Global, Local, Release};
use duchess::str::{into_java, into_rust, string_not_made};
use duchess::thread::{
    attach, attach_permanently, attach_probed, attach_settled, attached_or, detached, AttachGuard,
    Opening, State, Tenure, ThreadState,
};
use std::collections::HashMap;

/// What a call comes back with.
struct Answer {
    code: i32,
    addr: usize,
    bytes: Vec<u8>,
}

impl Answer {
    fn code(code: i32) -> Answer {
        Answer { code, addr: 0, bytes: Vec::new() }
    }

    fn addr(addr: usize) -> Answer {
        Answer { code: JNI_OK, addr, bytes: Vec::new() }
    }
}

/// A stand-in for the virtual machine, which also watches how it is used.
struct Machine {
    vm: usize,
    fresh: usize,
    objects: u64,
    envs: HashMap<u32, usize>,
    locals: HashMap<usize, (usize, u64)>,
    globals: HashMap<usize, u64>,
    pending: HashMap<usize, u64>,
    strings: HashMap<u64, Vec<u8>>,
    classes: HashMap<String, u64>,
    methods: HashMap<(u64, String, String), usize>,
    room: bool,
    throws: bool,
    attach_code: i32,
    detach_code: i32,
    attaches: usize,
    detaches: usize,
    calls: Vec<String>,
}

impl Machine {
    fn new() -> Machine {
        Machine {
            vm: 0x1000,
            fresh: 0x10_0000,
            objects: 0,
            envs: HashMap::new(),
            locals: HashMap::new(),
            globals: HashMap::new(),
            pending: HashMap::new(),
            strings: HashMap::new(),
            classes: HashMap::new(),
            methods: HashMap::new(),
            room: true,
            throws: true,
            attach_code: JNI_OK,
            detach_code: JNI_OK,
            attaches: 0,
            detaches: 0,
            calls: Vec::new(),
        }
    }

    fn vm(&self) -> JvmPtr {
        JvmPtr::new(self.vm).unwrap()
    }

    fn address(&mut self) -> usize {
        self.fresh += 16;
        self.fresh
    }

    fn object(&mut self) -> u64 {
        self.objects += 1;
        self.objects
    }

    /// Attaches a thread as some other part of the process would.
    fn attach_from_outside(&mut self, thread: u32) -> usize {
        let env = self.address();
        self.envs.insert(thread, env);
        env
    }

    fn on_own_thread(&self, thread: u32, env: EnvPtr<'_>) -> usize {
        let own = self.envs.get(&thread).copied();
        assert_eq!(own, Some(env.as_ptr()), "an environment was used off its thread");
        env.as_ptr()
    }

    fn referent(&self, obj: ObjectPtr) -> u64 {
        if let Some((_, object)) = self.locals.get(&obj.as_ptr()) {
            return *object;
        }
        *self.globals.get(&obj.as_ptr()).expect("a dead reference was used")
    }

    fn local_to(&mut self, env: usize, object: u64) -> usize {
        let addr = self.address();
        self.locals.insert(addr, (env, object));
        addr
    }

    /// A new object and a scoped reference to it, as a constructor returns
    /// one.
    fn construct(&mut self, thread: u32) -> usize {
        let env = self.envs[&thread];
        let object = self.object();
        self.local_to(env, object)
    }

    fn throw(&mut self, thread: u32) -> u64 {
        let env = self.envs[&thread];
        let object = self.object();
        self.pending.insert(env, object);
        object
    }

    fn locals_of(&self, env: usize) -> usize {
        self.locals.values().filter(|(e, _)| *e == env).count()
    }

    fn globals_to(&self, object: u64) -> usize {
        self.globals.values().filter(|o| **o == object).count()
    }

    fn perform(&mut self, thread: u32, call: &Call<'_>) -> Answer {
        self.calls.push(format!("{:?}", call));
        match call {
            Call::GetCreatedJavaVMs => Answer::addr(self.vm),
            Call::CreateJavaVM(_) => Answer::addr(self.vm),
            Call::GetEnv(vm, version) => {
                assert_eq!(vm.as_ptr(), self.vm);
                assert_eq!(*version, VERSION);
                match self.envs.get(&thread) {
                    Some(env) => Answer::addr(*env),
                    None => Answer::code(JNI_EDETACHED),
                }
            }
            Call::AttachCurrentThread(vm) => {
                assert_eq!(vm.as_ptr(), self.vm);
                if let Some(env) = self.envs.get(&thread) {
                    return Answer::addr(*env);
                }
                if self.attach_code != JNI_OK {
                    return Answer::code(self.attach_code);
                }
                self.attaches += 1;
                let env = self.address();
                self.envs.insert(thread, env);
                Answer::addr(env)
            }
            Call::DetachCurrentThread(vm) => {
                assert_eq!(vm.as_ptr(), self.vm);
                if self.detach_code != JNI_OK {
                    return Answer::code(self.detach_code);
                }
                let env = self.envs.remove(&thread).expect("a detached thread was detached");
                assert_eq!(
                    self.locals_of(env),
                    0,
                    "a thread was detached over scoped references of its own"
                );
                self.detaches += 1;
                Answer::code(JNI_OK)
            }
            Call::NewLocalRef(env, obj) => {
                let env = self.on_own_thread(thread, *env);
                let object = self.referent(*obj);
                if !self.room {
                    return Answer::addr(0);
                }
                Answer::addr(self.local_to(env, object))
            }
            Call::DeleteLocalRef(env, obj) => {
                let env = self.on_own_thread(thread, *env);
                let (made_on, _) = self
                    .locals
                    .remove(&obj.as_ptr())
                    .expect("a scoped reference was deleted that is not live");
                assert_eq!(made_on, env, "a scoped reference was deleted off its environment");
                Answer::code(JNI_OK)
            }
            Call::NewGlobalRef(env, obj) => {
                self.on_own_thread(thread, *env);
                let object = self.referent(*obj);
                if !self.room {
                    return Answer::addr(0);
                }
                let addr = self.address();
                self.globals.insert(addr, object);
                Answer::addr(addr)
            }
            Call::DeleteGlobalRef(env, obj) => {
                self.on_own_thread(thread, *env);
                self.globals
                    .remove(&obj.as_ptr())
                    .expect("a durable reference was deleted that is not live");
                Answer::code(JNI_OK)
            }
            Call::ExceptionOccurred(env) => {
                let env = self.on_own_thread(thread, *env);
                match self.pending.get(&env).copied() {
                    Some(object) => Answer::addr(self.local_to(env, object)),
                    None => Answer::addr(0),
                }
            }
            Call::ExceptionClear(env) => {
                let env = self.on_own_thread(thread, *env);
                self.pending.remove(&env);
                Answer::code(JNI_OK)
            }
            Call::FindClass(env, name) => {
                let env = self.on_own_thread(thread, *env);
                match self.classes.get(name).copied() {
                    Some(object) => Answer::addr(self.local_to(env, object)),
                    None => {
                        if self.throws {
                            self.throw(thread);
                        }
                        Answer::addr(0)
                    }
                }
            }
            Call::GetMethodID(env, class, name, descriptor) => {
                self.on_own_thread(thread, *env);
                let class = self.referent(*class);
                match self.methods.get(&(class, name.clone(), descriptor.clone())).copied() {
                    Some(method) => Answer::addr(method),
                    None => {
                        if self.throws {
                            self.throw(thread);
                        }
                        Answer::addr(0)
                    }
                }
            }
            Call::NewStringUTF(env, bytes) => {
                let env = self.on_own_thread(thread, *env);
                assert!(!bytes.contains(&0), "a C string holds no zero byte");
                if !self.room {
                    if self.throws {
                        self.throw(thread);
                    }
                    return Answer::addr(0);
                }
                let object = self.object();
                self.strings.insert(object, bytes.clone());
                Answer::addr(self.local_to(env, object))
            }
            Call::GetStringUTFLength(env, string) => {
                self.on_own_thread(thread, *env);
                let object = self.referent(*string);
                Answer::code(self.strings[&object].len() as i32)
            }
            Call::GetStringLength(env, string) => {
                self.on_own_thread(thread, *env);
                let object = self.referent(*string);
                let text = cesu8::from_java_cesu8(&self.strings[&object]).unwrap().into_owned();
                Answer::code(text.encode_utf16().count() as i32)
            }
            Call::GetStringUTFRegion(env, string, start, len, room) => {
                self.on_own_thread(thread, *env);
                let object = self.referent(*string);
                let bytes = self.strings[&object].clone();
                assert_eq!(*start, 0);
                let text = cesu8::from_java_cesu8(&bytes).unwrap().into_owned();
                assert_eq!(*len as usize, text.encode_utf16().count());
                assert_eq!(*room, bytes.len());
                Answer { code: JNI_OK, addr: 0, bytes }
            }
        }
    }
}

fn go_on(
    m: &mut Machine,
    thread: u32,
    cell: &mut ThreadState,
    opening: Opening,
) -> GlobalResult<AttachGuard> {
    match opening {
        Opening::Done(outcome) => outcome,
        Opening::Probe(call, token) => {
            let probe = m.perform(thread, &call);
            assert_eq!(cell.get(), State::InUse);
            let next = attach_probed(cell, token, probe.code, probe.addr);
            go_on(m, thread, cell, next)
        }
        Opening::Attach(call, token) => {
            let answer = m.perform(thread, &call);
            assert_eq!(cell.get(), State::InUse);
            attach_settled(cell, token, answer.code, answer.addr)
        }
    }
}

fn open(m: &mut Machine, thread: u32, cell: &mut ThreadState) -> GlobalResult<AttachGuard> {
    let opening = attach(cell, m.vm());
    go_on(m, thread, cell, opening)
}

fn open_permanently(
    m: &mut Machine,
    thread: u32,
    cell: &mut ThreadState,
) -> GlobalResult<AttachGuard> {
    let opening = attach_permanently(cell, m.vm());
    go_on(m, thread, cell, opening)
}

fn let_go(m: &mut Machine, thread: u32, cell: &mut ThreadState, guard: AttachGuard) {
    assert_eq!(cell.get(), State::InUse);
    if let Some((call, token)) = guard.release(cell) {
        let answer = m.perform(thread, &call);
        let _ = detached(cell, token, answer.code);
    }
}

fn close(m: &mut Machine, thread: u32, cell: &mut ThreadState, scope: Jvm<'_>) -> Vec<String> {
    assert_eq!(cell.get(), State::InUse);
    let mut made = Vec::new();
    let (calls, token) = scope.finish(cell);
    let mut status = JNI_OK;
    for call in calls {
        made.push(format!("{:?}", call));
        status = m.perform(thread, &call).code;
    }
    if let Some(token) = token {
        let _ = detached(cell, token, status);
    }
    made
}

fn check<'jvm>(m: &mut Machine, thread: u32, scope: &mut Jvm<'jvm>) -> LocalResult<'jvm, ()> {
    let asked = scope.exception_occurred();
    let thrown = m.perform(thread, &asked);
    let (outcome, owed) = check_exception(scope, thrown.addr);
    if let Some(call) = owed {
        m.perform(thread, &call);
    }
    outcome
}

fn give_up<T: JavaObject>(m: &mut Machine, thread: u32, durable: Global<T>) -> usize {
    let (releasing, call) = durable.release();
    let probe = m.perform(thread, &call);
    let calls = match releasing.probed(probe.code, probe.addr) {
        Release::Finish(calls) => calls,
        Release::Attach(call, rest) => {
            let answer = m.perform(thread, &call);
            rest.attached(answer.code, answer.addr)
        }
    };
    for call in calls.iter() {
        m.perform(thread, call);
    }
    calls.len()
}

fn adopt<'jvm, T: JavaObject>(scope: &mut Jvm<'jvm>, addr: usize) -> Local<'jvm, T> {
    Local::from_raw(scope, ObjectPtr::new(addr).unwrap())
}

fn to_java<'jvm>(
    m: &mut Machine,
    thread: u32,
    scope: &mut Jvm<'jvm>,
    text: &str,
) -> LocalResult<'jvm, Local<'jvm, JavaString>> {
    let call = scope.new_string_utf(text);
    let made = m.perform(thread, &call);
    match into_java(scope, made.addr) {
        Step::Done(string) => Ok(string),
        Step::Call(call) => {
            let thrown = m.perform(thread, &call);
            let (error, owed) = string_not_made(scope, thrown.addr);
            if let Some(call) = owed {
                m.perform(thread, &call);
            }
            Err(error)
        }
    }
}

fn to_rust<'jvm>(
    m: &mut Machine,
    thread: u32,
    scope: &mut Jvm<'jvm>,
    string: &Borrowed<'_, JavaString>,
) -> LocalResult<'jvm, String> {
    let cesu8_len = m.perform(thread, &scope.get_string_utf_length(string)).code;
    assert!(cesu8_len >= 0);
    let utf16_len = m.perform(thread, &scope.get_string_length(string)).code;
    assert!(utf16_len >= 0);
    let region = m.perform(thread, &scope.get_string_utf_region(string, cesu8_len, utf16_len));
    let thrown = m.perform(thread, &scope.exception_occurred());
    let (outcome, owed) = into_rust(scope, region.bytes, thrown.addr);
    if let Some(call) = owed {
        m.perform(thread, &call);
    }
    outcome
}

fn promote<'jvm, T>(
    m: &mut Machine,
    thread: u32,
    scope: &mut Jvm<'jvm>,
    outcome: LocalResult<'jvm, T>,
) -> GlobalResult<T> {
    match outcome {
        Ok(value) => Ok(value),
        Err(error) => {
            let new_ref = match error.promotion(scope) {
                Some(call) => m.perform(thread, &call).addr,
                None => 0,
            };
            let (error, owed) = error.into_global(scope, new_ref);
            if let Some(call) = owed {
                m.perform(thread, &call);
            }
            Err(error)
        }
    }
}

#[test]
fn transient_scope_attaches_and_detaches() {
    let mut m = Machine::new();
    let mut cell = ThreadState::new();
    assert_eq!(cell.get(), State::Detached);
    let mut guard = open(&mut m, 1, &mut cell).unwrap();
    assert_eq!(cell.get(), State::InUse);
    assert_eq!(guard.tenure(), Tenure::Transient);
    assert_eq!(guard.env().as_ptr(), m.envs[&1]);
    assert_eq!(guard.jvm().as_ptr(), m.vm);
    let_go(&mut m, 1, &mut cell, guard);
    assert_eq!(cell.get(), State::Detached);
    assert!(m.envs.is_empty());
    assert_eq!((m.attaches, m.detaches), (1, 1));
}

#[test]
fn nested_scope_is_refused() {
    let mut m = Machine::new();
    let mut cell = ThreadState::new();
    let guard = open(&mut m, 1, &mut cell).unwrap();
    let calls_before = m.calls.len();
    let nested = open(&mut m, 1, &mut cell);
    assert_eq!(nested, Err(Error::NestedUsage));
    assert_eq!(cell.get(), State::InUse);
    assert_eq!(m.calls.len(), calls_before);
    assert_eq!(open_permanently(&mut m, 1, &mut cell), Err(Error::NestedUsage));
    assert_eq!(attached_or(&mut cell, m.vm(), false), Opening::Done(Err(Error::NestedUsage)));
    assert_eq!(attached_or(&mut cell, m.vm(), true), Opening::Done(Err(Error::NestedUsage)));
    assert_eq!(cell.get(), State::InUse);
    let_go(&mut m, 1, &mut cell, guard);
    assert_eq!(cell.get(), State::Detached);
    let again = open(&mut m, 1, &mut cell).unwrap();
    assert_eq!(again.tenure(), Tenure::Transient);
    let_go(&mut m, 1, &mut cell, again);
    assert_eq!(cell.get(), State::Detached);
}

#[test]
fn nested_scope_is_refused_on_a_permanent_attachment() {
    let mut m = Machine::new();
    let mut cell = ThreadState::new();
    let guard = open_permanently(&mut m, 1, &mut cell).unwrap();
    assert_eq!(open(&mut m, 1, &mut cell), Err(Error::NestedUsage));
    assert_eq!(cell.get(), State::InUse);
    let env = m.envs[&1];
    let_go(&mut m, 1, &mut cell, guard);
    assert_eq!(cell.get(), State::Attached(EnvPtr::new(env).unwrap(), true));
    let again = open(&mut m, 1, &mut cell).unwrap();
    assert_eq!(again.tenure(), Tenure::Permanent);
    let_go(&mut m, 1, &mut cell, again);
}

#[test]
fn permanent_attachment_is_never_detached() {
    let mut m = Machine::new();
    let mut cell = ThreadState::new();
    let guard = open_permanently(&mut m, 1, &mut cell).unwrap();
    assert_eq!(guard.tenure(), Tenure::Permanent);
    let env = m.envs[&1];
    let_go(&mut m, 1, &mut cell, guard);
    assert_eq!(cell.get(), State::Attached(EnvPtr::new(env).unwrap(), true));
    for _ in 0..3 {
        let mut guard = open(&mut m, 1, &mut cell).unwrap();
        assert_eq!(guard.tenure(), Tenure::Permanent);
        assert_eq!(guard.env().as_ptr(), env);
        assert_eq!(cell.get(), State::InUse);
        let_go(&mut m, 1, &mut cell, guard);
        assert_eq!(cell.get(), State::Attached(EnvPtr::new(env).unwrap(), true));
    }
    assert_eq!((m.attaches, m.detaches), (1, 0));
    assert_eq!(m.envs[&1], env);
}

#[test]
fn attachment_of_another_is_borrowed_and_left_alone() {
    let mut m = Machine::new();
    let env = m.attach_from_outside(7);
    let mut cell = ThreadState::new();
    let mut guard = open(&mut m, 7, &mut cell).unwrap();
    assert_eq!(guard.tenure(), Tenure::External);
    assert_eq!(guard.env().as_ptr(), env);
    assert_eq!(guard.release(&mut cell), None);
    assert_eq!(cell.get(), State::Detached);
    assert_eq!((m.attaches, m.detaches), (0, 0));
    assert_eq!(m.envs[&7], env);
    let probes = m.calls.len();
    let guard = open(&mut m, 7, &mut cell).unwrap();
    assert_eq!(m.calls.len(), probes + 1);
    assert_eq!(guard.tenure(), Tenure::External);
    let_go(&mut m, 7, &mut cell, guard);
    assert_eq!(cell.get(), State::Detached);
    assert_eq!(m.detaches, 0);
    assert_eq!(m.envs[&7], env);
}

#[test]
fn attachment_that_another_ended_is_not_used_again() {
    let mut m = Machine::new();
    let env = m.attach_from_outside(7);
    let mut cell = ThreadState::new();
    let guard = open(&mut m, 7, &mut cell).unwrap();
    let_go(&mut m, 7, &mut cell, guard);
    m.envs.remove(&7);
    let mut guard = open(&mut m, 7, &mut cell).unwrap();
    assert_eq!(guard.tenure(), Tenure::Transient);
    assert_ne!(guard.env().as_ptr(), env);
    assert_eq!(guard.env().as_ptr(), m.envs[&7]);
    let_go(&mut m, 7, &mut cell, guard);
    assert_eq!(cell.get(), State::Detached);
    assert_eq!((m.attaches, m.detaches), (1, 1));
}

#[test]
fn failed_attach_leaves_the_thread_detached() {
    let mut m = Machine::new();
    m.attach_code = -1;
    let mut cell = ThreadState::new();
    let outcome = open(&mut m, 1, &mut cell);
    assert_eq!(
        outcome,
        Err(Error::JvmInternal("AttachCurrentThread failed with code `-1`".to_string()))
    );
    assert_eq!(cell.get(), State::Detached);
    let outcome = open_permanently(&mut m, 1, &mut cell);
    assert_eq!(
        outcome,
        Err(Error::JvmInternal("AttachCurrentThread failed with code `-1`".to_string()))
    );
    assert_eq!(cell.get(), State::Detached);
    m.attach_code = JNI_OK;
    let guard = open(&mut m, 1, &mut cell).unwrap();
    let_go(&mut m, 1, &mut cell, guard);
}

#[test]
fn failed_probe_leaves_the_thread_detached() {
    let m = Machine::new();
    let mut cell = ThreadState::new();
    let token = match attach(&mut cell, m.vm()) {
        Opening::Probe(call, token) => {
            assert_eq!(call, Call::GetEnv(m.vm(), VERSION));
            token
        }
        other => panic!("unexpected {:?}", other),
    };
    assert_eq!(cell.get(), State::InUse);
    let step = attach_probed(&mut cell, token, -3, 0);
    assert_eq!(
        step,
        Opening::Done(Err(Error::JvmInternal("GetEnv failed with code `-3`".to_string())))
    );
    assert_eq!(cell.get(), State::Detached);
    let token = match attach(&mut cell, m.vm()) {
        Opening::Probe(_, token) => token,
        other => panic!("unexpected {:?}", other),
    };
    let step = attach_probed(&mut cell, token, JNI_OK, 0);
    assert_eq!(
        step,
        Opening::Done(Err(Error::JvmInternal("GetEnv returned null pointer".to_string())))
    );
    assert_eq!(cell.get(), State::Detached);
}

#[test]
fn probe_of_a_detached_thread_asks_for_the_attachment() {
    let m = Machine::new();
    let mut cell = ThreadState::new();
    let token = match attach(&mut cell, m.vm()) {
        Opening::Probe(_, token) => token,
        other => panic!("unexpected {:?}", other),
    };
    let token = match attach_probed(&mut cell, token, JNI_EDETACHED, 0) {
        Opening::Attach(call, token) => {
            assert_eq!(call, Call::AttachCurrentThread(m.vm()));
            token
        }
        other => panic!("unexpected {:?}", other),
    };
    assert_eq!(cell.get(), State::InUse);
    let guard = attach_settled(&mut cell, token, JNI_OK, 0x2000).unwrap();
    assert_eq!(guard.tenure(), Tenure::Transient);
    assert_eq!(cell.get(), State::InUse);
    let (call, token) = guard.release(&mut cell).unwrap();
    assert_eq!(call, Call::DetachCurrentThread(m.vm()));
    assert_eq!(detached(&mut cell, token, JNI_OK), Ok(()));
    assert_eq!(cell.get(), State::Detached);
}

#[test]
fn attach_that_wrote_null_is_an_error() {
    let m = Machine::new();
    let mut cell = ThreadState::new();
    let token = match attach_permanently(&mut cell, m.vm()) {
        Opening::Attach(call, token) => {
            assert_eq!(call, Call::AttachCurrentThread(m.vm()));
            token
        }
        other => panic!("unexpected {:?}", other),
    };
    let outcome = attach_settled(&mut cell, token, JNI_OK, 0);
    assert_eq!(
        outcome,
        Err(Error::JvmInternal("AttachCurrentThread returned null pointer".to_string()))
    );
    assert_eq!(cell.get(), State::Detached);
}

#[test]
fn failed_detach_is_reported_and_ends_the_scope() {
    let mut m = Machine::new();
    let mut cell = ThreadState::new();
    let guard = open(&mut m, 1, &mut cell).unwrap();
    let env = m.envs[&1];
    let vm = guard.jvm();
    let (call, token) = guard.release(&mut cell).unwrap();
    assert_eq!(call, Call::DetachCurrentThread(vm));
    assert_eq!(cell.get(), State::InUse);
    m.detach_code = -1;
    let answer = m.perform(1, &call);
    let outcome = detached(&mut cell, token, answer.code);
    assert_eq!(
        outcome,
        Err(Error::JvmInternal("DetachCurrentThread failed with code `-1`".to_string()))
    );
    assert_eq!(cell.get(), State::Detached);
    // The thread is still attached; the next scope finds that and borrows it.
    let mut guard = open(&mut m, 1, &mut cell).unwrap();
    assert_eq!(guard.tenure(), Tenure::External);
    assert_eq!(guard.env().as_ptr(), env);
    let_go(&mut m, 1, &mut cell, guard);
    assert_eq!(cell.get(), State::Detached);
    assert_eq!(m.detaches, 0);
}

#[test]
fn failed_detach_at_the_end_of_a_scope_does_not_lose_the_thread() {
    let mut m = Machine::new();
    let mut cell = ThreadState::new();
    let scope = Jvm::new(open(&mut m, 1, &mut cell).unwrap());
    m.detach_code = -5;
    close(&mut m, 1, &mut cell, scope);
    assert_eq!(cell.get(), State::Detached);
    m.detach_code = JNI_OK;
    let scope = Jvm::new(open(&mut m, 1, &mut cell).unwrap());
    close(&mut m, 1, &mut cell, scope);
    assert_eq!(cell.get(), State::Detached);
}

#[test]
fn scope_counts_its_references() {
    let mut m = Machine::new();
    let mut cell = ThreadState::new();
    let guard = open(&mut m, 1, &mut cell).unwrap();
    let mut scope = Jvm::new(guard);
    assert_eq!(scope.outstanding(), 0);
    let a = m.construct(1);
    let b = m.construct(1);
    let first: Local<Object> = adopt(&mut scope, a);
    let second: Local<Object> = adopt(&mut scope, b);
    assert_eq!(scope.outstanding(), 2);
    assert_eq!(first.as_raw().as_ptr(), a);
    let call = first.release(&mut scope).unwrap();
    assert_eq!(call, Call::DeleteLocalRef(scope.env(), ObjectPtr::new(a).unwrap()));
    m.perform(1, &call);
    assert_eq!(scope.outstanding(), 1);
    let call = second.release(&mut scope).unwrap();
    assert_eq!(call, Call::DeleteLocalRef(scope.env(), ObjectPtr::new(b).unwrap()));
    m.perform(1, &call);
    assert_eq!(scope.outstanding(), 0);
    assert_eq!(m.locals_of(scope.env().as_ptr()), 0);
    close(&mut m, 1, &mut cell, scope);
}

#[test]
fn scope_deletes_what_is_left_before_it_detaches() {
    let mut m = Machine::new();
    let mut cell = ThreadState::new();
    let guard = open(&mut m, 1, &mut cell).unwrap();
    let mut scope = Jvm::new(guard);
    let env = scope.env();
    let vm = scope.vm();
    let a = m.construct(1);
    let b = m.construct(1);
    let c = m.construct(1);
    let _first: Local<Object> = adopt(&mut scope, a);
    let second: Local<Object> = adopt(&mut scope, b);
    let _third: Local<Object> = adopt(&mut scope, c);
    let call = second.release(&mut scope).unwrap();
    m.perform(1, &call);
    assert_eq!(scope.outstanding(), 2);
    assert_eq!(m.locals_of(env.as_ptr()), 2);
    let expected = vec![
        format!("{:?}", Call::DeleteLocalRef(env, ObjectPtr::new(a).unwrap())),
        format!("{:?}", Call::DeleteLocalRef(env, ObjectPtr::new(c).unwrap())),
        format!("{:?}", Call::DetachCurrentThread(vm)),
    ];
    let made = close(&mut m, 1, &mut cell, scope);
    assert_eq!(made, expected);
    assert!(m.locals.is_empty());
    assert!(m.envs.is_empty());
    assert_eq!(cell.get(), State::Detached);
}

#[test]
fn scope_on_a_lasting_attachment_deletes_and_stays() {
    let mut m = Machine::new();
    let mut cell = ThreadState::new();
    let guard = open_permanently(&mut m, 1, &mut cell).unwrap();
    let mut scope = Jvm::new(guard);
    let env = scope.env();
    let a = m.construct(1);
    let _first: Local<Object> = adopt(&mut scope, a);
    let made = close(&mut m, 1, &mut cell, scope);
    assert_eq!(made, vec![format!("{:?}", Call::DeleteLocalRef(env, ObjectPtr::new(a).unwrap()))]);
    assert!(m.locals.is_empty());
    assert_eq!(m.envs[&1], env.as_ptr());
    assert_eq!(cell.get(), State::Attached(EnvPtr::new(env.as_ptr()).unwrap(), true));
}

#[test]
fn reference_of_another_scope_is_left_alone() {
    let mut m = Machine::new();
    let mut cell_one = ThreadState::new();
    let mut cell_two = ThreadState::new();
    let mut one = Jvm::new(open(&mut m, 1, &mut cell_one).unwrap());
    let mut two = Jvm::new(open(&mut m, 2, &mut cell_two).unwrap());
    let a = m.construct(1);
    let stray: Local<Object> = adopt(&mut one, a);
    assert_eq!(stray.release(&mut two), None);
    assert_eq!(two.outstanding(), 0);
    assert_eq!(one.outstanding(), 1);
    close(&mut m, 2, &mut cell_two, two);
    close(&mut m, 1, &mut cell_one, one);
    assert!(m.locals.is_empty());
}

#[test]
fn duplicate_reference_is_counted_too() {
    let mut m = Machine::new();
    let mut cell = ThreadState::new();
    let mut scope = Jvm::new(open(&mut m, 1, &mut cell).unwrap());
    let a = m.construct(1);
    let first: Local<Object> = adopt(&mut scope, a);
    let call = scope.new_local_ref(&first.deref());
    assert_eq!(call, Call::NewLocalRef(scope.env(), ObjectPtr::new(a).unwrap()));
    let made = m.perform(1, &call);
    let second: Local<Object> = scope.local(made.addr).unwrap();
    assert_eq!(scope.outstanding(), 2);
    assert_ne!(second.as_raw(), first.as_raw());
    assert_eq!(m.referent(second.as_raw()), m.referent(first.as_raw()));
    close(&mut m, 1, &mut cell, scope);
    assert!(m.locals.is_empty());
}

#[test]
fn no_room_for_a_reference_is_an_error() {
    let mut m = Machine::new();
    let mut cell = ThreadState::new();
    let mut scope = Jvm::new(open(&mut m, 1, &mut cell).unwrap());
    let a = m.construct(1);
    let first: Local<Object> = adopt(&mut scope, a);
    m.room = false;
    let made = m.perform(1, &scope.new_local_ref(&first.deref()));
    assert_eq!(scope.local::<Object>(made.addr), Err(Error::ResourceExhausted));
    assert_eq!(scope.outstanding(), 1);
    let made = m.perform(1, &scope.new_global_ref(&first.deref()));
    assert_eq!(scope.global::<Object>(made.addr), Err(Error::ResourceExhausted));
    assert_eq!(
        Global::<Object>::new::<()>(scope.vm(), 0),
        Err(Error::ResourceExhausted)
    );
    close(&mut m, 1, &mut cell, scope);
}

#[test]
fn durable_reference_is_released_on_another_thread() {
    let mut m = Machine::new();
    let mut cell = ThreadState::new();
    let mut scope = Jvm::new(open(&mut m, 1, &mut cell).unwrap());
    let a = m.construct(1);
    let first: Local<Object> = adopt(&mut scope, a);
    let object = m.referent(first.as_raw());
    let made = m.perform(1, &scope.new_global_ref(&first.deref()));
    let durable: Global<Object> = scope.global(made.addr).unwrap();
    close(&mut m, 1, &mut cell, scope);
    assert_eq!(m.globals_to(object), 1);
    assert!(m.envs.is_empty());
    let calls = give_up(&mut m, 2, durable);
    assert_eq!(calls, 2);
    assert_eq!(m.globals_to(object), 0);
    assert!(m.envs.is_empty());
    assert_eq!((m.attaches, m.detaches), (2, 2));
}

#[test]
fn durable_reference_is_released_on_an_attached_thread() {
    let mut m = Machine::new();
    let mut cell = ThreadState::new();
    let mut scope = Jvm::new(open(&mut m, 1, &mut cell).unwrap());
    let a = m.construct(1);
    let first: Local<Object> = adopt(&mut scope, a);
    let object = m.referent(first.as_raw());
    let made = m.perform(1, &scope.new_global_ref(&first.deref()));
    let durable: Global<Object> = scope.global(made.addr).unwrap();
    let calls = give_up(&mut m, 1, durable);
    assert_eq!(calls, 1);
    assert_eq!(m.globals_to(object), 0);
    assert_eq!(m.envs.len(), 1);
    assert_eq!(m.detaches, 0);
    close(&mut m, 1, &mut cell, scope);
}

#[test]
fn release_of_a_durable_reference_never_fails() {
    let mut m = Machine::new();
    let durable = Global::<Object>::new::<()>(m.vm(), 0x5000).unwrap();
    m.globals.insert(0x5000, 1);
    m.attach_code = -1;
    assert_eq!(give_up(&mut m, 3, durable), 0);
    assert_eq!(m.globals_to(1), 1);
    let durable = Global::<Object>::new::<()>(m.vm(), 0x5000).unwrap();
    let (releasing, call) = durable.release();
    assert_eq!(call, Call::GetEnv(m.vm(), VERSION));
    assert_eq!(releasing.probed(-3, 0), Release::Finish(Vec::new()));
}

#[test]
fn release_steps_of_a_durable_reference() {
    let vm = JvmPtr::new(0x1000).unwrap();
    let obj = ObjectPtr::new(0x5000).unwrap();
    let env = EnvPtr::new(0x2000).unwrap();
    let durable = Global::<Object>::new::<()>(vm, 0x5000).unwrap();
    let (releasing, _) = durable.release();
    assert_eq!(
        releasing.probed(JNI_OK, 0x2000),
        Release::Finish(vec![Call::DeleteGlobalRef(env, obj)])
    );
    let durable = Global::<Object>::new::<()>(vm, 0x5000).unwrap();
    let (releasing, _) = durable.release();
    let rest = match releasing.probed(JNI_EDETACHED, 0) {
        Release::Attach(call, rest) => {
            assert_eq!(call, Call::AttachCurrentThread(vm));
            rest
        }
        other => panic!("unexpected {:?}", other),
    };
    assert_eq!(
        rest.attached(JNI_OK, 0x2000),
        vec![Call::DeleteGlobalRef(env, obj), Call::DetachCurrentThread(vm)]
    );
    let durable = Global::<Object>::new::<()>(vm, 0x5000).unwrap();
    let (releasing, _) = durable.release();
    let rest = match releasing.probed(JNI_EDETACHED, 0) {
        Release::Attach(_, rest) => rest,
        other => panic!("unexpected {:?}", other),
    };
    assert_eq!(rest.attached(-1, 0x2000), Vec::new());
}

#[test]
fn pending_exception_is_reported_once() {
    let mut m = Machine::new();
    let mut cell = ThreadState::new();
    let mut scope = Jvm::new(open(&mut m, 1, &mut cell).unwrap());
    assert_eq!(check(&mut m, 1, &mut scope), Ok(()));
    let thrown = m.throw(1);
    let first = check(&mut m, 1, &mut scope);
    let reference = match first {
        Err(Error::Thrown(reference)) => reference,
        other => panic!("unexpected {:?}", other),
    };
    assert_eq!(m.referent(reference.as_raw()), thrown);
    assert_eq!(scope.outstanding(), 1);
    assert!(m.pending.is_empty());
    assert_eq!(check(&mut m, 1, &mut scope), Ok(()));
    assert_eq!(scope.outstanding(), 1);
    close(&mut m, 1, &mut cell, scope);
    assert!(m.locals.is_empty());
}

#[test]
fn check_owes_the_clearing_of_what_it_found() {
    let mut m = Machine::new();
    let mut cell = ThreadState::new();
    let mut scope = Jvm::new(open(&mut m, 1, &mut cell).unwrap());
    let env = scope.env();
    assert_eq!(scope.exception_occurred(), Call::ExceptionOccurred(env));
    let (outcome, owed) = check_exception(&mut scope, 0);
    assert_eq!(outcome, Ok(()));
    assert_eq!(owed, None);
    let addr = m.construct(1);
    let (outcome, owed) = check_exception(&mut scope, addr);
    assert!(matches!(outcome, Err(Error::Thrown(_))));
    assert_eq!(owed, Some(Call::ExceptionClear(env)));
    close(&mut m, 1, &mut cell, scope);
}

#[test]
fn upcast_keeps_the_handle() {
    let mut m = Machine::new();
    let mut cell = ThreadState::new();
    let mut scope = Jvm::new(open(&mut m, 1, &mut cell).unwrap());
    let a = m.construct(1);
    let thrown: Local<Throwable> = adopt(&mut scope, a);
    let before = thrown.deref().as_raw();
    assert_eq!(thrown.as_ref::<Object>().as_raw(), before);
    let calls = m.calls.len();
    let object: Local<Object> = thrown.upcast();
    assert_eq!(m.calls.len(), calls);
    assert_eq!(object.deref().as_raw(), before);
    assert_eq!(object.as_raw().as_ptr(), a);
    assert_eq!(scope.outstanding(), 1);
    let made = m.perform(1, &scope.new_global_ref(&object.deref()));
    let durable: Global<Throwable> = scope.global(made.addr).unwrap();
    let handle = durable.deref().as_raw();
    assert_eq!(durable.as_ref::<Object>().as_raw(), handle);
    let durable: Global<Object> = durable.upcast();
    assert_eq!(durable.deref().as_raw(), handle);
    assert_eq!(durable.as_raw().as_ptr(), made.addr);
    assert!(object.release(&mut scope).is_some());
    give_up(&mut m, 1, durable);
    m.locals.clear();
    close(&mut m, 1, &mut cell, scope);
}

#[test]
fn round_trip_keeps_the_object() {
    let mut m = Machine::new();
    let mut cell = ThreadState::new();
    let mut scope = Jvm::new(open(&mut m, 1, &mut cell).unwrap());
    let a = m.construct(1);
    let origin: Local<Object> = adopt(&mut scope, a);
    let object = m.referent(origin.as_raw());
    let up = m.perform(1, &scope.new_global_ref(&origin.deref()));
    let durable: Global<Object> = scope.global(up.addr).unwrap();
    let down = m.perform(1, &scope.new_local_ref(&durable.deref()));
    let back: Local<Object> = scope.local(down.addr).unwrap();
    assert_eq!(m.referent(back.deref().as_raw()), object);
    assert_eq!(m.referent(origin.deref().as_raw()), object);
    assert_eq!(m.referent(durable.deref().as_raw()), object);
    assert_eq!(scope.outstanding(), 2);
    give_up(&mut m, 1, durable);
    close(&mut m, 1, &mut cell, scope);
    assert!(m.locals.is_empty());
    assert!(m.globals.is_empty());
}

#[test]
fn permanent_thread_hands_a_durable_reference_to_another_thread() {
    let mut m = Machine::new();
    let mut cell = ThreadState::new();
    let guard = open_permanently(&mut m, 1, &mut cell).unwrap();
    let mut scope = Jvm::new(guard);
    let created = m.construct(1);
    let s1: Local<Object> = adopt(&mut scope, created);
    let object = m.referent(s1.as_raw());
    let made = m.perform(1, &scope.new_global_ref(&s1.deref()));
    let d: Global<Object> = scope.global(made.addr).unwrap();
    assert_eq!(m.globals_to(object), 1);
    let env = scope.env().as_ptr();
    let made = close(&mut m, 1, &mut cell, scope);
    assert_eq!(made.len(), 1);
    assert_eq!(m.detaches, 0);
    assert_eq!(m.envs[&1], env);
    assert_eq!(cell.get(), State::Attached(EnvPtr::new(env).unwrap(), true));
    let calls = give_up(&mut m, 2, d);
    assert_eq!(calls, 2);
    assert_eq!(m.globals_to(object), 0);
    assert!(!m.envs.contains_key(&2));
    assert_eq!(m.envs[&1], env);
}

#[test]
fn class_is_found() {
    let mut m = Machine::new();
    m.classes.insert("java/lang/String".to_string(), 77);
    let mut cell = ThreadState::new();
    let mut scope = Jvm::new(open(&mut m, 1, &mut cell).unwrap());
    let call = scope.find_class("java/lang/String");
    assert_eq!(call, Call::FindClass(scope.env(), "java/lang/String".to_string()));
    let answer = m.perform(1, &call);
    let class = match find_class(&mut scope, answer.addr) {
        Step::Done(class) => class,
        other => panic!("unexpected {:?}", other),
    };
    assert_eq!(m.referent(class.as_raw()), 77);
    assert_eq!(scope.outstanding(), 1);
    close(&mut m, 1, &mut cell, scope);
}

#[test]
fn class_that_is_missing_throws() {
    let mut m = Machine::new();
    let mut cell = ThreadState::new();
    let mut scope = Jvm::new(open(&mut m, 1, &mut cell).unwrap());
    let answer = m.perform(1, &scope.find_class("no/such/Class"));
    let call = match find_class(&mut scope, answer.addr) {
        Step::Call(call) => call,
        other => panic!("unexpected {:?}", other),
    };
    assert_eq!(call, Call::ExceptionOccurred(scope.env()));
    let thrown = m.perform(1, &call);
    let (error, owed) = class_not_found(&mut scope, "no/such/Class", thrown.addr);
    assert!(matches!(error, Error::Thrown(_)));
    assert_eq!(owed, Some(Call::ExceptionClear(scope.env())));
    m.perform(1, &owed.unwrap());
    assert!(m.pending.is_empty());
    close(&mut m, 1, &mut cell, scope);
}

#[test]
fn class_that_is_missing_without_a_reason() {
    let mut m = Machine::new();
    m.throws = false;
    let mut cell = ThreadState::new();
    let mut scope = Jvm::new(open(&mut m, 1, &mut cell).unwrap());
    let answer = m.perform(1, &scope.find_class("no/such/Class"));
    let call = match find_class(&mut scope, answer.addr) {
        Step::Call(call) => call,
        other => panic!("unexpected {:?}", other),
    };
    let thrown = m.perform(1, &call);
    let (error, owed) = class_not_found(&mut scope, "no/such/Class", thrown.addr);
    assert_eq!(error, Error::JvmInternal("failed to find class `no/such/Class`".to_string()));
    assert_eq!(owed, None);
    close(&mut m, 1, &mut cell, scope);
}

#[test]
fn method_and_constructor_are_found() {
    let mut m = Machine::new();
    m.classes.insert("java/lang/String".to_string(), 77);
    m.methods.insert((77, "length".to_string(), "()I".to_string()), 0x7000);
    m.methods.insert((77, "<init>".to_string(), "([B)V".to_string()), 0x7010);
    let mut cell = ThreadState::new();
    let mut scope = Jvm::new(open(&mut m, 1, &mut cell).unwrap());
    let answer = m.perform(1, &scope.find_class("java/lang/String"));
    let class: Local<Class> = adopt(&mut scope, answer.addr);
    let call = scope.get_method_id(&class.deref(), "length", "()I");
    assert_eq!(
        call,
        Call::GetMethodID(scope.env(), class.as_raw(), "length".to_string(), "()I".to_string())
    );
    let answer = m.perform(1, &call);
    assert_eq!(find_method(&scope, answer.addr), Step::Done(MethodPtr::new(0x7000).unwrap()));
    let call = scope.get_constructor_id(&class.deref(), "([B)V");
    assert_eq!(
        call,
        Call::GetMethodID(scope.env(), class.as_raw(), "<init>".to_string(), "([B)V".to_string())
    );
    let answer = m.perform(1, &call);
    assert_eq!(
        find_constructor(&scope, answer.addr),
        Step::Done(MethodPtr::new(0x7010).unwrap())
    );
    close(&mut m, 1, &mut cell, scope);
}

#[test]
fn method_that_is_missing() {
    let mut m = Machine::new();
    m.classes.insert("java/lang/String".to_string(), 77);
    let mut cell = ThreadState::new();
    let mut scope = Jvm::new(open(&mut m, 1, &mut cell).unwrap());
    let answer = m.perform(1, &scope.find_class("java/lang/String"));
    let class: Local<Class> = adopt(&mut scope, answer.addr);
    let answer = m.perform(1, &scope.get_method_id(&class.deref(), "size", "()I"));
    assert_eq!(find_method(&scope, answer.addr), Step::Call(Call::ExceptionOccurred(scope.env())));
    let thrown = m.perform(1, &scope.exception_occurred());
    let (error, owed) = method_not_found(&mut scope, "size", "()I", thrown.addr);
    assert!(matches!(error, Error::Thrown(_)));
    m.perform(1, &owed.unwrap());
    m.throws = false;
    let answer = m.perform(1, &scope.get_method_id(&class.deref(), "size", "()I"));
    assert_eq!(find_method(&scope, answer.addr), Step::Call(Call::ExceptionOccurred(scope.env())));
    let thrown = m.perform(1, &scope.exception_occurred());
    let (error, owed) = method_not_found(&mut scope, "size", "()I", thrown.addr);
    assert_eq!(
        error,
        Error::JvmInternal("failed to find method `size` with signature `()I`".to_string())
    );
    assert_eq!(owed, None);
    let answer = m.perform(1, &scope.get_constructor_id(&class.deref(), "(J)V"));
    assert_eq!(
        find_constructor(&scope, answer.addr),
        Step::Call(Call::ExceptionOccurred(scope.env()))
    );
    let thrown = m.perform(1, &scope.exception_occurred());
    let (error, owed) = constructor_not_found(&mut scope, "(J)V", thrown.addr);
    assert_eq!(
        error,
        Error::JvmInternal("failed to find method `<init>` with signature `(J)V`".to_string())
    );
    assert_eq!(owed, None);
    close(&mut m, 1, &mut cell, scope);
}

#[test]
fn string_that_cannot_be_made() {
    let mut m = Machine::new();
    let mut cell = ThreadState::new();
    let mut scope = Jvm::new(open(&mut m, 1, &mut cell).unwrap());
    m.room = false;
    let outcome = to_java(&mut m, 1, &mut scope, "abc");
    assert!(matches!(outcome, Err(Error::Thrown(_))));
    assert!(m.pending.is_empty());
    m.throws = false;
    let outcome = to_java(&mut m, 1, &mut scope, "abc");
    assert_eq!(outcome, Err(Error::JvmInternal("JVM failed to create new String".to_string())));
    close(&mut m, 1, &mut cell, scope);
}

#[test]
fn exception_while_reading_a_string_comes_first() {
    let mut m = Machine::new();
    let mut cell = ThreadState::new();
    let mut scope = Jvm::new(open(&mut m, 1, &mut cell).unwrap());
    let addr = m.construct(1);
    let (outcome, owed) = into_rust(&mut scope, vec![b'a'], addr);
    assert!(matches!(outcome, Err(Error::Thrown(_))));
    assert_eq!(owed, Some(Call::ExceptionClear(scope.env())));
    let (outcome, owed) = into_rust(&mut scope, vec![b'a'], 0);
    assert_eq!(outcome, Ok("a".to_string()));
    assert_eq!(owed, None);
    let (outcome, owed) = into_rust(&mut scope, vec![0xFF], 0);
    assert_eq!(
        outcome,
        Err(Error::JvmInternal(
            "Java String contained invalid modified UTF-8: could not convert CESU-8 data to UTF-8"
                .to_string()
        ))
    );
    assert_eq!(owed, None);
    close(&mut m, 1, &mut cell, scope);
}

#[test]
fn promotion_moves_an_exception_to_a_durable_reference() {
    let mut m = Machine::new();
    let mut cell = ThreadState::new();
    let mut scope = Jvm::new(open(&mut m, 1, &mut cell).unwrap());
    let thrown = m.throw(1);
    let outcome = check(&mut m, 1, &mut scope);
    assert_eq!(scope.outstanding(), 1);
    let promoted = promote(&mut m, 1, &mut scope, outcome);
    let durable = match promoted {
        Err(Error::Thrown(durable)) => durable,
        other => panic!("unexpected {:?}", other),
    };
    assert_eq!(scope.outstanding(), 0);
    assert_eq!(m.locals_of(scope.env().as_ptr()), 0);
    assert_eq!(m.globals_to(thrown), 1);
    assert_eq!(m.referent(durable.as_raw()), thrown);
    close(&mut m, 1, &mut cell, scope);
    give_up(&mut m, 1, durable);
    assert_eq!(m.globals_to(thrown), 0);
}

#[test]
fn promotion_without_room_is_resource_exhaustion() {
    let mut m = Machine::new();
    let mut cell = ThreadState::new();
    let mut scope = Jvm::new(open(&mut m, 1, &mut cell).unwrap());
    m.throw(1);
    let outcome = check(&mut m, 1, &mut scope);
    m.room = false;
    let promoted = promote(&mut m, 1, &mut scope, outcome);
    assert_eq!(promoted, Err(Error::ResourceExhausted));
    assert_eq!(scope.outstanding(), 0);
    assert!(m.locals.is_empty());
    close(&mut m, 1, &mut cell, scope);
}

#[test]
fn promotion_keeps_every_other_error() {
    let mut m = Machine::new();
    let mut cell = ThreadState::new();
    let mut scope = Jvm::new(open(&mut m, 1, &mut cell).unwrap());
    let calls = m.calls.len();
    let cases: Vec<(LocalResult<'_, ()>, GlobalResult<()>)> = vec![
        (Ok(()), Ok(())),
        (Err(Error::SliceTooLong(3)), Err(Error::SliceTooLong(3))),
        (Err(Error::NullDeref), Err(Error::NullDeref)),
        (Err(Error::NestedUsage), Err(Error::NestedUsage)),
        (Err(Error::ResourceExhausted), Err(Error::ResourceExhausted)),
        (Err(Error::JvmInternal("x".to_string())), Err(Error::JvmInternal("x".to_string()))),
    ];
    for (local, global) in cases {
        assert_eq!(promote(&mut m, 1, &mut scope, local), global);
    }
    assert_eq!(m.calls.len(), calls);
    close(&mut m, 1, &mut cell, scope);
}

#[test]
fn catch_exception_thrown_by_constructor() {
    // A constructor that is handed null where it needs an array throws.
    let mut m = Machine::new();
    let mut cell = ThreadState::new();
    let mut scope = Jvm::new(open(&mut m, 1, &mut cell).unwrap());
    let argument = None::<&Borrowed<'_, Object>>.into_jni_value();
    assert_eq!(argument, JValue::Object(0));
    m.throw(1);
    let made: Option<Local<JavaString>> = FromJniValue::from_jni_value(&mut scope, 0usize);
    assert!(made.is_none());
    let checked = check(&mut m, 1, &mut scope);
    let result = promote(&mut m, 1, &mut scope, checked);
    close(&mut m, 1, &mut cell, scope);
    assert!(matches!(result, Err(duchess::error::Error::Thrown(_))));
}

#[test]
fn catch_exception_thrown_by_method() {
    let mut m = Machine::new();
    let mut cell = ThreadState::new();
    let mut scope = Jvm::new(open(&mut m, 1, &mut cell).unwrap());
    let java_string = to_java(&mut m, 1, &mut scope, "abc").unwrap();
    let made = m.perform(1, &scope.new_global_ref(&java_string.deref()));
    let java_string: Global<JavaString> = scope.global(made.addr).unwrap();
    // invalid indexes
    let (from, to) = (1i32.into_jni_value(), (-1i32).into_jni_value());
    assert_eq!((from, to), (JValue::Int(1), JValue::Int(-1)));
    m.throw(1);
    let checked = check(&mut m, 1, &mut scope);
    let result = promote(&mut m, 1, &mut scope, checked);
    close(&mut m, 1, &mut cell, scope);
    assert!(matches!(result, Err(duchess::error::Error::Thrown(_))));
    give_up(&mut m, 1, java_string);
}

#[test]
fn can_pass_none_as_null_object_params() {
    let null_ref = None::<&Borrowed<'_, Object>>;
    assert!(null_ref.into_jni_value() == JValue::Object(0));

    let null_global = None::<Global<Object>>;
    let seen = null_global.as_ref().map(|g| g.deref());
    assert!(seen.as_ref().into_jni_value() == JValue::Object(0));

    let null_global_ref = None::<&Global<Object>>;
    let seen = null_global_ref.map(|g| g.deref());
    assert!(seen.as_ref().into_jni_value() == JValue::Object(0));

    let null_local = None::<&Local<'_, Object>>;
    let seen = null_local.map(|l| l.deref());
    assert!(seen.as_ref().into_jni_value() == JValue::Object(0));

    let null_local_ref = None::<&Local<'_, Object>>;
    let seen = null_local_ref.map(|l| l.deref());
    assert!(seen.as_ref().into_jni_value() == JValue::Object(0));
}

#[test]
fn can_pass_some_as_non_null_object_params() {
    let mut m = Machine::new();
    let mut cell = ThreadState::new();
    let mut scope = Jvm::new(open(&mut m, 1, &mut cell).unwrap());
    let created = m.construct(1);
    let first: Local<Object> = adopt(&mut scope, created);
    let made = m.perform(1, &scope.new_global_ref(&first.deref()));
    let obj: Global<Object> = scope.global(made.addr).unwrap();
    let expected = JValue::Object(obj.as_raw().as_ptr());

    let view = obj.deref();
    let non_null_ref: Option<&Borrowed<'_, Object>> = Some(&view);
    assert!(non_null_ref.into_jni_value() == expected);

    let copy = m.perform(1, &scope.new_global_ref(&obj.deref()));
    let non_null_global = &Some(scope.global::<Object>(copy.addr).unwrap());
    let seen = non_null_global.as_ref().map(|g| g.deref());
    assert!(m.referent(seen.as_ref().unwrap().as_raw()) == m.referent(obj.as_raw()));
    assert!(seen.as_ref().into_jni_value() != JValue::Object(0));

    let non_null_global_ref = Some(&obj);
    let seen = non_null_global_ref.map(|g| g.deref());
    assert!(seen.as_ref().into_jni_value() == expected);

    let local = m.perform(1, &scope.new_local_ref(&obj.deref()));
    let non_null_local = Some(scope.local::<Object>(local.addr).unwrap());
    let seen = non_null_local.as_ref().map(|l| l.deref());
    assert!(seen.as_ref().into_jni_value() == JValue::Object(local.addr));

    let local = m.perform(1, &scope.new_local_ref(&obj.deref()));
    let local = scope.local::<Object>(local.addr).unwrap();
    let non_null_local_ref = Some(&local);
    let seen = non_null_local_ref.map(|l| l.deref());
    assert!(m.referent(seen.as_ref().unwrap().as_raw()) == m.referent(obj.as_raw()));

    close(&mut m, 1, &mut cell, scope);
    give_up(&mut m, 1, obj);
    if let Some(copy) = non_null_global {
        assert_eq!(m.globals_to(m.referent(copy.as_raw())), 1);
    }
}

#[test]
fn null_method_returns_to_rust_as_none() {
    let mut m = Machine::new();
    let mut cell = ThreadState::new();
    let mut scope = Jvm::new(open(&mut m, 1, &mut cell).unwrap());
    let null_message: Option<Local<JavaString>> = FromJniValue::from_jni_value(&mut scope, 0usize);
    assert!(null_message.is_none());
    assert_eq!(scope.outstanding(), 0);
    close(&mut m, 1, &mut cell, scope);
}

#[test]
fn to_java_and_back() {
    let mut m = Machine::new();
    let mut cell = ThreadState::new();
    let mut scope = Jvm::new(open(&mut m, 1, &mut cell).unwrap());
    for example in ["", "abc\tdef", "hello from 🦀!"] {
        let java = to_java(&mut m, 1, &mut scope, example).unwrap();
        let made = m.perform(1, &scope.new_global_ref(&java.deref()));
        let java: Global<JavaString> = scope.global(made.addr).unwrap();
        let and_back = to_rust(&mut m, 1, &mut scope, &java.deref()).unwrap();
        assert_eq!(example, and_back);
        give_up(&mut m, 1, java);
    }
    close(&mut m, 1, &mut cell, scope);
    assert!(m.locals.is_empty());
    assert!(m.globals.is_empty());
}

#[test]
fn object_returned_is_counted_by_the_scope() {
    let mut m = Machine::new();
    let mut cell = ThreadState::new();
    let mut scope = Jvm::new(open(&mut m, 1, &mut cell).unwrap());
    let addr = m.construct(1);
    let got: Option<Local<Object>> = FromJniValue::from_jni_value(&mut scope, addr);
    assert_eq!(got.unwrap().as_raw().as_ptr(), addr);
    assert_eq!(scope.outstanding(), 1);
    close(&mut m, 1, &mut cell, scope);
    assert!(m.locals.is_empty());
}

#[test]
fn upcast_relation_of_the_library_tags() {
    fn is_a<T: Upcast<S>, S: JavaObject>() {}
    is_a::<Throwable, Object>();
    is_a::<Class, Object>();
    is_a::<JavaString, Object>();
    is_a::<Object, Object>();
}
