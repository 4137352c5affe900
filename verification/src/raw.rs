//! Non-null handles into the virtual machine, the calls that the host is
//! asked to make through its function tables, and the meaning of the status
//! codes that come back.

use crate::error::{internal, is_internal, GlobalResult};
use crate::jvm::{JavaObject, Jvm};
use crate::ref_::{Borrowed, Local};
use crate::text::{frame, framed};
use std::marker::PhantomData;
use std::rc::Rc;
use vstd::prelude::*;
use vstd::string::*;

verus! {

/// Status code of success.
pub const JNI_OK: i32 = 0;

/// Status code by which `GetEnv` says that the calling thread is not
/// attached.
pub const JNI_EDETACHED: i32 = -2;

/// The interface version that this library asks the virtual machine for.
pub const VERSION: i32 = 0x0001_0008;

/// The status code of success.
///
/// Trusted: reads the constant `jni_sys::JNI_OK`, which is `0`.
#[verifier::external_body]
pub(crate) fn jni_ok() -> (code: i32)
    ensures
        code == JNI_OK,
{
    jni_sys::JNI_OK
}

/// The status code of a thread that is not attached.
///
/// Trusted: reads the constant `jni_sys::JNI_EDETACHED`, which is `-2`.
#[verifier::external_body]
pub(crate) fn jni_edetached() -> (code: i32)
    ensures
        code == JNI_EDETACHED,
{
    jni_sys::JNI_EDETACHED
}

/// The interface version 1.8.
///
/// Trusted: reads the constant `jni_sys::JNI_VERSION_1_8`, which is
/// `0x00010008`.
#[verifier::external_body]
pub(crate) fn jni_version() -> (version: i32)
    ensures
        version == VERSION,
{
    jni_sys::JNI_VERSION_1_8
}

/// The virtual machine's `true`.
///
/// Trusted: reads the constant `jni_sys::JNI_TRUE`, which is `1`.
#[verifier::external_body]
pub(crate) fn jni_true() -> (value: u8)
    ensures
        value == 1,
{
    jni_sys::JNI_TRUE
}

/// The virtual machine's `false`.
///
/// Trusted: reads the constant `jni_sys::JNI_FALSE`, which is `0`.
#[verifier::external_body]
pub(crate) fn jni_false() -> (value: u8)
    ensures
        value == 0,
{
    jni_sys::JNI_FALSE
}

/// Handle of the virtual machine itself: one per process, shared by every
/// thread.
#[derive(Clone, Copy, Debug, PartialEq, Eq)]
pub struct JvmPtr {
    addr: usize,
}

/// Handle of one attached thread's environment. It is of no use on another
/// thread, and cannot be sent to one; the lifetime keeps it within the
/// attachment that gave it.
#[derive(Clone, Copy, Debug, PartialEq, Eq)]
pub struct EnvPtr<'jvm> {
    addr: usize,
    _marker: PhantomData<(&'jvm (), Rc<()>)>,
}

/// Handle of an object of the virtual machine. It means nothing once the
/// reference that owns it has been released.
#[derive(Clone, Copy, Debug, PartialEq, Eq)]
pub struct ObjectPtr {
    addr: usize,
}

/// Handle of a resolved method or constructor. It owns nothing and stays
/// good for as long as its class does.
#[derive(Clone, Copy, Debug, PartialEq, Eq)]
pub struct MethodPtr {
    addr: usize,
}

impl JvmPtr {
    #[verifier::type_invariant]
    spec fn nonnull(self) -> bool {
        self.addr != 0
    }

    /// The address that the handle holds.
    pub closed spec fn addr(self) -> usize {
        self.addr
    }

    /// Two handles of one address are one handle.
    pub proof fn same_addr(self, other: Self)
        requires
            self.addr() == other.addr(),
        ensures
            self == other,
    {
    }

    /// The handle at `ptr`, or nothing where `ptr` is null.
    pub fn new(ptr: usize) -> (r: Option<Self>)
        ensures
            ptr == 0 <==> r is None,
            r matches Some(p) ==> p.addr() == ptr,
    {
        if ptr == 0 {
            None
        } else {
            Some(JvmPtr { addr: ptr })
        }
    }

    /// The address, which is never null.
    pub fn as_ptr(self) -> (ptr: usize)
        ensures
            ptr == self.addr(),
            ptr != 0,
    {
        proof {
            use_type_invariant(&self);
        }
        self.addr
    }
}

impl JvmPtr {
    /// What `GetEnv` found for the calling thread: `code` is its status and
    /// `env` the address that it wrote. A thread that is not attached has no
    /// environment, which is no error.
    pub fn env<'jvm>(self, code: i32, env: usize) -> (r: GlobalResult<Option<EnvPtr<'jvm>>>)
        ensures
            code == JNI_OK && env != 0 ==> (r matches Ok(Some(e)) && e.addr() == env),
            code == JNI_OK && env == 0 ==> r is Err && is_internal(
                r->Err_0,
                "GetEnv returned null pointer"@,
            ),
            code == JNI_EDETACHED ==> r matches Ok(None),
            code != JNI_OK && code != JNI_EDETACHED ==> r is Err && is_internal(
                r->Err_0,
                failed_with("GetEnv"@, code as int),
            ),
    {
        if code == jni_ok() {
            match EnvPtr::new(env) {
                Some(ptr) => Ok(Some(ptr)),
                None => Err(internal(String::from_str("GetEnv returned null pointer"))),
            }
        } else if code == jni_edetached() {
            Ok(None)
        } else {
            Err(internal(failure("GetEnv", code)))
        }
    }

    /// What `AttachCurrentThread` did: `code` is its status and `env` the
    /// address that it wrote.
    pub fn attach_thread<'jvm>(self, code: i32, env: usize) -> (r: GlobalResult<EnvPtr<'jvm>>)
        ensures
            code == JNI_OK && env != 0 ==> (r matches Ok(e) && e.addr() == env),
            code == JNI_OK && env == 0 ==> r is Err && is_internal(
                r->Err_0,
                "AttachCurrentThread returned null pointer"@,
            ),
            code != JNI_OK ==> r is Err && is_internal(
                r->Err_0,
                failed_with("AttachCurrentThread"@, code as int),
            ),
    {
        if code == jni_ok() {
            match EnvPtr::new(env) {
                Some(ptr) => Ok(ptr),
                None => Err(
                    internal(String::from_str("AttachCurrentThread returned null pointer")),
                ),
            }
        } else {
            Err(internal(failure("AttachCurrentThread", code)))
        }
    }

    /// What `DetachCurrentThread` did: `code` is its status.
    pub fn detach_thread(self, code: i32) -> (r: GlobalResult<()>)
        ensures
            code == JNI_OK ==> r is Ok,
            code != JNI_OK ==> r is Err && is_internal(
                r->Err_0,
                failed_with("DetachCurrentThread"@, code as int),
            ),
    {
        if code == jni_ok() {
            Ok(())
        } else {
            Err(internal(failure("DetachCurrentThread", code)))
        }
    }
}

impl<'jvm> EnvPtr<'jvm> {
    #[verifier::type_invariant]
    spec fn nonnull(self) -> bool {
        self.addr != 0
    }

    /// The address that the handle holds.
    pub closed spec fn addr(self) -> usize {
        self.addr
    }

    /// Two handles of one address are one handle.
    pub proof fn same_addr(self, other: Self)
        requires
            self.addr() == other.addr(),
        ensures
            self == other,
    {
    }

    /// The handle at `ptr`, or nothing where `ptr` is null.
    pub fn new(ptr: usize) -> (r: Option<Self>)
        ensures
            ptr == 0 <==> r is None,
            r matches Some(p) ==> p.addr() == ptr,
    {
        if ptr == 0 {
            None
        } else {
            Some(EnvPtr { addr: ptr, _marker: PhantomData })
        }
    }

    /// The address, which is never null.
    pub fn as_ptr(self) -> (ptr: usize)
        ensures
            ptr == self.addr(),
            ptr != 0,
    {
        proof {
            use_type_invariant(&self);
        }
        self.addr
    }

    /// Hands the environment's address, known not to be null, to `call` and
    /// returns what `call` returns. The host's raw calls enter here.
    pub fn invoke<T, F: FnOnce(usize) -> T>(self, call: F) -> (r: T)
        requires
            call.requires((self.addr(),)),
        ensures
            call.ensures((self.addr(),), r),
    {
        call(self.addr)
    }
}

impl ObjectPtr {
    #[verifier::type_invariant]
    spec fn nonnull(self) -> bool {
        self.addr != 0
    }

    /// The address that the handle holds.
    pub closed spec fn addr(self) -> usize {
        self.addr
    }

    /// Two handles of one address are one handle.
    pub proof fn same_addr(self, other: Self)
        requires
            self.addr() == other.addr(),
        ensures
            self == other,
    {
    }

    /// The handle at `ptr`, or nothing where `ptr` is null.
    pub fn new(ptr: usize) -> (r: Option<Self>)
        ensures
            ptr == 0 <==> r is None,
            r matches Some(p) ==> p.addr() == ptr,
    {
        if ptr == 0 {
            None
        } else {
            Some(ObjectPtr { addr: ptr })
        }
    }

    /// The address, which is never null.
    pub fn as_ptr(self) -> (ptr: usize)
        ensures
            ptr == self.addr(),
            ptr != 0,
    {
        proof {
            use_type_invariant(&self);
        }
        self.addr
    }
}

impl MethodPtr {
    #[verifier::type_invariant]
    spec fn nonnull(self) -> bool {
        self.addr != 0
    }

    /// The address that the handle holds.
    pub closed spec fn addr(self) -> usize {
        self.addr
    }

    /// Two handles of one address are one handle.
    pub proof fn same_addr(self, other: Self)
        requires
            self.addr() == other.addr(),
        ensures
            self == other,
    {
    }

    /// The handle at `ptr`, or nothing where `ptr` is null.
    pub fn new(ptr: usize) -> (r: Option<Self>)
        ensures
            ptr == 0 <==> r is None,
            r matches Some(p) ==> p.addr() == ptr,
    {
        if ptr == 0 {
            None
        } else {
            Some(MethodPtr { addr: ptr })
        }
    }

    /// The address, which is never null.
    pub fn as_ptr(self) -> (ptr: usize)
        ensures
            ptr == self.addr(),
            ptr != 0,
    {
        proof {
            use_type_invariant(&self);
        }
        self.addr
    }
}

/// The arguments with which a virtual machine is created.
#[derive(Debug, PartialEq, Eq)]
pub struct InitArgs {
    /// The interface version asked for.
    pub version: i32,
    /// The number of options.
    pub n_options: i32,
    /// One option string per entry, in the order given.
    pub options: Vec<String>,
    /// Whether the virtual machine is to pass over options that it does not
    /// know, as one of its own booleans.
    pub ignore_unrecognized: u8,
}

/// One call through a function table of the virtual machine: the handle whose
/// table holds the entry, the entry, and its arguments. The library never
/// makes such a call; it hands the request to the host, which makes it and
/// comes back with what the virtual machine returned.
#[derive(Debug, PartialEq, Eq)]
pub enum Call<'jvm> {
    /// `JNI_GetCreatedJavaVMs`, with room for one handle.
    GetCreatedJavaVMs,
    /// `JNI_CreateJavaVM`.
    CreateJavaVM(InitArgs),
    /// `GetEnv`, with the interface version asked for.
    GetEnv(JvmPtr, i32),
    /// `AttachCurrentThread`, without arguments of its own.
    AttachCurrentThread(JvmPtr),
    /// `DetachCurrentThread`.
    DetachCurrentThread(JvmPtr),
    /// `ExceptionOccurred`.
    ExceptionOccurred(EnvPtr<'jvm>),
    /// `ExceptionClear`.
    ExceptionClear(EnvPtr<'jvm>),
    /// `NewLocalRef` of the object.
    NewLocalRef(EnvPtr<'jvm>, ObjectPtr),
    /// `DeleteLocalRef` of the reference.
    DeleteLocalRef(EnvPtr<'jvm>, ObjectPtr),
    /// `NewGlobalRef` of the object.
    NewGlobalRef(EnvPtr<'jvm>, ObjectPtr),
    /// `DeleteGlobalRef` of the reference.
    DeleteGlobalRef(EnvPtr<'jvm>, ObjectPtr),
    /// `FindClass`, with the class's name.
    FindClass(EnvPtr<'jvm>, String),
    /// `GetMethodID` on a class, with the method's name and its descriptor.
    GetMethodID(EnvPtr<'jvm>, ObjectPtr, String, String),
    /// `NewStringUTF`, with the text in modified UTF-8.
    NewStringUTF(EnvPtr<'jvm>, Vec<u8>),
    /// `GetStringUTFLength` of a string.
    GetStringUTFLength(EnvPtr<'jvm>, ObjectPtr),
    /// `GetStringLength` of a string.
    GetStringLength(EnvPtr<'jvm>, ObjectPtr),
    /// `GetStringUTFRegion` of a string: the first unit, the number of units,
    /// and the number of bytes that the host's buffer must hold.
    GetStringUTFRegion(EnvPtr<'jvm>, ObjectPtr, i32, i32, usize),
}

/// Where an operation stands that may need the virtual machine.
#[derive(Debug, PartialEq, Eq)]
pub enum Step<'jvm, T> {
    /// It is over, with this outcome.
    Done(T),
    /// The host makes this call and resumes the operation with what came
    /// back.
    Call(Call<'jvm>),
}

/// The message of a call that came back with a status code other than
/// success.
pub open spec fn failed_with(entry: Seq<char>, code: int) -> Seq<char> {
    framed(entry + " failed with code `"@, code, "`"@)
}

/// What `JNI_GetCreatedJavaVMs` found: `code` is its status, `num_jvms` the
/// number of virtual machines that it reported, and `first` the address that
/// it wrote for the first of them.
pub fn jvm(code: i32, num_jvms: i32, first: usize) -> (r: GlobalResult<Option<JvmPtr>>)
    ensures
        code != JNI_OK ==> r is Err && is_internal(
            r->Err_0,
            failed_with("GetCreatedJavaVMs"@, code as int),
        ),
        code == JNI_OK && num_jvms == 0 ==> r == GlobalResult::<Option<JvmPtr>>::Ok(None),
        code == JNI_OK && num_jvms == 1 && first != 0 ==> r is Ok && r->Ok_0 is Some
            && r->Ok_0->Some_0.addr() == first,
        code == JNI_OK && num_jvms == 1 && first == 0 ==> r is Err && is_internal(
            r->Err_0,
            "GetCreatedJavaVMs returned null pointer"@,
        ),
        code == JNI_OK && num_jvms != 0 && num_jvms != 1 ==> r is Err && is_internal(
            r->Err_0,
            framed(
                "GetCreatedJavaVMs returned more JVMs than expected: `"@,
                num_jvms as int,
                "`"@,
            ),
        ),
{
    if code != jni_ok() {
        return Err(internal(failure("GetCreatedJavaVMs", code)));
    }
    if num_jvms == 0 {
        Ok(None)
    } else if num_jvms == 1 {
        match JvmPtr::new(first) {
            Some(ptr) => Ok(Some(ptr)),
            None => Err(internal(String::from_str("GetCreatedJavaVMs returned null pointer"))),
        }
    } else {
        Err(
            internal(
                frame("GetCreatedJavaVMs returned more JVMs than expected: `", num_jvms as i64, "`"),
            ),
        )
    }
}

/// The message of `entry` having failed with `code`.
pub(crate) fn failure(entry: &str, code: i32) -> (message: String)
    ensures
        message@ == failed_with(entry@, code as int),
{
    let mut head = String::from_str(entry);
    head.append(" failed with code `");
    frame(head.as_str(), code as i64, "`")
}

/// The call that creates a virtual machine with `options`:
/// `JNI_CreateJavaVM`, asking for the library's interface version and for
/// every option to be known. An option is handed over as a C string, so none
/// holds the character U+0000, and their number fits the virtual machine's
/// `int`. `create_jvm` takes what the call returns.
pub fn create_java_vm(options: Vec<String>) -> (call: Call<'static>)
    requires
        options@.len() <= i32::MAX,
        forall|i: int, j: int|
            0 <= i < options@.len() && 0 <= j < options@[i]@.len() ==> options@[i]@[j] != '\0',
    ensures
        call matches Call::CreateJavaVM(args) && args.version == VERSION && args.n_options
            == options@.len() && args.options == options && args.ignore_unrecognized == 0,
{
    let n_options = options.len() as i32;
    Call::CreateJavaVM(
        InitArgs {
            version: jni_version(),
            n_options,
            options,
            ignore_unrecognized: jni_false(),
        },
    )
}

/// What `JNI_CreateJavaVM` did: `code` is its status and `jvm` the address
/// that it wrote for the new virtual machine.
pub fn create_jvm(code: i32, jvm: usize) -> (r: GlobalResult<JvmPtr>)
    ensures
        code == JNI_OK && jvm != 0 ==> (r matches Ok(p) && p.addr() == jvm),
        code == JNI_OK && jvm == 0 ==> r is Err && is_internal(
            r->Err_0,
            "CreateJavaVM returned null JVM pointer"@,
        ),
        code != JNI_OK ==> r is Err && is_internal(
            r->Err_0,
            failed_with("CreateJavaVM"@, code as int),
        ),
{
    if code == jni_ok() {
        match JvmPtr::new(jvm) {
            Some(ptr) => Ok(ptr),
            None => Err(internal(String::from_str("CreateJavaVM returned null JVM pointer"))),
        }
    } else {
        Err(internal(failure("CreateJavaVM", code)))
    }
}

/// One argument or result of a method of the virtual machine: a scalar of
/// one of its integer types, or the address of an object, null for none.
#[derive(Clone, Copy, Debug, PartialEq, Eq, Structural)]
pub enum JValue {
    /// A `boolean`, as the virtual machine writes it.
    Boolean(u8),
    /// A `byte`.
    Byte(i8),
    /// A `char`.
    Char(u16),
    /// A `short`.
    Short(i16),
    /// An `int`.
    Int(i32),
    /// A `long`.
    Long(i64),
    /// An object, by its address.
    Object(usize),
}

/// What can be handed to a method of the virtual machine.
pub trait IntoJniValue {
    /// The value as the virtual machine takes it.
    fn into_jni_value(self) -> JValue;
}

impl<'a, 'b, T: JavaObject> IntoJniValue for &'b Borrowed<'a, T> {
    fn into_jni_value(self) -> (v: JValue)
        ensures
            v == JValue::Object(self.obj().addr()),
    {
        JValue::Object(self.as_raw().as_ptr())
    }
}

impl<'a, 'b, T: JavaObject> IntoJniValue for Option<&'b Borrowed<'a, T>> {
    fn into_jni_value(self) -> (v: JValue)
        ensures
            self matches Some(r) ==> v == JValue::Object(r.obj().addr()),
            self is None ==> v == JValue::Object(0),
    {
        match self {
            Some(r) => r.into_jni_value(),
            None => JValue::Object(0),
        }
    }
}

impl IntoJniValue for bool {
    fn into_jni_value(self) -> (v: JValue)
        ensures
            v == JValue::Boolean(if self { 1u8 } else { 0u8 }),
    {
        if self {
            JValue::Boolean(jni_true())
        } else {
            JValue::Boolean(jni_false())
        }
    }
}

impl IntoJniValue for i8 {
    fn into_jni_value(self) -> (v: JValue)
        ensures
            v == JValue::Byte(self),
    {
        JValue::Byte(self)
    }
}

impl IntoJniValue for i16 {
    fn into_jni_value(self) -> (v: JValue)
        ensures
            v == JValue::Short(self),
    {
        JValue::Short(self)
    }
}

impl IntoJniValue for u16 {
    fn into_jni_value(self) -> (v: JValue)
        ensures
            v == JValue::Char(self),
    {
        JValue::Char(self)
    }
}

impl IntoJniValue for i32 {
    fn into_jni_value(self) -> (v: JValue)
        ensures
            v == JValue::Int(self),
    {
        JValue::Int(self)
    }
}

impl IntoJniValue for i64 {
    fn into_jni_value(self) -> (v: JValue)
        ensures
            v == JValue::Long(self),
    {
        JValue::Long(self)
    }
}

/// What can be taken from a method of the virtual machine.
pub trait FromJniValue<'jvm>: Sized {
    /// The type as which the virtual machine returns such a value.
    type JniValue;

    /// The value that the virtual machine returned, within a call scope.
    fn from_jni_value(jvm: &mut Jvm<'jvm>, value: Self::JniValue) -> Self;
}

impl<'jvm, T: JavaObject> FromJniValue<'jvm> for Option<Local<'jvm, T>> {
    type JniValue = usize;

    /// An object that was returned is held by a scoped reference, which the
    /// scope now counts; null is no object.
    fn from_jni_value(jvm: &mut Jvm<'jvm>, value: usize) -> (r: Self)
        ensures
            final(jvm)@.attachment == old(jvm)@.attachment,
            value == 0 ==> r is None && final(jvm)@ == old(jvm)@,
            value != 0 ==> (r matches Some(l) && l.env() == old(jvm)@.attachment.env
                && l.obj().addr() == value && final(jvm)@.live == old(jvm)@.live.push(l.obj())),
    {
        match ObjectPtr::new(value) {
            Some(obj) => Some(Local::from_raw(jvm, obj)),
            None => None,
        }
    }
}

impl<'jvm> FromJniValue<'jvm> for () {
    type JniValue = ();

    fn from_jni_value(jvm: &mut Jvm<'jvm>, value: ()) -> (r: Self)
        ensures
            final(jvm)@ == old(jvm)@,
    {
        ()
    }
}

impl<'jvm> FromJniValue<'jvm> for bool {
    type JniValue = u8;

    /// Only the virtual machine's `true` is true.
    fn from_jni_value(jvm: &mut Jvm<'jvm>, value: u8) -> (r: Self)
        ensures
            r == (value == 1),
            final(jvm)@ == old(jvm)@,
    {
        value == jni_true()
    }
}

impl<'jvm> FromJniValue<'jvm> for i8 {
    type JniValue = i8;

    fn from_jni_value(jvm: &mut Jvm<'jvm>, value: i8) -> (r: Self)
        ensures
            r == value,
            final(jvm)@ == old(jvm)@,
    {
        value
    }
}

impl<'jvm> FromJniValue<'jvm> for i16 {
    type JniValue = i16;

    fn from_jni_value(jvm: &mut Jvm<'jvm>, value: i16) -> (r: Self)
        ensures
            r == value,
            final(jvm)@ == old(jvm)@,
    {
        value
    }
}

impl<'jvm> FromJniValue<'jvm> for u16 {
    type JniValue = u16;

    fn from_jni_value(jvm: &mut Jvm<'jvm>, value: u16) -> (r: Self)
        ensures
            r == value,
            final(jvm)@ == old(jvm)@,
    {
        value
    }
}

impl<'jvm> FromJniValue<'jvm> for i32 {
    type JniValue = i32;

    fn from_jni_value(jvm: &mut Jvm<'jvm>, value: i32) -> (r: Self)
        ensures
            r == value,
            final(jvm)@ == old(jvm)@,
    {
        value
    }
}

impl<'jvm> FromJniValue<'jvm> for i64 {
    type JniValue = i64;

    fn from_jni_value(jvm: &mut Jvm<'jvm>, value: i64) -> (r: Self)
        ensures
            r == value,
            final(jvm)@ == old(jvm)@,
    {
        value
    }
}

} // verus!
