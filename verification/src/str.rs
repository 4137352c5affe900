//! Text on its way into the virtual machine and out of it. The virtual
//! machine writes text in its own modified UTF-8, which the crate `cesu8`
//! encodes and decodes.

use crate::error::{checked, check_exception, explain, internal, is_internal, Error, LocalResult};
use crate::java::lang::{JavaString, Throwable};
use crate::jvm::Jvm;
use crate::raw::{Call, Step};
use crate::ref_::{Borrowed, Local};
use vstd::prelude::*;
use vstd::string::*;
use vstd::utf8::{decode_utf8, valid_utf8};

verus! {

/// The bytes that `cesu8::to_java_cesu8` makes of a text.
pub uninterp spec fn java_cesu8(text: Seq<char>) -> Seq<u8>;

/// The text that `cesu8::from_java_cesu8` makes of bytes, or nothing where
/// it reports an error.
pub uninterp spec fn from_java_cesu8(bytes: Seq<u8>) -> Option<Seq<char>>;

/// The text that an outcome holds, if it holds one.
pub open spec fn text_in<E>(outcome: Result<String, E>) -> Option<Seq<char>> {
    match outcome {
        Ok(text) => Some(text@),
        Err(_) => None,
    }
}

/// An outcome of reading UTF-8, by what it holds: the text, or the bytes
/// that were none.
pub open spec fn utf8_in(outcome: Result<String, Vec<u8>>) -> Result<Seq<char>, Seq<u8>> {
    match outcome {
        Ok(text) => Ok(text@),
        Err(bytes) => Err(bytes@),
    }
}

/// The error of `cesu8::from_java_cesu8`.
#[verifier::external_type_specification]
#[verifier::external_body]
pub struct ExCesu8DecodingError(cesu8::Cesu8DecodingError);

/// Encodes a text in the virtual machine's modified UTF-8.
///
/// Trusted: calls `cesu8::to_java_cesu8` and owns what it returns. What is
/// claimed beyond the name: no byte of the result is zero, since the crate
/// writes the character U+0000 as the two bytes `C0 80` and every other
/// character as UTF-8 does or as a pair of three-byte surrogates.
#[verifier::external_body]
fn to_java_cesu8(text: &str) -> (bytes: Vec<u8>)
    ensures
        bytes@ == java_cesu8(text@),
        forall|i: int| 0 <= i < bytes@.len() ==> bytes@[i] != 0,
{
    cesu8::to_java_cesu8(text).into_owned()
}

/// Decodes the virtual machine's modified UTF-8.
///
/// Trusted: calls `cesu8::from_java_cesu8` and owns the text that it
/// returns.
#[verifier::external_body]
fn decode_java_cesu8(bytes: &Vec<u8>) -> (outcome: Result<String, cesu8::Cesu8DecodingError>)
    ensures
        text_in(outcome) == from_java_cesu8(bytes@),
{
    match cesu8::from_java_cesu8(bytes) {
        Ok(text) => Ok(text.into_owned()),
        Err(e) => Err(e),
    }
}

/// What the error of `cesu8::from_java_cesu8` says of itself.
///
/// Trusted: calls `to_string` on `cesu8::Cesu8DecodingError`, whose
/// `Display` writes one fixed sentence.
#[verifier::external_body]
fn decoding_error_text(e: &cesu8::Cesu8DecodingError) -> (text: String)
    ensures
        text@ == "could not convert CESU-8 data to UTF-8"@,
{
    e.to_string()
}

/// Reads bytes as UTF-8.
///
/// Trusted: calls `String::from_utf8`, which returns the text where the
/// bytes are valid UTF-8 and otherwise an error that gives the bytes back.
#[verifier::external_body]
fn string_from_utf8(bytes: Vec<u8>) -> (outcome: Result<String, Vec<u8>>)
    ensures
        utf8_in(outcome) == (if valid_utf8(bytes@) {
            Ok::<Seq<char>, Seq<u8>>(decode_utf8(bytes@))
        } else {
            Err::<Seq<char>, Seq<u8>>(bytes@)
        }),
{
    match String::from_utf8(bytes) {
        Ok(text) => Ok(text),
        Err(e) => Err(e.into_bytes()),
    }
}

/// The description of bytes that are no text.
pub open spec fn no_text() -> Seq<char> {
    "Java String contained invalid modified UTF-8: "@ + "could not convert CESU-8 data to UTF-8"@
}

/// The text that the virtual machine's bytes stand for: read as UTF-8 where
/// they are valid UTF-8, else decoded from modified UTF-8; nothing where
/// they are neither.
pub open spec fn text_of(bytes: Seq<u8>) -> Option<Seq<char>> {
    if valid_utf8(bytes) {
        Some(decode_utf8(bytes))
    } else {
        from_java_cesu8(bytes)
    }
}

/// The bytes of `text` in the virtual machine's modified UTF-8. None of them
/// is zero, so that they can be handed over as a C string.
pub fn to_modified_utf8(text: &str) -> (bytes: Vec<u8>)
    ensures
        bytes@ == java_cesu8(text@),
        forall|i: int| 0 <= i < bytes@.len() ==> bytes@[i] != 0,
{
    to_java_cesu8(text)
}

/// What the decoding of modified UTF-8 comes to: the text, or the internal
/// error that says the bytes were no text.
pub fn decoded<T>(outcome: Result<String, cesu8::Cesu8DecodingError>) -> (r: Result<
    String,
    Error<T>,
>)
    ensures
        outcome matches Ok(text) ==> r == Result::<String, Error<T>>::Ok(text),
        outcome is Err ==> (r matches Err(e) && is_internal(e, no_text())),
{
    match outcome {
        Ok(text) => Ok(text),
        Err(e) => {
            let mut text = String::from_str("Java String contained invalid modified UTF-8: ");
            let reason = decoding_error_text(&e);
            text.append(reason.as_str());
            Err(internal(text))
        },
    }
}

/// The text that the virtual machine's bytes stand for. Most text is plain
/// UTF-8 and is taken as it is; only what is no UTF-8 is decoded.
pub fn from_modified_utf8<T>(bytes: Vec<u8>) -> (r: Result<String, Error<T>>)
    ensures
        text_of(bytes@) matches Some(text) ==> (r matches Ok(s) && s@ == text),
        text_of(bytes@) is None ==> (r matches Err(e) && is_internal(e, no_text())),
{
    match string_from_utf8(bytes) {
        Ok(text) => Ok(text),
        Err(bytes) => decoded(decode_java_cesu8(&bytes)),
    }
}

impl<'jvm> Jvm<'jvm> {
    /// The call that makes a string of the virtual machine from `text`:
    /// `NewStringUTF`, with the text in modified UTF-8. `into_java` takes
    /// what it returns.
    pub fn new_string_utf(&self, text: &str) -> (call: Call<'jvm>)
        ensures
            call matches Call::NewStringUTF(e, bytes) && e == self@.attachment.env && bytes@
                == java_cesu8(text@) && (forall|i: int|
                0 <= i < bytes@.len() ==> bytes@[i] != 0),
    {
        Call::NewStringUTF(self.env(), to_modified_utf8(text))
    }

    /// The call that asks for the length of a string in bytes of modified
    /// UTF-8: `GetStringUTFLength`.
    pub fn get_string_utf_length(&self, string: &Borrowed<'_, JavaString>) -> (call: Call<'jvm>)
        ensures
            call matches Call::GetStringUTFLength(e, s) && e == self@.attachment.env && s
                == string.obj(),
    {
        Call::GetStringUTFLength(self.env(), string.as_raw())
    }

    /// The call that asks for the length of a string in units of UTF-16:
    /// `GetStringLength`.
    pub fn get_string_length(&self, string: &Borrowed<'_, JavaString>) -> (call: Call<'jvm>)
        ensures
            call matches Call::GetStringLength(e, s) && e == self@.attachment.env && s
                == string.obj(),
    {
        Call::GetStringLength(self.env(), string.as_raw())
    }

    /// The call that copies a whole string out in modified UTF-8:
    /// `GetStringUTFRegion` from the first unit over all `utf16_len` units,
    /// into a buffer of `cesu8_len` bytes. The two lengths are those that the
    /// virtual machine gave for this string; it gives none below zero. The
    /// call may throw: `into_rust` takes the bytes and what
    /// `ExceptionOccurred` returns after it.
    pub fn get_string_utf_region(
        &self,
        string: &Borrowed<'_, JavaString>,
        cesu8_len: i32,
        utf16_len: i32,
    ) -> (call: Call<'jvm>)
        requires
            cesu8_len >= 0,
            utf16_len >= 0,
        ensures
            call matches Call::GetStringUTFRegion(e, s, start, len, room) && e
                == self@.attachment.env && s == string.obj() && start == 0 && len == utf16_len
                && room == cesu8_len,
    {
        Call::GetStringUTFRegion(self.env(), string.as_raw(), 0, utf16_len, cesu8_len as usize)
    }
}

/// What `NewStringUTF` made, where `string` is the address that it returned.
/// A string that was made is held by a scoped reference, which the scope now
/// counts. Where none was made the virtual machine should have thrown: the
/// library asks, by `ExceptionOccurred`, and the caller goes on with
/// `string_not_made`.
pub fn into_java<'jvm>(jvm: &mut Jvm<'jvm>, string: usize) -> (r: Step<
    'jvm,
    Local<'jvm, JavaString>,
>)
    ensures
        final(jvm)@.attachment == old(jvm)@.attachment,
        string != 0 ==> (r matches Step::Done(l) && l.env() == old(jvm)@.attachment.env
            && l.obj().addr() == string && final(jvm)@.live == old(jvm)@.live.push(l.obj())),
        string == 0 ==> final(jvm)@ == old(jvm)@ && (r matches Step::Call(
            Call::ExceptionOccurred(e),
        ) && e == old(jvm)@.attachment.env),
{
    match crate::raw::ObjectPtr::new(string) {
        Some(obj) => Step::Done(Local::from_raw(jvm, obj)),
        None => Step::Call(jvm.exception_occurred()),
    }
}

/// Why no string was made, where `ExceptionOccurred` returned the address
/// `thrown`: the exception that was thrown, or an internal error where
/// nothing was.
pub fn string_not_made<'jvm>(jvm: &mut Jvm<'jvm>, thrown: usize) -> (r: (
    Error<Local<'jvm, Throwable>>,
    Option<Call<'jvm>>,
))
    ensures
        thrown != 0 ==> checked(
            old(jvm)@,
            thrown,
            LocalResult::<'jvm, ()>::Err(r.0),
            r.1,
            final(jvm)@,
        ),
        thrown == 0 ==> is_internal(r.0, "JVM failed to create new String"@) && r.1 is None
            && final(jvm)@ == old(jvm)@,
{
    explain(jvm, thrown, String::from_str("JVM failed to create new String"))
}

/// The text of a string of the virtual machine, where `bytes` is what
/// `GetStringUTFRegion` wrote and `thrown` the address that
/// `ExceptionOccurred` returned after it. A pending exception comes first,
/// checked as by `check_exception`; else the bytes are read as by
/// `from_modified_utf8`.
pub fn into_rust<'jvm>(jvm: &mut Jvm<'jvm>, bytes: Vec<u8>, thrown: usize) -> (r: (
    LocalResult<'jvm, String>,
    Option<Call<'jvm>>,
))
    ensures
        thrown != 0 ==> r.0 is Err && checked(
            old(jvm)@,
            thrown,
            LocalResult::<'jvm, ()>::Err(r.0->Err_0),
            r.1,
            final(jvm)@,
        ),
        thrown == 0 ==> final(jvm)@ == old(jvm)@ && r.1 is None,
        thrown == 0 ==> (text_of(bytes@) matches Some(text) ==> (r.0 matches Ok(s) && s@ == text)),
        thrown == 0 && text_of(bytes@) is None ==> (r.0 matches Err(e) && is_internal(
            e,
            no_text(),
        )),
{
    match check_exception(jvm, thrown) {
        (Err(e), owed) => (Err(e), owed),
        (Ok(()), owed) => (from_modified_utf8(bytes), owed),
    }
}

} // verus!
