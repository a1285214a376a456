//! What the native layer's answers mean.
//!
//! A command that creates an object answers with a result code and a handle.
//! An enumerating command is called twice: once without a buffer, to learn
//! how many items there are, and once with a buffer of that capacity. The
//! count of the second call is the one that holds: the items of the answer
//! are the first so many of the buffer, whatever the first call announced.

use vstd::prelude::*;
use crate::common::{is_enumeration_code, is_result_code, Error, SUCCESS};
use crate::handle::Handle;

verus! {

/// The object a creating command made, or the error it answered with.
pub open spec fn spec_created(code: int, raw: u64) -> Result<Handle, Error> {
    match Error::spec_from_code(code) {
        Some(e) => Err(e),
        None => Ok(Handle::of(raw)),
    }
}

/// Whether the answer of a creating command is one it can give: success with
/// an object, or an error code.
pub open spec fn creation_reply_expected(code: int, raw: u64) -> bool {
    is_result_code(code) && (code == SUCCESS ==> raw != 0)
}

/// Tests whether a creating command answered with success and an object, or
/// with an error code.
pub fn is_creation_reply(code: i32, raw: u64) -> (r: bool)
    ensures
        r == creation_reply_expected(code as int, raw),
{
    if code == SUCCESS {
        raw != 0
    } else {
        Error::from_code(code).is_some()
    }
}

/// Reads the answer of a creating command.
pub fn created(code: i32, raw: u64) -> (r: Result<Handle, Error>)
    requires
        creation_reply_expected(code as int, raw),
    ensures
        r == spec_created(code as int, raw),
        r is Ok <==> code == SUCCESS,
        r matches Ok(h) ==> h.spec_raw() == raw,
{
    proof {
        Handle::lemma_of(raw, Handle::of(raw));
        if code != SUCCESS {
            assert(Error::spec_from_code(code as int) is Some);
        } else {
            assert(forall|e: Error| e.spec_code() != 0);
        }
    }
    match Error::from_code(code) {
        Some(e) => Err(e),
        None => {
            match Handle::new(raw) {
                Some(h) => Ok(h),
                None => Err(Error::Unknown),
            }
        },
    }
}

/// How many of the `len` slots of a buffer hold items, when the native layer
/// reports `count`.
pub open spec fn spec_item_count(count: u32, len: int) -> int {
    if count <= len {
        count as int
    } else {
        len
    }
}

/// The capacity to call again with, after the call without a buffer
/// answered, or the error it answered with.
pub open spec fn spec_sized(code: int, count: u32) -> Result<u32, Error> {
    match Error::spec_from_code(code) {
        Some(e) => Err(e),
        None => Ok(count),
    }
}

/// The items of an enumeration, after the call with a buffer answered, or
/// the error it answered with.
pub open spec fn spec_filled<T>(code: int, count: u32, buffer: Seq<T>) -> Result<Seq<T>, Error> {
    match Error::spec_from_code(code) {
        Some(e) => Err(e),
        None => Ok(buffer.take(spec_item_count(count, buffer.len() as int))),
    }
}

/// Reads the answer of the call without a buffer: the capacity of the buffer
/// to call again with.
pub fn sized(code: i32, count: u32) -> (r: Result<u32, Error>)
    requires
        is_enumeration_code(code as int),
    ensures
        r == spec_sized(code as int, count),
        r is Err <==> Error::spec_from_code(code as int) is Some,
{
    match Error::from_code(code) {
        Some(e) => Err(e),
        None => Ok(count),
    }
}

/// Reads the answer of the call with a buffer. The native layer reports how
/// many items it wrote; the answer holds exactly those, in the buffer's
/// order. A count beyond the buffer's end stands for the whole buffer.
pub fn filled<T>(code: i32, count: u32, buffer: Vec<T>) -> (r: Result<Vec<T>, Error>)
    requires
        is_enumeration_code(code as int),
    ensures
        r is Err <==> Error::spec_from_code(code as int) is Some,
        r matches Err(e) ==> spec_filled(code as int, count, buffer@) == Err::<Seq<T>, Error>(e),
        r matches Ok(items) ==> spec_filled(code as int, count, buffer@) == Ok::<Seq<T>, Error>(
            items@,
        ),
{
    match Error::from_code(code) {
        Some(e) => Err(e),
        None => {
            let mut items = buffer;
            if (count as usize) < items.len() {
                items.truncate(count as usize);
            }
            assert(items@ =~= buffer@.take(spec_item_count(count, buffer@.len() as int)));
            Ok(items)
        },
    }
}

/// How far a two-call enumeration has come: which of its calls were made
/// and answered.
#[derive(Debug, Clone, Copy, PartialEq, Eq, Structural)]
pub enum Asked {
    /// No call was made yet.
    Nothing,
    /// The call without a buffer was answered.
    Count,
    /// The call with a buffer was answered.
    Items,
}

/// What comes next in a two-call enumeration.
#[allow(inconsistent_fields)]
#[derive(Debug, Clone, Copy, PartialEq, Eq, Structural)]
pub enum EnumerationStep {
    /// The enumerating call is to be made, without a buffer or with one of
    /// `capacity` slots.
    Call { capacity: Option<u32> },
    /// The last answer is the answer of the enumeration and is to be read.
    Read,
    /// The enumeration failed before there was anything to read.
    Fail(Error),
}

/// The step that follows in a two-call enumeration, given the code and the
/// count of the last answer. There are exactly two calls: the first has no
/// buffer, the second has a buffer of as many slots as the first announced.
/// An error of the first call ends the enumeration.
pub open spec fn spec_enumeration_step(asked: Asked, code: int, count: u32) -> EnumerationStep {
    match asked {
        Asked::Nothing => EnumerationStep::Call { capacity: None },
        Asked::Count => match Error::spec_from_code(code) {
            Some(e) => EnumerationStep::Fail(e),
            None => EnumerationStep::Call { capacity: Some(count) },
        },
        Asked::Items => EnumerationStep::Read,
    }
}

/// Decides the step that follows in a two-call enumeration. Before the first
/// call there is no answer yet, and `code` and `count` are not looked at.
pub fn enumeration_step(asked: Asked, code: i32, count: u32) -> (r: EnumerationStep)
    ensures
        r == spec_enumeration_step(asked, code as int, count),
{
    match asked {
        Asked::Nothing => EnumerationStep::Call { capacity: None },
        Asked::Count => match Error::from_code(code) {
            Some(e) => EnumerationStep::Fail(e),
            None => EnumerationStep::Call { capacity: Some(count) },
        },
        Asked::Items => EnumerationStep::Read,
    }
}

/// How far the enumeration has come once the step `step` was taken from
/// `asked`: a call moves it on by one answer.
pub open spec fn spec_asked_after(asked: Asked, step: EnumerationStep) -> Asked {
    match (asked, step) {
        (Asked::Nothing, EnumerationStep::Call { .. }) => Asked::Count,
        (Asked::Count, EnumerationStep::Call { .. }) => Asked::Items,
        _ => asked,
    }
}

pub fn asked_after(asked: Asked, step: EnumerationStep) -> (r: Asked)
    ensures
        r == spec_asked_after(asked, step),
{
    match (asked, step) {
        (Asked::Nothing, EnumerationStep::Call { .. }) => Asked::Count,
        (Asked::Count, EnumerationStep::Call { .. }) => Asked::Items,
        _ => asked,
    }
}

/// An enumeration makes at most two calls: after the second answer the only
/// step is to read it, whatever it was.
pub proof fn lemma_two_calls(code1: int, count1: u32, code2: int, count2: u32)
    ensures
        spec_enumeration_step(Asked::Nothing, code1, count1) == (EnumerationStep::Call {
            capacity: None,
        }),
        Error::spec_from_code(code1) is None ==> spec_enumeration_step(Asked::Count, code1, count1)
            == (EnumerationStep::Call { capacity: Some(count1) }),
        spec_enumeration_step(Asked::Items, code2, count2) == EnumerationStep::Read,
        spec_asked_after(
            spec_asked_after(Asked::Nothing, EnumerationStep::Call { capacity: None }),
            EnumerationStep::Call { capacity: Some(count1) },
        ) == Asked::Items,
{
}

} // verus!
