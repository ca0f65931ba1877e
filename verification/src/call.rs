//! Calls into mlx-c, seen from the side that decides on them.
//!
//! A function of this library makes no call itself. It gets the replies that have come so far and
//! says what is next: another call, or the end with its result. Whoever runs it makes the call,
//! adds the reply, and asks again.

use vstd::prelude::*;

use crate::error::{Exception, ExceptionView, Location, LocationView};
use crate::text::{push_signed_decimal, signed_decimal};

verus! {

/// What is next.
#[derive(Debug)]
pub enum Step<C, T> {
    /// A call.
    Call(C),
    /// The end, with this result.
    Done(T),
}

/// What came back from a call that writes a value behind a pointer and returns a status. The
/// value of a call that failed means nothing.
#[derive(Debug)]
pub struct Reply<T> {
    pub status: i32,
    pub value: T,
}

impl<T: Copy> Clone for Reply<T> {
    fn clone(&self) -> (copy: Self)
        ensures
            copy == *self,
    {
        *self
    }
}

impl<T: Copy> Copy for Reply<T> {

}

/// `result` is `value` where the status is zero, and the error `what` otherwise.
pub open spec fn reports<T>(
    result: Result<T, Exception>,
    status: i32,
    value: T,
    what: Seq<char>,
    here: LocationView,
) -> bool {
    if status == 0 {
        result == Ok::<T, Exception>(value)
    } else {
        result matches Err(e) && e@ == (ExceptionView { what, location: here })
    }
}

/// `before`, a status, `after`.
pub open spec fn status_text(before: Seq<char>, status: i32, after: Seq<char>) -> Seq<char> {
    before + signed_decimal(status as int) + after
}

/// Writes a status between two texts.
pub fn write_status(before: &str, status: i32, after: &str) -> (text: String)
    ensures
        text@ == status_text(before@, status, after@),
{
    let mut text: String = before.to_owned();
    push_signed_decimal(&mut text, status);
    text.append(after);
    text
}

/// Turns a status into a result. The error, where there is one, holds the status between the two
/// texts.
pub fn report<T>(
    status: i32,
    value: T,
    before: &str,
    after: &str,
    here: &Location,
) -> (result: Result<T, Exception>)
    ensures
        reports(result, status, value, status_text(before@, status, after@), here@),
{
    if status != 0 {
        Err(Exception::custom(write_status(before, status, after), here))
    } else {
        Ok(value)
    }
}

} // verus!
