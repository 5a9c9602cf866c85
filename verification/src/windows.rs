//! How the replies of the Windows primitives are judged.
//!
//! A handle and an address are taken as plain numbers, zero for null. The
//! error code is what the system reported last.

use vstd::prelude::*;
use vstd::string::*;
use crate::error::{code_condition, Condition, ShMemErr, ShMemErrView, ERROR_ALREADY_EXISTS};
use crate::naming::{append_decimal, decimal};

verus! {

/// The error that a label and an error code make: the label, then the code
/// as a decimal numeral.
pub open spec fn coded(label: Seq<char>, code: u32) -> ShMemErrView {
    ShMemErrView {
        unix: false,
        condition: code_condition(code),
        message: label + decimal(code as nat),
    }
}

/// The error that says that the name is owned already.
pub open spec fn already_exists() -> ShMemErrView {
    ShMemErrView {
        unix: false,
        condition: Condition::AlreadyExists,
        message: "HANDLE already exists!"@,
    }
}

/// The judgement on a created file mapping.
pub open spec fn create_handle_spec(handle: usize, error_code: u32) -> Result<usize, ShMemErrView> {
    if handle == 0 {
        Err(coded("Creating HANDLE error: "@, error_code))
    } else if error_code == ERROR_ALREADY_EXISTS {
        Err(already_exists())
    } else {
        Ok(handle)
    }
}

/// The judgement on a handle or an address that is null on failure.
pub open spec fn non_null_spec(label: Seq<char>, number: usize, error_code: u32) -> Result<
    usize,
    ShMemErrView,
> {
    if number == 0 {
        Err(coded(label, error_code))
    } else {
        Ok(number)
    }
}

/// The judgement on a call that reports whether it succeeded.
pub open spec fn succeeded_spec(label: Seq<char>, succeeded: bool, error_code: u32) -> Result<
    usize,
    ShMemErrView,
> {
    if succeeded {
        Ok(0usize)
    } else {
        Err(coded(label, error_code))
    }
}

/// Whether a reply is the one that a judgement asks for.
pub open spec fn agrees(
    reply: Result<usize, ShMemErr>,
    judgement: Result<usize, ShMemErrView>,
) -> bool {
    match judgement {
        Ok(number) => reply == Ok::<usize, ShMemErr>(number),
        Err(view) => reply is Err && reply->Err_0@ == view,
    }
}

/// The size of a file mapping as the two 32-bit words that its creation
/// takes, the high one first: together they say exactly `size`.
pub fn size_words(size: usize) -> (words: (u32, u32))
    ensures
        words.0 as nat * 0x1_0000_0000 + words.1 as nat == size as nat,
{
    let wide: u64 = size as u64;
    let high: u64 = wide >> 32;
    let low: u64 = wide & 0xffff_ffff;
    assert(high <= 0xffff_ffff && low <= 0xffff_ffff && high * 0x1_0000_0000 + low == wide)
        by (bit_vector)
        requires
            high == wide >> 32,
            low == wide & 0xffff_ffff,
    ;
    (high as u32, low as u32)
}

fn coded_error(label: &str, code: u32) -> (e: ShMemErr)
    ensures
        e@ == coded(label@, code),
{
    let mut text = String::from_str(label);
    append_decimal(&mut text, code);
    ShMemErr::from_code(code, text)
}

fn non_null(label: &str, number: usize, error_code: u32) -> (reply: Result<usize, ShMemErr>)
    ensures
        agrees(reply, non_null_spec(label@, number, error_code)),
{
    if number == 0 {
        Err(coded_error(label, error_code))
    } else {
        Ok(number)
    }
}

fn succeeded_or(label: &str, succeeded: bool, error_code: u32) -> (reply: Result<usize, ShMemErr>)
    ensures
        agrees(reply, succeeded_spec(label@, succeeded, error_code)),
{
    if succeeded {
        Ok(0)
    } else {
        Err(coded_error(label, error_code))
    }
}

/// Judges what the creation of a file mapping gave. A null handle is a
/// failure with the system's code. A handle that came with the code for
/// "already exists" belongs to an object that somebody else owns: creation
/// fails, and the object is left as it was.
pub fn create_handle(handle: usize, error_code: u32) -> (reply: Result<usize, ShMemErr>)
    ensures
        agrees(reply, create_handle_spec(handle, error_code)),
{
    if handle == 0 {
        Err(coded_error("Creating HANDLE error: ", error_code))
    } else if error_code == ERROR_ALREADY_EXISTS {
        Err(ShMemErr::Windows(Condition::AlreadyExists, String::from_str("HANDLE already exists!")))
    } else {
        Ok(handle)
    }
}

/// Judges what the opening of a file mapping gave: a null handle is a
/// failure with the system's code.
pub fn open_handle(handle: usize, error_code: u32) -> (reply: Result<usize, ShMemErr>)
    ensures
        agrees(reply, non_null_spec("Opening HANDLE error: "@, handle, error_code)),
{
    non_null("Opening HANDLE error: ", handle, error_code)
}

/// Judges what the mapping of a view gave: a null address is a failure with
/// the system's code.
pub fn map_file_view(address: usize, error_code: u32) -> (reply: Result<usize, ShMemErr>)
    ensures
        agrees(reply, non_null_spec("Mapping HANDLE error: "@, address, error_code)),
{
    non_null("Mapping HANDLE error: ", address, error_code)
}

/// Judges what the removal of a view gave.
pub fn unmap_file_view(unmapped: bool, error_code: u32) -> (reply: Result<usize, ShMemErr>)
    ensures
        agrees(reply, succeeded_spec("Unmapping HANDLE error: "@, unmapped, error_code)),
{
    succeeded_or("Unmapping HANDLE error: ", unmapped, error_code)
}

/// Judges what the closing of a handle gave.
pub fn close_handle(closed: bool, error_code: u32) -> (reply: Result<usize, ShMemErr>)
    ensures
        agrees(reply, succeeded_spec("Closing HANDLE error: "@, closed, error_code)),
{
    succeeded_or("Closing HANDLE error: ", closed, error_code)
}

} // verus!
