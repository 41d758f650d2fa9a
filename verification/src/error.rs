//! The error flags of the graphics driver, and how a run of them is read.
//!
//! The driver keeps a queue of error flags and hands out one per poll, the
//! flag for "no error" once the queue is empty. This module says what each
//! flag is called and when polling stops; the polling itself is left to the
//! caller, which owns the driver.

use vstd::prelude::*;

verus! {

/// `GL_NO_ERROR`: the queue is empty.
pub const NO_ERROR: u32 = 0;

/// `GL_INVALID_ENUM`: an enumerant was out of range.
pub const INVALID_ENUM: u32 = 0x0500;

/// `GL_INVALID_VALUE`: a number was out of range.
pub const INVALID_VALUE: u32 = 0x0501;

/// `GL_INVALID_OPERATION`: the call was not allowed in the driver's state.
pub const INVALID_OPERATION: u32 = 0x0502;

/// `GL_STACK_OVERFLOW`: a push would have overflowed a stack.
pub const STACK_OVERFLOW: u32 = 0x0503;

/// `GL_STACK_UNDERFLOW`: a pop would have underflowed a stack.
pub const STACK_UNDERFLOW: u32 = 0x0504;

/// `GL_OUT_OF_MEMORY`: the driver ran out of memory.
pub const OUT_OF_MEMORY: u32 = 0x0505;

/// `GL_INVALID_FRAMEBUFFER_OPERATION`: the framebuffer was not complete.
pub const INVALID_FRAMEBUFFER_OPERATION: u32 = 0x0506;

/// What the error flag `code` is called.
pub open spec fn error_text(code: u32) -> Seq<char> {
    if code == INVALID_ENUM {
        "GL_INVALID_ENUM"@
    } else if code == INVALID_VALUE {
        "GL_INVALID_VALUE"@
    } else if code == INVALID_OPERATION {
        "GL_INVALID_OPERATION"@
    } else if code == INVALID_FRAMEBUFFER_OPERATION {
        "GL_INVALID_FRAMEBUFFER_OPERATION"@
    } else if code == OUT_OF_MEMORY {
        "GL_OUT_OF_MEMORY"@
    } else if code == STACK_UNDERFLOW {
        "GL_STACK_UNDERFLOW"@
    } else if code == STACK_OVERFLOW {
        "GL_STACK_OVERFLOW"@
    } else {
        "Unknown error"@
    }
}

/// The name of the error flag `code`.
pub fn error_name(code: u32) -> (name: &'static str)
    ensures
        name@ == error_text(code),
{
    if code == INVALID_ENUM {
        "GL_INVALID_ENUM"
    } else if code == INVALID_VALUE {
        "GL_INVALID_VALUE"
    } else if code == INVALID_OPERATION {
        "GL_INVALID_OPERATION"
    } else if code == INVALID_FRAMEBUFFER_OPERATION {
        "GL_INVALID_FRAMEBUFFER_OPERATION"
    } else if code == OUT_OF_MEMORY {
        "GL_OUT_OF_MEMORY"
    } else if code == STACK_UNDERFLOW {
        "GL_STACK_UNDERFLOW"
    } else if code == STACK_OVERFLOW {
        "GL_STACK_OVERFLOW"
    } else {
        "Unknown error"
    }
}

/// Whether polling goes on after the flag `code`: it does until the driver
/// reports that no error is left.
pub fn polls_again(code: u32) -> (again: bool)
    ensures
        again == (code != NO_ERROR),
{
    code != NO_ERROR
}

/// The errors that the driver has reported since polling began.
pub struct GlErrors {
    names: Vec<&'static str>,
}

impl GlErrors {
    /// The names of the errors reported so far, oldest first.
    pub closed spec fn names(&self) -> Seq<Seq<char>> {
        self.names@.map_values(|name: &'static str| name@)
    }

    /// Begins polling, with nothing reported yet.
    pub fn new() -> (errors: GlErrors)
        ensures
            errors.names() == Seq::<Seq<char>>::empty(),
    {
        GlErrors { names: Vec::new() }
    }

    /// Takes in the flag that a poll returned and says whether to poll again.
    /// An error flag is noted by its name and polling goes on; the flag for
    /// "no error" ends it and leaves the record as it is.
    pub fn record(&mut self, code: u32) -> (again: bool)
        ensures
            again == (code != NO_ERROR),
            code == NO_ERROR ==> final(self).names() == old(self).names(),
            code != NO_ERROR ==> final(self).names() == old(self).names().push(error_text(code)),
    {
        if code == NO_ERROR {
            return false;
        }
        self.names.push(error_name(code));
        assert(self.names() =~= old(self).names().push(error_text(code)));
        true
    }

    /// Ends polling: `Ok` where no error was reported, else the names of the
    /// errors, oldest first.
    pub fn finish(self) -> (outcome: Result<(), Vec<&'static str>>)
        ensures
            outcome is Ok <==> self.names().len() == 0,
            outcome matches Err(names) ==> names@.map_values(|name: &'static str| name@)
                == self.names(),
    {
        if self.names.len() == 0 {
            Ok(())
        } else {
            Err(self.names)
        }
    }
}

} // verus!
