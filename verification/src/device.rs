//! A connection to a lime device and what the library decides around each
//! LimeSuite call made on it.
//!
//! The calls into `libLimeSuite` are made by the caller. A method of
//! `Device` whose call is made once and unconditionally takes that call's
//! reply (its status code, and the values it filled in) and gives the
//! method's result. A method that decides whether, and with what, the call
//! is made takes the call as a closure, which it invokes at most once with
//! the arguments it has checked.

use vstd::prelude::*;

use crate::error::value_into_result;
use crate::error::value_result;
use crate::error::Error;

pub mod context;
pub mod high_level;
pub mod info;
pub mod low_level;
pub mod streaming;

verus! {

/// Library context to a lime device: the handle that LimeSuite handed out
/// when the device was opened.
#[derive(Clone, Copy)]
pub struct Context {
    device_handle: usize,
}

/// A connection to a lime device.
#[derive(Clone)]
pub struct Device {
    context: Context,
}

impl Device {
    /// The LimeSuite handle of this device.
    pub closed spec fn handle(self) -> usize {
        self.context.device_handle
    }

    /// The LimeSuite handle of this device, to be handed to the calls made
    /// on it.
    pub fn get_handle(&self) -> (h: usize)
        ensures
            h == self.handle(),
    {
        self.context.device_handle
    }
}

/// What a listing made of two LimeSuite calls answers: `lms_count` asks
/// for the number of entries; unless it failed, `lms_list(n)` fills `n`
/// entries and hands back its status and the decoded entries, which are
/// the answer unless that call failed too.
pub open spec fn listed<C, L>(lms_count: C, lms_list: L, r: Result<Vec<String>, Error>) -> bool where
    C: FnOnce() -> i32,
    L: FnOnce(usize) -> (i32, Vec<String>),
 {
    exists|count: i32|
        {
            &&& lms_count.ensures((), count)
            &&& match value_result(count) {
                Err(e) => r == Err::<Vec<String>, Error>(e),
                Ok(n) => exists|reply: (i32, Vec<String>)|
                    {
                        &&& #[trigger] lms_list.ensures((n as usize,), reply)
                        &&& match value_result(reply.0) {
                            Err(e) => r == Err::<Vec<String>, Error>(e),
                            Ok(_) => r == Ok::<Vec<String>, Error>(reply.1),
                        }
                    },
            }
        }
}

/// Runs a listing made of two LimeSuite calls (see `listed`).
pub(crate) fn fetch_list<C, L>(lms_count: C, lms_list: L) -> (r: Result<Vec<String>, Error>) where
    C: FnOnce() -> i32,
    L: FnOnce(usize) -> (i32, Vec<String>),

    requires
        lms_count.requires(()),
        forall|n: usize| lms_list.requires((n,)),
    ensures
        listed(lms_count, lms_list, r),
{
    let count = lms_count();
    let num = match value_into_result(count) {
        Ok(n) => #[verifier::truncate] (n as usize),
        Err(e) => return Err(e),
    };
    let reply = lms_list(num);
    let ghost seen = reply;
    let (status, entries) = reply;
    let r = match value_into_result(status) {
        Err(e) => Err(e),
        Ok(_) => Ok(entries),
    };
    assert(lms_list.ensures((num,), seen));
    r
}

} // verus!
