//! Initialization/deinitialization
//!
//! The functions in this section provide the ability to query available
//! devices, initialize them, and deinitialize them.

use vstd::prelude::*;

use crate::error::status_into_result;
use crate::error::status_result;
use crate::error::Error;
use crate::error::LmsRetVal;
use crate::text::contains_chars;
use crate::text::str_contains;

use super::fetch_list;
use super::listed;
use super::Context;
use super::Device;

verus! {

/// The marker of a device information string whose USB descriptor and
/// serial number could be read.
pub open spec fn serial_marker() -> Seq<char> {
    "serial="@
}

/// A device information string names a validated device.
pub open spec fn has_serial(info: Seq<char>) -> bool {
    contains_chars(info, serial_marker())
}

/// A device information string names a validated device exactly when the
/// seven characters `serial=` occur in it somewhere.
pub proof fn lemma_has_serial(info: Seq<char>)
    ensures
        has_serial(info) <==> exists|i: int|
            0 <= i && i + 7 <= info.len() && #[trigger] info.subrange(i, i + 7) == seq![
                's',
                'e',
                'r',
                'i',
                'a',
                'l',
                '=',
            ],
{
    reveal_strlit("serial=");
    let pat = seq!['s', 'e', 'r', 'i', 'a', 'l', '='];
    assert("serial="@ =~= pat);
    if has_serial(info) {
        let i = choose|i: int| crate::text::occurs_at(info, serial_marker(), i);
        assert(info.subrange(i, i + 7) == pat);
    }
    if exists|i: int| 0 <= i && i + 7 <= info.len() && #[trigger] info.subrange(i, i + 7) == pat {
        let i = choose|i: int| 0 <= i && i + 7 <= info.len() && #[trigger] info.subrange(i, i + 7) == pat;
        assert(crate::text::occurs_at(info, serial_marker(), i));
    }
}

/// The device list kept from the decoded entries: all of them, or with
/// `validate` only those that name a validated device, in their order.
pub open spec fn kept_devices(validate: bool, entries: Seq<String>) -> Seq<String> {
    if validate {
        entries.filter(|s: String| has_serial(s@))
    } else {
        entries
    }
}

/// A validated device list keeps exactly the entries that name a validated
/// device: every entry it holds names one and comes from the entries, and
/// every entry that names one is in it. Without validation the list is the
/// entries themselves.
pub proof fn lemma_kept_devices(validate: bool, entries: Seq<String>)
    ensures
        !validate ==> kept_devices(validate, entries) == entries,
        validate ==> forall|i: int|
            0 <= i < kept_devices(validate, entries).len() ==> has_serial(
                #[trigger] kept_devices(validate, entries)[i]@,
            ) && entries.contains(kept_devices(validate, entries)[i]),
        validate ==> forall|i: int|
            0 <= i < entries.len() && has_serial(#[trigger] entries[i]@) ==> kept_devices(
                validate,
                entries,
            ).contains(entries[i]),
        kept_devices(validate, entries).len() <= entries.len(),
{
    broadcast use vstd::seq_lib::group_filter_ensures;

    let pred = |s: String| has_serial(s@);
    entries.lemma_filter_len(pred);
    if validate {
        assert forall|i: int| 0 <= i < kept_devices(validate, entries).len() implies has_serial(
            #[trigger] kept_devices(validate, entries)[i]@,
        ) && entries.contains(kept_devices(validate, entries)[i]) by {
            entries.lemma_filter_pred(pred, i);
            entries.lemma_filter_contains_rev(pred, entries.filter(pred)[i]);
        }
        assert forall|i: int| 0 <= i < entries.len() && has_serial(#[trigger] entries[i]@) implies kept_devices(
            validate,
            entries,
        ).contains(entries[i]) by {
            entries.lemma_filter_contains(pred, i);
        }
    }
}

/// Keeps the entries that name a validated device, in their order.
fn retain_validated(entries: Vec<String>) -> (r: Vec<String>)
    ensures
        r@ == entries@.filter(|s: String| has_serial(s@)),
{
    let ghost pred = |s: String| has_serial(s@);
    let mut kept: Vec<String> = Vec::new();
    let mut i: usize = 0;
    assert(entries@.take(0) =~= Seq::<String>::empty());
    proof {
        reveal(Seq::filter);
    }
    while i < entries.len()
        invariant
            i <= entries@.len(),
            pred == (|s: String| has_serial(s@)),
            kept@ == entries@.take(i as int).filter(pred),
        decreases entries@.len() - i,
    {
        let entry = &entries[i];
        let keep = str_contains(entry.as_str(), "serial=");
        proof {
            reveal(Seq::filter);
            assert(entries@.take(i + 1).drop_last() =~= entries@.take(i as int));
            assert(entries@.take(i + 1).last() == entries@[i as int]);
        }
        if keep {
            kept.push(entry.clone());
        }
        i = i + 1;
    }
    assert(entries@.take(entries@.len() as int) =~= entries@);
    kept
}

impl Context {
    /// Obtain a list of LMS devices attached to the system.
    /// You can `validate` the list to retrieve only those devices
    /// that have had no problems getting the usb descriptor and
    /// serial number.
    ///
    /// `lms_count` asks LimeSuite for the number of devices;
    /// `lms_list(n)` fills a list of `n` entries and hands back the call's
    /// status with the decoded entries.
    pub fn get_device_list<C, L>(validate: bool, lms_count: C, lms_list: L) -> (r: Result<
        Vec<String>,
        Error,
    >) where C: FnOnce() -> i32, L: FnOnce(usize) -> (i32, Vec<String>)
        requires
            lms_count.requires(()),
            forall|n: usize| lms_list.requires((n,)),
        ensures
            exists|fetched: Result<Vec<String>, Error>|
                {
                    &&& listed(lms_count, lms_list, fetched)
                    &&& match fetched {
                        Err(e) => r == Err::<Vec<String>, Error>(e),
                        Ok(entries) => r matches Ok(list) && list@ == kept_devices(
                            validate,
                            entries@,
                        ),
                    }
                },
    {
        let fetched = fetch_list(lms_count, lms_list);
        let ghost seen = fetched;
        match fetched {
            Err(e) => Err(e),
            Ok(entries) => {
                if validate {
                    Ok(retain_validated(entries))
                } else {
                    Ok(entries)
                }
            },
        }
    }

    /// Opens device specified by the provided device information string.
    /// If None, the first available device will be opened.
    ///
    /// This gives the outcome of `LMS_Open`: `status` is its answer and
    /// `handle` the device handle it filled in.
    pub fn open(status: i32, handle: usize) -> (r: Result<Device, Error>)
        ensures
            r is Ok <==> status == 0,
            r matches Ok(d) ==> d.handle() == handle,
            r matches Err(e) ==> e == Error::Lms(LmsRetVal::GeneralError),
    {
        match status_into_result(status) {
            Ok(()) => Ok(Device { context: Context { device_handle: handle } }),
            Err(e) => Err(e),
        }
    }
}

impl Device {
    /// Close device.
    ///
    /// Device is deallocated and may no longer be used.
    ///
    /// `close_status` is the answer of `LMS_Close`, or `None` when the
    /// connection is still shared with other holders, so that it was not
    /// closed; the device is then handed back with `Error::CantDispose`.
    /// When closing fails the device is handed back with the error.
    pub fn close(self, close_status: Option<i32>) -> (r: Result<(), (Device, Error)>)
        ensures
            match close_status {
                None => r matches Err((d, e)) && d == self && e == Error::CantDispose,
                Some(status) => match status_result(status) {
                    Ok(()) => r is Ok,
                    Err(e) => r matches Err((d, e2)) && d == self && e2 == e,
                },
            },
    {
        match close_status {
            None => Err((self, Error::CantDispose)),
            Some(status) => match status_into_result(status) {
                Ok(()) => Ok(()),
                Err(e) => Err((self, e)),
            },
        }
    }
}

} // verus!
