//! The name of the primary monitor, as the operating system hands it out: a
//! buffer of UTF-16 code units that a 0 ends.

use crate::adapter::Gpu;
use crate::error::{VividError, VividResult};
use vstd::prelude::*;
use vstd::slice::slice_subrange;

verus! {

/// The part of `buffer` before its first 0, or all of it if it holds none.
pub open spec fn until_nul(buffer: Seq<u16>) -> Seq<u16>
    decreases buffer.len(),
{
    if buffer.len() == 0 || buffer[0] == 0 {
        Seq::empty()
    } else {
        seq![buffer[0]] + until_nul(buffer.drop_first())
    }
}

/// `until_nul` is a start of the buffer that holds no 0 and that ends where
/// the buffer ends or right before a 0.
pub proof fn lemma_until_nul(buffer: Seq<u16>)
    ensures
        until_nul(buffer).len() <= buffer.len(),
        until_nul(buffer) == buffer.take(until_nul(buffer).len() as int),
        forall|i: int| 0 <= i < until_nul(buffer).len() ==> buffer[i] != 0,
        until_nul(buffer).len() < buffer.len() ==> buffer[until_nul(buffer).len() as int] == 0,
    decreases buffer.len(),
{
    if buffer.len() > 0 && buffer[0] != 0 {
        let rest = buffer.drop_first();
        lemma_until_nul(rest);
        let n = until_nul(rest).len() as int;
        assert(until_nul(buffer) == seq![buffer[0]] + rest.take(n));
        assert(seq![buffer[0]] + rest.take(n) == buffer.take(n + 1));
        assert forall|i: int| 0 <= i < until_nul(buffer).len() implies buffer[i] != 0 by {
            if i > 0 {
                assert(buffer[i] == rest[i - 1]);
            }
        }
        if until_nul(buffer).len() < buffer.len() {
            assert(buffer[n + 1] == rest[n]);
        }
    } else {
        assert(until_nul(buffer) == buffer.take(0));
    }
}

/// The text that the UTF-16 code units `units` stand for, or `None` where
/// they are not well-formed UTF-16.
pub uninterp spec fn utf16_text(units: Seq<u16>) -> Option<Seq<char>>;

/// `std::string::FromUtf16Error`, the error of `String::from_utf16`. It is
/// carried through as it is; nothing is said of what it holds.
#[verifier::external_type_specification]
#[verifier::external_body]
pub struct ExFromUtf16Error(std::string::FromUtf16Error);

/// `String::from_utf16` of the standard library. It decodes `units` as
/// UTF-16 and fails where they hold an unpaired surrogate. The contract gives
/// the decoded text the name `utf16_text` and claims no more than that the
/// call succeeds exactly where there is such a text, and returns it.
#[verifier::external_body]
fn string_from_utf16(units: &[u16]) -> (decoded: Result<String, std::string::FromUtf16Error>)
    ensures
        match utf16_text(units@) {
            Some(text) => decoded matches Ok(name) && name@ == text,
            None => decoded is Err,
        },
{
    String::from_utf16(units)
}

/// The part of `buffer` before its first 0.
pub fn wide_until_nul(buffer: &[u16]) -> (units: &[u16])
    ensures
        units@ == until_nul(buffer@),
{
    let mut end: usize = 0;
    proof {
        assert(buffer@.skip(0) == buffer@);
        assert(buffer@.take(0) + until_nul(buffer@) == until_nul(buffer@));
    }
    while end < buffer.len() && buffer[end] != 0
        invariant
            end <= buffer@.len(),
            until_nul(buffer@) == buffer@.take(end as int) + until_nul(buffer@.skip(end as int)),
        decreases buffer@.len() - end,
    {
        proof {
            let rest = buffer@.skip(end as int);
            assert(rest[0] == buffer@[end as int]);
            assert(rest.drop_first() == buffer@.skip(end + 1));
            assert(buffer@.take(end as int) + seq![buffer@[end as int]] == buffer@.take(end + 1));
        }
        end = end + 1;
    }
    proof {
        let rest = buffer@.skip(end as int);
        if end < buffer@.len() {
            assert(rest[0] == buffer@[end as int]);
        }
        assert(until_nul(rest) == Seq::<u16>::empty());
        assert(buffer@.take(end as int) + Seq::<u16>::empty() == buffer@.take(end as int));
        assert(buffer@.subrange(0, end as int) == buffer@.take(end as int));
    }
    slice_subrange(buffer, 0, end)
}

impl Gpu {
    /// The name of the primary monitor, from what the system answered to the
    /// query for it: `found` is whether it answered at all, and `decoded`
    /// the device name it gave, decoded as UTF-16.
    pub fn monitor_name(found: bool, decoded: Result<String, std::string::FromUtf16Error>) -> (name:
        VividResult<String>)
        ensures
            match decoded {
                Ok(device) if found => name == Ok::<String, VividError>(device),
                _ => name == Err::<String, VividError>(VividError::NoDisplayDetected),
            },
    {
        if !found {
            return Err(VividError::NoDisplayDetected);
        }
        match decoded {
            Ok(device) => Ok(device),
            Err(_) => Err(VividError::NoDisplayDetected),
        }
    }

    /// The name of the primary monitor, from what the system answered to the
    /// query for it: `found` is whether it answered at all, and `device` the
    /// buffer it wrote the device name to, in UTF-16 and ended by a 0.
    ///
    /// There is no such name where the system did not answer, or where the
    /// device name is not well-formed UTF-16.
    pub fn get_primary_monitor_name(found: bool, device: &[u16]) -> (name: VividResult<String>)
        ensures
            match utf16_text(until_nul(device@)) {
                Some(text) if found => name matches Ok(monitor) && monitor@ == text,
                _ => name == Err::<String, VividError>(VividError::NoDisplayDetected),
            },
    {
        if !found {
            return Err(VividError::NoDisplayDetected);
        }
        let decoded = string_from_utf16(wide_until_nul(device));
        Self::monitor_name(found, decoded)
    }
}

} // verus!
