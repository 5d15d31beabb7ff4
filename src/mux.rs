use vstd::prelude::*;

use crate::error::{ErrorKind, RabcError};
use crate::event::{event_of_id, unknown_event_msg, RabcEvent};
use crate::text::{decimal, decimal_text};

verus! {

/// Every tag in `tags` names an event.
pub open spec fn all_known(tags: Seq<u64>) -> bool {
    forall|i: int| 0 <= i < tags.len() ==> (#[trigger] event_of_id(tags[i])) is Some
}

/// `i` is the first tag in `tags` that names no event.
pub open spec fn first_unknown(tags: Seq<u64>, i: int) -> bool {
    &&& 0 <= i < tags.len()
    &&& event_of_id(tags[i]) is None
    &&& all_known(tags.take(i))
}

/// The message when a wait time in seconds is too long for the OS.
pub open spec fn wait_too_long_msg(wait_time: u32) -> Seq<char> {
    "wait time too big "@ + decimal(wait_time as nat)
}

/// The longest wait, in milliseconds, that the OS takes.
pub const MAX_WAIT_MILLIS: u64 = 2147483647;

/// The ready events, in the order the OS reported their tags. One tag that
/// names no event fails the whole call with the error of the first such
/// tag: no part of the batch is returned then.
pub fn decode_events(tags: &[u64]) -> (r: Result<Vec<RabcEvent>, RabcError>)
    ensures
        r is Ok <==> all_known(tags@),
        r matches Ok(v) ==> v@.len() == tags@.len() && forall|i: int|
            0 <= i < tags@.len() ==> event_of_id(#[trigger] tags@[i]) == Some(v@[i]),
        r matches Err(e) ==> exists|i: int|
            first_unknown(tags@, i) && e@ == (ErrorKind::Bug, unknown_event_msg(#[trigger] tags@[i])),
{
    let mut out: Vec<RabcEvent> = Vec::new();
    let mut i: usize = 0;
    while i < tags.len()
        invariant
            0 <= i <= tags@.len(),
            out@.len() == i,
            forall|j: int| 0 <= j < i ==> event_of_id(#[trigger] tags@[j]) == Some(out@[j]),
        decreases tags@.len() - i,
    {
        match RabcEvent::from_id(tags[i]) {
            Ok(e) => out.push(e),
            Err(e) => {
                assert(first_unknown(tags@, i as int)) by {
                    assert forall|j: int| 0 <= j < i implies (#[trigger] event_of_id(tags@.take(i as int)[j])) is Some by {
                        assert(tags@.take(i as int)[j] == tags@[j]);
                    }
                }
                assert(!all_known(tags@)) by {
                    assert(event_of_id(tags@[i as int]) is None);
                }
                return Err(e);
            }
        }
        i = i + 1;
    }
    Ok(out)
}

/// The wait in milliseconds for a wait of `wait_time` seconds; one longer
/// than the OS takes is an `InvalidArgument`.
pub fn wait_millis(wait_time: u32) -> (r: Result<i32, RabcError>)
    ensures
        r is Ok <==> 1000 * wait_time <= MAX_WAIT_MILLIS,
        r matches Ok(ms) ==> ms == 1000 * wait_time,
        r matches Err(e) ==> e@ == (ErrorKind::InvalidArgument, wait_too_long_msg(wait_time)),
{
    let ms: u64 = 1000 * (wait_time as u64);
    if ms > MAX_WAIT_MILLIS {
        let msg = String::from_str("wait time too big ").concat(decimal_text(wait_time as u64).as_str());
        Err(RabcError::new(ErrorKind::InvalidArgument, msg))
    } else {
        Ok(ms as i32)
    }
}

} // verus!
