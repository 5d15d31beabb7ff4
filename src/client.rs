use vstd::prelude::*;
use vstd::string::StringSliceAdditionalSpecFns;
use vstd::utf8::encode_utf8;

use crate::error::{ErrorKind, RabcError};
use crate::event::RabcEvent;
use crate::frame::{frame_bytes, send_too_big_msg, FrameCodec};

verus! {

/// Seconds between two keepalive pings.
pub const DEFAULT_TIMER_INTERVAL: u32 = 2;

/// What handling one ready event takes.
#[derive(Clone, Copy, Debug, PartialEq, Eq, Structural)]
pub enum ProcessPlan {
    /// Consume one timer tick, then send the keepalive frame.
    TickThenPing,
    /// Receive one frame and hand its text back.
    ReceiveFrame,
}

/// The plan for each event.
pub open spec fn plan_of(e: RabcEvent) -> ProcessPlan {
    match e {
        RabcEvent::Timer => ProcessPlan::TickThenPing,
        RabcEvent::IpcIn => ProcessPlan::ReceiveFrame,
    }
}

/// The text of the keepalive frame.
pub open spec fn ping_text() -> Seq<char> {
    seq!['p', 'i', 'n', 'g']
}

/// How to handle `event`.
pub fn process_plan(event: &RabcEvent) -> (r: ProcessPlan)
    ensures
        r == plan_of(*event),
{
    match event {
        RabcEvent::Timer => ProcessPlan::TickThenPing,
        RabcEvent::IpcIn => ProcessPlan::ReceiveFrame,
    }
}

/// The bytes of one keepalive frame, `"ping"`, under the codec's rules.
pub fn keepalive_frame(codec: &FrameCodec) -> (r: Result<Vec<u8>, RabcError>)
    ensures
        r is Ok <==> 4 <= codec@.0,
        r matches Ok(b) ==> b@ == frame_bytes(encode_utf8(ping_text()), codec@.1),
        encode_utf8(ping_text()) == seq![112u8, 105u8, 110u8, 103u8],
        r matches Err(e) ==> e@ == (ErrorKind::ExceededIpcMaxSize, send_too_big_msg(codec@.0)),
{
    let ping = "ping";
    proof {
        reveal_strlit("ping");
        assert(ping@ =~= ping_text());
        assert(ping.spec_bytes() =~= seq![112u8, 105u8, 110u8, 103u8]) by {
            vstd::string::is_ascii_spec_bytes(ping);
        }
        assert(encode_utf8(ping_text()) == ping.spec_bytes());
    }
    codec.encode(ping)
}

} // verus!
