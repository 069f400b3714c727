//! Server-sent-event frames as the broadcaster writes them on the wire.

use vstd::prelude::*;

verus! {

/// The frame that greets a client right after it subscribes.
pub open spec fn connected_frame_spec() -> Seq<char> {
    "event: connected\ndata: connected\n\n"@
}

/// The frame that probes a client for liveness.
pub open spec fn ping_frame_spec() -> Seq<char> {
    "event: ping\ndata: ping\n\n"@
}

/// The fixed text in front of every broadcast message.
pub open spec fn message_prefix() -> Seq<char> {
    "event: message\ndata: "@
}

/// The text that closes every frame.
pub open spec fn frame_end() -> Seq<char> {
    "\n\n"@
}

/// The frame that carries one broadcast message.
pub open spec fn message_frame_spec(msg: Seq<char>) -> Seq<char> {
    message_prefix() + msg + frame_end()
}

/// Builds the greeting frame.
pub fn connected_frame() -> (frame: String)
    ensures
        frame@ == connected_frame_spec(),
{
    String::from_str("event: connected\ndata: connected\n\n")
}

/// Builds the liveness probe frame.
pub fn ping_frame() -> (frame: String)
    ensures
        frame@ == ping_frame_spec(),
{
    String::from_str("event: ping\ndata: ping\n\n")
}

/// Wraps `msg` into a `message` event frame.
pub fn message_frame(msg: &str) -> (frame: String)
    ensures
        frame@ == message_frame_spec(msg@),
        frame@ == "event: message\ndata: "@ + msg@ + "\n\n"@,
{
    let mut frame = String::from_str("event: message\ndata: ");
    frame.append(msg);
    frame.append("\n\n");
    frame
}

} // verus!

verus! {

/// A message frame gives back the message it carries: the text between the
/// fixed prefix and the closing blank line.
pub proof fn lemma_message_frame_recovers_message(msg: Seq<char>)
    ensures
        message_frame_spec(msg).subrange(
            message_prefix().len() as int,
            message_frame_spec(msg).len() - frame_end().len(),
        ) == msg,
        message_frame_spec(msg).len() == message_prefix().len() + msg.len() + frame_end().len(),
{
    let frame = message_frame_spec(msg);
    assert(frame.subrange(message_prefix().len() as int, frame.len() - frame_end().len()) =~= msg);
}

/// Different messages travel in different frames.
pub proof fn lemma_message_frame_injective(a: Seq<char>, b: Seq<char>)
    ensures
        message_frame_spec(a) == message_frame_spec(b) ==> a == b,
{
    lemma_message_frame_recovers_message(a);
    lemma_message_frame_recovers_message(b);
}

/// A client can tell the three kinds of frame apart: a message frame is
/// neither a greeting nor a ping, whatever it carries.
pub proof fn lemma_message_frame_is_not_control(msg: Seq<char>)
    ensures
        message_frame_spec(msg) != connected_frame_spec(),
        message_frame_spec(msg) != ping_frame_spec(),
        connected_frame_spec() != ping_frame_spec(),
{
    reveal_strlit("event: message\ndata: ");
    reveal_strlit("event: connected\ndata: connected\n\n");
    reveal_strlit("event: ping\ndata: ping\n\n");
    reveal_strlit("\n\n");
    let frame = message_frame_spec(msg);
    assert(frame[7] == 'm');
    assert(connected_frame_spec()[7] == 'c');
    assert(ping_frame_spec()[7] == 'p');
}

} // verus!

verus! {

/// Every message frame is the literal `event: message` header line, a
/// `data: ` line carrying the message, and a blank line: its first 21
/// characters are the same whatever the message is.
pub proof fn lemma_message_frame_is_the_message_event(msg: Seq<char>)
    ensures
        message_frame_spec(msg) == "event: message\ndata: "@ + msg + "\n\n"@,
        message_frame_spec(msg).len() == 21 + msg.len() + 2,
        message_frame_spec(msg).subrange(0, 21) == "event: message\ndata: "@,
        message_frame_spec(msg).subrange(21, 21 + msg.len() as int) == msg,
{
    reveal_strlit("event: message\ndata: ");
    reveal_strlit("\n\n");
    let frame = message_frame_spec(msg);
    assert(frame.subrange(0, 21) =~= "event: message\ndata: "@);
    assert(frame.subrange(21, 21 + msg.len() as int) =~= msg);
}

} // verus!
