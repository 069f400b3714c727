//! Decisions of the directory watch loop: which watcher notifications turn
//! into a broadcast message, and what that message says.

use vstd::prelude::*;

verus! {

/// The file operation a notification reports.
pub enum FileOp {
    /// A file opened for writing was closed: its new content is complete.
    CloseWrite,
    /// Any other operation.
    Other,
}

/// One turn of the watch loop, as the loop received it.
pub enum WatchEvent {
    /// A notification: the operation, or the watcher's error text in its
    /// place, and the text of the path it concerns, where it has one.
    Notified { op: Result<FileOp, String>, path: Option<String> },
    /// Receiving from the watcher failed; the text of the receive error.
    ReceiveFailed(String),
}

/// The message a watch event is broadcast as, if any: a completed write
/// broadcasts its path, a failed receive broadcasts the error, and everything
/// else is ignored.
pub open spec fn watch_message_spec(event: WatchEvent) -> Option<Seq<char>> {
    match event {
        WatchEvent::Notified { op: Ok(FileOp::CloseWrite), path: Some(p) } => Some(p@),
        WatchEvent::Notified { .. } => None,
        WatchEvent::ReceiveFailed(e) => Some(e@),
    }
}

/// A completed write that names no path: the watch loop cannot report it.
pub open spec fn is_pathless_close_write(event: WatchEvent) -> bool {
    event matches WatchEvent::Notified { op: Ok(FileOp::CloseWrite), path: None }
}

/// Decides what the watch loop broadcasts for `event`.
pub fn watch_message(event: &WatchEvent) -> (msg: Option<String>)
    requires
        !is_pathless_close_write(*event),
    ensures
        msg is Some <==> watch_message_spec(*event) is Some,
        msg is Some ==> msg->0@ == watch_message_spec(*event)->0,
        (*event matches WatchEvent::Notified { op, .. } && !(op matches Ok(FileOp::CloseWrite)))
            ==> msg is None,
        *event matches WatchEvent::Notified { op: Ok(FileOp::CloseWrite), path: Some(p) }
            ==> (msg is Some && msg->0@ == p@),
        *event matches WatchEvent::ReceiveFailed(e) ==> (msg is Some && msg->0@ == e@),
{
    match event {
        WatchEvent::Notified { op, path } => match op {
            Ok(FileOp::CloseWrite) => match path {
                Some(p) => Some(p.clone()),
                None => None,
            },
            _ => None,
        },
        WatchEvent::ReceiveFailed(e) => Some(e.clone()),
    }
}

} // verus!

verus! {

/// Only a completed write, or a failed receive, is broadcast: a notification
/// of any other operation, or a watcher error, is never broadcast, whatever
/// path it names; a completed write is broadcast as exactly its path.
pub proof fn lemma_only_completed_writes_are_broadcast(op: Result<FileOp, String>, path: Option<String>)
    ensures
        !(op matches Ok(FileOp::CloseWrite)) ==> watch_message_spec(WatchEvent::Notified { op, path }) is None,
        (op matches Ok(FileOp::CloseWrite)) && (path matches Some(p)) ==> watch_message_spec(
            WatchEvent::Notified { op, path },
        ) == Some(path->0@),
{
}

/// A failed receive is broadcast as its error text.
pub proof fn lemma_receive_failures_are_broadcast(error: String)
    ensures
        watch_message_spec(WatchEvent::ReceiveFailed(error)) == Some(error@),
{
}

} // verus!
