//! The file reader: a channel of file contents, fed by a worker that reads
//! each file the directory watcher reports.
//!
//! The worker itself (receiving paths, opening and reading files) is I/O and
//! runs outside the library; the reader only owns the channel and hands the
//! worker its ends.

use vstd::prelude::*;
use std::sync::mpsc::{Receiver, Sender};

verus! {

#[verifier::external_type_specification]
#[verifier::external_body]
#[verifier::reject_recursive_types(T)]
pub struct ExStdSender<T>(std::sync::mpsc::Sender<T>);

#[verifier::external_type_specification]
#[verifier::external_body]
#[verifier::reject_recursive_types(T)]
pub struct ExStdReceiver<T>(std::sync::mpsc::Receiver<T>);

/// The channel a sending half of texts feeds. Two halves with the same value
/// belong to one channel; a half stays with the channel it was made for.
pub uninterp spec fn content_sender_channel(tx: Sender<String>) -> int;

/// The channel a receiving half of texts drains.
pub uninterp spec fn content_receiver_channel(rx: Receiver<String>) -> int;

/// Opens an unbounded channel of texts with `std::sync::mpsc::channel`.
///
/// The two halves belong to one channel; what it holds is not claimed.
#[verifier::external_body]
fn content_channel() -> (halves: (Sender<String>, Receiver<String>))
    ensures
        content_sender_channel(halves.0) == content_receiver_channel(halves.1),
{
    std::sync::mpsc::channel()
}

/// Makes another sending half of the same channel with
/// `std::sync::mpsc::Sender::clone`, which std documents as a sender that
/// feeds the same channel.
#[verifier::external_body]
fn clone_content_sender(sender: &Sender<String>) -> (copy: Sender<String>)
    ensures
        content_sender_channel(copy) == content_sender_channel(*sender),
{
    sender.clone()
}

/// The contents of changed files, in the order the worker read them.
pub struct FileReader {
    /// The sending half the reader keeps of its own channel, so that the
    /// channel stays open while the reader lives.
    pub tx: Sender<String>,
    pub rx: Receiver<String>,
}

impl FileReader {
    /// A reader with a fresh content channel: it keeps a sending half of the
    /// channel that `rx` drains.
    pub fn new() -> (reader: Self)
        ensures
            content_sender_channel(reader.tx) == content_receiver_channel(reader.rx),
    {
        let (tx, rx) = content_channel();
        FileReader { tx, rx }
    }

    /// Builds a reader and starts its worker: `start_worker` is called once,
    /// with the watcher's path channel and a sending half of the channel that
    /// the reader's `rx` drains, and must launch the loop that reads each
    /// reported file into that channel. The reader keeps a sending half of
    /// that channel too.
    pub fn create<P, F>(directory_watcher_rx: Receiver<P>, start_worker: F) -> (reader: Self) where
        F: FnOnce(Receiver<P>, Sender<String>),

        requires
            forall|paths: Receiver<P>, contents: Sender<String>|
                #[trigger] start_worker.requires((paths, contents)),
        ensures
            content_sender_channel(reader.tx) == content_receiver_channel(reader.rx),
            exists|contents: Sender<String>|
                #[trigger] start_worker.ensures((directory_watcher_rx, contents), ())
                    && content_sender_channel(contents) == content_receiver_channel(reader.rx),
    {
        let me = FileReader::new();
        let sender = clone_content_sender(&me.tx);
        start_worker(directory_watcher_rx, sender);
        me
    }
}

} // verus!
