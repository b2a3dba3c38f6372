//! The state behind the window, and how it answers to what happens.
//!
//! The window loop is not here. It hands each happening to `update` as a
//! `Message`, carries out the `Command` that comes back, and reports the
//! outcome of that work as the next `Message`.

use vstd::prelude::*;
use vstd::string::*;
use crate::error::HashError;

verus! {

/// What the window shows: the digest line and the error line.
#[derive(Clone, Debug, PartialEq, Eq)]
pub struct Hashstar {
    pub digest: String,
    pub err: String,
}

/// Something that happened and that the state has to answer.
#[derive(Debug, PartialEq, Eq)]
pub enum Message {
    /// A file was dropped onto the window; the path is the file's.
    FileDropped(String),
    /// The hash request for the last dropped file came back.
    HashFinished(Result<String, HashError>),
    /// The copy button was pressed.
    CopyDigest,
    /// The clipboard refused the text; the string says why.
    CopyFailed(String),
    /// Any other window event.
    Ignored,
}

/// Work that the window loop has to carry out.
#[derive(Clone, Debug, PartialEq, Eq)]
pub enum Command {
    /// Nothing to do.
    Idle,
    /// Hash the file at this path and report with `Message::HashFinished`.
    HashFile(String),
    /// Put this text on the clipboard; report a failure with
    /// `Message::CopyFailed`.
    CopyToClipboard(String),
}

/// The digest line of a window onto which nothing has been dropped yet.
pub open spec fn prompt() -> Seq<char> {
    "Drag a file to calculate it's digest!"@
}

/// The window's title.
pub open spec fn title_text() -> Seq<char> {
    "Hashstar"@
}

impl Hashstar {
    /// The state of a fresh window: the prompt on the digest line, no
    /// error, and nothing to do.
    pub fn new() -> (r: (Hashstar, Command))
        ensures
            r.0.digest@ == prompt(),
            r.0.err@ == Seq::<char>::empty(),
            r.1 == Command::Idle,
    {
        let hashstar = Hashstar {
            digest: String::from_str("Drag a file to calculate it's digest!"),
            err: String::new(),
        };
        (hashstar, Command::Idle)
    }

    /// The window's title.
    pub fn title(&self) -> (s: String)
        ensures
            s@ == title_text(),
    {
        String::from_str("Hashstar")
    }

    /// Answers one message.
    ///
    /// A dropped file asks for a hash of that path and leaves the display
    /// alone until the result is in. A digest replaces the digest line and
    /// clears the error line; a failure clears the digest line and shows
    /// its diagnostic, so the display always belongs to the last request.
    /// The copy button asks for the digest line to be put on the clipboard;
    /// a refusal by the clipboard lands on the error line. Nothing here
    /// ends the program.
    pub fn update(&mut self, message: Message) -> (command: Command)
        ensures
            match message {
                Message::FileDropped(path) => {
                    &&& *final(self) == *old(self)
                    &&& command == Command::HashFile(path)
                },
                Message::HashFinished(Ok(hex)) => {
                    &&& final(self).digest == hex
                    &&& final(self).err@ == Seq::<char>::empty()
                    &&& command == Command::Idle
                },
                Message::HashFinished(Err(e)) => {
                    &&& final(self).digest@ == Seq::<char>::empty()
                    &&& final(self).err@ == e.diagnostic()
                    &&& command == Command::Idle
                },
                Message::CopyDigest => {
                    &&& *final(self) == *old(self)
                    &&& command == Command::CopyToClipboard(old(self).digest)
                },
                Message::CopyFailed(reason) => {
                    &&& final(self).digest == old(self).digest
                    &&& final(self).err == reason
                    &&& command == Command::Idle
                },
                Message::Ignored => {
                    &&& *final(self) == *old(self)
                    &&& command == Command::Idle
                },
            },
    {
        match message {
            Message::FileDropped(path) => Command::HashFile(path),
            Message::HashFinished(Ok(hex)) => {
                self.digest = hex;
                self.err = String::new();
                Command::Idle
            },
            Message::HashFinished(Err(e)) => {
                self.digest = String::new();
                self.err = e.describe();
                Command::Idle
            },
            Message::CopyDigest => Command::CopyToClipboard(self.digest.clone()),
            Message::CopyFailed(reason) => {
                self.err = reason;
                Command::Idle
            },
            Message::Ignored => Command::Idle,
        }
    }
}

} // verus!
