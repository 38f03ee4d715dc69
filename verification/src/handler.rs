//! The command dispatcher: it owns the configuration, interprets one REPL
//! command at a time against it, and performs exactly one externally
//! visible effect per command. Work that only the surrounding program can
//! do — running the streaming exchange, reading a file — is handed back to
//! the caller as an outcome value, and its result is dispatched through a
//! dedicated entry point.

use crate::abort::SharedAbortSignal;
use crate::clipboard::clipboard_new;
use crate::clipboard::clipboard_set_text;
use crate::clipboard::ClipboardState;
use crate::config::has_name;
use crate::config::info_text;
use crate::config::opt_name_text;
use crate::config::role_info;
use crate::config::save_post;
use crate::config::update_post;
use crate::config::Config;
use crate::errors::ReplError;
use crate::text::trim_end_text;
use crate::text::trim_end_ws;
use vstd::prelude::*;

verus! {

/// One REPL command, immutable once constructed.
#[derive(Debug, PartialEq, Eq)]
pub enum ReplCmd {
    /// Submit free text to the remote service.
    Submit(String),
    /// Emit the configuration's info string.
    Info,
    /// Emit the active role's info.
    RoleInfo,
    /// Emit the active session's rendered form.
    SessionInfo,
    /// Make the named model active.
    SetModel(String),
    /// Make the named role active.
    SetRole(String),
    /// Clear the active role.
    ExitRole,
    /// Begin a session under an optional name.
    StartSession(Option<String>),
    /// End the active session.
    ExitSession,
    /// Apply a `key value` text to the configuration.
    SetConfig(String),
    /// Copy the last stored reply to the clipboard.
    Copy,
    /// Read a file and submit its contents.
    ReadFile(String),
}

/// What a successfully handled command asks of the caller.
#[derive(Debug, PartialEq, Eq)]
pub enum HandleOutcome {
    /// The command is complete; print this text.
    Emitted(String),
    /// Run the streaming exchange for this input, then hand its result to
    /// `finish_submit`.
    Exchange(String),
    /// Read this file, then hand the result to `finish_read_file`.
    FileRequest(String),
}

/// How reading a requested file failed.
#[derive(Debug, PartialEq, Eq)]
pub enum FileFault {
    /// The file could not be opened; carries the underlying message.
    Open(String),
    /// The file could not be read as text; carries the underlying message.
    Read(String),
}

/// The dispatcher: the configuration it executes against, a handle to the
/// shared cancellation signal, the stored clipboard binding, and a ghost
/// record of every text handed to the clipboard.
pub struct ReplCmdHandler {
    pub config: Config,
    pub abort: SharedAbortSignal,
    pub clipboard: ClipboardState,
    pub copied: Ghost<Seq<Seq<char>>>,
}

/// The reply the `Copy` command copies: the last stored reply, or the empty
/// string when none has been stored.
pub open spec fn last_reply_text(c: Config) -> Seq<char> {
    match c.last_message {
        Some(m) => m.reply@,
        None => Seq::empty(),
    }
}

/// What `handle` does for each command, relating the dispatcher before and
/// after the call to the returned outcome.
pub open spec fn handle_post(
    pre: ReplCmdHandler,
    cmd: ReplCmd,
    post: ReplCmdHandler,
    r: Result<HandleOutcome, ReplError>,
) -> bool {
    &&& post.abort == pre.abort
    &&& match cmd {
        ReplCmd::Submit(input) => {
            if input@.len() == 0 {
                &&& post == pre
                &&& r matches Ok(HandleOutcome::Emitted(s)) && s@ == Seq::<char>::empty()
            } else {
                &&& post.config.sent_tokens matches Some(n) && n as nat == input@.len()
                &&& post.config == (Config { sent_tokens: post.config.sent_tokens, ..pre.config })
                &&& post.clipboard == pre.clipboard
                &&& post.copied == pre.copied
                &&& r matches Ok(HandleOutcome::Exchange(s)) && s == input
            }
        },
        ReplCmd::Info => {
            &&& post == pre
            &&& r matches Ok(HandleOutcome::Emitted(s)) && s@ == trim_end_text(
                info_text(pre.config),
            ) + "\n\n"@
        },
        ReplCmd::RoleInfo => match pre.config.role {
            Some(name) => {
                &&& post == pre
                &&& r matches Ok(HandleOutcome::Emitted(s)) && s@ == "role: "@ + name@ + "\n\n"@
            },
            None => {
                &&& post == pre
                &&& r == Err::<HandleOutcome, ReplError>(ReplError::NoRole)
            },
        },
        ReplCmd::SessionInfo => match pre.config.session {
            Some(ses) => {
                &&& post == pre
                &&& r matches Ok(HandleOutcome::Emitted(s)) && s@ == "session: "@ + opt_name_text(
                    ses.name,
                ) + "\n\n"@
            },
            None => {
                &&& post == pre
                &&& r == Err::<HandleOutcome, ReplError>(ReplError::NoSession)
            },
        },
        ReplCmd::SetModel(name) => {
            if has_name(pre.config.models@, name@) {
                &&& post.config.model@ == name@
                &&& post.config == (Config { model: post.config.model, ..pre.config })
                &&& post.clipboard == pre.clipboard
                &&& post.copied == pre.copied
                &&& r matches Ok(HandleOutcome::Emitted(s)) && s@ == "\n"@
            } else {
                &&& post == pre
                &&& r matches Err(e) && e matches ReplError::UnknownModel(m) && m@ == name@
            }
        },
        ReplCmd::SetRole(name) => {
            if has_name(pre.config.roles@, name@) {
                &&& post.config.role matches Some(n) && n@ == name@
                &&& post.config == (Config { role: post.config.role, ..pre.config })
                &&& post.clipboard == pre.clipboard
                &&& post.copied == pre.copied
                &&& r matches Ok(HandleOutcome::Emitted(s)) && s@ == "\n"@
            } else {
                &&& post == pre
                &&& r matches Err(e) && e matches ReplError::UnknownRole(m) && m@ == name@
            }
        },
        ReplCmd::ExitRole => {
            &&& post.config == (Config { role: None, ..pre.config })
            &&& post.clipboard == pre.clipboard
            &&& post.copied == pre.copied
            &&& r matches Ok(HandleOutcome::Emitted(s)) && s@ == "\n"@
        },
        ReplCmd::StartSession(name) => {
            if pre.config.session is Some {
                &&& post == pre
                &&& r == Err::<HandleOutcome, ReplError>(ReplError::SessionAlreadyActive)
            } else {
                &&& post.config.session matches Some(ses) && ses.name == name
                &&& post.config == (Config { session: post.config.session, ..pre.config })
                &&& post.clipboard == pre.clipboard
                &&& post.copied == pre.copied
                &&& r matches Ok(HandleOutcome::Emitted(s)) && s@ == "\n"@
            }
        },
        ReplCmd::ExitSession => {
            if pre.config.session is None {
                &&& post == pre
                &&& r == Err::<HandleOutcome, ReplError>(ReplError::NoSession)
            } else {
                &&& post.config == (Config { session: None, ..pre.config })
                &&& post.clipboard == pre.clipboard
                &&& post.copied == pre.copied
                &&& r matches Ok(HandleOutcome::Emitted(s)) && s@ == "\n"@
            }
        },
        ReplCmd::SetConfig(raw) => {
            &&& post.clipboard == pre.clipboard
            &&& post.copied == pre.copied
            &&& (r matches Ok(o) ==> o matches HandleOutcome::Emitted(s) && s@ == "\n"@
                && update_post(pre.config, raw@, post.config, Ok(())))
            &&& (r matches Err(e) ==> post == pre && update_post(
                pre.config,
                raw@,
                post.config,
                Err(e),
            ))
        },
        ReplCmd::Copy => {
            &&& post.config == pre.config
            &&& match pre.clipboard {
                ClipboardState::Unavailable(m) => {
                    &&& post == pre
                    &&& r matches Err(e) && e matches ReplError::CopyFailed(em) && em@ == m@
                },
                ClipboardState::Ready(_) => {
                    &&& post.copied@ == pre.copied@.push(last_reply_text(pre.config))
                    &&& (r matches Ok(o) ==> o matches HandleOutcome::Emitted(s) && s@ == "\n"@)
                    &&& (r matches Err(e) ==> e matches ReplError::CopyFailed(_))
                },
            }
        },
        ReplCmd::ReadFile(path) => {
            &&& post == pre
            &&& r matches Ok(HandleOutcome::FileRequest(p)) && p == path
        },
    }
}

impl ReplCmdHandler {
    /// A dispatcher over the given configuration and cancellation signal.
    /// The clipboard binding is opened once, here; a failure to open it is
    /// stored and surfaces only when a copy is attempted.
    pub fn init(config: Config, abort: SharedAbortSignal) -> (r: Result<ReplCmdHandler, ReplError>)
        ensures
            r matches Ok(h) && h.config == config && h.abort == abort && h.copied@ == Seq::<
                Seq<char>,
            >::empty(),
    {
        let clipboard = match clipboard_new() {
            Ok(c) => ClipboardState::Ready(c),
            Err(m) => ClipboardState::Unavailable(m),
        };
        Ok(ReplCmdHandler { config, abort, clipboard, copied: Ghost(Seq::empty()) })
    }

    /// A dispatcher with the clipboard binding state supplied by the
    /// caller instead of opened here.
    pub fn with_clipboard(
        config: Config,
        abort: SharedAbortSignal,
        clipboard: ClipboardState,
    ) -> (h: ReplCmdHandler)
        ensures
            h.config == config,
            h.abort == abort,
            h.clipboard == clipboard,
            h.copied@ == Seq::<Seq<char>>::empty(),
    {
        ReplCmdHandler { config, abort, clipboard, copied: Ghost(Seq::empty()) }
    }

    /// Execute one command against the configuration. An empty submission
    /// is a no-op, not an error. A `Submit` of non-empty text notifies the
    /// configuration of the token estimate and asks the caller to run the
    /// streaming exchange; `ReadFile` asks the caller to read the file.
    pub fn handle(&mut self, cmd: ReplCmd) -> (r: Result<HandleOutcome, ReplError>)
        ensures
            handle_post(*old(self), cmd, *final(self), r),
    {
        match cmd {
            ReplCmd::Submit(input) => {
                if input.as_str().is_empty() {
                    return Ok(HandleOutcome::Emitted(String::new()));
                }
                self.config.note_send_tokens(input.as_str());
                Ok(HandleOutcome::Exchange(input))
            },
            ReplCmd::Info => {
                let out = match self.config.info() {
                    Ok(s) => s,
                    Err(e) => {
                        return Err(e);
                    },
                };
                let trimmed = trim_end_ws(out.as_str());
                Ok(HandleOutcome::Emitted(trimmed.concat("\n\n")))
            },
            ReplCmd::RoleInfo => match &self.config.role {
                Some(name) => {
                    let s = role_info(name);
                    Ok(HandleOutcome::Emitted(s.concat("\n\n")))
                },
                None => Err(ReplError::NoRole),
            },
            ReplCmd::SessionInfo => match &self.config.session {
                Some(ses) => {
                    let s = ses.render();
                    Ok(HandleOutcome::Emitted(s.concat("\n\n")))
                },
                None => Err(ReplError::NoSession),
            },
            ReplCmd::SetModel(name) => match self.config.set_model(&name) {
                Ok(()) => Ok(HandleOutcome::Emitted(String::from_str("\n"))),
                Err(e) => Err(e),
            },
            ReplCmd::SetRole(name) => match self.config.set_role(&name) {
                Ok(()) => Ok(HandleOutcome::Emitted(String::from_str("\n"))),
                Err(e) => Err(e),
            },
            ReplCmd::ExitRole => match self.config.clear_role() {
                Ok(()) => Ok(HandleOutcome::Emitted(String::from_str("\n"))),
                Err(e) => Err(e),
            },
            ReplCmd::StartSession(name) => match self.config.start_session(name) {
                Ok(()) => Ok(HandleOutcome::Emitted(String::from_str("\n"))),
                Err(e) => Err(e),
            },
            ReplCmd::ExitSession => match self.config.end_session() {
                Ok(()) => Ok(HandleOutcome::Emitted(String::from_str("\n"))),
                Err(e) => Err(e),
            },
            ReplCmd::SetConfig(raw) => match self.config.update(raw.as_str()) {
                Ok(()) => Ok(HandleOutcome::Emitted(String::from_str("\n"))),
                Err(e) => Err(e),
            },
            ReplCmd::Copy => {
                let reply: String = match &self.config.last_message {
                    Some(m) => m.reply.clone(),
                    None => String::new(),
                };
                match self.copy(reply.as_str()) {
                    Ok(()) => Ok(HandleOutcome::Emitted(String::from_str("\n"))),
                    Err(m) => Err(ReplError::CopyFailed(m)),
                }
            },
            ReplCmd::ReadFile(path) => Ok(HandleOutcome::FileRequest(path)),
        }
    }

    /// Complete a `Submit` whose streaming exchange the caller has run: a
    /// failed exchange propagates unchanged; a finished one is persisted to
    /// the message history, and, when the auto-copy option is on, its reply
    /// is offered to the clipboard with any copy failure deliberately
    /// discarded.
    pub fn finish_submit(&mut self, input: &str, exchange: Result<String, String>) -> (r: Result<
        (),
        ReplError,
    >)
        ensures
            final(self).abort == old(self).abort,
            exchange matches Err(m) ==> {
                &&& *final(self) == *old(self)
                &&& r matches Err(e) && e matches ReplError::ExchangeFailed(em) && em == m
            },
            exchange matches Ok(buffer) ==> {
                &&& r is Ok
                &&& save_post(old(self).config, input@, buffer@, final(self).config)
                &&& (old(self).config.auto_copy && old(self).clipboard is Ready
                    ==> final(self).copied@ == old(self).copied@.push(buffer@))
                &&& (!(old(self).config.auto_copy && old(self).clipboard is Ready)
                    ==> final(self).copied@ == old(self).copied@)
            },
    {
        match exchange {
            Err(m) => Err(ReplError::ExchangeFailed(m)),
            Ok(buffer) => {
                match self.config.save_message(input, buffer.as_str()) {
                    Ok(()) => {},
                    Err(e) => {
                        return Err(e);
                    },
                }
                if self.config.auto_copy {
                    let _ = self.copy(buffer.as_str());
                }
                Ok(())
            },
        }
    }

    /// Complete a `ReadFile` whose file the caller has read: an open or
    /// read failure surfaces with its context and the configuration
    /// untouched — the contents are never submitted; contents read
    /// successfully are dispatched as a `Submit` command, whose result
    /// propagates unchanged.
    pub fn finish_read_file(&mut self, read: Result<String, FileFault>) -> (r: Result<
        HandleOutcome,
        ReplError,
    >)
        ensures
            read matches Err(FileFault::Open(m)) ==> {
                &&& *final(self) == *old(self)
                &&& r matches Err(e) && e matches ReplError::FileOpenFailed(em) && em == m
            },
            read matches Err(FileFault::Read(m)) ==> {
                &&& *final(self) == *old(self)
                &&& r matches Err(e) && e matches ReplError::FileReadFailed(em) && em == m
            },
            read matches Ok(contents) ==> handle_post(
                *old(self),
                ReplCmd::Submit(contents),
                *final(self),
                r,
            ),
    {
        match read {
            Err(FileFault::Open(m)) => Err(ReplError::FileOpenFailed(m)),
            Err(FileFault::Read(m)) => Err(ReplError::FileReadFailed(m)),
            Ok(contents) => self.handle(ReplCmd::Submit(contents)),
        }
    }

    /// Copy `text` to the clipboard: a stored construction failure
    /// surfaces as its message without an attempt; with a ready binding the
    /// text is handed to the clipboard and recorded in the ghost log.
    fn copy(&mut self, text: &str) -> (r: Result<(), String>)
        ensures
            final(self).config == old(self).config,
            final(self).abort == old(self).abort,
            old(self).clipboard matches ClipboardState::Unavailable(m) ==> {
                &&& *final(self) == *old(self)
                &&& r matches Err(e) && e@ == m@
            },
            old(self).clipboard matches ClipboardState::Ready(_) ==> {
                &&& final(self).copied@ == old(self).copied@.push(text@)
            },
    {
        match &mut self.clipboard {
            ClipboardState::Unavailable(m) => Err(m.clone()),
            ClipboardState::Ready(clip) => {
                let res = clipboard_set_text(clip, text);
                self.copied = Ghost(self.copied@.push(text@));
                res
            },
        }
    }
}

} // verus!
