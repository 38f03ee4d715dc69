//! The shared configuration that the dispatcher executes commands against:
//! the active model, role and session, the option flags, and the message
//! history. The dispatcher owns the state and serves one command at a time,
//! so every mutation happens through a `&mut` method whose contract states
//! the exact change.

use crate::errors::ReplError;
use crate::text::find_space;
use crate::text::first_space;
use crate::text::str_eq;
use vstd::prelude::*;

verus! {

/// One exchange persisted to the history: the submitted input and the full
/// accumulated reply.
#[derive(Clone, Debug, PartialEq, Eq)]
pub struct Message {
    pub input: String,
    pub reply: String,
}

/// An active session, named or anonymous.
#[derive(Clone, Debug, PartialEq, Eq)]
pub struct Session {
    pub name: Option<String>,
}

/// The configuration state.
#[derive(Clone, Debug, PartialEq, Eq)]
pub struct Config {
    /// The model the next exchange is sent to.
    pub model: String,
    /// The model names the configuration accepts.
    pub models: Vec<String>,
    /// The role names the configuration accepts.
    pub roles: Vec<String>,
    /// The active role, if any.
    pub role: Option<String>,
    /// The active session, if any.
    pub session: Option<Session>,
    /// Whether a finished exchange's reply is copied to the clipboard.
    pub auto_copy: bool,
    /// Whether rendered output is highlighted.
    pub highlight: bool,
    /// Every exchange persisted so far, oldest first.
    pub messages: Vec<Message>,
    /// The most recently persisted exchange.
    pub last_message: Option<Message>,
    /// The token estimate of the last outgoing text the configuration was
    /// notified of.
    pub sent_tokens: Option<usize>,
}

/// Whether some entry of `v` reads `s`.
pub open spec fn has_name(v: Seq<String>, s: Seq<char>) -> bool {
    exists|i: int| 0 <= i < v.len() && v[i]@ == s
}

/// The text shown for an optional name.
pub open spec fn opt_name_text(o: Option<String>) -> Seq<char> {
    match o {
        Some(s) => s@,
        None => "-"@,
    }
}

pub open spec fn bool_text(b: bool) -> Seq<char> {
    if b {
        "true"@
    } else {
        "false"@
    }
}

/// The formatted info string of a configuration.
pub open spec fn info_text(c: Config) -> Seq<char> {
    "model: "@ + c.model@ + "\nrole: "@ + opt_name_text(c.role) + "\nsession: "@ + (match c.session {
        Some(s) => opt_name_text(s.name),
        None => "-"@,
    }) + "\nauto_copy: "@ + bool_text(c.auto_copy) + "\nhighlight: "@ + bool_text(c.highlight)
}

/// The key of a `key value` pair handed to `update`.
pub open spec fn set_key(raw: Seq<char>) -> Seq<char> {
    raw.subrange(0, first_space(raw))
}

/// The value of a `key value` pair handed to `update`.
pub open spec fn set_value(raw: Seq<char>) -> Seq<char> {
    raw.subrange(first_space(raw) + 1, raw.len() as int)
}

/// What `update` does: parse `raw` as `key value`, recognise the keys
/// `auto_copy` and `highlight` with the values `true` and `false`, reject
/// anything else without touching the configuration.
pub open spec fn update_post(pre: Config, raw: Seq<char>, post: Config, r: Result<
    (),
    ReplError,
>) -> bool {
    if first_space(raw) < 0 {
        &&& post == pre
        &&& r matches Err(e) && e matches ReplError::InvalidValue(v) && v@ == raw
    } else {
        let k = set_key(raw);
        let v = set_value(raw);
        if k == "auto_copy"@ && v == "true"@ {
            post == (Config { auto_copy: true, ..pre }) && r is Ok
        } else if k == "auto_copy"@ && v == "false"@ {
            post == (Config { auto_copy: false, ..pre }) && r is Ok
        } else if k == "auto_copy"@ {
            &&& post == pre
            &&& r matches Err(e) && e matches ReplError::InvalidValue(val) && val@ == v
        } else if k == "highlight"@ && v == "true"@ {
            post == (Config { highlight: true, ..pre }) && r is Ok
        } else if k == "highlight"@ && v == "false"@ {
            post == (Config { highlight: false, ..pre }) && r is Ok
        } else if k == "highlight"@ {
            &&& post == pre
            &&& r matches Err(e) && e matches ReplError::InvalidValue(val) && val@ == v
        } else {
            &&& post == pre
            &&& r matches Err(e) && e matches ReplError::UnknownKey(key) && key@ == k
        }
    }
}

/// What `save_message` does: append the exchange to the history and record
/// it as the last message, touching nothing else.
pub open spec fn save_post(pre: Config, input: Seq<char>, reply: Seq<char>, post: Config) -> bool {
    &&& post.messages@.len() == pre.messages@.len() + 1
    &&& post.messages@.subrange(0, pre.messages@.len() as int) == pre.messages@
    &&& post.messages@.last().input@ == input
    &&& post.messages@.last().reply@ == reply
    &&& post.last_message matches Some(m) && m.input@ == input && m.reply@ == reply
    &&& post == (Config {
        messages: post.messages,
        last_message: post.last_message,
        ..pre
    })
}

/// Whether some entry of `v` reads `name`.
fn contains_name(v: &Vec<String>, name: &String) -> (b: bool)
    ensures
        b == has_name(v@, name@),
{
    let mut j: usize = 0;
    while j < v.len()
        invariant
            0 <= j <= v@.len(),
            forall|k: int| 0 <= k < j ==> v@[k]@ != name@,
        decreases v@.len() - j,
    {
        if v[j] == *name {
            return true;
        }
        j = j + 1;
    }
    false
}

impl Config {
    /// A fresh configuration: the given model active, no role, no session,
    /// both option flags off, empty history.
    pub fn new(model: String, models: Vec<String>, roles: Vec<String>) -> (c: Config)
        ensures
            c.model == model,
            c.models == models,
            c.roles == roles,
            c.role is None,
            c.session is None,
            !c.auto_copy,
            !c.highlight,
            c.messages@ == Seq::<Message>::empty(),
            c.last_message is None,
            c.sent_tokens is None,
    {
        Config {
            model,
            models,
            roles,
            role: None,
            session: None,
            auto_copy: false,
            highlight: false,
            messages: Vec::new(),
            last_message: None,
            sent_tokens: None,
        }
    }

    /// Record the token estimate for an outgoing text: its length in
    /// characters.
    pub fn note_send_tokens(&mut self, input: &str)
        ensures
            final(self).sent_tokens matches Some(n) && n as nat == input@.len(),
            *final(self) == (Config { sent_tokens: final(self).sent_tokens, ..*old(self) }),
    {
        let n: usize = input.unicode_len();
        self.sent_tokens = Some(n);
    }

    /// Make `name` the active model, or reject an unknown name unchanged.
    pub fn set_model(&mut self, name: &String) -> (r: Result<(), ReplError>)
        ensures
            has_name(old(self).models@, name@) ==> {
                &&& r is Ok
                &&& final(self).model@ == name@
                &&& *final(self) == (Config { model: final(self).model, ..*old(self) })
            },
            !has_name(old(self).models@, name@) ==> {
                &&& *final(self) == *old(self)
                &&& r matches Err(e) && e matches ReplError::UnknownModel(m) && m@ == name@
            },
    {
        if contains_name(&self.models, name) {
            self.model = name.clone();
            Ok(())
        } else {
            Err(ReplError::UnknownModel(name.clone()))
        }
    }

    /// Make `name` the active role, or reject an unknown name unchanged.
    pub fn set_role(&mut self, name: &String) -> (r: Result<(), ReplError>)
        ensures
            has_name(old(self).roles@, name@) ==> {
                &&& r is Ok
                &&& final(self).role matches Some(n) && n@ == name@
                &&& *final(self) == (Config { role: final(self).role, ..*old(self) })
            },
            !has_name(old(self).roles@, name@) ==> {
                &&& *final(self) == *old(self)
                &&& r matches Err(e) && e matches ReplError::UnknownRole(m) && m@ == name@
            },
    {
        if contains_name(&self.roles, name) {
            self.role = Some(name.clone());
            Ok(())
        } else {
            Err(ReplError::UnknownRole(name.clone()))
        }
    }

    /// Clear the active role. Clearing an already clear role is no failure.
    pub fn clear_role(&mut self) -> (r: Result<(), ReplError>)
        ensures
            r is Ok,
            final(self).role is None,
            *final(self) == (Config { role: None, ..*old(self) }),
    {
        self.role = None;
        Ok(())
    }

    /// Begin a session under the optional name, or reject the start while
    /// another session is active.
    pub fn start_session(&mut self, name: Option<String>) -> (r: Result<(), ReplError>)
        ensures
            old(self).session is Some ==> {
                &&& *final(self) == *old(self)
                &&& r == Err::<(), ReplError>(ReplError::SessionAlreadyActive)
            },
            old(self).session is None ==> {
                &&& r is Ok
                &&& final(self).session matches Some(s) && s.name == name
                &&& *final(self) == (Config { session: final(self).session, ..*old(self) })
            },
    {
        if self.session.is_some() {
            return Err(ReplError::SessionAlreadyActive);
        }
        self.session = Some(Session { name });
        Ok(())
    }

    /// End the active session, or reject the end while none is active.
    pub fn end_session(&mut self) -> (r: Result<(), ReplError>)
        ensures
            old(self).session is None ==> {
                &&& *final(self) == *old(self)
                &&& r == Err::<(), ReplError>(ReplError::NoSession)
            },
            old(self).session is Some ==> {
                &&& r is Ok
                &&& final(self).session is None
                &&& *final(self) == (Config { session: None, ..*old(self) })
            },
    {
        if self.session.is_none() {
            return Err(ReplError::NoSession);
        }
        self.session = None;
        Ok(())
    }

    /// Apply a `key value` text to the configuration.
    pub fn update(&mut self, raw: &str) -> (r: Result<(), ReplError>)
        ensures
            update_post(*old(self), raw@, *final(self), r),
    {
        let n: usize = raw.unicode_len();
        match find_space(raw) {
            None => Err(ReplError::InvalidValue(raw.to_owned())),
            Some(i) => {
                proof {
                    crate::text::lemma_first_space_bounds(raw@);
                }
                let key = raw.substring_char(0, i);
                let value = raw.substring_char(i + 1, n);
                if str_eq(key, "auto_copy") {
                    if str_eq(value, "true") {
                        self.auto_copy = true;
                        Ok(())
                    } else if str_eq(value, "false") {
                        self.auto_copy = false;
                        Ok(())
                    } else {
                        Err(ReplError::InvalidValue(value.to_owned()))
                    }
                } else if str_eq(key, "highlight") {
                    if str_eq(value, "true") {
                        self.highlight = true;
                        Ok(())
                    } else if str_eq(value, "false") {
                        self.highlight = false;
                        Ok(())
                    } else {
                        Err(ReplError::InvalidValue(value.to_owned()))
                    }
                } else {
                    Err(ReplError::UnknownKey(key.to_owned()))
                }
            },
        }
    }

    /// Persist one finished exchange into the message history.
    pub fn save_message(&mut self, input: &str, reply: &str) -> (r: Result<(), ReplError>)
        ensures
            r is Ok,
            save_post(*old(self), input@, reply@, *final(self)),
    {
        let entry = Message { input: input.to_owned(), reply: reply.to_owned() };
        self.messages.push(entry);
        let last = Message { input: input.to_owned(), reply: reply.to_owned() };
        self.last_message = Some(last);
        proof {
            assert(self.messages@.subrange(0, old(self).messages@.len() as int) =~= old(
                self,
            ).messages@);
        }
        Ok(())
    }

    /// The formatted info string: model, role, session and the option flags,
    /// one per line.
    pub fn info(&self) -> (r: Result<String, ReplError>)
        ensures
            r matches Ok(s) && s@ == info_text(*self),
    {
        let mut s = String::from_str("model: ");
        s.append(self.model.as_str());
        s.append("\nrole: ");
        match &self.role {
            Some(n) => s.append(n.as_str()),
            None => s.append("-"),
        };
        s.append("\nsession: ");
        match &self.session {
            Some(ses) => match &ses.name {
                Some(n) => s.append(n.as_str()),
                None => s.append("-"),
            },
            None => s.append("-"),
        };
        s.append("\nauto_copy: ");
        if self.auto_copy {
            s.append("true");
        } else {
            s.append("false");
        }
        s.append("\nhighlight: ");
        if self.highlight {
            s.append("true");
        } else {
            s.append("false");
        }
        Ok(s)
    }
}

impl Session {
    /// The rendered form of the session, as the `SessionInfo` command emits
    /// it.
    pub fn render(&self) -> (r: String)
        ensures
            r@ == "session: "@ + opt_name_text(self.name),
    {
        let mut s = String::from_str("session: ");
        match &self.name {
            Some(n) => s.append(n.as_str()),
            None => s.append("-"),
        };
        s
    }
}

/// The formatted info of an active role, as the `RoleInfo` command emits it.
pub fn role_info(name: &String) -> (r: String)
    ensures
        r@ == "role: "@ + name@,
{
    let mut s = String::from_str("role: ");
    s.append(name.as_str());
    s
}

} // verus!
