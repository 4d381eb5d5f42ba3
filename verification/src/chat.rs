//! Chat room state: the message log with id-based de-duplication and a
//! bounded backlog, the compose buffer, and the wire shapes of the chat
//! relay. The socket itself lives in the application shell.

use vstd::prelude::*;

use crate::clock::{now_clock_label, now_unix_nanos};
use crate::text::{sint_str, str_eq, trim_spaces, trimmed, i64_to_string};

verus! {

/// One displayed chat message.
#[derive(Debug, Clone, Default)]
pub struct ChatMessage {
    pub id: String,
    pub author: String,
    pub body: String,
    pub timestamp: String,
    pub is_system: bool,
}

/// A message queued for sending.
#[derive(Debug, Clone)]
pub struct OutboundChatMessage {
    pub id: String,
    pub body: String,
}

/// What the shell asks the chat socket to do.
#[derive(Debug, Clone)]
pub enum ChatCommand {
    Send { body: String, message_id: String },
}

/// What the chat socket reports back.
#[derive(Debug, Clone)]
pub enum ChatEvent {
    Connected,
    Disconnected,
    Message(ChatWireMessage),
    Error(String),
}

/// The relay's wire shape for one message.
#[derive(Debug, Clone)]
pub struct ChatWireMessage {
    pub id: String,
    pub room: String,
    pub author: String,
    pub body: String,
    pub timestamp: String,
}

/// How many messages the backlog keeps.
pub const CHAT_BACKLOG: usize = 200;

/// An id is among the seen ids.
pub open spec fn id_seen(seen: Seq<String>, id: Seq<char>) -> bool {
    exists|i: int| 0 <= i < seen.len() && (#[trigger] seen[i])@ == id
}

/// Chat room state.
#[derive(Debug)]
pub struct ChatState {
    pub messages: Vec<ChatMessage>,
    pub input: String,
    pub composing: bool,
    pub scroll_offset: u16,
    pub username: String,
    pub room: String,
    pub connected: bool,
    pub endpoint: String,
    /// Ids already displayed, for de-duplication.
    pub seen_ids: Vec<String>,
}

impl ChatState {
    /// The ids this room has already displayed.
    pub open spec fn seen(self) -> Seq<String> {
        self.seen_ids@
    }

    /// Fresh chat state for a user, room and relay endpoint, opening
    /// with one system notice.
    pub fn new(username: String, room: String, endpoint: String) -> (r: Self)
        ensures
            r.messages.len() == 1,
            r.messages@[0].is_system,
            r.messages@[0].id@ == "system-init"@,
            r.messages@[0].author@ == "system"@,
            r.messages@[0].body@ == "Chat starting... connecting to relay."@,
            r.input@.len() == 0,
            !r.composing,
            r.scroll_offset == 0,
            r.username == username,
            r.room == room,
            !r.connected,
            r.endpoint == endpoint,
            r.seen().len() == 0,
    {
        let mut messages: Vec<ChatMessage> = Vec::new();
        messages.push(
            ChatMessage {
                id: String::from_str("system-init"),
                author: String::from_str("system"),
                body: String::from_str("Chat starting... connecting to relay."),
                timestamp: now_clock_label(),
                is_system: true,
            },
        );
        ChatState {
            messages,
            input: String::new(),
            composing: false,
            scroll_offset: 0,
            username,
            room,
            connected: false,
            endpoint,
            seen_ids: Vec::new(),
        }
    }

    /// Submit the compose buffer: an empty (all-whitespace) buffer only
    /// closes the composer; otherwise the trimmed text goes out under a
    /// fresh "{username}-{nanos}" id and is echoed into the log.
    pub fn submit_input(&mut self) -> (r: Option<OutboundChatMessage>)
        ensures
            final(self).composing == false,
            final(self).input@.len() == 0,
            trimmed(old(self).input@).len() == 0 <==> r is None,
            r is None ==> {
                &&& final(self).messages == old(self).messages
                &&& final(self).seen() == old(self).seen()
                &&& final(self).scroll_offset == old(self).scroll_offset
            },
            r matches Some(out) ==> {
                &&& out.body@ == trimmed(old(self).input@)
                &&& (exists|n: int| out.id@ == old(self).username@ + "-"@ + sint_str(n))
                &&& final(self).scroll_offset == 0
                &&& ingest_shape(
                    *old(self),
                    *final(self),
                    out.id@,
                    old(self).username@,
                    out.body@,
                    false,
                )
            },
            final(self).username == old(self).username,
            final(self).room == old(self).room,
            final(self).connected == old(self).connected,
            final(self).endpoint == old(self).endpoint,
    {
        let msg = trim_spaces(self.input.as_str());
        if msg.as_str().is_empty() {
            self.composing = false;
            self.input = String::new();
            return None;
        }
        let nanos = now_unix_nanos();
        let id = self.username.clone().concat("-").concat(i64_to_string(nanos).as_str());
        let body = msg;
        let message = OutboundChatMessage { id: id.clone(), body: body.clone() };
        self.ingest_message(
            ChatMessage {
                id,
                author: self.username.clone(),
                body,
                timestamp: now_clock_label(),
                is_system: false,
            },
        );
        self.scroll_offset = 0;
        self.composing = false;
        self.input = String::new();
        Some(message)
    }

    /// Absorb one message: drop it when its non-empty id was already
    /// seen; otherwise record the id, append the message, and trim the
    /// backlog to its bound.
    #[verifier::loop_isolation(false)]
    pub fn ingest_message(&mut self, msg: ChatMessage)
        ensures
            msg.id@.len() > 0 && id_seen(old(self).seen(), msg.id@) ==> *final(self) == *old(
                self,
            ),
            !(msg.id@.len() > 0 && id_seen(old(self).seen(), msg.id@)) ==> {
                &&& final(self).seen() == if msg.id@.len() > 0 {
                    old(self).seen().push(msg.id)
                } else {
                    old(self).seen()
                }
                &&& final(self).messages@ == if old(self).messages@.len() + 1 > CHAT_BACKLOG {
                    old(self).messages@.push(msg).skip(
                        old(self).messages@.len() + 1 - CHAT_BACKLOG,
                    )
                } else {
                    old(self).messages@.push(msg)
                }
                &&& final(self).input == old(self).input
                &&& final(self).composing == old(self).composing
                &&& final(self).scroll_offset == old(self).scroll_offset
                &&& final(self).username == old(self).username
                &&& final(self).room == old(self).room
                &&& final(self).connected == old(self).connected
                &&& final(self).endpoint == old(self).endpoint
            },
    {
        if !msg.id.as_str().is_empty() {
            let mut i: usize = 0;
            while i < self.seen_ids.len()
                invariant
                    i <= self.seen_ids.len(),
                    forall|k: int| 0 <= k < i ==> (#[trigger] self.seen_ids@[k])@ != msg.id@,
                decreases self.seen_ids.len() - i,
            {
                if str_eq(self.seen_ids[i].as_str(), msg.id.as_str()) {
                    proof {
                        assert((self.seen_ids@[i as int])@ == msg.id@);
                    }
                    return ;
                }
                i += 1;
            }
            self.seen_ids.push(msg.id.clone());
        }
        self.messages.push(msg);
        let n = self.messages.len();
        let ghost full = self.messages@;
        let ghost frozen = *self;
        proof {
            assert(full.skip(0) =~= full);
        }
        let mut dropped: usize = 0;
        while self.messages.len() > CHAT_BACKLOG
            invariant
                n == full.len(),
                self.messages@ == full.skip(dropped as int),
                dropped <= full.len(),
                dropped > 0 ==> full.len() - (dropped - 1) > CHAT_BACKLOG,
                self.seen_ids == frozen.seen_ids,
                self.input == frozen.input,
                self.composing == frozen.composing,
                self.scroll_offset == frozen.scroll_offset,
                self.username == frozen.username,
                self.room == frozen.room,
                self.connected == frozen.connected,
                self.endpoint == frozen.endpoint,
            decreases self.messages.len(),
        {
            self.messages.remove(0);
            proof {
                assert(full.skip(dropped as int).remove(0) =~= full.skip(dropped + 1));
            }
            dropped += 1;
        }
        proof {
            if full.len() > CHAT_BACKLOG {
                assert(dropped > 0);
                assert(full.len() - dropped == CHAT_BACKLOG);
            } else {
                assert(dropped == 0) by {
                    if dropped > 0 {
                        assert(full.len() - (dropped - 1) > CHAT_BACKLOG);
                    }
                }
            }
        }
    }

    /// Post a system notice, unless it would repeat the latest one.
    pub fn push_system(&mut self, body: String)
        ensures
            (old(self).messages.len() > 0 && old(self).messages@.last().is_system && old(
                self,
            ).messages@.last().body@ == body@) ==> *final(self) == *old(self),
            !(old(self).messages.len() > 0 && old(self).messages@.last().is_system && old(
                self,
            ).messages@.last().body@ == body@) ==> {
                &&& final(self).messages@.len() == old(self).messages@.len() + 1
                &&& final(self).messages@.drop_last() == old(self).messages@
                &&& final(self).messages@.last().is_system
                &&& final(self).messages@.last().author@ == "system"@
                &&& final(self).messages@.last().body@ == body@
                &&& (exists|n: int|
                    final(self).messages@.last().id@ == "system-"@ + sint_str(n))
                &&& final(self).seen() == old(self).seen()
                &&& final(self).input == old(self).input
                &&& final(self).composing == old(self).composing
                &&& final(self).scroll_offset == old(self).scroll_offset
                &&& final(self).username == old(self).username
                &&& final(self).room == old(self).room
                &&& final(self).connected == old(self).connected
                &&& final(self).endpoint == old(self).endpoint
            },
    {
        if self.messages.len() > 0 {
            let last = &self.messages[self.messages.len() - 1];
            if last.is_system && str_eq(last.body.as_str(), body.as_str()) {
                return ;
            }
        }
        let millis = now_unix_nanos() / 1000000;
        let id = String::from_str("system-").concat(i64_to_string(millis).as_str());
        let ghost before = self.messages@;
        self.messages.push(
            ChatMessage {
                id,
                author: String::from_str("system"),
                body,
                timestamp: now_clock_label(),
                is_system: true,
            },
        );
        proof {
            assert(self.messages@.drop_last() =~= before);
        }
    }
}

/// One echo step of the log: the new state relates to the old as one
/// `ingest_message` of a non-system message with these fields.
pub open spec fn ingest_shape(
    pre: ChatState,
    post: ChatState,
    id: Seq<char>,
    author: Seq<char>,
    body: Seq<char>,
    is_system: bool,
) -> bool {
    if id.len() > 0 && id_seen(pre.seen(), id) {
        post.messages == pre.messages && post.seen() == pre.seen()
    } else {
        &&& post.seen().len() == if id.len() > 0 {
            pre.seen().len() + 1
        } else {
            pre.seen().len() + 0
        }
        &&& post.messages@.len() == if pre.messages@.len() + 1 > CHAT_BACKLOG {
            CHAT_BACKLOG as int
        } else {
            (pre.messages@.len() + 1) as int
        }
        &&& post.messages@.len() > 0
        &&& post.messages@.last().id@ == id
        &&& post.messages@.last().author@ == author
        &&& post.messages@.last().body@ == body
        &&& post.messages@.last().is_system == is_system
    }
}

} // verus!
