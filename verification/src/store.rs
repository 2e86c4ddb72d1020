//! The room store: rooms keyed by identifier, each with its log.
//!
//! The store itself is a plain value. `fetch` reads through `&self`, so any
//! number of readers may run side by side; `append_and_fetch` takes
//! `&mut self`, so an append has the store to itself from its first step to
//! its last. Callers that share one store put it behind a readers-writer
//! lock; the order in which the lock admits the writers is the order of the
//! log.

use vstd::prelude::*;
use crate::laws::law_log_is_what_was_posted;
use crate::model::{appended, log_of, posted_to, replay, Append, Board, RoomId};
use crate::templates::ChatTemplate;

verus! {

/// One room as the store keeps it: its identifier and its messages in
/// arrival order.
struct Chat {
    id: String,
    messages: Vec<String>,
}

/// The rooms of a board. Its view is the map from each existing room's
/// identifier to that room's log; its history is the appends that brought it
/// there.
pub struct Chats {
    rooms: vstd::hash_map::StringHashMap<Chat>,
    admitted: Ghost<Seq<Append>>,
}

impl View for Chats {
    type V = Board;

    closed spec fn view(&self) -> Board {
        replay(self.admitted@)
    }
}

/// A copy of `log`, message for message.
fn copy_of(log: &Vec<String>) -> (copy: Vec<String>)
    ensures
        copy.deep_view() == log.deep_view(),
{
    log.clone()
}

impl Chats {
    /// The appends that the store has admitted since it was made, first to
    /// last.
    pub closed spec fn history(&self) -> Seq<Append> {
        self.admitted@
    }

    /// What the records hold, as a board.
    spec fn stored(self) -> Board {
        self.rooms@.map_values(|chat: Chat| chat.messages.deep_view())
    }

    /// The records hold exactly what the history posted, and every record
    /// carries the identifier that it is stored under.
    #[verifier::type_invariant]
    spec fn well_formed(self) -> bool {
        &&& self.stored() == replay(self.admitted@)
        &&& forall|room: RoomId| #[trigger]
            self.rooms@.contains_key(room) ==> self.rooms@[room].id@ == room
    }

    /// The store shows what its history posted: each room's log is the texts
    /// posted to that room, in the order in which they were admitted, and a
    /// room exists if and only if something was posted to it.
    pub proof fn lemma_view_is_replay(self, room: RoomId)
        ensures
            self@ == replay(self.history()),
            log_of(self@, room) == posted_to(self.history(), room),
            self@.contains_key(room) <==> posted_to(self.history(), room).len() > 0,
    {
        law_log_is_what_was_posted(self.history(), room);
    }

    /// A store without rooms and without history.
    pub fn new() -> (chats: Self)
        ensures
            chats@ == Board::empty(),
            chats.history() == Seq::<Append>::empty(),
    {
        let rooms = vstd::hash_map::StringHashMap::<Chat>::new();
        assert(rooms@.map_values(|chat: Chat| chat.messages.deep_view()) =~= Board::empty());
        Chats { rooms, admitted: Ghost(Seq::empty()) }
    }

    /// The log of room `id` as it stands, copied out: the texts posted to
    /// the room so far, in the order in which they were admitted. `None` for
    /// a room that nobody has posted to. The store is left as it was:
    /// looking a room up never creates it.
    pub fn fetch(&self, id: &str) -> (found: Option<Vec<String>>)
        ensures
            match found {
                Some(log) => self@.contains_key(id@) && log.deep_view() == self@[id@],
                None => !self@.contains_key(id@),
            },
            match found {
                Some(log) => posted_to(self.history(), id@).len() > 0 && log.deep_view()
                    == posted_to(self.history(), id@),
                None => posted_to(self.history(), id@).len() == 0,
            },
    {
        proof {
            use_type_invariant(self);
            law_log_is_what_was_posted(self.history(), id@);
        }
        match self.rooms.get(id) {
            Some(chat) => Some(copy_of(&chat.messages)),
            None => None,
        }
    }

    /// What the page of room `id` shows: the identifier, borrowed from the
    /// room's record, and a copy of the log; `None` for a room that nobody
    /// has posted to.
    pub fn chat_template<'a>(&'a self, id: &str) -> (page: Option<ChatTemplate<'a>>)
        ensures
            match page {
                Some(chat) => self@.contains_key(id@) && chat.id@ == id@
                    && chat.messages.deep_view() == self@[id@],
                None => !self@.contains_key(id@),
            },
    {
        proof {
            use_type_invariant(self);
        }
        match self.rooms.get(id) {
            Some(chat) => Some(
                ChatTemplate { id: chat.id.as_str(), messages: copy_of(&chat.messages) },
            ),
            None => None,
        }
    }

    /// Appends `message` to room `id`, creating the room if it does not
    /// exist, and returns a copy of the room's whole log after the append.
    /// Any identifier and any message are taken as they are, the empty
    /// string included; no other room changes.
    pub fn append_and_fetch(&mut self, id: &str, message: String) -> (log: Vec<String>)
        ensures
            final(self)@ == appended(old(self)@, id@, message@),
            final(self).history() == old(self).history().push(
                Append { room: id@, text: message@ },
            ),
            log.deep_view() == final(self)@[id@],
            log.deep_view() == log_of(old(self)@, id@).push(message@),
            !old(self)@.contains_key(id@) ==> log.deep_view() == seq![message@],
    {
        proof {
            use_type_invariant(&*self);
        }
        let mut messages: Vec<String> = match self.rooms.get(id) {
            Some(chat) => copy_of(&chat.messages),
            None => Vec::new(),
        };
        messages.push(message);
        assert(messages.deep_view() =~= log_of(old(self)@, id@).push(message@));
        let log = copy_of(&messages);
        let chat = Chat { id: id.to_owned(), messages };

        // The records are taken out for the insert and put back after it, so
        // that `self` is a well-formed store at every step.
        let mut taken = Chats::new();
        std::mem::swap(&mut taken, self);
        let Chats { mut rooms, admitted } = taken;
        rooms.insert(id.to_owned(), chat);
        let ghost history = admitted@.push(Append { room: id@, text: message@ });
        proof {
            assert(history.drop_last() =~= admitted@);
            assert(rooms@.map_values(|chat: Chat| chat.messages.deep_view()) =~= appended(
                old(self)@,
                id@,
                message@,
            ));
        }
        *self = Chats { rooms, admitted: Ghost(history) };
        log
    }
}

} // verus!
