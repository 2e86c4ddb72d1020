//! The mathematical model of the board.
//!
//! A board is a map from room identifier to the room's log. Identifiers and
//! messages are character sequences, compared exactly; a log is the sequence
//! of the room's messages in arrival order. A room that nobody has posted to
//! is not in the map.

use vstd::prelude::*;

verus! {

/// A room's identifier, as the characters that make it up.
pub type RoomId = Seq<char>;

/// The text of a message.
pub type Text = Seq<char>;

/// A room's messages in arrival order.
pub type Log = Seq<Text>;

/// The existing rooms, each with its log.
pub type Board = Map<RoomId, Log>;

/// The log of `room` in `rooms`: its messages in arrival order, or the empty
/// sequence for a room that does not exist.
pub open spec fn log_of(rooms: Board, room: RoomId) -> Log {
    if rooms.contains_key(room) {
        rooms[room]
    } else {
        Log::empty()
    }
}

/// The board after `text` was appended to `room`: the room exists, its log
/// has grown by exactly `text` at the end, and nothing else has changed.
pub open spec fn appended(rooms: Board, room: RoomId, text: Text) -> Board {
    rooms.insert(room, log_of(rooms, room).push(text))
}

/// The board after each of `texts` was appended to `room`, first to last.
pub open spec fn appended_all(rooms: Board, room: RoomId, texts: Seq<Text>) -> Board
    decreases texts.len(),
{
    if texts.len() == 0 {
        rooms
    } else {
        appended(appended_all(rooms, room, texts.drop_last()), room, texts.last())
    }
}

/// One append as the store admitted it: the room it went to and the text it
/// carried.
pub struct Append {
    pub room: RoomId,
    pub text: Text,
}

/// The board that an empty store reaches by admitting `history`, first to
/// last.
pub open spec fn replay(history: Seq<Append>) -> Board
    decreases history.len(),
{
    if history.len() == 0 {
        Board::empty()
    } else {
        appended(replay(history.drop_last()), history.last().room, history.last().text)
    }
}

/// The texts that `history` sent to `room`, in the order of `history`.
pub open spec fn posted_to(history: Seq<Append>, room: RoomId) -> Log
    decreases history.len(),
{
    if history.len() == 0 {
        Log::empty()
    } else if history.last().room == room {
        posted_to(history.drop_last(), room).push(history.last().text)
    } else {
        posted_to(history.drop_last(), room)
    }
}

} // verus!
