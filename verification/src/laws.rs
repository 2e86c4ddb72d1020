//! What holds of every board, proved over the model that the store's
//! contracts are written in.
//!
//! The laws on `appended` and `appended_all` speak of a board in any state;
//! those on `replay` and `posted_to` speak of a store from the moment it was
//! made. A store applies appends one at a time, so what reaches it side by
//! side is applied in some order: a law that holds for every order holds
//! however the callers were scheduled.

use vstd::prelude::*;
use crate::model::{
    appended, appended_all, log_of, posted_to, replay, Append, Board, Log, RoomId, Text,
};

verus! {

/// Appending to one room leaves every other room as it was: neither created,
/// nor removed, nor changed.
pub proof fn law_other_rooms_untouched(rooms: Board, room: RoomId, text: Text, other: RoomId)
    requires
        other != room,
    ensures
        appended(rooms, room, text).contains_key(other) == rooms.contains_key(other),
        appended(rooms, room, text)[other] == rooms[other],
        log_of(appended(rooms, room, text), other) == log_of(rooms, other),
{
}

/// The first append to a room that does not exist creates it with a log of
/// that one message.
pub proof fn law_first_append_creates_room(rooms: Board, room: RoomId, text: Text)
    requires
        !rooms.contains_key(room),
    ensures
        appended(rooms, room, text).contains_key(room),
        appended(rooms, room, text)[room] == seq![text],
{
}

/// A room only grows. After an append the room exists, its log is the log
/// from before with the new message at the end, and no room has gone.
pub proof fn law_append_grows_log_by_one(rooms: Board, room: RoomId, text: Text)
    ensures
        appended(rooms, room, text).contains_key(room),
        log_of(appended(rooms, room, text), room) == log_of(rooms, room).push(text),
        log_of(appended(rooms, room, text), room).len() == log_of(rooms, room).len() + 1,
        rooms.dom().subset_of(appended(rooms, room, text).dom()),
{
}

/// Messages appended to one room one after the other are read back exactly
/// as sent and in the order sent, behind what the room held before. On a
/// room that did not exist the log is exactly the messages sent.
pub proof fn law_appends_read_back_in_order(rooms: Board, room: RoomId, texts: Seq<Text>)
    ensures
        log_of(appended_all(rooms, room, texts), room) == log_of(rooms, room) + texts,
        texts.len() > 0 ==> appended_all(rooms, room, texts).contains_key(room),
        texts.len() > 0 && !rooms.contains_key(room) ==> appended_all(rooms, room, texts)[room]
            == texts,
    decreases texts.len(),
{
    if texts.len() > 0 {
        law_appends_read_back_in_order(rooms, room, texts.drop_last());
    }
}

/// A run of appends to one room leaves every other room as it was.
pub proof fn law_appends_leave_other_rooms_untouched(
    rooms: Board,
    room: RoomId,
    texts: Seq<Text>,
    other: RoomId,
)
    requires
        other != room,
    ensures
        appended_all(rooms, room, texts).contains_key(other) == rooms.contains_key(other),
        appended_all(rooms, room, texts)[other] == rooms[other],
    decreases texts.len(),
{
    if texts.len() > 0 {
        law_appends_leave_other_rooms_untouched(rooms, room, texts.drop_last(), other);
    }
}

/// Appends that reach one room side by side all land, whatever order the
/// store takes them in. `sent` holds the message of each call, `admitted`
/// the same messages in the order in which the store applied them. The log
/// grows by the number of calls and holds each message once more for each
/// call that sent it: none is lost and none is doubled. On a room that did
/// not exist, distinct messages give a log without repeats.
pub proof fn law_concurrent_appends_all_land(
    rooms: Board,
    room: RoomId,
    sent: Seq<Text>,
    admitted: Seq<Text>,
)
    requires
        admitted.to_multiset() == sent.to_multiset(),
    ensures
        ({
            let before = log_of(rooms, room);
            let after = log_of(appended_all(rooms, room, admitted), room);
            &&& after.len() == before.len() + sent.len()
            &&& after.to_multiset() == before.to_multiset().add(sent.to_multiset())
            &&& !rooms.contains_key(room) ==> after.to_multiset() == sent.to_multiset()
            &&& !rooms.contains_key(room) && sent.no_duplicates() ==> after.no_duplicates()
        }),
{
    let before = log_of(rooms, room);
    law_appends_read_back_in_order(rooms, room, admitted);
    vstd::seq_lib::lemma_multiset_commutative(before, admitted);
    vstd::seq_lib::to_multiset_len(sent);
    vstd::seq_lib::to_multiset_len(admitted);
    if !rooms.contains_key(room) && sent.no_duplicates() {
        sent.lemma_multiset_has_no_duplicates();
        admitted.lemma_multiset_has_no_duplicates_conv();
    }
}

/// The reply to an append counts the appends completed when it was
/// produced. Of the appends that the store applies to one room in the order
/// `admitted`, the one at position `k` is answered with the log from before
/// them all, then the `k` messages admitted ahead of it, then its own: the
/// log has grown by `k + 1`, and the reply is the beginning of the log that
/// the room has after them all.
pub proof fn law_reply_counts_completed_appends(
    rooms: Board,
    room: RoomId,
    admitted: Seq<Text>,
    k: int,
)
    requires
        0 <= k < admitted.len(),
    ensures
        ({
            let before = log_of(rooms, room);
            let reply = log_of(appended_all(rooms, room, admitted.take(k)), room).push(admitted[k]);
            &&& reply == before + admitted.take(k + 1)
            &&& reply.len() == before.len() + k + 1
            &&& reply.last() == admitted[k]
            &&& reply.is_prefix_of(log_of(appended_all(rooms, room, admitted), room))
        }),
{
    law_appends_read_back_in_order(rooms, room, admitted.take(k));
    law_appends_read_back_in_order(rooms, room, admitted);
}

/// Replaying follows the store step by step: nothing admitted gives the
/// empty board, and one more append admitted is one append applied.
pub proof fn law_replay_follows_appends(history: Seq<Append>, next: Append)
    ensures
        replay(Seq::<Append>::empty()) == Board::empty(),
        replay(history.push(next)) == appended(replay(history), next.room, next.text),
        posted_to(history.push(next), next.room) == posted_to(history, next.room).push(next.text),
        forall|other: RoomId|
            other != next.room ==> #[trigger] posted_to(history.push(next), other)
                == posted_to(history, other),
{
    assert(history.push(next).drop_last() =~= history);
}

/// A store that began empty shows, for every room, exactly what was posted
/// to that room so far, in the order in which the appends were admitted; a
/// room exists if and only if something was posted to it.
pub proof fn law_log_is_what_was_posted(history: Seq<Append>, room: RoomId)
    ensures
        log_of(replay(history), room) == posted_to(history, room),
        replay(history).contains_key(room) <==> posted_to(history, room).len() > 0,
        replay(history).contains_key(room) <==> exists|i: int|
            0 <= i < history.len() && (#[trigger] history[i]).room == room,
    decreases history.len(),
{
    if history.len() > 0 {
        let earlier = history.drop_last();
        law_log_is_what_was_posted(earlier, room);
        if replay(earlier).contains_key(room) {
            let i = choose|i: int| 0 <= i < earlier.len() && (#[trigger] earlier[i]).room == room;
            assert(history[i].room == room);
        } else if history.last().room == room {
            assert(history[history.len() - 1].room == room);
        } else {
            assert forall|i: int| 0 <= i < history.len() implies (#[trigger] history[i]).room
                != room by {
                if i < earlier.len() {
                    assert(earlier[i].room != room);
                }
            }
        }
    }
}

/// A room that nothing was ever posted to does not exist.
pub proof fn law_unposted_room_is_absent(history: Seq<Append>, room: RoomId)
    requires
        forall|i: int| 0 <= i < history.len() ==> (#[trigger] history[i]).room != room,
    ensures
        !replay(history).contains_key(room),
        posted_to(history, room) == Log::empty(),
{
    law_log_is_what_was_posted(history, room);
}

/// What a store has shown stays shown. Whatever is admitted after `history`,
/// every room that existed still exists, and the log that it had is the
/// beginning of the log that it has.
pub proof fn law_logs_only_grow(history: Seq<Append>, later: Seq<Append>, room: RoomId)
    ensures
        posted_to(history, room).is_prefix_of(posted_to(history + later, room)),
        log_of(replay(history), room).is_prefix_of(log_of(replay(history + later), room)),
        replay(history).contains_key(room) ==> replay(history + later).contains_key(room),
    decreases later.len(),
{
    if later.len() == 0 {
        assert(history + later =~= history);
    } else {
        law_logs_only_grow(history, later.drop_last(), room);
        assert((history + later).drop_last() =~= history + later.drop_last());
    }
    law_log_is_what_was_posted(history, room);
    law_log_is_what_was_posted(history + later, room);
}

} // verus!
