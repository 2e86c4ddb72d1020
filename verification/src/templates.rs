//! What the pages show. Each type holds the values that one page is drawn
//! from; how a page is drawn is left to the caller.

use vstd::prelude::*;

verus! {

/// The landing page: the address prefix under which the board is served.
pub struct IndexTemplate<'a> {
    pub base_url: &'a str,
}

/// A list of rooms, each as its own page shows it.
pub struct ChatsTemplate<'a> {
    pub chats: Vec<ChatTemplate<'a>>,
}

/// One room: its identifier and its messages in arrival order.
pub struct ChatTemplate<'a> {
    pub id: &'a str,
    pub messages: Vec<String>,
}

} // verus!
