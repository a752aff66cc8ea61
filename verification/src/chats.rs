//! The list of recent chats in the sidebar: the chat of the latest message
//! moves to the top.

use vstd::prelude::*;
use crate::strings::push_char;

verus! {

/// What identifies a chat: the friend's or group's number, and whether it is a group.
pub type ChatKey = (i64, bool);

/// The index of the first occurrence of `key` in `keys`, or -1.
pub open spec fn first_index(keys: Seq<ChatKey>, key: ChatKey) -> int
    decreases keys.len(),
{
    if keys.len() == 0 {
        -1
    } else if keys[0] == key {
        0
    } else {
        let r = first_index(keys.drop_first(), key);
        if r < 0 {
            -1
        } else {
            r + 1
        }
    }
}

/// `first_index` is the first position of the key, or -1 when it does not occur.
pub proof fn lemma_first_index(keys: Seq<ChatKey>, key: ChatKey)
    ensures
        -1 <= first_index(keys, key) < keys.len(),
        first_index(keys, key) >= 0 ==> keys[first_index(keys, key)] == key,
        forall|t: int| 0 <= t < first_index(keys, key) ==> keys[t] != key,
        first_index(keys, key) < 0 <==> !keys.contains(key),
    decreases keys.len(),
{
    if keys.len() > 0 {
        lemma_first_index(keys.drop_first(), key);
        if keys[0] != key {
            let r = first_index(keys.drop_first(), key);
            assert forall|t: int| 0 <= t < first_index(keys, key) implies keys[t] != key by {
                if t > 0 {
                    assert(keys[t] == keys.drop_first()[t - 1]);
                }
            }
            if keys.contains(key) {
                let w = choose|w: int| 0 <= w < keys.len() && keys[w] == key;
                assert(keys.drop_first()[w - 1] == key);
            }
            if r >= 0 {
                assert(keys[r + 1] == keys.drop_first()[r]);
            }
        }
    }
}

/// Whether two key lists hold the same keys.
pub open spec fn same_keys(a: Seq<ChatKey>, b: Seq<ChatKey>) -> bool {
    forall|k: ChatKey| a.contains(k) <==> b.contains(k)
}

/// `keys` with the entries at `0` and `i` exchanged.
pub open spec fn swap_front(keys: Seq<ChatKey>, i: int) -> Seq<ChatKey> {
    keys.update(0, keys[i]).update(i, keys[0])
}

/// Exchanging the front entry with another keeps the keys and their uniqueness.
pub proof fn lemma_swap_keeps_keys(keys: Seq<ChatKey>, i: int)
    requires
        0 <= i < keys.len(),
    ensures
        same_keys(keys, swap_front(keys, i)),
        keys.no_duplicates() ==> swap_front(keys, i).no_duplicates(),
        swap_front(keys, i).len() == keys.len(),
{
    let s = swap_front(keys, i);
    assert forall|j: int| 0 <= j < keys.len() implies s[j] == (if j == 0 { keys[i] } else if j == i { keys[0] } else { keys[j] }) by {}
    assert forall|x: ChatKey| keys.contains(x) <==> s.contains(x) by {
        if keys.contains(x) {
            let w = choose|w: int| 0 <= w < keys.len() && keys[w] == x;
            if w == 0 {
                assert(s[i] == x);
            } else if w == i {
                assert(s[0] == x);
            } else {
                assert(s[w] == x);
            }
        }
        if s.contains(x) {
            let w = choose|w: int| 0 <= w < s.len() && s[w] == x;
            if w == 0 {
                assert(keys[i] == x);
            } else if w == i {
                assert(keys[0] == x);
            } else {
                assert(keys[w] == x);
            }
        }
    }
    if keys.no_duplicates() {
        assert forall|a: int, b: int| 0 <= a < s.len() && 0 <= b < s.len() && a != b implies s[a] != s[b] by {
            let ka = if a == 0 { i } else if a == i { 0 } else { a };
            let kb = if b == 0 { i } else if b == i { 0 } else { b };
            assert(s[a] == keys[ka]);
            assert(s[b] == keys[kb]);
        }
    }
}

/// One entry of the chat list.
#[derive(Debug, Clone, PartialEq, Eq)]
pub struct ChatItem {
    pub account: i64,
    pub name: String,
    pub is_group: bool,
    pub last_message: String,
}

/// The key of a chat list entry.
pub open spec fn chat_key(item: ChatItem) -> ChatKey {
    (item.account, item.is_group)
}

/// The keys of a chat list, in order.
pub open spec fn chat_keys(items: Seq<ChatItem>) -> Seq<ChatKey> {
    items.map_values(|item: ChatItem| chat_key(item))
}

/// A message preview on one line: every line break becomes a space.
pub open spec fn one_line(s: Seq<char>) -> Seq<char> {
    s.map_values(|c: char| if c == '\n' { ' ' } else { c })
}

/// `s` with every line break replaced by a space (`str::replace('\n', " ")`).
pub fn replace_newlines(s: &str) -> (r: String)
    ensures
        r@ == one_line(s@),
{
    let n = s.unicode_len();
    let mut out = String::new();
    let mut i: usize = 0;
    while i < n
        invariant
            n == s@.len(),
            0 <= i <= n,
            out@ == one_line(s@.subrange(0, i as int)),
        decreases n - i,
    {
        let c = s.get_char(i);
        if c == '\n' {
            push_char(&mut out, ' ');
        } else {
            push_char(&mut out, c);
        }
        proof {
            assert(one_line(s@.subrange(0, i + 1)) =~= one_line(s@.subrange(0, i as int)).push(
                if c == '\n' { ' ' } else { c },
            ));
        }
        i = i + 1;
    }
    proof {
        assert(s@.subrange(0, n as int) =~= s@);
    }
    out
}

impl ChatItem {
    /// A chat list entry; the preview of the last message is kept on one line.
    pub fn init_model(account: i64, is_group: bool, name: String, last_message: &str) -> (r: ChatItem)
        ensures
            r.account == account,
            r.is_group == is_group,
            r.name == name,
            r.last_message@ == one_line(last_message@),
    {
        ChatItem { account, name, is_group, last_message: replace_newlines(last_message) }
    }
}

/// The chat list of the sidebar.
#[derive(Debug, Clone, PartialEq, Eq)]
pub struct ChatsModel {
    pub chats_list: Vec<ChatItem>,
}

impl ChatsModel {
    /// An empty chat list.
    pub fn new() -> (r: ChatsModel)
        ensures
            r.chats_list@.len() == 0,
    {
        ChatsModel { chats_list: Vec::new() }
    }

    /// Where the chat of `account` stands in the list, if it is there.
    pub fn position(&self, account: i64, is_group: bool) -> (r: Option<usize>)
        ensures
            match r {
                Some(i) => i as int == first_index(chat_keys(self.chats_list@), (account, is_group)),
                None => first_index(chat_keys(self.chats_list@), (account, is_group)) < 0,
            },
    {
        let ghost keys = chat_keys(self.chats_list@);
        proof {
            lemma_first_index(keys, (account, is_group));
        }
        let mut i: usize = 0;
        while i < self.chats_list.len()
            invariant
                0 <= i <= self.chats_list@.len(),
                keys == chat_keys(self.chats_list@),
                forall|t: int| 0 <= t < i ==> keys[t] != (account, is_group),
                -1 <= first_index(keys, (account, is_group)) < keys.len(),
                first_index(keys, (account, is_group)) >= 0 ==> keys[first_index(keys, (account, is_group))] == (account, is_group),
                forall|t: int| 0 <= t < first_index(keys, (account, is_group)) ==> keys[t] != (account, is_group),
            decreases self.chats_list@.len() - i,
        {
            if self.chats_list[i].account == account && self.chats_list[i].is_group == is_group {
                assert(keys[i as int] == (account, is_group));
                assert(keys.contains((account, is_group)));
                let ghost fi = first_index(keys, (account, is_group));
                proof {
                    lemma_first_index(keys, (account, is_group));
                }
                assert(fi >= 0);
                assert(!(fi < i));
                assert(!(fi > i));
                return Some(i);
            }
            i = i + 1;
        }
        proof {
            let fi = first_index(keys, (account, is_group));
            if fi >= 0 {
                assert(keys[fi] == (account, is_group));
            }
        }
        None
    }

    /// A new message in a listed chat: the chat changes places with the
    /// first entry and shows the message. An unlisted chat changes nothing.
    pub fn update_chat_item(&mut self, account: i64, is_group: bool, last_message: String)
        ensures
            ({
                let old_items = old(self).chats_list@;
                let i = first_index(chat_keys(old_items), (account, is_group));
                if i < 0 {
                    final(self).chats_list@ == old_items
                } else {
                    final(self).chats_list@ == old_items.update(i, old_items[0]).update(
                        0,
                        ChatItem { last_message, ..old_items[i] },
                    )
                }
            }),
            chat_keys(final(self).chats_list@) == swap_front_if_listed(chat_keys(old(self).chats_list@), (account, is_group)),
    {
        let ghost old_items = self.chats_list@;
        match self.position(account, is_group) {
            None => {},
            Some(i) => {
                proof {
                    lemma_first_index(chat_keys(old_items), (account, is_group));
                }
                if i == 0 {
                    let mut front = self.chats_list.remove(0);
                    front.last_message = last_message;
                    self.chats_list.insert(0, front);
                    proof {
                        assert(self.chats_list@ =~= old_items.update(0, old_items[0]).update(
                            0,
                            ChatItem { last_message, ..old_items[0] },
                        ));
                    }
                } else {
                    let mut found = self.chats_list.remove(i);
                    let first = self.chats_list.remove(0);
                    found.last_message = last_message;
                    self.chats_list.insert(0, found);
                    self.chats_list.insert(i, first);
                    proof {
                        assert(self.chats_list@ =~= old_items.update(i as int, old_items[0]).update(
                            0,
                            ChatItem { last_message, ..old_items[i as int] },
                        ));
                    }
                }
                proof {
                    let k = chat_keys(old_items);
                    assert(chat_keys(self.chats_list@) =~= swap_front(k, i as int));
                }
            },
        }
    }

    /// A chat that was not listed goes to the top of the list.
    pub fn insert_chat_item(&mut self, account: i64, is_group: bool, name: String, last_message: String)
        ensures
            final(self).chats_list@.len() == old(self).chats_list@.len() + 1,
            final(self).chats_list@[0].account == account,
            final(self).chats_list@[0].is_group == is_group,
            final(self).chats_list@[0].name == name,
            final(self).chats_list@[0].last_message@ == one_line(last_message@),
            final(self).chats_list@.drop_first() == old(self).chats_list@,
            chat_keys(final(self).chats_list@) == seq![(account, is_group)] + chat_keys(old(self).chats_list@),
    {
        let item = ChatItem::init_model(account, is_group, name, last_message.as_str());
        self.chats_list.insert(0, item);
        proof {
            assert(self.chats_list@.drop_first() =~= old(self).chats_list@);
            assert(chat_keys(self.chats_list@) =~= seq![(account, is_group)] + chat_keys(old(self).chats_list@));
        }
    }

    /// The chat of the entry the user picked.
    pub fn select_chatroom(&self, index: usize) -> (r: ChatKey)
        requires
            index < self.chats_list@.len(),
        ensures
            r == chat_key(self.chats_list@[index as int]),
    {
        (self.chats_list[index].account, self.chats_list[index].is_group)
    }
}

/// The keys after a new message in the chat of `key`: swapped to the front
/// when listed, unchanged otherwise.
pub open spec fn swap_front_if_listed(keys: Seq<ChatKey>, key: ChatKey) -> Seq<ChatKey> {
    let i = first_index(keys, key);
    if i < 0 {
        keys
    } else {
        swap_front(keys, i)
    }
}

} // verus!
