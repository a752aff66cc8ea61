//! The main page: the open chatrooms, and how incoming messages and the
//! user's choices update them and the sidebar's chat list.

use vstd::prelude::*;
use crate::chatroom::{Chatroom, MessageGroup, appended, group_messages, well_grouped};
use crate::chats::{ChatKey, first_index, lemma_first_index, same_keys, swap_front_if_listed, swap_front, lemma_swap_keeps_keys};
use crate::message::{Message, contents_text, contents_view, get_text_from};

verus! {

/// What the main page is told.
#[derive(Debug, Clone, PartialEq, Eq)]
pub enum MainMsg {
    WindowFolded,
    GroupMessage { group_id: i64, message: Message },
    FriendMessage { friend_id: i64, message: Message },
    SelectChatroom(i64, bool),
    PushToast(String),
}

/// What the sidebar is told.
#[derive(Debug, Clone, PartialEq, Eq)]
pub enum SidebarMsg {
    SelectChatroom(i64, bool),
    UpdateChatItem(i64, bool, String),
    InsertChatItem(i64, bool, String),
    PushToast(String),
}

/// What the main page asks to be done after a message.
#[derive(Debug, Clone, PartialEq, Eq)]
pub enum MainAction {
    /// Tell the sidebar.
    Sidebar(SidebarMsg),
    /// Bring a chatroom to the front and show its titles.
    ShowChatroom(i64, bool),
    /// On a narrow window, show the chatroom pane.
    ShowChatroomPane,
    /// Show a short notice.
    Toast(String),
}

/// The mathematical value of a [`MainAction`].
pub enum MainActionView {
    UpdateChatItem(ChatKey, Seq<char>),
    InsertChatItem(ChatKey, Seq<char>),
    SelectChatroom(ChatKey),
    SidebarToast(Seq<char>),
    ShowChatroom(ChatKey),
    ShowChatroomPane,
    Toast(Seq<char>),
}

impl View for MainAction {
    type V = MainActionView;

    open spec fn view(&self) -> MainActionView {
        match self {
            MainAction::Sidebar(SidebarMsg::UpdateChatItem(a, g, t)) => MainActionView::UpdateChatItem((*a, *g), t@),
            MainAction::Sidebar(SidebarMsg::InsertChatItem(a, g, t)) => MainActionView::InsertChatItem((*a, *g), t@),
            MainAction::Sidebar(SidebarMsg::SelectChatroom(a, g)) => MainActionView::SelectChatroom((*a, *g)),
            MainAction::Sidebar(SidebarMsg::PushToast(t)) => MainActionView::SidebarToast(t@),
            MainAction::ShowChatroom(a, g) => MainActionView::ShowChatroom((*a, *g)),
            MainAction::ShowChatroomPane => MainActionView::ShowChatroomPane,
            MainAction::Toast(t) => MainActionView::Toast(t@),
        }
    }
}

/// The views of a sequence of actions.
pub open spec fn actions_view(actions: Seq<MainAction>) -> Seq<MainActionView> {
    actions.map_values(|a: MainAction| a@)
}

/// The keys of a list of chatrooms, in order.
pub open spec fn room_keys(rooms: Seq<Chatroom>) -> Seq<ChatKey> {
    rooms.map_values(|r: Chatroom| (r.account, r.is_group))
}

/// The chatroom a message is about, if any.
pub open spec fn target(msg: MainMsg) -> Option<ChatKey> {
    match msg {
        MainMsg::GroupMessage { group_id, .. } => Some((group_id, true)),
        MainMsg::FriendMessage { friend_id, .. } => Some((friend_id, false)),
        MainMsg::SelectChatroom(a, g) => Some((a, g)),
        _ => None,
    }
}

/// The keys of the chatrooms after a message: the chatroom it is about is
/// opened at the front when it was not open.
pub open spec fn keys_after(keys: Seq<ChatKey>, msg: MainMsg) -> Seq<ChatKey> {
    match target(msg) {
        Some(k) => if keys.contains(k) {
            keys
        } else {
            seq![k] + keys
        },
        None => keys,
    }
}

/// The preview text of a message.
pub open spec fn preview(m: Message) -> Seq<char> {
    contents_text(contents_view(m.contents@))
}

/// What the main page asks to be done for an incoming message in the chat of `k`.
pub open spec fn incoming_actions(keys: Seq<ChatKey>, k: ChatKey, m: Message) -> Seq<MainActionView> {
    if keys.contains(k) {
        seq![MainActionView::UpdateChatItem(k, preview(m))]
    } else if keys.len() == 0 {
        seq![MainActionView::InsertChatItem(k, preview(m)), MainActionView::ShowChatroom(k)]
    } else {
        seq![MainActionView::InsertChatItem(k, preview(m))]
    }
}

/// What the main page asks to be done after a message, given the keys of
/// the open chatrooms.
pub open spec fn main_actions(keys: Seq<ChatKey>, msg: MainMsg) -> Seq<MainActionView> {
    match msg {
        MainMsg::WindowFolded => seq![MainActionView::ShowChatroomPane],
        MainMsg::PushToast(t) => seq![MainActionView::Toast(t@)],
        MainMsg::SelectChatroom(a, g) => if keys.contains((a, g)) {
            seq![MainActionView::ShowChatroom((a, g))]
        } else {
            seq![MainActionView::InsertChatItem((a, g), Seq::empty()), MainActionView::ShowChatroom((a, g))]
        },
        MainMsg::FriendMessage { friend_id, message } => incoming_actions(keys, (friend_id, false), message),
        MainMsg::GroupMessage { group_id, message } => incoming_actions(keys, (group_id, true), message),
    }
}

/// `after` is `before` with message `m` added to the first chatroom of key
/// `k`; when no chatroom of `k` is open, `after` is `before`.
pub open spec fn pushed(before: Seq<Chatroom>, after: Seq<Chatroom>, k: ChatKey, m: Message) -> bool {
    if room_keys(before).contains(k) {
        let i = first_index(room_keys(before), k);
        &&& after.len() == before.len()
        &&& forall|j: int| 0 <= j < before.len() && j != i ==> after[j] == before[j]
        &&& after[i].account == before[i].account
        &&& after[i].is_group == before[i].is_group
        &&& appended(before[i].messages@, after[i].messages@, m)
        &&& group_messages(after[i].messages@) == group_messages(before[i].messages@).push(m)
        &&& (well_grouped(before[i].messages@) ==> well_grouped(after[i].messages@))
    } else {
        after == before
    }
}

/// `after` is `before` with message `m` added to the first chatroom of key
/// `k`, which is opened at the front first when it was not open.
pub open spec fn received(before: Seq<Chatroom>, after: Seq<Chatroom>, k: ChatKey, m: Message) -> bool {
    if room_keys(before).contains(k) {
        pushed(before, after, k, m)
    } else {
        &&& after.len() == before.len() + 1
        &&& after.drop_first() == before
        &&& after[0].account == k.0
        &&& after[0].is_group == k.1
        &&& appended(Seq::empty(), after[0].messages@, m)
        &&& group_messages(after[0].messages@) == seq![m]
        &&& well_grouped(after[0].messages@)
    }
}

/// How the chatrooms change on a message.
pub open spec fn rooms_step(before: Seq<Chatroom>, after: Seq<Chatroom>, msg: MainMsg) -> bool {
    match msg {
        MainMsg::FriendMessage { friend_id, message } => received(before, after, (friend_id, false), message),
        MainMsg::GroupMessage { group_id, message } => received(before, after, (group_id, true), message),
        MainMsg::SelectChatroom(a, g) => if room_keys(before).contains((a, g)) {
            after == before
        } else {
            &&& after.len() == before.len() + 1
            &&& after.drop_first() == before
            &&& after[0].account == a
            &&& after[0].is_group == g
            &&& after[0].messages@.len() == 0
        },
        _ => after == before,
    }
}

/// The open chatrooms of the main page.
#[derive(Debug, Clone, PartialEq, Eq)]
pub struct MainPageModel {
    pub chatrooms: Vec<Chatroom>,
}

impl MainPageModel {
    /// A main page without chatrooms.
    pub fn new() -> (r: MainPageModel)
        ensures
            r.chatrooms@.len() == 0,
    {
        MainPageModel { chatrooms: Vec::new() }
    }

    /// Whether the chatroom of `account` is open.
    pub fn is_item_in_list(&self, account: i64, is_group: bool) -> (r: bool)
        ensures
            r == room_keys(self.chatrooms@).contains((account, is_group)),
    {
        match self.position(account, is_group) {
            Some(i) => {
                proof {
                    lemma_first_index(room_keys(self.chatrooms@), (account, is_group));
                    assert(room_keys(self.chatrooms@)[i as int] == (account, is_group));
                }
                true
            },
            None => false,
        }
    }

    /// Where the chatroom of `account` stands, if it is open.
    fn position(&self, account: i64, is_group: bool) -> (r: Option<usize>)
        ensures
            match r {
                Some(i) => i as int == first_index(room_keys(self.chatrooms@), (account, is_group)) && i < self.chatrooms@.len(),
                None => !room_keys(self.chatrooms@).contains((account, is_group)),
            },
    {
        let ghost keys = room_keys(self.chatrooms@);
        proof {
            lemma_first_index(keys, (account, is_group));
        }
        let mut i: usize = 0;
        while i < self.chatrooms.len()
            invariant
                0 <= i <= self.chatrooms@.len(),
                keys == room_keys(self.chatrooms@),
                forall|t: int| 0 <= t < i ==> keys[t] != (account, is_group),
            decreases self.chatrooms@.len() - i,
        {
            if self.chatrooms[i].account == account && self.chatrooms[i].is_group == is_group {
                proof {
                    assert(keys[i as int] == (account, is_group));
                    assert(keys.contains((account, is_group)));
                    lemma_first_index(keys, (account, is_group));
                    let fi = first_index(keys, (account, is_group));
                    assert(!(fi < i));
                    assert(!(fi > i));
                }
                return Some(i);
            }
            i = i + 1;
        }
        proof {
            if keys.contains((account, is_group)) {
                let w = choose|w: int| 0 <= w < keys.len() && keys[w] == (account, is_group);
                assert(keys[w] != (account, is_group));
            }
        }
        None
    }

    /// Opens the chatroom of `account` at the front, without history.
    pub fn insert_chatroom(&mut self, account: i64, is_group: bool)
        ensures
            final(self).chatrooms@.len() == old(self).chatrooms@.len() + 1,
            final(self).chatrooms@.drop_first() == old(self).chatrooms@,
            final(self).chatrooms@[0].account == account,
            final(self).chatrooms@[0].is_group == is_group,
            final(self).chatrooms@[0].messages@.len() == 0,
    {
        self.chatrooms.insert(0, Chatroom::new(account, is_group));
        proof {
            assert(self.chatrooms@.drop_first() =~= old(self).chatrooms@);
        }
    }

    /// Adds a message to the first open chatroom of `key`; without one, nothing changes.
    fn push_message(&mut self, account: i64, is_group: bool, message: Message)
        ensures
            pushed(old(self).chatrooms@, final(self).chatrooms@, (account, is_group), message),
    {
        let ghost before = self.chatrooms@;
        match self.position(account, is_group) {
            Some(i) => {
                let mut room = self.chatrooms.remove(i);
                room.add_message(message);
                self.chatrooms.insert(i, room);
                proof {
                    let after = self.chatrooms@;
                    lemma_first_index(room_keys(before), (account, is_group));
                    assert(room_keys(before)[i as int] == (account, is_group));
                    assert(room_keys(before).contains((account, is_group)));
                    assert forall|j: int| 0 <= j < before.len() && j != i implies after[j] == before[j] by {
                        if j < i {
                        } else {
                        }
                    }
                }
            },
            None => {},
        }
    }

    /// Adds a message to the chatroom of a friend, if it is open; else nothing changes.
    pub fn push_friend_message(&mut self, friend_id: i64, message: Message)
        ensures
            pushed(old(self).chatrooms@, final(self).chatrooms@, (friend_id, false), message),
    {
        proof {
            lemma_first_index(room_keys(self.chatrooms@), (friend_id, false));
        }
        self.push_message(friend_id, false, message);
    }

    /// Adds a message to the chatroom of a group, if it is open; else nothing changes.
    pub fn push_group_message(&mut self, group_id: i64, message: Message)
        ensures
            pushed(old(self).chatrooms@, final(self).chatrooms@, (group_id, true), message),
    {
        proof {
            lemma_first_index(room_keys(self.chatrooms@), (group_id, true));
        }
        self.push_message(group_id, true, message);
    }

    /// An incoming message: the sidebar shows it, its chatroom is opened
    /// when it was not open (and shown when it is the only one), and it is
    /// added to the chatroom's history.
    fn receive(&mut self, account: i64, is_group: bool, message: Message) -> (r: Vec<MainAction>)
        ensures
            received(old(self).chatrooms@, final(self).chatrooms@, (account, is_group), message),
            actions_view(r@) == incoming_actions(room_keys(old(self).chatrooms@), (account, is_group), message),
    {
        let ghost before = self.chatrooms@;
        let key = (account, is_group);
        let text = get_text_from(message.contents.as_slice());
        let mut actions: Vec<MainAction> = Vec::new();
        if self.is_item_in_list(account, is_group) {
            actions.push(MainAction::Sidebar(SidebarMsg::UpdateChatItem(account, is_group, text)));
            self.push_message(account, is_group, message);
            proof {
                assert(actions_view(actions@) =~= incoming_actions(room_keys(before), key, message));
            }
        } else {
            actions.push(MainAction::Sidebar(SidebarMsg::InsertChatItem(account, is_group, text)));
            self.insert_chatroom(account, is_group);
            if self.chatrooms.len() == 1 {
                actions.push(MainAction::ShowChatroom(account, is_group));
            }
            let ghost opened = self.chatrooms@;
            proof {
                assert(room_keys(opened)[0] == key);
                assert(room_keys(opened).contains(key));
                lemma_first_index(room_keys(opened), key);
                assert(first_index(room_keys(opened), key) == 0);
            }
            self.push_message(account, is_group, message);
            proof {
                let after = self.chatrooms@;
                assert(opened[0].messages@ =~= Seq::<MessageGroup>::empty());
                assert(group_messages(opened[0].messages@) =~= Seq::<Message>::empty()) by {
                    assert(opened[0].messages@.len() == 0);
                }
                assert(Seq::<Message>::empty().push(message) =~= seq![message]);
                assert(well_grouped(opened[0].messages@));
                assert(after.drop_first() =~= before) by {
                    assert forall|j: int| 0 <= j < before.len() implies after.drop_first()[j] == before[j] by {
                        assert(after[j + 1] == opened[j + 1]);
                        assert(opened[j + 1] == opened.drop_first()[j]);
                    }
                }
                assert(actions_view(actions@) =~= incoming_actions(room_keys(before), key, message));
            }
        }
        actions
    }

    /// Handles one message of the main page and says what else must be done.
    pub fn update(&mut self, msg: MainMsg) -> (r: Vec<MainAction>)
        ensures
            rooms_step(old(self).chatrooms@, final(self).chatrooms@, msg),
            room_keys(final(self).chatrooms@) == keys_after(room_keys(old(self).chatrooms@), msg),
            actions_view(r@) == main_actions(room_keys(old(self).chatrooms@), msg),
    {
        let ghost before = self.chatrooms@;
        let ghost m = msg;
        let mut actions: Vec<MainAction> = Vec::new();
        match msg {
            MainMsg::WindowFolded => {
                actions.push(MainAction::ShowChatroomPane);
                proof {
                    assert(actions_view(actions@) =~= main_actions(room_keys(before), m));
                }
            },
            MainMsg::PushToast(content) => {
                actions.push(MainAction::Toast(content));
                proof {
                    assert(actions_view(actions@) =~= main_actions(room_keys(before), m));
                }
            },
            MainMsg::SelectChatroom(account, is_group) => {
                if !self.is_item_in_list(account, is_group) {
                    actions.push(MainAction::Sidebar(SidebarMsg::InsertChatItem(account, is_group, String::new())));
                    self.insert_chatroom(account, is_group);
                    proof {
                        assert(room_keys(self.chatrooms@) =~= seq![(account, is_group)] + room_keys(before)) by {
                            assert forall|j: int| 0 <= j < before.len() implies room_keys(self.chatrooms@)[j + 1] == room_keys(before)[j] by {
                                assert(self.chatrooms@.drop_first()[j] == before[j]);
                            }
                        }
                    }
                }
                actions.push(MainAction::ShowChatroom(account, is_group));
                proof {
                    assert(actions_view(actions@) =~= main_actions(room_keys(before), m));
                }
            },
            MainMsg::FriendMessage { friend_id, message } => {
                actions = self.receive(friend_id, false, message);
                proof {
                    lemma_received_keys(before, self.chatrooms@, (friend_id, false), message);
                }
            },
            MainMsg::GroupMessage { group_id, message } => {
                actions = self.receive(group_id, true, message);
                proof {
                    lemma_received_keys(before, self.chatrooms@, (group_id, true), message);
                }
            },
        }
        actions
    }
}

proof fn lemma_received_keys(before: Seq<Chatroom>, after: Seq<Chatroom>, k: ChatKey, m: Message)
    requires
        received(before, after, k, m),
    ensures
        room_keys(after) == (if room_keys(before).contains(k) { room_keys(before) } else { seq![k] + room_keys(before) }),
{
    if room_keys(before).contains(k) {
        let i = first_index(room_keys(before), k);
        lemma_first_index(room_keys(before), k);
        assert(room_keys(after) =~= room_keys(before)) by {
            assert forall|j: int| 0 <= j < before.len() implies room_keys(after)[j] == room_keys(before)[j] by {
                if j != i {
                    assert(after[j] == before[j]);
                }
            }
        }
    } else {
        assert(room_keys(after) =~= seq![k] + room_keys(before)) by {
            assert forall|j: int| 0 <= j < before.len() implies room_keys(after)[j + 1] == room_keys(before)[j] by {
                assert(after.drop_first()[j] == before[j]);
            }
        }
    }
}

/// The chat list keys after the sidebar applied one action of the main page.
pub open spec fn chat_keys_after_action(keys: Seq<ChatKey>, a: MainActionView) -> Seq<ChatKey> {
    match a {
        MainActionView::UpdateChatItem(k, _) => swap_front_if_listed(keys, k),
        MainActionView::InsertChatItem(k, _) => seq![k] + keys,
        _ => keys,
    }
}

/// The chat list keys after the sidebar applied all actions of the main page, in order.
pub open spec fn chat_keys_after(keys: Seq<ChatKey>, actions: Seq<MainActionView>) -> Seq<ChatKey>
    decreases actions.len(),
{
    if actions.len() == 0 {
        keys
    } else {
        chat_keys_after(chat_keys_after_action(keys, actions[0]), actions.drop_first())
    }
}

proof fn lemma_after_one(keys: Seq<ChatKey>, a: MainActionView)
    ensures
        chat_keys_after(keys, seq![a]) == chat_keys_after_action(keys, a),
{
    assert(seq![a].drop_first().len() == 0);
    let k1 = chat_keys_after_action(keys, a);
    assert(chat_keys_after(k1, seq![a].drop_first()) == k1);
}

proof fn lemma_after_two(keys: Seq<ChatKey>, a: MainActionView, b: MainActionView)
    ensures
        chat_keys_after(keys, seq![a, b]) == chat_keys_after_action(chat_keys_after_action(keys, a), b),
{
    assert(seq![a, b].drop_first() =~= seq![b]);
    lemma_after_one(chat_keys_after_action(keys, a), b);
}

/// Law: the open chatrooms never hold two chatrooms of one chat.
pub proof fn law_chatrooms_stay_unique(keys: Seq<ChatKey>, msg: MainMsg)
    requires
        keys.no_duplicates(),
    ensures
        keys_after(keys, msg).no_duplicates(),
{
    match target(msg) {
        Some(k) => {
            if !keys.contains(k) {
                let after = seq![k] + keys;
                assert forall|i: int, j: int| 0 <= i < after.len() && 0 <= j < after.len() && i != j implies after[i] != after[j] by {
                    if i == 0 && j > 0 {
                        assert(after[j] == keys[j - 1]);
                    } else if j == 0 && i > 0 {
                        assert(after[i] == keys[i - 1]);
                    } else if i > 0 && j > 0 {
                        assert(after[i] == keys[i - 1]);
                        assert(after[j] == keys[j - 1]);
                    }
                }
            }
        },
        None => {},
    }
}

/// Law: when the sidebar's chat list and the open chatrooms list the same
/// chats, each without repeats, they still do after the main page handled a
/// message and the sidebar applied what the main page asked of it.
pub proof fn law_chat_list_follows_chatrooms(rooms: Seq<ChatKey>, chats: Seq<ChatKey>, msg: MainMsg)
    requires
        rooms.no_duplicates(),
        chats.no_duplicates(),
        same_keys(rooms, chats),
    ensures
        keys_after(rooms, msg).no_duplicates(),
        chat_keys_after(chats, main_actions(rooms, msg)).no_duplicates(),
        same_keys(keys_after(rooms, msg), chat_keys_after(chats, main_actions(rooms, msg))),
{
    law_chatrooms_stay_unique(rooms, msg);
    let actions = main_actions(rooms, msg);
    match msg {
        MainMsg::WindowFolded => {
            lemma_after_one(chats, MainActionView::ShowChatroomPane);
        },
        MainMsg::PushToast(t) => {
            lemma_after_one(chats, MainActionView::Toast(t@));
        },
        MainMsg::SelectChatroom(a, g) => {
            if rooms.contains((a, g)) {
                lemma_after_one(chats, MainActionView::ShowChatroom((a, g)));
            } else {
                lemma_prepend_fresh(rooms, chats, (a, g));
                lemma_after_two(chats, MainActionView::InsertChatItem((a, g), Seq::empty()), MainActionView::ShowChatroom((a, g)));
            }
        },
        MainMsg::FriendMessage { friend_id, message } => {
            lemma_incoming_in_sync(rooms, chats, (friend_id, false), message);
        },
        MainMsg::GroupMessage { group_id, message } => {
            lemma_incoming_in_sync(rooms, chats, (group_id, true), message);
        },
    }
}

/// Law: after a message in a chat, when the chat list lists the open
/// chatrooms, that chat stands first in the chat list once the sidebar
/// applied what the main page asked of it.
pub proof fn law_latest_chat_first(rooms: Seq<ChatKey>, chats: Seq<ChatKey>, msg: MainMsg)
    requires
        same_keys(rooms, chats),
        msg is FriendMessage || msg is GroupMessage,
    ensures
        chat_keys_after(chats, main_actions(rooms, msg)).len() > 0,
        chat_keys_after(chats, main_actions(rooms, msg))[0] == target(msg)->0,
{
    let k = target(msg)->0;
    let m = match msg {
        MainMsg::FriendMessage { message, .. } => message,
        MainMsg::GroupMessage { message, .. } => message,
        _ => arbitrary(),
    };
    assert(main_actions(rooms, msg) == incoming_actions(rooms, k, m));
    if rooms.contains(k) {
        assert(chats.contains(k));
        lemma_first_index(chats, k);
        lemma_after_one(chats, MainActionView::UpdateChatItem(k, preview(m)));
        let i = first_index(chats, k);
        assert(swap_front(chats, i)[0] == chats[i]);
    } else if rooms.len() == 0 {
        lemma_after_two(chats, MainActionView::InsertChatItem(k, preview(m)), MainActionView::ShowChatroom(k));
    } else {
        lemma_after_one(chats, MainActionView::InsertChatItem(k, preview(m)));
    }
}

proof fn lemma_prepend_fresh(rooms: Seq<ChatKey>, chats: Seq<ChatKey>, k: ChatKey)
    requires
        rooms.no_duplicates(),
        chats.no_duplicates(),
        same_keys(rooms, chats),
        !rooms.contains(k),
    ensures
        (seq![k] + chats).no_duplicates(),
        same_keys(seq![k] + rooms, seq![k] + chats),
{
    assert(!chats.contains(k));
    let c1 = seq![k] + chats;
    let r1 = seq![k] + rooms;
    assert forall|i: int, j: int| 0 <= i < c1.len() && 0 <= j < c1.len() && i != j implies c1[i] != c1[j] by {
        if i == 0 && j > 0 {
            assert(c1[j] == chats[j - 1]);
        } else if j == 0 && i > 0 {
            assert(c1[i] == chats[i - 1]);
        } else if i > 0 && j > 0 {
            assert(c1[i] == chats[i - 1]);
            assert(c1[j] == chats[j - 1]);
        }
    }
    assert forall|x: ChatKey| r1.contains(x) <==> c1.contains(x) by {
        if r1.contains(x) {
            let w = choose|w: int| 0 <= w < r1.len() && r1[w] == x;
            if w == 0 {
                assert(c1[0] == x);
            } else {
                assert(rooms[w - 1] == x);
                assert(rooms.contains(x));
                assert(chats.contains(x));
                let v = choose|v: int| 0 <= v < chats.len() && chats[v] == x;
                assert(c1[v + 1] == x);
            }
        }
        if c1.contains(x) {
            let w = choose|w: int| 0 <= w < c1.len() && c1[w] == x;
            if w == 0 {
                assert(r1[0] == x);
            } else {
                assert(chats[w - 1] == x);
                assert(chats.contains(x));
                assert(rooms.contains(x));
                let v = choose|v: int| 0 <= v < rooms.len() && rooms[v] == x;
                assert(r1[v + 1] == x);
            }
        }
    }
}

proof fn lemma_incoming_in_sync(rooms: Seq<ChatKey>, chats: Seq<ChatKey>, k: ChatKey, m: Message)
    requires
        rooms.no_duplicates(),
        chats.no_duplicates(),
        same_keys(rooms, chats),
    ensures
        chat_keys_after(chats, incoming_actions(rooms, k, m)).no_duplicates(),
        same_keys(
            if rooms.contains(k) { rooms } else { seq![k] + rooms },
            chat_keys_after(chats, incoming_actions(rooms, k, m)),
        ),
{
    let actions = incoming_actions(rooms, k, m);
    if rooms.contains(k) {
        assert(chats.contains(k));
        lemma_first_index(chats, k);
        let i = first_index(chats, k);
        lemma_swap_keeps_keys(chats, i);
        lemma_after_one(chats, MainActionView::UpdateChatItem(k, preview(m)));
        assert forall|x: ChatKey| rooms.contains(x) <==> swap_front(chats, i).contains(x) by {
            assert(rooms.contains(x) <==> chats.contains(x));
            assert(chats.contains(x) <==> swap_front(chats, i).contains(x));
        }
    } else {
        lemma_prepend_fresh(rooms, chats, k);
        if rooms.len() == 0 {
            lemma_after_two(chats, MainActionView::InsertChatItem(k, preview(m)), MainActionView::ShowChatroom(k));
        } else {
            lemma_after_one(chats, MainActionView::InsertChatItem(k, preview(m)));
        }
    }
}


/// What the sidebar's chat list is told.
#[derive(Debug, Clone, PartialEq, Eq)]
pub enum ChatsMsg {
    SelectChatroom(i32),
    UpdateChatItem(i64, bool, String),
    InsertChatItem(i64, bool, String),
}

/// Where the sidebar passes a message on to.
#[derive(Debug, Clone, PartialEq, Eq)]
pub enum SidebarRoute {
    /// To the main page.
    Main(MainMsg),
    /// To the chat list.
    Chats(ChatsMsg),
}

/// The sidebar: the chat list and the contact pages.
#[derive(Debug, Clone, PartialEq, Eq)]
pub struct SidebarModel;

impl SidebarModel {
    /// Passes a sidebar message on: choices and notices go up to the main
    /// page, chat list updates go down to the chat list.
    pub fn update(msg: SidebarMsg) -> (r: SidebarRoute)
        ensures
            match msg {
                SidebarMsg::SelectChatroom(a, g) => r == SidebarRoute::Main(MainMsg::SelectChatroom(a, g)),
                SidebarMsg::UpdateChatItem(a, g, t) => r == SidebarRoute::Chats(ChatsMsg::UpdateChatItem(a, g, t)),
                SidebarMsg::InsertChatItem(a, g, t) => r == SidebarRoute::Chats(ChatsMsg::InsertChatItem(a, g, t)),
                SidebarMsg::PushToast(t) => r == SidebarRoute::Main(MainMsg::PushToast(t)),
            },
    {
        match msg {
            SidebarMsg::SelectChatroom(a, g) => SidebarRoute::Main(MainMsg::SelectChatroom(a, g)),
            SidebarMsg::UpdateChatItem(a, g, t) => SidebarRoute::Chats(ChatsMsg::UpdateChatItem(a, g, t)),
            SidebarMsg::InsertChatItem(a, g, t) => SidebarRoute::Chats(ChatsMsg::InsertChatItem(a, g, t)),
            SidebarMsg::PushToast(t) => SidebarRoute::Main(MainMsg::PushToast(t)),
        }
    }
}

/// What the contact pages tell the sidebar.
#[derive(Debug, Clone, PartialEq, Eq)]
pub enum ContactMsg {
    SelectChatroom(i64, bool),
    PushToast(String),
}

/// The contact pages: friends and groups.
#[derive(Debug, Clone, PartialEq, Eq)]
pub struct ContactModel;

impl ContactModel {
    /// Passes a contact page message up to the sidebar.
    pub fn update(msg: ContactMsg) -> (r: SidebarMsg)
        ensures
            match msg {
                ContactMsg::SelectChatroom(a, g) => r == SidebarMsg::SelectChatroom(a, g),
                ContactMsg::PushToast(t) => r == SidebarMsg::PushToast(t),
            },
    {
        match msg {
            ContactMsg::SelectChatroom(a, g) => SidebarMsg::SelectChatroom(a, g),
            ContactMsg::PushToast(t) => SidebarMsg::PushToast(t),
        }
    }
}

} // verus!
