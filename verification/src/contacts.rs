//! The contact pages: friends shown by friend group, and searching friends
//! and groups by name.

use vstd::prelude::*;
use crate::main_page::ContactMsg;
use crate::store::{Friend, FriendsGroup as StoredFriendsGroup, Group};
use crate::decimal::{i64_to_string, int_text, usize_to_string};
use crate::strings::{owned, push_str};

verus! {

/// The text `str::to_lowercase` gives for a text.
pub uninterp spec fn spec_to_lowercase(s: Seq<char>) -> Seq<char>;

/// `str::to_lowercase`: the text with every character in lower case, as the
/// name `spec_to_lowercase` says; the Unicode case mapping is not restated.
#[verifier::external_body]
fn to_lowercase(s: &str) -> (r: String)
    ensures
        r@ == spec_to_lowercase(s@),
{
    s.to_lowercase()
}

/// Whether `needle` occurs in `hay` as a run of consecutive characters.
pub open spec fn has_substring(hay: Seq<char>, needle: Seq<char>) -> bool {
    exists|i: int| 0 <= i && i + needle.len() <= hay.len() && #[trigger] hay.subrange(i, i + needle.len()) == needle
}

/// Whether `needle` occurs at character `at` of `hay`.
fn occurs_at(hay: &str, needle: &str, at: usize) -> (r: bool)
    requires
        at + needle@.len() <= hay@.len(),
    ensures
        r == (hay@.subrange(at as int, at + needle@.len()) == needle@),
{
    let h = hay.unicode_len();
    let n = needle.unicode_len();
    let mut j: usize = 0;
    while j < n
        invariant
            h == hay@.len(),
            n == needle@.len(),
            at + n <= hay@.len(),
            0 <= j <= n,
            forall|t: int| 0 <= t < j ==> hay@[at + t] == needle@[t],
        decreases n - j,
    {
        if hay.get_char(at + j) != needle.get_char(j) {
            assert(hay@.subrange(at as int, at + n)[j as int] != needle@[j as int]);
            return false;
        }
        j = j + 1;
    }
    assert(hay@.subrange(at as int, at + n) =~= needle@);
    true
}

/// Whether `needle` occurs in `hay` (`str::contains`).
pub fn contains_text(hay: &str, needle: &str) -> (r: bool)
    ensures
        r == has_substring(hay@, needle@),
{
    let h = hay.unicode_len();
    let n = needle.unicode_len();
    if n > h {
        proof {
            if has_substring(hay@, needle@) {
                let i = choose|i: int| 0 <= i && i + needle@.len() <= hay@.len() && #[trigger] hay@.subrange(i, i + needle@.len()) == needle@;
            }
        }
        return false;
    }
    if n == 0 {
        assert(hay@.subrange(0int, 0int + needle@.len()) =~= needle@);
        return true;
    }
    let mut at: usize = 0;
    while at <= h - n
        invariant
            h == hay@.len(),
            n == needle@.len(),
            1 <= n <= h,
            forall|i: int| 0 <= i < at ==> #[trigger] hay@.subrange(i, i + n) != needle@,
        decreases h - n + 1 - at,
    {
        if occurs_at(hay, needle, at) {
            return true;
        }
        at = at + 1;
    }
    proof {
        if has_substring(hay@, needle@) {
            let i = choose|i: int| 0 <= i && i + needle@.len() <= hay@.len() && #[trigger] hay@.subrange(i, i + needle@.len()) == needle@;
            assert(hay@.subrange(i, i + n) != needle@);
        }
    }
    false
}

/// Whether a friend's nickname or remark holds the (lower-case) keyword,
/// ignoring case.
pub open spec fn friend_matches(f: Friend, keyword: Seq<char>) -> bool {
    has_substring(spec_to_lowercase(f.name@), keyword) || has_substring(spec_to_lowercase(f.remark@), keyword)
}

/// The friends of `s` that match the (lower-case) keyword, in order.
pub open spec fn matching_friends(s: Seq<Friend>, keyword: Seq<char>) -> Seq<Friend>
    decreases s.len(),
{
    if s.len() == 0 {
        Seq::empty()
    } else if friend_matches(s.last(), keyword) {
        matching_friends(s.drop_last(), keyword).push(s.last())
    } else {
        matching_friends(s.drop_last(), keyword)
    }
}

/// The friends whose nickname or remark holds the keyword, ignoring case, in order.
pub fn render_search_result(friends: &[Friend], keyword: &str) -> (r: Vec<Friend>)
    ensures
        r@ == matching_friends(friends@, spec_to_lowercase(keyword@)),
{
    let key = to_lowercase(keyword);
    let mut out: Vec<Friend> = Vec::new();
    let mut i: usize = 0;
    while i < friends.len()
        invariant
            0 <= i <= friends@.len(),
            key@ == spec_to_lowercase(keyword@),
            out@ == matching_friends(friends@.subrange(0, i as int), key@),
        decreases friends@.len() - i,
    {
        let f = &friends[i];
        let name = to_lowercase(f.name.as_str());
        let remark = to_lowercase(f.remark.as_str());
        let hit = contains_text(name.as_str(), key.as_str()) || contains_text(remark.as_str(), key.as_str());
        proof {
            assert(friends@.subrange(0, i + 1).drop_last() =~= friends@.subrange(0, i as int));
            assert(friends@.subrange(0, i + 1).last() == friends@[i as int]);
        }
        if hit {
            out.push(f.duplicate());
        }
        i = i + 1;
    }
    proof {
        assert(friends@.subrange(0, friends@.len() as int) =~= friends@);
    }
    out
}

/// Law: a keyword whose lower case is empty matches every friend, so the
/// search lists them all, in order.
pub proof fn law_empty_keyword_finds_all_friends(friends: Seq<Friend>)
    ensures
        matching_friends(friends, Seq::empty()) == friends,
    decreases friends.len(),
{
    if friends.len() > 0 {
        law_empty_keyword_finds_all_friends(friends.drop_last());
        let f = friends.last();
        let h = spec_to_lowercase(f.name@);
        let e = Seq::<char>::empty();
        assert(h.subrange(0, 0int + e.len()) =~= e);
        assert(has_substring(h, e));
        assert(friends.drop_last().push(f) =~= friends);
    }
}

/// The groups of `s` whose name holds the (lower-case) keyword, ignoring case, in order.
pub open spec fn matching_groups(s: Seq<Group>, keyword: Seq<char>) -> Seq<Group>
    decreases s.len(),
{
    if s.len() == 0 {
        Seq::empty()
    } else if has_substring(spec_to_lowercase(s.last().name@), keyword) {
        matching_groups(s.drop_last(), keyword).push(s.last())
    } else {
        matching_groups(s.drop_last(), keyword)
    }
}

/// The groups to list for a search: all of them for an empty keyword,
/// else those whose name holds the keyword, ignoring case, in order.
pub fn search(groups: &[Group], keyword: &str) -> (r: Vec<Group>)
    ensures
        keyword@.len() == 0 ==> r@ == groups@,
        keyword@.len() != 0 ==> r@ == matching_groups(groups@, spec_to_lowercase(keyword@)),
{
    let empty = keyword.unicode_len() == 0;
    let key = to_lowercase(keyword);
    let mut out: Vec<Group> = Vec::new();
    let mut i: usize = 0;
    while i < groups.len()
        invariant
            0 <= i <= groups@.len(),
            empty == (keyword@.len() == 0),
            key@ == spec_to_lowercase(keyword@),
            empty ==> out@ == groups@.subrange(0, i as int),
            !empty ==> out@ == matching_groups(groups@.subrange(0, i as int), key@),
        decreases groups@.len() - i,
    {
        let g = &groups[i];
        proof {
            assert(groups@.subrange(0, i + 1).drop_last() =~= groups@.subrange(0, i as int));
            assert(groups@.subrange(0, i + 1).last() == groups@[i as int]);
            assert(groups@.subrange(0, i as int).push(groups@[i as int]) =~= groups@.subrange(0, i + 1));
        }
        if empty {
            out.push(g.duplicate());
        } else {
            let name = to_lowercase(g.name.as_str());
            if contains_text(name.as_str(), key.as_str()) {
                out.push(g.duplicate());
            }
        }
        i = i + 1;
    }
    proof {
        assert(groups@.subrange(0, groups@.len() as int) =~= groups@);
    }
    out
}

/// A friend group with its friends, as the contact page shows it.
#[derive(Debug, Clone, PartialEq, Eq)]
pub struct FriendsGroup {
    pub id: u8,
    pub name: String,
    pub online_friends: i32,
    pub friends: Vec<Friend>,
}

/// What a friend group of the friends page is told: a friend was picked.
#[derive(Debug, Clone, PartialEq, Eq)]
pub enum FriendsGroupMessage {
    SelectUser(i64),
}

/// The subtitle of a friend group: online friends, a slash, all friends.
pub open spec fn group_subtitle(online_friends: i32, count: nat) -> Seq<char> {
    int_text(online_friends as int) + "/"@ + int_text(count as int)
}

impl FriendsGroup {
    /// The subtitle shown under the group's name.
    pub fn subtitle(&self) -> (r: String)
        ensures
            r@ == group_subtitle(self.online_friends, self.friends@.len()),
    {
        let mut out = i64_to_string(self.online_friends as i64);
        push_str(&mut out, "/");
        let count = usize_to_string(self.friends.len());
        push_str(&mut out, count.as_str());
        out
    }

    /// A picked friend opens the friend's chatroom.
    pub fn update(msg: FriendsGroupMessage) -> (r: FriendsMsg)
        ensures
            match msg {
                FriendsGroupMessage::SelectUser(id) => r == FriendsMsg::SelectChatroom(id, false),
            },
    {
        match msg {
            FriendsGroupMessage::SelectUser(id) => FriendsMsg::SelectChatroom(id, false),
        }
    }
}

/// The friends of `s` in the friend group `id`, in order.
pub open spec fn friends_in(s: Seq<Friend>, id: u8) -> Seq<Friend>
    decreases s.len(),
{
    if s.len() == 0 {
        Seq::empty()
    } else if s.last().group_id == id {
        friends_in(s.drop_last(), id).push(s.last())
    } else {
        friends_in(s.drop_last(), id)
    }
}

/// The friends of one friend group, in order.
fn collect_friends(friends: &[Friend], id: u8) -> (r: Vec<Friend>)
    ensures
        r@ == friends_in(friends@, id),
{
    let mut out: Vec<Friend> = Vec::new();
    let mut i: usize = 0;
    while i < friends.len()
        invariant
            0 <= i <= friends@.len(),
            out@ == friends_in(friends@.subrange(0, i as int), id),
        decreases friends@.len() - i,
    {
        proof {
            assert(friends@.subrange(0, i + 1).drop_last() =~= friends@.subrange(0, i as int));
            assert(friends@.subrange(0, i + 1).last() == friends@[i as int]);
        }
        if friends[i].group_id == id {
            out.push(friends[i].duplicate());
        }
        i = i + 1;
    }
    proof {
        assert(friends@.subrange(0, friends@.len() as int) =~= friends@);
    }
    out
}

/// The friend groups to show, each with its friends, groups and friends in
/// their stored order.
pub fn render_friends(groups: &[StoredFriendsGroup], friends: &[Friend]) -> (r: Vec<FriendsGroup>)
    ensures
        friends_rendered(r@, groups@, friends@),
{
    let mut out: Vec<FriendsGroup> = Vec::new();
    let mut i: usize = 0;
    while i < groups.len()
        invariant
            0 <= i <= groups@.len(),
            out@.len() == i,
            forall|j: int|
                0 <= j < i ==> {
                    &&& (#[trigger] out@[j]).id == groups@[j].id
                    &&& out@[j].name == groups@[j].name
                    &&& out@[j].online_friends == groups@[j].online_friends
                    &&& out@[j].friends@ == friends_in(friends@, groups@[j].id)
                },
        decreases groups@.len() - i,
    {
        let g = &groups[i];
        let members = collect_friends(friends, g.id);
        out.push(FriendsGroup { id: g.id, name: g.name.clone(), online_friends: g.online_friends, friends: members });
        i = i + 1;
    }
    out
}

/// Law: every friend is listed in the friend group it belongs to, and only there.
pub proof fn law_friend_in_own_group(friends: Seq<Friend>, id: u8, f: Friend)
    requires
        friends.contains(f),
    ensures
        friends_in(friends, id).contains(f) <==> f.group_id == id,
{
    if f.group_id == id {
        lemma_friends_in_keeps(friends, id, f);
    }
    if friends_in(friends, id).contains(f) {
        lemma_friends_in_member(friends, id, f);
    }
}

proof fn lemma_friends_in_member(friends: Seq<Friend>, id: u8, x: Friend)
    requires
        friends_in(friends, id).contains(x),
    ensures
        x.group_id == id,
        friends.contains(x),
    decreases friends.len(),
{
    if friends.len() == 0 {
        assert(friends_in(friends, id) =~= Seq::<Friend>::empty());
        assert(false);
    } else {
        let rest = friends_in(friends.drop_last(), id);
        let all = friends_in(friends, id);
        let w = choose|w: int| 0 <= w < all.len() && all[w] == x;
        if friends.last().group_id == id && w == rest.len() {
            assert(all == rest.push(friends.last()));
            assert(x == friends.last());
            assert(friends[friends.len() - 1] == x);
        } else {
            if friends.last().group_id == id {
                assert(all == rest.push(friends.last()));
                assert(rest[w] == x);
            } else {
                assert(all == rest);
            }
            assert(rest.contains(x));
            lemma_friends_in_member(friends.drop_last(), id, x);
            let v = choose|v: int| 0 <= v < friends.drop_last().len() && friends.drop_last()[v] == x;
            assert(friends[v] == x);
        }
    }
}

proof fn lemma_friends_in_keeps(friends: Seq<Friend>, id: u8, f: Friend)
    requires
        friends.contains(f),
        f.group_id == id,
    ensures
        friends_in(friends, id).contains(f),
    decreases friends.len(),
{
    let rest = friends_in(friends.drop_last(), id);
    if friends.last() == f {
        assert(friends_in(friends, id) == rest.push(f));
        assert(rest.push(f)[rest.len() as int] == f);
    } else {
        let v = choose|v: int| 0 <= v < friends.len() && friends[v] == f;
        assert(v < friends.len() - 1);
        assert(friends.drop_last()[v] == f);
        lemma_friends_in_keeps(friends.drop_last(), id, f);
        let w = choose|w: int| 0 <= w < rest.len() && rest[w] == f;
        if friends.last().group_id == id {
            assert(rest.push(friends.last())[w] == f);
        }
    }
}


/// What the friends page is told.
#[derive(Debug, Clone, PartialEq, Eq)]
pub enum FriendsMsg {
    SelectChatroom(i64, bool),
    SelectSearchItem(i32),
    Search(String),
    Refresh,
    Render,
}

/// What the friends page asks to be done.
#[derive(Debug, Clone, PartialEq, Eq)]
pub enum FriendsAction {
    /// Tell the contact pages.
    Contact(ContactMsg),
    /// Tell the friends page itself.
    Input(FriendsMsg),
    /// Fetch the friend list from the server, then render it.
    StartRefresh,
    /// Render the stored friends by friend group, then report how it went.
    RenderFriends,
    /// Show the friends by friend group.
    ShowFriendList,
    /// Render the search result for this keyword, then show it.
    ShowSearch(String),
}

/// The friends page: the friends shown by friend group, the friends found
/// by the last search, and whether the refresh button can be pressed.
#[derive(Debug, Clone, PartialEq, Eq)]
pub struct FriendsModel {
    pub friends_list: Vec<FriendsGroup>,
    pub search_list: Vec<Friend>,
    pub is_refresh_button_enabled: bool,
}

/// The notice after a refresh of the friend list.
pub open spec fn friends_refreshed_notice() -> Seq<char> {
    "Refreshed the friends list."@
}

/// Whether `shown` is what the friends page shows for the stored friend
/// groups and friends: each group, in order, with its friends.
pub open spec fn friends_rendered(shown: Seq<FriendsGroup>, groups: Seq<StoredFriendsGroup>, friends: Seq<Friend>) -> bool {
    &&& shown.len() == groups.len()
    &&& forall|i: int|
        0 <= i < groups.len() ==> {
            &&& (#[trigger] shown[i]).id == groups[i].id
            &&& shown[i].name == groups[i].name
            &&& shown[i].online_friends == groups[i].online_friends
            &&& shown[i].friends@ == friends_in(friends, groups[i].id)
        }
}

/// Law: each friend group shown is the stored one at the same place, with
/// its own id, name and stored online count, and it lists exactly the
/// stored friends that belong to it, in order.
pub proof fn law_shown_groups_are_stored_groups(
    shown: Seq<FriendsGroup>,
    groups: Seq<StoredFriendsGroup>,
    friends: Seq<Friend>,
    i: int,
    f: Friend,
)
    requires
        friends_rendered(shown, groups, friends),
        0 <= i < groups.len(),
        friends.contains(f),
    ensures
        shown.len() == groups.len(),
        shown[i].id == groups[i].id,
        shown[i].name == groups[i].name,
        shown[i].online_friends == groups[i].online_friends,
        shown[i].friends@.contains(f) <==> f.group_id == groups[i].id,
{
    law_friend_in_own_group(friends, groups[i].id, f);
}

impl FriendsModel {
    /// A friends page with nothing rendered yet and the refresh button enabled.
    pub fn new() -> (r: FriendsModel)
        ensures
            r.friends_list@.len() == 0,
            r.search_list@.len() == 0,
            r.is_refresh_button_enabled,
    {
        FriendsModel { friends_list: Vec::new(), search_list: Vec::new(), is_refresh_button_enabled: true }
    }

    /// Handles one message of the friends page and says what else must be
    /// done. A picked search result must be one of those listed.
    pub fn update(&mut self, msg: FriendsMsg) -> (r: FriendsAction)
        requires
            msg matches FriendsMsg::SelectSearchItem(i) ==> 0 <= i < old(self).search_list@.len(),
        ensures
            final(self).friends_list == old(self).friends_list,
            final(self).search_list == old(self).search_list,
            match msg {
                FriendsMsg::SelectChatroom(a, g) => r == FriendsAction::Contact(ContactMsg::SelectChatroom(a, g))
                    && final(self).is_refresh_button_enabled == old(self).is_refresh_button_enabled,
                FriendsMsg::SelectSearchItem(i) => r == FriendsAction::Input(FriendsMsg::SelectChatroom(old(self).search_list@[i as int].id, false))
                    && final(self).is_refresh_button_enabled == old(self).is_refresh_button_enabled,
                FriendsMsg::Refresh => r is StartRefresh && !final(self).is_refresh_button_enabled,
                FriendsMsg::Render => r is RenderFriends && final(self).is_refresh_button_enabled,
                FriendsMsg::Search(k) => (if k@.len() == 0 {
                    r is ShowFriendList
                } else {
                    r == FriendsAction::ShowSearch(k)
                }) && final(self).is_refresh_button_enabled == old(self).is_refresh_button_enabled,
            },
    {
        match msg {
            FriendsMsg::SelectChatroom(a, g) => FriendsAction::Contact(ContactMsg::SelectChatroom(a, g)),
            FriendsMsg::SelectSearchItem(i) => {
                let account = self.search_list[i as usize].id;
                FriendsAction::Input(FriendsMsg::SelectChatroom(account, false))
            },
            FriendsMsg::Refresh => {
                self.is_refresh_button_enabled = false;
                FriendsAction::StartRefresh
            },
            FriendsMsg::Render => {
                self.is_refresh_button_enabled = true;
                FriendsAction::RenderFriends
            },
            FriendsMsg::Search(k) => {
                if k.as_str().unicode_len() == 0 {
                    FriendsAction::ShowFriendList
                } else {
                    FriendsAction::ShowSearch(k)
                }
            },
        }
    }

    /// Renders the stored friend groups and friends: each group, in its
    /// stored order, with its friends.
    pub fn render_friends(&mut self, groups: &[StoredFriendsGroup], friends: &[Friend])
        ensures
            friends_rendered(final(self).friends_list@, groups@, friends@),
            final(self).search_list == old(self).search_list,
            final(self).is_refresh_button_enabled == old(self).is_refresh_button_enabled,
    {
        self.friends_list = render_friends(groups, friends);
    }

    /// Renders the result of a search: the stored friends whose nickname or
    /// remark holds the keyword, ignoring case.
    pub fn render_search_result(&mut self, friends: &[Friend], keyword: &str)
        ensures
            final(self).search_list@ == matching_friends(friends@, spec_to_lowercase(keyword@)),
            final(self).friends_list == old(self).friends_list,
            final(self).is_refresh_button_enabled == old(self).is_refresh_button_enabled,
    {
        self.search_list = render_search_result(friends, keyword);
    }

    /// The notice after rendering the friends: the error's message, or that
    /// the list was refreshed.
    pub fn render_notice(error: Option<String>) -> (r: ContactMsg)
        ensures
            match error {
                Some(e) => r == ContactMsg::PushToast(e),
                None => r matches ContactMsg::PushToast(t) && t@ == friends_refreshed_notice(),
            },
    {
        match error {
            Some(e) => ContactMsg::PushToast(e),
            None => ContactMsg::PushToast(owned("Refreshed the friends list.")),
        }
    }
}

/// What the groups page is told.
#[derive(Debug, Clone, PartialEq, Eq)]
pub enum GroupsMsg {
    Refresh,
    Render,
    Search(String),
    Select(i32),
}

/// What the groups page asks to be done.
#[derive(Debug, Clone, PartialEq, Eq)]
pub enum GroupsAction {
    /// Tell the contact pages.
    Contact(ContactMsg),
    /// Fetch the group list from the server, then render it.
    StartRefresh,
    /// Render the stored groups, ordered by name, then report how it went.
    RenderGroups,
    /// List the stored groups that match this keyword.
    Search(String),
}

/// The groups page: the groups listed, and whether the refresh button can
/// be pressed.
#[derive(Debug, Clone, PartialEq, Eq)]
pub struct GroupsModel {
    pub group_list: Vec<Group>,
    pub is_refresh_button_enabled: bool,
}

/// The notice after a refresh of the group list.
pub open spec fn groups_refreshed_notice() -> Seq<char> {
    "Refreshed the groups list."@
}

impl GroupsModel {
    /// A groups page with nothing listed yet and the refresh button enabled.
    pub fn new() -> (r: GroupsModel)
        ensures
            r.group_list@.len() == 0,
            r.is_refresh_button_enabled,
    {
        GroupsModel { group_list: Vec::new(), is_refresh_button_enabled: true }
    }

    /// Handles one message of the groups page and says what else must be
    /// done. A picked group must be one of those listed.
    pub fn update(&mut self, msg: GroupsMsg) -> (r: GroupsAction)
        requires
            msg matches GroupsMsg::Select(i) ==> 0 <= i < old(self).group_list@.len(),
        ensures
            final(self).group_list == old(self).group_list,
            match msg {
                GroupsMsg::Refresh => r is StartRefresh && !final(self).is_refresh_button_enabled,
                GroupsMsg::Render => r is RenderGroups && final(self).is_refresh_button_enabled,
                GroupsMsg::Search(k) => r == GroupsAction::Search(k)
                    && final(self).is_refresh_button_enabled == old(self).is_refresh_button_enabled,
                GroupsMsg::Select(i) => r == GroupsAction::Contact(ContactMsg::SelectChatroom(old(self).group_list@[i as int].id, true))
                    && final(self).is_refresh_button_enabled == old(self).is_refresh_button_enabled,
            },
    {
        match msg {
            GroupsMsg::Refresh => {
                self.is_refresh_button_enabled = false;
                GroupsAction::StartRefresh
            },
            GroupsMsg::Render => {
                self.is_refresh_button_enabled = true;
                GroupsAction::RenderGroups
            },
            GroupsMsg::Search(k) => GroupsAction::Search(k),
            GroupsMsg::Select(i) => {
                let account = self.group_list[i as usize].id;
                GroupsAction::Contact(ContactMsg::SelectChatroom(account, true))
            },
        }
    }

    /// Lists the stored groups, in the order they were read (by name).
    pub fn render_groups(&mut self, groups: Vec<Group>)
        ensures
            final(self).group_list == groups,
            final(self).is_refresh_button_enabled == old(self).is_refresh_button_enabled,
    {
        self.group_list = groups;
    }

    /// Lists the stored groups that match a search: all of them for an
    /// empty keyword, else those whose name holds it, ignoring case.
    pub fn search(&mut self, groups: &[Group], keyword: &str)
        ensures
            keyword@.len() == 0 ==> final(self).group_list@ == groups@,
            keyword@.len() != 0 ==> final(self).group_list@ == matching_groups(groups@, spec_to_lowercase(keyword@)),
            final(self).is_refresh_button_enabled == old(self).is_refresh_button_enabled,
    {
        self.group_list = search(groups, keyword);
    }

    /// The notice after rendering the groups: the error's message, or that
    /// the list was refreshed.
    pub fn render_notice(error: Option<String>) -> (r: ContactMsg)
        ensures
            match error {
                Some(e) => r == ContactMsg::PushToast(e),
                None => r matches ContactMsg::PushToast(t) && t@ == groups_refreshed_notice(),
            },
    {
        match error {
            Some(e) => ContactMsg::PushToast(e),
            None => ContactMsg::PushToast(owned("Refreshed the groups list.")),
        }
    }
}

} // verus!
