//! The rows the client keeps in its local database, and the decisions taken
//! on what the database returns.

use vstd::prelude::*;
use crate::decimal::{i64_to_string, int_text, law_usize_text_round_trip, parse_usize, spec_parse_usize, usize_to_string};
use crate::strings::{owned, push_str};

verus! {

/// One stored setting.
#[derive(Debug, Clone, PartialEq, Eq)]
pub struct Config {
    pub key: String,
    pub value: String,
}

/// A friend as stored: QQ number, nickname, remark and friend group.
#[derive(Debug, Clone, PartialEq, Eq)]
pub struct Friend {
    pub id: i64,
    pub name: String,
    pub remark: String,
    pub group_id: u8,
}

impl Friend {
    /// A copy of this friend.
    pub fn duplicate(&self) -> (r: Friend)
        ensures
            r == *self,
    {
        Friend { id: self.id, name: self.name.clone(), remark: self.remark.clone(), group_id: self.group_id }
    }
}

/// A friend group as stored: its id, its name and how many of its friends are online.
#[derive(Debug, Clone, PartialEq, Eq)]
pub struct FriendsGroup {
    pub id: u8,
    pub name: String,
    pub online_friends: i32,
}

/// A chat group as stored: its number and its name.
#[derive(Debug, Clone, PartialEq, Eq)]
pub struct Group {
    pub id: i64,
    pub name: String,
}

impl Group {
    /// A copy of this group.
    pub fn duplicate(&self) -> (r: Group)
        ensures
            r == *self,
    {
        Group { id: self.id, name: self.name.clone() }
    }
}

/// A friend group as the server lists it.
#[derive(Debug, Clone, PartialEq, Eq)]
pub struct FriendGroupInfo {
    pub group_id: u8,
    pub group_name: String,
    pub friend_count: i32,
    pub online_friend_count: i32,
    pub seq_id: u8,
}

/// The friend groups of `s` whose position number is `k`, in their order in `s`.
pub open spec fn with_seq_id(s: Seq<FriendGroupInfo>, k: u8) -> Seq<FriendGroupInfo>
    decreases s.len(),
{
    if s.len() == 0 {
        Seq::empty()
    } else if s.last().seq_id == k {
        with_seq_id(s.drop_last(), k).push(s.last())
    } else {
        with_seq_id(s.drop_last(), k)
    }
}

/// Whether the friend groups of `s` come in ascending order of position number.
pub open spec fn sorted_by_seq_id(s: Seq<FriendGroupInfo>) -> bool {
    forall|i: int, j: int| 0 <= i < j < s.len() ==> s[i].seq_id <= s[j].seq_id
}

/// Whether `out` is `input` sorted by position number, groups of equal
/// position number kept in their order in `input` (a stable sort).
pub open spec fn stably_sorted_by_seq_id(out: Seq<FriendGroupInfo>, input: Seq<FriendGroupInfo>) -> bool {
    &&& sorted_by_seq_id(out)
    &&& forall|k: u8| #[trigger] with_seq_id(out, k) == with_seq_id(input, k)
}

proof fn lemma_with_seq_id_concat(a: Seq<FriendGroupInfo>, b: Seq<FriendGroupInfo>, k: u8)
    ensures
        with_seq_id(a + b, k) == with_seq_id(a, k) + with_seq_id(b, k),
    decreases b.len(),
{
    if b.len() == 0 {
        assert(a + b =~= a);
        assert(with_seq_id(a, k) + with_seq_id(b, k) =~= with_seq_id(a, k));
    } else {
        lemma_with_seq_id_concat(a, b.drop_last(), k);
        assert((a + b).drop_last() =~= a + b.drop_last());
        assert((a + b).last() == b.last());
        if b.last().seq_id == k {
            assert(with_seq_id(a, k) + with_seq_id(b.drop_last(), k).push(b.last())
                =~= (with_seq_id(a, k) + with_seq_id(b.drop_last(), k)).push(b.last()));
        }
    }
}

proof fn lemma_with_seq_id_none(s: Seq<FriendGroupInfo>, k: u8)
    requires
        forall|i: int| 0 <= i < s.len() ==> s[i].seq_id != k,
    ensures
        with_seq_id(s, k) == Seq::<FriendGroupInfo>::empty(),
    decreases s.len(),
{
    if s.len() > 0 {
        lemma_with_seq_id_none(s.drop_last(), k);
    }
}

proof fn lemma_with_seq_id_single(x: FriendGroupInfo, k: u8)
    ensures
        with_seq_id(seq![x], k) == (if x.seq_id == k { seq![x] } else { Seq::<FriendGroupInfo>::empty() }),
{
    assert(seq![x].drop_last() =~= Seq::<FriendGroupInfo>::empty());
    assert(seq![x].last() == x);
    assert(with_seq_id(Seq::<FriendGroupInfo>::empty(), k) == Seq::<FriendGroupInfo>::empty());
    assert(Seq::<FriendGroupInfo>::empty().push(x) =~= seq![x]);
}

/// Sorts friend groups by position number, keeping groups of equal position
/// number in the order they came (`sort_by` on the position number).
pub fn sort_by_seq_id(groups: Vec<FriendGroupInfo>) -> (r: Vec<FriendGroupInfo>)
    ensures
        stably_sorted_by_seq_id(r@, groups@),
{
    let ghost input = groups@;
    let mut rest = groups;
    let mut out: Vec<FriendGroupInfo> = Vec::new();
    let ghost mut taken: int = 0;
    while rest.len() > 0
        invariant
            0 <= taken <= input.len(),
            rest@ == input.subrange(taken, input.len() as int),
            sorted_by_seq_id(out@),
            forall|k: u8| #[trigger] with_seq_id(out@, k) == with_seq_id(input.subrange(0, taken), k),
        decreases rest.len(),
    {
        let x = rest.remove(0);
        let key = x.seq_id;
        let mut j: usize = 0;
        while j < out.len() && out[j].seq_id <= key
            invariant
                0 <= j <= out.len(),
                forall|t: int| 0 <= t < j ==> out@[t].seq_id <= key,
            decreases out.len() - j,
        {
            j = j + 1;
        }
        let ghost before = out@;
        proof {
            assert forall|t: int| j <= t < before.len() implies before[t].seq_id > key by {
                assert(before[j as int].seq_id > key);
                if t > j {
                    assert(before[j as int].seq_id <= before[t].seq_id);
                }
            }
        }
        out.insert(j, x);
        proof {
            let lo = before.subrange(0, j as int);
            let hi = before.subrange(j as int, before.len() as int);
            assert(before =~= lo + hi);
            assert(out@ =~= lo + seq![x] + hi);
            assert(input.subrange(0, taken + 1) =~= input.subrange(0, taken).push(x));
            assert forall|k: u8| #[trigger] with_seq_id(out@, k) == with_seq_id(input.subrange(0, taken + 1), k) by {
                lemma_with_seq_id_concat(lo, hi, k);
                lemma_with_seq_id_concat(lo, seq![x], k);
                lemma_with_seq_id_concat(lo + seq![x], hi, k);
                lemma_with_seq_id_single(x, k);
                assert(input.subrange(0, taken + 1).drop_last() =~= input.subrange(0, taken));
                if k == key {
                    lemma_with_seq_id_none(hi, k);
                    assert(with_seq_id(lo, k) + seq![x] =~= (with_seq_id(lo, k) + Seq::<FriendGroupInfo>::empty()).push(x));
                    assert(with_seq_id(lo, k) + Seq::<FriendGroupInfo>::empty() =~= with_seq_id(lo, k));
                } else {
                    assert(with_seq_id(lo, k) + Seq::<FriendGroupInfo>::empty() =~= with_seq_id(lo, k));
                }
            }
            assert forall|a: int, b: int| 0 <= a < b < out@.len() implies out@[a].seq_id <= out@[b].seq_id by {
                if b < j {
                } else if b == j {
                } else if a < j {
                    assert(out@[b] == before[b - 1]);
                } else if a == j {
                    assert(out@[b] == before[b - 1]);
                } else {
                    assert(out@[a] == before[a - 1]);
                    assert(out@[b] == before[b - 1]);
                }
            }
            taken = taken + 1;
        }
    }
    proof {
        assert(input.subrange(0, taken) =~= input);
    }
    out
}

/// The friend group stored for a friend group the server listed.
pub open spec fn stored_group(info: FriendGroupInfo) -> FriendsGroup {
    FriendsGroup { id: info.group_id, name: info.group_name, online_friends: info.online_friend_count }
}

/// Law: a listed friend group is stored with its own id, its own name and
/// its online count, whatever its friend count.
pub proof fn law_stored_group_keeps_fields(info: FriendGroupInfo)
    ensures
        stored_group(info).id == info.group_id,
        stored_group(info).name == info.group_name,
        stored_group(info).online_friends == info.online_friend_count,
{
}

/// Law: the stored friend groups are the listed ones, as many as were
/// listed, each stored with its own online count, in ascending position
/// order.
pub proof fn law_stored_groups_keep_online_counts(sorted: Seq<FriendGroupInfo>, infos: Seq<FriendGroupInfo>, i: int)
    requires
        stably_sorted_by_seq_id(sorted, infos),
        0 <= i < sorted.len(),
    ensures
        sorted.map_values(|g: FriendGroupInfo| stored_group(g))[i].online_friends == sorted[i].online_friend_count,
        sorted.map_values(|g: FriendGroupInfo| stored_group(g))[i].id == sorted[i].group_id,
        forall|j: int| 0 <= j < i ==> #[trigger] sorted[j].seq_id <= sorted[i].seq_id,
{
}

/// The friend groups to store for the friend groups the server listed, in
/// ascending order of position number, ties in the order they came.
pub fn order_friend_groups(infos: Vec<FriendGroupInfo>) -> (r: Vec<FriendsGroup>)
    ensures
        exists|sorted: Seq<FriendGroupInfo>|
            #![trigger stably_sorted_by_seq_id(sorted, infos@)]
            stably_sorted_by_seq_id(sorted, infos@) && r@ == sorted.map_values(|g: FriendGroupInfo| stored_group(g)),
{
    let mut sorted = sort_by_seq_id(infos);
    let ghost s = sorted@;
    let mut out: Vec<FriendsGroup> = Vec::new();
    while sorted.len() > 0
        invariant
            sorted@ == s.subrange(out@.len() as int, s.len() as int),
            out@.len() <= s.len(),
            out@ == s.subrange(0, out@.len() as int).map_values(|g: FriendGroupInfo| stored_group(g)),
        decreases sorted.len(),
    {
        let g = sorted.remove(0);
        let ghost n: int = out@.len() as int;
        out.push(FriendsGroup { id: g.group_id, name: g.group_name, online_friends: g.online_friend_count });
        proof {
            assert(out@ =~= s.subrange(0, n + 1).map_values(|g: FriendGroupInfo| stored_group(g)));
        }
    }
    proof {
        assert(s.subrange(0, s.len() as int) =~= s);
    }
    out
}


/// One step of opening the local database.
#[derive(Debug, Clone, PartialEq, Eq)]
pub enum InitStep {
    /// Run this statement.
    Execute(String),
    /// Check the stored database version (see [`check_db_version`]).
    CheckDbVersion,
}

/// The statement that creates the settings table.
pub open spec fn configs_table() -> Seq<char> {
    "Create table if not exists configs (
            key     TEXT PRIMARY KEY,
            value   TEXT NOT NULL
        )"@
}

/// The statement that creates the friends table.
pub open spec fn friends_table() -> Seq<char> {
    "Create table if not exists friends (
            id          INT PRIMARY KEY,
            name        TEXT NOT NULL,
            remark      TEXT NOT NULL,
            group_id    INT NOT NULL
        )"@
}

/// The statement that creates the friend groups table.
pub open spec fn friends_groups_table() -> Seq<char> {
    "Create table if not exists friends_groups (
            id              INT PRIMARY KEY,
            name            TEXT NOT NULL,
            online_friends  INT NOT NULL
        )"@
}

/// The statement that creates the groups table.
pub open spec fn groups_table() -> Seq<char> {
    "Create table if not exists groups (
            id          INT PRIMARY KEY,
            name        TEXT NOT NULL
        )"@
}

/// The mathematical value of an [`InitStep`].
pub enum InitStepView {
    Execute(Seq<char>),
    CheckDbVersion,
}

impl View for InitStep {
    type V = InitStepView;

    open spec fn view(&self) -> InitStepView {
        match self {
            InitStep::Execute(t) => InitStepView::Execute(t@),
            InitStep::CheckDbVersion => InitStepView::CheckDbVersion,
        }
    }
}

/// The steps that open the local database, in order.
pub open spec fn init_steps() -> Seq<InitStepView> {
    seq![
        InitStepView::Execute(configs_table()),
        InitStepView::CheckDbVersion,
        InitStepView::Execute(friends_table()),
        InitStepView::Execute(friends_groups_table()),
        InitStepView::Execute(groups_table()),
    ]
}

/// The local database as the client sees it: the tables that exist, each
/// with its rows (a row is its column values), and the value stored in the
/// settings table under `db_version`, if any.
pub struct DbState {
    pub tables: Map<Seq<char>, Seq<Seq<Seq<char>>>>,
    pub db_version: Option<Seq<char>>,
}

/// The table a statement of [`init_steps`] creates when it is missing.
pub open spec fn created_table(statement: Seq<char>) -> Option<Seq<char>> {
    if statement == configs_table() {
        Some("configs"@)
    } else if statement == friends_table() {
        Some("friends"@)
    } else if statement == friends_groups_table() {
        Some("friends_groups"@)
    } else if statement == groups_table() {
        Some("groups"@)
    } else {
        None
    }
}

/// `Create table if not exists`: an empty table is added when none of that
/// name exists; an existing table keeps its rows.
pub open spec fn create_if_missing(db: DbState, name: Seq<char>) -> DbState {
    if db.tables.contains_key(name) {
        db
    } else {
        DbState { tables: db.tables.insert(name, Seq::empty()), db_version: db.db_version }
    }
}

/// Whether the client goes on with a database: no version is stored, or the
/// stored one is this client's (any other stops it, see [`check_db_version`]).
pub open spec fn version_accepted(db: DbState) -> bool {
    match db.db_version {
        Some(v) => is_current(v),
        None => true,
    }
}

/// What one step does to the database: a statement creates its table if
/// missing; the version check records this client's version when none is
/// stored ([`DbVersionCheck::Record`]) and changes nothing otherwise
/// ([`DbVersionCheck::Current`]).
pub open spec fn step_effect(db: DbState, step: InitStepView) -> DbState {
    match step {
        InitStepView::Execute(t) => match created_table(t) {
            Some(name) => create_if_missing(db, name),
            None => db,
        },
        InitStepView::CheckDbVersion => match db.db_version {
            Some(_) => db,
            None => DbState { tables: db.tables, db_version: Some(int_text(DB_VERSION as int)) },
        },
    }
}

/// What a run of steps does to the database, one after another.
pub open spec fn apply_steps(db: DbState, steps: Seq<InitStepView>) -> DbState
    decreases steps.len(),
{
    if steps.len() == 0 {
        db
    } else {
        apply_steps(step_effect(db, steps[0]), steps.drop_first())
    }
}

/// The database once it was opened.
pub open spec fn opened(db: DbState) -> DbState {
    apply_steps(db, init_steps())
}

proof fn lemma_opened(db: DbState)
    ensures
        opened(db) == create_if_missing(
            create_if_missing(
                create_if_missing(
                    step_effect(create_if_missing(db, "configs"@), InitStepView::CheckDbVersion),
                    "friends"@,
                ),
                "friends_groups"@,
            ),
            "groups"@,
        ),
{
    reveal_strlit("Create table if not exists configs (
            key     TEXT PRIMARY KEY,
            value   TEXT NOT NULL
        )");
    reveal_strlit("Create table if not exists friends (
            id          INT PRIMARY KEY,
            name        TEXT NOT NULL,
            remark      TEXT NOT NULL,
            group_id    INT NOT NULL
        )");
    reveal_strlit("Create table if not exists friends_groups (
            id              INT PRIMARY KEY,
            name            TEXT NOT NULL,
            online_friends  INT NOT NULL
        )");
    reveal_strlit("Create table if not exists groups (
            id          INT PRIMARY KEY,
            name        TEXT NOT NULL
        )");
    assert(configs_table()[27] == 'c');
    assert(friends_table()[27] == 'f');
    assert(friends_groups_table()[27] == 'f');
    assert(groups_table()[27] == 'g');
    assert(friends_table().len() != friends_groups_table().len());
    assert(created_table(configs_table()) == Some("configs"@));
    assert(created_table(friends_table()) == Some("friends"@));
    assert(created_table(friends_groups_table()) == Some("friends_groups"@));
    assert(created_table(groups_table()) == Some("groups"@));
    let s = init_steps();
    let d0 = step_effect(db, s[0]);
    let d1 = step_effect(d0, s[1]);
    let d2 = step_effect(d1, s[2]);
    let d3 = step_effect(d2, s[3]);
    let d4 = step_effect(d3, s[4]);
    assert(apply_steps(d4, s.drop_first().drop_first().drop_first().drop_first().drop_first()) == d4);
    assert(apply_steps(d3, s.drop_first().drop_first().drop_first().drop_first()) == d4);
    assert(apply_steps(d2, s.drop_first().drop_first().drop_first()) == d4);
    assert(apply_steps(d1, s.drop_first().drop_first()) == d4);
    assert(apply_steps(d0, s.drop_first()) == d4);
}

/// Law: opening the local database keeps every table that exists with all
/// its rows, and opening it a second time changes nothing: the tables are
/// only created when missing, and the version recorded the first time is
/// this client's. (A database with another stored version stops the client
/// and is left out.)
pub proof fn law_init_twice_changes_nothing(db: DbState)
    requires
        version_accepted(db),
    ensures
        version_accepted(opened(db)),
        forall|name: Seq<char>| #[trigger] db.tables.contains_key(name) ==> opened(db).tables.contains_key(name)
            && opened(db).tables[name] == db.tables[name],
        opened(db).db_version == (match db.db_version {
            Some(v) => Some(v),
            None => Some(int_text(DB_VERSION as int)),
        }),
        opened(opened(db)) == opened(db),
{
    lemma_opened(db);
    let once = opened(db);
    lemma_opened(once);
    law_recorded_version_is_current();
    assert(once.tables.contains_key("configs"@));
    assert(once.tables.contains_key("friends"@));
    assert(once.tables.contains_key("friends_groups"@));
    assert(once.tables.contains_key("groups"@));
}

/// The steps that open the local database, in order: the settings table
/// is created first, so that the stored version can be checked before the
/// other tables are created.
pub fn init_sqlite() -> (r: Vec<InitStep>)
    ensures
        r@.map_values(|s: InitStep| s@) == init_steps(),
{
    let mut steps: Vec<InitStep> = Vec::new();
    steps.push(InitStep::Execute(owned("Create table if not exists configs (
            key     TEXT PRIMARY KEY,
            value   TEXT NOT NULL
        )")));
    steps.push(InitStep::CheckDbVersion);
    steps.push(InitStep::Execute(owned("Create table if not exists friends (
            id          INT PRIMARY KEY,
            name        TEXT NOT NULL,
            remark      TEXT NOT NULL,
            group_id    INT NOT NULL
        )")));
    steps.push(InitStep::Execute(owned("Create table if not exists friends_groups (
            id              INT PRIMARY KEY,
            name            TEXT NOT NULL,
            online_friends  INT NOT NULL
        )")));
    steps.push(InitStep::Execute(owned("Create table if not exists groups (
            id          INT PRIMARY KEY,
            name        TEXT NOT NULL
        )")));
    proof {
        assert(steps@.map_values(|s: InitStep| s@) =~= init_steps());
    }
    steps
}

/// The version of the database layout this client writes.
pub const DB_VERSION: usize = 1;

/// The local database.
#[derive(Debug, Clone, PartialEq, Eq)]
pub struct SqlDb;

/// What the query for the stored database version gave. (A failed query
/// stops the client before any decision is taken.)
#[derive(Debug, Clone, PartialEq, Eq)]
pub enum VersionLookup {
    /// The stored version text.
    Found(String),
    /// No version is stored yet.
    NoRows,
}

/// What to do about the stored database version.
#[derive(Debug, Clone, PartialEq, Eq)]
pub enum DbVersionCheck {
    /// The stored version is this client's: nothing to do.
    Current,
    /// No version is stored: store this text under the key `db_version`.
    Record(String),
}

/// Whether a stored version text is this client's version.
pub open spec fn is_current(version: Seq<char>) -> bool {
    spec_parse_usize(version) == Some(DB_VERSION)
}

/// Whether a stored version text reads as this client's version; any other
/// stored version stops the client ("unrecognized database version", or a
/// failed read when it is not a number).
pub fn is_current_version(version: &str) -> (r: bool)
    ensures
        r == is_current(version@),
{
    match parse_usize(version) {
        Some(n) => n == DB_VERSION,
        None => false,
    }
}

/// Decides on the stored database version, which must be this client's
/// when one is stored: nothing to do then, and the version to record when
/// none is stored.
pub fn check_db_version(lookup: VersionLookup) -> (r: DbVersionCheck)
    requires
        lookup matches VersionLookup::Found(v) ==> is_current(v@),
    ensures
        match lookup {
            VersionLookup::Found(_) => r is Current,
            VersionLookup::NoRows => r matches DbVersionCheck::Record(t) && t@ == int_text(DB_VERSION as int),
        },
{
    match lookup {
        VersionLookup::Found(_) => DbVersionCheck::Current,
        VersionLookup::NoRows => DbVersionCheck::Record(usize_to_string(DB_VERSION)),
    }
}

/// Law: the version recorded when none was stored is read back as this
/// client's version, so the next check finds the database current.
pub proof fn law_recorded_version_is_current()
    ensures
        spec_parse_usize(int_text(DB_VERSION as int)) == Some(DB_VERSION),
{
    law_usize_text_round_trip(DB_VERSION);
}

/// The name shown for a friend: the stored remark, or the number when the
/// friend is not stored.
pub fn get_friend_remark(stored: Option<String>, friend_id: i64) -> (r: String)
    ensures
        r@ == (match stored {
            Some(t) => t@,
            None => int_text(friend_id as int),
        }),
{
    match stored {
        Some(t) => t,
        None => i64_to_string(friend_id),
    }
}

/// The name shown for a group: the stored name, or the number when the
/// group is not stored.
pub fn get_group_name(stored: Option<String>, group_id: i64) -> (r: String)
    ensures
        r@ == (match stored {
            Some(t) => t@,
            None => int_text(group_id as int),
        }),
{
    match stored {
        Some(t) => t,
        None => i64_to_string(group_id),
    }
}

/// The name of a chatroom's page: the number, a space, then `group` or `friend`.
pub open spec fn chatroom_page_name(account: i64, is_group: bool) -> Seq<char> {
    int_text(account as int) + (if is_group { " group"@ } else { " friend"@ })
}

/// The name of a chatroom's page.
pub fn chatroom_child_name(account: i64, is_group: bool) -> (r: String)
    ensures
        r@ == chatroom_page_name(account, is_group),
{
    let mut out = i64_to_string(account);
    if is_group {
        push_str(&mut out, " group");
    } else {
        push_str(&mut out, " friend");
    }
    out
}

/// The title and subtitle of a group's chatroom: its name, and its number.
pub fn group_chatroom_titles(group_name: String, group_id: i64) -> (r: (String, String))
    ensures
        r.0@ == group_name@,
        r.1@ == int_text(group_id as int),
{
    (group_name, i64_to_string(group_id))
}

/// The title and subtitle of a friend's chatroom: the nickname, and the
/// remark followed by the number in parentheses.
pub fn friend_chatroom_titles(user_name: String, user_remark: &str, friend_id: i64) -> (r: (String, String))
    ensures
        r.0@ == user_name@,
        r.1@ == user_remark@ + " ("@ + int_text(friend_id as int) + ")"@,
{
    let mut subtitle = owned(user_remark);
    push_str(&mut subtitle, " (");
    let number = i64_to_string(friend_id);
    push_str(&mut subtitle, number.as_str());
    push_str(&mut subtitle, ")");
    (user_name, subtitle)
}


proof fn lemma_with_seq_id_witness(s: Seq<FriendGroupInfo>, k: u8)
    requires
        with_seq_id(s, k).len() > 0,
    ensures
        exists|i: int| 0 <= i < s.len() && #[trigger] s[i].seq_id == k,
    decreases s.len(),
{
    if s.len() == 0 {
        assert(with_seq_id(s, k) =~= Seq::<FriendGroupInfo>::empty());
    } else if s.last().seq_id == k {
        assert(s[s.len() - 1].seq_id == k);
    } else {
        lemma_with_seq_id_witness(s.drop_last(), k);
        let i = choose|i: int| 0 <= i < s.drop_last().len() && #[trigger] s.drop_last()[i].seq_id == k;
        assert(s[i].seq_id == k);
    }
}

proof fn lemma_sorted_same_runs_equal(a: Seq<FriendGroupInfo>, b: Seq<FriendGroupInfo>)
    requires
        sorted_by_seq_id(a),
        sorted_by_seq_id(b),
        forall|k: u8| #[trigger] with_seq_id(a, k) == with_seq_id(b, k),
    ensures
        a == b,
    decreases a.len(),
{
    if a.len() == 0 {
        if b.len() > 0 {
            let kb = b.last().seq_id;
            assert(with_seq_id(a, kb) =~= Seq::<FriendGroupInfo>::empty());
            assert(with_seq_id(b, kb).len() > 0);
        }
        assert(a =~= b);
    } else {
        let ka = a.last().seq_id;
        assert(with_seq_id(a, ka).len() > 0);
        assert(with_seq_id(b, ka).len() > 0);
        lemma_with_seq_id_witness(b, ka);
        assert(b.len() > 0);
        let kb = b.last().seq_id;
        assert(with_seq_id(b, kb).len() > 0);
        assert(with_seq_id(a, kb).len() > 0);
        lemma_with_seq_id_witness(a, kb);
        let ia = choose|i: int| 0 <= i < a.len() && #[trigger] a[i].seq_id == kb;
        let ib = choose|i: int| 0 <= i < b.len() && #[trigger] b[i].seq_id == ka;
        if ia < a.len() - 1 {
            assert(a[ia].seq_id <= a[a.len() - 1].seq_id);
        }
        if ib < b.len() - 1 {
            assert(b[ib].seq_id <= b[b.len() - 1].seq_id);
        }
        assert(ka == kb);
        assert(a.last() == with_seq_id(a, ka).last());
        assert(b.last() == with_seq_id(b, ka).last());
        let a0 = a.drop_last();
        let b0 = b.drop_last();
        assert forall|k: u8| #[trigger] with_seq_id(a0, k) == with_seq_id(b0, k) by {
            if k == ka {
                assert(with_seq_id(a0, k) =~= with_seq_id(a, k).drop_last());
                assert(with_seq_id(b0, k) =~= with_seq_id(b, k).drop_last());
            } else {
                assert(with_seq_id(a, k) == with_seq_id(a0, k));
                assert(with_seq_id(b, k) == with_seq_id(b0, k));
            }
        }
        lemma_sorted_same_runs_equal(a0, b0);
        assert(a =~= a0.push(a.last()));
        assert(b =~= b0.push(b.last()));
    }
}

/// Law: there is exactly one stable sort by position number of a list of
/// friend groups, so the stored order is determined by what the server listed.
pub proof fn law_stable_sort_is_unique(a: Seq<FriendGroupInfo>, b: Seq<FriendGroupInfo>, input: Seq<FriendGroupInfo>)
    requires
        stably_sorted_by_seq_id(a, input),
        stably_sorted_by_seq_id(b, input),
    ensures
        a == b,
{
    assert forall|k: u8| #[trigger] with_seq_id(a, k) == with_seq_id(b, k) by {
        assert(with_seq_id(a, k) == with_seq_id(input, k));
        assert(with_seq_id(b, k) == with_seq_id(input, k));
    }
    lemma_sorted_same_runs_equal(a, b);
}

} // verus!
