//! Where avatars are downloaded from and where they are kept.

use vstd::prelude::*;
use crate::decimal::{i64_to_string, int_text, lemma_parse_int_text};
use crate::strings::{owned, push_str};

verus! {

/// What to do with an avatar directory before using it.
#[derive(Debug, Clone, PartialEq, Eq)]
pub enum DirAction {
    CreateAll,
    Nothing,
}

/// Avatars of users.
#[derive(Debug, Clone, PartialEq, Eq)]
pub struct User;

/// Avatars of groups.
#[derive(Debug, Clone, PartialEq, Eq)]
pub struct Group;

/// The address of a user's avatar.
pub open spec fn user_avatar_url(id: i64) -> Seq<char> {
    "http://q2.qlogo.cn/headimg_dl?dst_uin="@ + int_text(id as int) + "&spec=160"@
}

/// The address of a group's avatar.
pub open spec fn group_avatar_url(id: i64) -> Seq<char> {
    "https://p.qlogo.cn/gh/"@ + int_text(id as int) + "/"@ + int_text(id as int) + "/0"@
}

/// A relative file name appended to a directory path, as `Path::join` does
/// on Unix: no separator is added after an empty path or a trailing `/`.
pub open spec fn path_join(dir: Seq<char>, name: Seq<char>) -> Seq<char> {
    if dir.len() == 0 {
        name
    } else if dir.last() == '/' {
        dir + name
    } else {
        dir + seq!['/'] + name
    }
}

/// The file name of an avatar: the number, then `.png`.
pub open spec fn avatar_file_name(id: i64) -> Seq<char> {
    int_text(id as int) + ".png"@
}

/// The directory of all avatars inside the client's data directory.
pub open spec fn avatars_dir(data_dir: Seq<char>) -> Seq<char> {
    path_join(data_dir, "avatars"@)
}

/// The directory of user avatars inside the client's data directory.
pub open spec fn user_avatar_dir(data_dir: Seq<char>) -> Seq<char> {
    path_join(avatars_dir(data_dir), "users"@)
}

/// The directory of group avatars inside the client's data directory.
pub open spec fn group_avatar_dir(data_dir: Seq<char>) -> Seq<char> {
    path_join(avatars_dir(data_dir), "groups"@)
}

/// The file of the avatar of user `id`, given the client's data directory.
pub open spec fn user_avatar_file(data_dir: Seq<char>, id: i64) -> Seq<char> {
    path_join(user_avatar_dir(data_dir), avatar_file_name(id))
}

/// The file of the avatar of group `id`, given the client's data directory.
pub open spec fn group_avatar_file(data_dir: Seq<char>, id: i64) -> Seq<char> {
    path_join(group_avatar_dir(data_dir), avatar_file_name(id))
}

/// `name` appended to `dir` as `Path::join` does.
fn join(dir: &str, name: &str) -> (r: String)
    ensures
        r@ == path_join(dir@, name@),
{
    let n = dir.unicode_len();
    let mut out = owned(dir);
    if n > 0 && dir.get_char(n - 1) != '/' {
        push_str(&mut out, "/");
        proof {
            reveal_strlit("/");
            assert("/"@ =~= seq!['/']);
        }
    }
    push_str(&mut out, name);
    proof {
        if n > 0 {
            assert(dir@.last() == dir@[n - 1]);
        }
    }
    out
}

/// The file of the avatar of `id` in the directory `dir`.
fn avatar_location(dir: &str, id: i64) -> (r: String)
    ensures
        r@ == path_join(dir@, avatar_file_name(id)),
{
    let mut name = i64_to_string(id);
    push_str(&mut name, ".png");
    join(dir, name.as_str())
}

impl User {
    /// The directory of user avatars inside the client's data directory.
    pub fn get_avatar_location_dir(data_dir: &str) -> (r: String)
        ensures
            r@ == user_avatar_dir(data_dir@),
    {
        let all = join(data_dir, "avatars");
        join(all.as_str(), "users")
    }

    /// The address to download the avatar of user `id` from.
    pub fn avatar_download_url(id: i64) -> (r: String)
        ensures
            r@ == user_avatar_url(id),
    {
        let mut out = owned("http://q2.qlogo.cn/headimg_dl?dst_uin=");
        let number = i64_to_string(id);
        push_str(&mut out, number.as_str());
        push_str(&mut out, "&spec=160");
        out
    }

    /// The file of the avatar of user `id`, in the user avatar directory `dir`.
    pub fn get_avatar_location(dir: &str, id: i64) -> (r: String)
        ensures
            r@ == path_join(dir@, avatar_file_name(id)),
    {
        avatar_location(dir, id)
    }
}

impl Group {
    /// The directory of group avatars inside the client's data directory.
    pub fn get_avatar_location_dir(data_dir: &str) -> (r: String)
        ensures
            r@ == group_avatar_dir(data_dir@),
    {
        let all = join(data_dir, "avatars");
        join(all.as_str(), "groups")
    }

    /// The address to download the avatar of group `id` from.
    pub fn avatar_download_url(id: i64) -> (r: String)
        ensures
            r@ == group_avatar_url(id),
    {
        let mut out = owned("https://p.qlogo.cn/gh/");
        let number = i64_to_string(id);
        push_str(&mut out, number.as_str());
        push_str(&mut out, "/");
        push_str(&mut out, number.as_str());
        push_str(&mut out, "/0");
        out
    }

    /// The file of the avatar of group `id`, in the group avatar directory `dir`.
    pub fn get_avatar_location(dir: &str, id: i64) -> (r: String)
        ensures
            r@ == path_join(dir@, avatar_file_name(id)),
    {
        avatar_location(dir, id)
    }
}

/// The file of the avatar of user `user_id`, given the client's data directory.
pub fn get_user_avatar_path(data_dir: &str, user_id: i64) -> (r: String)
    ensures
        r@ == user_avatar_file(data_dir@, user_id),
{
    let dir = User::get_avatar_location_dir(data_dir);
    User::get_avatar_location(dir.as_str(), user_id)
}

/// The file of the avatar of group `group_id`, given the client's data directory.
pub fn get_group_avatar_path(data_dir: &str, group_id: i64) -> (r: String)
    ensures
        r@ == group_avatar_file(data_dir@, group_id),
{
    let dir = Group::get_avatar_location_dir(data_dir);
    Group::get_avatar_location(dir.as_str(), group_id)
}

/// After `avatars`, `users` or `groups` is joined to a path, the path is
/// nonempty and ends in `s`, so the next join puts a `/` in between.
proof fn lemma_join_ends_in_s(dir: Seq<char>, name: Seq<char>)
    requires
        name.len() > 0,
        name.last() == 's',
    ensures
        path_join(dir, name).len() > 0,
        path_join(dir, name).last() == 's',
{
    let j = path_join(dir, name);
    if dir.len() == 0 {
    } else if dir.last() == '/' {
        assert(j.last() == (dir + name)[(dir + name).len() - 1]);
    } else {
        assert(j.last() == (dir + seq!['/'] + name)[(dir + seq!['/'] + name).len() - 1]);
    }
}

/// The text of a number can be told from that of any other number.
proof fn lemma_file_names_differ(a: i64, b: i64)
    requires
        a != b,
    ensures
        avatar_file_name(a) != avatar_file_name(b),
{
    reveal_strlit(".png");
    lemma_parse_int_text(a as int);
    lemma_parse_int_text(b as int);
    if avatar_file_name(a) == avatar_file_name(b) {
        let ta = int_text(a as int);
        let tb = int_text(b as int);
        assert(".png"@.len() == 4);
        assert(avatar_file_name(a).len() == ta.len() + 4);
        assert(avatar_file_name(b).len() == tb.len() + 4);
        assert(ta.len() == tb.len());
        assert(ta =~= avatar_file_name(a).subrange(0, ta.len() as int));
        assert(tb =~= avatar_file_name(b).subrange(0, tb.len() as int));
    }
}

/// Law: avatar files are kept apart. The file of a group's avatar is never
/// that of a user's avatar, whatever the two numbers; and two users, or two
/// groups, with different numbers have different files.
pub proof fn law_avatar_files_apart(data_dir: Seq<char>, id1: i64, id2: i64)
    ensures
        group_avatar_file(data_dir, id1) != user_avatar_file(data_dir, id2),
        id1 != id2 ==> user_avatar_file(data_dir, id1) != user_avatar_file(data_dir, id2),
        id1 != id2 ==> group_avatar_file(data_dir, id1) != group_avatar_file(data_dir, id2),
{
    reveal_strlit("avatars");
    reveal_strlit("users");
    reveal_strlit("groups");
    let a = avatars_dir(data_dir);
    lemma_join_ends_in_s(data_dir, "avatars"@);
    lemma_join_ends_in_s(a, "users"@);
    lemma_join_ends_in_s(a, "groups"@);
    let u = user_avatar_dir(data_dir);
    let g = group_avatar_dir(data_dir);
    assert(u == a + seq!['/'] + "users"@);
    assert(g == a + seq!['/'] + "groups"@);
    let n1 = avatar_file_name(id1);
    let n2 = avatar_file_name(id2);
    let gf = group_avatar_file(data_dir, id1);
    let uf = user_avatar_file(data_dir, id2);
    assert(gf == g + seq!['/'] + n1);
    assert(uf == u + seq!['/'] + n2);
    assert(gf[a.len() as int + 1] == 'g');
    assert(uf[a.len() as int + 1] == 'u');
    if id1 != id2 {
        lemma_file_names_differ(id1, id2);
        let u1 = user_avatar_file(data_dir, id1);
        let g2 = group_avatar_file(data_dir, id2);
        assert(u1 == u + seq!['/'] + n1);
        assert(g2 == g + seq!['/'] + n2);
        if u1 == uf {
            assert(n1 =~= u1.subrange(u.len() as int + 1, u1.len() as int));
            assert(n2 =~= uf.subrange(u.len() as int + 1, uf.len() as int));
        }
        if gf == g2 {
            assert(n1 =~= gf.subrange(g.len() as int + 1, gf.len() as int));
            assert(n2 =~= g2.subrange(g.len() as int + 1, g2.len() as int));
        }
    }
}

} // verus!
