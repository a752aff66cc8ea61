use gtk_qq::avatar::{get_group_avatar_path, get_user_avatar_path, Group, User};
use gtk_qq::contacts::{contains_text, render_friends, render_search_result, search, FriendsAction, FriendsModel, FriendsMsg, GroupsAction, GroupsModel, GroupsMsg};
use gtk_qq::contacts::{FriendsGroup as ShownGroup, FriendsGroupMessage};
use gtk_qq::handler::AppHandler;
use gtk_qq::main_page::{ContactMsg, MainMsg};
use gtk_qq::message::{Content, Message};
use gtk_qq::store::{Friend, FriendsGroup, Group as StoredGroup};
use gtk_qq::widgets::{LinkCopierModel, LinkCopierState, LinkerCopierCfg};

#[test]
fn avatar_addresses() {
    assert_eq!(User::avatar_download_url(10001), "http://q2.qlogo.cn/headimg_dl?dst_uin=10001&spec=160");
    assert_eq!(Group::avatar_download_url(123), "https://p.qlogo.cn/gh/123/123/0");
}

#[test]
fn avatar_files_are_kept_apart() {
    let dir = "/home/a/.gtk-qq";
    assert_ne!(get_group_avatar_path(dir, 5), get_user_avatar_path(dir, 5));
    assert_ne!(get_user_avatar_path(dir, 5), get_user_avatar_path(dir, 55));
    assert_ne!(get_group_avatar_path(dir, -1), get_group_avatar_path(dir, 1));
    assert_eq!(get_user_avatar_path(dir, 5), get_user_avatar_path(dir, 5));
}

#[test]
fn avatar_files() {
    assert_eq!(get_user_avatar_path("/home/a/.gtk-qq", 7), "/home/a/.gtk-qq/avatars/users/7.png");
    assert_eq!(get_group_avatar_path("/tmp/data/", 8), "/tmp/data/avatars/groups/8.png");
    assert_eq!(User::get_avatar_location_dir("/home/a/.gtk-qq"), "/home/a/.gtk-qq/avatars/users");
    assert_eq!(Group::get_avatar_location_dir(""), "avatars/groups");
    assert_eq!(User::get_avatar_location("", -1), "-1.png");
    assert_eq!(Group::get_avatar_location("g", 0), "g/0.png");
}

fn friend(id: i64, name: &str, remark: &str, group_id: u8) -> Friend {
    Friend { id, name: name.to_string(), remark: remark.to_string(), group_id }
}

#[test]
fn substring_search() {
    assert!(contains_text("hello", "ell"));
    assert!(contains_text("hello", ""));
    assert!(contains_text("", ""));
    assert!(!contains_text("he", "hello"));
    assert!(!contains_text("hello", "lo!"));
    assert!(contains_text("你好世界", "世界"));
}

#[test]
fn friends_search_ignores_case() {
    let friends = vec![friend(1, "Alice", "work", 0), friend(2, "bob", "ALICE's brother", 1), friend(3, "Carol", "", 0)];
    let found = render_search_result(&friends, "aLiCe");
    assert_eq!(found, vec![friends[0].clone(), friends[1].clone()]);
    assert_eq!(render_search_result(&friends, "zzz"), vec![]);
    assert_eq!(render_search_result(&friends, "").len(), 3);
}

#[test]
fn groups_search() {
    let groups = vec![
        StoredGroup { id: 1, name: "Rust 中文".to_string() },
        StoredGroup { id: 2, name: "GTK".to_string() },
    ];
    assert_eq!(search(&groups, ""), groups);
    assert_eq!(search(&groups, "rust"), vec![groups[0].clone()]);
    assert_eq!(search(&groups, "中文"), vec![groups[0].clone()]);
    assert_eq!(search(&groups, "qt"), vec![]);
}

#[test]
fn friends_by_group() {
    let groups = vec![
        FriendsGroup { id: 0, name: "Friends".to_string(), online_friends: 1 },
        FriendsGroup { id: 1, name: "Work".to_string(), online_friends: 0 },
        FriendsGroup { id: 2, name: "Empty".to_string(), online_friends: 0 },
    ];
    let friends = vec![friend(1, "a", "", 1), friend(2, "b", "", 0), friend(3, "c", "", 1), friend(4, "d", "", 9)];
    let shown = render_friends(&groups, &friends);
    assert_eq!(shown.len(), 3);
    assert_eq!(shown[0].friends, vec![friends[1].clone()]);
    assert_eq!(shown[1].friends, vec![friends[0].clone(), friends[2].clone()]);
    assert!(shown[2].friends.is_empty());
    assert_eq!(shown[1].name, "Work");
}

#[test]
fn friends_page_reactions() {
    let mut page = FriendsModel::new();
    assert!(page.is_refresh_button_enabled);
    assert_eq!(page.update(FriendsMsg::Refresh), FriendsAction::StartRefresh);
    assert!(!page.is_refresh_button_enabled);
    assert_eq!(page.update(FriendsMsg::Render), FriendsAction::RenderFriends);
    assert!(page.is_refresh_button_enabled);
    assert_eq!(page.update(FriendsMsg::Search(String::new())), FriendsAction::ShowFriendList);
    assert_eq!(page.update(FriendsMsg::Search("x".to_string())), FriendsAction::ShowSearch("x".to_string()));
    assert_eq!(
        page.update(FriendsMsg::SelectChatroom(5, false)),
        FriendsAction::Contact(ContactMsg::SelectChatroom(5, false))
    );
    assert_eq!(FriendsModel::render_notice(None), ContactMsg::PushToast("Refreshed the friends list.".to_string()));
    assert_eq!(FriendsModel::render_notice(Some("e".to_string())), ContactMsg::PushToast("e".to_string()));
}

#[test]
fn friends_page_search_and_pick() {
    let friends = vec![friend(1, "Alice", "", 0), friend(2, "Bob", "alice's brother", 1), friend(3, "Carol", "", 0)];
    let mut page = FriendsModel::new();
    page.render_search_result(&friends, "ALICE");
    assert_eq!(page.search_list, vec![friends[0].clone(), friends[1].clone()]);
    assert_eq!(page.update(FriendsMsg::SelectSearchItem(1)), FriendsAction::Input(FriendsMsg::SelectChatroom(2, false)));
    let groups = vec![FriendsGroup { id: 0, name: "Friends".to_string(), online_friends: 2 }];
    page.render_friends(&groups, &friends);
    assert_eq!(page.friends_list.len(), 1);
    assert_eq!(page.friends_list[0].friends, vec![friends[0].clone(), friends[2].clone()]);
    assert_eq!(page.search_list.len(), 2);
}

#[test]
fn groups_page_reactions() {
    let mut page = GroupsModel::new();
    assert!(page.is_refresh_button_enabled);
    assert_eq!(page.update(GroupsMsg::Refresh), GroupsAction::StartRefresh);
    assert!(!page.is_refresh_button_enabled);
    assert_eq!(page.update(GroupsMsg::Render), GroupsAction::RenderGroups);
    assert!(page.is_refresh_button_enabled);
    assert_eq!(page.update(GroupsMsg::Search("a".to_string())), GroupsAction::Search("a".to_string()));
    assert_eq!(GroupsModel::render_notice(None), ContactMsg::PushToast("Refreshed the groups list.".to_string()));
    assert_eq!(GroupsModel::render_notice(Some("e".to_string())), ContactMsg::PushToast("e".to_string()));
}

#[test]
fn groups_page_search_and_pick() {
    let groups = vec![
        StoredGroup { id: 10, name: "Rust".to_string() },
        StoredGroup { id: 20, name: "GTK".to_string() },
        StoredGroup { id: 30, name: "rustaceans".to_string() },
    ];
    let mut page = GroupsModel::new();
    page.render_groups(groups.clone());
    assert_eq!(page.update(GroupsMsg::Select(1)), GroupsAction::Contact(ContactMsg::SelectChatroom(20, true)));
    page.search(&groups, "RUST");
    assert_eq!(page.group_list, vec![groups[0].clone(), groups[2].clone()]);
    assert_eq!(page.update(GroupsMsg::Select(1)), GroupsAction::Contact(ContactMsg::SelectChatroom(30, true)));
    page.search(&groups, "");
    assert_eq!(page.group_list, groups);
}

#[test]
fn friend_messages_are_routed_and_notified() {
    let contents = vec![Content::Text("hi".to_string())];
    let (m, n) = AppHandler::friend_message(100, 200, 100, "Bob".to_string(), contents.clone());
    assert_eq!(
        m,
        MainMsg::FriendMessage {
            friend_id: 200,
            message: Message { sender_id: 200, sender_name: "Bob".to_string(), contents: contents.clone() }
        }
    );
    let n = n.unwrap();
    assert_eq!((n.id, n.is_group, n.body.as_str()), (200, false, "hi"));
    let (m, n) = AppHandler::friend_message(100, 100, 300, "Me".to_string(), contents.clone());
    assert!(matches!(m, MainMsg::FriendMessage { friend_id: 300, .. }));
    assert!(n.is_none());
}

#[test]
fn group_messages_are_routed_and_notified() {
    let contents = vec![Content::Image { url: String::new(), filename: String::new() }];
    let (m, n) = AppHandler::group_message(100, 555, 200, "card".to_string(), contents.clone());
    assert!(matches!(m, MainMsg::GroupMessage { group_id: 555, .. }));
    let n = n.unwrap();
    assert_eq!((n.id, n.is_group, n.body.as_str()), (555, true, "[图片]"));
    let (_, n) = AppHandler::group_message(100, 555, 100, "me".to_string(), contents);
    assert!(n.is_none());
}

#[test]
fn link_copier_setup() {
    let mut cfg = LinkerCopierCfg::new("https://x".to_string());
    assert_eq!(cfg.link_label(), "https://x");
    cfg.label = Some("Verification Link".to_string());
    assert_eq!(cfg.link_label(), "Verification Link");
    assert_eq!(LinkCopierModel::parts(&LinkCopierState::Both), (true, true));
    assert_eq!(LinkCopierModel::parts(&LinkCopierState::LinkOnly), (true, false));
    assert_eq!(LinkCopierModel::parts(&LinkCopierState::BtnOnly), (false, true));
}

#[test]
fn friend_group_header_and_pick() {
    let group = ShownGroup {
        id: 1,
        name: "Work".to_string(),
        online_friends: 2,
        friends: vec![friend(1, "a", "", 1), friend(2, "b", "", 1), friend(3, "c", "", 1)],
    };
    assert_eq!(group.subtitle(), "2/3");
    let empty = ShownGroup { id: 2, name: "Empty".to_string(), online_friends: 0, friends: vec![] };
    assert_eq!(empty.subtitle(), "0/0");
    assert_eq!(ShownGroup::update(FriendsGroupMessage::SelectUser(42)), FriendsMsg::SelectChatroom(42, false));
}
