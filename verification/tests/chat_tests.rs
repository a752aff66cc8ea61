use gtk_qq::chatroom::{Chatroom, GroupLayout, MessageGroup, Side};
use gtk_qq::chats::{replace_newlines, ChatItem, ChatsModel};
use gtk_qq::main_page::{
    ChatsMsg, ContactModel, ContactMsg, MainAction, MainMsg, MainPageModel, SidebarModel, SidebarMsg, SidebarRoute,
};
use gtk_qq::message::{Content, Message};

fn msg(sender: i64, t: &str) -> Message {
    Message { sender_id: sender, sender_name: format!("u{}", sender), contents: vec![Content::Text(t.to_string())] }
}

fn flatten(groups: &[MessageGroup]) -> Vec<Message> {
    groups.iter().flat_map(|g| g.messages.clone()).collect()
}

#[test]
fn consecutive_messages_are_grouped() {
    let mut room = Chatroom::new(1, false);
    room.add_message(msg(1, "a"));
    room.add_message(msg(1, "b"));
    room.add_message(msg(2, "c"));
    room.add_message(msg(1, "d"));
    assert_eq!(room.messages.len(), 3);
    assert_eq!(room.messages[0].messages.len(), 2);
    assert_eq!(room.messages[0].sender_name, "u1");
    assert_eq!(room.messages[1].sender_id, 2);
    assert_eq!(flatten(&room.messages), vec![msg(1, "a"), msg(1, "b"), msg(2, "c"), msg(1, "d")]);
}

#[test]
fn newlines_become_spaces() {
    assert_eq!(replace_newlines("a\nb\n"), "a b ");
    let item = ChatItem::init_model(5, true, "g".to_string(), "x\ny");
    assert_eq!(item.last_message, "x y");
}

fn item(a: i64, g: bool, last: &str) -> ChatItem {
    ChatItem { account: a, name: format!("n{}", a), is_group: g, last_message: last.to_string() }
}

#[test]
fn chat_item_moves_to_top() {
    let mut chats = ChatsModel { chats_list: vec![item(1, false, "x"), item(2, true, "y"), item(3, false, "z")] };
    chats.update_chat_item(3, false, "new".to_string());
    assert_eq!(chats.chats_list, vec![item(3, false, "new"), item(2, true, "y"), item(1, false, "x")]);
    chats.update_chat_item(3, true, "none".to_string());
    assert_eq!(chats.chats_list, vec![item(3, false, "new"), item(2, true, "y"), item(1, false, "x")]);
    chats.update_chat_item(3, false, "again".to_string());
    assert_eq!(chats.chats_list[0], item(3, false, "again"));
}

#[test]
fn chat_item_inserted_on_top() {
    let mut chats = ChatsModel::new();
    chats.insert_chat_item(1, false, "Bob".to_string(), "hi\nthere".to_string());
    chats.insert_chat_item(2, true, "Rust".to_string(), String::new());
    assert_eq!(chats.chats_list.len(), 2);
    assert_eq!(chats.chats_list[0].account, 2);
    assert_eq!(chats.chats_list[1].last_message, "hi there");
    assert_eq!(chats.select_chatroom(1), (1, false));
    assert_eq!(chats.position(2, true), Some(0));
    assert_eq!(chats.position(2, false), None);
}

#[test]
fn friend_message_opens_chatroom_once() {
    let mut main = MainPageModel::new();
    let actions = main.update(MainMsg::FriendMessage { friend_id: 9, message: msg(9, "hello") });
    assert_eq!(
        actions,
        vec![
            MainAction::Sidebar(SidebarMsg::InsertChatItem(9, false, "hello".to_string())),
            MainAction::ShowChatroom(9, false),
        ]
    );
    let actions = main.update(MainMsg::FriendMessage { friend_id: 9, message: msg(1, "hey") });
    assert_eq!(actions, vec![MainAction::Sidebar(SidebarMsg::UpdateChatItem(9, false, "hey".to_string()))]);
    assert_eq!(main.chatrooms.len(), 1);
    assert_eq!(flatten(&main.chatrooms[0].messages), vec![msg(9, "hello"), msg(1, "hey")]);
    assert!(main.is_item_in_list(9, false));
    assert!(!main.is_item_in_list(9, true));
}

#[test]
fn second_chat_is_not_brought_to_front() {
    let mut main = MainPageModel::new();
    main.update(MainMsg::GroupMessage { group_id: 1, message: msg(2, "a") });
    let actions = main.update(MainMsg::GroupMessage { group_id: 3, message: msg(2, "b") });
    assert_eq!(actions, vec![MainAction::Sidebar(SidebarMsg::InsertChatItem(3, true, "b".to_string()))]);
    assert_eq!(main.chatrooms[0].account, 3);
    assert_eq!(main.chatrooms[1].account, 1);
}

#[test]
fn select_opens_empty_chatroom() {
    let mut main = MainPageModel::new();
    let actions = main.update(MainMsg::SelectChatroom(5, true));
    assert_eq!(
        actions,
        vec![MainAction::Sidebar(SidebarMsg::InsertChatItem(5, true, String::new())), MainAction::ShowChatroom(5, true)]
    );
    let actions = main.update(MainMsg::SelectChatroom(5, true));
    assert_eq!(actions, vec![MainAction::ShowChatroom(5, true)]);
    assert_eq!(main.chatrooms.len(), 1);
    assert!(main.chatrooms[0].messages.is_empty());
    assert_eq!(main.update(MainMsg::WindowFolded), vec![MainAction::ShowChatroomPane]);
    assert_eq!(main.update(MainMsg::PushToast("t".to_string())), vec![MainAction::Toast("t".to_string())]);
}

#[test]
fn chat_list_and_chatrooms_stay_in_sync() {
    let mut main = MainPageModel::new();
    let mut chats = ChatsModel::new();
    let inputs = vec![
        MainMsg::FriendMessage { friend_id: 1, message: msg(1, "a") },
        MainMsg::GroupMessage { group_id: 1, message: msg(4, "b") },
        MainMsg::SelectChatroom(7, false),
        MainMsg::FriendMessage { friend_id: 7, message: msg(7, "c") },
        MainMsg::SelectChatroom(1, true),
        MainMsg::FriendMessage { friend_id: 1, message: msg(1, "d") },
    ];
    for input in inputs {
        for action in main.update(input) {
            if let MainAction::Sidebar(s) = action {
                match SidebarModel::update(s) {
                    SidebarRoute::Chats(ChatsMsg::UpdateChatItem(a, g, t)) => chats.update_chat_item(a, g, t),
                    SidebarRoute::Chats(ChatsMsg::InsertChatItem(a, g, t)) => chats.insert_chat_item(a, g, String::new(), t),
                    _ => {}
                }
            }
        }
        let mut rooms: Vec<(i64, bool)> = main.chatrooms.iter().map(|r| (r.account, r.is_group)).collect();
        let mut listed: Vec<(i64, bool)> = chats.chats_list.iter().map(|c| (c.account, c.is_group)).collect();
        rooms.sort();
        listed.sort();
        assert_eq!(rooms, listed);
    }
    assert_eq!(chats.chats_list[0].account, 1);
    assert_eq!(chats.chats_list[0].last_message, "d");
}

#[test]
fn sidebar_and_contact_routing() {
    assert_eq!(SidebarModel::update(SidebarMsg::SelectChatroom(3, true)), SidebarRoute::Main(MainMsg::SelectChatroom(3, true)));
    assert_eq!(
        SidebarModel::update(SidebarMsg::PushToast("x".to_string())),
        SidebarRoute::Main(MainMsg::PushToast("x".to_string()))
    );
    assert_eq!(ContactModel::update(ContactMsg::SelectChatroom(2, false)), SidebarMsg::SelectChatroom(2, false));
    assert_eq!(ContactModel::update(ContactMsg::PushToast("y".to_string())), SidebarMsg::PushToast("y".to_string()));
}

#[test]
fn message_groups_are_laid_out_by_sender() {
    let picture = Content::Image { url: "http://x/1.png".to_string(), filename: "1.png".to_string() };
    let group = MessageGroup {
        sender_id: 7,
        sender_name: "me".to_string(),
        messages: vec![
            Message { sender_id: 7, sender_name: "me".to_string(), contents: vec![Content::Text("hi".to_string()), picture.clone()] },
            msg(7, "bye"),
        ],
    };
    assert_eq!(
        group.layout(7),
        GroupLayout {
            side: Side::End,
            avatar_last: true,
            labels: vec![vec!["hi".to_string(), "[图片]".to_string()], vec!["bye".to_string()]],
        }
    );
    let theirs = group.layout(8);
    assert_eq!(theirs.side, Side::Start);
    assert!(!theirs.avatar_last);
    assert_eq!(theirs.labels, group.layout(7).labels);
}

#[test]
fn latest_chat_comes_first() {
    let mut main = MainPageModel::new();
    let mut chats = ChatsModel::new();
    let inputs = vec![
        (MainMsg::FriendMessage { friend_id: 1, message: msg(1, "a") }, (1, false)),
        (MainMsg::GroupMessage { group_id: 2, message: msg(5, "b") }, (2, true)),
        (MainMsg::FriendMessage { friend_id: 3, message: msg(3, "c") }, (3, false)),
        (MainMsg::GroupMessage { group_id: 2, message: msg(6, "d") }, (2, true)),
        (MainMsg::FriendMessage { friend_id: 1, message: msg(1, "e") }, (1, false)),
    ];
    for (input, key) in inputs {
        for action in main.update(input) {
            if let MainAction::Sidebar(s) = action {
                match SidebarModel::update(s) {
                    SidebarRoute::Chats(ChatsMsg::UpdateChatItem(a, g, t)) => chats.update_chat_item(a, g, t),
                    SidebarRoute::Chats(ChatsMsg::InsertChatItem(a, g, t)) => chats.insert_chat_item(a, g, String::new(), t),
                    _ => {}
                }
            }
        }
        assert_eq!((chats.chats_list[0].account, chats.chats_list[0].is_group), key);
    }
    let order: Vec<i64> = chats.chats_list.iter().map(|c| c.account).collect();
    assert_eq!(order, vec![1, 3, 2]);
}
