//! What the client does with an incoming chat message: which chatroom it
//! belongs to, and whether the user is notified.

use vstd::prelude::*;
use crate::main_page::MainMsg;
use crate::message::{Content, Message, contents_text, contents_view, get_text_from};

verus! {

/// The events the client handles.
#[derive(Debug, Clone, PartialEq, Eq)]
pub struct AppHandler;

/// A desktop notification: about a friend's chat or a group's chat, with
/// the message's text.
#[derive(Debug, Clone, PartialEq, Eq)]
pub struct Notification {
    pub id: i64,
    pub is_group: bool,
    pub body: String,
}

impl AppHandler {
    /// A message in a friend chat, sent by `from_uin` to `target`. It
    /// belongs to the friend's chatroom: the other side's number, whoever
    /// sent it. The user is notified of messages they did not send themselves.
    pub fn friend_message(
        account: i64,
        from_uin: i64,
        target: i64,
        sender_name: String,
        contents: Vec<Content>,
    ) -> (r: (MainMsg, Option<Notification>))
        ensures
            ({
                let friend_id = if from_uin == account { target } else { from_uin };
                &&& r.0 matches MainMsg::FriendMessage { friend_id: f, message }
                    && f == friend_id
                    && message.sender_id == from_uin
                    && message.sender_name == sender_name
                    && message.contents@ == contents@
                &&& (from_uin == account <==> r.1 is None)
                &&& (r.1 matches Some(n) ==> n.id == friend_id && !n.is_group
                    && n.body@ == contents_text(contents_view(contents@)))
            }),
    {
        let friend_id = if from_uin == account { target } else { from_uin };
        let body = get_text_from(contents.as_slice());
        let note = if from_uin != account {
            Some(Notification { id: friend_id, is_group: false, body })
        } else {
            None
        };
        (MainMsg::FriendMessage { friend_id, message: Message { sender_id: from_uin, sender_name, contents } }, note)
    }

    /// A message in group `group_code`, sent by `from_uin` under the group
    /// card `group_card`. The user is notified of messages they did not send themselves.
    pub fn group_message(
        account: i64,
        group_code: i64,
        from_uin: i64,
        group_card: String,
        contents: Vec<Content>,
    ) -> (r: (MainMsg, Option<Notification>))
        ensures
            r.0 matches MainMsg::GroupMessage { group_id, message }
                && group_id == group_code
                && message.sender_id == from_uin
                && message.sender_name == group_card
                && message.contents@ == contents@,
            from_uin == account <==> r.1 is None,
            r.1 matches Some(n) ==> n.id == group_code && n.is_group
                && n.body@ == contents_text(contents_view(contents@)),
    {
        let body = get_text_from(contents.as_slice());
        let note = if from_uin != account {
            Some(Notification { id: group_code, is_group: true, body })
        } else {
            None
        };
        (MainMsg::GroupMessage { group_id: group_code, message: Message { sender_id: from_uin, sender_name: group_card, contents } }, note)
    }
}

} // verus!
