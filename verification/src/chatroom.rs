//! A chatroom's history: consecutive messages of one sender are shown
//! together as one group.

use vstd::prelude::*;
use crate::message::{Content, Message, content_text};

verus! {

/// Consecutive messages of one sender.
#[derive(Debug, Clone, PartialEq, Eq)]
pub struct MessageGroup {
    pub sender_id: i64,
    pub sender_name: String,
    pub messages: Vec<Message>,
}

/// All messages of a run of groups, in order.
pub open spec fn group_messages(groups: Seq<MessageGroup>) -> Seq<Message>
    decreases groups.len(),
{
    if groups.len() == 0 {
        Seq::empty()
    } else {
        group_messages(groups.drop_last()) + groups.last().messages@
    }
}

/// Whether every group is nonempty, holds messages of its own sender only,
/// and differs in sender from the group after it.
pub open spec fn well_grouped(groups: Seq<MessageGroup>) -> bool {
    &&& forall|i: int| 0 <= i < groups.len() ==> (#[trigger] groups[i]).messages@.len() > 0
    &&& forall|i: int, j: int|
        0 <= i < groups.len() && 0 <= j < groups[i].messages@.len()
            ==> (#[trigger] groups[i].messages@[j]).sender_id == groups[i].sender_id
    &&& forall|i: int| 0 <= i < groups.len() - 1 ==> (#[trigger] groups[i]).sender_id != groups[i + 1].sender_id
}

/// The side of the chatroom a message group is shown on.
#[derive(Debug, Clone, Copy, PartialEq, Eq)]
pub enum Side {
    Start,
    End,
}

/// How a message group is shown: the side it stands on, whether the
/// sender's avatar comes after the messages, and the label of each piece of
/// each message.
#[derive(Debug, Clone, PartialEq, Eq)]
pub struct GroupLayout {
    pub side: Side,
    pub avatar_last: bool,
    pub labels: Vec<Vec<String>>,
}

/// Whether `labels` are the labels of the pieces of `contents`, one each.
pub open spec fn labels_of(labels: Seq<String>, contents: Seq<Content>) -> bool {
    &&& labels.len() == contents.len()
    &&& forall|j: int| 0 <= j < contents.len() ==> (#[trigger] labels[j])@ == content_text(contents[j]@)
}

/// The labels of the pieces of a message, one each.
fn piece_labels(contents: &Vec<Content>) -> (r: Vec<String>)
    ensures
        labels_of(r@, contents@),
{
    let mut out: Vec<String> = Vec::new();
    let mut j: usize = 0;
    while j < contents.len()
        invariant
            0 <= j <= contents@.len(),
            out@.len() == j,
            forall|t: int| 0 <= t < j ==> (#[trigger] out@[t])@ == content_text(contents@[t]@),
        decreases contents@.len() - j,
    {
        out.push(contents[j].text());
        j = j + 1;
    }
    out
}

impl MessageGroup {
    /// How this group is shown to the user of `account`: their own messages
    /// on the end side with the avatar last, others' on the start side with
    /// the avatar first; a text piece is shown as it is, a picture as a label.
    pub fn layout(&self, account: i64) -> (r: GroupLayout)
        ensures
            r.side == (if self.sender_id == account { Side::End } else { Side::Start }),
            r.avatar_last == (self.sender_id == account),
            r.labels@.len() == self.messages@.len(),
            forall|i: int| 0 <= i < self.messages@.len() ==> labels_of((#[trigger] r.labels@[i])@, self.messages@[i].contents@),
    {
        let own = self.sender_id == account;
        let mut labels: Vec<Vec<String>> = Vec::new();
        let mut i: usize = 0;
        while i < self.messages.len()
            invariant
                0 <= i <= self.messages@.len(),
                labels@.len() == i,
                forall|t: int| 0 <= t < i ==> labels_of((#[trigger] labels@[t])@, self.messages@[t].contents@),
            decreases self.messages@.len() - i,
        {
            labels.push(piece_labels(&self.messages[i].contents));
            i = i + 1;
        }
        GroupLayout { side: if own { Side::End } else { Side::Start }, avatar_last: own, labels }
    }
}

/// `after` is the history `before` with message `m` added at the end: into
/// the last group when it is of the same sender, else into a new group of
/// its own that takes the message's sender and sender name.
pub open spec fn appended(before: Seq<MessageGroup>, after: Seq<MessageGroup>, m: Message) -> bool {
    if before.len() > 0 && before.last().sender_id == m.sender_id {
        &&& after.len() == before.len()
        &&& after.drop_last() == before.drop_last()
        &&& after.last().sender_id == before.last().sender_id
        &&& after.last().sender_name == before.last().sender_name
        &&& after.last().messages@ == before.last().messages@.push(m)
    } else {
        &&& after.len() == before.len() + 1
        &&& after.drop_last() == before
        &&& after.last().sender_id == m.sender_id
        &&& after.last().sender_name == m.sender_name
        &&& after.last().messages@ == seq![m]
    }
}

/// The chatroom of a friend or a group, with its history.
#[derive(Debug, Clone, PartialEq, Eq)]
pub struct Chatroom {
    pub account: i64,
    pub is_group: bool,
    pub messages: Vec<MessageGroup>,
}

impl Chatroom {
    /// A chatroom without history.
    pub fn new(account: i64, is_group: bool) -> (r: Chatroom)
        ensures
            r.account == account,
            r.is_group == is_group,
            r.messages@.len() == 0,
    {
        Chatroom { account, is_group, messages: Vec::new() }
    }

    /// Adds a message at the end of the history: into the last group when
    /// that group is of the same sender, else into a new group.
    pub fn add_message(&mut self, message: Message)
        ensures
            final(self).account == old(self).account,
            final(self).is_group == old(self).is_group,
            appended(old(self).messages@, final(self).messages@, message),
            group_messages(final(self).messages@) == group_messages(old(self).messages@).push(message),
            well_grouped(old(self).messages@) ==> well_grouped(final(self).messages@),
    {
        let ghost before = self.messages@;
        let last = self.messages.pop();
        match last {
            Some(mut group) => {
                let ghost init = self.messages@;
                proof {
                    assert(before =~= init.push(group));
                    assert(before.drop_last() =~= init);
                }
                if group.sender_id == message.sender_id {
                    let ghost g0 = group;
                    group.messages.push(message);
                    self.messages.push(group);
                    proof {
                        let after = self.messages@;
                        assert(after.drop_last() =~= init);
                        assert(group_messages(init) + g0.messages@.push(message)
                            =~= (group_messages(init) + g0.messages@).push(message));
                        if well_grouped(before) {
                            assert forall|i: int, j: int|
                                0 <= i < after.len() && 0 <= j < after[i].messages@.len()
                                implies (#[trigger] after[i].messages@[j]).sender_id == after[i].sender_id by {
                                if i < after.len() - 1 {
                                    assert(after[i] == before[i]);
                                } else if j < g0.messages@.len() {
                                    assert(before[i] == g0);
                                    assert(after[i].messages@[j] == g0.messages@[j]);
                                }
                            }
                            assert forall|i: int| 0 <= i < after.len() - 1 implies (#[trigger] after[i]).sender_id != after[i + 1].sender_id by {
                                assert(after[i] == before[i]);
                                if i + 1 < after.len() - 1 {
                                    assert(after[i + 1] == before[i + 1]);
                                } else {
                                    assert(before[i + 1] == g0);
                                }
                            }
                            assert forall|i: int| 0 <= i < after.len() implies (#[trigger] after[i]).messages@.len() > 0 by {
                                if i < after.len() - 1 {
                                    assert(after[i] == before[i]);
                                }
                            }
                        }
                    }
                } else {
                    let ghost g0 = group;
                    let name = message.sender_name.clone();
                    let id = message.sender_id;
                    self.messages.push(group);
                    let mut fresh: Vec<Message> = Vec::new();
                    fresh.push(message);
                    self.messages.push(MessageGroup { sender_id: id, sender_name: name, messages: fresh });
                    proof {
                        let after = self.messages@;
                        assert(after.drop_last() =~= before);
                        assert(after.last().messages@ =~= seq![message]);
                        assert(group_messages(before) + seq![message] =~= group_messages(before).push(message));
                        if well_grouped(before) {
                            assert forall|i: int, j: int|
                                0 <= i < after.len() && 0 <= j < after[i].messages@.len()
                                implies (#[trigger] after[i].messages@[j]).sender_id == after[i].sender_id by {
                                if i < after.len() - 1 {
                                    assert(after[i] == before[i]);
                                }
                            }
                            assert forall|i: int| 0 <= i < after.len() - 1 implies (#[trigger] after[i]).sender_id != after[i + 1].sender_id by {
                                assert(after[i] == before[i]);
                                if i + 1 < after.len() - 1 {
                                    assert(after[i + 1] == before[i + 1]);
                                }
                            }
                            assert forall|i: int| 0 <= i < after.len() implies (#[trigger] after[i]).messages@.len() > 0 by {
                                if i < after.len() - 1 {
                                    assert(after[i] == before[i]);
                                }
                            }
                        }
                    }
                }
            },
            None => {
                let name = message.sender_name.clone();
                let id = message.sender_id;
                let mut fresh: Vec<Message> = Vec::new();
                fresh.push(message);
                self.messages.push(MessageGroup { sender_id: id, sender_name: name, messages: fresh });
                proof {
                    let after = self.messages@;
                    assert(before.len() == 0);
                    assert(after.drop_last() =~= before);
                    assert(after.last().messages@ =~= seq![message]);
                    assert(group_messages(before) + seq![message] =~= group_messages(before).push(message));
                }
            },
        }
    }
}

} // verus!
