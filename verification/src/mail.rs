//! Reading mail and player news.

use vstd::prelude::*;

use crate::log::{push_shown_name, spec_shown_name, LogSettings};
use crate::text::{push_str, string_from_chars};

verus! {

/// A message of the inbox.
#[derive(Debug, Clone)]
pub struct InboxMessage {
    pub msg_id: i32,
    pub read: bool,
    /// Whether it is a normal message (not a notification).
    pub normal: bool,
    pub from: String,
    pub title: String,
}

/// A news entry.
#[derive(Debug, Clone)]
pub struct NewsMessage {
    pub news_id: i64,
    pub read: bool,
    pub title: String,
}

/// The positions, from `i` on, of the unread normal messages.
pub open spec fn spec_unread_messages_from(msgs: Seq<InboxMessage>, i: nat) -> Seq<usize>
    decreases msgs.len() - i,
{
    if i >= msgs.len() {
        Seq::empty()
    } else if !msgs[i as int].read && msgs[i as int].normal {
        seq![i as usize] + spec_unread_messages_from(msgs, i + 1)
    } else {
        spec_unread_messages_from(msgs, i + 1)
    }
}

/// The positions, from `i` on, of the unread news.
pub open spec fn spec_unread_news_from(news: Seq<NewsMessage>, i: nat) -> Seq<usize>
    decreases news.len() - i,
{
    if i >= news.len() {
        Seq::empty()
    } else if !news[i as int].read {
        seq![i as usize] + spec_unread_news_from(news, i + 1)
    } else {
        spec_unread_news_from(news, i + 1)
    }
}

/// The positions of the unread normal messages, in inbox order.
pub fn unread_messages(msgs: &Vec<InboxMessage>) -> (r: Vec<usize>)
    ensures
        r@ == spec_unread_messages_from(msgs@, 0),
{
    let mut r: Vec<usize> = Vec::new();
    let mut i: usize = msgs.len();
    while i > 0
        invariant
            i <= msgs@.len(),
            r@ == spec_unread_messages_from(msgs@, i as nat),
        decreases i,
    {
        i = i - 1;
        if !msgs[i].read && msgs[i].normal {
            r.insert(0, i);
            assert(r@ =~= seq![i] + spec_unread_messages_from(msgs@, (i + 1) as nat));
        }
    }
    r
}

/// The positions of the unread news, in order.
pub fn unread_news(news: &Vec<NewsMessage>) -> (r: Vec<usize>)
    ensures
        r@ == spec_unread_news_from(news@, 0),
{
    let mut r: Vec<usize> = Vec::new();
    let mut i: usize = news.len();
    while i > 0
        invariant
            i <= news@.len(),
            r@ == spec_unread_news_from(news@, i as nat),
        decreases i,
    {
        i = i - 1;
        if !news[i].read {
            r.insert(0, i);
            assert(r@ =~= seq![i] + spec_unread_news_from(news@, (i + 1) as nat));
        }
    }
    r
}

/// The note logged when a message is read: `READING MESSAGE FROM '<from>'
/// (<title>)`, with sender and title masked when names are hidden.
pub open spec fn spec_message_note(settings: LogSettings, m: InboxMessage) -> Seq<char> {
    "READING MESSAGE FROM '"@ + spec_shown_name(settings, m.from@) + "' ("@ + spec_shown_name(settings, m.title@)
        + ")"@
}

/// The note logged when a message is read.
pub fn message_note(settings: &LogSettings, m: &InboxMessage) -> (r: String)
    ensures
        r@ == spec_message_note(*settings, *m),
{
    let mut out: Vec<char> = Vec::new();
    push_str(&mut out, "READING MESSAGE FROM '");
    push_shown_name(&mut out, settings, m.from.as_str());
    push_str(&mut out, "' (");
    push_shown_name(&mut out, settings, m.title.as_str());
    push_str(&mut out, ")");
    string_from_chars(out)
}

/// The note logged when a piece of news is read: `READING NEWS '<title>'`,
/// with the title masked when names are hidden.
pub open spec fn spec_news_note(settings: LogSettings, n: NewsMessage) -> Seq<char> {
    "READING NEWS '"@ + spec_shown_name(settings, n.title@) + "'"@
}

/// The note logged when a piece of news is read.
pub fn news_note(settings: &LogSettings, n: &NewsMessage) -> (r: String)
    ensures
        r@ == spec_news_note(*settings, *n),
{
    let mut out: Vec<char> = Vec::new();
    push_str(&mut out, "READING NEWS '");
    push_shown_name(&mut out, settings, n.title.as_str());
    push_str(&mut out, "'");
    string_from_chars(out)
}

} // verus!
