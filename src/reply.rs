//! The replies sent into the chat: the diagnostic notice and the web-view
//! offer for attachments.
use vstd::prelude::*;
use crate::dispatch::{Finding, Message};
use crate::text::{decimal, push_char, push_decimal, push_text};
use crate::views::{lays_out_views, view_rows, view_targets, Button};

verus! {

/// The title of a diagnostic notice.
pub const NOTICE_TITLE: &'static str = "Automated Response: (Warning: Experimental)";

/// The footer of a diagnostic notice.
pub const NOTICE_FOOTER: &'static str = "This might not solve your problem, but it could be worth a try";

/// A diagnostic notice: a title, one field per finding, a footer, and the id
/// of the message it answers.
pub struct Notice {
    pub title: String,
    pub fields: Vec<Finding>,
    pub footer: String,
    pub reply_to: u64,
}

/// The offer of web views: a text that names the author, the rows of
/// buttons, and the id of the message it answers.
pub struct ViewReply {
    pub content: String,
    pub rows: Vec<Vec<Button>>,
    pub reply_to: u64,
}

/// The text of a web-view offer for the attachments of `author_id`.
pub open spec fn view_text(author_id: u64) -> Seq<char> {
    "Web version of attachments from <@"@ + decimal(author_id as nat) + seq!['>']
}

/// The diagnostic notice answering `msg` with `findings`, in the engine's
/// order.
pub fn notice(msg: &Message, findings: Vec<Finding>) -> (r: Notice)
    ensures
        r.title@ == NOTICE_TITLE@,
        r.fields@ == findings@,
        r.footer@ == NOTICE_FOOTER@,
        r.reply_to == msg.id,
{
    let mut title = String::new();
    push_text(&mut title, NOTICE_TITLE);
    let mut footer = String::new();
    push_text(&mut footer, NOTICE_FOOTER);
    Notice { title, fields: findings, footer, reply_to: msg.id }
}

/// The web-view offer for `msg` under the proxy address `base`; none when no
/// attachment may hold text.
pub fn view_reply(msg: &Message, base: &str) -> (r: Option<ViewReply>)
    ensures
        r is None <==> view_targets(msg.attachments@).len() == 0,
        r matches Some(v) ==> v.content@ == view_text(msg.author_id) && v.reply_to == msg.id,
        r matches Some(v) ==> lays_out_views(*msg, base@, v.rows@),
{
    let rows = view_rows(msg, base);
    if rows.len() == 0 {
        return None;
    }
    let mut content = String::new();
    push_text(&mut content, "Web version of attachments from <@");
    push_decimal(&mut content, msg.author_id);
    push_char(&mut content, '>');
    assert(content@ =~= view_text(msg.author_id));
    Some(ViewReply { content, rows, reply_to: msg.id })
}

} // verus!
