//! Web-view buttons for the text attachments of a message, packed into rows.
use vstd::prelude::*;
use crate::dispatch::{eligible, is_eligible, Attachment, Message};
use crate::text::{decimal, push_char, push_decimal, push_text};

verus! {

/// The most buttons a row holds.
pub const ROW_WIDTH: usize = 5;

/// A link button: its label and the address it opens.
pub struct Button {
    pub label: String,
    pub url: String,
}

/// The attachments that get a web view, in their order.
pub open spec fn view_targets(atts: Seq<Attachment>) -> Seq<Attachment>
    decreases atts.len(),
{
    if atts.len() == 0 {
        Seq::empty()
    } else {
        let before = view_targets(atts.drop_last());
        if eligible(atts.last()) {
            before.push(atts.last())
        } else {
            before
        }
    }
}

/// The label of an attachment's button.
pub open spec fn view_label(a: Attachment) -> Seq<char> {
    seq!['V', 'i', 'e', 'w', ' '] + a.filename@
}

/// The address of an attachment's web view:
/// `{base}/{channel}/{attachment id}/{filename}`.
pub open spec fn view_url(base: Seq<char>, channel: u64, a: Attachment) -> Seq<char> {
    base + seq!['/'] + decimal(channel as nat) + seq!['/'] + decimal(a.id as nat) + seq!['/']
        + a.filename@
}

/// The total number of items over the rows.
pub open spec fn total_len<T>(rows: Seq<Vec<T>>) -> nat
    decreases rows.len(),
{
    if rows.len() == 0 {
        0
    } else {
        total_len(rows.drop_last()) + rows.last()@.len()
    }
}

/// Rows of at most `ROW_WIDTH` items holding `items` in order: every row but
/// the last is full, and none is empty.
pub open spec fn packs<T>(items: Seq<T>, rows: Seq<Vec<T>>) -> bool {
    &&& rows.len() == (items.len() + 4) / 5
    &&& total_len(rows) == items.len()
    &&& forall|i: int| 0 <= i < rows.len() - 1 ==> (#[trigger] rows[i]).len() == ROW_WIDTH
    &&& forall|i: int| 0 <= i < rows.len() ==> 1 <= (#[trigger] rows[i]).len() <= ROW_WIDTH
    &&& forall|i: int, j: int|
        0 <= i < rows.len() && 0 <= j < rows[i].len() ==> (#[trigger] rows[i]@[j]) == items[5 * i
            + j]
}

/// Builds the button of one attachment.
pub fn view_button(base: &str, channel: u64, a: &Attachment) -> (r: Button)
    ensures
        r.label@ == view_label(*a),
        r.url@ == view_url(base@, channel, *a),
{
    let mut label = String::new();
    push_char(&mut label, 'V');
    push_char(&mut label, 'i');
    push_char(&mut label, 'e');
    push_char(&mut label, 'w');
    push_char(&mut label, ' ');
    push_text(&mut label, a.filename.as_str());
    assert(label@ =~= view_label(*a));
    let mut url = String::new();
    push_text(&mut url, base);
    push_char(&mut url, '/');
    push_decimal(&mut url, channel);
    push_char(&mut url, '/');
    push_decimal(&mut url, a.id);
    push_char(&mut url, '/');
    push_text(&mut url, a.filename.as_str());
    assert(url@ =~= view_url(base@, channel, *a));
    Button { label, url }
}

/// One button per attachment that may hold text, in order, each opening the
/// attachment's page under the proxy address `base`.
pub fn view_buttons(msg: &Message, base: &str) -> (r: Vec<Button>)
    ensures
        r@.len() == view_targets(msg.attachments@).len(),
        forall|i: int|
            0 <= i < r@.len() ==> (#[trigger] r@[i]).label@ == view_label(
                view_targets(msg.attachments@)[i],
            ) && r@[i].url@ == view_url(base@, msg.channel_id, view_targets(msg.attachments@)[i]),
{
    let mut out: Vec<Button> = Vec::new();
    let mut i: usize = 0;
    while i < msg.attachments.len()
        invariant
            i <= msg.attachments.len(),
            out@.len() == view_targets(msg.attachments@.subrange(0, i as int)).len(),
            forall|k: int|
                0 <= k < out@.len() ==> (#[trigger] out@[k]).label@ == view_label(
                    view_targets(msg.attachments@.subrange(0, i as int))[k],
                ) && out@[k].url@ == view_url(
                    base@,
                    msg.channel_id,
                    view_targets(msg.attachments@.subrange(0, i as int))[k],
                ),
        decreases msg.attachments.len() - i,
    {
        let ghost before = msg.attachments@.subrange(0, i as int);
        let ghost now = msg.attachments@.subrange(0, i + 1);
        assert(now.drop_last() =~= before);
        assert(now.last() == msg.attachments@[i as int]);
        let a = &msg.attachments[i];
        if is_eligible(a) {
            let b = view_button(base, msg.channel_id, a);
            out.push(b);
        }
        i = i + 1;
    }
    assert(msg.attachments@.subrange(0, msg.attachments.len() as int) =~= msg.attachments@);
    out
}

/// Packs `items` into rows of `ROW_WIDTH`, in order; a last row that is not
/// full is kept, and no row is empty.
pub fn pack_rows<T>(items: Vec<T>) -> (r: Vec<Vec<T>>)
    ensures
        packs(items@, r@),
{
    let ghost all = items@;
    let n = items.len();
    let mut rest = items;
    let mut rows: Vec<Vec<T>> = Vec::new();
    let mut row: Vec<T> = Vec::new();
    let mut used: usize = 0;
    while rest.len() > 0
        invariant
            n == all.len(),
            used <= n,
            rest@ == all.subrange(used as int, n as int),
            used == 5 * rows@.len() + row@.len(),
            row@.len() < 5,
            total_len(rows@) == 5 * rows@.len(),
            forall|i: int| 0 <= i < rows@.len() ==> (#[trigger] rows@[i]).len() == ROW_WIDTH,
            forall|i: int, j: int|
                0 <= i < rows@.len() && 0 <= j < rows@[i].len() ==> (#[trigger] rows@[i]@[j])
                    == all[5 * i + j],
            forall|j: int| 0 <= j < row@.len() ==> (#[trigger] row@[j]) == all[5 * rows@.len() + j],
        decreases rest.len(),
    {
        let x = rest.remove(0);
        row.push(x);
        used = used + 1;
        if row.len() == ROW_WIDTH {
            let full = row;
            row = Vec::new();
            let ghost old_rows = rows@;
            rows.push(full);
            assert(rows@.drop_last() =~= old_rows);
        }
    }
    if row.len() > 0 {
        let ghost old_rows = rows@;
        let last = row;
        rows.push(last);
        assert(rows@.drop_last() =~= old_rows);
    }
    rows
}

/// `rows` hold, packed in order, one button for each attachment of `msg`
/// that may hold text, opening its page under the proxy address `base`.
pub open spec fn lays_out_views(msg: Message, base: Seq<char>, rows: Seq<Vec<Button>>) -> bool {
    exists|buttons: Seq<Button>|
        packs(buttons, rows) && buttons.len() == view_targets(msg.attachments@).len() && forall|
            i: int,
        |
            0 <= i < buttons.len() ==> (#[trigger] buttons[i]).label@ == view_label(
                view_targets(msg.attachments@)[i],
            ) && buttons[i].url@ == view_url(base, msg.channel_id, view_targets(msg.attachments@)[i])
}

/// The rows of web-view buttons for a message's text attachments.
pub fn view_rows(msg: &Message, base: &str) -> (r: Vec<Vec<Button>>)
    ensures
        lays_out_views(*msg, base@, r@),
{
    let buttons = view_buttons(msg, base);
    let ghost b = buttons@;
    let r = pack_rows(buttons);
    assert(packs(b, r@));
    r
}

} // verus!
