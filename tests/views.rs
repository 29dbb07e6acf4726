use background_cat::dispatch::{Attachment, Message};
use background_cat::reply::{notice, view_reply, NOTICE_FOOTER, NOTICE_TITLE};
use background_cat::dispatch::Finding;
use background_cat::views::{pack_rows, view_buttons, view_rows, ROW_WIDTH};

fn message_with(n: u64, text: bool) -> Message {
    let attachments = (1..=n)
        .map(|i| Attachment {
            id: 1000 + i,
            filename: format!("f{}.log", i),
            content_type: Some(if text { "text/plain; charset=utf-8" } else { "image/png" }.to_string()),
        })
        .collect();
    Message { id: 5, channel_id: 77, author_id: 42, author_is_bot: false, content: String::new(), attachments }
}

#[test]
fn rows_hold_five_buttons_each() {
    let rows = view_rows(&message_with(7, true), "https://view.example");
    assert_eq!(rows.len(), 2);
    assert_eq!(rows[0].len(), ROW_WIDTH);
    assert_eq!(rows[1].len(), 2);
    let exact = view_rows(&message_with(10, true), "https://view.example");
    assert_eq!(exact.len(), 2);
    assert!(exact.iter().all(|r| r.len() == 5));
    assert_eq!(view_rows(&message_with(0, true), "b").len(), 0);
}

#[test]
fn row_count_is_ceiling_over_sizes() {
    for a in 0..23usize {
        let rows = pack_rows((0..a).collect::<Vec<usize>>());
        assert_eq!(rows.len(), (a + 4) / 5);
        let flat: Vec<usize> = rows.iter().flatten().copied().collect();
        assert_eq!(flat, (0..a).collect::<Vec<usize>>());
        for (i, r) in rows.iter().enumerate() {
            if i + 1 < rows.len() {
                assert_eq!(r.len(), 5);
            } else {
                assert!(!r.is_empty() && r.len() <= 5);
            }
        }
    }
}

#[test]
fn buttons_link_to_the_proxy() {
    let mut m = message_with(2, true);
    m.attachments[1].content_type = Some("application/zip".to_string());
    let b = view_buttons(&m, "https://view.example");
    assert_eq!(b.len(), 1);
    assert_eq!(b[0].label, "View f1.log");
    assert_eq!(b[0].url, "https://view.example/77/1001/f1.log");
}

#[test]
fn view_reply_names_author_and_source() {
    let r = view_reply(&message_with(3, true), "https://v").unwrap();
    assert_eq!(r.content, "Web version of attachments from <@42>");
    assert_eq!(r.reply_to, 5);
    assert_eq!(r.rows.len(), 1);
    assert_eq!(r.rows[0][2].url, "https://v/77/1003/f3.log");
    assert!(view_reply(&message_with(3, false), "https://v").is_none());
}

#[test]
fn notice_keeps_findings_in_order() {
    let m = message_with(0, true);
    let f = vec![
        Finding { title: "B".to_string(), body: "second".to_string() },
        Finding { title: "A".to_string(), body: "first".to_string() },
    ];
    let n = notice(&m, f);
    assert_eq!(n.title, NOTICE_TITLE);
    assert_eq!(n.footer, NOTICE_FOOTER);
    assert_eq!(n.reply_to, 5);
    assert_eq!(n.fields.len(), 2);
    assert_eq!(n.fields[0].title, "B");
    assert_eq!(n.fields[1].body, "first");
}
