use background_cat::cascade::{replies_to_delete, Posted, LOOKBACK};

fn history(reply_at: usize, len: usize) -> Vec<Posted> {
    (1..=len)
        .map(|k| Posted {
            id: 500 + k as u64,
            author_id: if k == reply_at { 9 } else { 3 },
            referenced_message_id: if k == reply_at { Some(500) } else { None },
        })
        .collect()
}

#[test]
fn reply_within_lookback_is_deleted() {
    assert_eq!(LOOKBACK, 10);
    assert_eq!(replies_to_delete(500, 9, &history(1, 12)), vec![501]);
    assert_eq!(replies_to_delete(500, 9, &history(10, 12)), vec![510]);
}

#[test]
fn reply_beyond_lookback_is_left() {
    assert!(replies_to_delete(500, 9, &history(11, 12)).is_empty());
}

#[test]
fn only_own_replies_to_the_deleted_message() {
    let h = vec![
        Posted { id: 501, author_id: 3, referenced_message_id: Some(500) },
        Posted { id: 502, author_id: 9, referenced_message_id: Some(499) },
        Posted { id: 503, author_id: 9, referenced_message_id: Some(500) },
        Posted { id: 504, author_id: 9, referenced_message_id: Some(500) },
    ];
    assert_eq!(replies_to_delete(500, 9, &h), vec![503, 504]);
    assert!(replies_to_delete(500, 9, &Vec::new()).is_empty());
}

#[test]
fn reply_far_beyond_lookback_is_orphaned() {
    assert!(replies_to_delete(500, 9, &history(15, 20)).is_empty());
    assert_eq!(replies_to_delete(500, 9, &history(9, 9)), vec![509]);
}
