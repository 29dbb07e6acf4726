//! Removal of the bot's reply when the message it answered is deleted.
use vstd::prelude::*;

verus! {

/// How many messages after a deleted one are searched for its reply.
pub const LOOKBACK: usize = 10;

/// A message posted in a channel, as the cascade reads it.
pub struct Posted {
    pub id: u64,
    pub author_id: u64,
    pub referenced_message_id: Option<u64>,
}

/// `p` is a reply of the bot `bot_id` to the message `deleted`.
pub open spec fn is_reply_to(p: Posted, bot_id: u64, deleted: u64) -> bool {
    p.author_id == bot_id && p.referenced_message_id == Some(deleted)
}

/// The ids of the replies to `deleted` by `bot_id` among `posts`, in order.
pub open spec fn replies_in(posts: Seq<Posted>, bot_id: u64, deleted: u64) -> Seq<u64>
    decreases posts.len(),
{
    if posts.len() == 0 {
        Seq::empty()
    } else {
        let before = replies_in(posts.drop_last(), bot_id, deleted);
        if is_reply_to(posts.last(), bot_id, deleted) {
            before.push(posts.last().id)
        } else {
            before
        }
    }
}

/// The messages searched: the first `LOOKBACK` of those posted after the
/// deleted one.
pub open spec fn window(after: Seq<Posted>) -> Seq<Posted> {
    if after.len() <= LOOKBACK {
        after
    } else {
        after.subrange(0, LOOKBACK as int)
    }
}

/// Messages listed with distinct ids, as a channel's history lists them.
pub open spec fn distinct_ids(posts: Seq<Posted>) -> bool {
    forall|i: int, j: int| 0 <= i < posts.len() && 0 <= j < posts.len() && i != j ==> posts[i].id != posts[j].id
}

/// The ids of the messages to delete once `deleted` is gone: the replies by
/// `bot_id` that refer to it among the first `LOOKBACK` messages of `after`,
/// the messages posted after it in ascending id order.
pub fn replies_to_delete(deleted: u64, bot_id: u64, after: &Vec<Posted>) -> (r: Vec<u64>)
    ensures
        r@ == replies_in(window(after@), bot_id, deleted),
{
    let end: usize = if after.len() <= LOOKBACK { after.len() } else { LOOKBACK };
    let mut out: Vec<u64> = Vec::new();
    let mut i: usize = 0;
    while i < end
        invariant
            end <= after.len(),
            end == window(after@).len(),
            i <= end,
            out@ == replies_in(after@.subrange(0, i as int), bot_id, deleted),
        decreases end - i,
    {
        let ghost now = after@.subrange(0, i + 1);
        assert(now.drop_last() =~= after@.subrange(0, i as int));
        let p = &after[i];
        if p.author_id == bot_id && p.referenced_message_id == Some(deleted) {
            out.push(p.id);
        }
        i = i + 1;
    }
    assert(window(after@) =~= after@.subrange(0, end as int));
    out
}

proof fn lemma_replies_in_contains(posts: Seq<Posted>, bot_id: u64, deleted: u64, x: u64)
    ensures
        replies_in(posts, bot_id, deleted).contains(x) <==> exists|i: int|
            0 <= i < posts.len() && is_reply_to(#[trigger] posts[i], bot_id, deleted)
                && posts[i].id == x,
    decreases posts.len(),
{
    if posts.len() > 0 {
        let init = posts.drop_last();
        lemma_replies_in_contains(init, bot_id, deleted, x);
        let before = replies_in(init, bot_id, deleted);
        if is_reply_to(posts.last(), bot_id, deleted) {
            assert(before.push(posts.last().id).contains(x) <==> before.contains(x)
                || posts.last().id == x) by {
                if before.push(posts.last().id).contains(x) {
                    let k = choose|k: int|
                        0 <= k < before.len() + 1 && before.push(posts.last().id)[k] == x;
                    if k < before.len() {
                        assert(before[k] == x);
                    }
                }
                if before.contains(x) {
                    let k = choose|k: int| 0 <= k < before.len() && before[k] == x;
                    assert(before.push(posts.last().id)[k] == x);
                }
                if posts.last().id == x {
                    assert(before.push(posts.last().id)[before.len() as int] == x);
                }
            }
        }
        if exists|i: int|
            0 <= i < posts.len() && is_reply_to(#[trigger] posts[i], bot_id, deleted)
                && posts[i].id == x {
            let i = choose|i: int|
                0 <= i < posts.len() && is_reply_to(#[trigger] posts[i], bot_id, deleted)
                    && posts[i].id == x;
            if i < posts.len() - 1 {
                assert(init[i] == posts[i]);
            }
        }
        if exists|i: int|
            0 <= i < init.len() && is_reply_to(#[trigger] init[i], bot_id, deleted)
                && init[i].id == x {
            let i = choose|i: int|
                0 <= i < init.len() && is_reply_to(#[trigger] init[i], bot_id, deleted)
                    && init[i].id == x;
            assert(posts[i] == init[i]);
        }
    }
}

/// A reply by the bot to the deleted message, posted as the `k`-th message
/// after it (counting from one), is deleted exactly when `k` is at most
/// `LOOKBACK`: one posted later is left in place.
pub proof fn lemma_cascade_reach(after: Seq<Posted>, bot_id: u64, deleted: u64, k: int)
    requires
        distinct_ids(after),
        1 <= k <= after.len(),
        is_reply_to(after[k - 1], bot_id, deleted),
    ensures
        k <= LOOKBACK ==> replies_in(window(after), bot_id, deleted).contains(after[k - 1].id),
        k > LOOKBACK ==> !replies_in(window(after), bot_id, deleted).contains(after[k - 1].id),
{
    let w = window(after);
    lemma_replies_in_contains(w, bot_id, deleted, after[k - 1].id);
    if k <= LOOKBACK {
        assert(w[k - 1] == after[k - 1]);
    } else {
        assert forall|i: int| 0 <= i < w.len() implies (#[trigger] w[i]).id != after[k - 1].id by {
            assert(w[i] == after[i]);
        }
    }
}

} // verus!
