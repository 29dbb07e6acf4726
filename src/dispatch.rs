//! The per-message diagnosis policy, as steps: each step takes what the
//! previous action brought back and names the next action.
use vstd::prelude::*;
use crate::text::{char_vec, declares_utf8, is_utf8_content_type, push_char};

verus! {

/// A file attached to a chat message.
pub struct Attachment {
    pub id: u64,
    pub filename: String,
    pub content_type: Option<String>,
}

/// A chat message, as far as diagnosis reads it.
pub struct Message {
    pub id: u64,
    pub channel_id: u64,
    pub author_id: u64,
    pub author_is_bot: bool,
    pub content: String,
    pub attachments: Vec<Attachment>,
}

/// One diagnostic result of the rule engine: a title and a description.
pub struct Finding {
    pub title: String,
    pub body: String,
}

/// What to do next for a message.
pub enum Action {
    /// Fetch the raw paste at this address and run the rule engine on it.
    FetchPaste(String),
    /// Download the attachment at this index and run the rule engine on it.
    Inspect(usize),
    /// Reply with these findings; processing ends.
    Reply(Vec<Finding>),
    /// Offer web views of the text attachments; processing ends.
    ShowAttachments,
    /// Nothing is sent; processing ends.
    Nothing,
}

/// The pattern of a paste link in a message.
pub const PASTE_LINK_PATTERN: &'static str = "https:/{2}paste.ee/p/[^\\s/]+";

/// The first match of `pattern` in `text`, or none when there is none or the
/// pattern does not compile.
pub uninterp spec fn first_match(pattern: Seq<char>, text: Seq<char>) -> Option<Seq<char>>;

/// Relies on regex::Regex::new and regex::Regex::find: the text of the
/// leftmost match.
#[verifier::external_body]
fn find_first(pattern: &str, text: &str) -> (r: Option<String>)
    ensures
        r is None ==> first_match(pattern@, text@) is None,
        r matches Some(m) ==> first_match(pattern@, text@) == Some(m@),
{
    let re = regex::Regex::new(pattern).ok()?;
    re.find(text).map(|m| m.as_str().to_string())
}

/// An attachment may hold a log: it declares no content type, or one of
/// UTF-8 text.
pub open spec fn eligible(a: Attachment) -> bool {
    match a.content_type {
        None => true,
        Some(t) => declares_utf8(t@),
    }
}

/// Some attachment at index `from` or later is eligible.
pub open spec fn eligible_from(atts: Seq<Attachment>, from: int) -> bool {
    exists|i: int| from <= i < atts.len() && eligible(#[trigger] atts[i])
}

/// `/p/` stands at index `i` of `s`.
pub open spec fn page_marker_at(s: Seq<char>, i: int) -> bool {
    0 <= i && i + 3 <= s.len() && s[i] == '/' && s[i + 1] == 'p' && s[i + 2] == '/'
}

/// `r` is `s` with its first `/p/` turned into `/r/`: the raw-content form of a
/// paste link.
pub open spec fn is_raw_form(s: Seq<char>, r: Seq<char>) -> bool {
    if exists|i: int| page_marker_at(s, i) {
        exists|i: int|
            page_marker_at(s, i) && (forall|j: int| 0 <= j < i ==> !page_marker_at(s, j)) && r
                == s.subrange(0, i) + seq!['/', 'r', '/'] + s.subrange(i + 3, s.len() as int)
    } else {
        r == s
    }
}

/// The step that follows when no finding has come from the attachments
/// before `from`.
pub open spec fn continues_from(msg: Message, proxy: bool, from: int, r: Action) -> bool {
    let atts = msg.attachments@;
    if eligible_from(atts, from) {
        r matches Action::Inspect(j) && from <= j < atts.len() && eligible(atts[j as int])
            && forall|i: int| from <= i < j ==> !eligible(#[trigger] atts[i])
    } else if proxy && eligible_from(atts, 0) {
        r is ShowAttachments
    } else {
        r is Nothing
    }
}

/// The first step for a message, given the paste link found in it, if any.
pub open spec fn begins(msg: Message, proxy: bool, link: Option<Seq<char>>, r: Action) -> bool {
    if msg.author_is_bot {
        r is Nothing
    } else if link is Some {
        r matches Action::FetchPaste(raw) && is_raw_form(link->0, raw@)
    } else {
        continues_from(msg, proxy, 0, r)
    }
}

/// The step after a download: stop on a failed one, reply with the findings
/// if there are any, otherwise go on from attachment `from`.
pub open spec fn follows(
    msg: Message,
    proxy: bool,
    from: int,
    fetched: Option<Vec<Finding>>,
    r: Action,
) -> bool {
    match fetched {
        None => r is Nothing,
        Some(f) => if f.len() > 0 {
            r == Action::Reply(f)
        } else {
            continues_from(msg, proxy, from, r)
        },
    }
}

/// Turns the first `/p/` of a paste link into `/r/`, which addresses its raw
/// content.
pub fn raw_link(link: &str) -> (r: String)
    ensures
        is_raw_form(link@, r@),
{
    let s = char_vec(link);
    let mut i: usize = 0;
    let mut found = false;
    while 3 <= s.len() - i && !found
        invariant
            s@ == link@,
            found ==> page_marker_at(s@, i as int),
            forall|j: int| 0 <= j < i ==> !page_marker_at(s@, j),
            i <= s.len(),
        decreases s.len() + 1 - i - (if found { 1int } else { 0 }),
    {
        if s[i] == '/' && s[i + 1] == 'p' && s[i + 2] == '/' {
            found = true;
        } else {
            i = i + 1;
        }
    }
    let mut out = String::new();
    let stop: usize = if found { i } else { s.len() };
    let mut k: usize = 0;
    while k < stop
        invariant
            s@ == link@,
            stop <= s.len(),
            k <= stop,
            out@ == s@.subrange(0, k as int),
        decreases stop - k,
    {
        push_char(&mut out, s[k]);
        assert(out@ =~= s@.subrange(0, k + 1));
        k = k + 1;
    }
    if !found {
        assert(out@ =~= link@);
        assert forall|j: int| !page_marker_at(link@, j) by {
            if page_marker_at(link@, j) {
                assert(j < i);
            }
        }
        return out;
    }
    push_char(&mut out, '/');
    push_char(&mut out, 'r');
    push_char(&mut out, '/');
    let mut k: usize = i + 3;
    while k < s.len()
        invariant
            s@ == link@,
            found,
            page_marker_at(s@, i as int),
            i + 3 <= k <= s.len(),
            out@ == s@.subrange(0, i as int) + seq!['/', 'r', '/'] + s@.subrange(
                i + 3,
                k as int,
            ),
        decreases s.len() - k,
    {
        push_char(&mut out, s[k]);
        assert(out@ =~= s@.subrange(0, i as int) + seq!['/', 'r', '/'] + s@.subrange(
            i + 3,
            k + 1,
        ));
        k = k + 1;
    }
    assert(out@ =~= s@.subrange(0, i as int) + seq!['/', 'r', '/'] + s@.subrange(
        i + 3,
        s.len() as int,
    ));
    assert(page_marker_at(link@, i as int));
    out
}

/// Tells whether an attachment may hold a log.
pub fn is_eligible(a: &Attachment) -> (r: bool)
    ensures
        r == eligible(*a),
{
    match &a.content_type {
        None => true,
        Some(t) => is_utf8_content_type(t.as_str()),
    }
}

/// The step once no finding came from the attachments before `from`: the
/// next eligible attachment, else the web views if a proxy is configured and
/// some attachment is eligible, else nothing.
pub fn continue_from(msg: &Message, proxy: bool, from: usize) -> (r: Action)
    requires
        from <= msg.attachments.len(),
    ensures
        continues_from(*msg, proxy, from as int, r),
{
    let n = msg.attachments.len();
    let mut i: usize = from;
    while i < n
        invariant
            n == msg.attachments.len(),
            from <= i <= n,
            forall|j: int| from <= j < i ==> !eligible(#[trigger] msg.attachments@[j]),
        decreases n - i,
    {
        if is_eligible(&msg.attachments[i]) {
            return Action::Inspect(i);
        }
        i = i + 1;
    }
    if !proxy {
        return Action::Nothing;
    }
    let mut k: usize = 0;
    while k < n
        invariant
            n == msg.attachments.len(),
            k <= n,
            from <= n,
            proxy,
            forall|j: int| from <= j < n ==> !eligible(#[trigger] msg.attachments@[j]),
            forall|j: int| 0 <= j < k ==> !eligible(#[trigger] msg.attachments@[j]),
        decreases n - k,
    {
        if is_eligible(&msg.attachments[k]) {
            assert(eligible_from(msg.attachments@, 0)) by {
                assert(eligible(msg.attachments@[k as int]));
            }
            return Action::ShowAttachments;
        }
        k = k + 1;
    }
    Action::Nothing
}

/// The first step for a message whose paste link, if any, is `link`.
pub fn begin_with_link(msg: &Message, proxy: bool, link: Option<String>) -> (r: Action)
    ensures
        begins(*msg, proxy, match link {
            Some(l) => Some(l@),
            None => None,
        }, r),
{
    if msg.author_is_bot {
        return Action::Nothing;
    }
    match link {
        Some(l) => Action::FetchPaste(raw_link(l.as_str())),
        None => continue_from(msg, proxy, 0),
    }
}

/// The first step for a message: nothing for a bot's message, else the paste
/// link it holds in raw form, else the attachments. `proxy` tells whether a
/// rendering proxy is configured.
pub fn begin(msg: &Message, proxy: bool) -> (r: Action)
    ensures
        msg.author_is_bot ==> r is Nothing,
        begins(*msg, proxy, first_match(PASTE_LINK_PATTERN@, msg.content@), r),
{
    if msg.author_is_bot {
        return Action::Nothing;
    }
    let link = find_first(PASTE_LINK_PATTERN, msg.content.as_str());
    begin_with_link(msg, proxy, link)
}

/// The step after the paste was fetched and diagnosed (`None`: the fetch
/// failed).
pub fn after_paste(msg: &Message, proxy: bool, fetched: Option<Vec<Finding>>) -> (r: Action)
    ensures
        follows(*msg, proxy, 0, fetched, r),
{
    match fetched {
        None => Action::Nothing,
        Some(f) => if f.len() > 0 {
            Action::Reply(f)
        } else {
            continue_from(msg, proxy, 0)
        },
    }
}

/// The step after attachment `index` was downloaded and diagnosed (`None`:
/// the download failed).
pub fn after_attachment(
    msg: &Message,
    proxy: bool,
    index: usize,
    fetched: Option<Vec<Finding>>,
) -> (r: Action)
    requires
        index < msg.attachments.len(),
    ensures
        follows(*msg, proxy, index + 1, fetched, r),
{
    match fetched {
        None => Action::Nothing,
        Some(f) => if f.len() > 0 {
            Action::Reply(f)
        } else {
            continue_from(msg, proxy, index + 1)
        },
    }
}

} // verus!
