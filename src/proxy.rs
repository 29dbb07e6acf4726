//! The rendering proxy: where a request is fetched from, how the origin's
//! answer is judged, and the pages it renders.
use vstd::prelude::*;
use crate::text::{declares_utf8, is_utf8_content_type, push_char, push_decimal, push_text};

verus! {

/// The origin that serves attachment content.
pub const ORIGIN_PREFIX: &'static str = "https://cdn.discordapp.com/attachments/";

/// The text of the paste page before the pasted text.
pub const PASTE_HEAD: &'static str = "<!DOCTYPE html>\n<html>\n<head><meta charset=\"utf-8\"><title>Paste</title></head>\n<body><pre>";

/// The text of the paste page after the pasted text.
pub const PASTE_TAIL: &'static str = "</pre></body>\n</html>\n";

/// The text of the error page before the error's message.
pub const ERROR_HEAD: &'static str = "<!DOCTYPE html>\n<html>\n<head><meta charset=\"utf-8\"><title>Error</title></head>\n<body><h1>";

/// The text of the error page after the error's message.
pub const ERROR_TAIL: &'static str = "</h1></body>\n</html>\n";

/// The page served when even the error page cannot be rendered.
pub const FALLBACK_PAGE: &'static str = "<!DOCTYPE html>\n<html>\n<head><title>Error</title></head>\n<body><h1>The error page could not be rendered</h1></body>\n</html>\n";

/// Why a request ends in an error page.
pub enum ProxyError {
    /// The origin holds no text file under that name.
    NotFound,
    /// The origin could not be reached or answered with a failure; the
    /// origin's own detail.
    OriginFailure(String),
    /// The template engine failed; its detail.
    TemplatingFailure(String),
}

/// What the origin answered: its status code and declared content type.
pub struct OriginHead {
    pub status: u16,
    pub content_type: Option<String>,
}

/// A page to answer with.
pub struct Page {
    pub status: u16,
    pub html: String,
}

/// The address fetched for `filename` of message `message_id`
/// in channel `channel_id`.
pub open spec fn origin_url_of(channel_id: Seq<char>, message_id: Seq<char>, filename: Seq<char>) -> Seq<char> {
    ORIGIN_PREFIX@ + channel_id + seq!['/'] + message_id + seq!['/'] + filename
}

/// The detail given for an origin that answered with a failure status.
pub open spec fn status_detail(status: u16) -> Seq<char> {
    seq!['H', 'T', 'T', 'P', ' ', 's', 't', 'a', 't', 'u', 's', ' '] + decimal_of(status)
}

/// The decimal notation of a status code.
pub open spec fn decimal_of(status: u16) -> Seq<char> {
    crate::text::decimal(status as nat)
}

/// How the origin's answer is judged.
pub open spec fn origin_verdict(reply: Result<OriginHead, String>, r: Result<(), ProxyError>) -> bool {
    match reply {
        Err(d) => r matches Err(ProxyError::OriginFailure(m)) && m@ == d@,
        Ok(h) => if !(200 <= h.status <= 299) {
            r matches Err(ProxyError::OriginFailure(m)) && m@ == status_detail(h.status)
        } else if h.content_type is None || !declares_utf8(h.content_type->0@) {
            r matches Err(ProxyError::NotFound)
        } else {
            r is Ok
        },
    }
}

/// The HTTP status of an error page.
pub open spec fn error_status(e: ProxyError) -> u16 {
    match e {
        ProxyError::NotFound => 404,
        _ => 500,
    }
}

/// The message shown on an error page.
pub open spec fn error_message_of(e: ProxyError) -> Seq<char> {
    match e {
        ProxyError::NotFound => "404 paste not found"@,
        ProxyError::OriginFailure(d) => "Discord returned an error: "@ + d@,
        ProxyError::TemplatingFailure(d) => "Templating library returned an error: "@ + d@,
    }
}

/// The variable that the paste page binds.
pub open spec fn paste_var() -> Seq<char> {
    seq!['p', 'a', 's', 't', 'e']
}

/// The variable that the error page binds.
pub open spec fn error_var() -> Seq<char> {
    seq!['e', 'r', 'r', 'o', 'r']
}

/// The template tag that prints the variable `name`.
pub open spec fn print_tag(name: Seq<char>) -> Seq<char> {
    seq!['{', '{', ' '] + name + seq![' ', '}', '}']
}

/// The two page templates: the paste page, which binds `paste`, and the
/// error page, which binds `error`.
pub open spec fn is_page_template(template: Seq<char>, name: Seq<char>) -> bool {
    (name == paste_var() && template == PASTE_HEAD@ + print_tag(name) + PASTE_TAIL@) || (name
        == error_var() && template == ERROR_HEAD@ + print_tag(name) + ERROR_TAIL@)
}

/// A character as HTML text: `& < > " ' /` become entities, any other stays.
pub open spec fn escaped_char(c: char) -> Seq<char> {
    if c == '&' {
        seq!['&', 'a', 'm', 'p', ';']
    } else if c == '<' {
        seq!['&', 'l', 't', ';']
    } else if c == '>' {
        seq!['&', 'g', 't', ';']
    } else if c == '"' {
        seq!['&', 'q', 'u', 'o', 't', ';']
    } else if c == '\'' {
        seq!['&', '#', 'x', '2', '7', ';']
    } else if c == '/' {
        seq!['&', '#', 'x', '2', 'F', ';']
    } else {
        seq![c]
    }
}

/// Text as HTML text, character by character.
pub open spec fn html_escaped(s: Seq<char>) -> Seq<char>
    decreases s.len(),
{
    if s.len() == 0 {
        Seq::empty()
    } else {
        html_escaped(s.drop_last()) + escaped_char(s.last())
    }
}

/// The page that a page template renders to with its variable bound to
/// `value`.
pub open spec fn filled_page(name: Seq<char>, value: Seq<char>) -> Seq<char> {
    if name == paste_var() {
        PASTE_HEAD@ + html_escaped(value) + PASTE_TAIL@
    } else {
        ERROR_HEAD@ + html_escaped(value) + ERROR_TAIL@
    }
}

/// Relies on tera::Tera::one_off with autoescaping on, over a context that
/// binds `name` to the string `value`: the text of the template around its
/// one print tag comes out as it stands, and the value comes out escaped by
/// tera's `escape_html`. On these two templates, which hold plain text and
/// one print tag of a bound string, rendering has no failure path; the error
/// arm only converts tera's error type.
#[verifier::external_body]
fn render_one(template: &str, name: &str, value: &str) -> (r: Result<String, String>)
    requires
        is_page_template(template@, name@),
    ensures
        r is Ok,
        r matches Ok(h) ==> h@ == filled_page(name@, value@),
{
    let mut ctx = tera::Context::new();
    ctx.insert(name, value);
    match tera::Tera::one_off(template, &ctx, true) {
        Ok(h) => Ok(h),
        Err(e) => Err(format!("{:?}", e)),
    }
}

/// A template made of `head`, the print tag of `name`, and `tail`.
pub fn template_text(head: &str, name: &str, tail: &str) -> (r: String)
    ensures
        r@ == head@ + print_tag(name@) + tail@,
{
    let mut t = String::new();
    push_text(&mut t, head);
    push_char(&mut t, '{');
    push_char(&mut t, '{');
    push_char(&mut t, ' ');
    push_text(&mut t, name);
    push_char(&mut t, ' ');
    push_char(&mut t, '}');
    push_char(&mut t, '}');
    push_text(&mut t, tail);
    assert(t@ =~= head@ + print_tag(name@) + tail@);
    t
}

/// Escaped text holds no character that opens or closes markup or an
/// attribute value: the text around it keeps its structure.
pub proof fn lemma_escaped_has_no_markup(s: Seq<char>)
    ensures
        forall|i: int|
            0 <= i < html_escaped(s).len() ==> {
                let c = #[trigger] html_escaped(s)[i];
                c != '<' && c != '>' && c != '"' && c != '\''
            },
    decreases s.len(),
{
    if s.len() > 0 {
        lemma_escaped_has_no_markup(s.drop_last());
        let before = html_escaped(s.drop_last());
        let last = escaped_char(s.last());
        assert forall|i: int| 0 <= i < html_escaped(s).len() implies {
            let c = #[trigger] html_escaped(s)[i];
            c != '<' && c != '>' && c != '"' && c != '\''
        } by {
            if i < before.len() {
                assert(html_escaped(s)[i] == before[i]);
            } else {
                assert(html_escaped(s)[i] == last[i - before.len()]);
            }
        }
    }
}

/// The origin address for a request.
pub fn origin_url(channel_id: &str, message_id: &str, filename: &str) -> (r: String)
    ensures
        r@ == origin_url_of(channel_id@, message_id@, filename@),
{
    let mut s = String::new();
    push_text(&mut s, ORIGIN_PREFIX);
    push_text(&mut s, channel_id);
    push_char(&mut s, '/');
    push_text(&mut s, message_id);
    push_char(&mut s, '/');
    push_text(&mut s, filename);
    assert(s@ =~= origin_url_of(channel_id@, message_id@, filename@));
    s
}

/// Judges the origin's answer (`Err`: the request failed, with its detail): a
/// failure or a status outside 200 to 299 is an origin failure; an absent
/// content type, or one that does not declare UTF-8 text, is not found.
pub fn check_origin(reply: Result<OriginHead, String>) -> (r: Result<(), ProxyError>)
    ensures
        origin_verdict(reply, r),
{
    match reply {
        Err(d) => Err(ProxyError::OriginFailure(d)),
        Ok(h) => {
            if !(200 <= h.status && h.status <= 299) {
                let mut m = String::new();
                push_char(&mut m, 'H');
                push_char(&mut m, 'T');
                push_char(&mut m, 'T');
                push_char(&mut m, 'P');
                push_char(&mut m, ' ');
                push_char(&mut m, 's');
                push_char(&mut m, 't');
                push_char(&mut m, 'a');
                push_char(&mut m, 't');
                push_char(&mut m, 'u');
                push_char(&mut m, 's');
                push_char(&mut m, ' ');
                push_decimal(&mut m, h.status as u64);
                assert(m@ =~= status_detail(h.status));
                return Err(ProxyError::OriginFailure(m));
            }
            match &h.content_type {
                None => Err(ProxyError::NotFound),
                Some(t) => if is_utf8_content_type(t.as_str()) {
                    Ok(())
                } else {
                    Err(ProxyError::NotFound)
                },
            }
        },
    }
}

/// The answer to a text file, given what the paste template rendered to.
pub fn paste_page_from(rendered_page: Result<String, String>) -> (r: Result<Page, ProxyError>)
    ensures
        rendered_page matches Ok(h) ==> r matches Ok(p) && p.status == 200 && p.html@ == h@,
        rendered_page matches Err(d) ==> r matches Err(ProxyError::TemplatingFailure(m)) && m@
            == d@,
{
    match rendered_page {
        Ok(h) => Ok(Page { status: 200, html: h }),
        Err(d) => Err(ProxyError::TemplatingFailure(d)),
    }
}

/// The answer to a text file `data`: the paste page with the text escaped
/// into it, or a templating failure.
pub fn paste_page(data: &str) -> (r: Result<Page, ProxyError>)
    ensures
        r is Ok,
        r matches Ok(p) ==> p.status == 200 && p.html@ == PASTE_HEAD@ + html_escaped(data@)
            + PASTE_TAIL@,
{
    let t = template_text(PASTE_HEAD, "paste", PASTE_TAIL);
    proof {
        reveal_strlit("paste");
        assert("paste"@ =~= paste_var());
    }
    let out = render_one(t.as_str(), "paste", data);
    paste_page_from(out)
}

/// The message shown for an error.
pub fn error_message(e: &ProxyError) -> (r: String)
    ensures
        r@ == error_message_of(*e),
{
    let mut s = String::new();
    match e {
        ProxyError::NotFound => {
            push_text(&mut s, "404 paste not found");
        },
        ProxyError::OriginFailure(d) => {
            push_text(&mut s, "Discord returned an error: ");
            push_text(&mut s, d.as_str());
        },
        ProxyError::TemplatingFailure(d) => {
            push_text(&mut s, "Templating library returned an error: ");
            push_text(&mut s, d.as_str());
        },
    }
    s
}

/// The error page for `e`, given what the error template rendered to: the
/// fallback page where it failed.
pub fn error_page_from(e: &ProxyError, rendered_page: Result<String, String>) -> (r: Page)
    ensures
        r.status == error_status(*e),
        rendered_page matches Ok(h) ==> r.html@ == h@,
        rendered_page is Err ==> r.html@ == FALLBACK_PAGE@,
{
    let status: u16 = match e {
        ProxyError::NotFound => 404,
        _ => 500,
    };
    let html = match rendered_page {
        Ok(h) => h,
        Err(_) => {
            let mut f = String::new();
            push_text(&mut f, FALLBACK_PAGE);
            f
        },
    };
    Page { status, html }
}

/// The error page for `e`: 404 for a file that is not found, 500 otherwise,
/// showing the error's message escaped.
pub fn error_page(e: &ProxyError) -> (r: Page)
    ensures
        r.status == error_status(*e),
        r.html@ == ERROR_HEAD@ + html_escaped(error_message_of(*e)) + ERROR_TAIL@,
{
    let m = error_message(e);
    let t = template_text(ERROR_HEAD, "error", ERROR_TAIL);
    proof {
        reveal_strlit("error");
        reveal_strlit("paste");
        assert("error"@ =~= error_var());
        assert(error_var() != paste_var()) by {
            assert(error_var()[0] != paste_var()[0]);
        }
    }
    let out = render_one(t.as_str(), "error", m.as_str());
    error_page_from(e, out)
}

/// An origin answer that succeeds but does not declare UTF-8 text (no
/// content type, or one without `charset=utf-8`) always ends in a 404 page,
/// whatever its body holds.
pub proof fn lemma_non_text_is_not_found(head: OriginHead, r: Result<(), ProxyError>)
    requires
        200 <= head.status <= 299,
        head.content_type is None || !declares_utf8(head.content_type->0@),
        origin_verdict(Ok(head), r),
    ensures
        r matches Err(e) && e is NotFound && error_status(e) == 404,
{
}

/// An origin that answers with a failure status ends in a 500 page whose
/// message carries that status, which tells it apart from a file that is
/// not text.
pub proof fn lemma_origin_failure_is_distinct(head: OriginHead, r: Result<(), ProxyError>)
    requires
        !(200 <= head.status <= 299),
        origin_verdict(Ok(head), r),
    ensures
        r matches Err(e) && error_status(e) == 500 && !(e is NotFound) && error_message_of(e)
            == "Discord returned an error: "@ + status_detail(head.status),
{
}

} // verus!
