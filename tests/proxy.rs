use background_cat::proxy::{
    check_origin, error_message, error_page, error_page_from, origin_url, paste_page,
    paste_page_from, OriginHead, ProxyError, ERROR_HEAD, ERROR_TAIL, FALLBACK_PAGE, PASTE_HEAD,
    PASTE_TAIL,
};
use background_cat::text::{is_utf8_content_type, push_decimal};

fn head(status: u16, ctype: Option<&str>) -> Result<OriginHead, String> {
    Ok(OriginHead { status, content_type: ctype.map(|c| c.to_string()) })
}

#[test]
fn origin_address() {
    assert_eq!(origin_url("1", "2", "latest.log"), "https://cdn.discordapp.com/attachments/1/2/latest.log");
}

#[test]
fn binary_content_type_is_not_found() {
    let r = check_origin(head(200, Some("application/octet-stream")));
    let e = r.unwrap_err();
    assert!(matches!(e, ProxyError::NotFound));
    let page = error_page(&e);
    assert_eq!(page.status, 404);
    assert!(page.html.contains("404 paste not found"));
}

#[test]
fn absent_content_type_is_not_found() {
    assert!(matches!(check_origin(head(200, None)), Err(ProxyError::NotFound)));
    assert!(matches!(check_origin(head(200, Some("text/plain"))), Err(ProxyError::NotFound)));
}

#[test]
fn utf8_text_is_accepted() {
    assert!(check_origin(head(200, Some("text/plain; charset=utf-8"))).is_ok());
    assert!(check_origin(head(200, Some("Text/Plain; Charset=UTF-8"))).is_ok());
}

#[test]
fn origin_not_found_is_an_origin_failure() {
    let e = check_origin(head(404, Some("text/plain; charset=utf-8"))).unwrap_err();
    match &e {
        ProxyError::OriginFailure(d) => assert_eq!(d, "HTTP status 404"),
        _ => panic!("expected an origin failure"),
    }
    let page = error_page(&e);
    assert_eq!(page.status, 500);
    assert!(page.html.contains("Discord returned an error: HTTP status 404"));
}

#[test]
fn transport_failure_keeps_its_detail() {
    let e = check_origin(Err("connection refused".to_string())).unwrap_err();
    assert_eq!(error_message(&e), "Discord returned an error: connection refused");
    assert_eq!(error_page(&e).status, 500);
}

#[test]
fn script_is_rendered_as_text() {
    let page = paste_page("<script>alert(1)</script>\nline & more").ok().unwrap();
    assert_eq!(page.status, 200);
    assert!(page.html.contains("&lt;script&gt;alert(1)&lt;&#x2F;script&gt;"));
    assert!(!page.html.contains("<script>"));
    assert!(page.html.contains("<pre>"));
    assert!(page.html.contains("</pre>"));
}

#[test]
fn templating_failure_pages() {
    let e = paste_page_from(Err("bad template".to_string())).err().unwrap();
    assert_eq!(error_message(&e), "Templating library returned an error: bad template");
    let page = error_page_from(&e, Err("again".to_string()));
    assert_eq!(page.status, 500);
    assert_eq!(page.html, FALLBACK_PAGE);
    assert_eq!(error_page(&e).status, 500);
}

#[test]
fn content_type_and_decimal_helpers() {
    assert!(is_utf8_content_type("text/plain;charset=utf-8"));
    assert!(!is_utf8_content_type("charset=utf-16"));
    assert!(!is_utf8_content_type(""));
    let mut s = String::from("n=");
    push_decimal(&mut s, 0);
    push_decimal(&mut s, 18446744073709551615);
    assert_eq!(s, "n=018446744073709551615");
}

#[test]
fn paste_page_is_head_escaped_text_tail() {
    let page = paste_page("a<b & \"c\" 'd' /e\nf").ok().unwrap();
    let expected = format!("{}{}{}", PASTE_HEAD, "a&lt;b &amp; &quot;c&quot; &#x27;d&#x27; &#x2F;e\nf", PASTE_TAIL);
    assert_eq!(page.html, expected);
    let empty = paste_page("").ok().unwrap();
    assert_eq!(empty.html, format!("{}{}", PASTE_HEAD, PASTE_TAIL));
}

#[test]
fn error_page_is_head_escaped_message_tail() {
    let page = error_page(&ProxyError::OriginFailure("<404>".to_string()));
    let expected = format!("{}{}{}", ERROR_HEAD, "Discord returned an error: &lt;404&gt;", ERROR_TAIL);
    assert_eq!(page.html, expected);
    let nf = error_page(&ProxyError::NotFound);
    assert_eq!(nf.html, format!("{}{}{}", ERROR_HEAD, "404 paste not found", ERROR_TAIL));
}
