use vstd::prelude::*;

verus! {

/// Why a navigation failed. Each carries the text shown to the user.
#[derive(Debug, Clone)]
pub enum BrowseError {
    /// The address is not a URL, even after normalisation.
    UrlSyntax(String),
    /// The request could not be made or its body not read.
    Network(String),
    /// The server answered with a status outside 2xx.
    HttpStatus(u16, String),
    /// The answer is not an HTML page.
    ContentType(String),
}


/// Whether a media type names an HTML page.
pub open spec fn is_html_type(content_type: Seq<char>) -> bool {
    crate::text::has_infix(content_type, "text/html"@)
}

/// Decides whether an HTTP answer is a page to read: a 2xx status and an HTML
/// content type. `status_text` is the status as shown, `url` what was asked for.
pub fn check_response(status: u16, status_text: &str, content_type: &str, url: &str) -> (r: Result<(), BrowseError>)
    ensures
        !(200 <= status <= 299) ==> (r matches Err(BrowseError::HttpStatus(s, _)) && s == status),
        200 <= status <= 299 && !is_html_type(content_type@) ==> r matches Err(BrowseError::ContentType(_)),
        200 <= status <= 299 && is_html_type(content_type@) ==> r is Ok,
{
    if !(200 <= status && status <= 299) {
        let mut m = crate::text::chars_of("HTTP error ");
        m.append(&mut crate::text::chars_of(status_text));
        m.append(&mut crate::text::chars_of(": "));
        m.append(&mut crate::text::chars_of(url));
        return Err(BrowseError::HttpStatus(status, crate::text::string_of(m.as_slice())));
    }
    let ct = crate::text::chars_of(content_type);
    if !crate::text::contains(ct.as_slice(), crate::text::chars_of("text/html").as_slice()) {
        let mut m = crate::text::chars_of("Not an HTML page: ");
        m.append(&mut crate::text::chars_of(content_type));
        return Err(BrowseError::ContentType(crate::text::string_of(m.as_slice())));
    }
    Ok(())
}

} // verus!
