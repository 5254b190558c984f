//! The browser-like headers sent with every request.

use vstd::prelude::*;
use vstd::string::*;

verus! {

/// One request header.
pub struct Header {
    pub name: String,
    pub value: String,
}

/// A header as a pair of texts.
pub open spec fn header_view(h: Header) -> (Seq<char>, Seq<char>) {
    (h.name@, h.value@)
}

/// A list of headers as pairs of texts, in order.
pub open spec fn headers_view(hs: Seq<Header>) -> Seq<(Seq<char>, Seq<char>)> {
    hs.map_values(|h: Header| header_view(h))
}

/// Whether `c` may stand in a header value: a tab, or any character from the
/// space upwards but DEL (every byte of a non-ASCII character is at least 0x80).
pub open spec fn header_value_char(c: char) -> bool {
    c == '\t' || (c as u32 >= 0x20 && c as u32 != 0x7f)
}

/// Whether `s` is accepted as a header value.
pub open spec fn valid_header_value(s: Seq<char>) -> bool {
    forall|i: int| 0 <= i < s.len() ==> header_value_char(#[trigger] s[i])
}

/// Why the headers could not be built.
#[derive(Clone, Copy, Debug, PartialEq, Eq, Structural)]
pub enum HeaderError {
    /// The `Referer` built from the slug holds a character a header cannot carry.
    InvalidReferer,
    /// The cookie holds a character a header cannot carry.
    InvalidCookie,
}

/// The page the requests claim to come from.
pub open spec fn referer_of(slug: Seq<char>) -> Seq<char> {
    "https://www.tokopedia.com/rewards/kupon/detail/"@ + slug
}

/// The headers, in the order they are set: the fixed browser headers, the
/// `Referer`, the coupon-claim marker where `claim_marker` holds, and the cookie.
pub open spec fn browser_headers(referer: Seq<char>, claim_marker: bool, cookie: Seq<char>) -> Seq<
    (Seq<char>, Seq<char>),
> {
    let marker: Seq<(Seq<char>, Seq<char>)> = if claim_marker {
        seq![("x-tkpd-akamai"@, "claimcoupon"@)]
    } else {
        seq![]
    };
    seq![("Connection"@, "keep-alive"@), ("Accept"@, "*/*"@), ("Accept-Language"@, "en-US,en;q=0.9,id;q=0.8"@), ("Content-Type"@, "application/json"@), ("Origin"@, "https://www.tokopedia.com"@), ("Priority"@, "u=1, i"@)].push(("Referer"@, referer)) + seq![("Sec-Ch-Ua"@, "\"Not A(Brand\";v=\"8\", \"Google Chrome\";v=\"129\", \"Chromium\";v=\"129\""@), ("Sec-Ch-Ua-Mobile"@, "?0"@), ("Sec-Ch-Ua-Platform"@, "\"Windows\""@), ("Sec-Fetch-Dest"@, "empty"@), ("Sec-Fetch-Mode"@, "cors"@), ("Sec-Fetch-Site"@, "same-site"@), ("user-agent"@, "Mozilla/5.0 (Windows NT 10.0; Win64; x64) AppleWebKit/537.36 (KHTML, like Gecko) Chrome/129.0.0.0 Safari/537.36"@), ("X-Source"@, "tokopedia-lite"@)] + marker + seq![("X-Tkpd-Lite-Service"@, "zeus"@), ("X-Version"@, "2e4ea1e"@)].push(
        ("cookie"@, cookie),
    )
}

/// Every request carries the same fixed browser headers, in this order and
/// with these values (`Content-Type` says the body is JSON), then the
/// `Referer`, the claim marker when asked for, and the account's cookie,
/// unchanged, last.
pub proof fn lemma_fixed_header_values(referer: Seq<char>, claim_marker: bool, cookie: Seq<char>)
    ensures
        browser_headers(referer, claim_marker, cookie)[0] == ("Connection"@, "keep-alive"@),
        browser_headers(referer, claim_marker, cookie)[1] == ("Accept"@, "*/*"@),
        browser_headers(referer, claim_marker, cookie)[2] == ("Accept-Language"@, "en-US,en;q=0.9,id;q=0.8"@),
        browser_headers(referer, claim_marker, cookie)[3] == ("Content-Type"@, "application/json"@),
        browser_headers(referer, claim_marker, cookie)[4] == ("Origin"@, "https://www.tokopedia.com"@),
        browser_headers(referer, claim_marker, cookie)[5] == ("Priority"@, "u=1, i"@),
        browser_headers(referer, claim_marker, cookie)[6] == ("Referer"@, referer),
        browser_headers(referer, claim_marker, cookie)[7] == ("Sec-Ch-Ua"@, "\"Not A(Brand\";v=\"8\", \"Google Chrome\";v=\"129\", \"Chromium\";v=\"129\""@),
        browser_headers(referer, claim_marker, cookie)[8] == ("Sec-Ch-Ua-Mobile"@, "?0"@),
        browser_headers(referer, claim_marker, cookie)[9] == ("Sec-Ch-Ua-Platform"@, "\"Windows\""@),
        browser_headers(referer, claim_marker, cookie)[10] == ("Sec-Fetch-Dest"@, "empty"@),
        browser_headers(referer, claim_marker, cookie)[11] == ("Sec-Fetch-Mode"@, "cors"@),
        browser_headers(referer, claim_marker, cookie)[12] == ("Sec-Fetch-Site"@, "same-site"@),
        browser_headers(referer, claim_marker, cookie)[13] == ("user-agent"@, "Mozilla/5.0 (Windows NT 10.0; Win64; x64) AppleWebKit/537.36 (KHTML, like Gecko) Chrome/129.0.0.0 Safari/537.36"@),
        browser_headers(referer, claim_marker, cookie)[14] == ("X-Source"@, "tokopedia-lite"@),
        claim_marker ==> browser_headers(referer, claim_marker, cookie)[15] == ("x-tkpd-akamai"@, "claimcoupon"@),
        browser_headers(referer, claim_marker, cookie)[15+ (if claim_marker { 1int } else { 0int }) + 0] == ("X-Tkpd-Lite-Service"@, "zeus"@),
        browser_headers(referer, claim_marker, cookie)[15+ (if claim_marker { 1int } else { 0int }) + 1] == ("X-Version"@, "2e4ea1e"@),
        browser_headers(referer, claim_marker, cookie).last() == ("cookie"@, cookie),
        browser_headers(referer, claim_marker, cookie).len() == if claim_marker { 19int } else { 18int },
{
}

/// Every request carries the account's cookie, unchanged, as its last
/// header, and the `Referer` as its seventh.
pub proof fn lemma_cookie_is_last_header(referer: Seq<char>, claim_marker: bool, cookie: Seq<char>)
    ensures
        browser_headers(referer, claim_marker, cookie).last() == ("cookie"@, cookie),
        browser_headers(referer, claim_marker, cookie)[6] == ("Referer"@, referer),
        browser_headers(referer, claim_marker, cookie).len() == if claim_marker {
            19int
        } else {
            18int
        },
{
}

/// Whether a header may carry `s`.
pub fn is_valid_header_value(s: &str) -> (r: bool)
    ensures
        r == valid_header_value(s@),
{
    let n = s.unicode_len();
    let mut i: usize = 0;
    while i < n
        invariant
            n == s@.len(),
            i <= n,
            forall|j: int| 0 <= j < i ==> header_value_char(#[trigger] s@[j]),
        decreases n - i,
    {
        let c = s.get_char(i);
        let u = c as u32;
        if !(c == '\t' || (u >= 0x20 && u != 0x7f)) {
            return false;
        }
        i = i + 1;
    }
    true
}

fn push_header(v: &mut Vec<Header>, name: &str, value: &str)
    ensures
        headers_view(final(v)@) == headers_view(old(v)@).push((name@, value@)),
{
    v.push(Header { name: String::from_str(name), value: String::from_str(value) });
    assert(headers_view(v@) =~= headers_view(old(v)@).push((name@, value@)));
}

fn header_list(referer: &str, claim_marker: bool, cookie: &str) -> (r: Vec<Header>)
    ensures
        headers_view(r@) == browser_headers(referer@, claim_marker, cookie@),
{
    let mut v: Vec<Header> = Vec::new();
    assert(headers_view(v@) =~= seq![]);
    push_header(&mut v, "Connection", "keep-alive");
    push_header(&mut v, "Accept", "*/*");
    push_header(&mut v, "Accept-Language", "en-US,en;q=0.9,id;q=0.8");
    push_header(&mut v, "Content-Type", "application/json");
    push_header(&mut v, "Origin", "https://www.tokopedia.com");
    push_header(&mut v, "Priority", "u=1, i");
    push_header(&mut v, "Referer", referer);
    push_header(&mut v, "Sec-Ch-Ua", "\"Not A(Brand\";v=\"8\", \"Google Chrome\";v=\"129\", \"Chromium\";v=\"129\"");
    push_header(&mut v, "Sec-Ch-Ua-Mobile", "?0");
    push_header(&mut v, "Sec-Ch-Ua-Platform", "\"Windows\"");
    push_header(&mut v, "Sec-Fetch-Dest", "empty");
    push_header(&mut v, "Sec-Fetch-Mode", "cors");
    push_header(&mut v, "Sec-Fetch-Site", "same-site");
    push_header(&mut v, "user-agent", "Mozilla/5.0 (Windows NT 10.0; Win64; x64) AppleWebKit/537.36 (KHTML, like Gecko) Chrome/129.0.0.0 Safari/537.36");
    push_header(&mut v, "X-Source", "tokopedia-lite");
    if claim_marker {
        push_header(&mut v, "x-tkpd-akamai", "claimcoupon");
    }
    push_header(&mut v, "X-Tkpd-Lite-Service", "zeus");
    push_header(&mut v, "X-Version", "2e4ea1e");
    push_header(&mut v, "cookie", cookie);
    assert(headers_view(v@) =~= browser_headers(referer@, claim_marker, cookie@));
    v
}

/// The `Referer` for the coupon page of `slug`.
pub fn referer_for(slug: &str) -> (r: String)
    ensures
        r@ == referer_of(slug@),
{
    let mut r = String::from_str("https://www.tokopedia.com/rewards/kupon/detail/");
    r.append(slug);
    r
}

/// The headers of the validation request: the fixed browser headers with the
/// coupon page `GC25OCTA` as `Referer`, and `cookie`; an error when the cookie
/// cannot be carried by a header.
pub fn validate_headers(cookie: &str) -> (r: Result<Vec<Header>, HeaderError>)
    ensures
        valid_header_value(cookie@) ==> (r matches Ok(hs) && headers_view(hs@) == browser_headers(
            referer_of("GC25OCTA"@),
            false,
            cookie@,
        )),
        !valid_header_value(cookie@) ==> r == Err::<Vec<Header>, HeaderError>(
            HeaderError::InvalidCookie,
        ),
{
    if !is_valid_header_value(cookie) {
        return Err(HeaderError::InvalidCookie);
    }
    let referer = referer_for("GC25OCTA");
    Ok(header_list(referer.as_str(), false, cookie))
}

/// The headers of the catalog lookup and of the redeem requests: the fixed
/// browser headers with the page of `slug` as `Referer`, the coupon-claim
/// marker, and `cookie`. The `Referer` is checked before the cookie.
pub fn header_redeem(slug: &str, cookie: &str) -> (r: Result<Vec<Header>, HeaderError>)
    ensures
        !valid_header_value(referer_of(slug@)) ==> r == Err::<Vec<Header>, HeaderError>(
            HeaderError::InvalidReferer,
        ),
        valid_header_value(referer_of(slug@)) && !valid_header_value(cookie@) ==> r == Err::<
            Vec<Header>,
            HeaderError,
        >(HeaderError::InvalidCookie),
        valid_header_value(referer_of(slug@)) && valid_header_value(cookie@) ==> (r matches Ok(hs)
            && headers_view(hs@) == browser_headers(referer_of(slug@), true, cookie@)),
{
    let referer = referer_for(slug);
    if !is_valid_header_value(referer.as_str()) {
        return Err(HeaderError::InvalidReferer);
    }
    if !is_valid_header_value(cookie) {
        return Err(HeaderError::InvalidCookie);
    }
    Ok(header_list(referer.as_str(), true, cookie))
}

} // verus!
