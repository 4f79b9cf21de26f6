//! The link-preview worker's decisions: which URLs a message names, which
//! of them are safe to fetch, what a fetched page says about itself, and
//! how a preview's image is routed through the signed proxy.

use vstd::prelude::*;
use vstd::string::StringSliceAdditionalSpecFns;
use vstd::utf8::{decode_utf8, encode_utf8, valid_utf8};
use crate::events::{broadcast_channel, Outbound, Plane, ServerEvent};
use crate::ids::Id;
use crate::models::{copy_opt_string, LinkPreview};
use crate::shared::text::{chars_of, contains, contains_run, starts_with, trim, trimmed};
use crate::shared::{truncate_string, truncated};
use crate::signing::{base64url, sign_image_url, signature_of};

verus! {

/// The most bytes of a page that are read.
pub const MAX_BODY_SIZE: usize = 256 * 1024;

/// The most URLs of one message that are previewed.
pub const MAX_URLS_PER_MESSAGE: usize = 5;

/// The most characters of a description that are kept.
pub const MAX_DESCRIPTION_LENGTH: usize = 300;

/// What a page says about itself.
#[derive(Debug)]
pub struct LinkPreviewData {
    pub url: String,
    pub title: Option<String>,
    pub description: Option<String>,
    pub image_url: Option<String>,
    pub site_name: Option<String>,
}

/// An IP address.
#[derive(Debug, Clone, Copy, PartialEq, Eq, Structural)]
pub enum IpAddress {
    /// The four octets of an IPv4 address.
    V4(u8, u8, u8, u8),
    /// The eight 16-bit segments of an IPv6 address.
    V6(u16, u16, u16, u16, u16, u16, u16, u16),
}

/// The host of a URL.
#[derive(Debug)]
pub enum UrlHost {
    Domain(String),
    Address(IpAddress),
}

/// The host of a URL, as a value.
pub enum HostModel {
    Domain(Seq<char>),
    Address(IpAddress),
}

impl View for UrlHost {
    type V = HostModel;

    open spec fn view(&self) -> HostModel {
        match self {
            UrlHost::Domain(d) => HostModel::Domain(d@),
            UrlHost::Address(a) => HostModel::Address(*a),
        }
    }
}

/// The URLs that the link finder detects in a text, in order.
pub uninterp spec fn detected_urls(content: Seq<char>) -> Seq<Seq<char>>;

/// The host of a URL, if the URL parses and has one.
pub uninterp spec fn url_host_of(url: Seq<char>) -> Option<HostModel>;

/// The text of the host of a URL, if the URL parses and has one.
pub uninterp spec fn url_host_text(url: Seq<char>) -> Option<Seq<char>>;

/// The port of a URL, or the default port of its scheme, if the URL parses
/// and has either.
pub uninterp spec fn url_port_of(url: Seq<char>) -> Option<u16>;

/// The URL that a reference resolves to against a base, if both parse.
pub uninterp spec fn url_joined(base: Seq<char>, reference: Seq<char>) -> Option<Seq<char>>;

/// The value of an attribute of the first element of a page that a CSS
/// selector matches, if there is such an element and it has the attribute.
pub uninterp spec fn html_first_attr_of(html: Seq<char>, css: Seq<char>, attr: Seq<char>) -> Option<
    Seq<char>,
>;

/// The text inside the first element of a page that a CSS selector matches,
/// if there is such an element.
pub uninterp spec fn html_first_text_of(html: Seq<char>, css: Seq<char>) -> Option<Seq<char>>;

/// The text of bytes read as UTF-8, with each invalid sequence replaced by
/// the replacement character.
pub uninterp spec fn utf8_lossy(bytes: Seq<u8>) -> Seq<char>;

/// The characters of each string of a list.
pub open spec fn texts_of(v: Seq<String>) -> Seq<Seq<char>> {
    Seq::new(v.len(), |i: int| v[i]@)
}

/// The characters of an optional string.
pub open spec fn text_of(o: Option<String>) -> Option<Seq<char>> {
    match o {
        Some(s) => Some(s@),
        None => None,
    }
}

/// `LinkFinder::links` with `kinds(&[LinkKind::Url])`: the URLs found
/// depend on the text alone.
#[verifier::external_body]
pub(crate) fn find_urls(content: &str) -> (urls: Vec<String>)
    ensures
        texts_of(urls@) == detected_urls(content@),
{
    let mut finder = linkify::LinkFinder::new();
    finder.kinds(&[linkify::LinkKind::Url]);
    finder.links(content).map(|link| link.as_str().to_string()).collect()
}

/// `Url::parse`, then `Url::host`: the host depends on the text alone.
#[verifier::external_body]
pub(crate) fn url_host(url: &str) -> (host: Option<UrlHost>)
    ensures
        host is Some == url_host_of(url@) is Some,
        host is Some ==> host->Some_0@ == url_host_of(url@)->Some_0,
{
    let parsed = url::Url::parse(url).ok()?;
    match parsed.host()? {
        url::Host::Domain(d) => Some(UrlHost::Domain(d.to_string())),
        url::Host::Ipv4(a) => {
            let o = a.octets();
            Some(UrlHost::Address(IpAddress::V4(o[0], o[1], o[2], o[3])))
        },
        url::Host::Ipv6(a) => {
            let s = a.segments();
            Some(UrlHost::Address(IpAddress::V6(s[0], s[1], s[2], s[3], s[4], s[5], s[6], s[7])))
        },
    }
}

/// `Url::parse`, then `Url::host_str`: the text depends on the URL alone.
#[verifier::external_body]
pub(crate) fn url_host_str(url: &str) -> (host: Option<String>)
    ensures
        text_of(host) == url_host_text(url@),
{
    url::Url::parse(url).ok().and_then(|u| u.host_str().map(|h| h.to_string()))
}

/// `Url::parse`, then `Url::port_or_known_default`: the port depends on the
/// text alone.
#[verifier::external_body]
pub(crate) fn url_port(url: &str) -> (port: Option<u16>)
    ensures
        port == url_port_of(url@),
{
    url::Url::parse(url).ok().and_then(|u| u.port_or_known_default())
}

/// `Url::parse`, then `Url::join`: the result depends on the two texts
/// alone.
#[verifier::external_body]
pub(crate) fn url_join(base: &str, reference: &str) -> (joined: Option<String>)
    ensures
        text_of(joined) == url_joined(base@, reference@),
{
    url::Url::parse(base).ok().and_then(|b| b.join(reference).ok()).map(|u| u.to_string())
}

/// `Html::parse_document`, `Selector::parse`, `Html::select`, then
/// `Element::attr` on the first match: the value depends on the three
/// texts alone.
#[verifier::external_body]
pub(crate) fn html_first_attr(html: &str, css: &str, attr: &str) -> (value: Option<String>)
    ensures
        text_of(value) == html_first_attr_of(html@, css@, attr@),
{
    let document = scraper::Html::parse_document(html);
    let selector = scraper::Selector::parse(css).ok()?;
    document.select(&selector).next()?.value().attr(attr).map(|s| s.to_string())
}

/// `Html::parse_document`, `Selector::parse`, `Html::select`, then
/// `ElementRef::text` on the first match: the text depends on the two
/// texts alone.
#[verifier::external_body]
pub(crate) fn html_first_text(html: &str, css: &str) -> (value: Option<String>)
    ensures
        text_of(value) == html_first_text_of(html@, css@),
{
    let document = scraper::Html::parse_document(html);
    let selector = scraper::Selector::parse(css).ok()?;
    document.select(&selector).next().map(|e| e.text().collect::<String>())
}

/// `String::from_utf8_lossy`: the text depends on the bytes alone, and is
/// their text where they are valid UTF-8.
#[verifier::external_body]
pub(crate) fn from_utf8_lossy(bytes: &[u8]) -> (text: String)
    ensures
        text@ == utf8_lossy(bytes@),
        valid_utf8(bytes@) ==> text@ == decode_utf8(bytes@),
{
    String::from_utf8_lossy(bytes).into_owned()
}

/// The URLs of a list that have the scheme `http` or `https`, in order.
pub open spec fn http_urls(urls: Seq<Seq<char>>) -> Seq<Seq<char>>
    decreases urls.len(),
{
    if urls.len() == 0 {
        urls
    } else if safe_scheme(urls.last()) {
        http_urls(urls.drop_last()).push(urls.last())
    } else {
        http_urls(urls.drop_last())
    }
}

/// The first `n` of a list, or all of it where it has no more.
pub open spec fn first_n(urls: Seq<Seq<char>>, n: nat) -> Seq<Seq<char>> {
    if urls.len() <= n {
        urls
    } else {
        urls.take(n as int)
    }
}

/// The URLs of a message body that are previewed: of the URLs that the
/// link finder detects, those with the scheme `http` or `https`, and of
/// those the first five.
pub open spec fn extracted_urls(content: Seq<char>) -> Seq<Seq<char>> {
    first_n(http_urls(detected_urls(content)), MAX_URLS_PER_MESSAGE as nat)
}

/// Every URL that `http_urls` keeps has the scheme `http` or `https`.
pub proof fn http_urls_are_http(urls: Seq<Seq<char>>, i: int)
    requires
        0 <= i < http_urls(urls).len(),
    ensures
        safe_scheme(http_urls(urls)[i]),
    decreases urls.len(),
{
    if urls.len() > 0 {
        let rest = http_urls(urls.drop_last());
        if i < rest.len() {
            http_urls_are_http(urls.drop_last(), i);
        }
    }
}

/// Keeps the first `n` of a list of strings.
pub fn keep_first(mut urls: Vec<String>, n: usize) -> (kept: Vec<String>)
    ensures
        texts_of(kept@) == first_n(texts_of(urls@), n as nat),
{
    let ghost before = urls@;
    if urls.len() > n {
        urls.truncate(n);
        assert(texts_of(urls@) =~= texts_of(before).take(n as int));
    }
    urls
}

/// Keeps the URLs of a list that have the scheme `http` or `https`.
pub fn keep_http(urls: Vec<String>) -> (kept: Vec<String>)
    ensures
        texts_of(kept@) == http_urls(texts_of(urls@)),
{
    let mut kept: Vec<String> = Vec::new();
    let mut i: usize = 0;
    assert(texts_of(urls@).take(0) =~= Seq::<Seq<char>>::empty());
    assert(texts_of(kept@) =~= Seq::<Seq<char>>::empty());
    while i < urls.len()
        invariant
            i <= urls.len(),
            texts_of(kept@) == http_urls(texts_of(urls@).take(i as int)),
        decreases urls.len() - i,
    {
        let ghost before = kept@;
        proof {
            let all = texts_of(urls@);
            assert(all.take(i + 1).drop_last() =~= all.take(i as int));
            assert(all.take(i + 1).last() == urls@[i as int]@);
        }
        if is_safe_scheme(urls[i].as_str()) {
            kept.push(urls[i].clone());
            assert(texts_of(kept@) =~= texts_of(before).push(urls@[i as int]@));
        }
        i += 1;
    }
    assert(texts_of(urls@).take(urls.len() as int) =~= texts_of(urls@));
    kept
}

/// Extracts the URLs of a message body that are previewed: the first five
/// detected URLs with the scheme `http` or `https`.
pub fn extract_urls(content: &str) -> (urls: Vec<String>)
    ensures
        texts_of(urls@) == extracted_urls(content@),
        urls@.len() <= MAX_URLS_PER_MESSAGE,
        forall|i: int| 0 <= i < urls@.len() ==> safe_scheme(#[trigger] urls@[i]@),
{
    let found = find_urls(content);
    let http = keep_http(found);
    let urls = keep_first(http, MAX_URLS_PER_MESSAGE);
    proof {
        let all = http_urls(detected_urls(content@));
        assert(texts_of(urls@) == first_n(all, MAX_URLS_PER_MESSAGE as nat));
        assert(texts_of(urls@).len() == urls@.len());
        assert forall|i: int| 0 <= i < urls@.len() implies safe_scheme(#[trigger] urls@[i]@) by {
            assert(texts_of(urls@)[i] == urls@[i]@);
            assert(texts_of(urls@)[i] == all[i]);
            http_urls_are_http(detected_urls(content@), i);
        }
    }
    urls
}

/// Whether a URL has the scheme `http` or `https`.
pub open spec fn safe_scheme(url: Seq<char>) -> bool {
    "http://"@.is_prefix_of(url) || "https://"@.is_prefix_of(url)
}

/// Checks that a URL's scheme is `http` or `https`.
pub fn is_safe_scheme(url: &str) -> (r: bool)
    ensures
        r == safe_scheme(url@),
{
    let v = chars_of(url);
    let http = chars_of("http://");
    let https = chars_of("https://");
    starts_with(&v, &http) || starts_with(&v, &https)
}

/// Whether an IPv4 address must not be fetched from: loopback, private,
/// link-local (which holds the cloud-metadata address), broadcast,
/// unspecified, or carrier-grade NAT.
pub open spec fn private_v4(a: u8, b: u8, c: u8, d: u8) -> bool {
    ||| a == 127
    ||| a == 10
    ||| (a == 172 && 16 <= b <= 31)
    ||| (a == 192 && b == 168)
    ||| (a == 169 && b == 254)
    ||| (a == 255 && b == 255 && c == 255 && d == 255)
    ||| (a == 0 && b == 0 && c == 0 && d == 0)
    ||| (a == 100 && 64 <= b <= 127)
}

/// Whether an address must not be fetched from: an IPv4 address that must
/// not be, the IPv6 loopback or unspecified address, or the IPv4-mapped
/// IPv6 form of an IPv4 address that must not be.
pub open spec fn private_ip(ip: IpAddress) -> bool {
    match ip {
        IpAddress::V4(a, b, c, d) => private_v4(a, b, c, d),
        IpAddress::V6(s0, s1, s2, s3, s4, s5, s6, s7) => {
            ||| (s0 == 0 && s1 == 0 && s2 == 0 && s3 == 0 && s4 == 0 && s5 == 0 && s6 == 0 && (s7
                == 1 || s7 == 0))
            ||| (s0 == 0 && s1 == 0 && s2 == 0 && s3 == 0 && s4 == 0 && s5 == 0xffff
                && private_v4(
                (s6 / 256) as u8,
                (s6 % 256) as u8,
                (s7 / 256) as u8,
                (s7 % 256) as u8,
            ))
        },
    }
}

/// Checks whether an IPv4 address is private or reserved.
pub fn is_private_v4(a: u8, b: u8, c: u8, d: u8) -> (r: bool)
    ensures
        r == private_v4(a, b, c, d),
{
    a == 127 || a == 10 || (a == 172 && 16 <= b && b <= 31) || (a == 192 && b == 168) || (a == 169
        && b == 254) || (a == 255 && b == 255 && c == 255 && d == 255) || (a == 0 && b == 0 && c
        == 0 && d == 0) || (a == 100 && 64 <= b && b <= 127)
}

/// Checks whether an address is private or reserved.
pub fn is_private_ip(ip: IpAddress) -> (r: bool)
    ensures
        r == private_ip(ip),
{
    match ip {
        IpAddress::V4(a, b, c, d) => is_private_v4(a, b, c, d),
        IpAddress::V6(s0, s1, s2, s3, s4, s5, s6, s7) => {
            let zeros = s0 == 0 && s1 == 0 && s2 == 0 && s3 == 0 && s4 == 0;
            if zeros && s5 == 0 && s6 == 0 && (s7 == 1 || s7 == 0) {
                true
            } else if zeros && s5 == 0xffff {
                let a: u8 = (s6 / 256) as u8;
                let b: u8 = (s6 % 256) as u8;
                let c: u8 = (s7 / 256) as u8;
                let d: u8 = (s7 % 256) as u8;
                is_private_v4(a, b, c, d)
            } else {
                false
            }
        },
    }
}

/// The IPv4-mapped form of an address is refused exactly when the address
/// itself is.
pub proof fn mapped_form_is_refused_alike(a: u8, b: u8, c: u8, d: u8)
    ensures
        private_ip(
            IpAddress::V6(0, 0, 0, 0, 0, 0xffff, (a * 256 + b) as u16, (c * 256 + d) as u16),
        ) == private_ip(IpAddress::V4(a, b, c, d)),
{
    let s6 = (a * 256 + b) as u16;
    let s7 = (c * 256 + d) as u16;
    assert(s6 / 256 == a && s6 % 256 == b);
    assert(s7 / 256 == c && s7 % 256 == d);
}

/// What the safety check says of a URL before any name is resolved.
#[derive(Debug)]
pub enum UrlCheck {
    /// The URL must not be fetched.
    Rejected,
    /// The URL names a public address and may be fetched.
    Accepted,
    /// The URL names a host that must be resolved first; it may be fetched
    /// if every address the name resolves to is public.
    NeedsLookup { host: String, port: u16 },
}

/// What the safety check says of a URL before any name is resolved.
pub open spec fn url_checked(url: Seq<char>, check: UrlCheck) -> bool {
    if !safe_scheme(url) {
        check is Rejected
    } else {
        match url_host_of(url) {
            None => check is Rejected,
            Some(HostModel::Address(ip)) => if private_ip(ip) {
                check is Rejected
            } else {
                check is Accepted
            },
            Some(HostModel::Domain(d)) => check is NeedsLookup && check->host@ == d && check->port
                == (match url_port_of(url) {
                Some(p) => p,
                None => 443u16,
            }),
        }
    }
}

/// Checks the scheme and the host of a URL. A URL with an address for a
/// host is decided here; one with a name is decided once the name is
/// resolved.
pub fn check_url(url: &str) -> (check: UrlCheck)
    ensures
        url_checked(url@, check),
{
    if !is_safe_scheme(url) {
        return UrlCheck::Rejected;
    }
    match url_host(url) {
        None => UrlCheck::Rejected,
        Some(UrlHost::Address(ip)) => {
            if is_private_ip(ip) {
                UrlCheck::Rejected
            } else {
                UrlCheck::Accepted
            }
        },
        Some(UrlHost::Domain(host)) => {
            let port = match url_port(url) {
                Some(p) => p,
                None => 443,
            };
            UrlCheck::NeedsLookup { host, port }
        },
    }
}

/// Whether a name may be fetched from, given what it resolves to: at least
/// one address, and none of them private.
pub open spec fn all_public(addresses: Seq<IpAddress>) -> bool {
    addresses.len() > 0 && forall|i: int|
        0 <= i < addresses.len() ==> !private_ip(#[trigger] addresses[i])
}

/// Checks the addresses a name resolved to.
pub fn addresses_are_public(addresses: &Vec<IpAddress>) -> (r: bool)
    ensures
        r == all_public(addresses@),
{
    if addresses.len() == 0 {
        return false;
    }
    let mut i: usize = 0;
    while i < addresses.len()
        invariant
            i <= addresses.len(),
            forall|k: int| 0 <= k < i ==> !private_ip(#[trigger] addresses@[k]),
        decreases addresses.len() - i,
    {
        if is_private_ip(addresses[i]) {
            return false;
        }
        i += 1;
    }
    true
}

/// Whether a URL is safe to fetch, given the addresses its host resolves
/// to where it names one.
pub open spec fn safe_url(url: Seq<char>, resolved: Seq<IpAddress>) -> bool {
    safe_scheme(url) && match url_host_of(url) {
        None => false,
        Some(HostModel::Address(ip)) => !private_ip(ip),
        Some(HostModel::Domain(_)) => all_public(resolved),
    }
}

/// Validates that a URL is safe to fetch. `resolved` holds the addresses
/// that the URL's host resolves to; it is looked at only where the host is
/// a name.
pub fn is_safe_url(url: &str, resolved: &Vec<IpAddress>) -> (r: bool)
    ensures
        r == safe_url(url@, resolved@),
{
    match check_url(url) {
        UrlCheck::Rejected => false,
        UrlCheck::Accepted => true,
        UrlCheck::NeedsLookup { .. } => addresses_are_public(resolved),
    }
}

/// The three kinds of response the worker tells apart.
#[derive(Debug, Clone, Copy, PartialEq, Eq, Structural)]
pub enum ResponseKind {
    /// The URL is an image: the preview is the image itself.
    Image,
    /// The URL is a page: its tags are read.
    Html,
    /// Anything else: no preview.
    Other,
}

/// The kind of a response with the given content type.
pub open spec fn response_kind(content_type: Seq<char>) -> ResponseKind {
    if "image/"@.is_prefix_of(content_type) {
        ResponseKind::Image
    } else if contains_run(content_type, "text/html"@) {
        ResponseKind::Html
    } else {
        ResponseKind::Other
    }
}

/// Tells the kind of a response from its content type.
pub fn classify_response(content_type: &str) -> (kind: ResponseKind)
    ensures
        kind == response_kind(content_type@),
{
    let v = chars_of(content_type);
    let image = chars_of("image/");
    let html = chars_of("text/html");
    if starts_with(&v, &image) {
        ResponseKind::Image
    } else if contains(&v, &html) {
        ResponseKind::Html
    } else {
        ResponseKind::Other
    }
}

/// What the worker does with a response, told from its headers: an image
/// is its own preview; a page is read, unless it declares more than the
/// cap; anything else is refused.
pub open spec fn fetch_decided(content_type: Seq<char>, content_length: Option<u64>) -> Result<
    ResponseKind,
    Seq<char>,
> {
    match response_kind(content_type) {
        ResponseKind::Image => Ok(ResponseKind::Image),
        ResponseKind::Other => Err("Not HTML content"@),
        ResponseKind::Html => if content_length is Some && content_length->Some_0 > MAX_BODY_SIZE {
            Err("Content too large"@)
        } else {
            Ok(ResponseKind::Html)
        },
    }
}

/// Decides what to do with a response from its content type and its
/// declared length. The content type is looked at first.
pub fn decide_fetch(content_type: &str, content_length: Option<u64>) -> (r: Result<
    ResponseKind,
    String,
>)
    ensures
        match fetch_decided(content_type@, content_length) {
            Ok(kind) => r == Ok::<ResponseKind, String>(kind),
            Err(text) => r is Err && r->Err_0@ == text,
        },
{
    match classify_response(content_type) {
        ResponseKind::Image => Ok(ResponseKind::Image),
        ResponseKind::Other => Err(String::from_str("Not HTML content")),
        ResponseKind::Html => {
            if content_length_allowed(content_length, MAX_BODY_SIZE) {
                Ok(ResponseKind::Html)
            } else {
                Err(String::from_str("Content too large"))
            }
        },
    }
}

/// Refuses to fetch a preview from a URL that is not safe to fetch.
/// `resolved` holds the addresses the URL's host resolves to.
pub fn check_preview_target(url: &str, resolved: &Vec<IpAddress>) -> (r: Result<(), String>)
    ensures
        safe_url(url@, resolved@) ==> r is Ok,
        !safe_url(url@, resolved@) ==> r is Err && r->Err_0@ == "URL failed safety check"@,
{
    if is_safe_url(url, resolved) {
        Ok(())
    } else {
        Err(String::from_str("URL failed safety check"))
    }
}

/// Whether a declared length is within the cap; an undeclared one is.
pub fn content_length_allowed(content_length: Option<u64>, cap: usize) -> (r: bool)
    ensures
        r == (content_length is None || content_length->Some_0 <= cap),
{
    match content_length {
        Some(n) => n <= cap as u64,
        None => true,
    }
}

/// The bytes of a chunk that still fit under the cap.
pub open spec fn fitting(held: Seq<u8>, chunk: Seq<u8>, cap: usize) -> Seq<u8> {
    if held.len() >= cap {
        Seq::empty()
    } else if chunk.len() <= cap - held.len() {
        chunk
    } else {
        chunk.take(cap - held.len())
    }
}

/// Adds a chunk to what was read of a body, up to the cap; what does not
/// fit is discarded. Returns whether there is room for more.
pub fn append_capped(buf: &mut Vec<u8>, chunk: &[u8], cap: usize) -> (more: bool)
    ensures
        final(buf)@ == old(buf)@ + fitting(old(buf)@, chunk@, cap),
        more == (final(buf)@.len() < cap),
{
    if buf.len() >= cap {
        assert(buf@ =~= old(buf)@ + Seq::<u8>::empty());
        return false;
    }
    let remaining: usize = cap - buf.len();
    let n: usize = if chunk.len() <= remaining {
        chunk.len()
    } else {
        remaining
    };
    let ghost start = buf@;
    let mut i: usize = 0;
    assert(buf@ =~= start + chunk@.take(0));
    while i < n
        invariant
            i <= n <= chunk@.len(),
            start.len() + n <= cap,
            buf@ == start + chunk@.take(i as int),
        decreases n - i,
    {
        buf.push(chunk[i]);
        assert(chunk@.take(i + 1) =~= chunk@.take(i as int).push(chunk@[i as int]));
        assert(buf@ =~= start + chunk@.take(i + 1));
        i += 1;
    }
    assert(chunk@.take(chunk@.len() as int) =~= chunk@);
    buf.len() < cap
}

/// The preview of a URL that is itself an image.
pub fn image_only_preview(url: &str) -> (data: LinkPreviewData)
    ensures
        data.url@ == url@,
        data.title is None,
        data.description is None,
        text_of(data.image_url) == Some(url@),
        text_of(data.site_name) == url_host_text(url@),
{
    LinkPreviewData {
        url: String::from_str(url),
        title: None,
        description: None,
        image_url: Some(String::from_str(url)),
        site_name: url_host_str(url),
    }
}

/// A tag's value as it is used: trimmed, and absent when nothing is left.
pub open spec fn usable(value: Option<Seq<char>>) -> Option<Seq<char>> {
    match value {
        Some(v) => if trimmed(v).len() > 0 {
            Some(trimmed(v))
        } else {
            None
        },
        None => None,
    }
}

/// The first of two optional values that is present.
pub open spec fn or_else(a: Option<Seq<char>>, b: Option<Seq<char>>) -> Option<Seq<char>> {
    if a is Some {
        a
    } else {
        b
    }
}

/// The usable `content` of the first element a selector matches.
pub open spec fn meta_content_of(html: Seq<char>, css: Seq<char>) -> Option<Seq<char>> {
    usable(html_first_attr_of(html, css, "content"@))
}

/// A page's title: `og:title`, else `twitter:title`, else `<title>`.
pub open spec fn title_of(html: Seq<char>) -> Option<Seq<char>> {
    or_else(
        meta_content_of(html, "meta[property='og:title']"@),
        or_else(
            meta_content_of(html, "meta[name='twitter:title']"@),
            usable(html_first_text_of(html, "title"@)),
        ),
    )
}

/// A page's description: `og:description`, else `twitter:description`,
/// else the `description` meta tag; cut to 300 characters.
pub open spec fn description_of(html: Seq<char>) -> Option<Seq<char>> {
    match or_else(
        meta_content_of(html, "meta[property='og:description']"@),
        or_else(
            meta_content_of(html, "meta[name='twitter:description']"@),
            meta_content_of(html, "meta[name='description']"@),
        ),
    ) {
        Some(d) => Some(truncated(d, MAX_DESCRIPTION_LENGTH as nat)),
        None => None,
    }
}

/// A page's image: `og:image`, else `twitter:image`; resolved against the
/// page's URL unless it is absolute.
pub open spec fn image_of(html: Seq<char>, url: Seq<char>) -> Option<Seq<char>> {
    match or_else(
        meta_content_of(html, "meta[property='og:image']"@),
        meta_content_of(html, "meta[name='twitter:image']"@),
    ) {
        Some(img) => if safe_scheme(img) {
            Some(img)
        } else {
            url_joined(url, img)
        },
        None => None,
    }
}

/// A page's site name: `og:site_name`, else the host of its URL.
pub open spec fn site_name_of(html: Seq<char>, url: Seq<char>) -> Option<Seq<char>> {
    or_else(meta_content_of(html, "meta[property='og:site_name']"@), url_host_text(url))
}

/// Trims a tag's value and drops it when nothing is left.
fn make_usable(value: Option<String>) -> (r: Option<String>)
    ensures
        text_of(r) == usable(text_of(value)),
{
    match value {
        Some(v) => {
            let t = trim(v.as_str());
            if t.as_str().unicode_len() > 0 {
                Some(t)
            } else {
                None
            }
        },
        None => None,
    }
}

/// The usable `content` of the first element a selector matches.
fn meta_content(html: &str, css: &str) -> (r: Option<String>)
    ensures
        text_of(r) == meta_content_of(html@, css@),
{
    make_usable(html_first_attr(html, css, "content"))
}

/// Reads OpenGraph, Twitter Card and HTML meta tags from a page.
pub fn parse_og_tags(html: &str, url: &str) -> (data: LinkPreviewData)
    ensures
        data.url@ == url@,
        text_of(data.title) == title_of(html@),
        text_of(data.description) == description_of(html@),
        text_of(data.image_url) == image_of(html@, url@),
        text_of(data.site_name) == site_name_of(html@, url@),
{
    let title = match meta_content(html, "meta[property='og:title']") {
        Some(t) => Some(t),
        None => match meta_content(html, "meta[name='twitter:title']") {
            Some(t) => Some(t),
            None => make_usable(html_first_text(html, "title")),
        },
    };
    let described = match meta_content(html, "meta[property='og:description']") {
        Some(d) => Some(d),
        None => match meta_content(html, "meta[name='twitter:description']") {
            Some(d) => Some(d),
            None => meta_content(html, "meta[name='description']"),
        },
    };
    let description = match described {
        Some(d) => Some(truncate_string(d.as_str(), MAX_DESCRIPTION_LENGTH)),
        None => None,
    };
    let image = match meta_content(html, "meta[property='og:image']") {
        Some(i) => Some(i),
        None => meta_content(html, "meta[name='twitter:image']"),
    };
    let image_url = match image {
        Some(img) => {
            if is_safe_scheme(img.as_str()) {
                Some(img)
            } else {
                url_join(url, img.as_str())
            }
        },
        None => None,
    };
    let site_name = match meta_content(html, "meta[property='og:site_name']") {
        Some(s) => Some(s),
        None => url_host_str(url),
    };
    LinkPreviewData { url: String::from_str(url), title, description, image_url, site_name }
}

/// The path and query under which the proxy serves a signed image.
pub open spec fn proxied_image_url(image_url: Seq<char>, secret: Seq<char>) -> Seq<char> {
    "/api/proxy/image?url="@ + base64url(encode_utf8(image_url)) + "&sig="@ + signature_of(
        image_url,
        secret,
    )
}

/// Whether a preview says nothing: no title, no description, no image.
pub open spec fn is_empty_preview(data: LinkPreviewData) -> bool {
    data.title is None && data.description is None && data.image_url is None
}

/// Routes a preview's image through the signed proxy, and drops a preview
/// that says nothing.
pub fn finalize_preview(data: LinkPreviewData, secret: &str) -> (r: Option<LinkPreviewData>)
    ensures
        is_empty_preview(data) ==> r is None,
        !is_empty_preview(data) ==> r is Some && {
            let out = r->Some_0;
            &&& out.url == data.url
            &&& out.title == data.title
            &&& out.description == data.description
            &&& out.site_name == data.site_name
            &&& match data.image_url {
                Some(img) => text_of(out.image_url) == Some(proxied_image_url(img@, secret@)),
                None => out.image_url is None,
            }
        },
{
    let LinkPreviewData { url, title, description, image_url, site_name } = data;
    let image_url = match image_url {
        Some(img) => {
            let (encoded, sig) = sign_image_url(img.as_str(), secret);
            let mut proxied = String::from_str("/api/proxy/image?url=");
            proxied.append(encoded.as_str());
            proxied.append("&sig=");
            proxied.append(sig.as_str());
            Some(proxied)
        },
        None => None,
    };
    if title.is_none() && description.is_none() && image_url.is_none() {
        return None;
    }
    Some(LinkPreviewData { url, title, description, image_url, site_name })
}

/// The stored form of a preview.
pub fn stored_preview(id: Id, data: LinkPreviewData) -> (p: LinkPreview)
    ensures
        p == (LinkPreview {
            id,
            url: data.url,
            title: data.title,
            description: data.description,
            image_url: data.image_url,
            site_name: data.site_name,
        }),
{
    LinkPreview {
        id,
        url: data.url,
        title: data.title,
        description: data.description,
        image_url: data.image_url,
        site_name: data.site_name,
    }
}

/// The event that announces a message's previews on its channel; none when
/// there is no preview.
pub fn link_preview_ready(message_id: Id, channel_id: Id, link_previews: Vec<LinkPreview>) -> (out:
    Option<Outbound>)
    ensures
        link_previews@.len() == 0 ==> out is None,
        link_previews@.len() > 0 ==> out == Some(
            (Outbound {
                plane: Plane::Channel(channel_id),
                event: (ServerEvent::LinkPreviewReady { message_id, channel_id, link_previews }),
            }),
        ),
{
    if link_previews.len() == 0 {
        None
    } else {
        Some(
            broadcast_channel(
                channel_id,
                ServerEvent::LinkPreviewReady { message_id, channel_id, link_previews },
            ),
        )
    }
}

/// Reads the tags of a fetched page from its body. Bytes that are not
/// valid UTF-8 are read as the replacement character.
pub fn preview_from_body(body: &Vec<u8>, url: &str) -> (data: LinkPreviewData)
    ensures
        data.url@ == url@,
        text_of(data.title) == title_of(utf8_lossy(body@)),
        text_of(data.description) == description_of(utf8_lossy(body@)),
        text_of(data.image_url) == image_of(utf8_lossy(body@), url@),
        text_of(data.site_name) == site_name_of(utf8_lossy(body@), url@),
{
    let html = from_utf8_lossy(body.as_slice());
    parse_og_tags(html.as_str(), url)
}

} // verus!
