//! The URL of the app that the desktop client opens.

use crate::error::DesktopError;
use crate::error::DesktopErrorView;
use crate::replay;
use crate::replay::Effect;
use crate::replay::EffectView;
use crate::replay::Progress;
use crate::replay::ProgressView;
use crate::replay::Reply;
use crate::replay::ReplyView;
use crate::text;
use vstd::prelude::*;
use vstd::string::StringExecFns;

verus! {

/// The app as served by the local development stack.
pub const LOCAL_APP_URL: &'static str = "http://localhost:8088";

/// The same app by the loopback address.
pub const LOOPBACK_APP_URL: &'static str = "http://127.0.0.1:8088";

/// How long a health check may take.
pub const HEALTH_TIMEOUT_SECS: u64 = 3;

/// What is read off a parsed URL.
#[derive(Debug, PartialEq, Eq)]
pub struct UrlParts {
    /// The scheme, in lower case and without the colon.
    pub scheme: String,
    /// The whole URL in its normal form.
    pub href: String,
}

/// The mathematical counterpart of the outcome of parsing a URL.
pub open spec fn parts_view(parsed: Result<UrlParts, String>) -> Result<
    (Seq<char>, Seq<char>),
    Seq<char>,
> {
    match parsed {
        Ok(parts) => Ok((parts.scheme@, parts.href@)),
        Err(cause) => Err(cause@),
    }
}

/// The mathematical counterpart of the outcome of normalizing a URL.
pub open spec fn result_view(res: Result<String, DesktopError>) -> Result<
    Seq<char>,
    DesktopErrorView,
> {
    match res {
        Ok(url) => Ok(url@),
        Err(error) => Err(error.deep_view()),
    }
}

/// Whether `scheme` is one that the app can be served by.
pub open spec fn web_scheme(scheme: Seq<char>) -> bool {
    scheme == "http"@ || scheme == "https"@
}

/// Whether `href` is `scheme`, `://` and at least one more character, which is no slash.
pub open spec fn names_a_host(scheme: Seq<char>, href: Seq<char>) -> bool {
    let start = scheme + "://"@;
    &&& start.is_prefix_of(href)
    &&& href.len() > start.len()
    &&& href[start.len() as int] != '/'
}

/// What `url::Url::parse` makes of `input`: the scheme and the serialization of the URL, or the
/// text of the error.
pub uninterp spec fn url_parse(input: Seq<char>) -> Result<(Seq<char>, Seq<char>), Seq<char>>;

/// Whether `text` holds visible ASCII characters only.
pub open spec fn visible_ascii(text: Seq<char>) -> bool {
    forall|i: int| 0 <= i < text.len() ==> '!' <= #[trigger] text[i] <= '~'
}

/// The authority of a URL with two slashes in front of it: what stands between them and the next
/// slash.
pub open spec fn authority(url: Seq<char>) -> Seq<char> {
    text::before(text::behind(text::behind(url, '/'), '/'), '/')
}

/// The host of such a URL, with its port: the authority without user information.
pub open spec fn host_and_port(url: Seq<char>) -> Seq<char> {
    text::behind_last(authority(url), '@')
}

/// Whether `host[from..to]` is a label, or the start of one, in Punycode.
pub open spec fn punycode_label(host: Seq<char>, from: int, to: int) -> bool {
    &&& 0 <= from <= to <= host.len()
    &&& from == 0 || host[from - 1] == '.'
    &&& "xn--"@.is_prefix_of(host.subrange(from, to))
    &&& forall|i: int| from <= i < to ==> host[i] != '.' && host[i] != ':'
}

/// Whether the host of `url` is within the limits of the parser for text that is already encoded:
/// no more than 2000 characters of Punycode in a label, and an authority whose characters can be
/// counted in 32 bits with a sign.
pub open spec fn host_fits(url: Seq<char>) -> bool {
    &&& authority(url).len() <= i32::MAX
    &&& forall|from: int, to: int| #[trigger]
        punycode_label(host_and_port(url), from, to) ==> to - from <= 4 + 2000
}

/// Whether `base`, with any number of slashes behind it, parses to a URL of this scheme which is
/// `base` again but for slashes at its end, as far as the host of `base` fits.
pub open spec fn parses_back(scheme: Seq<char>, base: Seq<char>) -> bool {
    host_fits(base) ==> forall|n: nat|
        (#[trigger] url_parse(base + text::slashes(n))) matches Ok((again, href)) && again == scheme
            && text::without_trailing_slashes(href) == base
}

/// A URL with nothing but a scheme, a host and a port.
pub open spec fn origin(scheme: Seq<char>, host: Seq<char>, port: u16) -> Seq<char> {
    scheme + "://"@ + host + ":"@ + text::decimal(port as nat)
}

/// Whether `host` is made of one to 63 lower case ASCII letters.
pub open spec fn plain_host(host: Seq<char>) -> bool {
    &&& 0 < host.len() <= 63
    &&& forall|i: int| 0 <= i < host.len() ==> 'a' <= #[trigger] host[i] <= 'z'
}

/// Whether `parsed` is `input` with one slash for its path, as far as `input` is a scheme, a plain
/// host and a port other than the default ones.
pub open spec fn origin_stays(
    input: Seq<char>,
    parsed: Result<(Seq<char>, Seq<char>), Seq<char>>,
) -> bool {
    forall|scheme: Seq<char>, host: Seq<char>, port: u16|
        input == #[trigger] origin(scheme, host, port) && web_scheme(scheme) && plain_host(host)
            && port != 80 && port != 443 ==> parsed == Ok::<(Seq<char>, Seq<char>), Seq<char>>(
            (scheme, input.push('/')),
        )
}

/// Calls `url::Url::parse`, and on success `Url::scheme` and `Url::as_str`.
///
/// The outcome is a function of the input alone, which `url_parse` names. Of an `http` or `https`
/// URL this is taken from the crate:
/// - The serialization is the scheme, `://` and an authority, which is neither empty nor begins
///   with a slash.
/// - It holds visible ASCII only: everything else is percent-encoded, put into Punycode or dropped.
/// - It is a fixed point of parsing, to which slashes at the end can be added and from which they
///   can be taken away: behind the path, the query or the fragment they are kept as they are, and
///   an empty path becomes one slash. (`Url::check_invariants` holds a URL to being its own
///   parse.) This is said of hosts that fit: Punycode is written from up to 1000 characters, which
///   can take more than the 2000 that are read.
/// - Scheme, plain host and a port other than the default ones stay as they are, and the path
///   becomes one slash.
#[verifier::external_body]
fn parse_url(input: &str) -> (res: Result<UrlParts, String>)
    ensures
        parts_view(res) == url_parse(input@),
        res matches Ok(parts) ==> web_scheme(parts.scheme@) ==> names_a_host(
            parts.scheme@,
            parts.href@,
        ),
        res matches Ok(parts) ==> web_scheme(parts.scheme@) ==> visible_ascii(parts.href@),
        res matches Ok(parts) ==> web_scheme(parts.scheme@) ==> parses_back(
            parts.scheme@,
            text::without_trailing_slashes(parts.href@),
        ),
        origin_stays(input@, parts_view(res)),
{
    match url::Url::parse(input) {
        Ok(url) => Ok(
            UrlParts { scheme: url.scheme().to_owned(), href: url.as_str().to_owned() },
        ),
        Err(error) => Err(error.to_string()),
    }
}

/// The app URL that `raw` stands for, when parsing it gave `parsed`.
pub open spec fn app_url_view(
    raw: Seq<char>,
    parsed: Result<(Seq<char>, Seq<char>), Seq<char>>,
) -> Result<Seq<char>, DesktopErrorView> {
    match parsed {
        Ok((scheme, href)) => if web_scheme(scheme) {
            Ok(text::without_trailing_slashes(href))
        } else {
            Err(DesktopErrorView::UnsupportedScheme { scheme })
        },
        Err(cause) => Err(DesktopErrorView::InvalidAppUrl { raw, cause }),
    }
}

/// Judges the outcome of parsing `raw`: only `http` and `https` are accepted, and slashes at the
/// end are dropped.
pub fn app_url(raw: &str, parsed: Result<UrlParts, String>) -> (res: Result<String, DesktopError>)
    ensures
        result_view(res) == app_url_view(raw@, parts_view(parsed)),
{
    match parsed {
        Ok(parts) => {
            if text::same_text(parts.scheme.as_str(), "http") || text::same_text(
                parts.scheme.as_str(),
                "https",
            ) {
                Ok(text::trim_end_slashes(parts.href.as_str()).to_owned())
            } else {
                Err(DesktopError::UnsupportedScheme { scheme: parts.scheme })
            }
        },
        Err(cause) => Err(DesktopError::InvalidAppUrl { raw: raw.to_owned(), cause }),
    }
}

/// The app URL that `raw` stands for.
pub open spec fn normalized_view(raw: Seq<char>) -> Result<Seq<char>, DesktopErrorView> {
    app_url_view(raw, url_parse(text::trimmed(raw)))
}

/// Whether `url` is an `http` or `https` URL that names a host and does not end with a slash.
pub open spec fn is_web_url(url: Seq<char>) -> bool {
    &&& names_a_host("http"@, url) || names_a_host("https"@, url)
    &&& url.last() != '/'
}

/// Whether `url`, with any number of slashes behind it, has the normal form `url`.
pub open spec fn is_normal_form(url: Seq<char>) -> bool {
    &&& normalized_view(url) == Ok::<Seq<char>, DesktopErrorView>(url)
    &&& forall|n: nat| #[trigger]
        normalized_view(url + text::slashes(n)) == Ok::<Seq<char>, DesktopErrorView>(url)
}

/// Brings an app URL into normal form: white space around it and slashes at its end are dropped,
/// and any other scheme than `http` and `https` is refused.
///
/// A normal form whose host fits the parser's limits for encoded text stays as it is when it is
/// normalized again, and so it does with any number of slashes behind it. A plain host with a port
/// is a normal form from the start.
pub fn normalize_desktop_app_url(raw: &str) -> (res: Result<String, DesktopError>)
    ensures
        result_view(res) == normalized_view(raw@),
        res matches Ok(url) ==> is_web_url(url@),
        res matches Ok(url) ==> host_fits(url@) ==> is_normal_form(url@),
        forall|scheme: Seq<char>, host: Seq<char>, port: u16|
            raw@ == #[trigger] origin(scheme, host, port) && web_scheme(scheme) && plain_host(host)
                && port != 80 && port != 443 ==> result_view(res) == Ok::<
                Seq<char>,
                DesktopErrorView,
            >(raw@),
{
    let parsed = parse_url(text::trim(raw));
    proof {
        assert forall|scheme: Seq<char>, host: Seq<char>, port: u16|
            raw@ == #[trigger] origin(scheme, host, port) && web_scheme(scheme) && plain_host(host)
                && port != 80 && port != 443 implies normalized_view(raw@) == Ok::<
            Seq<char>,
            DesktopErrorView,
        >(raw@) by {
            lemma_origin_is_bare(scheme, host, port);
        }
        if let Ok((scheme, href)) = parts_view(parsed) {
            if web_scheme(scheme) {
                lemma_host_survives(scheme, href);
                if host_fits(text::without_trailing_slashes(href)) {
                    lemma_normal_form(scheme, href);
                }
            }
        }
    }
    app_url(raw, parsed)
}

/// A serialization that parses back has a normal form that stays as it is.
proof fn lemma_normal_form(scheme: Seq<char>, href: Seq<char>)
    requires
        web_scheme(scheme),
        names_a_host(scheme, href),
        visible_ascii(href),
        parses_back(scheme, text::without_trailing_slashes(href)),
        host_fits(text::without_trailing_slashes(href)),
    ensures
        is_normal_form(text::without_trailing_slashes(href)),
{
    let base = text::without_trailing_slashes(href);
    lemma_host_survives(scheme, href);
    text::law_trailing_slashes_are_dropped(href);
    assert(base.first() == href.first());
    assert(!text::white_space(base.first()));
    assert forall|n: nat| #[trigger]
        normalized_view(base + text::slashes(n)) == Ok::<Seq<char>, DesktopErrorView>(base) by {
        let raw = base + text::slashes(n);
        assert(!text::white_space(raw.last()));
        assert(text::trimmed(raw) == raw);
        assert(url_parse(base + text::slashes(n)) is Ok);
    }
    assert(base + text::slashes(0) =~= base);
    assert(normalized_view(base + text::slashes(0)) == Ok::<Seq<char>, DesktopErrorView>(base));
}

/// Dropping slashes at the end leaves the scheme and the start of the host alone.
proof fn lemma_host_survives(scheme: Seq<char>, href: Seq<char>)
    requires
        names_a_host(scheme, href),
    ensures
        names_a_host(scheme, text::without_trailing_slashes(href)),
        text::without_trailing_slashes(href).last() != '/',
    decreases href.len(),
{
    let start = scheme + "://"@;
    if href.last() == '/' {
        assert(href.len() > start.len() + 1);
        assert(start.is_prefix_of(href.drop_last()));
        lemma_host_survives(scheme, href.drop_last());
    }
}

/// There is nothing to trim from an origin, and no slash at its end.
proof fn lemma_origin_is_bare(scheme: Seq<char>, host: Seq<char>, port: u16)
    requires
        web_scheme(scheme),
    ensures
        text::trimmed(origin(scheme, host, port)) == origin(scheme, host, port),
        text::without_trailing_slashes(origin(scheme, host, port).push('/')) == origin(
            scheme,
            host,
            port,
        ),
{
    let url = origin(scheme, host, port);
    reveal_strlit("http");
    reveal_strlit("https");
    text::lemma_decimal(port as nat);
    assert(url.first() == 'h');
    assert(url.last() == text::decimal(port as nat).last());
    assert(url.push('/').drop_last() =~= url);
    reveal_with_fuel(text::without_trailing_slashes, 2);
}

/// A host without Punycode fits, in a URL of ordinary length.
pub proof fn law_host_without_punycode_fits(url: Seq<char>)
    requires
        url.len() <= i32::MAX,
        forall|i: int|
            0 <= i <= url.len() - "xn--"@.len() ==> #[trigger] url.subrange(
                i,
                i + "xn--"@.len(),
            ) != "xn--"@,
    ensures
        host_fits(url),
{
    let first = text::behind(url, '/');
    let rest = text::behind(first, '/');
    let host = host_and_port(url);
    text::lemma_behind(url, '/');
    text::lemma_behind(first, '/');
    text::lemma_before(rest, '/');
    text::lemma_behind_last(authority(url), '@');
    let start = (url.len() - rest.len()) + (authority(url).len() - host.len());
    assert(host =~= url.subrange(start, start + host.len()));
    assert forall|from: int, to: int| #[trigger] punycode_label(host, from, to) implies to - from
        <= 4 + 2000 by {
        let prefix = "xn--"@;
        assert(host.subrange(from, to).take(prefix.len() as int) =~= prefix);
        assert(url.subrange(start + from, start + from + prefix.len()) =~= host.subrange(
            from,
            to,
        ).take(prefix.len() as int));
    }
}

/// The URL of the local app is an origin with a plain host, and that host fits.
proof fn lemma_local_app_url()
    ensures
        LOCAL_APP_URL@ == origin("http"@, "localhost"@, 8088),
        plain_host("localhost"@),
        host_fits(LOCAL_APP_URL@),
{
    reveal_strlit("http://localhost:8088");
    reveal_strlit("http");
    reveal_strlit("://");
    reveal_strlit("localhost");
    reveal_strlit(":");
    reveal_strlit("0123456789");
    reveal_strlit("xn--");
    reveal_with_fuel(text::decimal, 4);
    assert(text::decimal(8088) =~= seq!['8', '0', '8', '8']);
    assert(LOCAL_APP_URL@ =~= origin("http"@, "localhost"@, 8088));
    assert forall|i: int| 0 <= i <= LOCAL_APP_URL@.len() - "xn--"@.len() implies #[trigger]
        LOCAL_APP_URL@.subrange(i, i + "xn--"@.len()) != "xn--"@ by {
        assert(LOCAL_APP_URL@.subrange(i, i + "xn--"@.len())[0] == LOCAL_APP_URL@[i]);
        assert("xn--"@[0] == 'x');
    }
    law_host_without_punycode_fits(LOCAL_APP_URL@);
}

/// Takes the URL of the local app, which is its own normal form.
fn local_app_url() -> (res: String)
    ensures
        res@ == LOCAL_APP_URL@,
        is_web_url(res@),
        is_normal_form(res@),
{
    proof {
        lemma_local_app_url();
    }
    let normalized = normalize_desktop_app_url(LOCAL_APP_URL);
    assert(result_view(normalized) == Ok::<Seq<char>, DesktopErrorView>(LOCAL_APP_URL@));
    match normalized {
        Ok(url) => url,
        Err(_) => LOCAL_APP_URL.to_owned(),
    }
}

/// Whether a URL in normal form, if it is one, is that of the local development stack.
pub open spec fn is_local_view(normalized: Result<Seq<char>, DesktopErrorView>) -> bool {
    normalized == Ok::<Seq<char>, DesktopErrorView>(LOCAL_APP_URL@) || normalized == Ok::<
        Seq<char>,
        DesktopErrorView,
    >(LOOPBACK_APP_URL@)
}

/// Tells whether a URL in normal form, if it is one, is that of the local development stack.
pub fn is_local(normalized: &Result<String, DesktopError>) -> (res: bool)
    ensures
        res == is_local_view(result_view(*normalized)),
{
    match normalized {
        Ok(url) => text::same_text(url.as_str(), LOCAL_APP_URL) || text::same_text(
            url.as_str(),
            LOOPBACK_APP_URL,
        ),
        Err(_) => false,
    }
}

/// Whether `raw` is an app URL that stands for the local development stack.
pub fn is_local_app_url(raw: &str) -> (res: bool)
    ensures
        res == is_local_view(normalized_view(raw@)),
{
    is_local(&normalize_desktop_app_url(raw))
}

/// The variables that may name the app URL, the first one first.
pub open spec fn url_variables() -> Seq<Seq<char>> {
    seq!["FLUXER_DESKTOP_CANARY_APP_URL"@, "FLUXER_DESKTOP_APP_URL"@, "FLUXER_PUBLIC_URL"@]
}

/// The name of the variable at position `i`.
fn url_variable(i: usize) -> (res: &'static str)
    requires
        i < url_variables().len(),
    ensures
        res@ == url_variables()[i as int],
{
    if i == 0 {
        "FLUXER_DESKTOP_CANARY_APP_URL"
    } else if i == 1 {
        "FLUXER_DESKTOP_APP_URL"
    } else {
        "FLUXER_PUBLIC_URL"
    }
}

/// What has to answer for the value of a variable to be taken: its normal form, unless the value
/// is blank, is no app URL or stands for the local stack.
pub open spec fn probe_target_view(
    value: Seq<char>,
    normalized: Result<Seq<char>, DesktopErrorView>,
) -> Option<Seq<char>> {
    match normalized {
        Ok(base) => if value.len() > 0 && !is_local_view(normalized) {
            Some(base)
        } else {
            None
        },
        Err(_) => None,
    }
}

/// Judges the trimmed `value` of a variable by its normal form: what has to answer for it to be
/// taken, if it is a candidate at all.
pub fn probe_target(value: &str, normalized: Result<String, DesktopError>) -> (res: Option<String>)
    ensures
        res.deep_view() == probe_target_view(value@, result_view(normalized)),
{
    let local = is_local(&normalized);
    match normalized {
        Ok(base) => if !value.is_empty() && !local {
            Some(base)
        } else {
            None
        },
        Err(_) => None,
    }
}

/// Whether a response with this status, if there was one, is a success.
pub open spec fn answers(status: Option<u16>) -> bool {
    status matches Some(code) && 200 <= code < 300
}

/// The URL that is asked whether the app at `base` is up.
pub open spec fn health_url_view(base: Seq<char>) -> Seq<char> {
    base + "/gateway/_health"@
}

/// The request that asks whether the app at `base` is up.
pub open spec fn health_check(base: Seq<char>) -> EffectView {
    EffectView::Fetch { url: health_url_view(base), timeout_secs: HEALTH_TIMEOUT_SECS }
}

/// Asking whether the app at `base` is up.
pub open spec fn base_reachable_run(base: Seq<char>, log: Seq<ReplyView>, at: int) -> ProgressView<
    bool,
> {
    if at >= log.len() {
        ProgressView::Pending(health_check(base))
    } else {
        match log[at] {
            ReplyView::Status(status) => ProgressView::Ready {
                value: answers(status),
                next: at + 1,
            },
            _ => replay::unexpected(at),
        }
    }
}

/// Asks whether the app at `base`, a URL in normal form, is up.
pub fn base_url_is_reachable(base: &str, log: &[Reply], at: usize) -> (res: Progress<bool>)
    ensures
        res.deep_view() == base_reachable_run(base@, log.deep_view(), at as int),
{
    if at >= log.len() {
        let mut url = base.to_owned();
        url.append("/gateway/_health");
        return Progress::Pending(Effect::Fetch { url, timeout_secs: HEALTH_TIMEOUT_SECS });
    }
    match &log[at] {
        Reply::Status(status) => {
            let value = match status {
                Some(code) => 200 <= *code && *code < 300,
                None => false,
            };
            Progress::Ready { value, next: at + 1 }
        },
        _ => Progress::Failed(DesktopError::UnexpectedReply { at }),
    }
}

/// Asking whether the app at the URL `raw` is up.
pub open spec fn reachable_run(raw: Seq<char>, log: Seq<ReplyView>, at: int) -> ProgressView<bool> {
    match normalized_view(raw) {
        Ok(base) => base_reachable_run(base, log, at),
        Err(_) => ProgressView::Ready { value: false, next: at },
    }
}

/// Asks whether the app at the URL `raw` is up. What is no app URL is not asked.
pub fn public_app_url_is_reachable(raw: &str, log: &[Reply], at: usize) -> (res: Progress<bool>)
    ensures
        res.deep_view() == reachable_run(raw@, log.deep_view(), at as int),
{
    match normalize_desktop_app_url(raw) {
        Ok(base) => base_url_is_reachable(base.as_str(), log, at),
        Err(_) => Progress::Ready { value: false, next: at },
    }
}

/// Settling on the tunnel's URL where the app answers there, and on the local app otherwise.
pub open spec fn tunnel_or_local_run(log: Seq<ReplyView>, at: int) -> ProgressView<Seq<char>> {
    if at >= log.len() {
        ProgressView::Pending(EffectView::FindTunnelUrl)
    } else {
        match log[at] {
            ReplyView::Text(Some(raw)) => match reachable_run(raw, log, at + 1) {
                ProgressView::Ready { value: true, next } => ProgressView::Ready {
                    value: normalized_view(raw)->Ok_0,
                    next,
                },
                ProgressView::Ready { value: false, next } => ProgressView::Ready {
                    value: LOCAL_APP_URL@,
                    next,
                },
                ProgressView::Pending(effect) => ProgressView::Pending(effect),
                ProgressView::Failed(error) => ProgressView::Failed(error),
            },
            ReplyView::Text(None) => ProgressView::Ready { value: LOCAL_APP_URL@, next: at + 1 },
            _ => replay::unexpected(at),
        }
    }
}

fn tunnel_or_local(log: &[Reply], at: usize) -> (res: Progress<String>)
    ensures
        res.deep_view() == tunnel_or_local_run(log.deep_view(), at as int),
        res matches Progress::Ready { value, .. } ==> is_web_url(value@),
        res matches Progress::Ready { value, .. } ==> host_fits(value@) ==> is_normal_form(value@),
{
    if at >= log.len() {
        return Progress::Pending(Effect::FindTunnelUrl);
    }
    match &log[at] {
        Reply::Text(Some(raw)) => match public_app_url_is_reachable(raw.as_str(), log, at + 1) {
            Progress::Ready { value, next } => {
                if value {
                    if let Ok(url) = normalize_desktop_app_url(raw.as_str()) {
                        return Progress::Ready { value: url, next };
                    }
                }
                Progress::Ready { value: local_app_url(), next }
            },
            Progress::Pending(effect) => Progress::Pending(effect),
            Progress::Failed(error) => Progress::Failed(error),
        },
        Reply::Text(None) => Progress::Ready { value: local_app_url(), next: at + 1 },
        _ => Progress::Failed(DesktopError::UnexpectedReply { at }),
    }
}

/// Settling on the first variable from position `i` on whose app answers, and on the tunnel or the
/// local app where there is none.
pub open spec fn variables_run(i: int, log: Seq<ReplyView>, at: int) -> ProgressView<Seq<char>>
    decreases url_variables().len() - i,
{
    if i < 0 || i >= url_variables().len() {
        tunnel_or_local_run(log, at)
    } else if at >= log.len() {
        ProgressView::Pending(EffectView::ReadVariable(url_variables()[i]))
    } else {
        match log[at] {
            ReplyView::Text(Some(raw)) => {
                let value = text::trimmed(raw);
                match probe_target_view(value, normalized_view(value)) {
                    Some(base) => match base_reachable_run(base, log, at + 1) {
                        ProgressView::Ready { value: true, next } => ProgressView::Ready {
                            value: base,
                            next,
                        },
                        ProgressView::Ready { value: false, next } => variables_run(
                            i + 1,
                            log,
                            next,
                        ),
                        ProgressView::Pending(effect) => ProgressView::Pending(effect),
                        ProgressView::Failed(error) => ProgressView::Failed(error),
                    },
                    None => variables_run(i + 1, log, at + 1),
                }
            },
            ReplyView::Text(None) => variables_run(i + 1, log, at + 1),
            _ => replay::unexpected(at),
        }
    }
}

/// Settling on the app URL: the one that was given, or the first that is found and answers.
pub open spec fn resolve_run(
    given: Option<Seq<char>>,
    log: Seq<ReplyView>,
    at: int,
) -> ProgressView<Seq<char>> {
    match given {
        Some(raw) => match normalized_view(raw) {
            Ok(url) => ProgressView::Ready { value: url, next: at },
            Err(error) => ProgressView::Failed(error),
        },
        None => variables_run(0, log, at),
    }
}

/// Settles on the app URL for the canary client.
///
/// A URL that is given is taken, in normal form. Otherwise it is the first variable whose app
/// answers, then the tunnel, then the local app. In the end it is always an `http` or `https` URL
/// without a slash at its end, and a normal form as far as its host fits.
pub fn resolve_desktop_canary_app_url(app_url: Option<&str>, log: &[Reply], at: usize) -> (res:
    Progress<String>)
    ensures
        res.deep_view() == resolve_run(app_url.deep_view(), log.deep_view(), at as int),
        res matches Progress::Ready { value, .. } ==> is_web_url(value@),
        res matches Progress::Ready { value, .. } ==> host_fits(value@) ==> is_normal_form(value@),
{
    if let Some(raw) = app_url {
        return match normalize_desktop_app_url(raw) {
            Ok(url) => Progress::Ready { value: url, next: at },
            Err(error) => Progress::Failed(error),
        };
    }
    let mut i: usize = 0;
    let mut here: usize = at;
    while i < 3
        invariant
            i <= url_variables().len(),
            variables_run(0, log.deep_view(), at as int) == variables_run(
                i as int,
                log.deep_view(),
                here as int,
            ),
            app_url is None,
        decreases url_variables().len() - i,
    {
        if here >= log.len() {
            return Progress::Pending(Effect::ReadVariable(url_variable(i).to_owned()));
        }
        match &log[here] {
            Reply::Text(Some(raw)) => {
                let value = text::trim(raw.as_str());
                match probe_target(value, normalize_desktop_app_url(value)) {
                    Some(base) => match base_url_is_reachable(base.as_str(), log, here + 1) {
                        Progress::Ready { value, next } => {
                            if value {
                                return Progress::Ready { value: base, next };
                            }
                            here = next;
                        },
                        Progress::Pending(effect) => {
                            return Progress::Pending(effect);
                        },
                        Progress::Failed(error) => {
                            return Progress::Failed(error);
                        },
                    },
                    None => {
                        here = here + 1;
                    },
                }
            },
            Reply::Text(None) => {
                here = here + 1;
            },
            _ => {
                return Progress::Failed(DesktopError::UnexpectedReply { at: here });
            },
        }
        i = i + 1;
    }
    tunnel_or_local(log, here)
}

/// Settling on the tunnel or the local app uses its replies in order, and only those it needs.
pub proof fn law_tunnel_or_local_settles(log: Seq<ReplyView>, longer: Seq<ReplyView>, at: int)
    requires
        replay::extends(log, longer),
        0 <= at <= log.len(),
    ensures
        replay::settles(
            tunnel_or_local_run(log, at),
            tunnel_or_local_run(longer, at),
            at,
            log.len(),
        ),
{
}

/// Going through the variables uses its replies in order, and only those it needs.
pub proof fn law_variables_settle(i: int, log: Seq<ReplyView>, longer: Seq<ReplyView>, at: int)
    requires
        replay::extends(log, longer),
        0 <= at <= log.len(),
    ensures
        replay::settles(variables_run(i, log, at), variables_run(i, longer, at), at, log.len()),
    decreases url_variables().len() - i,
{
    if 0 <= i < url_variables().len() && at < longer.len() {
        if at < log.len() {
            law_variables_settle(i + 1, log, longer, at + 1);
        }
        if at + 1 < log.len() {
            law_variables_settle(i + 1, log, longer, at + 2);
        }
        law_variables_settle(i + 1, longer, longer, at + 1);
        if at + 1 < longer.len() {
            law_variables_settle(i + 1, longer, longer, at + 2);
        }
    } else {
        law_tunnel_or_local_settles(log, longer, at);
    }
}

/// Once the app URL is settled on, or refused, more replies do not change it.
pub proof fn law_resolution_settles(
    given: Option<Seq<char>>,
    log: Seq<ReplyView>,
    longer: Seq<ReplyView>,
    at: int,
)
    requires
        replay::extends(log, longer),
        0 <= at <= log.len(),
    ensures
        replay::settles(resolve_run(given, log, at), resolve_run(given, longer, at), at, log.len()),
{
    law_variables_settle(0, log, longer, at);
}

/// A URL that is given is taken or refused by itself: nothing is asked.
pub proof fn law_given_url_needs_no_question(raw: Seq<char>, log: Seq<ReplyView>, at: int)
    ensures
        resolve_run(Some(raw), log, at) == (match normalized_view(raw) {
            Ok(url) => ProgressView::Ready { value: url, next: at },
            Err(error) => ProgressView::Failed(error),
        }),
{
}

/// A variable that is not set, is blank, is no app URL or stands for the local stack is passed
/// over, and its app is not asked.
pub proof fn law_useless_variable_is_passed_over(
    i: int,
    value: Option<Seq<char>>,
    log: Seq<ReplyView>,
    at: int,
)
    requires
        0 <= i < url_variables().len(),
        0 <= at < log.len(),
        log[at] == ReplyView::Text(value),
        value matches Some(raw) ==> text::trimmed(raw).len() == 0 || normalized_view(
            text::trimmed(raw),
        ) is Err || is_local_view(normalized_view(text::trimmed(raw))),
    ensures
        variables_run(i, log, at) == variables_run(i + 1, log, at + 1),
{
}

/// The first variable whose app answers is taken, whatever the others hold.
pub proof fn law_first_answering_variable_wins(
    i: int,
    raw: Seq<char>,
    base: Seq<char>,
    status: Option<u16>,
    log: Seq<ReplyView>,
    at: int,
)
    requires
        0 <= i < url_variables().len(),
        0 <= at,
        at + 1 < log.len(),
        log[at] == ReplyView::Text(Some(raw)),
        probe_target_view(text::trimmed(raw), normalized_view(text::trimmed(raw))) == Some(base),
        log[at + 1] == ReplyView::Status(status),
        answers(status),
    ensures
        variables_run(i, log, at) == (ProgressView::Ready { value: base, next: at + 2 }),
{
}

/// Whether the reply `last`, to the question that `before` asked, shows that the app at `url`
/// answered.
pub open spec fn answered(
    url: Seq<char>,
    before: ProgressView<Seq<char>>,
    last: ReplyView,
) -> bool {
    &&& before == ProgressView::<Seq<char>>::Pending(health_check(url))
    &&& last matches ReplyView::Status(status) && answers(status)
}

proof fn lemma_found_url_is_local_or_answered(
    i: int,
    log: Seq<ReplyView>,
    at: int,
    url: Seq<char>,
    next: int,
)
    requires
        0 <= i <= url_variables().len(),
        0 <= at,
        variables_run(i, log, at) == (ProgressView::Ready { value: url, next }),
    ensures
        at < next <= log.len(),
        url == LOCAL_APP_URL@ || answered(
            url,
            variables_run(i, log.take(next - 1), at),
            log[next - 1],
        ),
    decreases url_variables().len() - i,
{
    if i < url_variables().len() {
        if let ReplyView::Text(Some(raw)) = log[at] {
            let value = text::trimmed(raw);
            if let Some(base) = probe_target_view(value, normalized_view(value)) {
                if !(base_reachable_run(base, log, at + 1) matches ProgressView::Ready {
                    value: true,
                    ..
                }) {
                    lemma_found_url_is_local_or_answered(i + 1, log, at + 2, url, next);
                }
            } else {
                lemma_found_url_is_local_or_answered(i + 1, log, at + 1, url, next);
            }
        } else {
            lemma_found_url_is_local_or_answered(i + 1, log, at + 1, url, next);
        }
    }
}

/// A URL that was found and not given is that of the local app, or its app was asked last and
/// answered.
pub proof fn law_found_url_is_local_or_answered(
    log: Seq<ReplyView>,
    at: int,
    url: Seq<char>,
    next: int,
)
    requires
        0 <= at,
        resolve_run(None, log, at) == (ProgressView::Ready { value: url, next }),
    ensures
        at < next <= log.len(),
        url == LOCAL_APP_URL@ || answered(
            url,
            resolve_run(None, log.take(next - 1), at),
            log[next - 1],
        ),
{
    lemma_found_url_is_local_or_answered(0, log, at, url, next);
}

/// Looking for a URL from the variable at position `i` on takes at most two replies for each
/// variable and for the tunnel.
pub proof fn law_search_ends(i: int, log: Seq<ReplyView>, at: int)
    requires
        0 <= i <= url_variables().len(),
        0 <= at,
        at + 2 + 2 * (url_variables().len() - i) <= log.len(),
    ensures
        match variables_run(i, log, at) {
            ProgressView::Pending(_) => false,
            ProgressView::Failed(_) => true,
            ProgressView::Ready { next, .. } => at < next <= at + 2 + 2 * (url_variables().len()
                - i),
        },
    decreases url_variables().len() - i,
{
    if i < url_variables().len() {
        law_search_ends(i + 1, log, at + 1);
        law_search_ends(i + 1, log, at + 2);
    }
}

/// Where no URL is given there is always one in the end: the search fails only on a reply that does
/// not fit.
pub proof fn law_search_falls_back(i: int, log: Seq<ReplyView>, at: int)
    requires
        0 <= i <= url_variables().len(),
    ensures
        variables_run(i, log, at) matches ProgressView::Failed(error) ==> error is UnexpectedReply,
    decreases url_variables().len() - i,
{
    if i < url_variables().len() {
        law_search_falls_back(i + 1, log, at + 1);
        law_search_falls_back(i + 1, log, at + 2);
    }
}

/// Text is accepted as an app URL exactly where it parses to an `http` or `https` URL, and it is
/// that URL without slashes at its end. Another scheme is refused by its name, and what does not
/// parse by the text as it was given and the reason.
pub proof fn law_accepted_urls(
    raw: Seq<char>,
    scheme: Seq<char>,
    href: Seq<char>,
    cause: Seq<char>,
)
    ensures
        scheme == "http"@ || scheme == "https"@ ==> app_url_view(raw, Ok((scheme, href))) == Ok::<
            Seq<char>,
            DesktopErrorView,
        >(text::without_trailing_slashes(href)),
        scheme != "http"@ && scheme != "https"@ ==> app_url_view(raw, Ok((scheme, href))) == Err::<
            Seq<char>,
            DesktopErrorView,
        >(DesktopErrorView::UnsupportedScheme { scheme }),
        app_url_view(raw, Err(cause)) == Err::<Seq<char>, DesktopErrorView>(
            DesktopErrorView::InvalidAppUrl { raw, cause },
        ),
{
}

/// What is parsed is the text without white space around it, so that two texts which differ only
/// there have the same normal form or are both refused.
pub proof fn law_outer_white_space_does_not_matter(raw: Seq<char>, other: Seq<char>)
    requires
        text::trimmed(raw) == text::trimmed(other),
    ensures
        normalized_view(raw) == app_url_view(raw, url_parse(text::trimmed(raw))),
        normalized_view(raw) matches Ok(url) ==> normalized_view(other) == Ok::<
            Seq<char>,
            DesktopErrorView,
        >(url),
        normalized_view(raw) is Err ==> normalized_view(other) is Err,
{
}

/// The local development stack has exactly two URLs.
pub proof fn law_local_urls(normalized: Result<Seq<char>, DesktopErrorView>)
    ensures
        is_local_view(normalized) <==> (normalized matches Ok(url) && (url
            == "http://localhost:8088"@ || url == "http://127.0.0.1:8088"@)),
{
}

/// An app URL is `http://` or `https://`, a host, and no slash at its end.
pub proof fn law_web_urls(url: Seq<char>)
    ensures
        is_web_url(url) ==> url.last() != '/',
        is_web_url(url) ==> {
            ||| "http://"@.is_prefix_of(url) && url.len() > 7 && url[7] != '/'
            ||| "https://"@.is_prefix_of(url) && url.len() > 8 && url[8] != '/'
        },
        web_scheme("http"@),
        web_scheme("https"@),
{
    reveal_strlit("http");
    reveal_strlit("https");
    reveal_strlit("://");
    reveal_strlit("http://");
    reveal_strlit("https://");
    assert("http"@ + "://"@ =~= "http://"@);
    assert("https"@ + "://"@ =~= "https://"@);
}

/// A value has to answer exactly where it is not blank, is an app URL and does not stand for the
/// local stack; what has to answer is its normal form.
pub proof fn law_values_that_have_to_answer(
    value: Seq<char>,
    normalized: Result<Seq<char>, DesktopErrorView>,
    base: Seq<char>,
)
    ensures
        probe_target_view(value, normalized) == Some(base) <==> {
            &&& value.len() > 0
            &&& normalized == Ok::<Seq<char>, DesktopErrorView>(base)
            &&& base != "http://localhost:8088"@
            &&& base != "http://127.0.0.1:8088"@
        },
{
}

/// Only a response with a status from 200 to 299 is an answer.
pub proof fn law_only_success_is_an_answer(status: Option<u16>)
    ensures
        answers(status) <==> (status matches Some(code) && 200 <= code <= 299),
{
}

/// The app at a URL is asked at its health endpoint, with three seconds for the response, and is up
/// exactly where that is a success.
pub proof fn law_health_is_asked_for(base: Seq<char>, log: Seq<ReplyView>, at: int)
    ensures
        at >= log.len() ==> base_reachable_run(base, log, at) == ProgressView::<bool>::Pending(
            EffectView::Fetch { url: base + "/gateway/_health"@, timeout_secs: 3 },
        ),
        health_check(base) == (EffectView::Fetch {
            url: base + "/gateway/_health"@,
            timeout_secs: 3,
        }),
        at < log.len() ==> (log[at] matches ReplyView::Status(status) ==> base_reachable_run(
            base,
            log,
            at,
        ) == (ProgressView::Ready {
            value: status matches Some(code) && 200 <= code <= 299,
            next: at + 1,
        })),
        at < log.len() && !(log[at] is Status) ==> base_reachable_run(base, log, at)
            == ProgressView::<bool>::Failed(DesktopErrorView::UnexpectedReply { at: at as usize }),
{
}

/// Text that is an app URL is asked for by its normal form; any other is not up, and not asked.
pub proof fn law_only_app_urls_are_asked(
    raw: Seq<char>,
    base: Seq<char>,
    log: Seq<ReplyView>,
    at: int,
)
    ensures
        normalized_view(raw) == Ok::<Seq<char>, DesktopErrorView>(base) ==> reachable_run(
            raw,
            log,
            at,
        ) == base_reachable_run(base, log, at),
        normalized_view(raw) is Err ==> reachable_run(raw, log, at) == (ProgressView::Ready {
            value: false,
            next: at,
        }),
{
}

/// The tunnel is looked for, and its URL is taken in normal form where the app answers there. In
/// every other case it is the local app.
pub proof fn law_tunnel_or_local(
    raw: Seq<char>,
    base: Seq<char>,
    status: Option<u16>,
    log: Seq<ReplyView>,
    at: int,
)
    requires
        0 <= at,
    ensures
        at >= log.len() ==> tunnel_or_local_run(log, at) == ProgressView::<Seq<char>>::Pending(
            EffectView::FindTunnelUrl,
        ),
        at < log.len() && log[at] == ReplyView::Text(None) ==> tunnel_or_local_run(log, at) == (
        ProgressView::Ready { value: "http://localhost:8088"@, next: at + 1 }),
        at < log.len() && log[at] == ReplyView::Text(Some(raw)) && normalized_view(raw) is Err
            ==> tunnel_or_local_run(log, at) == (ProgressView::Ready {
            value: "http://localhost:8088"@,
            next: at + 1,
        }),
        at < log.len() && log[at] == ReplyView::Text(Some(raw)) && normalized_view(raw) == Ok::<
            Seq<char>,
            DesktopErrorView,
        >(base) ==> {
            &&& at + 1 >= log.len() ==> tunnel_or_local_run(log, at)
                == ProgressView::<Seq<char>>::Pending(
                EffectView::Fetch { url: base + "/gateway/_health"@, timeout_secs: 3 },
            )
            &&& at + 1 < log.len() && log[at + 1] == ReplyView::Status(status) ==> {
                &&& (status matches Some(code) && 200 <= code <= 299) ==> tunnel_or_local_run(
                    log,
                    at,
                ) == (ProgressView::Ready { value: base, next: at + 2 })
                &&& !(status matches Some(code) && 200 <= code <= 299) ==> tunnel_or_local_run(
                    log,
                    at,
                ) == (ProgressView::Ready { value: "http://localhost:8088"@, next: at + 2 })
            }
            &&& at + 1 < log.len() && !(log[at + 1] is Status) ==> tunnel_or_local_run(log, at)
                == ProgressView::<Seq<char>>::Failed(
                DesktopErrorView::UnexpectedReply { at: (at + 1) as usize },
            )
        },
        at < log.len() && !(log[at] is Text) ==> tunnel_or_local_run(log, at)
            == ProgressView::<Seq<char>>::Failed(
            DesktopErrorView::UnexpectedReply { at: at as usize },
        ),
{
}

/// The variables are read one after the other, the one for the canary client first, and the tunnel
/// is looked for behind the last.
pub proof fn law_variables_are_read_in_order(log: Seq<ReplyView>, at: int)
    requires
        at >= log.len(),
    ensures
        variables_run(0, log, at) == ProgressView::<Seq<char>>::Pending(
            EffectView::ReadVariable("FLUXER_DESKTOP_CANARY_APP_URL"@),
        ),
        variables_run(1, log, at) == ProgressView::<Seq<char>>::Pending(
            EffectView::ReadVariable("FLUXER_DESKTOP_APP_URL"@),
        ),
        variables_run(2, log, at) == ProgressView::<Seq<char>>::Pending(
            EffectView::ReadVariable("FLUXER_PUBLIC_URL"@),
        ),
        variables_run(3, log, at) == tunnel_or_local_run(log, at),
        url_variables().len() == 3,
{
}

/// Behind the last variable it is the tunnel or the local app, whatever the replies are.
pub proof fn law_tunnel_comes_behind_the_variables(log: Seq<ReplyView>, at: int)
    ensures
        variables_run(3, log, at) == tunnel_or_local_run(log, at),
{
}

/// A variable that is not set is followed by the next one, and so is one that is blank, is no app
/// URL or stands for the local stack: no app is asked for it.
pub proof fn law_variable_without_a_public_url_is_followed_by_the_next(
    i: int,
    raw: Seq<char>,
    log: Seq<ReplyView>,
    at: int,
)
    requires
        0 <= i < 3,
        0 <= at < log.len(),
        log[at] == ReplyView::Text(None) || (log[at] == ReplyView::Text(Some(raw)) && (
        text::trimmed(raw).len() == 0 || normalized_view(text::trimmed(raw)) is Err
            || normalized_view(text::trimmed(raw)) == Ok::<Seq<char>, DesktopErrorView>(
            "http://localhost:8088"@,
        ) || normalized_view(text::trimmed(raw)) == Ok::<Seq<char>, DesktopErrorView>(
            "http://127.0.0.1:8088"@,
        ))),
    ensures
        variables_run(i, log, at) == variables_run(i + 1, log, at + 1),
{
}

/// The app of a variable with a public URL is asked for its health. Where it answers with success,
/// that URL is taken; whatever else it answers, and where it does not, the next variable follows.
pub proof fn law_variable_is_taken_or_followed_by_the_next(
    i: int,
    raw: Seq<char>,
    base: Seq<char>,
    status: Option<u16>,
    log: Seq<ReplyView>,
    at: int,
)
    requires
        0 <= i < 3,
        0 <= at < log.len(),
        log[at] == ReplyView::Text(Some(raw)),
        text::trimmed(raw).len() > 0,
        normalized_view(text::trimmed(raw)) == Ok::<Seq<char>, DesktopErrorView>(base),
        base != "http://localhost:8088"@,
        base != "http://127.0.0.1:8088"@,
    ensures
        at + 1 == log.len() ==> variables_run(i, log, at) == ProgressView::<Seq<char>>::Pending(
            EffectView::Fetch { url: base + "/gateway/_health"@, timeout_secs: 3 },
        ),
        at + 1 < log.len() && log[at + 1] == ReplyView::Status(status) ==> {
            &&& (status matches Some(code) && 200 <= code <= 299) ==> variables_run(i, log, at) == (
            ProgressView::Ready { value: base, next: at + 2 })
            &&& !(status matches Some(code) && 200 <= code <= 299) ==> variables_run(i, log, at)
                == variables_run(i + 1, log, at + 2)
        },
        at + 1 < log.len() && !(log[at + 1] is Status) ==> variables_run(i, log, at)
            == ProgressView::<Seq<char>>::Failed(
            DesktopErrorView::UnexpectedReply { at: (at + 1) as usize },
        ),
{
}

/// A reply that is no text does not fit the question for a variable.
pub proof fn law_variables_are_text(i: int, log: Seq<ReplyView>, at: int)
    requires
        0 <= i < 3,
        0 <= at < log.len(),
        !(log[at] is Text),
    ensures
        variables_run(i, log, at) == ProgressView::<Seq<char>>::Failed(
            DesktopErrorView::UnexpectedReply { at: at as usize },
        ),
{
}

/// A URL that is given is the normal form of it or its error, at once. Without one the variables
/// are gone through from the first.
pub proof fn law_given_or_searched(
    raw: Seq<char>,
    url: Seq<char>,
    error: DesktopErrorView,
    log: Seq<ReplyView>,
    at: int,
)
    ensures
        normalized_view(raw) == Ok::<Seq<char>, DesktopErrorView>(url) ==> resolve_run(
            Some(raw),
            log,
            at,
        ) == (ProgressView::Ready { value: url, next: at }),
        normalized_view(raw) == Err::<Seq<char>, DesktopErrorView>(error) ==> resolve_run(
            Some(raw),
            log,
            at,
        ) == ProgressView::<Seq<char>>::Failed(error),
        resolve_run(None, log, at) == variables_run(0, log, at),
{
}

/// The views of parsing and of normalizing keep the texts and the error.
pub proof fn law_outcome_views(
    parsed: Result<UrlParts, String>,
    normalized: Result<String, DesktopError>,
)
    ensures
        parsed matches Ok(parts) ==> parts_view(parsed) == Ok::<(Seq<char>, Seq<char>), Seq<char>>(
            (parts.scheme@, parts.href@),
        ),
        parsed matches Err(cause) ==> parts_view(parsed) == Err::<
            (Seq<char>, Seq<char>),
            Seq<char>,
        >(cause@),
        normalized matches Ok(url) ==> result_view(normalized) == Ok::<
            Seq<char>,
            DesktopErrorView,
        >(url@),
        normalized matches Err(error) ==> result_view(normalized) == Err::<
            Seq<char>,
            DesktopErrorView,
        >(error.deep_view()),
{
}

} // verus!
