//! What holds of the client across its operations.
use vstd::prelude::*;
use crate::client::{
    base_url_for, body_text_or_empty, delete_accepted, enabled_or_once, is_success, login_accepted,
    reply_error, success_value, AuthView, BodyView, ClientView, Method, RequestView,
};
use crate::error::ErrorView;
use crate::json::{escape_char, hex_digit, json_escape, json_quoted, json_syntax_error, json_value};
use crate::text::{has_http_prefix, trim_trailing_slashes};
use crate::transport::TransportSettings;

verus! {

/// Dropping trailing slashes keeps a leading `http`, and leaves either
/// nothing or a last character other than `/`.
proof fn lemma_trim_trailing_slashes(s: Seq<char>)
    ensures
        has_http_prefix(s) ==> has_http_prefix(trim_trailing_slashes(s)),
        trim_trailing_slashes(s).len() == 0 || trim_trailing_slashes(s).last() != '/',
        trim_trailing_slashes(s).len() <= s.len(),
    decreases s.len(),
{
    if s.len() > 0 && s.last() == '/' {
        lemma_trim_trailing_slashes(s.drop_last());
    }
}

/// Every base URL begins with `http`, whatever the host.
pub proof fn law_base_url_is_absolute(host: Seq<char>)
    ensures
        has_http_prefix(base_url_for(host)),
{
    lemma_trim_trailing_slashes(host);
    reveal_strlit("https://");
}

/// A base URL never ends with a slash, so a path that begins with one is
/// joined to it without doubling it; this needs a host that is more than
/// slashes.
pub proof fn law_base_url_has_no_trailing_slash(host: Seq<char>)
    requires
        trim_trailing_slashes(host).len() > 0,
    ensures
        base_url_for(host).len() > 0,
        base_url_for(host).last() != '/',
{
    lemma_trim_trailing_slashes(host);
    let t = trim_trailing_slashes(host);
    assert(("https://"@ + t).last() == t.last());
}

/// A new client keeps the client invariant.
pub proof fn law_new_client_is_well_formed(
    host: Seq<char>,
    username: Seq<char>,
    password: Seq<char>,
    settings: TransportSettings,
)
    ensures
        (ClientView {
            base_url: base_url_for(host),
            username,
            password,
            session_token: None,
            session_uri: None,
            settings,
        }).wf(),
{
    law_base_url_is_absolute(host);
}

/// Opening and closing a session keep the client invariant.
pub proof fn law_sessions_keep_well_formedness(c: ClientView, token: Seq<char>, uri: Option<Seq<char>>)
    requires
        c.wf(),
    ensures
        c.with_session(token, uri).wf(),
        c.without_session().wf(),
{
}

/// Every request of a well-formed client goes to an absolute `http` URL.
pub proof fn law_requests_go_to_absolute_urls(c: ClientView, method: Method, path: Seq<char>, body: BodyView)
    requires
        c.wf(),
    ensures
        has_http_prefix(c.request(method, path, body).url),
        has_http_prefix(c.resource_request(method, path, body).url),
        has_http_prefix(c.login_request().url),
        c.logout_request() matches Some(q) ==> has_http_prefix(q.url),
{
    assert((c.base_url + path)[0] == c.base_url[0]);
    assert((c.base_url + path)[3] == c.base_url[3]);
    assert((c.base_url + path)[1] == c.base_url[1]);
    assert((c.base_url + path)[2] == c.base_url[2]);
    let l = "/redfish/v1/SessionService/Sessions"@;
    assert((c.base_url + l)[0] == c.base_url[0]);
    assert((c.base_url + l)[1] == c.base_url[1]);
    assert((c.base_url + l)[2] == c.base_url[2]);
    assert((c.base_url + l)[3] == c.base_url[3]);
    if let Some(u) = c.session_uri {
        assert((c.base_url + u)[0] == c.base_url[0]);
        assert((c.base_url + u)[1] == c.base_url[1]);
        assert((c.base_url + u)[2] == c.base_url[2]);
        assert((c.base_url + u)[3] == c.base_url[3]);
    }
}

/// A path that begins with `/` is read under the base URL; one that begins
/// with `http` is taken as the URL itself.
pub proof fn law_paths_resolve_against_the_base(c: ClientView, method: Method, path: Seq<char>, body: BodyView)
    ensures
        path.len() > 0 && path[0] == '/' ==> c.request(method, path, body) == c.resource_request(method, path, body),
        has_http_prefix(path) ==> c.request(method, path, body).url == path,
{
}

/// Once a session is open, requests carry its token.
pub proof fn law_open_session_authenticates_by_token(c: ClientView, token: Seq<char>, uri: Option<Seq<char>>)
    ensures
        c.with_session(token, uri).auth() == AuthView::Token(token),
{
}

/// Once the session is closed, requests fall back to Basic authentication
/// with the client's credentials, and there is nothing left to close.
pub proof fn law_closed_session_falls_back_to_basic(c: ClientView)
    ensures
        c.without_session().auth() == AuthView::Basic(c.username, c.password),
        c.without_session().logout_request() is None,
        c.without_session().without_session() == c.without_session(),
{
}

/// Logging out after logging in leaves the client as logging out alone
/// would, and when the service gave a session URI the logout deletes that
/// session with its token.
pub proof fn law_logout_undoes_login(c: ClientView, token: Seq<char>, uri: Option<Seq<char>>)
    ensures
        c.with_session(token, uri).without_session() == c.without_session(),
        uri matches Some(u) ==> c.with_session(token, uri).logout_request() == Some(
            RequestView {
                method: Method::Delete,
                url: c.resolve(u),
                auth: AuthView::Token(token),
                body: BodyView::Empty,
            },
        ),
        uri is None ==> c.with_session(token, uri).logout_request() is None,
{
}

/// A logout sends a request exactly when the service gave a session URI.
pub proof fn law_logout_request_iff_session_uri(c: ClientView)
    requires
        c.wf(),
    ensures
        c.logout_request() is Some <==> c.session_uri is Some,
{
}

/// A deletion is accepted at exactly the success statuses; 204 is one of them.
pub proof fn law_delete_accepted_at_success(status: u16)
    ensures
        delete_accepted(status) == is_success(status),
{
}

/// A reply yields a value only at a success status; an empty body at a
/// success status always does; 404 and 401 give their own errors, and every
/// other failure status gives an API error that carries the status.
pub proof fn law_reply_outcomes(status: u16, url: Seq<char>, body: Option<Seq<char>>)
    ensures
        reply_error(status, url, body) is None ==> is_success(status),
        is_success(status) ==> reply_error(status, url, Some(Seq::<char>::empty())) is None,
        status == 404 ==> reply_error(status, url, body) == Some(ErrorView::NotFound(url)),
        status == 401 ==> reply_error(status, url, body) == Some(ErrorView::SessionExpired),
        !is_success(status) && status != 404 && status != 401 ==> reply_error(status, url, body) == Some(
            ErrorView::Api { status, message: body_text_or_empty(body) },
        ),
{
}

/// Escaping distributes over concatenation.
proof fn lemma_escape_append(a: Seq<char>, b: Seq<char>)
    ensures
        json_escape(a + b) == json_escape(a) + json_escape(b),
    decreases b.len(),
{
    if b.len() == 0 {
        assert(a + b =~= a);
        assert(json_escape(a) + json_escape(b) =~= json_escape(a));
    } else {
        lemma_escape_append(a, b.drop_last());
        assert((a + b).drop_last() =~= a + b.drop_last());
        assert((a + b).last() == b.last());
        assert(json_escape(a) + json_escape(b) =~= json_escape(a) + json_escape(b.drop_last()) + escape_char(b.last()));
    }
}

/// The escaped form of a non-empty string begins with its first character's.
proof fn lemma_escape_first(s: Seq<char>)
    requires
        s.len() > 0,
    ensures
        json_escape(s) == escape_char(s[0]) + json_escape(s.skip(1)),
{
    let head = seq![s[0]];
    assert(s =~= head + s.skip(1));
    lemma_escape_append(head, s.skip(1));
    assert(head.drop_last() =~= Seq::<char>::empty());
    assert(head.last() == s[0]);
    assert(json_escape(head.drop_last()) =~= Seq::<char>::empty());
    assert(json_escape(head) =~= json_escape(head.drop_last()) + escape_char(head.last()));
    assert(json_escape(head) =~= escape_char(s[0]));
}

proof fn lemma_hex_digit_injective(x: int, y: int)
    requires
        0 <= x < 16,
        0 <= y < 16,
        hex_digit(x) == hex_digit(y),
    ensures
        x == y,
{
}

/// No character's escaped form is a prefix of another's: the first
/// characters of two equal escaped texts are the same.
proof fn lemma_escape_char_prefix_free(c: char, d: char, rest1: Seq<char>, rest2: Seq<char>)
    requires
        escape_char(c) + rest1 == escape_char(d) + rest2,
    ensures
        c == d,
        rest1 == rest2,
{
    let t1 = escape_char(c) + rest1;
    let t2 = escape_char(d) + rest2;
    assert(t1[0] == escape_char(c)[0]);
    assert(t2[0] == escape_char(d)[0]);
    if escape_char(c).len() >= 2 {
        assert(t1[1] == escape_char(c)[1]);
        assert(t2[1] == escape_char(d)[1]);
    }
    if escape_char(c).len() == 6 {
        assert(t1[4] == escape_char(c)[4]);
        assert(t1[5] == escape_char(c)[5]);
        assert(t2[4] == escape_char(d)[4]);
        assert(t2[5] == escape_char(d)[5]);
        lemma_hex_digit_injective((c as int) / 16, (d as int) / 16);
        lemma_hex_digit_injective((c as int) % 16, (d as int) % 16);
        assert(c as int == d as int);
    }
    assert(c == d);
    assert(rest1 =~= t1.skip(escape_char(c).len() as int));
    assert(rest2 =~= t2.skip(escape_char(d).len() as int));
}

proof fn lemma_escape_injective(a: Seq<char>, b: Seq<char>)
    requires
        json_escape(a) == json_escape(b),
    ensures
        a == b,
    decreases a.len(),
{
    if a.len() == 0 {
        assert(json_escape(a) =~= Seq::<char>::empty());
        if b.len() > 0 {
            lemma_escape_first(b);
            assert(escape_char(b[0]).len() > 0);
            assert(json_escape(b).len() > 0);
            assert(false);
        }
        assert(a =~= b);
    } else {
        lemma_escape_first(a);
        if b.len() == 0 {
            assert(false);
        }
        lemma_escape_first(b);
        lemma_escape_char_prefix_free(a[0], b[0], json_escape(a.skip(1)), json_escape(b.skip(1)));
        lemma_escape_injective(a.skip(1), b.skip(1));
        assert(a =~= seq![a[0]] + a.skip(1));
        assert(b =~= seq![b[0]] + b.skip(1));
    }
}

/// Different strings are written as different JSON string literals: a body
/// names exactly the value that was given to it.
pub proof fn law_quoting_is_injective(a: Seq<char>, b: Seq<char>)
    ensures
        json_quoted(a) == json_quoted(b) ==> a == b,
{
    if json_quoted(a) == json_quoted(b) {
        let qa = json_quoted(a);
        let qb = json_quoted(b);
        assert(json_escape(a) =~= qa.subrange(1, qa.len() - 1));
        assert(json_escape(b) =~= qb.subrange(1, qb.len() - 1));
        lemma_escape_injective(a, b);
    }
}

/// The success statuses are the numbers 200 to 299: a read, an action or a
/// deletion succeeds at every one of them, 202 and 204 included; a session
/// is opened at 200 and 201 only.
pub proof fn law_success_statuses_are_200_to_299(status: u16)
    ensures
        is_success(status) <==> (200 <= status && status <= 299),
        delete_accepted(status) <==> (200 <= status && status <= 299),
        login_accepted(status) <==> (status == 200 || status == 201),
{
}

/// How every reply to a read or an action is judged, by its status and
/// body: at 200 to 299 an empty body yields JSON null and any other body
/// yields the value it parses to, or the parser's error; a body that could
/// not be read is a transport error; 404 names the URL, 401 is an expired
/// session, and every other status is an API error carrying the status and
/// the body (empty when it could not be read).
pub proof fn law_reply_judgement(status: u16, url: Seq<char>, body: Option<Seq<char>>)
    ensures
        200 <= status <= 299 && body == Some(Seq::<char>::empty()) ==> reply_error(status, url, body) is None
            && success_value(Seq::<char>::empty()) == json_value(seq!['n', 'u', 'l', 'l']),
        body matches Some(t) ==> (200 <= status <= 299 && t.len() > 0 && json_syntax_error(t) is None
            ==> reply_error(status, url, body) is None && success_value(t) == json_value(t)),
        body matches Some(t) ==> (200 <= status <= 299 && t.len() > 0 ==> (json_syntax_error(t) matches Some(m)
            ==> reply_error(status, url, body) == Some(ErrorView::Parse(m)))),
        200 <= status <= 299 && body is None ==> reply_error(status, url, body) == Some(ErrorView::Http),
        status == 404 ==> reply_error(status, url, body) == Some(ErrorView::NotFound(url)),
        status == 401 ==> reply_error(status, url, body) == Some(ErrorView::SessionExpired),
        !(200 <= status <= 299) && status != 404 && status != 401 ==> reply_error(status, url, body) == Some(
            ErrorView::Api {
                status,
                message: match body {
                    Some(t) => t,
                    None => Seq::empty(),
                },
            },
        ),
{
    reveal_strlit("null");
    assert("null"@ =~= seq!['n', 'u', 'l', 'l']);
}

/// How each character is written inside a JSON string literal: quote and
/// backslash get a backslash, the control characters below U+0020 get their
/// short escape or `\u00` with two lower-case hexadecimal digits, and every
/// other character is written as it is.
pub proof fn law_escape_char(c: char)
    ensures
        c == '"' ==> escape_char(c) == seq!['\\', '"'],
        c == '\\' ==> escape_char(c) == seq!['\\', '\\'],
        c == '\u{8}' ==> escape_char(c) == seq!['\\', 'b'],
        c == '\u{c}' ==> escape_char(c) == seq!['\\', 'f'],
        c == '\n' ==> escape_char(c) == seq!['\\', 'n'],
        c == '\r' ==> escape_char(c) == seq!['\\', 'r'],
        c == '\t' ==> escape_char(c) == seq!['\\', 't'],
        (c as int) < 0x20 && c != '\u{8}' && c != '\u{c}' && c != '\n' && c != '\r' && c != '\t' ==> {
            &&& escape_char(c).len() == 6
            &&& escape_char(c).subrange(0, 4) == seq!['\\', 'u', '0', '0']
            &&& escape_char(c)[4] == (if (c as int) < 16 { '0' } else { '1' })
            &&& (escape_char(c)[5] as int) == (if (c as int) % 16 < 10 {
                48 + (c as int) % 16
            } else {
                87 + (c as int) % 16
            })
        },
        c != '"' && c != '\\' && (c as int) >= 0x20 ==> escape_char(c) == seq![c],
{
    if (c as int) < 0x20 && c != '\u{8}' && c != '\u{c}' && c != '\n' && c != '\r' && c != '\t' {
        assert(escape_char(c).subrange(0, 4) =~= seq!['\\', 'u', '0', '0']);
    }
}

/// A string with no quote, backslash or control character is written as it
/// is, between quotes.
pub proof fn law_plain_strings_are_quoted_as_they_are(s: Seq<char>)
    requires
        forall|i: int| 0 <= i < s.len() ==> s[i] != '"' && s[i] != '\\' && (s[i] as int) >= 0x20,
    ensures
        json_escape(s) == s,
        json_quoted(s) == seq!['"'] + s + seq!['"'],
    decreases s.len(),
{
    if s.len() > 0 {
        law_plain_strings_are_quoted_as_they_are(s.drop_last());
        assert(escape_char(s.last()) =~= seq![s.last()]);
        assert(s.drop_last() + seq![s.last()] =~= s);
    } else {
        assert(json_escape(s) =~= s);
    }
}

/// Dropping trailing slashes keeps a prefix of the string, drops only
/// slashes, and leaves no slash at the end.
pub proof fn law_trim_trailing_slashes(s: Seq<char>)
    ensures
        trim_trailing_slashes(s) == s.subrange(0, trim_trailing_slashes(s).len() as int),
        forall|i: int| trim_trailing_slashes(s).len() <= i < s.len() ==> s[i] == '/',
        trim_trailing_slashes(s).len() == 0 || trim_trailing_slashes(s).last() != '/',
    decreases s.len(),
{
    lemma_trim_trailing_slashes(s);
    if s.len() > 0 && s.last() == '/' {
        law_trim_trailing_slashes(s.drop_last());
        lemma_trim_trailing_slashes(s.drop_last());
        let t = trim_trailing_slashes(s);
        assert(t == trim_trailing_slashes(s.drop_last()));
        assert(t.len() <= s.drop_last().len());
        assert(t == s.drop_last().subrange(0, t.len() as int));
        assert(s.drop_last().subrange(0, t.len() as int) =~= s.subrange(0, t.len() as int));
        assert forall|i: int| t.len() <= i < s.len() implies s[i] == '/' by {
            if i < s.len() - 1 {
                assert(s.drop_last()[i] == s[i]);
            }
        }
    } else {
        assert(s.subrange(0, s.len() as int) =~= s);
    }
}

/// The base URL of a host: a host that begins with `http://` or `https://`
/// is kept (without its trailing slashes); any other host, an IP address
/// or a host name with or without a port, is reached at `https://` and the
/// host.
pub proof fn law_base_url_for_host(host: Seq<char>)
    ensures
        (host.len() >= 7 && host.subrange(0, 7) == seq!['h', 't', 't', 'p', ':', '/', '/']) || (host.len() >= 8
            && host.subrange(0, 8) == seq!['h', 't', 't', 'p', 's', ':', '/', '/']) ==> base_url_for(host)
            == trim_trailing_slashes(host),
        !((host.len() >= 7 && host.subrange(0, 7) == seq!['h', 't', 't', 'p', ':', '/', '/']) || (host.len() >= 8
            && host.subrange(0, 8) == seq!['h', 't', 't', 'p', 's', ':', '/', '/'])) ==> base_url_for(host) == seq![
            'h',
            't',
            't',
            'p',
            's',
            ':',
            '/',
            '/',
        ] + trim_trailing_slashes(host),
{
    reveal_strlit("https://");
    assert("https://"@ =~= seq!['h', 't', 't', 'p', 's', ':', '/', '/']);
    if host.len() >= 7 && host.subrange(0, 7) == seq!['h', 't', 't', 'p', ':', '/', '/'] {
        assert(host[0] == host.subrange(0, 7)[0]);
        assert(host[1] == host.subrange(0, 7)[1]);
        assert(host[2] == host.subrange(0, 7)[2]);
        assert(host[3] == host.subrange(0, 7)[3]);
        assert(host[4] == host.subrange(0, 7)[4]);
        assert(host[5] == host.subrange(0, 7)[5]);
        assert(host[6] == host.subrange(0, 7)[6]);
    }
    if host.len() >= 8 && host.subrange(0, 8) == seq!['h', 't', 't', 'p', 's', ':', '/', '/'] {
        assert(host[0] == host.subrange(0, 8)[0]);
        assert(host[1] == host.subrange(0, 8)[1]);
        assert(host[2] == host.subrange(0, 8)[2]);
        assert(host[3] == host.subrange(0, 8)[3]);
        assert(host[4] == host.subrange(0, 8)[4]);
        assert(host[5] == host.subrange(0, 8)[5]);
        assert(host[6] == host.subrange(0, 8)[6]);
        assert(host[7] == host.subrange(0, 8)[7]);
    }
    if host.len() >= 7 && host[0] == 'h' && host[1] == 't' && host[2] == 't' && host[3] == 'p' && host[4] == ':'
        && host[5] == '/' && host[6] == '/' {
        assert(host.subrange(0, 7) =~= seq!['h', 't', 't', 'p', ':', '/', '/']);
    }
    if host.len() >= 8 && host[0] == 'h' && host[1] == 't' && host[2] == 't' && host[3] == 'p' && host[4] == 's'
        && host[5] == ':' && host[6] == '/' && host[7] == '/' {
        assert(host.subrange(0, 8) =~= seq!['h', 't', 't', 'p', 's', ':', '/', '/']);
    }
}

/// The URL of a path: one that begins with `http` is taken as it is, any
/// other is appended to the base URL.
pub proof fn law_resolve(c: ClientView, path: Seq<char>)
    ensures
        path.len() >= 4 && path.subrange(0, 4) == seq!['h', 't', 't', 'p'] ==> c.resolve(path) == path,
        !(path.len() >= 4 && path.subrange(0, 4) == seq!['h', 't', 't', 'p']) ==> c.resolve(path) == c.base_url
            + path,
{
    if path.len() >= 4 && path.subrange(0, 4) == seq!['h', 't', 't', 'p'] {
        assert(path[0] == path.subrange(0, 4)[0]);
        assert(path[1] == path.subrange(0, 4)[1]);
        assert(path[2] == path.subrange(0, 4)[2]);
        assert(path[3] == path.subrange(0, 4)[3]);
    }
    if path.len() >= 4 && path[0] == 'h' && path[1] == 't' && path[2] == 't' && path[3] == 'p' {
        assert(path.subrange(0, 4) =~= seq!['h', 't', 't', 'p']);
    }
}

/// A boot override patches the system with the given target and setting:
/// a given `enabled` value is sent as it is, `Once` only when none is given,
/// and the body names both, the setting first.
pub proof fn law_boot_override_request(
    c: ClientView,
    system_id: Seq<char>,
    target: Seq<char>,
    enabled: Option<&str>,
    setting: Seq<char>,
)
    ensures
        enabled matches Some(e) ==> enabled_or_once(enabled) == e@,
        enabled is None ==> enabled_or_once(enabled) == seq!['O', 'n', 'c', 'e'],
        c.boot_override_request(system_id, target, setting) == (RequestView {
            method: Method::Patch,
            url: c.base_url + "/redfish/v1/Systems/"@ + system_id,
            auth: c.auth(),
            body: BodyView::Json(
                "{"@ + json_quoted("Boot"@) + ":"@ + "{"@ + json_quoted("BootSourceOverrideEnabled"@) + ":"@
                    + json_quoted(setting) + ","@ + json_quoted("BootSourceOverrideTarget"@) + ":"@ + json_quoted(
                    target,
                ) + "}"@ + "}"@,
            ),
        }),
{
    reveal_strlit("Once");
    assert("Once"@ =~= seq!['O', 'n', 'c', 'e']);
    let r = c.boot_override_request(system_id, target, setting);
    assert(r.url =~= c.base_url + "/redfish/v1/Systems/"@ + system_id);
    match r.body {
        BodyView::Json(b) => {
            assert(b =~= "{"@ + json_quoted("Boot"@) + ":"@ + "{"@ + json_quoted("BootSourceOverrideEnabled"@) + ":"@
                + json_quoted(setting) + ","@ + json_quoted("BootSourceOverrideTarget"@) + ":"@ + json_quoted(target)
                + "}"@ + "}"@);
        },
        _ => {},
    }
}

/// A reset posts the reset type, as it is given, to the system's reset
/// action with the client's credentials.
pub proof fn law_reset_system_request(c: ClientView, system_id: Seq<char>, reset_type: Seq<char>)
    ensures
        c.reset_system_request(system_id, reset_type) == (RequestView {
            method: Method::Post,
            url: c.base_url + "/redfish/v1/Systems/"@ + system_id + "/Actions/ComputerSystem.Reset"@,
            auth: c.auth(),
            body: BodyView::Json("{"@ + json_quoted("ResetType"@) + ":"@ + json_quoted(reset_type) + "}"@),
        }),
{
    let r = c.reset_system_request(system_id, reset_type);
    assert(r.url =~= c.base_url + "/redfish/v1/Systems/"@ + system_id + "/Actions/ComputerSystem.Reset"@);
    match r.body {
        BodyView::Json(b) => {
            assert(b =~= "{"@ + json_quoted("ResetType"@) + ":"@ + json_quoted(reset_type) + "}"@);
        },
        _ => {},
    }
}

/// A login posts the user name and the password, as they are, to the
/// session service, with no credentials.
pub proof fn law_login_request(c: ClientView)
    ensures
        c.login_request() == (RequestView {
            method: Method::Post,
            url: c.base_url + "/redfish/v1/SessionService/Sessions"@,
            auth: AuthView::Anonymous,
            body: BodyView::Json(
                "{"@ + json_quoted("UserName"@) + ":"@ + json_quoted(c.username) + ","@ + json_quoted("Password"@)
                    + ":"@ + json_quoted(c.password) + "}"@,
            ),
        }),
{
    let r = c.login_request();
    match r.body {
        BodyView::Json(b) => {
            assert(b =~= "{"@ + json_quoted("UserName"@) + ":"@ + json_quoted(c.username) + ","@ + json_quoted(
                "Password"@,
            ) + ":"@ + json_quoted(c.password) + "}"@);
        },
        _ => {},
    }
}

} // verus!
