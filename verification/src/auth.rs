//! The desktop side of signing in: the relay is asked to start a login, a
//! browser completes it, and the relay is polled until it reports a session.

pub mod laws;

use crate::text_ops::{self, chars_of, same_text, string_of};
use vstd::prelude::*;
use vstd::string::*;

verus! {

/// Gives up if the browser's part is never completed; in nanoseconds.
pub const LOGIN_TIMEOUT_NS: u64 = 300_000_000_000;

/// A signed-in identity.
#[derive(Debug)]
pub struct Session {
    pub token: String,
    pub id: String,
    pub name: String,
    pub avatar_url: Option<String>,
}

pub open spec fn ends_with(text: Seq<char>, suffix: Seq<char>) -> bool {
    suffix.len() <= text.len() && text.skip(text.len() - suffix.len()) == suffix
}

/// `text` without any repetition of `suffix` at its end.
pub open spec fn without_suffixes(text: Seq<char>, suffix: Seq<char>) -> Seq<char>
    decreases text.len(),
{
    if suffix.len() > 0 && ends_with(text, suffix) {
        without_suffixes(text.take(text.len() - suffix.len()), suffix)
    } else {
        text
    }
}

/// A `://` stands at `at`.
pub open spec fn separator_at(server: Seq<char>, at: int) -> bool {
    0 <= at && at + 3 <= server.len() && server.subrange(at, at + 3) == "://"@
}

/// Where the address behind the scheme begins, looking for the first `://`
/// from `from` on; zero where there is none.
pub open spec fn address_start_from(server: Seq<char>, from: nat) -> nat
    decreases server.len() - from,
{
    if from >= server.len() {
        0
    } else if separator_at(server, from as int) {
        from + 3
    } else {
        address_start_from(server, from + 1)
    }
}

/// Where the address behind the scheme begins.
pub open spec fn address_start(server: Seq<char>) -> nat {
    address_start_from(server, 0)
}

/// The HTTP scheme that matches a scheme; one that is not a WebSocket's stays.
pub open spec fn http_scheme(scheme: Seq<char>) -> Seq<char> {
    if scheme == "wss://"@ {
        "https://"@
    } else if scheme == "ws://"@ {
        "http://"@
    } else {
        scheme
    }
}

/// An address without trailing slashes and without the socket's path.
pub open spec fn without_socket_path(address: Seq<char>) -> Seq<char> {
    without_suffixes(without_suffixes(address, "/"@), "/ws"@)
}

/// The HTTP origin of a relay: a WebSocket scheme becomes the matching HTTP
/// scheme, and behind it trailing slashes and the socket's path go.
pub open spec fn http_origin(server: Seq<char>) -> Seq<char> {
    let at = address_start(server) as int;
    http_scheme(server.take(at)) + without_socket_path(server.skip(at))
}

/// The length of `chars[..end]` without any repetition of `suffix` at its end.
fn cut_suffixes(chars: &Vec<char>, end: usize, suffix: &str) -> (cut: usize)
    requires
        end <= chars@.len(),
    ensures
        cut <= end,
        chars@.take(cut as int) == without_suffixes(chars@.take(end as int), suffix@),
{
    let pattern = chars_of(suffix);
    let n: usize = pattern.len();
    if n == 0 {
        return end;
    }
    let mut cut: usize = end;
    while n <= cut
        invariant
            n == pattern@.len(),
            pattern@ == suffix@,
            n > 0,
            cut <= end <= chars@.len(),
            without_suffixes(chars@.take(cut as int), suffix@) == without_suffixes(
                chars@.take(end as int),
                suffix@,
            ),
        decreases cut,
    {
        let ghost text = chars@.take(cut as int);
        let mut i: usize = 0;
        while i < n
            invariant
                i <= n <= cut <= end <= chars@.len(),
                n == pattern@.len(),
                pattern@ == suffix@,
                n > 0,
                text == chars@.take(cut as int),
                forall|j: int| 0 <= j < i ==> chars@[cut - n + j] == #[trigger] pattern@[j],
                without_suffixes(text, suffix@) == without_suffixes(
                    chars@.take(end as int),
                    suffix@,
                ),
            decreases n - i,
        {
            if chars[cut - n + i] != pattern[i] {
                proof {
                    assert(text.skip(text.len() - n)[i as int] == chars@[cut - n + i]);
                    assert(!ends_with(text, suffix@));
                }
                return cut;
            }
            i += 1;
        }
        proof {
            assert(text.skip(text.len() - n) =~= suffix@);
            assert(text.take(text.len() - n) =~= chars@.take(cut - n));
        }
        cut -= n;
    }
    cut
}

proof fn lemma_address_start(server: Seq<char>, from: nat)
    ensures
        ({
            let start = address_start_from(server, from);
            &&& start <= server.len()
            &&& start == 0 ==> forall|i: int|
                from <= i < server.len() ==> !#[trigger] separator_at(server, i)
            &&& start > 0 ==> {
                &&& from + 3 <= start
                &&& separator_at(server, start - 3)
                &&& forall|i: int| from <= i < start - 3 ==> !#[trigger] separator_at(server, i)
            }
        }),
    decreases server.len() - from,
{
    if from < server.len() && !separator_at(server, from as int) {
        lemma_address_start(server, from + 1);
    }
}

fn find_address(chars: &Vec<char>) -> (at: usize)
    ensures
        at == address_start(chars@),
        at <= chars@.len(),
{
    let n: usize = chars.len();
    proof {
        lemma_address_start(chars@, 0);
        reveal_strlit("://");
    }
    let mut i: usize = 0;
    while i < n
        invariant
            n == chars@.len(),
            i <= n,
            address_start(chars@) == address_start_from(chars@, i as nat),
            address_start(chars@) <= n,
            "://"@ == seq![':', '/', '/'],
        decreases n - i,
    {
        if n - i >= 3 && chars[i] == ':' && chars[i + 1] == '/' && chars[i + 2] == '/' {
            proof {
                assert(chars@.subrange(i as int, i + 3) =~= "://"@);
            }
            return i + 3;
        }
        proof {
            if separator_at(chars@, i as int) {
                let part = chars@.subrange(i as int, i + 3);
                assert(part[0] == chars@[i as int]);
                assert(part[1] == chars@[i + 1]);
                assert(part[2] == chars@[i + 2]);
            }
        }
        i += 1;
    }
    0
}

/// Turns a relay's WebSocket address into its HTTP origin, so that one address
/// serves both the signalling socket and the login.
pub fn http_base(server: &str) -> (base: String)
    ensures
        base@ == http_origin(server@),
{
    let chars = chars_of(server);
    let n: usize = chars.len();
    let at: usize = find_address(&chars);
    let scheme = string_of(&chars, 0, at);
    let rest = string_of(&chars, at, n);
    let address = chars_of(rest.as_str());
    let m: usize = address.len();
    proof {
        assert(scheme@ =~= server@.take(at as int));
        assert(address@ =~= server@.skip(at as int));
        assert(address@.take(m as int) =~= address@);
    }
    let without_slashes: usize = cut_suffixes(&address, m, "/");
    let end: usize = cut_suffixes(&address, without_slashes, "/ws");
    let kept = string_of(&address, 0, end);
    proof {
        assert(kept@ =~= address@.take(end as int));
    }
    let mut base = if same_text(scheme.as_str(), "wss://") {
        "https://".to_owned()
    } else if same_text(scheme.as_str(), "ws://") {
        "http://".to_owned()
    } else {
        scheme
    };
    base.append(kept.as_str());
    base
}

/// The address that starts a login.
pub fn login_start_url(base: &str) -> (url: String)
    ensures
        url@ == base@ + "/auth/start"@,
{
    let mut url = base.to_owned();
    url.append("/auth/start");
    url
}

/// The address that reports on a login.
pub fn login_poll_url(base: &str) -> (url: String)
    ensures
        url@ == base@ + "/auth/poll"@,
{
    let mut url = base.to_owned();
    url.append("/auth/poll");
    url
}

/// What the relay answers to a poll.
#[derive(Debug)]
pub enum PollBody {
    Waiting,
    Ready { session: String, id: String, name: String, avatar_url: Option<String> },
    Failed { message: String },
    Unknown,
}

/// How a login goes on.
#[derive(Debug)]
pub enum LoginStep {
    Continue,
    SignedIn(Session),
    Fail(String),
}

/// A login is given up once it has lasted longer than the limit.
pub fn login_in_time(elapsed_ns: u64) -> (result: Result<(), &'static str>)
    ensures
        result is Ok <==> elapsed_ns <= 300_000_000_000,
        result is Err ==> result->Err_0@ == "login timed out"@,
{
    if elapsed_ns > LOGIN_TIMEOUT_NS {
        Err("login timed out")
    } else {
        Ok(())
    }
}

/// Takes one answer of the relay, or none where the network failed: that alone
/// does not end the login.
pub fn login(body: Option<PollBody>) -> (step: LoginStep)
    ensures
        match body {
            None => step is Continue,
            Some(PollBody::Waiting) => step is Continue,
            Some(PollBody::Ready { session, id, name, avatar_url }) => step == LoginStep::SignedIn(
                Session { token: session, id, name, avatar_url },
            ),
            Some(PollBody::Failed { message }) => step == LoginStep::Fail(message),
            Some(PollBody::Unknown) => step is Fail && step->Fail_0@ == "login attempt expired"@,
        },
{
    match body {
        None => LoginStep::Continue,
        Some(PollBody::Waiting) => LoginStep::Continue,
        Some(PollBody::Ready { session, id, name, avatar_url }) => LoginStep::SignedIn(
            Session { token: session, id, name, avatar_url },
        ),
        Some(PollBody::Failed { message }) => LoginStep::Fail(message),
        Some(PollBody::Unknown) => LoginStep::Fail("login attempt expired".to_owned()),
    }
}

proof fn lemma_without_suffixes(text: Seq<char>, suffix: Seq<char>)
    requires
        suffix.len() > 0,
    ensures
        !ends_with(without_suffixes(text, suffix), suffix),
        without_suffixes(text, suffix).len() <= text.len(),
    decreases text.len(),
{
    if ends_with(text, suffix) {
        lemma_without_suffixes(text.take(text.len() - suffix.len()), suffix);
    }
}

proof fn lemma_prefix(text: Seq<char>, suffix: Seq<char>)
    ensures
        without_suffixes(text, suffix).len() <= text.len(),
        without_suffixes(text, suffix) == text.take(without_suffixes(text, suffix).len() as int),
    decreases text.len(),
{
    let kept = without_suffixes(text, suffix);
    if suffix.len() > 0 && ends_with(text, suffix) {
        let shorter = text.take(text.len() - suffix.len());
        lemma_prefix(shorter, suffix);
        assert(shorter.take(kept.len() as int) =~= text.take(kept.len() as int));
    } else {
        assert(text.take(text.len() as int) =~= text);
    }
}

proof fn lemma_scheme(server: Seq<char>, scheme: Seq<char>)
    requires
        text_ops::begins_with(server, scheme),
        scheme.len() > 0,
        address_start(scheme) == scheme.len(),
    ensures
        address_start(server) == scheme.len(),
{
    let n = scheme.len() as int;
    lemma_address_start(scheme, 0);
    lemma_address_start(server, 0);
    assert forall|i: int| 0 <= i <= n - 3 implies #[trigger] separator_at(server, i)
        == separator_at(scheme, i) by {
        assert(server.take(n).subrange(i, i + 3) =~= server.subrange(i, i + 3));
    }
    assert(separator_at(server, n - 3));
    let start = address_start(server) as int;
    assert(start > 0);
    assert(separator_at(server, start - 3));
}

proof fn lemma_socket_schemes()
    ensures
        address_start("ws://"@) == 5,
        "ws://"@.len() == 5,
        address_start("wss://"@) == 6,
        "wss://"@.len() == 6,
{
    reveal_strlit("ws://");
    reveal_strlit("wss://");
    reveal_strlit("://");
    let short = "ws://"@;
    let long = "wss://"@;
    assert(short.subrange(0, 3)[0] == 'w');
    assert(short.subrange(1, 4)[0] == 's');
    assert(short.subrange(2, 5) =~= "://"@);
    assert(long.subrange(0, 3)[0] == 'w');
    assert(long.subrange(1, 4)[0] == 's');
    assert(long.subrange(2, 5)[0] == 's');
    assert(long.subrange(3, 6) =~= "://"@);
    reveal_with_fuel(address_start_from, 4);
}

/// The origin never keeps a WebSocket scheme, and what is left behind the
/// scheme never ends in the socket's path.
pub proof fn origin_is_http(server: Seq<char>)
    ensures
        !text_ops::begins_with(http_origin(server), "wss://"@),
        !text_ops::begins_with(http_origin(server), "ws://"@),
        !ends_with(without_socket_path(server.skip(address_start(server) as int)), "/ws"@),
{
    reveal_strlit("wss://");
    reveal_strlit("ws://");
    reveal_strlit("https://");
    reveal_strlit("http://");
    reveal_strlit("://");
    reveal_strlit("/ws");
    let at = address_start(server) as int;
    let scheme = server.take(at);
    let address = server.skip(at);
    let kept = without_socket_path(address);
    let origin = http_origin(server);
    lemma_without_suffixes(without_suffixes(address, "/"@), "/ws"@);
    lemma_prefix(address, "/"@);
    lemma_prefix(without_suffixes(address, "/"@), "/ws"@);
    lemma_address_start(server, 0);
    if scheme != "wss://"@ && scheme != "ws://"@ {
        assert forall|i: int| 0 <= i < origin.len() implies #[trigger] origin[i] == server[i] by {
            if i >= at {
                assert(origin[i] == kept[i - at]);
            }
        }
        lemma_socket_schemes();
        if text_ops::begins_with(origin, "wss://"@) {
            assert forall|i: int| 0 <= i < 6 implies server[i] == "wss://"@[i] by {
                assert(origin.take(6)[i] == origin[i]);
            }
            assert(server.take(6) =~= "wss://"@);
            lemma_scheme(server, "wss://"@);
        }
        if text_ops::begins_with(origin, "ws://"@) {
            assert forall|i: int| 0 <= i < 5 implies server[i] == "ws://"@[i] by {
                assert(origin.take(5)[i] == origin[i]);
            }
            assert(server.take(5) =~= "ws://"@);
            lemma_scheme(server, "ws://"@);
        }
    } else {
        assert(origin[0] == 'h');
        if text_ops::begins_with(origin, "wss://"@) {
            assert(origin.take(6)[0] == origin[0]);
        }
        if text_ops::begins_with(origin, "ws://"@) {
            assert(origin.take(5)[0] == origin[0]);
        }
    }
}

proof fn lemma_host_survives(host: Seq<char>, path: Seq<char>, suffix: Seq<char>)
    requires
        !host.contains('/'),
        suffix.len() > 0,
        suffix[0] == '/',
    ensures
        without_suffixes(host + path, suffix) == host + without_suffixes(path, suffix),
    decreases path.len(),
{
    let whole = host + path;
    let n = suffix.len() as int;
    if ends_with(whole, suffix) {
        let at = whole.len() - n;
        assert(whole.skip(at)[0] == whole[at]);
        if at < host.len() {
            assert(host[at] == '/');
        }
        assert(path.skip(path.len() - n) =~= whole.skip(at));
        assert(whole.take(at) =~= host + path.take(path.len() - n));
        lemma_host_survives(host, path.take(path.len() - n), suffix);
    } else if ends_with(path, suffix) {
        assert(whole.skip(whole.len() - n) =~= path.skip(path.len() - n));
    }
}

/// The scheme and the host of an address are never cut: only what follows the
/// host can go.
pub proof fn host_is_kept(scheme: Seq<char>, host: Seq<char>, path: Seq<char>)
    requires
        scheme.len() > 0,
        address_start(scheme) == scheme.len(),
        !host.contains('/'),
    ensures
        http_origin(scheme + host + path) == http_scheme(scheme) + host + without_socket_path(path),
{
    let server = scheme + host + path;
    let n = scheme.len() as int;
    assert(server.take(n) =~= scheme);
    assert(server.skip(n) =~= host + path);
    lemma_scheme(server, scheme);
    reveal_strlit("/");
    reveal_strlit("/ws");
    lemma_host_survives(host, path, "/"@);
    lemma_host_survives(host, without_suffixes(path, "/"@), "/ws"@);
    assert(http_origin(server) =~= http_scheme(scheme) + host + without_socket_path(path));
}

/// The origin of a relay's socket is the HTTP scheme followed by the host, also
/// where the host is named like the socket's path.
pub proof fn socket_origin_is_its_host(host: Seq<char>)
    requires
        !host.contains('/'),
    ensures
        http_origin("ws://"@ + host + "/ws"@) == "http://"@ + host,
        http_origin("wss://"@ + host + "/ws"@) == "https://"@ + host,
        http_origin("ws://"@ + host) == "http://"@ + host,
        http_origin("wss://"@ + host) == "https://"@ + host,
{
    reveal_strlit("/");
    reveal_strlit("/ws");
    reveal_strlit("ws://");
    reveal_strlit("wss://");
    lemma_socket_schemes();
    let path = "/ws"@;
    let none = Seq::<char>::empty();
    assert(path.skip(2)[0] == 's');
    assert(!ends_with(path, "/"@));
    assert(path.skip(0) =~= "/ws"@);
    assert(path.take(0) =~= none);
    assert(without_socket_path(none) == none);
    assert(without_suffixes(none, "/ws"@) == none);
    assert(without_socket_path(path) == none);
    assert(http_scheme("ws://"@) == "http://"@);
    host_is_kept("ws://"@, host, path);
    host_is_kept("wss://"@, host, path);
    host_is_kept("ws://"@, host, none);
    host_is_kept("wss://"@, host, none);
    assert("ws://"@ + host + none =~= "ws://"@ + host);
    assert("wss://"@ + host + none =~= "wss://"@ + host);
    assert("http://"@ + host + none =~= "http://"@ + host);
    assert("https://"@ + host + none =~= "https://"@ + host);
}

} // verus!
