//! How a login goes and where it goes to.

use vstd::prelude::*;
use vstd::string::*;

use super::{LoginStep, PollBody};
use crate::auth;

verus! {

/// Only an answer of the relay ends a login: a session signs in, with what the
/// relay told of it, a failure is told in the relay's words, and an attempt
/// that the relay does not know has expired.
pub proof fn login_waits_for_the_relay(body: Option<PollBody>, step: LoginStep)
    requires
        call_ensures(auth::login, (body,), step),
    ensures
        body is None || body->0 is Waiting <==> step is Continue,
        body is Some && body->0 is Ready <==> step is SignedIn,
        body is Some && (body->0 is Failed || body->0 is Unknown) <==> step is Fail,
        body matches Some(PollBody::Ready { session, id, name, avatar_url }) ==> {
            let signed = step->SignedIn_0;
            &&& signed.token == session
            &&& signed.id == id
            &&& signed.name == name
            &&& signed.avatar_url == avatar_url
        },
        body matches Some(PollBody::Failed { message }) ==> step->Fail_0 == message,
{
}

/// A login may take five minutes.
pub proof fn login_may_take_five_minutes(elapsed_ns: u64, result: Result<(), &'static str>)
    requires
        call_ensures(auth::login_in_time, (elapsed_ns,), result),
    ensures
        result is Ok <==> elapsed_ns <= 5 * 60 * 1_000_000_000,
{
}

/// A login is started and followed at the relay's own origin.
pub proof fn login_stays_with_the_relay(base: &str, start: String, poll: String)
    requires
        call_ensures(auth::login_start_url, (base,), start),
        call_ensures(auth::login_poll_url, (base,), poll),
    ensures
        start@ == base@ + "/auth/start"@,
        poll@ == base@ + "/auth/poll"@,
        start@ != poll@,
{
    reveal_strlit("/auth/start");
    reveal_strlit("/auth/poll");
    assert(start@.len() == base@.len() + 11);
    assert(poll@.len() == base@.len() + 10);
}

/// Slashes at the end of an address make no difference.
pub proof fn trailing_slashes_make_no_difference(
    scheme: Seq<char>,
    host: Seq<char>,
    path: Seq<char>,
)
    requires
        scheme.len() > 0,
        auth::address_start(scheme) == scheme.len(),
        !host.contains('/'),
    ensures
        auth::http_origin(scheme + host + path.push('/')) == auth::http_origin(
            scheme + host + path,
        ),
{
    auth::host_is_kept(scheme, host, path);
    auth::host_is_kept(scheme, host, path.push('/'));
    reveal_strlit("/");
    let longer = path.push('/');
    assert(longer.skip(longer.len() - 1) =~= "/"@);
    assert(longer.take(longer.len() - 1) =~= path);
    assert(auth::without_suffixes(longer, "/"@) == auth::without_suffixes(path, "/"@));
}

/// A scheme that is not a socket's stays, and the two of sockets keep their
/// security.
pub proof fn schemes_keep_their_security(scheme: Seq<char>)
    ensures
        auth::http_scheme("wss://"@) == "https://"@,
        auth::http_scheme("ws://"@) == "http://"@,
        scheme != "wss://"@ && scheme != "ws://"@ ==> auth::http_scheme(scheme) == scheme,
{
    reveal_strlit("wss://");
    reveal_strlit("ws://");
    assert("wss://"@.len() == 6 && "ws://"@.len() == 5);
}

} // verus!
