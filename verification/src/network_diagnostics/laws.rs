//! What diagnostics keep of candidates and routes, and how the probe goes.

use vstd::prelude::*;
use vstd::string::*;

use super::probe::{
    self, CandidateCounts, OfferEvent, OfferExchange, OfferValue, ProbeEvent, ProbeOutcome,
    ProbeReport, ProbeRun, PromiseReply, WaitResult,
};
use super::{
    CandidateClass, CandidateFamily, CandidateKind, CandidateMeta, CandidatePayload,
    CandidateScope, CandidateStructure, CandidateTransport, IceAction, IceDirection,
    IceEventTracker, IceRouteCandidate, IceRouteReport, RouteSample,
};
use crate::addresses::{self, Ipv4};
use crate::json;
use crate::network_diagnostics as network;
use crate::text_ops::{self, Separator};

verus! {

/// Words that can stand in a line.
pub open spec fn proper_words(words: Seq<Seq<char>>) -> bool {
    forall|i: int|
        0 <= i < words.len() ==> (#[trigger] words[i]).len() > 0 && text_ops::whole(
            words[i],
            Separator::WhiteSpace,
        )
}

/// A candidate line of these words, with and without the attribute's prefix.
pub open spec fn candidate_line(words: Seq<Seq<char>>, prefixed: bool) -> Seq<char> {
    if prefixed {
        "a=candidate:"@ + text_ops::joined(words, seq![' '])
    } else {
        "candidate:"@ + text_ops::joined(words, seq![' '])
    }
}

proof fn lemma_last_of_joined(words: Seq<Seq<char>>)
    requires
        words.len() > 0,
        proper_words(words),
    ensures
        text_ops::joined(words, seq![' ']).len() > 0,
        !text_ops::white(text_ops::joined(words, seq![' ']).last()),
{
    let text = text_ops::joined(words, seq![' ']);
    let last = words[words.len() - 1];
    assert(last.len() > 0 && text_ops::whole(last, Separator::WhiteSpace));
    assert(text.last() == last[last.len() - 1]);
    assert(!text_ops::separates(Separator::WhiteSpace, last[last.len() - 1]));
}

/// The words of a candidate line are read back, with and without the prefix.
pub proof fn candidate_words_are_read_back(words: Seq<Seq<char>>, prefixed: bool)
    requires
        words.len() > 0,
        proper_words(words),
    ensures
        network::candidate_tokens(candidate_line(words, prefixed)) == Some(words),
        !network::ends_candidates(text_ops::trimmed(candidate_line(words, prefixed))),
{
    reveal_strlit("a=candidate:");
    reveal_strlit("candidate:");
    reveal_strlit("a=");
    reveal_strlit("end-of-candidates");
    reveal_strlit("a=end-of-candidates");
    let text = text_ops::joined(words, seq![' ']);
    let line = candidate_line(words, prefixed);
    lemma_last_of_joined(words);
    text_ops::joined_words_are_read_back(words);
    assert(line.last() == text.last());
    assert(!text_ops::white(line[0]));
    assert(text_ops::trimmed_start(line) == line);
    assert(text_ops::trimmed_end(line) == line);
    let lower = text_ops::lower(line);
    assert(lower[0] == text_ops::lower_char(line[0]));
    assert(lower[2] == text_ops::lower_char(line[2]));
    assert("end-of-candidates"@[0] == 'e');
    assert("a=end-of-candidates"@[0] == 'a' && "a=end-of-candidates"@[2] == 'e');
    if prefixed {
        assert(line.take(2) =~= "a="@);
        assert(line.skip(2) =~= "candidate:"@ + text);
        assert(line.skip(2).take(10) =~= "candidate:"@);
        assert(line.skip(2).skip(10) =~= text);
    } else {
        assert(line.take(2)[0] == 'c');
        assert("a="@[0] == 'a');
        assert(line.take(10) =~= "candidate:"@);
        assert(line.skip(10) =~= text);
    }
}

/// A line with a component, a priority and a port, and the kind behind `typ`,
/// is a candidate of that kind, over that transport, at that address; each of
/// the three numbers counts only where it is not zero.
pub proof fn every_candidate_is_classified(
    words: Seq<Seq<char>>,
    prefixed: bool,
    bytes: int,
    component: u32,
    priority: u64,
    port: u16,
    kind: CandidateKind,
    transport: CandidateTransport,
)
    requires
        words.len() >= 8,
        proper_words(words),
        bytes <= 8192,
        words[1] == text_ops::decimal(component as nat),
        words[3] == text_ops::decimal(priority as nat),
        words[5] == text_ops::decimal(port as nat),
        text_ops::lower(words[6]) == "typ"@,
        text_ops::lower(words[7]) == network::kind_word(kind),
        text_ops::lower(words[2]) == network::transport_word(transport),
    ensures
        ({
            let class = network::candidate_class(candidate_line(words, prefixed), bytes);
            &&& component > 0 && priority > 0 && port > 0 ==> (class matches
                CandidateClass::Candidate(meta) && meta.kind == kind && meta.transport == transport
                && (meta.family, meta.scope) == network::address_class(words[4]))
            &&& component == 0 || priority == 0 || port == 0 ==> class is Invalid
        }),
{
    candidate_words_are_read_back(words, prefixed);
    text_ops::decimal_is_read_back(component as nat);
    text_ops::decimal_is_read_back(priority as nat);
    text_ops::decimal_is_read_back(port as nat);
    kinds_are_read_in_any_case(words[7], kind, words[2], transport);
}

/// A line with too few words, without `typ` before the kind, or with something
/// else than a number where one belongs, is no candidate.
pub proof fn broken_lines_are_invalid(words: Seq<Seq<char>>, prefixed: bool, bytes: int)
    requires
        words.len() > 0,
        proper_words(words),
        words.len() < 8 || text_ops::lower(words[6]) != "typ"@ || text_ops::unsigned(
            words[1],
            u32::MAX as nat,
        ) is None || text_ops::unsigned(words[3], u64::MAX as nat) is None || text_ops::unsigned(
            words[5],
            u16::MAX as nat,
        ) is None,
    ensures
        network::candidate_class(candidate_line(words, prefixed), bytes) is Invalid,
{
    candidate_words_are_read_back(words, prefixed);
}

/// A text that is longer than the cap is never looked at.
pub proof fn long_texts_are_invalid(text: Seq<char>, bytes: int)
    requires
        bytes > 8192,
    ensures
        network::candidate_class(text, bytes) is Invalid,
{
}

/// Nothing but white space ends the list, and so do the words for it, in
/// either case and with or without the prefix.
pub proof fn end_of_candidates_is_seen(text: Seq<char>, bytes: int)
    requires
        bytes <= 8192,
    ensures
        text_ops::trimmed(text).len() == 0 || text_ops::lower(text_ops::trimmed(text))
            == "end-of-candidates"@ || text_ops::lower(text_ops::trimmed(text))
            == "a=end-of-candidates"@ <==> network::candidate_class(text, bytes) is EndOfCandidates,
{
}

/// Kinds and transports are read in either case by the words that they are
/// written with.
pub proof fn kinds_are_read_in_any_case(
    token: Seq<char>,
    kind: CandidateKind,
    word: Seq<char>,
    transport: CandidateTransport,
)
    requires
        text_ops::lower(token) == network::kind_word(kind),
        text_ops::lower(word) == network::transport_word(transport),
    ensures
        network::kind_of(token) == kind,
        network::transport_of(word) == transport,
{
    reveal_strlit("host");
    reveal_strlit("srflx");
    reveal_strlit("prflx");
    reveal_strlit("relay");
    reveal_strlit("unknown");
    reveal_strlit("udp");
    reveal_strlit("tcp");
    assert("host"@.len() == 4 && "unknown"@.len() == 7);
    assert("srflx"@[0] == 's' && "prflx"@[0] == 'p' && "relay"@[0] == 'r');
    assert("udp"@[0] == 'u' && "tcp"@[0] == 't' && "udp"@.len() == 3);
}

/// The number that the octets of an address stand for.
pub open spec fn value(ip: Ipv4) -> int {
    ((ip.a * 256 + ip.b) * 256 + ip.c) * 256 + ip.d
}

pub open spec fn within(ip: Ipv4, first: (u8, u8, u8, u8), last: (u8, u8, u8, u8)) -> bool {
    value(Ipv4 { a: first.0, b: first.1, c: first.2, d: first.3 }) <= value(ip) <= value(
        Ipv4 { a: last.0, b: last.1, c: last.2, d: last.3 },
    )
}

/// The scope of an IPv4 address goes by the range that it lies in; one in no
/// range is public.
pub proof fn scope_goes_by_range(ip: Ipv4)
    ensures
        ({
            let scope = network::ipv4_scope(ip);
            let private = within(ip, (10, 0, 0, 0), (10, 255, 255, 255)) || within(
                ip,
                (172, 16, 0, 0),
                (172, 31, 255, 255),
            ) || within(ip, (192, 168, 0, 0), (192, 168, 255, 255));
            let shared = within(ip, (100, 64, 0, 0), (100, 127, 255, 255));
            let loopback = within(ip, (127, 0, 0, 0), (127, 255, 255, 255));
            let link = within(ip, (169, 254, 0, 0), (169, 254, 255, 255));
            let unusable = within(ip, (0, 0, 0, 0), (0, 255, 255, 255)) || within(
                ip,
                (192, 0, 2, 0),
                (192, 0, 2, 255),
            ) || within(ip, (198, 51, 100, 0), (198, 51, 100, 255)) || within(
                ip,
                (203, 0, 113, 0),
                (203, 0, 113, 255),
            ) || within(ip, (198, 18, 0, 0), (198, 19, 255, 255)) || within(
                ip,
                (224, 0, 0, 0),
                (255, 255, 255, 255),
            );
            &&& scope is Private <==> private
            &&& scope is Shared <==> shared
            &&& scope is Loopback <==> loopback
            &&& scope is LinkLocal <==> link
            &&& scope is Unknown <==> unusable
            &&& scope is Public <==> !private && !shared && !loopback && !link && !unusable
        }),
{
}

/// The scope of an IPv6 address goes by its first group, but for the address
/// of no one, the loopback address and those for documents.
pub proof fn ipv6_scope_goes_by_the_first_group(groups: Seq<u16>)
    requires
        groups.len() == 8,
        exists|i: int| 0 <= i < 7 && #[trigger] groups[i] != 0,
        !(groups[0] == 0x2001 && groups[1] == 0x0db8),
    ensures
        ({
            let scope = network::ipv6_scope(groups);
            &&& 0xfe80 <= groups[0] < 0xfec0 <==> scope is LinkLocal
            &&& 0xfc00 <= groups[0] < 0xfe00 <==> scope is Private
            &&& 0xff00 <= groups[0] <==> scope is Unknown
            &&& scope !is Loopback && scope !is Shared
        }),
        network::ipv6_scope(seq![0, 0, 0, 0, 0, 0, 0, 1]) is Loopback,
        network::ipv6_scope(seq![0, 0, 0, 0, 0, 0, 0, 0]) is Unknown,
        network::ipv6_scope(groups.update(0, 0x2001).update(1, 0x0db8)) is Unknown,
{
    let i = choose|i: int| 0 <= i < 7 && #[trigger] groups[i] != 0;
    assert(!network::zero_until(groups, 7));
    assert(!network::zero_until(groups, 8));
    let one: Seq<u16> = seq![0, 0, 0, 0, 0, 0, 0, 1];
    assert(one[7] == 1);
    assert(!network::zero_until(one, 8));
    assert(network::zero_until(one, 7));
}

/// An IPv6 address that stands for an IPv4 address has the scope of that one.
pub proof fn mapped_address_keeps_its_scope(ip: Ipv4, high: u16, low: u16)
    requires
        high == ip.a * 256 + ip.b,
        low == ip.c * 256 + ip.d,
    ensures
        network::mapped_ipv4(seq![0, 0, 0, 0, 0, 0xffff, high, low]) == Some(ip),
        network::mapped_ipv4(seq![0, 0, 0, 0, 0, 0, high, low]) is None,
        network::mapped_ipv4(seq![0, 0, 0, 0, 1, 0xffff, high, low]) is None,
{
    let groups: Seq<u16> = seq![0, 0, 0, 0, 0, 0xffff, high, low];
    assert(network::zero_until(groups, 5));
    let other: Seq<u16> = seq![0, 0, 0, 0, 1, 0xffff, high, low];
    assert(other[4] == 1);
    assert(high / 256 == ip.a && high % 256 == ip.b);
    assert(low / 256 == ip.c && low % 256 == ip.d);
}

proof fn lemma_not_stripped(text: Seq<char>, c: char)
    requires
        text.len() > 0,
        text[0] != c,
        text.last() != c,
    ensures
        text_ops::stripped(text, c) == text,
{
}

/// An IPv4 address in dotted form is of that family, with the scope of its
/// octets, and so it is in brackets.
pub proof fn dotted_addresses_are_classified(ip: Ipv4)
    ensures
        ({
            let text = text_ops::joined(addresses::laws::octet_texts(ip), seq!['.']);
            &&& network::address_class(text) == (CandidateFamily::Ipv4, network::ipv4_scope(ip))
            &&& network::address_class(seq!['['] + text + seq![']']) == (
                CandidateFamily::Ipv4,
                network::ipv4_scope(ip),
            )
        }),
{
    let parts = addresses::laws::octet_texts(ip);
    let text = text_ops::joined(parts, seq!['.']);
    let boxed = seq!['['] + text + seq![']'];
    addresses::laws::dotted_octets_are_read_back(ip);
    text_ops::decimal_is_read_back(ip.a as nat);
    text_ops::decimal_is_read_back(ip.d as nat);
    let first = text_ops::decimal(ip.a as nat);
    let last = text_ops::decimal(ip.d as nat);
    reveal_with_fuel(text_ops::joined, 4);
    assert(parts.drop_last().drop_last().drop_last()[0] == first);
    assert(text[0] == first[0]);
    assert(text.last() == last[last.len() - 1]);
    assert(text_ops::digit(first[0]));
    assert(text_ops::digit(last[last.len() - 1]));
    assert(text_ops::trimmed_start(text) == text);
    assert(text_ops::trimmed_end(text) == text);
    lemma_not_stripped(text, '[');
    lemma_not_stripped(text, ']');
    assert(network::bare_address(text) == text);
    assert(text_ops::trimmed_start(boxed) == boxed);
    assert(boxed.last() == ']');
    assert(text_ops::trimmed_end(boxed) == boxed);
    let opened = text + seq![']'];
    assert(boxed.drop_first() =~= opened);
    assert(opened[0] == text[0]);
    assert(opened.last() == ']');
    lemma_not_stripped(opened, '[');
    assert(opened.drop_last() =~= text);
    assert(network::bare_address(boxed) == text);
    reveal_strlit(".local");
    let lower = text_ops::lower(text);
    assert(lower.last() == text_ops::lower_char(text.last()));
    assert(".local"@[5] == 'l');
    if text_ops::closes_with(lower, ".local"@) {
        let tail = lower.skip(lower.len() - 6);
        assert(tail[5] == lower.last());
    }
}

/// A name in the local domain is told as such, and no scope with it.
pub proof fn local_names_are_told(text: Seq<char>)
    requires
        network::bare_address(text) == text,
        text_ops::closes_with(text_ops::lower(text), ".local"@),
    ensures
        network::address_class(text) == (CandidateFamily::Mdns, CandidateScope::Unknown),
{
    reveal_strlit(".local");
}

/// The payload of an event tells its seven parts, each under its own name.
pub proof fn event_tells_its_parts(
    payload: CandidatePayload,
    meta: CandidateMeta,
    direction: IceDirection,
    action: IceAction,
    mline: u32,
)
    requires
        network::payload_says(payload, meta, direction, action, mline),
    ensures
        ({
            let text = network::payload_json(payload);
            &&& text_ops::mentions(
                text,
                json::named("direction"@, json::json_string(network::direction_word(direction))),
            )
            &&& text_ops::mentions(
                text,
                json::named("action"@, json::json_string(network::action_word(action))),
            )
            &&& text_ops::mentions(
                text,
                json::named("kind"@, json::json_string(network::kind_word(meta.kind))),
            )
            &&& text_ops::mentions(
                text,
                json::named(
                    "transport"@,
                    json::json_string(network::transport_word(meta.transport)),
                ),
            )
            &&& text_ops::mentions(
                text,
                json::named("family"@, json::json_string(network::family_word(meta.family))),
            )
            &&& text_ops::mentions(
                text,
                json::named("scope"@, json::json_string(network::scope_word(meta.scope))),
            )
            &&& text_ops::mentions(
                text,
                json::named("mline"@, text_ops::decimal(mline as nat)),
            )
        }),
{
    reveal_strlit("direction");
    reveal_strlit("action");
    reveal_strlit("kind");
    reveal_strlit("transport");
    reveal_strlit("family");
    reveal_strlit("scope");
    reveal_strlit("mline");
    let members = seq![
        ("direction"@, json::json_string(payload.direction@)),
        ("action"@, json::json_string(payload.action@)),
        ("kind"@, json::json_string(payload.kind@)),
        ("transport"@, json::json_string(payload.transport@)),
        ("family"@, json::json_string(payload.family@)),
        ("scope"@, json::json_string(payload.scope@)),
        ("mline"@, text_ops::decimal(payload.mline as nat)),
    ];
    json::object_tells_its_members(members, 0);
    json::object_tells_its_members(members, 1);
    json::object_tells_its_members(members, 2);
    json::object_tells_its_members(members, 3);
    json::object_tells_its_members(members, 4);
    json::object_tells_its_members(members, 5);
    json::object_tells_its_members(members, 6);
}

/// The words for directions, families and scopes are the usual ones, and no
/// two actions share one.
pub proof fn words_are_told_apart(a: IceAction, b: IceAction)
    ensures
        network::direction_word(IceDirection::Local) == "local"@,
        network::direction_word(IceDirection::Remote) == "remote"@,
        network::family_word(CandidateFamily::Ipv4) == "ipv4"@,
        network::family_word(CandidateFamily::Ipv6) == "ipv6"@,
        network::family_word(CandidateFamily::Mdns) == "mdns"@,
        network::scope_word(CandidateScope::Public) == "public"@,
        network::scope_word(CandidateScope::Private) == "private"@,
        network::scope_word(CandidateScope::Shared) == "shared"@,
        network::scope_word(CandidateScope::LinkLocal) == "link-local"@,
        network::scope_word(CandidateScope::Loopback) == "loopback"@,
        a != b ==> network::action_word(a) != network::action_word(b),
{
    reveal_strlit("gathered");
    reveal_strlit("signalled");
    reveal_strlit("signalling-closed");
    reveal_strlit("submitted");
    reveal_strlit("submission-completed");
    reveal_strlit("submission-failed");
    reveal_strlit("end-of-candidates");
    reveal_strlit("invalid");
    assert("gathered"@.len() == 8 && "signalled"@.len() == 9 && "submitted"@.len() == 9);
    assert("signalling-closed"@.len() == 17 && "submission-failed"@.len() == 17);
    assert("end-of-candidates"@.len() == 17 && "submission-completed"@.len() == 20);
    assert("invalid"@.len() == 7);
    assert("signalled"@[1] == 'i' && "submitted"@[1] == 'u');
    assert("signalling-closed"@[1] == 'i' && "submission-failed"@[1] == 'u');
    assert("end-of-candidates"@[1] == 'n');
}

/// A role tells its first 512 events and counts the others.
pub proof fn cap_is_five_hundred_and_twelve(n: nat)
    ensures
        n <= 512 ==> network::counted_after(n) == (n as int, 0int),
        512 < n <= 1_000_000 ==> network::counted_after(n) == (512int, n - 512),
{
    network::cap_holds_for_any_number_of_events(n);
}

/// Every sample has an identifier of its own.
pub open spec fn distinct(samples: Seq<RouteSample>) -> bool {
    forall|i: int, j: int|
        0 <= i < j < samples.len() ==> network::sample_id(#[trigger] samples[i])
            != network::sample_id(#[trigger] samples[j])
}

proof fn lemma_sample_is_found(samples: Seq<RouteSample>, i: int)
    requires
        0 <= i < samples.len(),
        forall|j: int|
            i < j < samples.len() ==> network::sample_id(#[trigger] samples[j])
                != network::sample_id(samples[i]),
    ensures
        network::sample_at(samples, network::sample_id(samples[i])) == Some(i),
    decreases samples.len(),
{
    if i < samples.len() - 1 {
        assert(network::sample_id(samples[samples.len() - 1]) != network::sample_id(samples[i]));
        let rest = samples.drop_last();
        assert forall|j: int| i < j < rest.len() implies network::sample_id(#[trigger] rest[j])
            != network::sample_id(rest[i]) by {
            assert(rest[j] == samples[j]);
        }
        lemma_sample_is_found(rest, i);
    }
}

proof fn lemma_naming(samples: Seq<RouteSample>, from: int, at: int)
    requires
        0 <= from <= at < samples.len(),
        network::names_pair(samples, at),
        forall|j: int| from <= j < at ==> !#[trigger] network::names_pair(samples, j),
    ensures
        network::naming_sample(samples, from) == Some(at),
    decreases at - from,
{
    if from < at {
        assert(!network::names_pair(samples, from));
        lemma_naming(samples, from + 1, at);
    }
}

proof fn lemma_no_naming(samples: Seq<RouteSample>, from: int)
    requires
        0 <= from,
        forall|j: int| 0 <= j < samples.len() ==> !#[trigger] network::names_pair(samples, j),
    ensures
        network::naming_sample(samples, from) is None,
    decreases samples.len() - from,
{
    if from < samples.len() {
        assert(!network::names_pair(samples, from));
        lemma_no_naming(samples, from + 1);
    }
}

/// The route of the selected pair is reported: its local end is the candidate
/// that the pair names as local, its remote end the one that it names as
/// remote.
pub proof fn selected_pair_is_the_route(
    samples: Vec<RouteSample>,
    at: int,
    pair: int,
    local: int,
    remote: int,
    report: IceRouteReport,
)
    requires
        distinct(samples@),
        0 <= at < samples@.len(),
        0 <= pair < samples@.len(),
        0 <= local < samples@.len(),
        0 <= remote < samples@.len(),
        samples@[at].selected_candidate_pair_id matches Some(id) && id@ == network::sample_id(
            samples@[pair],
        ) && id@.len() > 0,
        forall|i: int|
            0 <= i < samples@.len() && i != at ==> (
            #[trigger] samples@[i]).selected_candidate_pair_id is None,
        samples@[pair].local_candidate_id matches Some(id) && id@ == network::sample_id(
            samples@[local],
        ),
        samples@[pair].remote_candidate_id matches Some(id) && id@ == network::sample_id(
            samples@[remote],
        ),
        call_ensures(network::selected_ice_route, (&samples,), report),
    ensures
        report.selected,
        report.local matches Some(end) && network::route_says(
            end,
            network::sample_meta(samples@[local]),
        ),
        report.remote matches Some(end) && network::route_says(
            end,
            network::sample_meta(samples@[remote]),
        ),
{
    lemma_sample_is_found(samples@, at);
    lemma_sample_is_found(samples@, pair);
    lemma_sample_is_found(samples@, local);
    lemma_sample_is_found(samples@, remote);
    assert(network::names_pair(samples@, at));
    assert forall|j: int| 0 <= j < at implies !#[trigger] network::names_pair(samples@, j) by {
        assert(samples@[j].selected_candidate_pair_id is None);
    }
    lemma_naming(samples@, 0, at);
}

/// Where no sample names a pair, no route is reported.
pub proof fn no_pair_means_no_route(samples: Vec<RouteSample>, report: IceRouteReport)
    requires
        forall|i: int|
            0 <= i < samples@.len() ==> (#[trigger] samples@[i]).selected_candidate_pair_id is None,
        call_ensures(network::selected_ice_route, (&samples,), report),
    ensures
        !report.selected,
        report.local is None,
        report.remote is None,
{
    assert forall|j: int| 0 <= j < samples@.len() implies !#[trigger] network::names_pair(
        samples@,
        j,
    ) by {
        assert(samples@[j].selected_candidate_pair_id is None);
    }
    lemma_no_naming(samples@, 0);
}

/// A candidate of the statistics is known by its own identifier, or by the
/// name it stands under; its address goes before its old field for that.
pub proof fn sample_is_read_by_its_fields(sample: RouteSample, address: String, ip: String)
    ensures
        sample.id matches Some(id) && id@.len() > 0 ==> network::sample_id(sample)
            == sample.id->0@,
        sample.id is None ==> network::sample_id(sample) == sample.key@,
        ({
            let given = RouteSample { address: Some(address), ..sample };
            let older = RouteSample { address: None, ip: Some(ip), ..sample };
            let meta = network::sample_meta(given);
            let old_meta = network::sample_meta(older);
            &&& (meta.family, meta.scope) == network::address_class(address@)
            &&& (old_meta.family, old_meta.scope) == network::address_class(ip@)
            &&& sample.candidate_type matches Some(kind) ==> meta.kind == network::kind_of(kind@)
            &&& sample.protocol matches Some(word) ==> meta.transport == network::transport_of(
                word@,
            )
            &&& sample.candidate_type is None ==> meta.kind is Unknown
            &&& sample.protocol is None ==> meta.transport is Unknown
        }),
{
}

/// A candidate counts once under its transport, its family and its kind, and
/// nowhere else.
pub proof fn every_candidate_counts_once(counts: CandidateCounts, meta: CandidateMeta)
    requires
        counts.udp < u32::MAX,
        counts.tcp < u32::MAX,
        counts.ipv4 < u32::MAX,
        counts.ipv6 < u32::MAX,
        counts.host < u32::MAX,
        counts.srflx < u32::MAX,
        counts.prflx < u32::MAX,
        counts.relay < u32::MAX,
        counts.invalid < u32::MAX,
    ensures
        ({
            let next = probe::counts_with(counts, CandidateClass::Candidate(meta));
            &&& next.udp - counts.udp == if meta.transport is Udp { 1int } else { 0 }
            &&& next.tcp - counts.tcp == if meta.transport is Tcp { 1int } else { 0 }
            &&& next.ipv4 - counts.ipv4 == if meta.family is Ipv4 { 1int } else { 0 }
            &&& next.ipv6 - counts.ipv6 == if meta.family is Ipv6 { 1int } else { 0 }
            &&& next.host - counts.host == if meta.kind is Host { 1int } else { 0 }
            &&& next.srflx - counts.srflx == if meta.kind is Srflx { 1int } else { 0 }
            &&& next.prflx - counts.prflx == if meta.kind is Prflx { 1int } else { 0 }
            &&& next.relay - counts.relay == if meta.kind is Relay { 1int } else { 0 }
            &&& next.invalid == counts.invalid
        }),
        ({
            let next = probe::counts_with(counts, CandidateClass::Invalid);
            &&& next.invalid == counts.invalid + 1
            &&& CandidateCounts { invalid: counts.invalid, ..next } == counts
        }),
        probe::counts_with(counts, CandidateClass::EndOfCandidates) == counts,
{
}

/// The total is the sum over the kinds, as far as it can be held.
pub proof fn total_is_the_sum_of_the_kinds(counts: CandidateCounts, sum: u32)
    requires
        call_ensures(CandidateCounts::total, (&counts,), sum),
    ensures
        sum <= counts.host + counts.srflx + counts.prflx + counts.relay,
        sum < u32::MAX ==> sum == counts.host + counts.srflx + counts.prflx + counts.relay,
{
}

/// The detail of a report tells the outcome and every count that it shows.
pub proof fn detail_tells_the_counts(report: ProbeReport)
    ensures
        ({
            let text = probe::report_detail(report);
            let counts = report.candidates;
            &&& report.outcome is Complete ==> text_ops::begins_with(text, "outcome=Complete total="@)
            &&& report.outcome is TimedOut ==> text_ops::begins_with(text, "outcome=TimedOut total="@)
            &&& report.outcome is Failed ==> text_ops::begins_with(text, "outcome=Failed total="@)
            &&& text_ops::mentions(text, " udp="@ + text_ops::decimal(counts.udp as nat))
            &&& text_ops::mentions(text, " tcp="@ + text_ops::decimal(counts.tcp as nat))
            &&& text_ops::mentions(text, " ipv4="@ + text_ops::decimal(counts.ipv4 as nat))
            &&& text_ops::mentions(text, " ipv6="@ + text_ops::decimal(counts.ipv6 as nat))
            &&& text_ops::mentions(text, " host="@ + text_ops::decimal(counts.host as nat))
            &&& text_ops::closes_with(text, " srflx="@ + text_ops::decimal(counts.srflx as nat))
        }),
{
    let text = probe::report_detail(report);
    let counts = report.candidates;
    let end6 = " srflx="@ + text_ops::decimal(counts.srflx as nat);
    let part5 = " host="@ + text_ops::decimal(counts.host as nat);
    let part4 = " ipv6="@ + text_ops::decimal(counts.ipv6 as nat);
    let part3 = " ipv4="@ + text_ops::decimal(counts.ipv4 as nat);
    let part2 = " tcp="@ + text_ops::decimal(counts.tcp as nat);
    let part1 = " udp="@ + text_ops::decimal(counts.udp as nat);
    let n = text.len();
    assert(text.skip(n - end6.len()) =~= end6);
    let at5 = n - end6.len() - part5.len();
    assert(text.subrange(at5, at5 + part5.len()) =~= part5);
    let at4 = at5 - part4.len();
    assert(text.subrange(at4, at4 + part4.len()) =~= part4);
    let at3 = at4 - part3.len();
    assert(text.subrange(at3, at3 + part3.len()) =~= part3);
    let at2 = at3 - part2.len();
    assert(text.subrange(at2, at2 + part2.len()) =~= part2);
    let at1 = at2 - part1.len();
    assert(text.subrange(at1, at1 + part1.len()) =~= part1);
    reveal_strlit("outcome=");
    reveal_strlit(" total=");
    match report.outcome {
        ProbeOutcome::Complete => {
            reveal_strlit("Complete");
            reveal_strlit("outcome=Complete total=");
            assert(text.take(23) =~= "outcome=Complete total="@);
        },
        ProbeOutcome::TimedOut => {
            reveal_strlit("TimedOut");
            reveal_strlit("outcome=TimedOut total=");
            assert(text.take(23) =~= "outcome=TimedOut total="@);
        },
        ProbeOutcome::Failed => {
            reveal_strlit("Failed");
            reveal_strlit("outcome=Failed total=");
            assert(text.take(21) =~= "outcome=Failed total="@);
        },
    }
}

/// An offer is used exactly where its promise was kept with a proper offer and
/// the peer is still there; a reason that was given is quoted.
pub proof fn offer_needs_a_kept_promise(reply: PromiseReply, offer: OfferValue, alive: bool)
    ensures
        probe::offer_problem(reply, offer, alive) is None <==> reply is Answered && offer is Present
            && alive,
        reply matches PromiseReply::Failed(reason) ==> text_ops::closes_with(
            probe::offer_problem(reply, offer, alive)->0,
            reason@,
        ),
        reply matches PromiseReply::Error(reason) ==> text_ops::closes_with(
            probe::offer_problem(reply, offer, alive)->0,
            reason@,
        ),
        probe::local_problem(reply) is None <==> reply is Answered || reply is Empty,
        reply matches PromiseReply::Failed(reason) ==> text_ops::closes_with(
            probe::local_problem(reply)->0,
            reason@,
        ),
        reply matches PromiseReply::Error(reason) ==> text_ops::closes_with(
            probe::local_problem(reply)->0,
            reason@,
        ),
{
    match reply {
        PromiseReply::Failed(reason) => {
            let text = probe::offer_problem(reply, offer, alive)->0;
            assert(text.skip(text.len() - reason@.len()) =~= reason@);
            let other = probe::local_problem(reply)->0;
            assert(other.skip(other.len() - reason@.len()) =~= reason@);
        },
        PromiseReply::Error(reason) => {
            let text = probe::offer_problem(reply, offer, alive)->0;
            assert(text.skip(text.len() - reason@.len()) =~= reason@);
            let other = probe::local_problem(reply)->0;
            assert(other.skip(other.len() - reason@.len()) =~= reason@);
        },
        _ => {},
    }
}

/// An exchange succeeds by a usable offer that is then installed; where either
/// fails, or nobody can answer any more, it fails.
pub proof fn exchange_takes_two_steps()
    ensures
        ({
            let offered = probe::exchange_after(
                OfferExchange::AwaitingOffer,
                OfferEvent::Offered(true),
            );
            &&& offered !is Succeeded && offered !is Failed
            &&& probe::exchange_after(offered, OfferEvent::Installed(true)) is Succeeded
            &&& probe::exchange_after(offered, OfferEvent::Installed(false)) is Failed
            &&& probe::exchange_after(offered, OfferEvent::ChannelClosed) is Failed
        }),
        probe::exchange_after(OfferExchange::AwaitingOffer, OfferEvent::Offered(false)) is Failed,
        probe::exchange_after(OfferExchange::AwaitingOffer, OfferEvent::ChannelClosed) is Failed,
        probe::exchange_after(OfferExchange::AwaitingOffer, OfferEvent::Installed(true))
            is AwaitingOffer,
{
}

/// The probe has five seconds: what has passed and what is left are that much
/// together, until nothing is left.
pub proof fn probe_has_five_seconds(elapsed: u64, left: u64)
    requires
        call_ensures(probe::probe_budget_ms, (elapsed,), left),
    ensures
        elapsed <= 5000 ==> elapsed + left == 5000,
        elapsed > 5000 ==> left == 0,
{
}

/// A probe whose every step succeeds goes through all its stages, in order,
/// and is complete; its pipeline is stopped before it is done.
pub proof fn smooth_probe_completes(run: ProbeRun)
    requires
        run.stage is Initialise,
    ensures
        ({
            let ok = ProbeEvent::Finished(WaitResult::Succeeded);
            let build = probe::probe_after(run, ok);
            let attach = probe::probe_after(build, ok);
            let start = probe::probe_after(attach, ok);
            let offer = probe::probe_after(start, ok);
            let gather = probe::probe_after(offer, ok);
            let clean = probe::probe_after(gather, ok);
            let done = probe::probe_after(clean, ok);
            &&& build.stage is Build
            &&& attach.stage is Attach
            &&& start.stage is Start
            &&& offer.stage is Offer
            &&& gather.stage is Gather
            &&& clean.stage is Clean
            &&& done.stage is Done
            &&& done.report.outcome is Complete
            &&& done.report.candidates == run.report.candidates
        }),
{
}

/// A step that fails ends the probe with a failure, one that runs out of time
/// with a timeout; a pipeline that was started is stopped.
pub proof fn failing_probe_is_told(run: ProbeRun, result: WaitResult)
    requires
        result !is Succeeded,
    ensures
        ({
            let next = probe::probe_after(run, ProbeEvent::Finished(result));
            &&& run.stage is Initialise || run.stage is Build || run.stage is Attach
                ==> next.stage is Done && next.report == run.report
            &&& run.stage is Start ==> next.stage is Clean && next.report == run.report
            &&& run.stage is Offer || run.stage is Gather ==> {
                &&& next.stage is Clean
                &&& result is Failed ==> next.report.outcome is Failed
                &&& result is TimedOut ==> next.report.outcome is TimedOut
                &&& next.report.candidates == run.report.candidates
            }
            &&& run.stage is Clean ==> next.stage is Done && next.report == run.report
        }),
        probe::new_probe().report.outcome is Failed,
{
}

/// Every candidate that is gathered while the probe listens is counted, and
/// none outside of that time.
pub proof fn gathered_candidates_are_counted(run: ProbeRun, class: CandidateClass)
    ensures
        ({
            let next = probe::probe_after(run, ProbeEvent::Candidate(class));
            &&& next.stage == run.stage && next.report.outcome == run.report.outcome
            &&& run.stage is Start || run.stage is Offer || run.stage is Gather
                ==> next.report.candidates == probe::counts_with(run.report.candidates, class)
            &&& !(run.stage is Start || run.stage is Offer || run.stage is Gather) ==> next == run
        }),
{
}

/// The parts of a candidate line are read word by word: numbers by their value,
/// the address as it stands.
pub proof fn candidate_parts_are_read_back(
    tokens: Vec<Vec<char>>,
    component: u32,
    priority: u64,
    port: u16,
    parts: Option<CandidateStructure>,
)
    requires
        tokens@.len() >= 8,
        tokens@[1]@ == text_ops::decimal(component as nat),
        tokens@[3]@ == text_ops::decimal(priority as nat),
        tokens@[5]@ == text_ops::decimal(port as nat),
        call_ensures(network::validate_candidate_structure, (&tokens,), parts),
    ensures
        parts is Some <==> text_ops::lower(tokens@[6]@) == "typ"@,
        parts matches Some(found) ==> {
            &&& found.component == component
            &&& found.priority == priority
            &&& found.port == port
            &&& found.address@ == tokens@[4]@
            &&& found.transport == network::transport_of(tokens@[2]@)
            &&& found.kind == network::kind_of(tokens@[7]@)
        },
{
    let words = text_ops::vectors(tokens@);
    text_ops::decimal_is_read_back(component as nat);
    text_ops::decimal_is_read_back(priority as nat);
    text_ops::decimal_is_read_back(port as nat);
    assert(words.len() == tokens@.len());
    assert(words[1] == tokens@[1]@ && words[2] == tokens@[2]@ && words[3] == tokens@[3]@);
    assert(words[4] == tokens@[4]@ && words[5] == tokens@[5]@ && words[6] == tokens@[6]@);
    assert(words[7] == tokens@[7]@);
    assert(text_ops::unsigned(words[1], u32::MAX as nat) == Some(component as nat));
    assert(text_ops::unsigned(words[3], u64::MAX as nat) == Some(priority as nat));
    assert(text_ops::unsigned(words[5], u16::MAX as nat) == Some(port as nat));
}

/// A line with fewer than eight words has no candidate's parts.
pub proof fn short_lines_have_no_parts(
    tokens: Vec<Vec<char>>,
    parts: Option<CandidateStructure>,
)
    requires
        tokens@.len() < 8,
        call_ensures(network::validate_candidate_structure, (&tokens,), parts),
    ensures
        parts is None,
{
    assert(text_ops::vectors(tokens@).len() == tokens@.len());
}

/// The version of the media runtime is told number by number.
pub proof fn runtime_version_is_told(
    events: IceEventTracker,
    major: u32,
    minor: u32,
    micro: u32,
    nano: u32,
    payload: String,
)
    requires
        call_ensures(
            IceEventTracker::emit_runtime_once,
            (&events, major, minor, micro, nano),
            payload,
        ),
    ensures
        text_ops::mentions(
            payload@,
            json::named("gst_major"@, text_ops::decimal(major as nat)),
        ),
        text_ops::mentions(
            payload@,
            json::named("gst_minor"@, text_ops::decimal(minor as nat)),
        ),
        text_ops::mentions(
            payload@,
            json::named("gst_micro"@, text_ops::decimal(micro as nat)),
        ),
        text_ops::mentions(payload@, json::named("gst_nano"@, text_ops::decimal(nano as nat))),
{
    let members = seq![
        ("gst_major"@, text_ops::decimal(major as nat)),
        ("gst_micro"@, text_ops::decimal(micro as nat)),
        ("gst_minor"@, text_ops::decimal(minor as nat)),
        ("gst_nano"@, text_ops::decimal(nano as nat)),
    ];
    reveal_strlit("gst_major");
    reveal_strlit("gst_micro");
    reveal_strlit("gst_minor");
    reveal_strlit("gst_nano");
    assert(payload@ == json::json_object(members));
    assert(members[0].0 == "gst_major"@ && members[1].0 == "gst_micro"@);
    assert(members[2].0 == "gst_minor"@ && members[3].0 == "gst_nano"@);
    json::object_tells_its_members(members, 0);
    json::object_tells_its_members(members, 1);
    json::object_tells_its_members(members, 2);
    json::object_tells_its_members(members, 3);
}

/// A written route tells both ends where they are known, each under its own
/// name.
pub proof fn written_route_tells_its_ends(report: IceRouteReport, text: String)
    requires
        call_ensures(network::route_report_json, (&report,), text),
    ensures
        report.selected ==> text_ops::mentions(text@, json::named("selected"@, "true"@)),
        !report.selected ==> text_ops::mentions(text@, json::named("selected"@, "false"@)),
        report.local matches Some(end) ==> text_ops::mentions(
            text@,
            json::named("local"@, network::route_end_json(end)),
        ),
        report.remote matches Some(end) ==> text_ops::mentions(
            text@,
            json::named("remote"@, network::route_end_json(end)),
        ),
{
    let members = network::route_members(report);
    reveal_strlit("selected");
    reveal_strlit("local");
    reveal_strlit("remote");
    assert(members[0] == ("selected"@, json::json_bool(report.selected)));
    json::object_tells_its_members(members, 0);
    if let Some(end) = report.local {
        assert(members[1] == ("local"@, network::route_end_json(end)));
        json::object_tells_its_members(members, 1);
    }
    if let Some(end) = report.remote {
        assert(members.last() == ("remote"@, network::route_end_json(end)));
        json::object_tells_its_members(members, members.len() - 1);
    }
}

/// A written end of a route tells what is known of it.
pub proof fn written_end_tells_its_words(end: IceRouteCandidate)
    ensures
        text_ops::mentions(
            network::route_end_json(end),
            json::named("kind"@, json::json_string(end.kind@)),
        ),
        text_ops::mentions(
            network::route_end_json(end),
            json::named("transport"@, json::json_string(end.transport@)),
        ),
        text_ops::mentions(
            network::route_end_json(end),
            json::named("family"@, json::json_string(end.family@)),
        ),
        text_ops::mentions(
            network::route_end_json(end),
            json::named("scope"@, json::json_string(end.scope@)),
        ),
{
    let members = seq![
        ("kind"@, json::json_string(end.kind@)),
        ("transport"@, json::json_string(end.transport@)),
        ("family"@, json::json_string(end.family@)),
        ("scope"@, json::json_string(end.scope@)),
    ];
    reveal_strlit("kind");
    reveal_strlit("transport");
    reveal_strlit("family");
    reveal_strlit("scope");
    assert(network::route_end_json(end) == json::json_object(members));
    assert(members[0].0 == "kind"@ && members[1].0 == "transport"@);
    assert(members[2].0 == "family"@ && members[3].0 == "scope"@);
    json::object_tells_its_members(members, 0);
    json::object_tells_its_members(members, 1);
    json::object_tells_its_members(members, 2);
    json::object_tells_its_members(members, 3);
}

/// A probe starts with nothing counted.
pub proof fn nothing_is_counted_at_first()
    ensures
        ({
            let counts = probe::no_candidates();
            &&& counts.udp == 0 && counts.tcp == 0
            &&& counts.ipv4 == 0 && counts.ipv6 == 0
            &&& counts.host == 0 && counts.srflx == 0 && counts.prflx == 0 && counts.relay == 0
            &&& counts.invalid == 0
        }),
{
}

/// A role is told of exactly its first 512 events, and starts with none.
pub proof fn first_events_are_told(emitted: u32, role: &str, fresh: IceEventTracker)
    requires
        call_ensures(IceEventTracker::new, (role,), fresh),
    ensures
        network::still_told(emitted as int) <==> emitted < 512,
        fresh.role@ == role@,
        fresh.emitted == 0 && fresh.dropped == 0,
{
}

/// A sample that has no identifier, or an empty one, goes by the name it stands
/// under.
pub proof fn samples_go_by_their_names(sample: RouteSample, id: String)
    ensures
        sample.id is None ==> network::sample_id(sample) == sample.key@,
        sample.id == Some(id) && id@.len() == 0 ==> network::sample_id(sample) == sample.key@,
        sample.id == Some(id) && id@.len() > 0 ==> network::sample_id(sample) == id@,
{
}

} // verus!
