//! Privacy-safe ICE diagnostics and the isolated gather probe.

pub mod laws;
pub mod probe;

use vstd::prelude::*;
use vstd::string::*;

use crate::addresses::{self, parse_address, AddressModel, IpAddress, Ipv4};
use crate::json::{self, flag_member, number_member, object, raw_member, text_member, Member};
use crate::text_ops::{
    self, chars_of, lower_of, lower_string, parse_unsigned, same_text, split_words,
    string_of, strip_bounds, trim_bounds,
};

verus! {

pub const MAX_CANDIDATE_BYTES: usize = 8192;

pub const MAX_ICE_EVENTS_PER_ROLE: u16 = 512;

/// How long the gather probe may take.
pub const PROBE_BUDGET_MS: u64 = 5000;

#[derive(Debug, Clone, Copy, PartialEq, Eq, Structural)]
pub enum IceDirection {
    Local,
    Remote,
}

pub open spec fn direction_word(direction: IceDirection) -> Seq<char> {
    match direction {
        IceDirection::Local => "local"@,
        IceDirection::Remote => "remote"@,
    }
}

impl IceDirection {
    pub fn as_str(self) -> (word: &'static str)
        ensures
            word@ == direction_word(self),
    {
        match self {
            IceDirection::Local => "local",
            IceDirection::Remote => "remote",
        }
    }
}

#[derive(Debug, Clone, Copy, PartialEq, Eq, Structural)]
pub enum IceAction {
    Gathered,
    Signalled,
    SignallingClosed,
    Submitted,
    SubmissionCompleted,
    SubmissionFailed,
    EndOfCandidates,
    Invalid,
}

pub open spec fn action_word(action: IceAction) -> Seq<char> {
    match action {
        IceAction::Gathered => "gathered"@,
        IceAction::Signalled => "signalled"@,
        IceAction::SignallingClosed => "signalling-closed"@,
        IceAction::Submitted => "submitted"@,
        IceAction::SubmissionCompleted => "submission-completed"@,
        IceAction::SubmissionFailed => "submission-failed"@,
        IceAction::EndOfCandidates => "end-of-candidates"@,
        IceAction::Invalid => "invalid"@,
    }
}

impl IceAction {
    pub fn as_str(self) -> (word: &'static str)
        ensures
            word@ == action_word(self),
    {
        match self {
            IceAction::Gathered => "gathered",
            IceAction::Signalled => "signalled",
            IceAction::SignallingClosed => "signalling-closed",
            IceAction::Submitted => "submitted",
            IceAction::SubmissionCompleted => "submission-completed",
            IceAction::SubmissionFailed => "submission-failed",
            IceAction::EndOfCandidates => "end-of-candidates",
            IceAction::Invalid => "invalid",
        }
    }
}

#[derive(Debug, Clone, Copy, PartialEq, Eq, Structural)]
pub enum CandidateKind {
    Host,
    Srflx,
    Prflx,
    Relay,
    Unknown,
}

pub open spec fn kind_of(token: Seq<char>) -> CandidateKind {
    let word = text_ops::lower(token);
    if word == "host"@ {
        CandidateKind::Host
    } else if word == "srflx"@ {
        CandidateKind::Srflx
    } else if word == "prflx"@ {
        CandidateKind::Prflx
    } else if word == "relay"@ {
        CandidateKind::Relay
    } else {
        CandidateKind::Unknown
    }
}

pub open spec fn kind_word(kind: CandidateKind) -> Seq<char> {
    match kind {
        CandidateKind::Host => "host"@,
        CandidateKind::Srflx => "srflx"@,
        CandidateKind::Prflx => "prflx"@,
        CandidateKind::Relay => "relay"@,
        CandidateKind::Unknown => "unknown"@,
    }
}

impl CandidateKind {
    pub fn from_token(token: &str) -> (kind: CandidateKind)
        ensures
            kind == kind_of(token@),
    {
        let word = lower_string(token);
        if same_text(word.as_str(), "host") {
            CandidateKind::Host
        } else if same_text(word.as_str(), "srflx") {
            CandidateKind::Srflx
        } else if same_text(word.as_str(), "prflx") {
            CandidateKind::Prflx
        } else if same_text(word.as_str(), "relay") {
            CandidateKind::Relay
        } else {
            CandidateKind::Unknown
        }
    }

    pub fn as_str(self) -> (word: &'static str)
        ensures
            word@ == kind_word(self),
    {
        match self {
            CandidateKind::Host => "host",
            CandidateKind::Srflx => "srflx",
            CandidateKind::Prflx => "prflx",
            CandidateKind::Relay => "relay",
            CandidateKind::Unknown => "unknown",
        }
    }
}

#[derive(Debug, Clone, Copy, PartialEq, Eq, Structural)]
pub enum CandidateTransport {
    Udp,
    Tcp,
    Unknown,
}

pub open spec fn transport_of(token: Seq<char>) -> CandidateTransport {
    let word = text_ops::lower(token);
    if word == "udp"@ {
        CandidateTransport::Udp
    } else if word == "tcp"@ {
        CandidateTransport::Tcp
    } else {
        CandidateTransport::Unknown
    }
}

pub open spec fn transport_word(transport: CandidateTransport) -> Seq<char> {
    match transport {
        CandidateTransport::Udp => "udp"@,
        CandidateTransport::Tcp => "tcp"@,
        CandidateTransport::Unknown => "unknown"@,
    }
}

impl CandidateTransport {
    pub fn from_token(token: &str) -> (transport: CandidateTransport)
        ensures
            transport == transport_of(token@),
    {
        let word = lower_string(token);
        if same_text(word.as_str(), "udp") {
            CandidateTransport::Udp
        } else if same_text(word.as_str(), "tcp") {
            CandidateTransport::Tcp
        } else {
            CandidateTransport::Unknown
        }
    }

    pub fn as_str(self) -> (word: &'static str)
        ensures
            word@ == transport_word(self),
    {
        match self {
            CandidateTransport::Udp => "udp",
            CandidateTransport::Tcp => "tcp",
            CandidateTransport::Unknown => "unknown",
        }
    }
}

#[derive(Debug, Clone, Copy, PartialEq, Eq, Structural)]
pub enum CandidateFamily {
    Ipv4,
    Ipv6,
    Mdns,
    Unknown,
}

pub open spec fn family_word(family: CandidateFamily) -> Seq<char> {
    match family {
        CandidateFamily::Ipv4 => "ipv4"@,
        CandidateFamily::Ipv6 => "ipv6"@,
        CandidateFamily::Mdns => "mdns"@,
        CandidateFamily::Unknown => "unknown"@,
    }
}

impl CandidateFamily {
    pub fn as_str(self) -> (word: &'static str)
        ensures
            word@ == family_word(self),
    {
        match self {
            CandidateFamily::Ipv4 => "ipv4",
            CandidateFamily::Ipv6 => "ipv6",
            CandidateFamily::Mdns => "mdns",
            CandidateFamily::Unknown => "unknown",
        }
    }
}

#[derive(Debug, Clone, Copy, PartialEq, Eq, Structural)]
pub enum CandidateScope {
    Public,
    Private,
    Shared,
    LinkLocal,
    Loopback,
    Unknown,
}

pub open spec fn scope_word(scope: CandidateScope) -> Seq<char> {
    match scope {
        CandidateScope::Public => "public"@,
        CandidateScope::Private => "private"@,
        CandidateScope::Shared => "shared"@,
        CandidateScope::LinkLocal => "link-local"@,
        CandidateScope::Loopback => "loopback"@,
        CandidateScope::Unknown => "unknown"@,
    }
}

impl CandidateScope {
    pub fn as_str(self) -> (word: &'static str)
        ensures
            word@ == scope_word(self),
    {
        match self {
            CandidateScope::Public => "public",
            CandidateScope::Private => "private",
            CandidateScope::Shared => "shared",
            CandidateScope::LinkLocal => "link-local",
            CandidateScope::Loopback => "loopback",
            CandidateScope::Unknown => "unknown",
        }
    }
}

/// What diagnostics keep of a candidate: no address, no port, no name.
#[derive(Debug, Clone, Copy, PartialEq, Eq, Structural)]
pub struct CandidateMeta {
    pub kind: CandidateKind,
    pub transport: CandidateTransport,
    pub family: CandidateFamily,
    pub scope: CandidateScope,
}

#[derive(Debug, Clone, Copy, PartialEq, Eq, Structural)]
pub enum CandidateClass {
    Candidate(CandidateMeta),
    EndOfCandidates,
    Invalid,
}

/// The ranges that no peer can be reached at.
pub open spec fn unusable_ipv4(ip: Ipv4) -> bool {
    ||| ip.a == 0 || ip.a >= 224
    ||| ip.a == 192 && ip.b == 0 && ip.c == 2
    ||| ip.a == 198 && ip.b == 51 && ip.c == 100
    ||| ip.a == 203 && ip.b == 0 && ip.c == 113
    ||| ip.a == 198 && 18 <= ip.b <= 19
}

pub open spec fn ipv4_scope(ip: Ipv4) -> CandidateScope {
    if unusable_ipv4(ip) {
        CandidateScope::Unknown
    } else if ip.a == 100 && 64 <= ip.b <= 127 {
        CandidateScope::Shared
    } else if ip.a == 127 {
        CandidateScope::Loopback
    } else if ip.a == 169 && ip.b == 254 {
        CandidateScope::LinkLocal
    } else if ip.a == 10 || ip.a == 172 && 16 <= ip.b <= 31 || ip.a == 192 && ip.b == 168 {
        CandidateScope::Private
    } else {
        CandidateScope::Public
    }
}

/// 192.0.2.0/24, 198.51.100.0/24 and 203.0.113.0/24.
fn is_documentation_ipv4(ip: Ipv4) -> (yes: bool)
    ensures
        yes == ((ip.a == 192 && ip.b == 0 && ip.c == 2) || (ip.a == 198 && ip.b == 51 && ip.c
            == 100) || (ip.a == 203 && ip.b == 0 && ip.c == 113)),
{
    (ip.a == 192 && ip.b == 0 && ip.c == 2) || (ip.a == 198 && ip.b == 51 && ip.c == 100) || (ip.a
        == 203 && ip.b == 0 && ip.c == 113)
}

/// 198.18.0.0/15.
fn is_benchmark_ipv4(ip: Ipv4) -> (yes: bool)
    ensures
        yes == (ip.a == 198 && 18 <= ip.b <= 19),
{
    ip.a == 198 && 18 <= ip.b && ip.b <= 19
}

/// 0.0.0.0/8 and 240.0.0.0/4.
fn is_reserved_ipv4(ip: Ipv4) -> (yes: bool)
    ensures
        yes == (ip.a == 0 || ip.a >= 240),
{
    ip.a == 0 || ip.a >= 240
}

/// 100.64.0.0/10.
fn is_shared_cgnat_ipv4(ip: Ipv4) -> (yes: bool)
    ensures
        yes == (ip.a == 100 && 64 <= ip.b <= 127),
{
    ip.a == 100 && 64 <= ip.b && ip.b <= 127
}

pub fn classify_ipv4_scope(ip: Ipv4) -> (scope: CandidateScope)
    ensures
        scope == ipv4_scope(ip),
{
    let multicast = 224 <= ip.a && ip.a <= 239;
    if multicast || is_documentation_ipv4(ip) || is_benchmark_ipv4(ip) || is_reserved_ipv4(ip) {
        CandidateScope::Unknown
    } else if is_shared_cgnat_ipv4(ip) {
        CandidateScope::Shared
    } else if ip.a == 127 {
        CandidateScope::Loopback
    } else if ip.a == 169 && ip.b == 254 {
        CandidateScope::LinkLocal
    } else if ip.a == 10 || (ip.a == 172 && 16 <= ip.b && ip.b <= 31) || (ip.a == 192 && ip.b
        == 168) {
        CandidateScope::Private
    } else {
        CandidateScope::Public
    }
}

/// The groups up to `n` are zero.
pub open spec fn zero_until(groups: Seq<u16>, n: int) -> bool {
    forall|i: int| 0 <= i < n ==> groups[i] == 0
}

/// Scope of an IPv6 address that does not stand for an IPv4 address.
pub open spec fn ipv6_scope(groups: Seq<u16>) -> CandidateScope {
    if zero_until(groups, 8) || groups[0] >= 0xff00 || (groups[0] == 0x2001 && groups[1]
        == 0x0db8) {
        CandidateScope::Unknown
    } else if zero_until(groups, 7) && groups[7] == 1 {
        CandidateScope::Loopback
    } else if 0xfe80 <= groups[0] <= 0xfebf {
        CandidateScope::LinkLocal
    } else if 0xfc00 <= groups[0] <= 0xfdff {
        CandidateScope::Private
    } else {
        CandidateScope::Public
    }
}

fn zeros_until(groups: &Vec<u16>, n: usize) -> (yes: bool)
    requires
        n <= groups@.len(),
    ensures
        yes == zero_until(groups@, n as int),
{
    let mut i: usize = 0;
    while i < n
        invariant
            i <= n <= groups@.len(),
            zero_until(groups@, i as int),
        decreases n - i,
    {
        if groups[i] != 0 {
            return false;
        }
        i += 1;
    }
    true
}

/// 2001:db8::/32.
fn is_documentation_ipv6(groups: &Vec<u16>) -> (yes: bool)
    requires
        groups@.len() == 8,
    ensures
        yes == (groups@[0] == 0x2001 && groups@[1] == 0x0db8),
{
    groups[0] == 0x2001 && groups[1] == 0x0db8
}

pub fn classify_ipv6_scope(groups: &Vec<u16>) -> (scope: CandidateScope)
    requires
        groups@.len() == 8,
    ensures
        scope == ipv6_scope(groups@),
{
    let head: u16 = groups[0];
    if zeros_until(groups, 8) || head >= 0xff00 || is_documentation_ipv6(groups) {
        CandidateScope::Unknown
    } else if zeros_until(groups, 7) && groups[7] == 1 {
        CandidateScope::Loopback
    } else if 0xfe80 <= head && head <= 0xfebf {
        CandidateScope::LinkLocal
    } else if 0xfc00 <= head && head <= 0xfdff {
        CandidateScope::Private
    } else {
        CandidateScope::Public
    }
}

/// The IPv4 address that an IPv6 address of the form `::ffff:a.b.c.d` maps.
pub open spec fn mapped_ipv4(groups: Seq<u16>) -> Option<Ipv4> {
    if zero_until(groups, 5) && groups[5] == 0xffff {
        Some(
            Ipv4 {
                a: (groups[6] / 256) as u8,
                b: (groups[6] % 256) as u8,
                c: (groups[7] / 256) as u8,
                d: (groups[7] % 256) as u8,
            },
        )
    } else {
        None
    }
}

fn to_ipv4_mapped(groups: &Vec<u16>) -> (mapped: Option<Ipv4>)
    requires
        groups@.len() == 8,
    ensures
        mapped == mapped_ipv4(groups@),
{
    if zeros_until(groups, 5) && groups[5] == 0xffff {
        Some(
            Ipv4 {
                a: (groups[6] / 256) as u8,
                b: (groups[6] % 256) as u8,
                c: (groups[7] / 256) as u8,
                d: (groups[7] % 256) as u8,
            },
        )
    } else {
        None
    }
}

/// An address without white space and brackets round it.
pub open spec fn bare_address(raw: Seq<char>) -> Seq<char> {
    text_ops::stripped(text_ops::stripped(text_ops::trimmed(raw), '['), ']')
}

pub open spec fn address_class(raw: Seq<char>) -> (CandidateFamily, CandidateScope) {
    let text = bare_address(raw);
    if text.len() == 0 {
        (CandidateFamily::Unknown, CandidateScope::Unknown)
    } else if text_ops::closes_with(text_ops::lower(text), ".local"@) {
        (CandidateFamily::Mdns, CandidateScope::Unknown)
    } else {
        match addresses::address(text) {
            Some(AddressModel::V4(ip)) => (CandidateFamily::Ipv4, ipv4_scope(ip)),
            Some(AddressModel::V6(groups)) => match mapped_ipv4(groups) {
                Some(ip) => (CandidateFamily::Ipv6, ipv4_scope(ip)),
                None => (CandidateFamily::Ipv6, ipv6_scope(groups)),
            },
            None => (CandidateFamily::Unknown, CandidateScope::Unknown),
        }
    }
}

fn is_local_name(text: &Vec<char>) -> (yes: bool)
    ensures
        yes == text_ops::closes_with(text_ops::lower(text@), ".local"@),
{
    let suffix = chars_of(".local");
    proof {
        reveal_strlit(".local");
    }
    if text.len() < suffix.len() {
        return false;
    }
    let start: usize = text.len() - suffix.len();
    let ghost tail = text_ops::lower(text@).skip(start as int);
    let mut i: usize = 0;
    while i < suffix.len()
        invariant
            i <= suffix@.len(),
            start + suffix@.len() == text@.len(),
            text@.len() <= usize::MAX,
            suffix@ == ".local"@,
            tail == text_ops::lower(text@).skip(start as int),
            forall|k: int| 0 <= k < i ==> tail[k] == suffix@[k],
        decreases suffix@.len() - i,
    {
        let c: char = lower_of(text[start + i]);
        if c != suffix[i] {
            proof {
                assert(tail[i as int] == c);
                assert(tail != suffix@);
            }
            return false;
        }
        i += 1;
    }
    proof {
        assert(tail =~= suffix@);
    }
    true
}

pub fn classify_address(raw: &str) -> (class: (CandidateFamily, CandidateScope))
    ensures
        class == address_class(raw@),
{
    let chars = chars_of(raw);
    let outer = trim_bounds(&chars, 0, chars.len());
    let inner = strip_bounds(&chars, outer.0, outer.1, '[');
    let bounds = strip_bounds(&chars, inner.0, inner.1, ']');
    let mut text: Vec<char> = Vec::new();
    let mut i: usize = bounds.0;
    while i < bounds.1
        invariant
            bounds.0 <= i <= bounds.1 <= chars@.len(),
            text@ == chars@.subrange(bounds.0 as int, i as int),
        decreases bounds.1 - i,
    {
        text.push(chars[i]);
        i += 1;
        proof {
            assert(text@ =~= chars@.subrange(bounds.0 as int, i as int));
        }
    }
    proof {
        assert(chars@.subrange(0, chars@.len() as int) =~= raw@);
        assert(text@ == bare_address(raw@));
    }
    if text.len() == 0 {
        return (CandidateFamily::Unknown, CandidateScope::Unknown);
    }
    if is_local_name(&text) {
        return (CandidateFamily::Mdns, CandidateScope::Unknown);
    }
    proof {
        addresses::ipv6_has_eight_groups(text@);
    }
    match parse_address(&text) {
        Some(IpAddress::V4(ip)) => (CandidateFamily::Ipv4, classify_ipv4_scope(ip)),
        Some(IpAddress::V6(groups)) => {
            match to_ipv4_mapped(&groups) {
                Some(mapped) => (CandidateFamily::Ipv6, classify_ipv4_scope(mapped)),
                None => (CandidateFamily::Ipv6, classify_ipv6_scope(&groups)),
            }
        },
        None => (CandidateFamily::Unknown, CandidateScope::Unknown),
    }
}

/// What is kept of the parts of a candidate, of which each may be missing.
pub open spec fn parts_meta(
    kind: Option<Seq<char>>,
    transport: Option<Seq<char>>,
    address: Option<Seq<char>>,
) -> CandidateMeta {
    let (family, scope) = match address {
        Some(text) => address_class(text),
        None => (CandidateFamily::Unknown, CandidateScope::Unknown),
    };
    CandidateMeta {
        kind: match kind {
            Some(token) => kind_of(token),
            None => CandidateKind::Unknown,
        },
        transport: match transport {
            Some(token) => transport_of(token),
            None => CandidateTransport::Unknown,
        },
        family,
        scope,
    }
}

pub open spec fn unknown_meta() -> CandidateMeta {
    CandidateMeta {
        kind: CandidateKind::Unknown,
        transport: CandidateTransport::Unknown,
        family: CandidateFamily::Unknown,
        scope: CandidateScope::Unknown,
    }
}

/// What an event says of a candidate.
#[derive(Debug, Clone, Copy)]
pub struct CandidatePayload {
    pub direction: &'static str,
    pub action: &'static str,
    pub kind: &'static str,
    pub transport: &'static str,
    pub family: &'static str,
    pub scope: &'static str,
    pub mline: u32,
}

/// An event's words, each of them out of a fixed list.
pub open spec fn payload_says(
    payload: CandidatePayload,
    meta: CandidateMeta,
    direction: IceDirection,
    action: IceAction,
    mline: u32,
) -> bool {
    &&& payload.direction@ == direction_word(direction)
    &&& payload.action@ == action_word(action)
    &&& payload.kind@ == kind_word(meta.kind)
    &&& payload.transport@ == transport_word(meta.transport)
    &&& payload.family@ == family_word(meta.family)
    &&& payload.scope@ == scope_word(meta.scope)
    &&& payload.mline == mline
}

impl CandidateMeta {
    pub fn unknown() -> (meta: CandidateMeta)
        ensures
            meta == unknown_meta(),
    {
        CandidateMeta {
            kind: CandidateKind::Unknown,
            transport: CandidateTransport::Unknown,
            family: CandidateFamily::Unknown,
            scope: CandidateScope::Unknown,
        }
    }

    pub fn from_candidate_parts(
        kind: &Option<String>,
        transport: &Option<String>,
        address: &Option<String>,
    ) -> (meta: CandidateMeta)
        ensures
            meta == parts_meta(
                json::optional_text(*kind),
                json::optional_text(*transport),
                json::optional_text(*address),
            ),
    {
        let kind = match kind {
            Some(token) => CandidateKind::from_token(token.as_str()),
            None => CandidateKind::Unknown,
        };
        let transport = match transport {
            Some(token) => CandidateTransport::from_token(token.as_str()),
            None => CandidateTransport::Unknown,
        };
        let (family, scope) = match address {
            Some(text) => classify_address(text.as_str()),
            None => (CandidateFamily::Unknown, CandidateScope::Unknown),
        };
        CandidateMeta { kind, transport, family, scope }
    }

    pub fn payload(self, direction: IceDirection, action: IceAction, mline: u32) -> (payload:
        CandidatePayload)
        ensures
            payload_says(payload, self, direction, action, mline),
    {
        CandidatePayload {
            direction: direction.as_str(),
            action: action.as_str(),
            kind: self.kind.as_str(),
            transport: self.transport.as_str(),
            family: self.family.as_str(),
            scope: self.scope.as_str(),
            mline,
        }
    }
}

/// The text ends the list of candidates.
pub open spec fn ends_candidates(trimmed: Seq<char>) -> bool {
    ||| trimmed.len() == 0
    ||| text_ops::lower(trimmed) == "end-of-candidates"@
    ||| text_ops::lower(trimmed) == "a=end-of-candidates"@
}

/// What follows `candidate:`, with or without `a=` before it.
pub open spec fn candidate_body(trimmed: Seq<char>) -> Option<Seq<char>> {
    let rest = if text_ops::begins_with(trimmed, "a="@) {
        trimmed.skip(2)
    } else {
        trimmed
    };
    if text_ops::begins_with(rest, "candidate:"@) {
        Some(rest.skip(10))
    } else {
        None
    }
}

/// The words of a candidate line.
pub open spec fn candidate_tokens(candidate: Seq<char>) -> Option<Seq<Seq<char>>> {
    let trimmed = text_ops::trimmed(candidate);
    if ends_candidates(trimmed) {
        None
    } else {
        match candidate_body(trimmed) {
            Some(body) => Some(text_ops::words(body)),
            None => None,
        }
    }
}

/// The words of a candidate line have the order of RFC 5245: foundation,
/// component, transport, priority, address, port, `typ`, kind. Component,
/// priority and port are numbers other than zero.
pub open spec fn candidate_fields(tokens: Seq<Seq<char>>) -> bool {
    &&& tokens.len() >= 8
    &&& text_ops::unsigned(tokens[1], u32::MAX as nat) matches Some(component) && component > 0
    &&& text_ops::unsigned(tokens[3], u64::MAX as nat) matches Some(priority) && priority > 0
    &&& text_ops::unsigned(tokens[5], u16::MAX as nat) matches Some(port) && port > 0
    &&& text_ops::lower(tokens[6]) == "typ"@
}

/// How a candidate text is classified.
pub open spec fn candidate_class(candidate: Seq<char>, bytes: int) -> CandidateClass {
    if bytes > MAX_CANDIDATE_BYTES {
        CandidateClass::Invalid
    } else if ends_candidates(text_ops::trimmed(candidate)) {
        CandidateClass::EndOfCandidates
    } else {
        match candidate_tokens(candidate) {
            Some(tokens) => if candidate_fields(tokens) {
                CandidateClass::Candidate(
                    CandidateMeta {
                        kind: kind_of(tokens[7]),
                        transport: transport_of(tokens[2]),
                        family: address_class(tokens[4]).0,
                        scope: address_class(tokens[4]).1,
                    },
                )
            } else {
                CandidateClass::Invalid
            },
            None => CandidateClass::Invalid,
        }
    }
}

fn ends_the_candidates(trimmed: &str) -> (yes: bool)
    ensures
        yes == ends_candidates(trimmed@),
{
    if same_text(trimmed, "") {
        proof {
            reveal_strlit("");
        }
        return true;
    }
    proof {
        reveal_strlit("");
        assert(trimmed@.len() == 0 ==> trimmed@ =~= ""@);
    }
    let word = lower_string(trimmed);
    same_text(word.as_str(), "end-of-candidates") || same_text(
        word.as_str(),
        "a=end-of-candidates",
    )
}

fn has_prefix(chars: &Vec<char>, from: usize, prefix: &str) -> (yes: bool)
    requires
        from <= chars@.len(),
    ensures
        yes == text_ops::begins_with(chars@.skip(from as int), prefix@),
{
    let wanted = chars_of(prefix);
    let ghost rest = chars@.skip(from as int);
    if chars.len() - from < wanted.len() {
        return false;
    }
    let mut i: usize = 0;
    while i < wanted.len()
        invariant
            i <= wanted@.len(),
            from + wanted@.len() <= chars@.len() <= usize::MAX,
            wanted@ == prefix@,
            rest == chars@.skip(from as int),
            forall|k: int| 0 <= k < i ==> rest[k] == wanted@[k],
        decreases wanted@.len() - i,
    {
        if chars[from + i] != wanted[i] {
            proof {
                assert(rest[i as int] != prefix@[i as int]);
                assert(rest.take(prefix@.len() as int)[i as int] != prefix@[i as int]);
            }
            return false;
        }
        i += 1;
    }
    proof {
        assert(rest.take(prefix@.len() as int) =~= prefix@);
    }
    true
}

pub fn parse_candidate_tokens(candidate: &str) -> (tokens: Option<Vec<Vec<char>>>)
    ensures
        match candidate_tokens(candidate@) {
            Some(words) => tokens matches Some(list) && text_ops::vectors(list@) == words,
            None => tokens is None,
        },
{
    let trimmed = text_ops::trim(candidate);
    if ends_the_candidates(trimmed.as_str()) {
        return None;
    }
    let chars = chars_of(trimmed.as_str());
    proof {
        reveal_strlit("a=");
        reveal_strlit("candidate:");
        assert(chars@.skip(0) =~= chars@);
    }
    let start: usize = if has_prefix(&chars, 0, "a=") {
        2
    } else {
        0
    };
    if !has_prefix(&chars, start, "candidate:") {
        return None;
    }
    proof {
        assert(chars@.skip(start as int).skip(10) =~= chars@.subrange(
            start + 10,
            chars@.len() as int,
        ));
    }
    Some(split_words(&chars, start + 10, chars.len()))
}

/// The parts of a candidate line that say what kind of candidate it is.
pub struct CandidateStructure {
    pub component: u64,
    pub transport: CandidateTransport,
    pub priority: u64,
    pub port: u64,
    pub kind: CandidateKind,
    pub address: String,
}

/// The parts of a candidate line, where each has the right form.
pub open spec fn structure_of(tokens: Seq<Seq<char>>, parts: CandidateStructure) -> bool {
    &&& text_ops::unsigned(tokens[1], u32::MAX as nat) == Some(parts.component as nat)
    &&& parts.transport == transport_of(tokens[2])
    &&& text_ops::unsigned(tokens[3], u64::MAX as nat) == Some(parts.priority as nat)
    &&& parts.address@ == tokens[4]
    &&& text_ops::unsigned(tokens[5], u16::MAX as nat) == Some(parts.port as nat)
    &&& parts.kind == kind_of(tokens[7])
}

pub open spec fn well_formed_tokens(tokens: Seq<Seq<char>>) -> bool {
    &&& tokens.len() >= 8
    &&& text_ops::unsigned(tokens[1], u32::MAX as nat) is Some
    &&& text_ops::unsigned(tokens[3], u64::MAX as nat) is Some
    &&& text_ops::unsigned(tokens[5], u16::MAX as nat) is Some
    &&& text_ops::lower(tokens[6]) == "typ"@
}

pub fn validate_candidate_structure(tokens: &Vec<Vec<char>>) -> (parts: Option<CandidateStructure>)
    ensures
        parts is Some <==> well_formed_tokens(text_ops::vectors(tokens@)),
        parts matches Some(found) ==> structure_of(text_ops::vectors(tokens@), found),
{
    let ghost words = text_ops::vectors(tokens@);
    if tokens.len() < 8 {
        return None;
    }
    proof {
        assert forall|i: int| 0 <= i < tokens@.len() implies words[i] == #[trigger] tokens@[i]@ by {}
        assert forall|i: int| 0 <= i < tokens@.len() implies tokens@[i]@.subrange(
            0,
            tokens@[i]@.len() as int,
        ) == #[trigger] words[i] by {
            assert(tokens@[i]@.subrange(0, tokens@[i]@.len() as int) =~= tokens@[i]@);
        }
        assert(words[1] == tokens@[1]@ && words[2] == tokens@[2]@ && words[3] == tokens@[3]@);
        assert(words[4] == tokens@[4]@ && words[5] == tokens@[5]@ && words[6] == tokens@[6]@);
        assert(words[7] == tokens@[7]@);
    }
    let component = parse_unsigned(&tokens[1], 0, tokens[1].len(), 0xffff_ffff);
    let priority = parse_unsigned(&tokens[3], 0, tokens[3].len(), 0xffff_ffff_ffff_ffff);
    let port = parse_unsigned(&tokens[5], 0, tokens[5].len(), 0xffff);
    let typ = lower_string(string_of(&tokens[6], 0, tokens[6].len()).as_str());
    match (component, priority, port) {
        (Some(component), Some(priority), Some(port)) => {
            if !same_text(typ.as_str(), "typ") {
                return None;
            }
            let transport = string_of(&tokens[2], 0, tokens[2].len());
            let kind = string_of(&tokens[7], 0, tokens[7].len());
            let address = string_of(&tokens[4], 0, tokens[4].len());
            Some(
                CandidateStructure {
                    component,
                    transport: CandidateTransport::from_token(transport.as_str()),
                    priority,
                    port,
                    kind: CandidateKind::from_token(kind.as_str()),
                    address,
                },
            )
        },
        _ => None,
    }
}

/// Classifies an ICE candidate line. A text longer than the cap, a text of
/// another form, and a component, priority or port of zero are invalid.
pub fn classify_candidate(candidate: &str) -> (class: CandidateClass)
    ensures
        class == candidate_class(candidate@, candidate.spec_bytes().len() as int),
{
    if candidate.as_bytes().len() > MAX_CANDIDATE_BYTES {
        return CandidateClass::Invalid;
    }
    let tokens = match parse_candidate_tokens(candidate) {
        Some(tokens) => tokens,
        None => {
            let trimmed = text_ops::trim(candidate);
            if ends_the_candidates(trimmed.as_str()) {
                return CandidateClass::EndOfCandidates;
            }
            return CandidateClass::Invalid;
        },
    };
    let parts = match validate_candidate_structure(&tokens) {
        Some(parts) => parts,
        None => return CandidateClass::Invalid,
    };
    if parts.component == 0 || parts.priority == 0 || parts.port == 0 {
        return CandidateClass::Invalid;
    }
    let (family, scope) = classify_address(parts.address.as_str());
    CandidateClass::Candidate(
        CandidateMeta { kind: parts.kind, transport: parts.transport, family, scope },
    )
}

/// What an event says of a candidate, as JSON text.
pub open spec fn payload_json(payload: CandidatePayload) -> Seq<char> {
    json::json_object(
        seq![
            ("direction"@, json::json_string(payload.direction@)),
            ("action"@, json::json_string(payload.action@)),
            ("kind"@, json::json_string(payload.kind@)),
            ("transport"@, json::json_string(payload.transport@)),
            ("family"@, json::json_string(payload.family@)),
            ("scope"@, json::json_string(payload.scope@)),
            ("mline"@, text_ops::decimal(payload.mline as nat)),
        ],
    )
}

pub fn candidate_payload_json(payload: &CandidatePayload) -> (out: String)
    ensures
        out@ == payload_json(*payload),
{
    let mut members: Vec<Member> = Vec::new();
    members.push(text_member("direction", payload.direction));
    members.push(text_member("action", payload.action));
    members.push(text_member("kind", payload.kind));
    members.push(text_member("transport", payload.transport));
    members.push(text_member("family", payload.family));
    members.push(text_member("scope", payload.scope));
    members.push(number_member("mline", payload.mline as u128));
    proof {
        assert(json::member_texts(members@) =~= seq![
            ("direction"@, json::json_string(payload.direction@)),
            ("action"@, json::json_string(payload.action@)),
            ("kind"@, json::json_string(payload.kind@)),
            ("transport"@, json::json_string(payload.transport@)),
            ("family"@, json::json_string(payload.family@)),
            ("scope"@, json::json_string(payload.scope@)),
            ("mline"@, text_ops::decimal(payload.mline as nat)),
        ]);
    }
    object(&members)
}

/// What an event keeps of a classified candidate.
pub open spec fn class_meta(class: CandidateClass) -> CandidateMeta {
    match class {
        CandidateClass::Candidate(meta) => meta,
        CandidateClass::EndOfCandidates => unknown_meta(),
        CandidateClass::Invalid => unknown_meta(),
    }
}

/// Two candidates of one class give the same event text, whatever addresses,
/// names and ports they hold.
pub proof fn event_tells_the_class_only(
    a: &str,
    b: &str,
    of_a: CandidatePayload,
    of_b: CandidatePayload,
    direction: IceDirection,
    action: IceAction,
    mline: u32,
)
    requires
        candidate_class(a@, a.spec_bytes().len() as int) == candidate_class(
            b@,
            b.spec_bytes().len() as int,
        ),
        payload_says(
            of_a,
            class_meta(candidate_class(a@, a.spec_bytes().len() as int)),
            direction,
            action,
            mline,
        ),
        payload_says(
            of_b,
            class_meta(candidate_class(b@, b.spec_bytes().len() as int)),
            direction,
            action,
            mline,
        ),
    ensures
        payload_json(of_a) == payload_json(of_b),
{
}

/// The words that an event can hold.
pub open spec fn event_word(word: Seq<char>) -> bool {
    ||| word == "local"@ || word == "remote"@
    ||| word == "gathered"@ || word == "signalled"@ || word == "signalling-closed"@
    ||| word == "submitted"@ || word == "submission-completed"@ || word == "submission-failed"@
    ||| word == "end-of-candidates"@ || word == "invalid"@
    ||| word == "host"@ || word == "srflx"@ || word == "prflx"@ || word == "relay"@
    ||| word == "udp"@ || word == "tcp"@
    ||| word == "ipv4"@ || word == "ipv6"@ || word == "mdns"@
    ||| word == "public"@ || word == "private"@ || word == "shared"@ || word == "link-local"@
    ||| word == "loopback"@ || word == "unknown"@
}

/// Every word of an event is out of a fixed list, so no part of a candidate
/// text reaches the diagnostics.
pub proof fn event_words_are_fixed(
    payload: CandidatePayload,
    meta: CandidateMeta,
    direction: IceDirection,
    action: IceAction,
    mline: u32,
)
    requires
        payload_says(payload, meta, direction, action, mline),
    ensures
        event_word(payload.direction@),
        event_word(payload.action@),
        event_word(payload.kind@),
        event_word(payload.transport@),
        event_word(payload.family@),
        event_word(payload.scope@),
{
}

/// Counts the candidate events of one role and stops them at the cap.
#[derive(Debug)]
pub struct IceEventTracker {
    pub role: String,
    pub emitted: u16,
    pub dropped: u32,
}

impl IceEventTracker {
    pub fn new(role: &str) -> (tracker: IceEventTracker)
        ensures
            tracker.role@ == role@,
            tracker.emitted == 0,
            tracker.dropped == 0,
    {
        IceEventTracker { role: role.to_owned(), emitted: 0, dropped: 0 }
    }

    /// The payload of the event about the media runtime's version.
    pub fn emit_runtime_once(&self, major: u32, minor: u32, micro: u32, nano: u32) -> (payload:
        String)
        ensures
            payload@ == json::json_object(
                seq![
                    ("gst_major"@, text_ops::decimal(major as nat)),
                    ("gst_micro"@, text_ops::decimal(micro as nat)),
                    ("gst_minor"@, text_ops::decimal(minor as nat)),
                    ("gst_nano"@, text_ops::decimal(nano as nat)),
                ],
            ),
    {
        let mut members: Vec<Member> = Vec::new();
        members.push(number_member("gst_major", major as u128));
        members.push(number_member("gst_micro", micro as u128));
        members.push(number_member("gst_minor", minor as u128));
        members.push(number_member("gst_nano", nano as u128));
        proof {
            assert(json::member_texts(members@) =~= seq![
                ("gst_major"@, text_ops::decimal(major as nat)),
                ("gst_micro"@, text_ops::decimal(micro as nat)),
                ("gst_minor"@, text_ops::decimal(minor as nat)),
                ("gst_nano"@, text_ops::decimal(nano as nat)),
            ]);
        }
        object(&members)
    }

    /// The payload of the event about a candidate, as long as the role has
    /// events left; after that the event is dropped and counted.
    pub fn emit(
        &mut self,
        direction: IceDirection,
        action: IceAction,
        mline: u32,
        class: CandidateClass,
    ) -> (payload: Option<CandidatePayload>)
        ensures
            final(self).role == old(self).role,
            (final(self).emitted as int, final(self).dropped as int) == counted(
                old(self).emitted as int,
                old(self).dropped as int,
            ),
            payload is Some <==> old(self).emitted < MAX_ICE_EVENTS_PER_ROLE,
            payload is Some <==> still_told(old(self).emitted as int),
            payload matches Some(said) ==> payload_says(
                said,
                class_meta(class),
                direction,
                action,
                mline,
            ),
    {
        if self.emitted >= MAX_ICE_EVENTS_PER_ROLE {
            self.dropped = self.dropped.saturating_add(1);
            return None;
        }
        self.emitted = self.emitted + 1;
        let metadata = match class {
            CandidateClass::Candidate(meta) => meta,
            CandidateClass::EndOfCandidates => CandidateMeta::unknown(),
            CandidateClass::Invalid => CandidateMeta::unknown(),
        };
        Some(metadata.payload(direction, action, mline))
    }
}

/// A role that has told so many events tells one more.
pub open spec fn still_told(emitted: int) -> bool {
    emitted < MAX_ICE_EVENTS_PER_ROLE
}

/// The two counters after one more event.
pub open spec fn counted(emitted: int, dropped: int) -> (int, int) {
    if emitted < MAX_ICE_EVENTS_PER_ROLE {
        (emitted + 1, dropped)
    } else if dropped < u32::MAX {
        (emitted, dropped + 1)
    } else {
        (emitted, dropped)
    }
}

/// The two counters of a new tracker after `n` events.
pub open spec fn counted_after(n: nat) -> (int, int)
    decreases n,
{
    if n == 0 {
        (0, 0)
    } else {
        let (emitted, dropped) = counted_after((n - 1) as nat);
        counted(emitted, dropped)
    }
}

/// However many events there are, a role emits the first ones up to the cap
/// and drops the rest: the counters never wrap.
pub proof fn cap_holds_for_any_number_of_events(n: nat)
    ensures
        counted_after(n).0 == if n <= MAX_ICE_EVENTS_PER_ROLE {
            n as int
        } else {
            MAX_ICE_EVENTS_PER_ROLE as int
        },
        counted_after(n).1 == if n <= MAX_ICE_EVENTS_PER_ROLE {
            0
        } else if n - MAX_ICE_EVENTS_PER_ROLE <= u32::MAX {
            n - MAX_ICE_EVENTS_PER_ROLE
        } else {
            u32::MAX as int
        },
    decreases n,
{
    if n > 0 {
        cap_holds_for_any_number_of_events((n - 1) as nat);
    }
}

/// One end of the route that media takes.
#[derive(Debug, Clone, Copy)]
pub struct IceRouteCandidate {
    pub kind: &'static str,
    pub transport: &'static str,
    pub family: &'static str,
    pub scope: &'static str,
}

pub open spec fn route_says(candidate: IceRouteCandidate, meta: CandidateMeta) -> bool {
    &&& candidate.kind@ == kind_word(meta.kind)
    &&& candidate.transport@ == transport_word(meta.transport)
    &&& candidate.family@ == family_word(meta.family)
    &&& candidate.scope@ == scope_word(meta.scope)
}

impl IceRouteCandidate {
    pub fn of(value: CandidateMeta) -> (candidate: IceRouteCandidate)
        ensures
            route_says(candidate, value),
    {
        IceRouteCandidate {
            kind: value.kind.as_str(),
            transport: value.transport.as_str(),
            family: value.family.as_str(),
            scope: value.scope.as_str(),
        }
    }
}

#[derive(Debug)]
pub struct IceRouteReport {
    pub selected: bool,
    pub local: Option<IceRouteCandidate>,
    pub remote: Option<IceRouteCandidate>,
}

/// One entry of the connection's statistics: the name it stands under and the
/// text fields that route selection reads.
#[derive(Debug)]
pub struct RouteSample {
    pub key: String,
    pub id: Option<String>,
    pub selected_candidate_pair_id: Option<String>,
    pub local_candidate_id: Option<String>,
    pub remote_candidate_id: Option<String>,
    pub candidate_type: Option<String>,
    pub protocol: Option<String>,
    pub address: Option<String>,
    pub ip: Option<String>,
}

/// The identifier of a sample: its own, or the name it stands under.
pub open spec fn sample_id(sample: RouteSample) -> Seq<char> {
    match sample.id {
        Some(id) => if id@.len() > 0 {
            id@
        } else {
            sample.key@
        },
        None => sample.key@,
    }
}

/// The sample with this identifier; a later one replaces an earlier one.
pub open spec fn sample_at(samples: Seq<RouteSample>, id: Seq<char>) -> Option<int>
    decreases samples.len(),
{
    if samples.len() == 0 {
        None
    } else if sample_id(samples.last()) == id {
        Some(samples.len() - 1)
    } else {
        sample_at(samples.drop_last(), id)
    }
}

/// The sample names the selected pair and was not replaced.
pub open spec fn names_pair(samples: Seq<RouteSample>, i: int) -> bool {
    &&& 0 <= i < samples.len()
    &&& sample_at(samples, sample_id(samples[i])) == Some(i)
    &&& samples[i].selected_candidate_pair_id matches Some(id) && id@.len() > 0
}

/// The first sample from `i` on that names the selected pair.
pub open spec fn naming_sample(samples: Seq<RouteSample>, i: int) -> Option<int>
    decreases samples.len() - i,
{
    if i < 0 || i >= samples.len() {
        None
    } else if names_pair(samples, i) {
        Some(i)
    } else {
        naming_sample(samples, i + 1)
    }
}

/// What is kept of a candidate sample.
pub open spec fn sample_meta(sample: RouteSample) -> CandidateMeta {
    parts_meta(
        json::optional_text(sample.candidate_type),
        json::optional_text(sample.protocol),
        match sample.address {
            Some(text) => Some(text@),
            None => json::optional_text(sample.ip),
        },
    )
}

/// The two ends of the selected route. There is one where a sample names a
/// pair, the pair is listed and names both its candidates, and both are
/// listed. Where several samples name a pair, the first of them counts.
pub open spec fn selected_route(samples: Seq<RouteSample>) -> Option<
    (CandidateMeta, CandidateMeta),
> {
    match naming_sample(samples, 0) {
        Some(at) => {
            let pair_id = samples[at].selected_candidate_pair_id->0@;
            match sample_at(samples, pair_id) {
                Some(pair) => match (
                    samples[pair].local_candidate_id,
                    samples[pair].remote_candidate_id,
                ) {
                    (Some(local), Some(remote)) => match (
                        sample_at(samples, local@),
                        sample_at(samples, remote@),
                    ) {
                        (Some(l), Some(r)) => Some(
                            (sample_meta(samples[l]), sample_meta(samples[r])),
                        ),
                        _ => None,
                    },
                    _ => None,
                },
                None => None,
            }
        },
        None => None,
    }
}

fn has_id(sample: &RouteSample, id: &str) -> (yes: bool)
    ensures
        yes == (sample_id(*sample) == id@),
{
    match &sample.id {
        Some(own) => if own.as_str().is_empty() {
            same_text(sample.key.as_str(), id)
        } else {
            same_text(own.as_str(), id)
        },
        None => same_text(sample.key.as_str(), id),
    }
}

fn find_sample(samples: &Vec<RouteSample>, id: &str) -> (at: Option<usize>)
    ensures
        match sample_at(samples@, id@) {
            Some(i) => 0 <= i < samples@.len() && (at matches Some(k) && k == i),
            None => at is None,
        },
{
    let mut i: usize = samples.len();
    proof {
        assert(samples@.take(samples@.len() as int) =~= samples@);
    }
    while i > 0
        invariant
            i <= samples@.len() <= usize::MAX,
            sample_at(samples@, id@) == sample_at(samples@.take(i as int), id@),
        decreases i,
    {
        proof {
            assert(samples@.take(i as int).drop_last() =~= samples@.take(i - 1));
        }
        if has_id(&samples[i - 1], id) {
            return Some(i - 1);
        }
        i -= 1;
    }
    None
}

fn find_naming_sample(samples: &Vec<RouteSample>) -> (at: Option<usize>)
    ensures
        match naming_sample(samples@, 0) {
            Some(i) => names_pair(samples@, i) && (at matches Some(k) && k == i),
            None => at is None,
        },
{
    let mut i: usize = 0;
    while i < samples.len()
        invariant
            i <= samples@.len(),
            naming_sample(samples@, 0) == naming_sample(samples@, i as int),
        decreases samples@.len() - i,
    {
        if let Some(pair) = &samples[i].selected_candidate_pair_id {
            if !pair.as_str().is_empty() {
                let own = match &samples[i].id {
                    Some(id) => if id.as_str().is_empty() {
                        find_sample(samples, samples[i].key.as_str())
                    } else {
                        find_sample(samples, id.as_str())
                    },
                    None => find_sample(samples, samples[i].key.as_str()),
                };
                if own == Some(i) {
                    return Some(i);
                }
            }
        }
        i += 1;
    }
    None
}

pub fn candidate_meta_from_stats(candidate: &RouteSample) -> (meta: CandidateMeta)
    ensures
        meta == sample_meta(*candidate),
{
    match &candidate.address {
        Some(_) => CandidateMeta::from_candidate_parts(
            &candidate.candidate_type,
            &candidate.protocol,
            &candidate.address,
        ),
        None => CandidateMeta::from_candidate_parts(
            &candidate.candidate_type,
            &candidate.protocol,
            &candidate.ip,
        ),
    }
}

/// The route that the connection has selected.
pub fn selected_ice_route(samples: &Vec<RouteSample>) -> (report: IceRouteReport)
    ensures
        match selected_route(samples@) {
            Some((local, remote)) => {
                &&& report.selected
                &&& report.local matches Some(end) && route_says(end, local)
                &&& report.remote matches Some(end) && route_says(end, remote)
            },
            None => !report.selected && report.local is None && report.remote is None,
        },
{
    let none = IceRouteReport { selected: false, local: None, remote: None };
    let naming = match find_naming_sample(samples) {
        Some(naming) => naming,
        None => return none,
    };
    let pair_id = match &samples[naming].selected_candidate_pair_id {
        Some(id) => id.as_str(),
        None => return none,
    };
    let pair = match find_sample(samples, pair_id) {
        Some(pair) => pair,
        None => return none,
    };
    match (&samples[pair].local_candidate_id, &samples[pair].remote_candidate_id) {
        (Some(local_id), Some(remote_id)) => {
            let local = find_sample(samples, local_id.as_str());
            let remote = find_sample(samples, remote_id.as_str());
            match (local, remote) {
                (Some(local), Some(remote)) => IceRouteReport {
                    selected: true,
                    local: Some(IceRouteCandidate::of(candidate_meta_from_stats(&samples[local]))),
                    remote: Some(
                        IceRouteCandidate::of(candidate_meta_from_stats(&samples[remote])),
                    ),
                },
                _ => none,
            }
        },
        _ => none,
    }
}

pub open spec fn route_end_json(end: IceRouteCandidate) -> Seq<char> {
    json::json_object(
        seq![
            ("kind"@, json::json_string(end.kind@)),
            ("transport"@, json::json_string(end.transport@)),
            ("family"@, json::json_string(end.family@)),
            ("scope"@, json::json_string(end.scope@)),
        ],
    )
}

fn route_end_text(end: &IceRouteCandidate) -> (out: String)
    ensures
        out@ == route_end_json(*end),
{
    let mut members: Vec<Member> = Vec::new();
    members.push(text_member("kind", end.kind));
    members.push(text_member("transport", end.transport));
    members.push(text_member("family", end.family));
    members.push(text_member("scope", end.scope));
    proof {
        assert(json::member_texts(members@) =~= seq![
            ("kind"@, json::json_string(end.kind@)),
            ("transport"@, json::json_string(end.transport@)),
            ("family"@, json::json_string(end.family@)),
            ("scope"@, json::json_string(end.scope@)),
        ]);
    }
    object(&members)
}

/// The members of a route report; an end that is not known is left out.
pub open spec fn route_members(report: IceRouteReport) -> Seq<(Seq<char>, Seq<char>)> {
    let first = seq![("selected"@, json::json_bool(report.selected))];
    let second = match report.local {
        Some(end) => first.push(("local"@, route_end_json(end))),
        None => first,
    };
    match report.remote {
        Some(end) => second.push(("remote"@, route_end_json(end))),
        None => second,
    }
}

/// A route report as JSON text.
pub fn route_report_json(report: &IceRouteReport) -> (out: String)
    ensures
        out@ == json::json_object(route_members(*report)),
{
    let mut members: Vec<Member> = Vec::new();
    members.push(flag_member("selected", report.selected));
    let ghost first = json::member_texts(members@);
    proof {
        assert(first =~= seq![("selected"@, json::json_bool(report.selected))]);
    }
    if let Some(end) = &report.local {
        let text = route_end_text(end);
        members.push(raw_member("local", text.as_str()));
        proof {
            assert(json::member_texts(members@) =~= first.push(("local"@, route_end_json(*end))));
        }
    }
    let ghost second = json::member_texts(members@);
    if let Some(end) = &report.remote {
        let text = route_end_text(end);
        members.push(raw_member("remote", text.as_str()));
        proof {
            assert(json::member_texts(members@) =~= second.push(
                ("remote"@, route_end_json(*end)),
            ));
        }
    }
    object(&members)
}

/// A report names both ends of a route or none.
pub proof fn route_has_both_ends_or_none(samples: Seq<RouteSample>, report: IceRouteReport)
    requires
        match selected_route(samples) {
            Some((local, remote)) => {
                &&& report.selected
                &&& report.local matches Some(end) && route_says(end, local)
                &&& report.remote matches Some(end) && route_says(end, remote)
            },
            None => !report.selected && report.local is None && report.remote is None,
        },
    ensures
        report.selected == report.local is Some,
        report.selected == report.remote is Some,
{
}

} // verus!
