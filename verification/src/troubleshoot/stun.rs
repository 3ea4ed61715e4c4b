//! The STUN binding request, the judgement of its response, and the attempts
//! of one probe.

use crate::text_ops::{self, chars_of, parse_unsigned, starts_with, string_of};
use crate::troubleshoot::StunProbeStatus;
use vstd::prelude::*;

verus! {

/// The position behind the last colon, or zero where there is none.
pub open spec fn behind_last_colon(text: Seq<char>) -> int
    decreases text.len(),
{
    if text.len() == 0 {
        0
    } else if text.last() == ':' {
        text.len() as int
    } else {
        behind_last_colon(text.drop_last())
    }
}

/// The host and port of an endpoint such as `stun://host:port`. The host is
/// not empty, and everything up to the last colon belongs to it.
pub open spec fn endpoint_read(endpoint: Seq<char>) -> Option<(Seq<char>, u16)> {
    if !text_ops::begins_with(endpoint, "stun://"@) {
        None
    } else {
        let rest = endpoint.skip(7);
        let port_at = behind_last_colon(rest);
        if port_at <= 1 {
            None
        } else {
            match text_ops::unsigned(rest.skip(port_at), u16::MAX as nat) {
                Some(port) => Some((rest.take(port_at - 1), port as u16)),
                None => None,
            }
        }
    }
}

proof fn lemma_behind_last_colon(text: Seq<char>, at: int)
    requires
        0 <= at <= text.len(),
        at > 0 ==> text[at - 1] == ':',
        forall|i: int| at <= i < text.len() ==> #[trigger] text[i] != ':',
    ensures
        behind_last_colon(text) == at,
    decreases text.len(),
{
    if text.len() > at {
        let rest = text.drop_last();
        assert(text.last() == text[text.len() - 1]);
        lemma_behind_last_colon(rest, at);
    }
}

pub fn parse_stun_endpoint(endpoint: &str) -> (parsed: Option<(String, u16)>)
    ensures
        match endpoint_read(endpoint@) {
            Some((host, port)) => parsed is Some && parsed.unwrap().0@ == host
                && parsed.unwrap().1 == port,
            None => parsed is None,
        },
{
    if !starts_with(endpoint, "stun://") {
        return None;
    }
    let chars = chars_of(endpoint);
    let n: usize = chars.len();
    proof {
        reveal_strlit("stun://");
        assert(n >= 7);
    }
    let mut at: usize = n;
    while at > 7 && chars[at - 1] != ':'
        invariant
            7 <= at <= n == chars@.len(),
            forall|i: int| at <= i < n ==> #[trigger] chars@[i] != ':',
        decreases at,
    {
        at -= 1;
    }
    proof {
        let rest = endpoint@.skip(7);
        assert forall|i: int| at - 7 <= i < rest.len() implies #[trigger] rest[i] != ':' by {
            assert(rest[i] == chars@[i + 7]);
        }
        lemma_behind_last_colon(rest, at - 7);
        assert(rest.skip(at - 7) =~= chars@.subrange(at as int, n as int));
    }
    if at <= 8 {
        return None;
    }
    match parse_unsigned(&chars, at, n, u16::MAX as u64) {
        None => None,
        Some(port) => {
            proof {
                assert(endpoint@.skip(7).take(at - 7 - 1) =~= chars@.subrange(7, at - 1));
            }
            Some((string_of(&chars, 7, at - 1), port as u16))
        },
    }
}

pub open spec fn be16(bytes: Seq<u8>, at: int) -> int {
    bytes[at] * 256 + bytes[at + 1]
}

pub open spec fn be32(bytes: Seq<u8>, at: int) -> int {
    be16(bytes, at) * 65536 + be16(bytes, at + 2)
}

/// The four bytes of a word, the highest first.
pub open spec fn word_bytes(word: u32) -> Seq<u8> {
    seq![
        (word / 16777216) as u8,
        (word / 65536 % 256) as u8,
        (word / 256 % 256) as u8,
        (word % 256) as u8,
    ]
}

/// A transaction identifier from three random words.
pub fn random_transaction_id(words: [u32; 3]) -> (id: [u8; 12])
    ensures
        id@ == word_bytes(words[0]) + word_bytes(words[1]) + word_bytes(words[2]),
{
    let a: u32 = words[0];
    let b: u32 = words[1];
    let c: u32 = words[2];
    let id: [u8; 12] = [
        (a / 16777216) as u8,
        (a / 65536 % 256) as u8,
        (a / 256 % 256) as u8,
        (a % 256) as u8,
        (b / 16777216) as u8,
        (b / 65536 % 256) as u8,
        (b / 256 % 256) as u8,
        (b % 256) as u8,
        (c / 16777216) as u8,
        (c / 65536 % 256) as u8,
        (c / 256 % 256) as u8,
        (c % 256) as u8,
    ];
    proof {
        assert(id@ =~= word_bytes(words[0]) + word_bytes(words[1]) + word_bytes(words[2]));
    }
    id
}

/// A binding request without attributes: its type, no length, the magic
/// cookie, and the transaction's identifier.
pub fn stun_binding_request(transaction_id: [u8; 12]) -> (packet: [u8; 20])
    ensures
        packet@ == seq![0u8, 1u8, 0u8, 0u8, 0x21u8, 0x12u8, 0xA4u8, 0x42u8] + transaction_id@,
{
    let id = transaction_id;
    let packet: [u8; 20] = [
        0, 1, 0, 0, 0x21, 0x12, 0xA4, 0x42, id[0], id[1], id[2], id[3], id[4], id[5], id[6], id[7],
        id[8], id[9], id[10], id[11],
    ];
    proof {
        assert(packet@ =~= seq![0u8, 1u8, 0u8, 0u8, 0x21u8, 0x12u8, 0xA4u8, 0x42u8]
            + transaction_id@);
    }
    packet
}

#[derive(Debug, Clone, Copy, PartialEq, Eq, Structural)]
pub enum StunValidationError {
    TooShort,
    WrongType,
    Truncated,
    WrongCookie,
    TransactionMismatch,
    MissingMappedAddress,
}

/// The attribute at `at` carries an IPv4 address in its plain or its masked
/// form.
pub open spec fn maps_ipv4(packet: Seq<u8>, at: int) -> bool {
    (be16(packet, at) == 0x0001 || be16(packet, at) == 0x0020) && be16(packet, at + 2) >= 8
        && packet[at + 5] == 1
}

/// Where the attribute after the one at `at` begins: values are padded to a
/// multiple of four bytes.
pub open spec fn next_attribute(packet: Seq<u8>, at: int) -> int {
    let length = be16(packet, at + 2);
    at + 4 + length + (4 - length % 4) % 4
}

/// Whether some attribute from `at` up to `end` maps an IPv4 address, or
/// nothing where the attributes do not end there.
pub open spec fn attributes_map(packet: Seq<u8>, at: int, end: int) -> Option<bool>
    decreases end - at,
{
    if at >= end {
        Some(false)
    } else if at + 4 > end || be16(packet, at + 2) < 0 || next_attribute(packet, at) > end {
        None
    } else {
        match attributes_map(packet, next_attribute(packet, at), end) {
            Some(later) => Some(maps_ipv4(packet, at) || later),
            None => None,
        }
    }
}

/// What a packet is worth as the response to a transaction: each demand is
/// made only where the ones before it are met.
pub open spec fn response_judged(
    packet: Seq<u8>,
    transaction_id: Seq<u8>,
) -> Result<(), StunValidationError> {
    if packet.len() < 20 {
        Err(StunValidationError::TooShort)
    } else if be16(packet, 0) != 0x0101 {
        Err(StunValidationError::WrongType)
    } else if 20 + be16(packet, 2) > packet.len() {
        Err(StunValidationError::Truncated)
    } else if be32(packet, 4) != 0x2112_A442 {
        Err(StunValidationError::WrongCookie)
    } else if packet.subrange(8, 20) != transaction_id {
        Err(StunValidationError::TransactionMismatch)
    } else {
        match attributes_map(packet, 20, 20 + be16(packet, 2)) {
            None => Err(StunValidationError::Truncated),
            Some(true) => Ok(()),
            Some(false) => Err(StunValidationError::MissingMappedAddress),
        }
    }
}

fn read16(packet: &[u8], at: usize) -> (value: usize)
    requires
        at + 1 < packet@.len(),
    ensures
        value == be16(packet@, at as int),
        value < 65536,
{
    packet[at] as usize * 256 + packet[at + 1] as usize
}

pub fn validate_stun_binding_response(
    packet: &[u8],
    transaction_id: &[u8; 12],
) -> (result: Result<(), StunValidationError>)
    ensures
        result == response_judged(packet@, transaction_id@),
{
    if packet.len() < 20 {
        return Err(StunValidationError::TooShort);
    }
    if read16(packet, 0) != 0x0101 {
        return Err(StunValidationError::WrongType);
    }
    let end: usize = 20 + read16(packet, 2);
    if end > packet.len() {
        return Err(StunValidationError::Truncated);
    }
    if read16(packet, 4) != 0x2112 || read16(packet, 6) != 0xA442 {
        return Err(StunValidationError::WrongCookie);
    }
    let mut i: usize = 0;
    while i < 12
        invariant
            i <= 12,
            packet@.len() >= 20,
            be16(packet@, 0) == 0x0101,
            20 + be16(packet@, 2) <= packet@.len(),
            be32(packet@, 4) == 0x2112_A442,
            forall|j: int| 0 <= j < i ==> packet@[8 + j] == #[trigger] transaction_id@[j],
        decreases 12 - i,
    {
        if packet[8 + i] != transaction_id[i] {
            proof {
                assert(packet@.subrange(8, 20)[i as int] == packet@[8 + i]);
            }
            return Err(StunValidationError::TransactionMismatch);
        }
        i += 1;
    }
    proof {
        assert(packet@.subrange(8, 20) =~= transaction_id@);
    }
    let mut offset: usize = 20;
    let mut mapped = false;
    while offset < end
        invariant
            20 <= offset <= end <= packet@.len(),
            end <= 65555,
            be16(packet@, 0) == 0x0101,
            end == 20 + be16(packet@, 2),
            be32(packet@, 4) == 0x2112_A442,
            packet@.subrange(8, 20) == transaction_id@,
            attributes_map(packet@, 20, end as int) == (match attributes_map(
                packet@,
                offset as int,
                end as int,
            ) {
                Some(later) => Some(mapped || later),
                None => None,
            }),
        decreases end - offset,
    {
        if offset + 4 > end {
            return Err(StunValidationError::Truncated);
        }
        let kind: usize = read16(packet, offset);
        let length: usize = read16(packet, offset + 2);
        if offset + 4 + length > end {
            return Err(StunValidationError::Truncated);
        }
        if (kind == 0x0001 || kind == 0x0020) && length >= 8 && packet[offset + 5] == 1 {
            mapped = true;
        }
        let padding: usize = (4 - length % 4) % 4;
        if offset + 4 + length + padding > end {
            return Err(StunValidationError::Truncated);
        }
        proof {
            assert(next_attribute(packet@, offset as int) == offset + 4 + length + padding);
        }
        offset = offset + 4 + length + padding;
    }
    if mapped {
        Ok(())
    } else {
        Err(StunValidationError::MissingMappedAddress)
    }
}

/// The bounds of one probe; the times are in milliseconds.
#[derive(Debug, Clone, Copy, PartialEq, Eq, Structural)]
pub struct StunProbeConfig {
    pub attempts: usize,
    pub recv_timeout_ms: u64,
    pub send_timeout_ms: u64,
    pub total_timeout_ms: u64,
}

impl Default for StunProbeConfig {
    fn default() -> (config: Self)
        ensures
            config == (StunProbeConfig {
                attempts: 3,
                recv_timeout_ms: 900,
                send_timeout_ms: 250,
                total_timeout_ms: 3_000,
            }),
    {
        StunProbeConfig {
            attempts: 3,
            recv_timeout_ms: 900,
            send_timeout_ms: 250,
            total_timeout_ms: 3_000,
        }
    }
}

/// How one attempt ended.
#[derive(Debug, Clone, Copy, PartialEq, Eq)]
pub enum Attempt {
    /// The socket could not be made, connected, written or read.
    SocketFailed,
    /// No time was left for an answer.
    NoBudget,
    /// No answer came in its time.
    NoAnswer,
    Answered(Result<(), StunValidationError>),
}

/// A probe and what its attempts have shown.
#[derive(Debug, Clone, Copy, PartialEq, Eq, Structural)]
pub struct StunProbe {
    pub attempts_made: usize,
    pub observed_socket_failure: bool,
    pub observed_invalid_response: bool,
    /// No further attempt is made.
    pub stopped: bool,
    pub passed: bool,
}

impl StunProbe {
    pub fn new() -> (probe: Self)
        ensures
            probe == (StunProbe {
                attempts_made: 0,
                observed_socket_failure: false,
                observed_invalid_response: false,
                stopped: false,
                passed: false,
            }),
    {
        StunProbe {
            attempts_made: 0,
            observed_socket_failure: false,
            observed_invalid_response: false,
            stopped: false,
            passed: false,
        }
    }

    /// The address for the next attempt, where there is to be one: they are
    /// taken in turn.
    pub fn next_target(
        &self,
        config: &StunProbeConfig,
        addresses: usize,
        before_deadline: bool,
    ) -> (target: Option<usize>)
        ensures
            target == (if !self.stopped && addresses > 0 && self.attempts_made < config.attempts
                && before_deadline {
                Some((self.attempts_made % addresses) as usize)
            } else {
                None
            }),
    {
        if !self.stopped && addresses > 0 && self.attempts_made < config.attempts
            && before_deadline {
            Some(self.attempts_made % addresses)
        } else {
            None
        }
    }

    /// The probe after one more attempt.
    pub open spec fn after(&self, attempt: Attempt) -> StunProbe {
        let made = StunProbe { attempts_made: (self.attempts_made + 1) as usize, ..*self };
        match attempt {
            Attempt::SocketFailed => StunProbe { observed_socket_failure: true, ..made },
            Attempt::NoBudget => StunProbe { stopped: true, ..made },
            Attempt::NoAnswer => made,
            Attempt::Answered(Ok(())) => StunProbe { stopped: true, passed: true, ..made },
            Attempt::Answered(Err(_)) => StunProbe { observed_invalid_response: true, ..made },
        }
    }

    pub fn record(&mut self, attempt: Attempt)
        requires
            old(self).attempts_made < usize::MAX,
        ensures
            *final(self) == old(self).after(attempt),
    {
        self.attempts_made = self.attempts_made + 1;
        match attempt {
            Attempt::SocketFailed => {
                self.observed_socket_failure = true;
            },
            Attempt::NoBudget => {
                self.stopped = true;
            },
            Attempt::NoAnswer => {},
            Attempt::Answered(Ok(())) => {
                self.stopped = true;
                self.passed = true;
            },
            Attempt::Answered(Err(_)) => {
                self.observed_invalid_response = true;
            },
        }
    }

    /// The outcome: a valid answer settles it; an invalid one weighs more than
    /// a failed socket, and that more than silence.
    pub fn probe_stun_ipv4_endpoints(&self, addresses: usize) -> (status: StunProbeStatus)
        ensures
            status == (if addresses == 0 {
                StunProbeStatus::NoIpv4Address
            } else if self.passed {
                StunProbeStatus::Pass
            } else if self.observed_invalid_response {
                StunProbeStatus::InvalidResponse
            } else if self.observed_socket_failure {
                StunProbeStatus::SocketFailure
            } else {
                StunProbeStatus::Timeout
            }),
    {
        if addresses == 0 {
            StunProbeStatus::NoIpv4Address
        } else if self.passed {
            StunProbeStatus::Pass
        } else if self.observed_invalid_response {
            StunProbeStatus::InvalidResponse
        } else if self.observed_socket_failure {
            StunProbeStatus::SocketFailure
        } else {
            StunProbeStatus::Timeout
        }
    }
}

/// The time for an answer: what is left before the deadline, up to the limit
/// of one attempt. Nothing is left where it is zero.
pub fn receive_budget_ns(remaining_ns: u64, recv_timeout_ns: u64) -> (budget: Option<u64>)
    ensures
        ({
            let least = if remaining_ns < recv_timeout_ns {
                remaining_ns
            } else {
                recv_timeout_ns
            };
            budget == (if least == 0 {
                None
            } else {
                Some(least)
            })
        }),
{
    let least: u64 = if remaining_ns < recv_timeout_ns {
        remaining_ns
    } else {
        recv_timeout_ns
    };
    if least == 0 {
        None
    } else {
        Some(least)
    }
}

/// The result of a name lookup, before any address is tried.
pub fn probe_stun_ipv4(lookup: Option<Result<usize, ()>>) -> (status: Option<StunProbeStatus>)
    ensures
        status == (match lookup {
            None => Some(StunProbeStatus::DnsTimeout),
            Some(Err(())) => Some(StunProbeStatus::DnsFailed),
            Some(Ok(addresses)) => if addresses == 0 {
                Some(StunProbeStatus::NoIpv4Address)
            } else {
                None
            },
        }),
{
    match lookup {
        None => Some(StunProbeStatus::DnsTimeout),
        Some(Err(())) => Some(StunProbeStatus::DnsFailed),
        Some(Ok(addresses)) => if addresses == 0 {
            Some(StunProbeStatus::NoIpv4Address)
        } else {
            None
        },
    }
}

/// The probe after a run of attempts.
pub open spec fn probe_after(attempts: Seq<Attempt>) -> StunProbe
    decreases attempts.len(),
{
    if attempts.len() == 0 {
        StunProbe {
            attempts_made: 0,
            observed_socket_failure: false,
            observed_invalid_response: false,
            stopped: false,
            passed: false,
        }
    } else {
        probe_after(attempts.drop_last()).after(attempts.last())
    }
}

/// A probe passes exactly when some attempt brought a valid answer.
pub proof fn passes_exactly_on_a_valid_answer(attempts: Seq<Attempt>)
    ensures
        probe_after(attempts).passed <==> attempts.contains(Attempt::Answered(Ok(()))),
    decreases attempts.len(),
{
    if attempts.len() > 0 {
        let rest = attempts.drop_last();
        passes_exactly_on_a_valid_answer(rest);
        if rest.contains(Attempt::Answered(Ok(()))) {
            let i = choose|i: int| 0 <= i < rest.len() && rest[i] == Attempt::Answered(Ok(()));
            assert(attempts[i] == Attempt::Answered(Ok(())));
        }
        if attempts.contains(Attempt::Answered(Ok(()))) && attempts.last() != Attempt::Answered(
            Ok(()),
        ) {
            let i = choose|i: int|
                0 <= i < attempts.len() && attempts[i] == Attempt::Answered(Ok(()));
            assert(rest[i] == attempts[i]);
        }
        assert(attempts[attempts.len() - 1] == attempts.last());
        if let Attempt::Answered(Ok(nothing)) = attempts.last() {
            assert(nothing == ());
        }
    }
}

/// A response is worth something to one transaction only.
pub proof fn response_answers_one_transaction(packet: Seq<u8>, mine: Seq<u8>, other: Seq<u8>)
    requires
        response_judged(packet, mine) is Ok,
        other != mine,
    ensures
        response_judged(packet, other) == Err::<(), StunValidationError>(
            StunValidationError::TransactionMismatch,
        ),
{
}

/// A response that lost its end is refused, wherever it was cut.
pub proof fn cut_response_is_refused(packet: Seq<u8>, transaction_id: Seq<u8>, kept: int)
    requires
        response_judged(packet, transaction_id) is Ok,
        0 <= kept < 20 + be16(packet, 2),
    ensures
        response_judged(packet.take(kept), transaction_id) == Err::<(), StunValidationError>(
            if kept < 20 {
                StunValidationError::TooShort
            } else {
                StunValidationError::Truncated
            },
        ),
{
    if kept >= 20 {
        assert(be16(packet.take(kept), 0) == be16(packet, 0));
        assert(be16(packet.take(kept), 2) == be16(packet, 2));
    }
}

/// The success response with one mapped IPv4 address, as a server sends it.
pub open spec fn success_response(transaction_id: Seq<u8>, port: Seq<u8>, address: Seq<u8>) -> Seq<
    u8,
> {
    seq![1u8, 1u8, 0u8, 12u8, 0x21u8, 0x12u8, 0xA4u8, 0x42u8] + transaction_id + seq![
        0u8,
        0x20u8,
        0u8,
        8u8,
        0u8,
        1u8,
    ] + port + address
}

/// The ordinary answer to a request is accepted.
pub proof fn success_response_is_accepted(
    transaction_id: Seq<u8>,
    port: Seq<u8>,
    address: Seq<u8>,
)
    requires
        transaction_id.len() == 12,
        port.len() == 2,
        address.len() == 4,
    ensures
        response_judged(success_response(transaction_id, port, address), transaction_id) is Ok,
{
    let packet = success_response(transaction_id, port, address);
    assert(packet.len() == 32);
    assert(packet.subrange(8, 20) =~= transaction_id);
    assert(be16(packet, 2) == 12);
    assert(packet[20] == 0 && packet[21] == 0x20 && packet[22] == 0 && packet[23] == 8);
    assert(packet[25] == 1);
    assert(next_attribute(packet, 20) == 32);
    assert(attributes_map(packet, 32, 32) == Some(false));
    assert(attributes_map(packet, 20, 32) == Some(true));
}

} // verus!
