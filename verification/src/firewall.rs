//! Windows Firewall inspection and targeted, user-requested repair.
//!
//! The facts that a read-only scan reports are classified here, and so is
//! every decision around them: whether a script's output can be trusted, when
//! a bounded child process is stopped, and when an elevated repair may change
//! anything. What touches the system is done by the caller, one action at a
//! time.

pub mod child;
pub mod laws;
pub mod repair;

use crate::firewall::child::BoundedRun;
use crate::text_ops::{self, chars_of, listed_string, same_text, string_of};
use vstd::prelude::*;
use vstd::string::*;

verus! {

pub const DETAIL_LIMIT: usize = 240;

pub const SCRIPT_TIMEOUT_MS: u64 = 15_000;

pub const OUTPUT_LIMIT: usize = 16384;

pub const PIPE_JOIN_TIMEOUT_MS: u64 = 2_000;

/// How long an unelevated repair waits for its elevated helper.
pub const ELEVATION_WAIT_MS: u32 = 55_000;

pub const REPAIR_CHANGED_OR_VERIFIED: i32 = 0;

pub const REPAIR_NOTHING_TO_CHANGE: i32 = 2;

pub const REPAIR_NOT_LOCALLY_REPAIRABLE: i32 = 3;

pub const REPAIR_UAC_DECLINED: i32 = 4;

pub const REPAIR_FAILED: i32 = 5;

pub const REPAIR_REQUESTER_CANCELLED: i32 = 6;

#[derive(Debug, Clone, Copy, PartialEq, Eq, Structural)]
pub enum FirewallStatus {
    Clear,
    Blocked,
    Managed,
    Unknown,
}

/// The outcome of an inspection, with a line for the user.
#[derive(Debug, Clone, PartialEq, Eq)]
pub struct Inspection {
    pub status: FirewallStatus,
    pub detail: String,
    pub repairable: bool,
}

/// One network profile.
#[derive(Debug)]
pub struct ProfileFact {
    pub name: String,
    pub enabled: bool,
    pub block_all_inbound: bool,
    pub outbound_block: bool,
}

/// One rule that names a program.
#[derive(Debug)]
pub struct AppRuleFact {
    pub program: String,
    pub enabled: bool,
    pub action: String,
    pub protocol: String,
    pub profiles: Vec<String>,
    pub restricted: bool,
}

/// Everything that the scan reports.
#[derive(Debug)]
pub struct FirewallFacts {
    pub active_profiles: Vec<String>,
    pub profiles: Vec<ProfileFact>,
    pub app_rules: Vec<AppRuleFact>,
    pub managed_origin: bool,
}

pub open spec fn valid_profile_name(name: Seq<char>) -> bool {
    name == "Domain"@ || name == "Private"@ || name == "Public"@
}

impl FirewallFacts {
    /// The network profile called `name` is in use.
    pub open spec fn active(&self, name: Seq<char>) -> bool {
        text_ops::texts(self.active_profiles@).contains(name)
    }

    /// Profile `i` is in use.
    pub open spec fn in_use(&self, i: int) -> bool {
        0 <= i < self.profiles@.len() && self.active(self.profiles@[i].name@)
    }

    /// There is a record of the profile called `name`.
    pub open spec fn described(&self, name: Seq<char>) -> bool {
        exists|i: int| 0 <= i < self.profiles@.len() && (#[trigger] self.profiles@[i]).name@ == name
    }

    pub open spec fn all_names_valid(&self) -> bool {
        forall|i: int|
            0 <= i < self.active_profiles@.len() ==> valid_profile_name(
                (#[trigger] self.active_profiles@[i])@,
            )
    }

    pub open spec fn all_described(&self) -> bool {
        forall|i: int|
            0 <= i < self.active_profiles@.len() ==> self.described(
                (#[trigger] self.active_profiles@[i])@,
            )
    }

    pub open spec fn firewall_on(&self) -> bool {
        exists|i: int| self.in_use(i) && (#[trigger] self.profiles@[i]).enabled
    }

    pub open spec fn blocks_all_inbound(&self) -> bool {
        exists|i: int| self.in_use(i) && (#[trigger] self.profiles@[i]).block_all_inbound
    }

    pub open spec fn blocks_outbound(&self) -> bool {
        exists|i: int| self.in_use(i) && (#[trigger] self.profiles@[i]).outbound_block
    }

    /// Rule `i` blocks this program on a profile in use. `ours` tells of each
    /// rule whether its program is this one.
    pub open spec fn blocking(&self, ours: Seq<bool>, i: int) -> bool {
        0 <= i < self.app_rules@.len() && {
            let rule = self.app_rules@[i];
            &&& rule.enabled
            &&& rule.action@ == "Block"@
            &&& (rule.protocol@ == "TCP"@ || rule.protocol@ == "UDP"@ || rule.protocol@ == "Any"@)
            &&& ours[i]
            &&& exists|k: int|
                0 <= k < rule.profiles@.len() && self.active((#[trigger] rule.profiles@[k])@)
        }
    }

    pub open spec fn any_blocking(&self, ours: Seq<bool>) -> bool {
        exists|i: int| #[trigger] self.blocking(ours, i)
    }

    pub open spec fn any_restricted(&self, ours: Seq<bool>) -> bool {
        exists|i: int| #[trigger] self.blocking(ours, i) && self.app_rules@[i].restricted
    }
}

/// The reasons for which an inspection ends, in order of precedence.
#[derive(Debug, Clone, Copy, PartialEq, Eq, Structural)]
pub enum Finding {
    NoActiveProfile,
    UnrecognizedProfile,
    IncompleteProfiles,
    FirewallOff,
    ManagedOrigin,
    BlocksAllInbound,
    ScopedRule,
    LocalRule,
    BlocksOutbound,
    NothingFound,
}

/// The decision table. A managed origin and a "block all incoming
/// connections" policy come before any local rule: clearing the rule alone
/// would not restore connectivity.
pub open spec fn finding(facts: FirewallFacts, ours: Seq<bool>) -> Finding {
    if facts.active_profiles@.len() == 0 {
        Finding::NoActiveProfile
    } else if !facts.all_names_valid() {
        Finding::UnrecognizedProfile
    } else if !facts.all_described() {
        Finding::IncompleteProfiles
    } else if !facts.firewall_on() {
        Finding::FirewallOff
    } else if facts.managed_origin {
        Finding::ManagedOrigin
    } else if facts.blocks_all_inbound() {
        Finding::BlocksAllInbound
    } else if facts.any_restricted(ours) {
        Finding::ScopedRule
    } else if facts.any_blocking(ours) {
        Finding::LocalRule
    } else if facts.blocks_outbound() {
        Finding::BlocksOutbound
    } else {
        Finding::NothingFound
    }
}

pub open spec fn finding_status(found: Finding) -> FirewallStatus {
    match found {
        Finding::NoActiveProfile
        | Finding::UnrecognizedProfile
        | Finding::IncompleteProfiles => FirewallStatus::Unknown,
        Finding::FirewallOff | Finding::NothingFound => FirewallStatus::Clear,
        Finding::ManagedOrigin
        | Finding::BlocksAllInbound
        | Finding::BlocksOutbound => FirewallStatus::Managed,
        Finding::ScopedRule | Finding::LocalRule => FirewallStatus::Blocked,
    }
}

pub open spec fn finding_detail(found: Finding) -> Seq<char> {
    match found {
        Finding::NoActiveProfile => "Could not determine the active network profile."@,
        Finding::UnrecognizedProfile => {
            "Firewall diagnostic data reported an unrecognized network profile."@
        },
        Finding::IncompleteProfiles => {
            "Firewall diagnostic data did not cover every active network profile."@
        },
        Finding::FirewallOff => "Windows Firewall is off for the active network profile."@,
        Finding::ManagedOrigin => "Managed Windows policy prevents a local Orange repair."@,
        Finding::BlocksAllInbound => {
            "Block all incoming connections is active for the active network profile."@
        },
        Finding::ScopedRule => {
            "A scoped local rule blocks Orange; it is not automatically repairable."@
        },
        Finding::LocalRule => "A local rule blocks Orange on the active network profile."@,
        Finding::BlocksOutbound => {
            "A default outbound block policy is active for the active network profile."@
        },
        Finding::NothingFound => {
            "No matching inbound block rule found for Orange on the active network profile."@
        },
    }
}

/// The inspection says exactly what was found; only an unrestricted local rule
/// can be repaired.
pub open spec fn tells(result: Inspection, found: Finding) -> bool {
    &&& result.status == finding_status(found)
    &&& result.detail@ == finding_detail(found)
    &&& result.repairable == (found == Finding::LocalRule)
}

/// The inspection tells only that nothing could be determined, and why.
pub open spec fn tells_unknown(result: Inspection, detail: Seq<char>) -> bool {
    result.status == FirewallStatus::Unknown && result.detail@ == detail && !result.repairable
}

fn inspection(status: FirewallStatus, detail: &str, repairable: bool) -> (result: Inspection)
    ensures
        result.status == status,
        result.detail@ == detail@,
        result.repairable == repairable,
{
    Inspection { status, detail: detail.to_owned(), repairable }
}

fn unknown(detail: &str) -> (result: Inspection)
    ensures
        tells_unknown(result, detail@),
{
    inspection(FirewallStatus::Unknown, detail, false)
}

impl FirewallFacts {
    fn names_are_valid(&self) -> (valid: bool)
        ensures
            valid == self.all_names_valid(),
    {
        let mut i: usize = 0;
        while i < self.active_profiles.len()
            invariant
                i <= self.active_profiles@.len(),
                forall|j: int|
                    0 <= j < i ==> valid_profile_name((#[trigger] self.active_profiles@[j])@),
            decreases self.active_profiles@.len() - i,
        {
            let name = self.active_profiles[i].as_str();
            if !same_text(name, "Domain") && !same_text(name, "Private") && !same_text(
                name,
                "Public",
            ) {
                return false;
            }
            i += 1;
        }
        true
    }

    fn describes(&self, name: &str) -> (found: bool)
        ensures
            found == self.described(name@),
    {
        let mut i: usize = 0;
        while i < self.profiles.len()
            invariant
                i <= self.profiles@.len(),
                forall|j: int| 0 <= j < i ==> (#[trigger] self.profiles@[j]).name@ != name@,
            decreases self.profiles@.len() - i,
        {
            if same_text(self.profiles[i].name.as_str(), name) {
                return true;
            }
            i += 1;
        }
        false
    }

    fn describes_all(&self) -> (complete: bool)
        ensures
            complete == self.all_described(),
    {
        let mut i: usize = 0;
        while i < self.active_profiles.len()
            invariant
                i <= self.active_profiles@.len(),
                forall|j: int|
                    0 <= j < i ==> self.described((#[trigger] self.active_profiles@[j])@),
            decreases self.active_profiles@.len() - i,
        {
            if !self.describes(self.active_profiles[i].as_str()) {
                return false;
            }
            i += 1;
        }
        true
    }

    fn is_on(&self) -> (on: bool)
        ensures
            on == self.firewall_on(),
    {
        let mut i: usize = 0;
        while i < self.profiles.len()
            invariant
                i <= self.profiles@.len(),
                forall|j: int|
                    0 <= j < i ==> !(self.in_use(j) && (#[trigger] self.profiles@[j]).enabled),
            decreases self.profiles@.len() - i,
        {
            if self.profiles[i].enabled && listed_string(
                &self.active_profiles,
                self.profiles[i].name.as_str(),
            ) {
                proof {
                    assert(self.in_use(i as int));
                }
                return true;
            }
            i += 1;
        }
        false
    }

    fn is_inbound_blocked(&self) -> (blocked: bool)
        ensures
            blocked == self.blocks_all_inbound(),
    {
        let mut i: usize = 0;
        while i < self.profiles.len()
            invariant
                i <= self.profiles@.len(),
                forall|j: int|
                    0 <= j < i ==> !(self.in_use(j) && (
                    #[trigger] self.profiles@[j]).block_all_inbound),
            decreases self.profiles@.len() - i,
        {
            if self.profiles[i].block_all_inbound && listed_string(
                &self.active_profiles,
                self.profiles[i].name.as_str(),
            ) {
                proof {
                    assert(self.in_use(i as int));
                }
                return true;
            }
            i += 1;
        }
        false
    }

    fn is_outbound_blocked(&self) -> (blocked: bool)
        ensures
            blocked == self.blocks_outbound(),
    {
        let mut i: usize = 0;
        while i < self.profiles.len()
            invariant
                i <= self.profiles@.len(),
                forall|j: int|
                    0 <= j < i ==> !(self.in_use(j) && (
                    #[trigger] self.profiles@[j]).outbound_block),
            decreases self.profiles@.len() - i,
        {
            if self.profiles[i].outbound_block && listed_string(
                &self.active_profiles,
                self.profiles[i].name.as_str(),
            ) {
                proof {
                    assert(self.in_use(i as int));
                }
                return true;
            }
            i += 1;
        }
        false
    }

    fn rule_is_in_use(&self, rule: &AppRuleFact) -> (used: bool)
        ensures
            used == exists|k: int|
                0 <= k < rule.profiles@.len() && self.active((#[trigger] rule.profiles@[k])@),
    {
        let mut k: usize = 0;
        while k < rule.profiles.len()
            invariant
                k <= rule.profiles@.len(),
                forall|j: int| 0 <= j < k ==> !self.active((#[trigger] rule.profiles@[j])@),
            decreases rule.profiles@.len() - k,
        {
            if listed_string(&self.active_profiles, rule.profiles[k].as_str()) {
                return true;
            }
            k += 1;
        }
        false
    }

    fn rule_blocks(&self, ours: &Vec<bool>, i: usize) -> (blocks: bool)
        requires
            i < self.app_rules@.len(),
            ours@.len() == self.app_rules@.len(),
        ensures
            blocks == self.blocking(ours@, i as int),
    {
        let rule = &self.app_rules[i];
        let protocol = rule.protocol.as_str();
        rule.enabled && same_text(rule.action.as_str(), "Block") && (same_text(protocol, "TCP")
            || same_text(protocol, "UDP") || same_text(protocol, "Any")) && ours[i]
            && self.rule_is_in_use(rule)
    }

    /// Whether any rule blocks this program, and whether any such rule is
    /// restricted.
    fn blocking_rules(&self, ours: &Vec<bool>) -> (result: (bool, bool))
        requires
            ours@.len() == self.app_rules@.len(),
        ensures
            result.0 == self.any_blocking(ours@),
            result.1 == self.any_restricted(ours@),
    {
        let mut any = false;
        let mut restricted = false;
        let mut i: usize = 0;
        while i < self.app_rules.len()
            invariant
                i <= self.app_rules@.len(),
                ours@.len() == self.app_rules@.len(),
                any == exists|j: int| 0 <= j < i && #[trigger] self.blocking(ours@, j),
                restricted == exists|j: int|
                    0 <= j < i && #[trigger] self.blocking(ours@, j)
                        && self.app_rules@[j].restricted,
            decreases self.app_rules@.len() - i,
        {
            if self.rule_blocks(ours, i) {
                any = true;
                if self.app_rules[i].restricted {
                    restricted = true;
                }
            }
            i += 1;
        }
        (any, restricted)
    }
}

/// The classification of a scan. `ours[i]` tells whether the program of rule
/// `i` is this one, by the comparison that the operating system makes.
pub fn classify_facts(facts: &FirewallFacts, ours: &Vec<bool>) -> (result: Inspection)
    requires
        ours@.len() == facts.app_rules@.len(),
    ensures
        tells(result, finding(*facts, ours@)),
{
    if facts.active_profiles.is_empty() {
        return unknown("Could not determine the active network profile.");
    }
    if !facts.names_are_valid() {
        return unknown("Firewall diagnostic data reported an unrecognized network profile.");
    }
    if !facts.describes_all() {
        return unknown("Firewall diagnostic data did not cover every active network profile.");
    }
    if !facts.is_on() {
        return inspection(
            FirewallStatus::Clear,
            "Windows Firewall is off for the active network profile.",
            false,
        );
    }
    if facts.managed_origin {
        return inspection(
            FirewallStatus::Managed,
            "Managed Windows policy prevents a local Orange repair.",
            false,
        );
    }
    if facts.is_inbound_blocked() {
        return inspection(
            FirewallStatus::Managed,
            "Block all incoming connections is active for the active network profile.",
            false,
        );
    }
    let (any, restricted) = facts.blocking_rules(ours);
    if any {
        if restricted {
            return inspection(
                FirewallStatus::Blocked,
                "A scoped local rule blocks Orange; it is not automatically repairable.",
                false,
            );
        }
        return inspection(
            FirewallStatus::Blocked,
            "A local rule blocks Orange on the active network profile.",
            true,
        );
    }
    if facts.is_outbound_blocked() {
        return inspection(
            FirewallStatus::Managed,
            "A default outbound block policy is active for the active network profile.",
            false,
        );
    }
    inspection(
        FirewallStatus::Clear,
        "No matching inbound block rule found for Orange on the active network profile.",
        false,
    )
}

/// What the script reported.
#[derive(Debug)]
pub enum ScriptOutcome {
    Facts(FirewallFacts),
    RequesterCancelled,
    ScriptError(String),
}

/// The readings of one script output: each field holds a value where the
/// output has the shape of that record.
#[derive(Debug)]
pub struct ScriptReadings {
    pub facts: Option<FirewallFacts>,
    pub requester_cancelled: Option<bool>,
    pub error: Option<String>,
}

/// What an output means. A finished scan exits with 0, a classified failure of
/// the script with 1; nothing else is trusted. `readings` is absent where the
/// output is not text.
pub open spec fn outcome_read(
    exit_code: i32,
    readings: Option<ScriptReadings>,
) -> Result<ScriptOutcome, Seq<char>> {
    match readings {
        None => Err("malformed"@),
        Some(read) => {
            if exit_code == 0 {
                if read.facts is Some {
                    Ok(ScriptOutcome::Facts(read.facts.unwrap()))
                } else if read.requester_cancelled == Some(true) {
                    Ok(ScriptOutcome::RequesterCancelled)
                } else {
                    Err("malformed"@)
                }
            } else if exit_code == 1 {
                if read.error is Some {
                    Ok(ScriptOutcome::ScriptError(read.error.unwrap()))
                } else {
                    Err("malformed"@)
                }
            } else {
                Err("unexpected-exit"@)
            }
        },
    }
}

/// The result `got` is the one that `wanted` describes.
pub open spec fn same_outcome(
    got: Result<ScriptOutcome, String>,
    wanted: Result<ScriptOutcome, Seq<char>>,
) -> bool {
    match wanted {
        Ok(outcome) => got == Ok::<ScriptOutcome, String>(outcome),
        Err(reason) => got is Err && got->Err_0@ == reason,
    }
}

pub fn parse_script_outcome(
    exit_code: i32,
    readings: Option<ScriptReadings>,
) -> (outcome: Result<ScriptOutcome, String>)
    ensures
        same_outcome(outcome, outcome_read(exit_code, readings)),
{
    let read = match readings {
        Some(read) => read,
        None => return Err("malformed".to_owned()),
    };
    if exit_code == 0 {
        if let Some(facts) = read.facts {
            return Ok(ScriptOutcome::Facts(facts));
        }
        if let Some(true) = read.requester_cancelled {
            return Ok(ScriptOutcome::RequesterCancelled);
        }
        Err("malformed".to_owned())
    } else if exit_code == 1 {
        match read.error {
            Some(error) => Ok(ScriptOutcome::ScriptError(error)),
            None => Err("malformed".to_owned()),
        }
    } else {
        Err("unexpected-exit".to_owned())
    }
}

/// What a bounded run of the script means. A requester that is gone outweighs
/// everything; then an output counts only where the child exited by itself,
/// in time, and nothing of it was cut off.
pub open spec fn script_read(
    run: BoundedRun,
    requester_alive: Option<bool>,
    readings: Option<ScriptReadings>,
) -> Result<ScriptOutcome, Seq<char>> {
    if requester_alive == Some(false) {
        Ok(ScriptOutcome::RequesterCancelled)
    } else if run.timed_out {
        Err("timeout"@)
    } else if run.truncated {
        Err("truncated"@)
    } else {
        match run.exit_code {
            None => Err("no-exit-code"@),
            Some(exit_code) => outcome_read(exit_code, readings),
        }
    }
}

/// `requester_alive` is absent where no requester has to be watched.
pub fn run_facts_script(
    run: &BoundedRun,
    requester_alive: Option<bool>,
    readings: Option<ScriptReadings>,
) -> (outcome: Result<ScriptOutcome, String>)
    ensures
        same_outcome(outcome, script_read(*run, requester_alive, readings)),
{
    if let Some(false) = requester_alive {
        return Ok(ScriptOutcome::RequesterCancelled);
    }
    if run.timed_out {
        return Err("timeout".to_owned());
    }
    if run.truncated {
        return Err("truncated".to_owned());
    }
    match run.exit_code {
        None => Err("no-exit-code".to_owned()),
        Some(exit_code) => parse_script_outcome(exit_code, readings),
    }
}

/// Only a scan that completed is classified; everything else is unknown.
pub open spec fn inspects(
    result: Inspection,
    outcome: Option<Result<ScriptOutcome, String>>,
    ours: Seq<bool>,
) -> bool {
    match outcome {
        None => tells_unknown(result, "Could not determine the running executable's path."@),
        Some(Ok(ScriptOutcome::Facts(facts))) => tells(result, finding(facts, ours)),
        Some(_) => tells_unknown(result, "Firewall diagnostic data could not be read."@),
    }
}

/// The read-only inspection. `outcome` is absent where the path of the running
/// executable is unknown, so that no script was run; `ours` speaks of the
/// rules in its facts.
pub fn inspect(
    outcome: &Option<Result<ScriptOutcome, String>>,
    ours: &Vec<bool>,
) -> (result: Inspection)
    requires
        outcome matches Some(Ok(ScriptOutcome::Facts(facts))) ==> ours@.len()
            == facts.app_rules@.len(),
    ensures
        inspects(result, *outcome, ours@),
{
    match outcome {
        None => unknown("Could not determine the running executable's path."),
        Some(Ok(ScriptOutcome::Facts(facts))) => classify_facts(facts, ours),
        Some(_) => unknown("Firewall diagnostic data could not be read."),
    }
}

/// A path without the `\\?\` prefix that canonical Windows paths carry.
pub open spec fn without_verbatim_prefix(path: Seq<char>) -> Seq<char> {
    if path.len() >= 4 && path.take(4) == seq!['\\', '\\', '?', '\\'] {
        path.skip(4)
    } else {
        path
    }
}

pub fn strip_verbatim_prefix(path: &str) -> (stripped: String)
    ensures
        stripped@ == without_verbatim_prefix(path@),
{
    let chars = chars_of(path);
    let n: usize = chars.len();
    if n >= 4 && chars[0] == '\\' && chars[1] == '\\' && chars[2] == '?' && chars[3] == '\\' {
        proof {
            assert(path@.take(4) =~= seq!['\\', '\\', '?', '\\']);
            assert(path@.skip(4) =~= chars@.subrange(4, n as int));
        }
        string_of(&chars, 4, n)
    } else {
        proof {
            if path@.len() >= 4 && path@.take(4) == seq!['\\', '\\', '?', '\\'] {
                assert(path@.take(4)[0] == chars@[0]);
                assert(path@.take(4)[1] == chars@[1]);
                assert(path@.take(4)[2] == chars@[2]);
                assert(path@.take(4)[3] == chars@[3]);
            }
        }
        path.to_owned()
    }
}

/// A repair is offered only for a block, never for a policy or for facts that
/// could not be determined.
pub proof fn repairable_means_blocked(facts: FirewallFacts, ours: Seq<bool>, result: Inspection)
    requires
        tells(result, finding(facts, ours)),
        result.repairable,
    ensures
        result.status == FirewallStatus::Blocked,
        facts.any_blocking(ours),
        !facts.any_restricted(ours),
{
}

/// A managed origin refuses the repair whatever the local rules are.
pub proof fn managed_origin_comes_before_local_rules(
    facts: FirewallFacts,
    ours: Seq<bool>,
    result: Inspection,
)
    requires
        tells(result, finding(facts, ours)),
        facts.managed_origin || facts.blocks_all_inbound(),
    ensures
        result.status != FirewallStatus::Blocked,
        !result.repairable,
{
}

/// Rules of other programs are never evidence: with no rule of this program,
/// nothing is reported as blocked.
pub proof fn other_programs_are_no_evidence(
    facts: FirewallFacts,
    ours: Seq<bool>,
    result: Inspection,
)
    requires
        ours.len() == facts.app_rules@.len(),
        forall|i: int| 0 <= i < ours.len() ==> !(#[trigger] ours[i]),
        tells(result, finding(facts, ours)),
    ensures
        result.status != FirewallStatus::Blocked,
{
    if facts.any_restricted(ours) || facts.any_blocking(ours) {
        let i = choose|i: int| #[trigger] facts.blocking(ours, i);
        assert(ours[i]);
    }
}

/// Every inspection carries a line for the user that is not empty and within
/// the limit.
pub proof fn detail_is_bounded(
    outcome: Option<Result<ScriptOutcome, String>>,
    ours: Seq<bool>,
    result: Inspection,
)
    requires
        inspects(result, outcome, ours),
    ensures
        0 < result.detail@.len() <= DETAIL_LIMIT,
        result.repairable ==> result.status == FirewallStatus::Blocked,
{
    reveal_strlit("Could not determine the running executable's path.");
    reveal_strlit("Firewall diagnostic data could not be read.");
    reveal_strlit("Could not determine the active network profile.");
    reveal_strlit("Firewall diagnostic data reported an unrecognized network profile.");
    reveal_strlit("Firewall diagnostic data did not cover every active network profile.");
    reveal_strlit("Windows Firewall is off for the active network profile.");
    reveal_strlit("Managed Windows policy prevents a local Orange repair.");
    reveal_strlit("Block all incoming connections is active for the active network profile.");
    reveal_strlit("A scoped local rule blocks Orange; it is not automatically repairable.");
    reveal_strlit("A local rule blocks Orange on the active network profile.");
    reveal_strlit("A default outbound block policy is active for the active network profile.");
    reveal_strlit("No matching inbound block rule found for Orange on the active network profile.");
}

} // verus!
