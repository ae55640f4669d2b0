//! Use-limited relay invites (v2 opaque tokens).
//!
//! v2 invites are backed by durable rows. A row holds only `SHA-256(code)`,
//! never the reusable bearer secret, so a leaked database does not immediately
//! yield valid invite codes.
//!
//! Every lookup binds both the community and the token hash: a code minted on
//! one tenant and presented to another is `Invalid`, not a membership.
//!
//! A claim is one transaction. [`claim_relay_invite`] and [`settle_claim`]
//! decide what it reads, what it writes, and whether it commits; the locked
//! invite row serializes concurrent claims.

use base64::Engine;
use sha2::Digest;
use vstd::prelude::*;
use vstd::string::*;

use crate::invite;
use crate::text;

verus! {

/// Maximum supported `max_uses` value. Matches the migration CHECK constraint.
pub const MAX_INVITE_USES: i32 = 10_000;

/// Outcome of a v2 invite claim. Expected invalid, expired and exhausted states
/// are typed variants so the relay layer can map them to distinct HTTP
/// responses without inspecting database errors.
#[derive(Debug, Clone, Copy, PartialEq)]
pub enum ClaimOutcome {
    /// A new relay member was inserted. `use_count` is the post-increment count;
    /// `uses_remaining` is `None` for unlimited invites.
    Joined {
        /// Post-claim use count.
        use_count: i32,
        /// Remaining slots, or `None` when the invite is unlimited.
        uses_remaining: Option<i32>,
    },
    /// The claimer was already a member. `use_count` was NOT incremented.
    AlreadyMember {
        /// Current use count (unchanged by this claim).
        use_count: i32,
        /// Remaining slots, or `None` when the invite is unlimited.
        uses_remaining: Option<i32>,
    },
    /// The invite's `expires_at` has passed.
    Expired,
    /// The invite's use budget is fully consumed.
    Exhausted,
    /// No invite row matches the community and the token hash.
    Invalid,
}

/// Why an invite could not be minted.
#[derive(Debug, Clone, PartialEq, Eq)]
pub enum InviteError {
    /// A caller-supplied value is out of range.
    InvalidData(String),
}

/// A time of the system clock, in full precision.
#[derive(Debug, Clone, Copy, PartialEq, Eq)]
pub struct UtcTime {
    /// Whole seconds since the Unix epoch.
    pub secs: i64,
    /// Nanoseconds since the last whole second.
    pub nanos: u32,
}

/// The row that a mint inserts.
#[derive(Debug, Clone)]
pub struct NewInviteRow {
    /// Community that the invite admits to.
    pub community: u128,
    /// SHA-256 digest of the code.
    pub token_hash: [u8; 32],
    /// `None` means unlimited; `Some(n)` means at most `n` uses.
    pub max_uses: Option<i32>,
    /// Expiry in microseconds since the Unix epoch.
    pub expires_at: i64,
    /// Public key of the minting member.
    pub created_by: String,
}

/// A minted invite whose row has yet to be inserted.
#[derive(Debug)]
pub struct PendingInvite {
    /// The full v2 code string.
    pub code: String,
    /// When the invite expires, as precisely as the clock tells.
    pub expires_at: UtcTime,
    /// The row to insert.
    pub row: NewInviteRow,
}

/// A freshly minted v2 invite, including the plaintext code and metadata.
#[derive(Debug)]
pub struct MintedInvite {
    /// The full v2 code string (`v2.<base64url secret>`). Returned to the caller
    /// exactly once; the database stores only the SHA-256 hash.
    pub code: String,
    /// When the invite expires, as precisely as the clock tells.
    pub expires_at: UtcTime,
    /// `None` means unlimited; `Some(n)` means at most `n` uses.
    pub max_uses: Option<i32>,
    /// Remaining uses at mint time (equals `max_uses` when bounded, `None`
    /// when unlimited).
    pub uses_remaining: Option<i32>,
    /// The invite's database-generated UUID.
    pub invite_id: u128,
}

/// The SHA-256 digest of a byte string.
pub uninterp spec fn sha256(bytes: Seq<u8>) -> Seq<u8>;

/// The `i`-th group of six bits of `bytes`, with zeros after the last byte.
pub open spec fn sextet(bytes: Seq<u8>, i: int) -> int {
    let k = 6 * i / 8;
    let next: int = if k + 1 < bytes.len() {
        bytes[k + 1] as int
    } else {
        0
    };
    let window = bytes[k] * 256 + next;
    let unit: int = if 6 * i % 8 == 0 {
        1024
    } else if 6 * i % 8 == 2 {
        256
    } else if 6 * i % 8 == 4 {
        64
    } else {
        16
    };
    window / unit % 64
}

/// The character of a six-bit value in the URL-safe base64 alphabet.
pub open spec fn base64url_char(v: int) -> char {
    if v < 26 {
        (('A' as u32) + v) as char
    } else if v < 52 {
        (('a' as u32) + (v - 26)) as char
    } else if v < 62 {
        (('0' as u32) + (v - 52)) as char
    } else if v == 62 {
        '-'
    } else {
        '_'
    }
}

/// The URL-safe base64 notation of `bytes`, without padding.
pub open spec fn base64url(bytes: Seq<u8>) -> Seq<char> {
    Seq::new((8 * bytes.len() + 5) / 6, |i: int| base64url_char(sextet(bytes, i)))
}

/// The invite code of a secret.
pub open spec fn code_of_secret(secret: Seq<u8>) -> Seq<char> {
    "v2."@ + base64url(secret)
}

/// The token hash of a code.
pub open spec fn token_hash_of(code: Seq<char>) -> Seq<u8> {
    sha256(vstd::utf8::encode_utf8(code))
}

/// An invite lifetime, brought into the accepted range.
pub open spec fn clamped_ttl(ttl_secs: u64) -> u64 {
    if ttl_secs < invite::MIN_INVITE_TTL_SECS {
        invite::MIN_INVITE_TTL_SECS
    } else if ttl_secs > invite::MAX_INVITE_TTL_SECS {
        invite::MAX_INVITE_TTL_SECS
    } else {
        ttl_secs
    }
}

/// Whether `now` is a time that the system clock can give.
pub open spec fn is_clock_time(now: UtcTime) -> bool {
    0 <= now.secs <= 8_300_000_000_000 && now.nanos < 1_000_000_000
}

/// A time in whole microseconds since the Unix epoch, as rows hold it.
pub open spec fn micros_of(time: UtcTime) -> int {
    time.secs * 1_000_000 + time.nanos / 1_000
}

/// When an invite that is minted at `now` expires.
pub open spec fn expiry(now: UtcTime, ttl_secs: u64) -> UtcTime {
    UtcTime { secs: (now.secs + clamped_ttl(ttl_secs)) as i64, nanos: now.nanos }
}

/// Whether `max_uses` is a valid use budget.
pub open spec fn valid_budget(max_uses: Option<i32>) -> bool {
    max_uses matches Some(max) ==> 1 <= max <= MAX_INVITE_USES
}

/// Computes the SHA-256 digest of `bytes`.
///
/// Calls `sha2::Sha256::digest`, whose result is a function of the bytes.
#[verifier::external_body]
fn sha256_digest(bytes: &[u8]) -> (digest: [u8; 32])
    ensures
        digest@ == sha256(bytes@),
{
    sha2::Sha256::digest(bytes).into()
}

/// Encodes `bytes` in URL-safe base64 without padding.
///
/// Calls `encode` of `base64::engine::general_purpose::URL_SAFE_NO_PAD`: six
/// bits per character, most significant first, in the URL-safe alphabet.
#[verifier::external_body]
fn base64url_text(bytes: &[u8]) -> (encoded: String)
    ensures
        encoded@ == base64url(bytes@),
{
    base64::engine::general_purpose::URL_SAFE_NO_PAD.encode(bytes)
}

/// Draws 32 random bytes.
///
/// Calls `rand::random`; nothing is claimed of the outcome.
#[verifier::external_body]
fn random_secret() -> [u8; 32] {
    rand::random()
}

/// The current time.
///
/// Calls `chrono::Utc::now`, and `timestamp` and `timestamp_subsec_nanos` of its
/// result. It does not yield a time before the epoch, nor one after the year
/// 262142, nor a leap second. It panics while the system clock is set before the
/// epoch.
#[verifier::external_body]
fn utc_now() -> (now: UtcTime)
    ensures
        is_clock_time(now),
{
    let now = chrono::Utc::now();
    UtcTime { secs: now.timestamp(), nanos: now.timestamp_subsec_nanos() }
}

/// A time in whole microseconds since the Unix epoch, as rows hold it.
fn micros(time: UtcTime) -> (micros: i64)
    requires
        0 <= time.secs <= 9_000_000_000_000,
        time.nanos < 1_000_000_000,
    ensures
        micros == micros_of(time),
{
    time.secs * 1_000_000 + (time.nanos / 1_000) as i64
}

/// Hash a v2 code string to its SHA-256 digest (32 bytes).
///
/// The code is the full `v2.<base64url>` string. The entire string is hashed so
/// the relay never needs to parse or decode the secret on the claim path.
pub fn hash_invite_code(code: &str) -> (hash: [u8; 32])
    ensures
        hash@ == token_hash_of(code@),
{
    sha256_digest(code.as_bytes())
}

/// Whether `invite` is what preparing an invite gives.
pub open spec fn prepared(
    secret: Seq<u8>,
    now: UtcTime,
    community: u128,
    created_by: Seq<char>,
    ttl_secs: u64,
    max_uses: Option<i32>,
    invite: Result<PendingInvite, InviteError>,
) -> bool {
    match invite {
        Ok(invite) => {
            &&& valid_budget(max_uses)
            &&& invite.code@ == code_of_secret(secret)
            &&& invite.row.community == community
            &&& invite.row.token_hash@ == token_hash_of(invite.code@)
            &&& invite.row.max_uses == max_uses
            &&& invite.expires_at == expiry(now, ttl_secs)
            &&& invite.row.expires_at == micros_of(expiry(now, ttl_secs))
            &&& invite.row.created_by@ == created_by
        },
        Err(InviteError::InvalidData(message)) => !valid_budget(max_uses) && message@
            == "max_uses must be between 1 and 10000"@,
    }
}

/// An invite is minted for every budget of 1 to 10000 uses and for none, and for no
/// other. Its row holds the community, the budget and the creator that were given,
/// and the hash of the whole code in place of the code; it lasts for as long as was
/// asked for, where that is between a minute and thirty days.
pub proof fn invites_are_minted_as_asked(
    secret: Seq<u8>,
    now: UtcTime,
    community: u128,
    created_by: Seq<char>,
    ttl_secs: u64,
    max_uses: Option<i32>,
    invite: Result<PendingInvite, InviteError>,
)
    requires
        is_clock_time(now),
        prepared(secret, now, community, created_by, ttl_secs, max_uses, invite),
    ensures
        invite is Ok <==> max_uses is None || 1 <= max_uses->Some_0 <= 10_000,
        invite matches Err(InviteError::InvalidData(message)) ==> message@
            == "max_uses must be between 1 and 10000"@,
        invite matches Ok(invite) ==> {
            &&& invite.row.community == community
            &&& invite.row.max_uses == max_uses
            &&& invite.row.created_by@ == created_by
            &&& invite.code@ == "v2."@ + base64url(secret)
            &&& invite.row.token_hash@ == sha256(vstd::utf8::encode_utf8(invite.code@))
            &&& invite.row.expires_at == micros_of(invite.expires_at)
            &&& 60 <= ttl_secs <= 2_592_000 ==> invite.expires_at == (UtcTime {
                secs: (now.secs + ttl_secs) as i64,
                nanos: now.nanos,
            })
        },
{
}

/// Prepares a v2 invite from its random secret and the current time.
///
/// `ttl_secs` is clamped to the accepted lifetime range. `max_uses` must be
/// `None` (unlimited) or `Some(1..=10000)`.
pub fn prepare_invite(
    secret: &[u8; 32],
    now: UtcTime,
    community: u128,
    created_by: &str,
    ttl_secs: u64,
    max_uses: Option<i32>,
) -> (invite: Result<PendingInvite, InviteError>)
    requires
        is_clock_time(now),
    ensures
        prepared(secret@, now, community, created_by@, ttl_secs, max_uses, invite),
        match invite {
            Ok(invite) => {
                &&& valid_budget(max_uses)
                &&& invite.code@ == code_of_secret(secret@)
                &&& invite.row.community == community
                &&& invite.row.token_hash@ == token_hash_of(invite.code@)
                &&& invite.row.max_uses == max_uses
                &&& invite.expires_at == expiry(now, ttl_secs)
                &&& invite.row.expires_at == micros_of(expiry(now, ttl_secs))
                &&& invite.row.created_by@ == created_by@
            },
            Err(InviteError::InvalidData(message)) => !valid_budget(max_uses) && message@
                == "max_uses must be between 1 and 10000"@,
        },
{
    let code = text::join2("v2.", base64url_text(secret.as_slice()).as_str());
    let token_hash = hash_invite_code(code.as_str());
    let ttl: u64 = if ttl_secs < invite::MIN_INVITE_TTL_SECS {
        invite::MIN_INVITE_TTL_SECS
    } else if ttl_secs > invite::MAX_INVITE_TTL_SECS {
        invite::MAX_INVITE_TTL_SECS
    } else {
        ttl_secs
    };
    let expires_at = UtcTime { secs: now.secs + (ttl as i64), nanos: now.nanos };
    match max_uses {
        Some(max) => {
            if max < 1 || max > MAX_INVITE_USES {
                return Err(
                    InviteError::InvalidData("max_uses must be between 1 and 10000".to_owned()),
                );
            }
        },
        None => {},
    }
    Ok(
        PendingInvite {
            code,
            expires_at,
            row: NewInviteRow {
                community,
                token_hash,
                max_uses,
                expires_at: micros(expires_at),
                created_by: created_by.to_owned(),
            },
        },
    )
}

/// Mint a v2 invite: generate a 32-byte random secret, hash it, and hand back
/// the plaintext code with the row to persist.
pub fn mint_relay_invite(
    community: u128,
    created_by: &str,
    ttl_secs: u64,
    max_uses: Option<i32>,
) -> (invite: Result<PendingInvite, InviteError>)
    ensures
        match invite {
            Ok(invite) => {
                &&& valid_budget(max_uses)
                &&& exists|secret: Seq<u8>|
                    secret.len() == 32 && invite.code@ == #[trigger] code_of_secret(secret)
                &&& invite.row.community == community
                &&& invite.row.token_hash@ == token_hash_of(invite.code@)
                &&& invite.row.max_uses == max_uses
                &&& exists|now: UtcTime|
                    is_clock_time(now) && invite.expires_at == #[trigger] expiry(now, ttl_secs)
                &&& invite.row.expires_at == micros_of(invite.expires_at)
                &&& invite.row.created_by@ == created_by@
            },
            Err(InviteError::InvalidData(message)) => !valid_budget(max_uses) && message@
                == "max_uses must be between 1 and 10000"@,
        },
{
    let secret = random_secret();
    let now = utc_now();
    prepare_invite(&secret, now, community, created_by, ttl_secs, max_uses)
}

/// Whether `invite` is what the caller gets once the row of `pending` has been
/// inserted as `invite_id`.
pub open spec fn handed_out(pending: PendingInvite, invite_id: u128, invite: MintedInvite) -> bool {
    &&& invite.code@ == pending.code@
    &&& invite.expires_at == pending.expires_at
    &&& invite.max_uses == pending.row.max_uses
    &&& invite.uses_remaining == pending.row.max_uses
    &&& invite.invite_id == invite_id
}

impl PendingInvite {
    /// The invite to hand to the caller once its row has been inserted as
    /// `invite_id`.
    pub fn inserted(self, invite_id: u128) -> (invite: MintedInvite)
        ensures
            handed_out(self, invite_id, invite),
            invite.code@ == self.code@,
            invite.expires_at == self.expires_at,
            invite.max_uses == self.row.max_uses,
            invite.uses_remaining == self.row.max_uses,
            invite.invite_id == invite_id,
    {
        MintedInvite {
            code: self.code,
            expires_at: self.expires_at,
            max_uses: self.row.max_uses,
            uses_remaining: self.row.max_uses,
            invite_id,
        }
    }
}

/// The invite row that a claim has locked.
#[derive(Debug, Clone, Copy, PartialEq, Eq)]
pub struct InviteRecord {
    /// The invite's UUID.
    pub id: u128,
    /// `None` means unlimited; `Some(n)` means at most `n` uses.
    pub max_uses: Option<i32>,
    /// Members that have joined with this invite.
    pub use_count: i32,
    /// Expiry in microseconds since the Unix epoch.
    pub expires_at: i64,
}

/// What a claim does after it has looked for its invite row.
#[derive(Debug, Clone, Copy, PartialEq)]
pub enum ClaimLookup {
    /// Roll back and report the outcome.
    Refused(ClaimOutcome),
    /// Look up whether the claimer is already a member.
    CheckMembership(InviteRecord),
}

/// A write of a claim transaction.
#[derive(Debug, Clone, Copy, PartialEq, Eq)]
pub enum ClaimWrite {
    /// Insert the claimer as a member added by an invite.
    InsertMember,
    /// Insert evidence that the claimer accepted the configured join policy.
    InsertAcceptance,
    /// Set the use count of the invite row.
    SetUseCount(i32),
}

/// The rest of a claim transaction: perform `writes` in order, then commit or
/// roll back, then report `outcome`.
#[derive(Debug, Clone, PartialEq)]
pub struct ClaimPlan {
    /// Writes, in order.
    pub writes: Vec<ClaimWrite>,
    /// Whether the transaction commits.
    pub commit: bool,
    /// What the claim reports.
    pub outcome: ClaimOutcome,
}

/// The value of a [`ClaimPlan`].
pub struct PlanView {
    pub writes: Seq<ClaimWrite>,
    pub commit: bool,
    pub outcome: ClaimOutcome,
}

impl View for ClaimPlan {
    type V = PlanView;

    open spec fn view(&self) -> PlanView {
        PlanView { writes: self.writes@, commit: self.commit, outcome: self.outcome }
    }
}

/// The slots that are left of a use budget.
pub open spec fn remaining(max_uses: Option<i32>, use_count: int) -> Option<i32> {
    match max_uses {
        Some(max) => Some((max - use_count) as i32),
        None => None,
    }
}

/// Whether a use budget is consumed.
pub open spec fn exhausted(record: InviteRecord) -> bool {
    record.max_uses matches Some(max) && record.use_count >= max
}

/// Whether the counters of a row can be reported and advanced in 32 bits.
pub open spec fn countable(record: InviteRecord, member: bool) -> bool {
    &&& record.max_uses matches Some(max) ==> i32::MIN <= max - record.use_count <= i32::MAX
    &&& !member && !exhausted(record) ==> record.use_count < i32::MAX
}

/// What a claim does after it has looked for its invite row.
pub open spec fn lookup_result(found: Option<InviteRecord>, now: i64) -> ClaimLookup {
    match found {
        None => ClaimLookup::Refused(ClaimOutcome::Invalid),
        Some(record) if record.expires_at <= now => ClaimLookup::Refused(ClaimOutcome::Expired),
        Some(record) => ClaimLookup::CheckMembership(record),
    }
}

/// The acceptance write of a claim, when a join policy is configured.
pub open spec fn acceptance(policy: bool) -> Seq<ClaimWrite> {
    if policy {
        seq![ClaimWrite::InsertAcceptance]
    } else {
        seq![]
    }
}

/// The rest of a claim on a live invite row.
pub open spec fn claim_plan(record: InviteRecord, member: bool, policy: bool) -> PlanView {
    if member {
        PlanView {
            writes: acceptance(policy),
            commit: true,
            outcome: ClaimOutcome::AlreadyMember {
                use_count: record.use_count,
                uses_remaining: remaining(record.max_uses, record.use_count as int),
            },
        }
    } else if exhausted(record) {
        PlanView { writes: seq![], commit: false, outcome: ClaimOutcome::Exhausted }
    } else {
        let use_count = (record.use_count + 1) as i32;
        PlanView {
            writes: seq![ClaimWrite::InsertMember] + acceptance(policy)
                + seq![ClaimWrite::SetUseCount(use_count)],
            commit: true,
            outcome: ClaimOutcome::Joined {
                use_count,
                uses_remaining: remaining(record.max_uses, use_count as int),
            },
        }
    }
}

/// Decides how a claim goes on at `now`, after the invite row has been looked
/// up, and locked, under its community and token hash.
///
/// No row is `Invalid`; a row whose `expires_at` is not after `now` is
/// `Expired`.
pub fn look_up_claim(found: Option<InviteRecord>, now: i64) -> (lookup: ClaimLookup)
    ensures
        lookup == lookup_result(found, now),
{
    match found {
        None => ClaimLookup::Refused(ClaimOutcome::Invalid),
        Some(record) => {
            if record.expires_at <= now {
                ClaimLookup::Refused(ClaimOutcome::Expired)
            } else {
                ClaimLookup::CheckMembership(record)
            }
        },
    }
}

/// Decides how a claim goes on, at the time of the system clock, after the
/// invite row has been looked up, and locked, under its community and token
/// hash.
pub fn claim_relay_invite(found: Option<InviteRecord>) -> (lookup: ClaimLookup)
    ensures
        exists|now: UtcTime| #[trigger]
            is_clock_time(now) && lookup == lookup_result(found, micros_of(now) as i64),
{
    let now = utc_now();
    look_up_claim(found, micros(now))
}

/// Decides the rest of a claim on a live invite row.
///
/// A member is not counted again, but its policy evidence is recorded. A new
/// member takes one slot: membership, policy evidence and consumption share one
/// commit.
pub fn settle_claim(record: &InviteRecord, member: bool, policy_configured: bool) -> (plan:
    ClaimPlan)
    requires
        countable(*record, member),
    ensures
        plan@ == claim_plan(*record, member, policy_configured),
{
    let mut writes: Vec<ClaimWrite> = Vec::new();
    if member {
        if policy_configured {
            writes.push(ClaimWrite::InsertAcceptance);
        }
        assert(writes@ =~= acceptance(policy_configured));
        let uses_remaining: Option<i32> = match record.max_uses {
            Some(max) => Some(max - record.use_count),
            None => None,
        };
        return ClaimPlan {
            writes,
            commit: true,
            outcome: ClaimOutcome::AlreadyMember { use_count: record.use_count, uses_remaining },
        };
    }
    match record.max_uses {
        Some(max) => {
            if record.use_count >= max {
                assert(writes@ =~= seq![]);
                return ClaimPlan { writes, commit: false, outcome: ClaimOutcome::Exhausted };
            }
        },
        None => {},
    }
    writes.push(ClaimWrite::InsertMember);
    if policy_configured {
        writes.push(ClaimWrite::InsertAcceptance);
    }
    let use_count: i32 = record.use_count + 1;
    writes.push(ClaimWrite::SetUseCount(use_count));
    assert(writes@ =~= seq![ClaimWrite::InsertMember] + acceptance(policy_configured)
        + seq![ClaimWrite::SetUseCount(use_count)]);
    let uses_remaining: Option<i32> = match record.max_uses {
        Some(max) => Some(max - use_count),
        None => None,
    };
    ClaimPlan { writes, commit: true, outcome: ClaimOutcome::Joined { use_count, uses_remaining } }
}

/// What a claim on a live invite reports adds up. Whoever joins is counted, and
/// whoever is a member is not; the uses that remain and the count make up the
/// budget, and an invite without a budget has none remaining to report. Only
/// strangers are turned away, and only when the budget is used up.
pub proof fn reported_uses_add_up(record: InviteRecord, member: bool, policy: bool)
    requires
        countable(record, member),
    ensures
        ({
            let outcome = claim_plan(record, member, policy).outcome;
            &&& outcome matches ClaimOutcome::Joined { use_count, uses_remaining } ==> {
                &&& !member
                &&& use_count == record.use_count + 1
                &&& uses_remaining is None <==> record.max_uses is None
                &&& uses_remaining matches Some(left) ==> left + use_count
                    == record.max_uses->Some_0
                &&& uses_remaining matches Some(left) ==> record.use_count
                    < record.max_uses->Some_0
            }
            &&& outcome matches ClaimOutcome::AlreadyMember { use_count, uses_remaining } ==> {
                &&& use_count == record.use_count
                &&& uses_remaining is None <==> record.max_uses is None
                &&& uses_remaining matches Some(left) ==> left + use_count
                    == record.max_uses->Some_0
            }
            &&& outcome is AlreadyMember <==> member
            &&& outcome is Exhausted <==> !member && record.max_uses is Some && record.use_count
                >= record.max_uses->Some_0
            &&& outcome is Joined || outcome is AlreadyMember || outcome is Exhausted
        }),
{
}

/// A claim writes what it reports and nothing else. Whoever joins is inserted
/// first and counted last, and leaves evidence in between exactly if there is a
/// policy; a member leaves that evidence only; who is turned away writes nothing
/// and commits nothing.
pub proof fn claims_write_what_they_report(record: InviteRecord, member: bool, policy: bool)
    ensures
        ({
            let plan = claim_plan(record, member, policy);
            let evidence: nat = if policy {
                1
            } else {
                0
            };
            &&& plan.commit == !(plan.outcome is Exhausted)
            &&& plan.writes.contains(ClaimWrite::InsertAcceptance) <==> policy && plan.commit
            &&& plan.outcome matches ClaimOutcome::Joined { use_count, .. } ==> {
                &&& plan.writes.len() == 2 + evidence
                &&& plan.writes[0] == ClaimWrite::InsertMember
                &&& plan.writes.last() == ClaimWrite::SetUseCount(use_count)
            }
            &&& plan.outcome is AlreadyMember ==> plan.writes.len() == evidence
            &&& plan.outcome is Exhausted ==> plan.writes.len() == 0
        }),
{
    let plan = claim_plan(record, member, policy);
    if policy && plan.commit {
        if member {
            assert(plan.writes[0] == ClaimWrite::InsertAcceptance);
        } else {
            assert(plan.writes[1] == ClaimWrite::InsertAcceptance);
        }
    }
}

/// A claim on no invite is invalid, and one on an invite whose time has come is
/// too late; every other claim goes on with the invite that was found.
pub proof fn claims_need_a_live_invite(found: Option<InviteRecord>, now: i64)
    ensures
        found is None ==> lookup_result(found, now) == ClaimLookup::Refused(ClaimOutcome::Invalid),
        found matches Some(record) ==> lookup_result(found, now) == if now < record.expires_at {
            ClaimLookup::CheckMembership(record)
        } else {
            ClaimLookup::Refused(ClaimOutcome::Expired)
        },
{
}

/// An invite lives for as long as was asked for, within a minute and thirty
/// days, from the moment it was minted; the row holds that time to the
/// microsecond. A longer wish never makes a shorter life.
pub proof fn lifetimes_are_as_asked_within_bounds(now: UtcTime, ttl_secs: u64, longer: u64)
    requires
        is_clock_time(now),
        ttl_secs <= longer,
    ensures
        ({
            let expires = expiry(now, ttl_secs);
            let life = expires.secs - now.secs;
            &&& 60 <= life <= 2_592_000
            &&& 60 <= ttl_secs <= 2_592_000 ==> life == ttl_secs
            &&& ttl_secs < 60 ==> life == 60
            &&& ttl_secs > 2_592_000 ==> life == 2_592_000
            &&& expires.nanos == now.nanos
            &&& life <= expiry(now, longer).secs - now.secs
            &&& micros_of(expires) == micros_of(now) + life * 1_000_000
            &&& 0 <= (expires.secs * 1_000_000_000 + expires.nanos) - micros_of(expires) * 1_000
                < 1_000
        }),
{
}

/// A budget is none at all or 1 to 10000 uses, and codes begin with their
/// version.
pub proof fn budgets_and_codes_have_their_form(max_uses: Option<i32>, secret: Seq<u8>)
    ensures
        valid_budget(max_uses) <==> (max_uses is None || 1 <= max_uses->Some_0 <= 10_000),
        code_of_secret(secret).take(3) == "v2."@,
        secret.len() == 32 ==> code_of_secret(secret).len() == 46,
{
    reveal_strlit("v2.");
    assert(code_of_secret(secret).take(3) =~= "v2."@);
}

/// What claims read and write: invites by community and token hash, members by
/// community, and policy evidence by community, member and policy version.
#[verifier::ext_equal]
pub struct InviteStore {
    pub invites: Map<(u128, Seq<u8>), InviteRecord>,
    pub members: Set<(u128, Seq<char>)>,
    pub acceptances: Set<(u128, Seq<char>, Seq<char>)>,
}

/// Who claims which invite, under which join policy.
pub struct Claim {
    pub community: u128,
    pub token_hash: Seq<u8>,
    pub claimer: Seq<char>,
    pub policy_version: Option<Seq<char>>,
}

impl Claim {
    /// The invite that is claimed.
    pub open spec fn invite(self) -> (u128, Seq<u8>) {
        (self.community, self.token_hash)
    }

    /// The membership that is claimed.
    pub open spec fn membership(self) -> (u128, Seq<char>) {
        (self.community, self.claimer)
    }

    /// The evidence that is left under the policy `version`.
    pub open spec fn evidence(self, version: Seq<char>) -> (u128, Seq<char>, Seq<char>) {
        (self.community, self.claimer, version)
    }
}

/// A store after one write of a claim.
pub open spec fn written(store: InviteStore, claim: Claim, write: ClaimWrite) -> InviteStore {
    match write {
        ClaimWrite::InsertMember => InviteStore {
            members: store.members.insert(claim.membership()),
            ..store
        },
        ClaimWrite::InsertAcceptance => InviteStore {
            acceptances: store.acceptances.insert(
                claim.evidence(claim.policy_version->Some_0),
            ),
            ..store
        },
        ClaimWrite::SetUseCount(use_count) => InviteStore {
            invites: store.invites.insert(
                claim.invite(),
                InviteRecord { use_count, ..store.invites[claim.invite()] },
            ),
            ..store
        },
    }
}

/// A store after the writes of a claim, in order.
pub open spec fn written_all(store: InviteStore, claim: Claim, writes: Seq<ClaimWrite>) -> InviteStore
    decreases writes.len(),
{
    if writes.len() == 0 {
        store
    } else {
        written(written_all(store, claim, writes.drop_last()), claim, writes.last())
    }
}

/// A store after a claim at `now`, and what the claim reports.
pub open spec fn claimed(store: InviteStore, claim: Claim, now: i64) -> (InviteStore, ClaimOutcome) {
    let found = if store.invites.contains_key(claim.invite()) {
        Some(store.invites[claim.invite()])
    } else {
        None
    };
    match lookup_result(found, now) {
        ClaimLookup::Refused(outcome) => (store, outcome),
        ClaimLookup::CheckMembership(record) => {
            let plan = claim_plan(
                record,
                store.members.contains(claim.membership()),
                claim.policy_version is Some,
            );
            (
                if plan.commit {
                    written_all(store, claim, plan.writes)
                } else {
                    store
                },
                plan.outcome,
            )
        },
    }
}

/// Whether no invite was used more often than its budget allows, and every
/// count can still grow.
pub open spec fn within_budgets(store: InviteStore) -> bool {
    forall|key: (u128, Seq<u8>)| #[trigger]
        store.invites.contains_key(key) ==> {
            let record = store.invites[key];
            &&& 0 <= record.use_count
            &&& match record.max_uses {
                Some(max) => 1 <= max <= MAX_INVITE_USES && record.use_count <= max,
                None => record.use_count < i32::MAX,
            }
        }
}

/// Whether the invite of a claim, if it is unlimited, can be counted once more.
pub open spec fn can_count_on(store: InviteStore, claim: Claim) -> bool {
    store.invites.contains_key(claim.invite()) && store.invites[claim.invite()].max_uses is None
        ==> store.invites[claim.invite()].use_count < i32::MAX - 1
}

/// The evidence that a claim adds to what there is.
pub open spec fn evidence_after(store: InviteStore, claim: Claim) -> Set<
    (u128, Seq<char>, Seq<char>),
> {
    match claim.policy_version {
        Some(version) => store.acceptances.insert(claim.evidence(version)),
        None => store.acceptances,
    }
}

proof fn lemma_claimed(store: InviteStore, claim: Claim, now: i64)
    requires
        within_budgets(store),
    ensures
        ({
            let key = claim.invite();
            let record = store.invites[key];
            let (after, outcome) = claimed(store, claim, now);
            &&& !store.invites.contains_key(key) <==> outcome is Invalid
            &&& outcome is Expired <==> store.invites.contains_key(key) && record.expires_at <= now
            &&& outcome is AlreadyMember <==> store.invites.contains_key(key) && record.expires_at
                > now && store.members.contains(claim.membership())
            &&& outcome is Exhausted <==> store.invites.contains_key(key) && record.expires_at
                > now && !store.members.contains(claim.membership()) && exhausted(record)
            &&& outcome is Invalid || outcome is Expired || outcome is Exhausted ==> after == store
            &&& outcome matches ClaimOutcome::AlreadyMember { use_count, uses_remaining } ==> {
                &&& use_count == record.use_count
                &&& uses_remaining == remaining(record.max_uses, record.use_count as int)
                &&& after == InviteStore { acceptances: evidence_after(store, claim), ..store }
            }
            &&& outcome matches ClaimOutcome::Joined { use_count, uses_remaining } ==> {
                &&& use_count == record.use_count + 1
                &&& uses_remaining == remaining(record.max_uses, use_count as int)
                &&& after == InviteStore {
                    invites: store.invites.insert(key, InviteRecord { use_count, ..record }),
                    members: store.members.insert(claim.membership()),
                    acceptances: evidence_after(store, claim),
                }
            }
        }),
{
    let key = claim.invite();
    if store.invites.contains_key(key) {
        let record = store.invites[key];
        let none: Seq<ClaimWrite> = seq![];
        let evidence = seq![ClaimWrite::InsertAcceptance];
        let member = seq![ClaimWrite::InsertMember];
        let both = seq![ClaimWrite::InsertMember, ClaimWrite::InsertAcceptance];
        let count = ClaimWrite::SetUseCount((record.use_count + 1) as i32);
        assert(evidence.drop_last() =~= none);
        assert(member.drop_last() =~= none);
        assert(both.drop_last() =~= member);
        assert(member + evidence =~= both);
        assert(member + none =~= member);
        assert((member + seq![count]).drop_last() =~= member);
        assert((both + seq![count]).drop_last() =~= both);
        reveal_with_fuel(written_all, 4);
    }
}

/// The counters of an invite that keeps its budget can be reported and
/// advanced.
pub proof fn budgets_are_countable(store: InviteStore, key: (u128, Seq<u8>), member: bool)
    requires
        within_budgets(store),
        store.invites.contains_key(key),
    ensures
        countable(store.invites[key], member),
{
}

/// A claim is decided by the invite, the time, the claimer's membership and the
/// budget, in this order, and by nothing else; and what it leaves behind follows
/// from what it reports.
pub proof fn claims_are_decided_in_order(store: InviteStore, claim: Claim, now: i64)
    requires
        within_budgets(store),
    ensures
        ({
            let key = (claim.community, claim.token_hash);
            let membership = (claim.community, claim.claimer);
            let known = store.invites.contains_key(key);
            let record = store.invites[key];
            let member = store.members.contains(membership);
            let full = record.max_uses is Some && record.use_count == record.max_uses->Some_0;
            let (after, outcome) = claimed(store, claim, now);
            &&& outcome is Invalid <==> !known
            &&& outcome is Expired <==> known && record.expires_at <= now
            &&& outcome is AlreadyMember <==> known && record.expires_at > now && member
            &&& outcome is Exhausted <==> known && record.expires_at > now && !member && full
            &&& outcome is Joined <==> known && record.expires_at > now && !member && !full
            &&& outcome is Joined ==> {
                &&& after.members == store.members.insert(membership)
                &&& after.invites[key] == (InviteRecord {
                    use_count: (record.use_count + 1) as i32,
                    ..record
                })
            }
            &&& !(outcome is Joined) ==> after.members == store.members && after.invites
                == store.invites
            &&& after.invites.dom() == store.invites.dom()
            &&& forall|other: (u128, Seq<u8>)|
                other != key && store.invites.contains_key(other) ==> #[trigger] after.invites[other]
                    == store.invites[other]
            &&& after.acceptances == match claim.policy_version {
                Some(version) if outcome is Joined || outcome is AlreadyMember =>
                    store.acceptances.insert((claim.community, claim.claimer, version)),
                _ => store.acceptances,
            }
        }),
{
    lemma_claimed(store, claim, now);
    assert(claimed(store, claim, now).0.invites.dom() =~= store.invites.dom());
}

/// A claim that is refused leaves everything as it was.
pub proof fn refused_claims_change_nothing(store: InviteStore, claim: Claim, now: i64)
    requires
        within_budgets(store),
        !(claimed(store, claim, now).1 is Joined),
        !(claimed(store, claim, now).1 is AlreadyMember),
    ensures
        claimed(store, claim, now).0 == store,
{
    lemma_claimed(store, claim, now);
}

/// A member is never counted: its claim touches neither invites nor members,
/// and leaves its policy evidence.
pub proof fn members_are_not_counted_again(store: InviteStore, claim: Claim, now: i64)
    requires
        within_budgets(store),
        claimed(store, claim, now).1 is AlreadyMember,
    ensures
        claimed(store, claim, now).0 == (InviteStore {
            acceptances: evidence_after(store, claim),
            ..store
        }),
{
    lemma_claimed(store, claim, now);
}

/// A new member takes exactly one slot: membership, policy evidence and
/// consumption come together, and nothing else changes.
pub proof fn joining_takes_one_slot(store: InviteStore, claim: Claim, now: i64)
    requires
        within_budgets(store),
        claimed(store, claim, now).1 is Joined,
    ensures
        !store.members.contains(claim.membership()),
        claimed(store, claim, now).0 == (InviteStore {
            invites: store.invites.insert(
                claim.invite(),
                InviteRecord {
                    use_count: (store.invites[claim.invite()].use_count + 1) as i32,
                    ..store.invites[claim.invite()]
                },
            ),
            members: store.members.insert(claim.membership()),
            acceptances: evidence_after(store, claim),
        }),
{
    lemma_claimed(store, claim, now);
}

/// A claim keeps every count within its budget. An unlimited invite is counted
/// too, for as long as its count fits.
pub proof fn budgets_are_kept(store: InviteStore, claim: Claim, now: i64)
    requires
        within_budgets(store),
        can_count_on(store, claim),
    ensures
        within_budgets(claimed(store, claim, now).0),
{
    lemma_claimed(store, claim, now);
    let after = claimed(store, claim, now).0;
    assert forall|key: (u128, Seq<u8>)| #[trigger] after.invites.contains_key(key) implies ({
        let record = after.invites[key];
        &&& 0 <= record.use_count
        &&& match record.max_uses {
            Some(max) => 1 <= max <= MAX_INVITE_USES && record.use_count <= max,
            None => record.use_count < i32::MAX,
        }
    }) by {
        assert(store.invites.contains_key(key));
        assert(store.invites.contains_key(key) ==> 0 <= store.invites[key].use_count);
    }
}

/// Whoever has joined with an invite and claims it again, before it expires, is
/// told of their membership, with the counts of when they joined.
pub proof fn claiming_twice_joins_once(store: InviteStore, claim: Claim, now: i64, later: i64)
    requires
        within_budgets(store),
        can_count_on(store, claim),
        claimed(store, claim, now).1 is Joined,
        later < store.invites[claim.invite()].expires_at,
    ensures
        ({
            let (after, first) = claimed(store, claim, now);
            let (again, second) = claimed(after, claim, later);
            &&& second == ClaimOutcome::AlreadyMember {
                use_count: first->Joined_use_count,
                uses_remaining: first->Joined_uses_remaining,
            }
            &&& again == after
        }),
{
    lemma_claimed(store, claim, now);
    budgets_are_kept(store, claim, now);
    let after = claimed(store, claim, now).0;
    lemma_claimed(after, claim, later);
    assert(evidence_after(after, claim) =~= after.acceptances);
}

/// Whoever takes the last slot of an invite is the last: the next claim of
/// someone who is no member finds it exhausted.
pub proof fn the_last_slot_is_taken_once(
    store: InviteStore,
    claim: Claim,
    now: i64,
    next: Claim,
    later: i64,
)
    requires
        within_budgets(store),
        claimed(store, claim, now).1 matches ClaimOutcome::Joined { uses_remaining, .. }
            && uses_remaining == Some(0i32),
        next.invite() == claim.invite(),
        next.claimer != claim.claimer,
        !store.members.contains(next.membership()),
        later < store.invites[claim.invite()].expires_at,
    ensures
        claimed(claimed(store, claim, now).0, next, later).1 is Exhausted,
{
    lemma_claimed(store, claim, now);
    budgets_are_kept(store, claim, now);
    lemma_claimed(claimed(store, claim, now).0, next, later);
}

/// A store after a run of claims, each with its time, one after the other.
pub open spec fn claimed_all(store: InviteStore, claims: Seq<(Claim, i64)>) -> InviteStore
    decreases claims.len(),
{
    if claims.len() == 0 {
        store
    } else {
        claimed(claimed_all(store, claims.drop_last()), claims.last().0, claims.last().1).0
    }
}

/// What the last claim of a run reports.
pub open spec fn last_outcome(store: InviteStore, claims: Seq<(Claim, i64)>) -> ClaimOutcome {
    claimed(claimed_all(store, claims.drop_last()), claims.last().0, claims.last().1).1
}

/// How many claims of a run join with the invite `key`.
pub open spec fn joins(store: InviteStore, claims: Seq<(Claim, i64)>, key: (u128, Seq<u8>)) -> nat
    decreases claims.len(),
{
    if claims.len() == 0 {
        0
    } else {
        joins(store, claims.drop_last(), key) + if claims.last().0.invite() == key && last_outcome(
            store,
            claims,
        ) is Joined {
            1nat
        } else {
            0
        }
    }
}

/// Whether a claim joined and left no slot to others.
pub open spec fn took_last_slot(outcome: ClaimOutcome) -> bool {
    outcome matches ClaimOutcome::Joined { uses_remaining, .. } && uses_remaining == Some(0i32)
}

/// How many claims of a run take the last slot of the invite `key`.
pub open spec fn last_slots(
    store: InviteStore,
    claims: Seq<(Claim, i64)>,
    key: (u128, Seq<u8>),
) -> nat
    decreases claims.len(),
{
    if claims.len() == 0 {
        0
    } else {
        last_slots(store, claims.drop_last(), key) + if claims.last().0.invite() == key
            && took_last_slot(last_outcome(store, claims)) {
            1nat
        } else {
            0
        }
    }
}

/// Whether the unlimited invites can be counted `n` times more.
pub open spec fn can_count_all(store: InviteStore, n: nat) -> bool {
    forall|key: (u128, Seq<u8>)| #[trigger]
        store.invites.contains_key(key) && store.invites[key].max_uses is None
            ==> store.invites[key].use_count + n < i32::MAX
}

proof fn lemma_joins_fit(store: InviteStore, claims: Seq<(Claim, i64)>, key: (u128, Seq<u8>))
    ensures
        joins(store, claims, key) <= claims.len(),
    decreases claims.len(),
{
    if claims.len() > 0 {
        lemma_joins_fit(store, claims.drop_last(), key);
    }
}

/// Over any run of claims the use count of an invite grows by exactly the
/// number of those that join with it, never beyond its budget, and nothing else
/// of the invite changes. The last slot is taken by exactly one claim once it
/// is gone, and by none before. Nobody ceases to be a member.
pub proof fn runs_of_claims_are_counted(
    store: InviteStore,
    claims: Seq<(Claim, i64)>,
    key: (u128, Seq<u8>),
)
    requires
        within_budgets(store),
        can_count_all(store, claims.len()),
        store.invites.contains_key(key),
    ensures
        ({
            let before = store.invites[key];
            let after = claimed_all(store, claims);
            let count = before.use_count + joins(store, claims, key);
            &&& within_budgets(after)
            &&& after.invites.dom() == store.invites.dom()
            &&& after.invites[key].use_count == count
            &&& after.invites[key] == (InviteRecord { use_count: count as i32, ..before })
            &&& before.max_uses matches Some(max) ==> count <= max
            &&& last_slots(store, claims, key) == if before.max_uses is Some && before.use_count
                < before.max_uses->Some_0 && count == before.max_uses->Some_0 {
                1nat
            } else {
                0
            }
            &&& store.members.subset_of(after.members)
        }),
    decreases claims.len(),
{
    if claims.len() > 0 {
        let earlier = claims.drop_last();
        let (claim, now) = claims.last();
        let prior = claimed_all(store, earlier);
        runs_of_claims_are_counted(store, earlier, key);
        if prior.invites.contains_key(claim.invite()) {
            assert(store.invites.contains_key(claim.invite()));
            runs_of_claims_are_counted(store, earlier, claim.invite());
            lemma_joins_fit(store, earlier, claim.invite());
        }
        assert(can_count_on(prior, claim));
        lemma_claimed(prior, claim, now);
        budgets_are_kept(prior, claim, now);
        assert(prior.invites.contains_key(key));
        let after = claimed_all(store, claims);
        assert(after.invites.dom() =~= store.invites.dom());
        assert(after.invites.contains_key(key));
    } else {
        assert(store.invites[key].use_count as int as i32 == store.invites[key].use_count);
    }
}

/// Once a run of claims has filled an invite, whoever is no member finds it
/// exhausted until it expires.
pub proof fn full_invites_admit_nobody(
    store: InviteStore,
    claims: Seq<(Claim, i64)>,
    next: Claim,
    later: i64,
)
    requires
        within_budgets(store),
        can_count_all(store, claims.len()),
        store.invites.contains_key(next.invite()),
        store.invites[next.invite()].max_uses == Some(
            (store.invites[next.invite()].use_count + joins(store, claims, next.invite())) as i32,
        ),
        !claimed_all(store, claims).members.contains(next.membership()),
        later < store.invites[next.invite()].expires_at,
    ensures
        claimed(claimed_all(store, claims), next, later) == (
            claimed_all(store, claims),
            ClaimOutcome::Exhausted,
        ),
{
    runs_of_claims_are_counted(store, claims, next.invite());
    let after = claimed_all(store, claims);
    assert(after.invites.contains_key(next.invite()));
    lemma_claimed(after, next, later);
}

proof fn lemma_members_stay(store: InviteStore, claims: Seq<(Claim, i64)>, n: int)
    requires
        within_budgets(store),
        can_count_all(store, claims.len()),
        0 <= n <= claims.len(),
    ensures
        within_budgets(claimed_all(store, claims)),
        claimed_all(store, claims).invites.dom() == store.invites.dom(),
        claimed_all(store, claims.take(n)).members.subset_of(claimed_all(store, claims).members),
    decreases claims.len(),
{
    if n == claims.len() {
        assert(claims.take(n) =~= claims);
    }
    if claims.len() > 0 {
        let earlier = claims.drop_last();
        let (claim, now) = claims.last();
        let prior = claimed_all(store, earlier);
        let m = if n < claims.len() {
            n
        } else {
            n - 1
        };
        lemma_members_stay(store, earlier, m);
        if n < claims.len() {
            assert(earlier.take(n) =~= claims.take(n));
        }
        if prior.invites.contains_key(claim.invite()) {
            assert(store.invites.contains_key(claim.invite()));
            runs_of_claims_are_counted(store, earlier, claim.invite());
            lemma_joins_fit(store, earlier, claim.invite());
        }
        assert(can_count_on(prior, claim));
        lemma_claimed(prior, claim, now);
        budgets_are_kept(prior, claim, now);
        assert(claimed_all(store, claims).invites.dom() =~= store.invites.dom());
    }
}

/// Whoever joined at any point of a run of claims is told of their membership
/// when they claim any invite of the community again after it.
pub proof fn joiners_stay_members(
    store: InviteStore,
    claims: Seq<(Claim, i64)>,
    i: int,
    again: Claim,
    later: i64,
)
    requires
        within_budgets(store),
        can_count_all(store, claims.len()),
        0 <= i < claims.len(),
        last_outcome(store, claims.take(i + 1)) is Joined,
        again.membership() == claims[i].0.membership(),
        store.invites.contains_key(again.invite()),
        later < store.invites[again.invite()].expires_at,
    ensures
        claimed(claimed_all(store, claims), again, later).1 is AlreadyMember,
{
    let run = claims.take(i + 1);
    assert(run.drop_last() =~= claims.take(i));
    assert(run.last() == claims[i]);
    lemma_members_stay(store, claims.take(i), i);
    lemma_claimed(claimed_all(store, claims.take(i)), claims[i].0, claims[i].1);
    assert(claimed_all(store, run).members.contains(again.membership()));
    lemma_members_stay(store, claims, i + 1);
    runs_of_claims_are_counted(store, claims, again.invite());
    let after = claimed_all(store, claims);
    assert(after.invites.contains_key(again.invite()));
    lemma_claimed(after, again, later);
}

/// A store after the row of a new invite was inserted under the identifier
/// `id`.
pub open spec fn minted(store: InviteStore, row: NewInviteRow, id: u128) -> InviteStore {
    InviteStore {
        invites: store.invites.insert(
            (row.community, row.token_hash@),
            InviteRecord {
                id,
                max_uses: row.max_uses,
                use_count: 0,
                expires_at: row.expires_at,
            },
        ),
        ..store
    }
}

/// A minted invite admits the first claimer who presents its code to its
/// community in time.
pub proof fn minted_invites_can_be_claimed(
    store: InviteStore,
    row: NewInviteRow,
    id: u128,
    claim: Claim,
    code: Seq<char>,
    now: i64,
)
    requires
        within_budgets(store),
        valid_budget(row.max_uses),
        row.token_hash@ == token_hash_of(code),
        claim.community == row.community,
        claim.token_hash == token_hash_of(code),
        !store.members.contains(claim.membership()),
        now < row.expires_at,
    ensures
        within_budgets(minted(store, row, id)),
        claimed(minted(store, row, id), claim, now).1 == (ClaimOutcome::Joined {
            use_count: 1,
            uses_remaining: remaining(row.max_uses, 1),
        }),
{
    let after = minted(store, row, id);
    assert forall|key: (u128, Seq<u8>)| #[trigger] after.invites.contains_key(key) implies ({
        let record = after.invites[key];
        &&& 0 <= record.use_count
        &&& match record.max_uses {
            Some(max) => 1 <= max <= MAX_INVITE_USES && record.use_count <= max,
            None => record.use_count < i32::MAX,
        }
    }) by {
        if key != (row.community, row.token_hash@) {
            assert(store.invites.contains_key(key));
        }
    }
    lemma_claimed(after, claim, now);
}

/// Whoever is handed an invite can pass its code on: for as long as the invite
/// lasts, the first who presents that very code to the community joins, and what
/// the invite said remained is one less then.
pub proof fn invites_that_are_handed_out_admit(
    secret: Seq<u8>,
    now: UtcTime,
    community: u128,
    created_by: Seq<char>,
    ttl_secs: u64,
    max_uses: Option<i32>,
    pending: PendingInvite,
    id: u128,
    invite: MintedInvite,
    store: InviteStore,
    claim: Claim,
    later: UtcTime,
)
    requires
        is_clock_time(now),
        is_clock_time(later),
        prepared(secret, now, community, created_by, ttl_secs, max_uses, Ok(pending)),
        handed_out(pending, id, invite),
        within_budgets(store),
        claim.community == community,
        claim.token_hash == token_hash_of(invite.code@),
        !store.members.contains((community, claim.claimer)),
        micros_of(later) < micros_of(invite.expires_at),
    ensures
        ({
            let outcome = claimed(
                minted(store, pending.row, id),
                claim,
                micros_of(later) as i64,
            ).1;
            &&& outcome matches ClaimOutcome::Joined { use_count, uses_remaining }
            &&& use_count == 1
            &&& uses_remaining is None <==> max_uses is None
            &&& uses_remaining matches Some(left) ==> left + 1 == invite.uses_remaining->Some_0
        }),
        invite.uses_remaining == max_uses,
        invite.max_uses == max_uses,
        invite.invite_id == id,
        invite.expires_at == pending.expires_at,
{
    minted_invites_can_be_claimed(
        store,
        pending.row,
        id,
        claim,
        invite.code@,
        micros_of(later) as i64,
    );
}

/// A code that was minted for one community is invalid in another, unless that
/// one has an invite of the same code itself.
pub proof fn codes_stay_in_their_community(
    store: InviteStore,
    row: NewInviteRow,
    id: u128,
    claim: Claim,
    now: i64,
)
    requires
        within_budgets(store),
        claim.community != row.community,
        claim.token_hash == row.token_hash@,
        !store.invites.contains_key(claim.invite()),
    ensures
        claimed(minted(store, row, id), claim, now) == (
            minted(store, row, id),
            ClaimOutcome::Invalid,
        ),
{
}

}
