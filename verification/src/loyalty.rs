//! Loyalty programmes: member enrolment, point transactions and
//! redemptions with their voucher codes.
use vstd::prelude::*;
use vstd::string::StringExecFns;
use crate::common::{add_days, ascii_upper_char, chars_of, day_in_range, day_number, in_time_range,
    is_valid, new_id, now_millis, numbered_with, string_of, upper_char, utc_date_of, uuid_hyphenated, uuid_text,
    CivilDate, MILLIS_PER_DAY};

verus! {

#[derive(Debug, Clone, Copy, PartialEq, Eq, Structural)]
pub enum TierType {
    Bronze,
    Silver,
    Gold,
    Platinum,
    Diamond,
    Custom,
}

#[derive(Debug, Clone, Copy, PartialEq, Eq, Structural)]
pub enum PointType {
    Base,
    Bonus,
    Promotional,
    Expiring,
    Lifetime,
}

#[derive(Debug, Clone, Copy, PartialEq, Eq, Structural)]
pub enum RewardType {
    Discount,
    FreeProduct,
    Cashback,
    GiftCard,
    Experience,
    Upgrade,
    PartnerOffer,
}

#[derive(Debug, Clone, Copy, PartialEq, Eq, Structural)]
pub enum ProgramType {
    Points,
    Tiered,
    Cashback,
    Hybrid,
    Subscription,
}

#[derive(Debug, Clone, Copy, PartialEq, Eq, Structural)]
pub enum MemberStatus {
    Active,
    Inactive,
    Suspended,
    OptedOut,
    Expired,
}

#[derive(Debug, Clone, Copy, PartialEq, Eq, Structural)]
pub enum LoyaltyTransactionType {
    Earn,
    Redeem,
    Bonus,
    Refund,
    Expiry,
    Adjustment,
    Transfer,
    Purchase,
}

#[derive(Debug, Clone, Copy, PartialEq, Eq, Structural)]
pub enum RedemptionStatus {
    Pending,
    Confirmed,
    Used,
    Expired,
    Cancelled,
    Refunded,
}

#[derive(Debug, Clone, Copy, PartialEq, Eq, Structural)]
pub enum PromotionType {
    PointMultiplier,
    BonusPoints,
    DoublePoints,
    CategoryBonus,
    ProductBonus,
    Seasonal,
}

#[derive(Debug, Clone, Copy, PartialEq, Eq, Structural)]
pub enum TransferStatus {
    Pending,
    Completed,
    Failed,
    Cancelled,
}

/// Storage handle of the loyalty module (holds no state).
pub struct SqliteLoyaltyRepository;

/// Loyalty operations.
pub struct LoyaltyService {
    repo: SqliteLoyaltyRepository,
}

/// Why a loyalty record could not be made.
#[derive(Debug, Clone, Copy, PartialEq, Eq, Structural)]
pub enum LoyaltyError {
    /// A date would fall outside the calendar's range.
    DateOutOfRange,
}

/// A customer's membership of a programme.
#[derive(Debug, Clone)]
pub struct LoyaltyMember {
    pub id: u128,
    pub member_number: String,
    pub program_id: u128,
    pub customer_id: u128,
    pub tier_id: Option<u128>,
    pub enrollment_date: CivilDate,
    pub enrollment_source: Option<String>,
    pub total_points_earned: i64,
    pub total_points_redeemed: i64,
    pub available_points: i64,
    pub lifetime_points: i64,
    pub points_expiring: i64,
    pub points_expiring_date: Option<CivilDate>,
    pub total_rewards_redeemed: i64,
    pub tier_upgrade_date: Option<CivilDate>,
    pub tier_downgrade_date: Option<CivilDate>,
    pub referral_code: String,
    pub referred_by: Option<u128>,
    pub referral_count: i32,
    pub status: MemberStatus,
    pub last_activity_date: Option<CivilDate>,
    pub created_at_ms: i64,
    pub updated_at_ms: i64,
}

/// A movement of points on a member's account.
#[derive(Debug, Clone)]
pub struct LoyaltyTransaction {
    pub id: u128,
    pub transaction_number: String,
    pub member_id: u128,
    pub transaction_type: LoyaltyTransactionType,
    pub point_type: PointType,
    pub points: i64,
    pub running_balance: i64,
    pub source_type: Option<String>,
    pub source_id: Option<u128>,
    pub order_id: Option<u128>,
    pub amount: Option<i64>,
    pub currency: Option<String>,
    pub description: Option<String>,
    pub expiry_date: Option<CivilDate>,
    pub created_at_ms: i64,
}

/// Points spent on a reward.
#[derive(Debug, Clone)]
pub struct LoyaltyRedemption {
    pub id: u128,
    pub redemption_number: String,
    pub member_id: u128,
    pub reward_id: u128,
    pub points_used: i64,
    pub cash_value: i64,
    pub currency: String,
    pub order_id: Option<u128>,
    pub redemption_date: CivilDate,
    pub status: RedemptionStatus,
    pub voucher_code: Option<String>,
    pub voucher_expires: Option<CivilDate>,
    pub used_at_ms: Option<i64>,
    pub created_at_ms: i64,
}

/// What a customer asks for when joining a programme.
#[derive(Debug, Clone)]
pub struct EnrollMemberRequest {
    pub program_id: u128,
    pub customer_id: u128,
    pub enrollment_source: Option<String>,
    pub referred_by: Option<u128>,
}

/// Days a voucher stays valid after its redemption.
pub const VOUCHER_VALID_DAYS: i32 = 30;

/// The first eight characters of an identifier's hyphenated text, in
/// capitals.
pub open spec fn short_code(id: u128) -> Seq<char> {
    uuid_hyphenated(id).take(8).map_values(|c: char| ascii_upper_char(c))
}

/// `s` is `prefix` followed by the short code of some identifier.
pub open spec fn is_code_with(prefix: Seq<char>, s: Seq<char>) -> bool {
    exists|k: u128| s == prefix + #[trigger] short_code(k)
}

/// `REF`.
pub open spec fn referral_prefix() -> Seq<char> {
    seq!['R', 'E', 'F']
}

/// `VCH`.
pub open spec fn voucher_prefix() -> Seq<char> {
    seq!['V', 'C', 'H']
}

/// `MEM-`.
pub open spec fn member_prefix() -> Seq<char> {
    seq!['M', 'E', 'M', '-']
}

/// `TXN-`.
pub open spec fn transaction_prefix() -> Seq<char> {
    seq!['T', 'X', 'N', '-']
}

/// `RED-`.
pub open spec fn redemption_prefix() -> Seq<char> {
    seq!['R', 'E', 'D', '-']
}

/// `USD`.
pub open spec fn usd() -> Seq<char> {
    seq!['U', 'S', 'D']
}

/// The short code of a fresh random identifier.
fn fresh_short_code() -> (r: String)
    ensures
        exists|k: u128| r@ == #[trigger] short_code(k),
{
    let id = new_id();
    let text = uuid_text(id);
    let cs = chars_of(text.as_str());
    let mut out: Vec<char> = Vec::new();
    let mut i: usize = 0;
    while i < 8
        invariant
            i <= 8,
            cs@ == uuid_hyphenated(id),
            cs@.len() == 36,
            out@ == cs@.take(i as int).map_values(|c: char| ascii_upper_char(c)),
        decreases 8 - i,
    {
        out.push(upper_char(cs[i]));
        assert(cs@.take(i + 1) =~= cs@.take(i as int).push(cs@[i as int]));
        i = i + 1;
    }
    let r = string_of(&out);
    assert(r@ =~= short_code(id));
    r
}

/// `prefix` followed by the text of a fresh random identifier.
fn fresh_number(prefix: &str) -> (r: String)
    ensures
        numbered_with(prefix@, r@),
{
    let id = new_id();
    let r = String::from_str(prefix).concat(uuid_text(id).as_str());
    assert(r@ == prefix@ + uuid_hyphenated(id));
    r
}

/// A referral code: `REF` and a fresh short code.
fn generate_referral_code() -> (r: String)
    ensures
        is_code_with(referral_prefix(), r@),
{
    let code = fresh_short_code();
    let r = String::from_str("REF").concat(code.as_str());
    proof {
        reveal_strlit("REF");
        assert("REF"@ =~= referral_prefix());
        let k = choose|k: u128| code@ == #[trigger] short_code(k);
        assert(r@ == referral_prefix() + short_code(k));
    }
    r
}

/// A voucher code: `VCH` and a fresh short code.
fn generate_voucher_code() -> (r: String)
    ensures
        is_code_with(voucher_prefix(), r@),
{
    let code = fresh_short_code();
    let r = String::from_str("VCH").concat(code.as_str());
    proof {
        reveal_strlit("VCH");
        assert("VCH"@ =~= voucher_prefix());
        let k = choose|k: u128| code@ == #[trigger] short_code(k);
        assert(r@ == voucher_prefix() + short_code(k));
    }
    r
}

impl LoyaltyService {
    /// The one value of the service, which holds no state.
    pub closed spec fn the_service() -> Self {
        LoyaltyService { repo: SqliteLoyaltyRepository }
    }
}

/// `LoyaltyService` holds no state: every value of it is the one that `new`
/// gives, so any two of them answer every call alike.
pub proof fn law_loyalty_service_is_stateless(a: LoyaltyService)
    ensures
        a == LoyaltyService::the_service(),
{
}

impl LoyaltyService {
    pub fn new() -> (s: Self)
        ensures
            s == LoyaltyService::the_service(),
    {
        LoyaltyService { repo: SqliteLoyaltyRepository }
    }

    /// A new active member with no points, enrolled today (UTC), with a
    /// fresh member number and referral code.
    pub fn enroll_member(&self, req: EnrollMemberRequest) -> (m: LoyaltyMember)
        ensures
            numbered_with(member_prefix(), m.member_number@),
            m.program_id == req.program_id,
            m.customer_id == req.customer_id,
            m.tier_id is None,
            in_time_range(m.created_at_ms as int),
            is_valid(m.enrollment_date),
            day_number(m.enrollment_date) == (m.created_at_ms as int) / (MILLIS_PER_DAY as int),
            m.enrollment_source == req.enrollment_source,
            m.total_points_earned == 0,
            m.total_points_redeemed == 0,
            m.available_points == 0,
            m.lifetime_points == 0,
            m.points_expiring == 0,
            m.points_expiring_date is None,
            m.total_rewards_redeemed == 0,
            m.tier_upgrade_date is None,
            m.tier_downgrade_date is None,
            is_code_with(referral_prefix(), m.referral_code@),
            m.referred_by == req.referred_by,
            m.referral_count == 0,
            m.status == MemberStatus::Active,
            m.last_activity_date == Some(m.enrollment_date),
            m.updated_at_ms == m.created_at_ms,
    {
        let now = now_millis();
        let today = utc_date_of(now);
        let member_number = fresh_number("MEM-");
        proof {
            reveal_strlit("MEM-");
            assert("MEM-"@ =~= member_prefix());
        }
        LoyaltyMember {
            id: new_id(),
            member_number,
            program_id: req.program_id,
            customer_id: req.customer_id,
            tier_id: None,
            enrollment_date: today,
            enrollment_source: req.enrollment_source,
            total_points_earned: 0,
            total_points_redeemed: 0,
            available_points: 0,
            lifetime_points: 0,
            points_expiring: 0,
            points_expiring_date: None,
            total_rewards_redeemed: 0,
            tier_upgrade_date: None,
            tier_downgrade_date: None,
            referral_code: generate_referral_code(),
            referred_by: req.referred_by,
            referral_count: 0,
            status: MemberStatus::Active,
            last_activity_date: Some(today),
            created_at_ms: now,
            updated_at_ms: now,
        }
    }

    /// An earning of base points, in US dollars, described as
    /// "Points earned".
    pub fn earn_points(
        &self,
        member_id: u128,
        points: i64,
        source_type: String,
        source_id: Option<u128>,
        amount: Option<i64>,
    ) -> (t: LoyaltyTransaction)
        ensures
            numbered_with(transaction_prefix(), t.transaction_number@),
            t.member_id == member_id,
            t.transaction_type == LoyaltyTransactionType::Earn,
            t.point_type == PointType::Base,
            t.points == points,
            t.running_balance == 0,
            t.source_type == Some(source_type),
            t.source_id == source_id,
            t.order_id is None,
            t.amount == amount,
            t.currency matches Some(c) && c@ == usd(),
            t.description matches Some(d) && d@ == seq!['P', 'o', 'i', 'n', 't', 's', ' ', 'e', 'a', 'r', 'n', 'e', 'd'],
            t.expiry_date is None,
    {
        let now = now_millis();
        let transaction_number = fresh_number("TXN-");
        let currency = String::from_str("USD");
        let description = String::from_str("Points earned");
        proof {
            reveal_strlit("TXN-");
            reveal_strlit("USD");
            reveal_strlit("Points earned");
            assert("TXN-"@ =~= transaction_prefix());
        }
        LoyaltyTransaction {
            id: new_id(),
            transaction_number,
            member_id,
            transaction_type: LoyaltyTransactionType::Earn,
            point_type: PointType::Base,
            points,
            running_balance: 0,
            source_type: Some(source_type),
            source_id,
            order_id: None,
            amount,
            currency: Some(currency),
            description: Some(description),
            expiry_date: None,
            created_at_ms: now,
        }
    }

    /// A pending redemption made now (see `redemption_at`).
    pub fn redeem_points(&self, member_id: u128, reward_id: u128, points: i64) -> (r: Result<
        LoyaltyRedemption,
        LoyaltyError,
    >)
        ensures
            r matches Ok(x) ==> in_time_range(x.created_at_ms as int) && is_new_redemption(
                x,
                member_id,
                reward_id,
                points,
                x.created_at_ms,
            ),
            r matches Err(e) ==> e == LoyaltyError::DateOutOfRange,
    {
        let now = now_millis();
        redemption_at(member_id, reward_id, points, now)
    }
}

/// The fields of a redemption made at `now_ms`, apart from its identifier.
pub open spec fn is_new_redemption(
    x: LoyaltyRedemption,
    member_id: u128,
    reward_id: u128,
    points: i64,
    now_ms: i64,
) -> bool {
    &&& numbered_with(redemption_prefix(), x.redemption_number@)
    &&& x.member_id == member_id
    &&& x.reward_id == reward_id
    &&& x.points_used == points
    &&& x.cash_value == 0
    &&& x.currency@ == usd()
    &&& x.order_id is None
    &&& is_valid(x.redemption_date)
    &&& day_number(x.redemption_date) == (now_ms as int) / (MILLIS_PER_DAY as int)
    &&& x.status == RedemptionStatus::Pending
    &&& x.voucher_code matches Some(v) && is_code_with(voucher_prefix(), v@)
    &&& x.voucher_expires matches Some(e) && is_valid(e) && day_number(e) == day_number(
        x.redemption_date,
    ) + VOUCHER_VALID_DAYS
    &&& x.used_at_ms is None
    &&& x.created_at_ms == now_ms
}

/// A pending redemption made at `now_ms`, dated that instant's UTC day, with
/// a fresh voucher code that expires thirty days later. Fails with
/// `DateOutOfRange` exactly when that expiry lies outside the calendar.
pub fn redemption_at(member_id: u128, reward_id: u128, points: i64, now_ms: i64) -> (r: Result<
    LoyaltyRedemption,
    LoyaltyError,
>)
    requires
        in_time_range(now_ms as int),
    ensures
        r is Ok <==> day_in_range((now_ms as int) / (MILLIS_PER_DAY as int) + VOUCHER_VALID_DAYS),
        r matches Ok(x) ==> is_new_redemption(x, member_id, reward_id, points, now_ms),
        r matches Err(e) ==> e == LoyaltyError::DateOutOfRange,
{
    let today = utc_date_of(now_ms);
    let expires = match add_days(today, VOUCHER_VALID_DAYS) {
        Some(d) => d,
        None => return Err(LoyaltyError::DateOutOfRange),
    };
    let redemption_number = fresh_number("RED-");
    let currency = String::from_str("USD");
    proof {
        reveal_strlit("RED-");
        reveal_strlit("USD");
        assert("RED-"@ =~= redemption_prefix());
    }
    let voucher = generate_voucher_code();
    let x = LoyaltyRedemption {
        id: new_id(),
        redemption_number,
        member_id,
        reward_id,
        points_used: points,
        cash_value: 0,
        currency,
        order_id: None,
        redemption_date: today,
        status: RedemptionStatus::Pending,
        voucher_code: Some(voucher),
        voucher_expires: Some(expires),
        used_at_ms: None,
        created_at_ms: now_ms,
    };
    assert(x.currency@ == usd());
    assert(numbered_with(redemption_prefix(), x.redemption_number@));
    assert(x.voucher_code matches Some(v) && is_code_with(voucher_prefix(), v@));
    Ok(x)
}

} // verus!
