//! Risk profiles, and the assessment of an order's value against them.
use vstd::prelude::*;
use crate::amount::Amount;
use crate::error::{clock_unavailable, outcome, AppError, AppResult, ErrorView};
use crate::model::{RiskEvaluation, RiskLevel};
use crate::system::now_timestamp;
use crate::table::{Record, Table};

verus! {

/// Bit pattern of the order-value limit for users without a profile, 5 000.
pub const DEFAULT_MAX_ORDER_VALUE_BITS: u64 = 0x40b3_8800_0000_0000;

/// Bit pattern of 1 000.
pub const ONE_THOUSAND_BITS: u64 = 0x408f_4000_0000_0000;

/// Bit pattern of 5 000.
pub const FIVE_THOUSAND_BITS: u64 = 0x40b3_8800_0000_0000;

/// Bit pattern of 10 000.
pub const TEN_THOUSAND_BITS: u64 = 0x40c3_8800_0000_0000;

/// Bit pattern of 20 000.
pub const TWENTY_THOUSAND_BITS: u64 = 0x40d3_8800_0000_0000;

/// Bit pattern of 50 000.
pub const FIFTY_THOUSAND_BITS: u64 = 0x40e8_6a00_0000_0000;

/// The order-value limit for users without a profile.
pub open spec fn default_limit() -> Amount {
    Amount { bits: DEFAULT_MAX_ORDER_VALUE_BITS }
}

/// Why an order was not approved.
#[derive(Clone, Copy, Debug)]
pub enum RiskRejection {
    /// The user has no profile and the value is above the default limit.
    ExceedsDefaultLimit,
    /// The value is above the limit of the user's profile.
    ExceedsUserLimit { order_value: Amount, max_order_value: Amount },
}

/// The text given for a refusal against the default limit.
pub open spec fn default_limit_reason() -> Seq<char> {
    "Order value exceeds default limit of 5000.0"@
}

impl RiskRejection {
    /// The reason's text when it needs no number written out: `Some` for a
    /// refusal against the default limit, `None` for one against a user's
    /// own limit, whose text shows the two values.
    pub fn fixed_text(&self) -> (t: Option<String>)
        ensures
            match self {
                RiskRejection::ExceedsDefaultLimit => t matches Some(s) && s@ == default_limit_reason(),
                RiskRejection::ExceedsUserLimit { .. } => t is None,
            },
    {
        match self {
            RiskRejection::ExceedsDefaultLimit => Some(
                String::from_str("Order value exceeds default limit of 5000.0"),
            ),
            RiskRejection::ExceedsUserLimit { .. } => None,
        }
    }
}

/// The verdict on an order: whether it is approved, why not, and the risk
/// level it was judged at.
pub type Verdict = (bool, Option<RiskRejection>, Option<RiskLevel>);

/// Looking up the profile of `user_id`.
pub open spec fn get_profile_step(profiles: Map<Seq<char>, RiskEvaluation>, user_id: Seq<char>) -> Result<
    RiskEvaluation,
    ErrorView,
> {
    if profiles.contains_key(user_id) {
        Ok(profiles[user_id])
    } else {
        Err(ErrorView::NotFound("Risk profile not found for user: "@ + user_id))
    }
}

/// The verdict on an order of value `value` by `user_id`.
///
/// Without a profile the order is judged at the medium level against the
/// default limit: approved when the value is at most the limit, with a
/// reason when it is above it.  With a profile it is refused, with a reason,
/// when the value is above the profile's limit, and approved otherwise.
/// Comparisons are those of binary64 numbers, so a `NaN` value is neither at
/// most nor above a limit.
pub open spec fn evaluate_step(
    profiles: Map<Seq<char>, RiskEvaluation>,
    user_id: Seq<char>,
    value: Amount,
) -> Verdict {
    if !profiles.contains_key(user_id) {
        (
            value.at_most_spec(default_limit()),
            if value.greater_than(default_limit()) {
                Some(RiskRejection::ExceedsDefaultLimit)
            } else {
                None
            },
            Some(RiskLevel::Medium),
        )
    } else {
        let p = profiles[user_id];
        if value.greater_than(p.max_order_value) {
            (
                false,
                Some(
                    RiskRejection::ExceedsUserLimit {
                        order_value: value,
                        max_order_value: p.max_order_value,
                    },
                ),
                Some(p.risk_level),
            )
        } else {
            (true, None, Some(p.risk_level))
        }
    }
}

/// `profiles` holds exactly the three sample profiles, updated at the times
/// `t1`, `t2` and `t3`: `user1` at low risk (order limit 10 000, daily
/// volume 50 000), `user2` at medium risk (5 000 and 20 000) and `user3` at
/// high risk (1 000 and 5 000).
pub open spec fn sample_profiles(
    profiles: Map<Seq<char>, RiskEvaluation>,
    t1: i64,
    t2: i64,
    t3: i64,
) -> bool {
    &&& profiles.dom() == set!["user1"@, "user2"@, "user3"@]
    &&& profiles["user1"@].user_id@ == "user1"@
    &&& profiles["user1"@].risk_level == RiskLevel::Low
    &&& profiles["user1"@].max_order_value.bits == TEN_THOUSAND_BITS
    &&& profiles["user1"@].max_daily_volume.bits == FIFTY_THOUSAND_BITS
    &&& profiles["user1"@].updated_at == t1
    &&& profiles["user2"@].user_id@ == "user2"@
    &&& profiles["user2"@].risk_level == RiskLevel::Medium
    &&& profiles["user2"@].max_order_value.bits == FIVE_THOUSAND_BITS
    &&& profiles["user2"@].max_daily_volume.bits == TWENTY_THOUSAND_BITS
    &&& profiles["user2"@].updated_at == t2
    &&& profiles["user3"@].user_id@ == "user3"@
    &&& profiles["user3"@].risk_level == RiskLevel::High
    &&& profiles["user3"@].max_order_value.bits == ONE_THOUSAND_BITS
    &&& profiles["user3"@].max_daily_volume.bits == FIVE_THOUSAND_BITS
    &&& profiles["user3"@].updated_at == t3
}

/// The risk profiles, each under the identifier of its user.
pub struct RiskService {
    profiles: Table<RiskEvaluation>,
}

impl View for RiskService {
    type V = Map<Seq<char>, RiskEvaluation>;

    closed spec fn view(&self) -> Map<Seq<char>, RiskEvaluation> {
        self.profiles@
    }
}

/// A profile with these fields.
fn profile(user_id: &str, risk_level: RiskLevel, max_order: u64, max_daily: u64, at: i64) -> (p:
    RiskEvaluation)
    ensures
        p.user_id@ == user_id@,
        p.risk_level == risk_level,
        p.max_order_value.bits == max_order,
        p.max_daily_volume.bits == max_daily,
        p.updated_at == at,
{
    RiskEvaluation {
        user_id: String::from_str(user_id),
        risk_level,
        max_order_value: Amount::from_bits(max_order),
        max_daily_volume: Amount::from_bits(max_daily),
        updated_at: at,
    }
}

impl RiskService {
    /// The service's invariant: each profile sits under its user.
    pub closed spec fn wf(&self) -> bool {
        self.profiles.wf()
    }

    /// The service with its three sample profiles (see
    /// [`sample_profiles`]), updated at the times `t1`, `t2` and `t3`.
    pub fn seeded(t1: i64, t2: i64, t3: i64) -> (s: Self)
        ensures
            s.wf(),
            sample_profiles(s@, t1, t2, t3),
    {
        let mut profiles: Table<RiskEvaluation> = Table::new();
        let p1 = profile("user1", RiskLevel::Low, TEN_THOUSAND_BITS, FIFTY_THOUSAND_BITS, t1);
        profiles.insert(p1);
        let p2 = profile("user2", RiskLevel::Medium, FIVE_THOUSAND_BITS, TWENTY_THOUSAND_BITS, t2);
        profiles.insert(p2);
        let p3 = profile("user3", RiskLevel::High, ONE_THOUSAND_BITS, FIVE_THOUSAND_BITS, t3);
        profiles.insert(p3);
        proof {
            reveal_strlit("user1");
            reveal_strlit("user2");
            reveal_strlit("user3");
            assert("user1"@ != "user2"@ && "user1"@ != "user3"@ && "user2"@ != "user3"@) by {
                assert("user1"@[4] != "user2"@[4]);
                assert("user1"@[4] != "user3"@[4]);
                assert("user2"@[4] != "user3"@[4]);
            }
            assert(profiles@.dom() =~= set!["user1"@, "user2"@, "user3"@]);
        }
        RiskService { profiles }
    }

    /// The service with its three sample profiles, each stamped with the
    /// time at which it was made; the internal error [`clock_unavailable`]
    /// when the clock cannot be read.
    pub fn new() -> (r: AppResult<Self>)
        ensures
            match r {
                Ok(s) => s.wf() && exists|t1: i64, t2: i64, t3: i64|
                    #[trigger] sample_profiles(s@, t1, t2, t3),
                Err(e) => e@ == clock_unavailable(),
            },
    {
        let t1 = match now_timestamp() {
            Some(t) => t,
            None => {
                return Err(AppError::no_clock());
            },
        };
        let t2 = match now_timestamp() {
            Some(t) => t,
            None => {
                return Err(AppError::no_clock());
            },
        };
        let t3 = match now_timestamp() {
            Some(t) => t,
            None => {
                return Err(AppError::no_clock());
            },
        };
        Ok(Self::seeded(t1, t2, t3))
    }

    /// The profile of `user_id`.
    pub fn get_user_risk_profile(&self, user_id: &str) -> (r: AppResult<RiskEvaluation>)
        requires
            self.wf(),
        ensures
            outcome(r) == get_profile_step(self@, user_id@),
    {
        let key = String::from_str(user_id);
        match self.profiles.get(&key) {
            Some(p) => Ok(p.duplicate()),
            None => Err(AppError::not_found("Risk profile not found for user: ", user_id)),
        }
    }

    /// The verdict on an order of value `order_value` by `user_id` (see
    /// [`evaluate_step`]).  The assessment itself never fails.
    pub fn evaluate_order(&self, user_id: &str, order_value: Amount) -> (r: AppResult<Verdict>)
        requires
            self.wf(),
        ensures
            r matches Ok(v) && v == evaluate_step(self@, user_id@, order_value),
    {
        let limit = Amount::from_bits(DEFAULT_MAX_ORDER_VALUE_BITS);
        let profile = match self.get_user_risk_profile(user_id) {
            Ok(p) => p,
            Err(_) => {
                let reason = if order_value.exceeds(&limit) {
                    Some(RiskRejection::ExceedsDefaultLimit)
                } else {
                    None
                };
                return Ok((order_value.at_most(&limit), reason, Some(RiskLevel::Medium)));
            },
        };
        if order_value.exceeds(&profile.max_order_value) {
            return Ok(
                (
                    false,
                    Some(
                        RiskRejection::ExceedsUserLimit {
                            order_value,
                            max_order_value: profile.max_order_value,
                        },
                    ),
                    Some(profile.risk_level),
                ),
            );
        }
        Ok((true, None, Some(profile.risk_level)))
    }
}

/// The default limit is a number, not a `NaN`.
pub proof fn lemma_default_limit_is_number()
    ensures
        !default_limit().is_nan(),
{
    assert(0x40b3_8800_0000_0000u64 & 0x7ff0_0000_0000_0000u64 != 0x7ff0_0000_0000_0000u64)
        by (bit_vector);
}

/// Every verdict names the risk level it was judged at.
pub proof fn law_verdict_names_level(
    profiles: Map<Seq<char>, RiskEvaluation>,
    user_id: Seq<char>,
    value: Amount,
)
    ensures
        evaluate_step(profiles, user_id, value).2 is Some,
{
}

/// For any value that is a number, an order is refused exactly when a
/// reason is given.
pub proof fn law_refused_exactly_with_reason(
    profiles: Map<Seq<char>, RiskEvaluation>,
    user_id: Seq<char>,
    value: Amount,
)
    requires
        !value.is_nan(),
    ensures
        evaluate_step(profiles, user_id, value).0 <==> evaluate_step(
            profiles,
            user_id,
            value,
        ).1 is None,
{
    lemma_default_limit_is_number();
}

/// Lowering the value of an approved order keeps it approved.
pub proof fn law_approval_is_monotone(
    profiles: Map<Seq<char>, RiskEvaluation>,
    user_id: Seq<char>,
    value: Amount,
    lower: Amount,
)
    requires
        evaluate_step(profiles, user_id, value).0,
        lower.at_most_spec(value),
    ensures
        evaluate_step(profiles, user_id, lower).0,
{
    lemma_default_limit_is_number();
}

/// A user without a profile is judged at the medium level against the
/// default limit.
pub proof fn law_unknown_user_gets_default(
    profiles: Map<Seq<char>, RiskEvaluation>,
    user_id: Seq<char>,
    value: Amount,
)
    requires
        !profiles.contains_key(user_id),
    ensures
        evaluate_step(profiles, user_id, value).0 == value.at_most_spec(default_limit()),
        evaluate_step(profiles, user_id, value).2 == Some(RiskLevel::Medium),
{
}

/// For a user with a profile, the profile's own limit alone decides: the
/// order is approved exactly when its value is not above the profile's
/// `max_order_value`; a refusal reports that value and that limit; the
/// verdict carries the profile's risk level.  The default limit plays no
/// part.
pub proof fn law_profile_limit_decides(
    profiles: Map<Seq<char>, RiskEvaluation>,
    user_id: Seq<char>,
    value: Amount,
)
    requires
        profiles.contains_key(user_id),
    ensures
        evaluate_step(profiles, user_id, value).0 <==> !value.greater_than(
            profiles[user_id].max_order_value,
        ),
        evaluate_step(profiles, user_id, value).0 ==> evaluate_step(profiles, user_id, value).1
            is None,
        !evaluate_step(profiles, user_id, value).0 ==> evaluate_step(profiles, user_id, value).1
            == Some(
            RiskRejection::ExceedsUserLimit {
                order_value: value,
                max_order_value: profiles[user_id].max_order_value,
            },
        ),
        evaluate_step(profiles, user_id, value).2 == Some(profiles[user_id].risk_level),
{
}

/// For a user without a profile, the order is judged at the medium level
/// against 5 000 (bit pattern `0x40b3_8800_0000_0000`): approved exactly
/// when the value is at most 5 000, and given the default-limit reason
/// exactly when it is above.
pub proof fn law_default_limit_decides(
    profiles: Map<Seq<char>, RiskEvaluation>,
    user_id: Seq<char>,
    value: Amount,
)
    requires
        !profiles.contains_key(user_id),
    ensures
        evaluate_step(profiles, user_id, value).0 <==> value.at_most_spec(
            Amount { bits: 0x40b3_8800_0000_0000 },
        ),
        evaluate_step(profiles, user_id, value).1 is Some <==> value.greater_than(
            Amount { bits: 0x40b3_8800_0000_0000 },
        ),
        evaluate_step(profiles, user_id, value).1 is Some ==> evaluate_step(
            profiles,
            user_id,
            value,
        ).1 == Some(RiskRejection::ExceedsDefaultLimit),
        evaluate_step(profiles, user_id, value).2 == Some(RiskLevel::Medium),
{
}

/// Looking a profile up finds exactly the stored profiles, as stored; a
/// missing one is answered `NotFound` with "Risk profile not found for
/// user: " and the user's identifier.
pub proof fn law_profile_lookup(profiles: Map<Seq<char>, RiskEvaluation>, user_id: Seq<char>)
    ensures
        profiles.contains_key(user_id) ==> get_profile_step(profiles, user_id) == Ok::<
            RiskEvaluation,
            ErrorView,
        >(profiles[user_id]),
        !profiles.contains_key(user_id) ==> get_profile_step(profiles, user_id) == Err::<
            RiskEvaluation,
            ErrorView,
        >(ErrorView::NotFound("Risk profile not found for user: "@ + user_id)),
{
}

} // verus!
