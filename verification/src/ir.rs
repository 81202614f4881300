//! Investor relations: investors and share totals per stock class.
use vstd::prelude::*;
use crate::common::{new_id, now_millis, CivilDate};

verus! {

#[derive(Debug, Clone, Copy, PartialEq, Eq, Structural)]
pub enum InvestorType {
    Individual,
    Institutional,
    VentureCapital,
    PrivateEquity,
    Employee,
}

/// An investor. Instants are milliseconds since the Unix epoch.
#[derive(Debug, Clone)]
pub struct Investor {
    pub id: u128,
    pub name: String,
    pub investor_type: InvestorType,
    pub tax_id: Option<String>,
    pub email: String,
    pub created_at_ms: i64,
}

impl Investor {
    /// A new investor without a tax identifier, created now.
    pub fn new(name: String, investor_type: InvestorType, email: String) -> (r: Self)
        ensures
            r.name == name,
            r.investor_type == investor_type,
            r.tax_id is None,
            r.email == email,
    {
        Investor { id: new_id(), name, investor_type, tax_id: None, email, created_at_ms: now_millis() }
    }
}

/// A holding of shares of one stock class (its cost basis travels beside it).
#[derive(Debug, Clone, Copy, PartialEq, Eq, Structural)]
pub struct Shareholding {
    pub id: u128,
    pub investor_id: u128,
    pub stock_class_id: u128,
    pub quantity: u64,
    pub acquired_date: CivilDate,
}

pub struct InvestorRelationsService {}

/// Shares of stock class `class_id` over all holdings.
pub open spec fn total_shares(holdings: Seq<Shareholding>, class_id: u128) -> int
    decreases holdings.len(),
{
    if holdings.len() == 0 {
        0
    } else {
        total_shares(holdings.drop_last(), class_id) + if holdings.last().stock_class_id == class_id {
            holdings.last().quantity as int
        } else {
            0
        }
    }
}

proof fn lemma_total_monotone(h: Seq<Shareholding>, class_id: u128, k: int)
    requires
        0 <= k <= h.len(),
    ensures
        0 <= total_shares(h.take(k), class_id) <= total_shares(h, class_id),
    decreases h.len(),
{
    if k < h.len() {
        lemma_total_monotone(h.drop_last(), class_id, k);
        assert(h.drop_last().take(k) =~= h.take(k));
    } else {
        assert(h.take(k) =~= h);
        lemma_total_nonneg(h, class_id);
    }
}

proof fn lemma_total_nonneg(h: Seq<Shareholding>, class_id: u128)
    ensures
        0 <= total_shares(h, class_id),
    decreases h.len(),
{
    if h.len() > 0 {
        lemma_total_nonneg(h.drop_last(), class_id);
    }
}

impl InvestorRelationsService {
    /// The one value of the service, which holds no state.
    pub closed spec fn the_service() -> Self {
        InvestorRelationsService {}
    }
}

/// `InvestorRelationsService` holds no state: every value of it is the one that `new`
/// gives, so any two of them answer every call alike.
pub proof fn law_investor_relations_service_is_stateless(a: InvestorRelationsService)
    ensures
        a == InvestorRelationsService::the_service(),
{
}

impl InvestorRelationsService {
    pub fn new() -> (s: Self)
        ensures
            s == InvestorRelationsService::the_service(),
    {
        InvestorRelationsService {}
    }

    /// Shares held of stock class `stock_class_id`.
    pub fn calculate_total_shares(&self, holdings: &[Shareholding], stock_class_id: u128) -> (r: u64)
        requires
            total_shares(holdings@, stock_class_id) <= u64::MAX,
        ensures
            r == total_shares(holdings@, stock_class_id),
    {
        let ghost h = holdings@;
        let mut total: u64 = 0;
        let mut i: usize = 0;
        while i < holdings.len()
            invariant
                i <= holdings.len(),
                h == holdings@,
                total_shares(h, stock_class_id) <= u64::MAX,
                total == total_shares(h.take(i as int), stock_class_id),
            decreases holdings.len() - i,
        {
            assert(h.take(i + 1).drop_last() =~= h.take(i as int));
            proof {
                lemma_total_monotone(h, stock_class_id, i + 1);
            }
            if holdings[i].stock_class_id == stock_class_id {
                total = total + holdings[i].quantity;
            }
            i = i + 1;
        }
        assert(h.take(holdings.len() as int) =~= h);
        total
    }
}

} // verus!
