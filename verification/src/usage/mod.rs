//! What an agent reports of its own usage, and what is shown of it.

use vstd::prelude::*;
use vstd::string::*;

use crate::text::{decimal, decimal_text, opt_view};

pub mod providers;

verus! {

/// The usage of a session as far as it is known.
#[derive(Debug, PartialEq, Eq)]
pub struct UsageSnapshot {
    pub context: Option<UsageContext>,
    pub cost: Option<UsageCost>,
}

/// Tokens in the context window, and its size.
#[derive(Debug, Clone, Copy, PartialEq, Eq, Structural)]
pub struct UsageContext {
    pub used: u64,
    pub size: u64,
}

/// Which parts of a snapshot date from before the last restart of the agent.
#[derive(Debug, Clone, Copy, PartialEq, Eq, Structural)]
pub struct UsageStaleness {
    pub context: bool,
    pub cost: bool,
}

/// The cost of a session.
#[derive(Debug, PartialEq, Eq)]
pub struct UsageCost {
    pub amount_decimal_text: String,
    pub currency: String,
}

impl Clone for UsageCost {
    fn clone(&self) -> (r: Self)
        ensures
            r == *self,
    {
        UsageCost {
            amount_decimal_text: self.amount_decimal_text.clone(),
            currency: self.currency.clone(),
        }
    }
}

impl Clone for UsageSnapshot {
    fn clone(&self) -> (r: Self)
        ensures
            r == *self,
    {
        UsageSnapshot {
            context: self.context,
            cost: match &self.cost {
                Some(cost) => Some(cost.clone()),
                None => None,
            },
        }
    }
}

impl Default for UsageStaleness {
    fn default() -> (r: Self)
        ensures
            r == (UsageStaleness { context: false, cost: false }),
    {
        UsageStaleness { context: false, cost: false }
    }
}

impl UsageStaleness {
    /// The staleness after a report: what was reported is fresh.
    pub open spec fn reported(self, snapshot: UsageSnapshot) -> UsageStaleness {
        UsageStaleness {
            context: self.context && snapshot.context is None,
            cost: self.cost && snapshot.cost is None,
        }
    }

    /// The staleness once what a snapshot holds has become old.
    pub open spec fn aged(self, snapshot: UsageSnapshot) -> UsageStaleness {
        UsageStaleness {
            context: self.context || snapshot.context is Some,
            cost: self.cost || snapshot.cost is Some,
        }
    }

    /// Takes note that `snapshot` was reported just now.
    pub fn mark_reported(&mut self, snapshot: &UsageSnapshot)
        ensures
            *final(self) == old(self).reported(*snapshot),
    {
        if snapshot.context.is_some() {
            self.context = false;
        }
        if snapshot.cost.is_some() {
            self.cost = false;
        }
    }

    /// Takes note that what `snapshot` holds is no longer current.
    pub fn mark_present_stale(&mut self, snapshot: &UsageSnapshot)
        ensures
            *final(self) == old(self).aged(*snapshot),
    {
        if snapshot.context.is_some() {
            self.context = true;
        }
        if snapshot.cost.is_some() {
            self.cost = true;
        }
    }
}

impl UsageSnapshot {
    /// A snapshot with the parts that `incoming` has in place of its own.
    pub open spec fn merged(self, incoming: UsageSnapshot) -> UsageSnapshot {
        UsageSnapshot {
            context: if incoming.context is Some {
                incoming.context
            } else {
                self.context
            },
            cost: if incoming.cost is Some {
                incoming.cost
            } else {
                self.cost
            },
        }
    }

    /// Takes over the parts that `incoming` has.
    pub fn merge(&mut self, incoming: Self)
        ensures
            *final(self) == old(self).merged(incoming),
    {
        if incoming.context.is_some() {
            self.context = incoming.context;
        }
        if incoming.cost.is_some() {
            self.cost = incoming.cost;
        }
    }
}

/// Merging a snapshot a second time changes nothing.
pub proof fn law_merge_is_idempotent(a: UsageSnapshot, b: UsageSnapshot)
    ensures
        a.merged(b).merged(b) == a.merged(b),
{
}

/// It makes no difference how a run of reports is grouped.
pub proof fn law_merge_is_associative(a: UsageSnapshot, b: UsageSnapshot, c: UsageSnapshot)
    ensures
        a.merged(b).merged(c) == a.merged(b.merged(c)),
{
}

/// A report without cost leaves the cost, one without context the context, and
/// nothing that was known is ever lost.
pub proof fn law_merge_keeps_what_is_not_reported(a: UsageSnapshot, b: UsageSnapshot)
    ensures
        b.context is None ==> a.merged(b).context == a.context,
        b.cost is None ==> a.merged(b).cost == a.cost,
        a.context is Some ==> a.merged(b).context is Some,
        a.cost is Some ==> a.merged(b).cost is Some,
{
}

/// What was just reported is not stale; what was not reported is as stale as
/// it was.
pub proof fn law_reported_parts_are_fresh(staleness: UsageStaleness, snapshot: UsageSnapshot)
    ensures
        snapshot.context is Some ==> !staleness.reported(snapshot).context,
        snapshot.cost is Some ==> !staleness.reported(snapshot).cost,
        snapshot.context is None ==> staleness.reported(snapshot).context == staleness.context,
        snapshot.cost is None ==> staleness.reported(snapshot).cost == staleness.cost,
        staleness.aged(snapshot).reported(snapshot) == staleness.reported(snapshot),
        staleness.reported(snapshot).aged(snapshot) == staleness.aged(snapshot),
{
}

// ---------------------------------------------------------------------------
// Projection
// ---------------------------------------------------------------------------

/// What is shown of a session's usage.
#[derive(Debug, Clone, PartialEq, Eq)]
pub struct UsageProjection {
    pub items: Vec<UsageProjectionItem>,
}

/// One figure that is shown.
#[derive(Debug, Clone, PartialEq, Eq)]
pub struct UsageProjectionItem {
    pub metric_id: &'static str,
    pub value_decimal_text: String,
    pub limit_decimal_text: Option<String>,
    pub unit_id: String,
    pub scope: &'static str,
    pub source: &'static str,
    pub stale: bool,
}

/// One figure, mathematically.
#[verifier::ext_equal]
pub struct UsageItemView {
    pub metric_id: Seq<char>,
    pub value: Seq<char>,
    pub limit: Option<Seq<char>>,
    pub unit_id: Seq<char>,
    pub scope: Seq<char>,
    pub source: Seq<char>,
    pub stale: bool,
}

impl View for UsageProjectionItem {
    type V = UsageItemView;

    open spec fn view(&self) -> UsageItemView {
        UsageItemView {
            metric_id: self.metric_id@,
            value: self.value_decimal_text@,
            limit: opt_view(self.limit_decimal_text),
            unit_id: self.unit_id@,
            scope: self.scope@,
            source: self.source@,
            stale: self.stale,
        }
    }
}

impl View for UsageProjection {
    type V = Seq<UsageItemView>;

    open spec fn view(&self) -> Seq<UsageItemView> {
        self.items@.map_values(|i: UsageProjectionItem| i@)
    }
}

/// The figure of the context window.
pub open spec fn context_item(context: UsageContext, stale: bool) -> UsageItemView {
    UsageItemView {
        metric_id: "acp.context.window"@,
        value: decimal(context.used as nat),
        limit: Some(decimal(context.size as nat)),
        unit_id: "token"@,
        scope: "session"@,
        source: "acp_standard"@,
        stale,
    }
}

/// The figure of the cost.
pub open spec fn cost_item(cost: UsageCost, stale: bool) -> UsageItemView {
    UsageItemView {
        metric_id: "acp.billing.cost"@,
        value: cost.amount_decimal_text@,
        limit: None,
        unit_id: cost.currency@,
        scope: "session"@,
        source: "acp_standard"@,
        stale,
    }
}

/// The figures of a snapshot: the context window, then the cost, as far as
/// they are known.
pub open spec fn projected(snapshot: UsageSnapshot, staleness: UsageStaleness) -> Seq<UsageItemView> {
    let context = match snapshot.context {
        Some(c) => seq![context_item(c, staleness.context)],
        None => Seq::empty(),
    };
    let cost = match snapshot.cost {
        Some(c) => seq![cost_item(c, staleness.cost)],
        None => Seq::empty(),
    };
    context + cost
}

impl UsageProjection {
    /// What is shown of a snapshot whose parts may be stale.
    pub fn with_staleness(snapshot: &UsageSnapshot, staleness: UsageStaleness) -> (r: Self)
        ensures
            r@ == projected(*snapshot, staleness),
    {
        let mut items: Vec<UsageProjectionItem> = Vec::new();
        let ghost mut shown = Seq::<UsageItemView>::empty();
        if let Some(context) = &snapshot.context {
            items.push(
                UsageProjectionItem {
                    metric_id: "acp.context.window",
                    value_decimal_text: decimal_text(context.used),
                    limit_decimal_text: Some(decimal_text(context.size)),
                    unit_id: "token".to_owned(),
                    scope: "session",
                    source: "acp_standard",
                    stale: staleness.context,
                },
            );
            proof {
                shown = seq![context_item(*context, staleness.context)];
                assert(items@[0]@ == context_item(*context, staleness.context));
            }
        }
        proof {
            assert(items@.map_values(|i: UsageProjectionItem| i@) =~= shown);
        }
        if let Some(cost) = &snapshot.cost {
            let ghost before = items@;
            items.push(
                UsageProjectionItem {
                    metric_id: "acp.billing.cost",
                    value_decimal_text: cost.amount_decimal_text.clone(),
                    limit_decimal_text: None,
                    unit_id: cost.currency.clone(),
                    scope: "session",
                    source: "acp_standard",
                    stale: staleness.cost,
                },
            );
            proof {
                assert(items@.last()@ == cost_item(*cost, staleness.cost));
                assert(items@.map_values(|i: UsageProjectionItem| i@) =~= shown + seq![
                    cost_item(*cost, staleness.cost),
                ]);
            }
        }
        proof {
            assert(items@.map_values(|i: UsageProjectionItem| i@) =~= projected(*snapshot, staleness));
        }
        UsageProjection { items }
    }

    /// What is shown of a snapshot that is current.
    pub fn from(snapshot: &UsageSnapshot) -> (r: Self)
        ensures
            r@ == projected(*snapshot, UsageStaleness { context: false, cost: false }),
    {
        Self::with_staleness(snapshot, UsageStaleness { context: false, cost: false })
    }
}

/// Nothing but the context window and the cost is ever shown, each at most
/// once, and each exactly when it is known.
pub proof fn law_only_context_and_cost_are_shown(snapshot: UsageSnapshot, staleness: UsageStaleness)
    ensures
        projected(snapshot, staleness).len() <= 2,
        forall|i: int|
            0 <= i < projected(snapshot, staleness).len() ==> {
                ||| (#[trigger] projected(snapshot, staleness)[i]).metric_id == "acp.context.window"@
                ||| projected(snapshot, staleness)[i].metric_id == "acp.billing.cost"@
            },
        projected(snapshot, staleness).len() == (if snapshot.context is Some {
            1int
        } else {
            0int
        }) + (if snapshot.cost is Some {
            1int
        } else {
            0int
        }),
{
}

// ---------------------------------------------------------------------------
// Reports of the protocol
// ---------------------------------------------------------------------------

/// A cost as the protocol reports it: a 64-bit float, by its bits and by its
/// shortest decimal text, and the unit it is in.
pub struct ReportedCost {
    pub amount_bits: u64,
    pub amount_text: String,
    pub currency: String,
}

/// A usage report of the protocol.
pub struct UsageUpdate {
    pub used: u64,
    pub size: u64,
    pub cost: Option<ReportedCost>,
}

/// The sign bit of a 64-bit float.
pub open spec fn float_is_negative(bits: u64) -> bool {
    bits as int / 0x8000_0000_0000_0000 == 1
}

/// The biased exponent of a 64-bit float.
pub open spec fn float_exponent(bits: u64) -> int {
    (bits as int / 0x10_0000_0000_0000) % 2048
}

/// Whether a 64-bit float is neither infinite nor not a number.
pub open spec fn float_is_finite(bits: u64) -> bool {
    float_exponent(bits) != 2047
}

/// The snapshot of a report: the context as it is, and the cost where it is a
/// finite number without a minus sign.
pub open spec fn normalized(update: UsageUpdate) -> UsageSnapshot {
    UsageSnapshot {
        context: Some(UsageContext { used: update.used, size: update.size }),
        cost: match update.cost {
            Some(cost) if float_is_finite(cost.amount_bits) && !float_is_negative(
                cost.amount_bits,
            ) => Some(
                UsageCost { amount_decimal_text: cost.amount_text, currency: cost.currency },
            ),
            _ => None,
        },
    }
}

proof fn lemma_usable_cost(bits: u64)
    ensures
        (float_is_finite(bits) && !float_is_negative(bits)) == (bits < 0x7ff0_0000_0000_0000u64),
{
    let b = bits as int;
    assert(b == 0x10_0000_0000_0000 * (b / 0x10_0000_0000_0000) + b % 0x10_0000_0000_0000);
    assert(0 <= b / 0x10_0000_0000_0000 < 4096);
    let e = b / 0x10_0000_0000_0000;
    if e < 2048 {
        assert(e % 2048 == e);
    }
}

/// Turns a report of the protocol into a snapshot.
pub fn normalize_standard_usage(update: &UsageUpdate) -> (r: UsageSnapshot)
    ensures
        r == normalized(*update),
{
    let cost = match &update.cost {
        Some(cost) => {
            proof {
                lemma_usable_cost(cost.amount_bits);
            }
            if cost.amount_bits < 0x7ff0_0000_0000_0000u64 {
                Some(
                    UsageCost {
                        amount_decimal_text: cost.amount_text.clone(),
                        currency: cost.currency.clone(),
                    },
                )
            } else {
                None
            }
        },
        None => None,
    };
    UsageSnapshot { context: Some(UsageContext { used: update.used, size: update.size }), cost }
}

/// A cost that cannot be used is left out, and the context is kept all the
/// same, whatever gauges the provider reports.
pub proof fn law_bad_cost_keeps_context(update: UsageUpdate)
    ensures
        normalized(update).context == Some(UsageContext { used: update.used, size: update.size }),
        update.cost matches Some(cost) ==> (!float_is_finite(cost.amount_bits) || float_is_negative(
            cost.amount_bits,
        )) ==> normalized(update).cost is None,
{
}

// ---------------------------------------------------------------------------
// Laws
// ---------------------------------------------------------------------------

/// What is shown of the context is how much of it is used out of how much there is;
/// of the cost, what it is and in which currency.
pub proof fn law_usage_is_shown_as_it_is(
    context: UsageContext,
    cost: UsageCost,
    staleness: UsageStaleness,
)
    ensures
        ({
            let both = projected(
                UsageSnapshot { context: Some(context), cost: Some(cost) },
                staleness,
            );
            &&& both.len() == 2
            &&& both[0].metric_id == "acp.context.window"@
            &&& both[0].value == decimal(context.used as nat)
            &&& both[0].limit == Some(decimal(context.size as nat))
            &&& both[0].unit_id == "token"@
            &&& both[0].stale == staleness.context
            &&& both[1].metric_id == "acp.billing.cost"@
            &&& both[1].value == cost.amount_decimal_text@
            &&& both[1].limit is None
            &&& both[1].unit_id == cost.currency@
            &&& both[1].stale == staleness.cost
            &&& both[0].scope == "session"@ && both[1].scope == "session"@
            &&& both[0].source == "acp_standard"@ && both[1].source == "acp_standard"@
        }),
{
}

/// What was reported before a turn grows stale with it, and what was not reported
/// does not.
pub proof fn law_old_reports_grow_stale(staleness: UsageStaleness, snapshot: UsageSnapshot)
    ensures
        snapshot.context is Some ==> staleness.aged(snapshot).context,
        snapshot.cost is Some ==> staleness.aged(snapshot).cost,
        snapshot.context is None ==> staleness.aged(snapshot).context == staleness.context,
        snapshot.cost is None ==> staleness.aged(snapshot).cost == staleness.cost,
        staleness.aged(snapshot).reported(snapshot).context == (snapshot.context is None
            && staleness.context),
        staleness.aged(snapshot).reported(snapshot).cost == (snapshot.cost is None
            && staleness.cost),
{
}

/// An update is taken over as it was sent: its counts always, its cost where that is
/// an amount.
pub proof fn law_an_update_is_taken_over(update: UsageUpdate)
    ensures
        normalized(update).context == Some(UsageContext { used: update.used, size: update.size }),
        update.cost is None ==> normalized(update).cost is None,
        update.cost is Some && float_is_finite(update.cost->0.amount_bits) && !float_is_negative(
            update.cost->0.amount_bits,
        ) ==> normalized(update).cost == Some(
            UsageCost {
                amount_decimal_text: update.cost->0.amount_text,
                currency: update.cost->0.currency,
            },
        ),
        update.cost is Some && float_is_negative(update.cost->0.amount_bits) ==> normalized(
            update,
        ).cost is None,
{
}

} // verus!
