use vstd::prelude::*;

use super::event::UsageCreated;
use super::utils::{is_uuid_v4_text, new_id};

pub mod cluster;
pub mod command;

verus! {

// Times are nanoseconds since the Unix epoch, UTC.

/// One usage record of a resource, as the usage cache keeps it.
#[derive(Debug, Clone)]
pub struct Usage {
    pub id: String,
    pub event_id: String,
    pub resource_id: String,
    pub cluster_id: String,
    pub units: i64,
    pub tier: String,
    pub interval: u64,
    pub created_at: i128,
}

/// `u` records the `i`-th unit of the usage event `e`.
pub open spec fn spec_usage_of(u: Usage, e: UsageCreated, i: int) -> bool {
    &&& is_uuid_v4_text(u.id@)
    &&& u.event_id == e.id
    &&& u.resource_id == e.usages[i].resource_id
    &&& u.cluster_id == e.cluster_id
    &&& u.units == e.usages[i].units
    &&& u.tier == e.usages[i].tier
    &&& u.interval == e.usages[i].interval
    &&& u.created_at == e.created_at
}

/// The usage records of a usage event: one per unit, in order, each with a fresh id.
pub fn usages_from_event(value: &UsageCreated) -> (r: Vec<Usage>)
    ensures
        r.len() == value.usages.len(),
        forall|i: int| 0 <= i < r.len() ==> spec_usage_of(#[trigger] r[i], *value, i),
        forall|i: int|
            0 <= i < r.len() ==> {
                &&& (#[trigger] r[i]).cluster_id == value.cluster_id
                &&& r[i].event_id == value.id
                &&& r[i].resource_id == value.usages[i].resource_id
                &&& r[i].units == value.usages[i].units
                &&& r[i].tier == value.usages[i].tier
                &&& r[i].interval == value.usages[i].interval
                &&& r[i].created_at == value.created_at
            },
{
    let mut r: Vec<Usage> = Vec::new();
    let n = value.usages.len();
    let mut i: usize = 0;
    while i < n
        invariant
            n == value.usages.len(),
            i <= n,
            r.len() == i,
            forall|k: int| 0 <= k < i ==> spec_usage_of(#[trigger] r[k], *value, k),
            forall|k: int|
                0 <= k < i ==> {
                    &&& (#[trigger] r[k]).cluster_id == value.cluster_id
                    &&& r[k].event_id == value.id
                    &&& r[k].resource_id == value.usages[k].resource_id
                    &&& r[k].units == value.usages[k].units
                    &&& r[k].tier == value.usages[k].tier
                    &&& r[k].interval == value.usages[k].interval
                    &&& r[k].created_at == value.created_at
                },
        decreases n - i,
    {
        let u = &value.usages[i];
        r.push(Usage {
            id: new_id(),
            event_id: value.id.clone(),
            resource_id: u.resource_id.clone(),
            cluster_id: value.cluster_id.clone(),
            units: u.units,
            tier: u.tier.clone(),
            interval: u.interval,
            created_at: value.created_at,
        });
        i = i + 1;
    }
    r
}

/// Every usage record of an event belongs to that event's cluster and to that event, and bills
/// the resource, units, tier and interval of the unit it records, at the event's time.
pub proof fn lemma_usage_records_follow_event(u: Usage, e: UsageCreated, i: int)
    requires
        0 <= i < e.usages.len(),
        spec_usage_of(u, e, i),
    ensures
        u.cluster_id == e.cluster_id,
        u.event_id == e.id,
        u.resource_id == e.usages[i].resource_id,
        u.units == e.usages[i].units,
        u.tier == e.usages[i].tier,
        u.interval == e.usages[i].interval,
        u.created_at == e.created_at,
{
}

/// The usage collected for one project in one round.
#[derive(Debug, Clone)]
pub struct UsageMetric {
    pub project_id: String,
    pub project_namespace: String,
    pub resources: Vec<UsageUnitMetric>,
}

/// Units of one resource at one tier over an interval of seconds.
#[derive(Debug, Clone)]
pub struct UsageUnitMetric {
    pub resource_id: String,
    pub resource_name: String,
    pub units: i64,
    pub tier: String,
    pub interval: u64,
}

/// A resource whose usage is collected.
#[derive(Debug, Clone)]
pub struct UsageResource {
    pub project_id: String,
    pub project_namespace: String,
    pub resource_id: String,
    pub resource_name: String,
    pub resource_spec: String,
}

/// Units that the metrics report for a resource at one tier over an interval of seconds.
#[derive(Debug, Clone)]
pub struct UsageResourceUnit {
    pub units: i64,
    pub tier: String,
    pub interval: u64,
}

} // verus!
