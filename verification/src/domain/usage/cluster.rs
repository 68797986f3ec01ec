use vstd::prelude::*;

use crate::domain::error::{is_unexpected, Error};
use crate::domain::event::{UsageCreated, UsageUnitCreated};
use crate::domain::json::{json_member, spec_json_member, spec_json_parses, JsonMember};
use crate::domain::utils::{is_uuid_v4_text, new_id, owned, str_eq};

use super::{UsageMetric, UsageResource, UsageResourceUnit, UsageUnitMetric};

verus! {

/// The throughput tier of a resource, read from member `throughputTier` of its JSON spec:
/// `None` when the spec has no such member (the resource is not metered). A spec that is not
/// JSON is `Unexpected("fail to deserialize spec")`, a tier that is not a string
/// `Unexpected("throughputTier is not a string")`; both stop the collection round.
pub fn resource_tier(r: &UsageResource) -> (t: Result<Option<String>, Error>)
    ensures
        !spec_json_parses(r.resource_spec@) ==> (t matches Err(e) && is_unexpected(e, "fail to deserialize spec"@)),
        spec_json_parses(r.resource_spec@) ==> match spec_json_member(r.resource_spec@, "throughputTier"@) {
            None => t matches Ok(None),
            Some(None) => t matches Err(e) && is_unexpected(e, "throughputTier is not a string"@),
            Some(Some(s)) => t matches Ok(Some(x)) && x@ == s,
        },
{
    match json_member(r.resource_spec.as_str(), "throughputTier") {
        JsonMember::Invalid => Err(Error::Unexpected(owned("fail to deserialize spec"))),
        JsonMember::Absent => Ok(None),
        JsonMember::NotString => Err(Error::Unexpected(owned("throughputTier is not a string"))),
        JsonMember::Text(s) => Ok(Some(s)),
    }
}

/// Whether some reported unit is at tier `tier`.
pub open spec fn spec_has_tier(usages: Seq<UsageResourceUnit>, tier: Seq<char>) -> bool {
    exists|i: int| 0 <= i < usages.len() && (#[trigger] usages[i]).tier@ == tier
}

/// A reported unit is kept when it is at the resource's tier or counts some units.
pub open spec fn spec_kept(u: UsageResourceUnit, tier: Seq<char>) -> bool {
    u.tier@ == tier || u.units != 0
}

/// `m` is the metric of the reported unit `u` for resource `r`.
pub open spec fn spec_unit_of(m: UsageUnitMetric, r: UsageResource, u: UsageResourceUnit) -> bool {
    &&& m.resource_id == r.resource_id
    &&& m.resource_name == r.resource_name
    &&& m.units == u.units
    &&& m.interval == u.interval
    &&& m.tier == u.tier
}

/// `m` is the zero unit at `tier` over `interval` for resource `r`.
pub open spec fn spec_zero_unit(m: UsageUnitMetric, r: UsageResource, tier: Seq<char>, interval: u64) -> bool {
    &&& m.resource_id == r.resource_id
    &&& m.resource_name == r.resource_name
    &&& m.units == 0
    &&& m.interval == interval
    &&& m.tier@ == tier
}

/// The reported units that a round keeps, in order.
pub open spec fn spec_kept_units(usages: Seq<UsageResourceUnit>, tier: Seq<char>) -> Seq<UsageResourceUnit> {
    usages.filter(|u: UsageResourceUnit| spec_kept(u, tier))
}

/// `out` are the units that one round records for resource `r` at its tier `tier` from the
/// reported `usages`: a zero unit over the whole round (`interval` seconds) when the metrics
/// report nothing at that tier, then every reported unit that is at that tier or counts some
/// units, in the order reported.
pub open spec fn spec_resource_units(
    out: Seq<UsageUnitMetric>,
    r: UsageResource,
    tier: Seq<char>,
    usages: Seq<UsageResourceUnit>,
    interval: u64,
) -> bool {
    let z: int = if spec_has_tier(usages, tier) { 0 } else { 1 };
    let kept = spec_kept_units(usages, tier);
    &&& out.len() == z + kept.len()
    &&& z == 1 ==> spec_zero_unit(out[0], r, tier, interval)
    &&& forall|i: int| z <= i < out.len() ==> spec_unit_of(#[trigger] out[i], r, kept[i - z])
}

/// Every unit recorded for a resource, the zero unit or a reported one, bills that resource: its
/// id and its name.
pub proof fn lemma_units_bill_their_resource(
    out: Seq<UsageUnitMetric>,
    r: UsageResource,
    tier: Seq<char>,
    usages: Seq<UsageResourceUnit>,
    interval: u64,
)
    requires
        spec_resource_units(out, r, tier, usages, interval),
    ensures
        forall|i: int|
            0 <= i < out.len() ==> (#[trigger] out[i]).resource_id == r.resource_id
                && out[i].resource_name == r.resource_name,
{
    let z: int = if spec_has_tier(usages, tier) { 0 } else { 1 };
    assert forall|i: int| 0 <= i < out.len() implies (#[trigger] out[i]).resource_id == r.resource_id
        && out[i].resource_name == r.resource_name by {
        if i < z {
            assert(i == 0);
        } else {
            assert(spec_unit_of(out[i], r, spec_kept_units(usages, tier)[i - z]));
        }
    }
}

/// The units that one round records for resource `r` at its tier `tier` (see
/// `spec_resource_units`); there is always at least one.
pub fn resource_units(
    r: &UsageResource,
    tier: &str,
    usages: &Vec<UsageResourceUnit>,
    interval: u64,
) -> (out: Vec<UsageUnitMetric>)
    ensures
        spec_resource_units(out@, *r, tier@, usages@, interval),
        out.len() > 0,
        forall|i: int|
            0 <= i < out.len() ==> (#[trigger] out[i]).resource_id == r.resource_id
                && out[i].resource_name == r.resource_name,
{
    let n = usages.len();
    let mut found = false;
    let mut i: usize = 0;
    while i < n
        invariant
            n == usages.len(),
            i <= n,
            found <==> exists|k: int| 0 <= k < i && (#[trigger] usages@[k]).tier@ == tier@,
        decreases n - i,
    {
        if str_eq(usages[i].tier.as_str(), tier) {
            found = true;
        }
        i = i + 1;
    }
    let mut out: Vec<UsageUnitMetric> = Vec::new();
    if !found {
        out.push(UsageUnitMetric {
            resource_id: r.resource_id.clone(),
            resource_name: r.resource_name.clone(),
            units: 0,
            interval,
            tier: owned(tier),
        });
    }
    let ghost z: int = if found { 0 } else { 1 };
    let ghost pred = |u: UsageResourceUnit| spec_kept(u, tier@);
    let mut j: usize = 0;
    proof {
        reveal_with_fuel(Seq::filter, 1);
        assert(usages@.take(0) =~= Seq::<UsageResourceUnit>::empty());
    }
    while j < n
        invariant
            n == usages.len(),
            j <= n,
            z == if found { 0int } else { 1int },
            pred == |u: UsageResourceUnit| spec_kept(u, tier@),
            out.len() == z + usages@.take(j as int).filter(pred).len(),
            z == 1 ==> spec_zero_unit(out[0], *r, tier@, interval),
            forall|k: int| z <= k < out.len() ==> spec_unit_of(
                #[trigger] out[k],
                *r,
                usages@.take(j as int).filter(pred)[k - z],
            ),
        decreases n - j,
    {
        let u = &usages[j];
        proof {
            assert(usages@.take(j + 1).drop_last() =~= usages@.take(j as int));
            assert(usages@.take(j + 1).last() == usages@[j as int]);
            reveal_with_fuel(Seq::filter, 1);
        }
        let keep = str_eq(u.tier.as_str(), tier) || u.units != 0;
        if keep {
            out.push(UsageUnitMetric {
                resource_id: r.resource_id.clone(),
                resource_name: r.resource_name.clone(),
                units: u.units,
                interval: u.interval,
                tier: u.tier.clone(),
            });
        }
        j = j + 1;
    }
    proof {
        assert(usages@.take(n as int) =~= usages@);
        if found {
            let k = choose|k: int| 0 <= k < n && (#[trigger] usages@[k]).tier@ == tier@;
            usages@.lemma_filter_contains(pred, k);
        }
        lemma_units_bill_their_resource(out@, *r, tier@, usages@, interval);
    }
    out
}

/// The metrics of a round, one per project, never two for the same project.
pub open spec fn spec_projects_distinct(ms: Seq<UsageMetric>) -> bool {
    forall|i: int, j: int|
        0 <= i < ms.len() && 0 <= j < ms.len() && i != j ==> (#[trigger] ms[i]).project_id@
            != (#[trigger] ms[j]).project_id@
}

/// Adds the units of resource `r` to the round's metrics: appended to the metric of its project
/// when there is one (which keeps its namespace), else recorded as a new metric at the end.
/// No units leave the metrics unchanged.
pub fn add_units(metrics: &mut Vec<UsageMetric>, r: &UsageResource, units: Vec<UsageUnitMetric>)
    requires
        spec_projects_distinct(old(metrics)@),
    ensures
        spec_projects_distinct(final(metrics)@),
        units.len() == 0 ==> final(metrics)@ == old(metrics)@,
        units.len() > 0 ==> match spec_metric_index(old(metrics)@, r.project_id@) {
            Some(j) => final(metrics)@.len() == old(metrics)@.len()
                && (forall|k: int| 0 <= k < old(metrics)@.len() && k != j ==> final(metrics)@[k] == old(metrics)@[k])
                && final(metrics)@[j].project_id == old(metrics)@[j].project_id
                && final(metrics)@[j].project_namespace == old(metrics)@[j].project_namespace
                && final(metrics)@[j].resources@ == old(metrics)@[j].resources@ + units@,
            None => final(metrics)@.len() == old(metrics)@.len() + 1
                && (forall|k: int| 0 <= k < old(metrics)@.len() ==> final(metrics)@[k] == old(metrics)@[k])
                && final(metrics)@.last().project_id == r.project_id
                && final(metrics)@.last().project_namespace == r.project_namespace
                && final(metrics)@.last().resources@ == units@,
        },
{
    if units.len() == 0 {
        return;
    }
    let n = metrics.len();
    let mut i: usize = 0;
    while i < n
        invariant
            n == metrics.len(),
            i <= n,
            metrics@ == old(metrics)@,
            spec_projects_distinct(old(metrics)@),
            units.len() > 0,
            forall|k: int| 0 <= k < i ==> (#[trigger] metrics@[k]).project_id@ != r.project_id@,
        decreases n - i,
    {
        if str_eq(metrics[i].project_id.as_str(), r.project_id.as_str()) {
            proof {
                lemma_metric_index_found(metrics@, r.project_id@, i as int);
            }
            let mut m = metrics.remove(i);
            let ghost before = m.resources@;
            let mut units = units;
            m.resources.append(&mut units);
            metrics.insert(i, m);
            proof {
                assert forall|a: int, b: int|
                    0 <= a < metrics@.len() && 0 <= b < metrics@.len() && a != b implies (#[trigger] metrics@[a]).project_id@
                        != (#[trigger] metrics@[b]).project_id@ by {
                    assert(metrics@[a].project_id == old(metrics)@[a].project_id);
                    assert(metrics@[b].project_id == old(metrics)@[b].project_id);
                }
            }
            return;
        }
        i = i + 1;
    }
    proof {
        lemma_metric_index_absent(metrics@, r.project_id@);
    }
    metrics.push(UsageMetric {
        project_id: r.project_id.clone(),
        project_namespace: r.project_namespace.clone(),
        resources: units,
    });
}

/// The position of the metric of project `project_id`, if any.
pub open spec fn spec_metric_index(ms: Seq<UsageMetric>, project_id: Seq<char>) -> Option<int> {
    if exists|i: int| 0 <= i < ms.len() && (#[trigger] ms[i]).project_id@ == project_id {
        Some(choose|i: int| 0 <= i < ms.len() && (#[trigger] ms[i]).project_id@ == project_id)
    } else {
        None
    }
}

proof fn lemma_metric_index_found(ms: Seq<UsageMetric>, project_id: Seq<char>, i: int)
    requires
        spec_projects_distinct(ms),
        0 <= i < ms.len(),
        ms[i].project_id@ == project_id,
    ensures
        spec_metric_index(ms, project_id) == Some(i),
{
    let j = choose|j: int| 0 <= j < ms.len() && (#[trigger] ms[j]).project_id@ == project_id;
    assert(ms[j].project_id@ == project_id);
    if j != i {
        assert(ms[i].project_id@ != ms[j].project_id@);
    }
}

proof fn lemma_metric_index_absent(ms: Seq<UsageMetric>, project_id: Seq<char>)
    requires
        forall|k: int| 0 <= k < ms.len() ==> (#[trigger] ms[k]).project_id@ != project_id,
    ensures
        spec_metric_index(ms, project_id) is None,
{
}

/// The whole second that contains the instant `t` (in nanoseconds): its floor, what chrono's
/// `timestamp()` gives.
pub fn nanos_to_secs(t: i128) -> (s: i128)
    ensures
        s == t as int / 1_000_000_000,
        s * 1_000_000_000 <= t < s * 1_000_000_000 + 1_000_000_000,
{
    if t >= 0 {
        let s = t / 1_000_000_000;
        assert(s * 1_000_000_000 <= t < s * 1_000_000_000 + 1_000_000_000) by (nonlinear_arith)
            requires
                t >= 0,
                s == t / 1_000_000_000,
        ;
        s
    } else {
        let u = -(t + 1);
        let q = u / 1_000_000_000;
        let s = -q - 1;
        assert(s * 1_000_000_000 <= t < s * 1_000_000_000 + 1_000_000_000) by (nonlinear_arith)
            requires
                u >= 0,
                u == -(t + 1),
                q == u / 1_000_000_000,
                s == -q - 1,
        ;
        assert(s == t as int / 1_000_000_000) by (nonlinear_arith)
            requires
                s * 1_000_000_000 <= t < s * 1_000_000_000 + 1_000_000_000,
        ;
        s
    }
}

/// The length in whole seconds of a round from `cursor` to `end`: the difference of the seconds
/// that contain them (a negative difference wraps, as an `as u64` cast does).
pub fn round_interval(cursor: i128, end: i128) -> (r: u64)
    ensures
        r == ((end as int / 1_000_000_000 - cursor as int / 1_000_000_000) as u64),
{
    let a = nanos_to_secs(end);
    let b = nanos_to_secs(cursor);
    let d: i128 = a - b;
    d as u64
}

/// `e` is the usage event of the metric `m` of a round of collection on cluster `cluster_id` at
/// time `now`: its project, namespace and units, in order.
pub open spec fn spec_usage_event(e: UsageCreated, m: UsageMetric, cluster_id: Seq<char>, now: i128) -> bool {
    &&& e.cluster_id@ == cluster_id
    &&& e.project_id == m.project_id
    &&& e.project_namespace == m.project_namespace
    &&& e.created_at == now
    &&& e.usages.len() == m.resources.len()
    &&& forall|i: int| 0 <= i < e.usages.len() ==> {
        &&& (#[trigger] e.usages[i]).resource_id == m.resources[i].resource_id
        &&& e.usages[i].resource_name == m.resources[i].resource_name
        &&& e.usages[i].units == m.resources[i].units
        &&& e.usages[i].tier == m.resources[i].tier
        &&& e.usages[i].interval == m.resources[i].interval
    }
}

/// The usage event of one project for a round of collection.
pub fn usage_created(metric: &UsageMetric, id: String, cluster_id: &str, now: i128) -> (r: UsageCreated)
    ensures
        r.id == id,
        spec_usage_event(r, *metric, cluster_id@, now),
{
    let mut usages: Vec<UsageUnitCreated> = Vec::new();
    let n = metric.resources.len();
    let mut i: usize = 0;
    while i < n
        invariant
            n == metric.resources.len(),
            i <= n,
            usages.len() == i,
            forall|k: int| 0 <= k < i ==> {
                &&& (#[trigger] usages[k]).resource_id == metric.resources[k].resource_id
                &&& usages[k].resource_name == metric.resources[k].resource_name
                &&& usages[k].units == metric.resources[k].units
                &&& usages[k].tier == metric.resources[k].tier
                &&& usages[k].interval == metric.resources[k].interval
            },
        decreases n - i,
    {
        let u = &metric.resources[i];
        usages.push(UsageUnitCreated {
            resource_id: u.resource_id.clone(),
            resource_name: u.resource_name.clone(),
            units: u.units,
            tier: u.tier.clone(),
            interval: u.interval,
        });
        i = i + 1;
    }
    UsageCreated {
        id,
        cluster_id: owned(cluster_id),
        project_id: metric.project_id.clone(),
        project_namespace: metric.project_namespace.clone(),
        usages,
        created_at: now,
    }
}

// ---------------------------------------------------------------------------------------------
// a round of collection

/// Whether the spec of `r` can be read for its tier: JSON whose `throughputTier`, when present,
/// is a string.
pub open spec fn spec_tier_readable(r: UsageResource) -> bool {
    spec_json_parses(r.resource_spec@) && spec_json_member(r.resource_spec@, "throughputTier"@)
        != Some(None::<Seq<char>>)
}

/// The tier of a metered resource, or `None` for a resource that is not metered.
pub open spec fn spec_tier_of(r: UsageResource) -> Option<Seq<char>> {
    if spec_json_parses(r.resource_spec@) {
        match spec_json_member(r.resource_spec@, "throughputTier"@) {
            Some(Some(t)) => Some(t),
            _ => None,
        }
    } else {
        None
    }
}

/// The units of project `p` among the units `units[i]` recorded for resources `rs[i]`: their
/// concatenation in resource order.
pub open spec fn spec_project_units(
    units: Seq<Seq<UsageUnitMetric>>,
    rs: Seq<UsageResource>,
    p: Seq<char>,
) -> Seq<UsageUnitMetric>
    decreases units.len(),
{
    if units.len() == 0 || rs.len() == 0 {
        Seq::empty()
    } else {
        spec_project_units(units.drop_last(), rs.drop_last(), p) + if rs.last().project_id@ == p {
            units.last()
        } else {
            Seq::empty()
        }
    }
}

/// A round of usage collection over the resources of the cache: the resources before `next`
/// have been handled, `units[i]` and `reported[i]` are what was recorded and reported for
/// resource `i`, and `pending` is the tier of resource `next` while its metrics are awaited.
pub struct UsageRound {
    pub resources: Vec<UsageResource>,
    pub interval: u64,
    pub next: usize,
    pub pending: Option<String>,
    pub metrics: Vec<UsageMetric>,
    pub units: Ghost<Seq<Seq<UsageUnitMetric>>>,
    pub reported: Ghost<Seq<Seq<UsageResourceUnit>>>,
}

/// What a round keeps of the resources `rs` of which the first `n` have been handled: each
/// handled resource that is metered has the units `units[i]` of its reported metrics
/// `reported[i]`, one that is not has none; there is one metric per project with units, holding
/// that project's units in resource order and the namespace of its first resource with units.
pub open spec fn spec_round_inv(
    rs: Seq<UsageResource>,
    n: int,
    units: Seq<Seq<UsageUnitMetric>>,
    reported: Seq<Seq<UsageResourceUnit>>,
    ms: Seq<UsageMetric>,
    interval: u64,
) -> bool {
    &&& 0 <= n <= rs.len()
    &&& units.len() == n
    &&& reported.len() == n
    &&& forall|i: int|
        0 <= i < n ==> match spec_tier_of(#[trigger] rs[i]) {
            None => spec_tier_readable(rs[i]) && units[i].len() == 0,
            Some(t) => units[i].len() > 0 && spec_resource_units(units[i], rs[i], t, reported[i], interval),
        }
    &&& spec_projects_distinct(ms)
    &&& forall|j: int|
        0 <= j < ms.len() ==> (#[trigger] ms[j]).resources@ == spec_project_units(
            units,
            rs.take(n),
            ms[j].project_id@,
        )
    &&& forall|j: int|
        0 <= j < ms.len() ==> {
            let f = spec_first_units(units, rs, (#[trigger] ms[j]).project_id@);
            0 <= f < n && rs[f].project_namespace == ms[j].project_namespace
        }
    &&& forall|i: int|
        0 <= i < n && (#[trigger] units[i]).len() > 0 ==> spec_has_metric(ms, rs[i].project_id@)
}

/// Whether some metric belongs to project `p`.
pub open spec fn spec_has_metric(ms: Seq<UsageMetric>, p: Seq<char>) -> bool {
    exists|j: int| 0 <= j < ms.len() && (#[trigger] ms[j]).project_id@ == p
}

/// The first resource of project `p` with units among `units[i]` for `rs[i]`, or -1 when there
/// is none.
pub open spec fn spec_first_units(units: Seq<Seq<UsageUnitMetric>>, rs: Seq<UsageResource>, p: Seq<char>) -> int
    decreases units.len(),
{
    if units.len() == 0 {
        -1
    } else {
        let f = spec_first_units(units.drop_last(), rs, p);
        let n = units.len() - 1;
        if f >= 0 {
            f
        } else if rs[n].project_id@ == p && units[n].len() > 0 {
            n
        } else {
            -1
        }
    }
}

/// The first resource with units of a project is one of its resources with units, and no
/// resource of the project before it has any.
pub proof fn lemma_first_units(units: Seq<Seq<UsageUnitMetric>>, rs: Seq<UsageResource>, p: Seq<char>)
    ensures
        ({
            let f = spec_first_units(units, rs, p);
            &&& -1 <= f < units.len()
            &&& f >= 0 ==> rs[f].project_id@ == p && units[f].len() > 0
            &&& forall|k: int|
                0 <= k < units.len() && (f < 0 || k < f) && rs[k].project_id@ == p ==> (#[trigger] units[k]).len() == 0
        }),
    decreases units.len(),
{
    if units.len() > 0 {
        let v = units.drop_last();
        lemma_first_units(v, rs, p);
        assert forall|k: int| 0 <= k < v.len() implies #[trigger] units[k] == v[k] by {}
    }
}

proof fn lemma_first_units_push(
    units: Seq<Seq<UsageUnitMetric>>,
    rs: Seq<UsageResource>,
    u: Seq<UsageUnitMetric>,
    p: Seq<char>,
)
    ensures
        spec_first_units(units.push(u), rs, p) == if spec_first_units(units, rs, p) >= 0 {
            spec_first_units(units, rs, p)
        } else if rs[units.len() as int].project_id@ == p && u.len() > 0 {
            units.len() as int
        } else {
            -1
        },
{
    assert(units.push(u).drop_last() =~= units);
}

impl UsageRound {
    /// What a round keeps (see `spec_round_inv`), and the tier of the resource whose metrics
    /// are awaited.
    pub open spec fn wf(&self) -> bool {
        &&& spec_round_inv(
            self.resources@,
            self.next as int,
            self.units@,
            self.reported@,
            self.metrics@,
            self.interval,
        )
        &&& (self.pending matches Some(t) ==> self.next < self.resources.len() && spec_tier_of(
            self.resources@[self.next as int],
        ) == Some(t@))
    }

    /// A round over `resources` whose units cover `interval` seconds, nothing handled yet.
    pub fn new(resources: Vec<UsageResource>, interval: u64) -> (r: Self)
        ensures
            r.wf(),
            r.resources == resources,
            r.interval == interval,
            r.next == 0,
            r.pending is None,
            r.metrics@.len() == 0,
    {
        UsageRound {
            resources,
            interval,
            next: 0,
            pending: None,
            metrics: Vec::new(),
            units: Ghost(Seq::empty()),
            reported: Ghost(Seq::empty()),
        }
    }
}

/// The next thing a round of usage collection does.
#[derive(Debug)]
pub enum UsageAction {
    /// Query the metrics of the resource with this namespace and name.
    FindMetrics(String, String),
    /// Every resource has been handled.
    Done,
    /// The spec of a resource cannot be read for its tier; the round stops.
    Refuse(Error),
}

proof fn lemma_project_units_push(
    units: Seq<Seq<UsageUnitMetric>>,
    rs: Seq<UsageResource>,
    n: int,
    u: Seq<UsageUnitMetric>,
    p: Seq<char>,
)
    requires
        units.len() == n,
        0 <= n < rs.len(),
    ensures
        spec_project_units(units.push(u), rs.take(n + 1), p) == spec_project_units(units, rs.take(n), p)
            + if rs[n].project_id@ == p { u } else { Seq::empty() },
{
    assert(units.push(u).drop_last() =~= units);
    assert(rs.take(n + 1).drop_last() =~= rs.take(n));
    assert(rs.take(n + 1).last() == rs[n]);
}

proof fn lemma_project_units_empty(units: Seq<Seq<UsageUnitMetric>>, rs: Seq<UsageResource>, p: Seq<char>)
    requires
        units.len() <= rs.len(),
        forall|i: int| 0 <= i < units.len() && rs[i].project_id@ == p ==> (#[trigger] units[i]).len() == 0,
    ensures
        spec_project_units(units, rs.take(units.len() as int), p) == Seq::<UsageUnitMetric>::empty(),
    decreases units.len(),
{
    if units.len() > 0 {
        let n = units.len() - 1;
        let v = units.drop_last();
        assert forall|i: int| 0 <= i < v.len() && rs[i].project_id@ == p implies (#[trigger] v[i]).len() == 0 by {
            assert(v[i] == units[i]);
        }
        lemma_project_units_empty(v, rs, p);
        lemma_project_units_push(v, rs, n, units[n], p);
        assert(units =~= v.push(units[n]));
    }
}

/// Passing over a resource that is not metered keeps what a round keeps.
proof fn lemma_round_skip(
    rs: Seq<UsageResource>,
    n: int,
    units: Seq<Seq<UsageUnitMetric>>,
    reported: Seq<Seq<UsageResourceUnit>>,
    ms: Seq<UsageMetric>,
    interval: u64,
)
    requires
        spec_round_inv(rs, n, units, reported, ms, interval),
        n < rs.len(),
        spec_tier_of(rs[n]) is None,
        spec_tier_readable(rs[n]),
    ensures
        spec_round_inv(rs, n + 1, units.push(Seq::empty()), reported.push(Seq::empty()), ms, interval),
{
    let u = units.push(Seq::empty());
    let rep = reported.push(Seq::empty());
    assert forall|k: int| 0 <= k < n + 1 implies match spec_tier_of(#[trigger] rs[k]) {
        None => spec_tier_readable(rs[k]) && u[k].len() == 0,
        Some(t) => u[k].len() > 0 && spec_resource_units(u[k], rs[k], t, rep[k], interval),
    } by {
        if k < n {
            assert(u[k] == units[k]);
            assert(rep[k] == reported[k]);
        }
    }
    assert forall|j: int| 0 <= j < ms.len() implies (#[trigger] ms[j]).resources@ == spec_project_units(
        u,
        rs.take(n + 1),
        ms[j].project_id@,
    ) by {
        lemma_project_units_push(units, rs, n, Seq::empty(), ms[j].project_id@);
        assert(spec_project_units(units, rs.take(n), ms[j].project_id@) + Seq::<UsageUnitMetric>::empty()
            =~= spec_project_units(units, rs.take(n), ms[j].project_id@));
    }
    assert forall|j: int| 0 <= j < ms.len() implies {
        let f = spec_first_units(u, rs, (#[trigger] ms[j]).project_id@);
        0 <= f < n + 1 && rs[f].project_namespace == ms[j].project_namespace
    } by {
        lemma_first_units_push(units, rs, Seq::empty(), ms[j].project_id@);
    }
    assert forall|i: int| 0 <= i < n + 1 && (#[trigger] u[i]).len() > 0 implies spec_has_metric(ms, rs[i].project_id@) by {
        assert(u[i] == units[i]);
    }
}

/// Moves a round to the next resource that is metered, passing over those that are not, and
/// asks for its metrics; ends the round when every resource has been handled. A spec that is not
/// JSON is `Unexpected("fail to deserialize spec")`, a tier that is not a string
/// `Unexpected("throughputTier is not a string")`.
pub fn usage_round_next(round: &mut UsageRound) -> (a: UsageAction)
    requires
        old(round).wf(),
        old(round).pending is None,
    ensures
        final(round).wf(),
        final(round).resources == old(round).resources,
        final(round).interval == old(round).interval,
        final(round).metrics == old(round).metrics,
        old(round).next <= final(round).next,
        forall|i: int|
            old(round).next <= i < final(round).next ==> spec_tier_of(
                #[trigger] final(round).resources@[i],
            ) is None,
        match a {
            UsageAction::FindMetrics(ns, name) => {
                &&& final(round).next < final(round).resources.len()
                &&& final(round).pending matches Some(t) && spec_tier_of(
                    final(round).resources@[final(round).next as int],
                ) == Some(t@)
                &&& ns == final(round).resources@[final(round).next as int].project_namespace
                &&& name == final(round).resources@[final(round).next as int].resource_name
            },
            UsageAction::Done => final(round).next == final(round).resources.len()
                && final(round).pending is None,
            UsageAction::Refuse(e) => {
                let r = final(round).resources@[final(round).next as int];
                &&& final(round).next < final(round).resources.len()
                &&& !spec_tier_readable(r)
                &&& !spec_json_parses(r.resource_spec@) ==> is_unexpected(
                    e,
                    "fail to deserialize spec"@,
                )
                &&& spec_json_parses(r.resource_spec@) ==> is_unexpected(
                    e,
                    "throughputTier is not a string"@,
                )
            },
        },
{
    let n = round.resources.len();
    while round.next < n
        invariant
            round.wf(),
            round.pending is None,
            n == round.resources.len(),
            round.resources == old(round).resources,
            round.interval == old(round).interval,
            round.metrics == old(round).metrics,
            old(round).next <= round.next,
            forall|i: int|
                old(round).next <= i < round.next ==> spec_tier_of(#[trigger] round.resources@[i])
                    is None,
        decreases n - round.next,
    {
        let i = round.next;
        let tier = match resource_tier(&round.resources[i]) {
            Ok(t) => t,
            Err(e) => return UsageAction::Refuse(e),
        };
        match tier {
            Some(t) => {
                let ns = round.resources[i].project_namespace.clone();
                let name = round.resources[i].resource_name.clone();
                round.pending = Some(t);
                return UsageAction::FindMetrics(ns, name);
            },
            None => {
                proof {
                    lemma_round_skip(
                        round.resources@,
                        i as int,
                        round.units@,
                        round.reported@,
                        round.metrics@,
                        round.interval,
                    );
                }
                round.units = Ghost(round.units@.push(Seq::empty()));
                round.reported = Ghost(round.reported@.push(Seq::empty()));
                round.next = i + 1;
            },
        }
    }
    UsageAction::Done
}

/// Recording the units of a metered resource, added to the metrics as `add_units` adds them,
/// keeps what a round keeps.
proof fn lemma_round_record(
    rs: Seq<UsageResource>,
    n: int,
    units: Seq<Seq<UsageUnitMetric>>,
    reported: Seq<Seq<UsageResourceUnit>>,
    ms: Seq<UsageMetric>,
    ms2: Seq<UsageMetric>,
    interval: u64,
    t: Seq<char>,
    usages: Seq<UsageResourceUnit>,
    out: Seq<UsageUnitMetric>,
)
    requires
        spec_round_inv(rs, n, units, reported, ms, interval),
        n < rs.len(),
        spec_tier_of(rs[n]) == Some(t),
        spec_resource_units(out, rs[n], t, usages, interval),
        out.len() > 0,
        spec_projects_distinct(ms2),
        match spec_metric_index(ms, rs[n].project_id@) {
            Some(j) => ms2.len() == ms.len()
                && (forall|k: int| 0 <= k < ms.len() && k != j ==> ms2[k] == ms[k])
                && ms2[j].project_id == ms[j].project_id
                && ms2[j].project_namespace == ms[j].project_namespace
                && ms2[j].resources@ == ms[j].resources@ + out,
            None => ms2.len() == ms.len() + 1
                && (forall|k: int| 0 <= k < ms.len() ==> ms2[k] == ms[k])
                && ms2.last().project_id == rs[n].project_id
                && ms2.last().project_namespace == rs[n].project_namespace
                && ms2.last().resources@ == out,
        },
    ensures
        spec_round_inv(rs, n + 1, units.push(out), reported.push(usages), ms2, interval),
{
    let u = units.push(out);
    let rep = reported.push(usages);
    let p = rs[n].project_id@;
    assert forall|k: int| 0 <= k < n + 1 implies match spec_tier_of(#[trigger] rs[k]) {
        None => spec_tier_readable(rs[k]) && u[k].len() == 0,
        Some(t) => u[k].len() > 0 && spec_resource_units(u[k], rs[k], t, rep[k], interval),
    } by {
        if k < n {
            assert(u[k] == units[k]);
            assert(rep[k] == reported[k]);
        }
    }
    match spec_metric_index(ms, p) {
        Some(j) => {
            let w = choose|i: int| 0 <= i < ms.len() && (#[trigger] ms[i]).project_id@ == p;
            assert(ms[w].project_id@ == p);
            assert(0 <= j < ms.len() && ms[j].project_id@ == p);
            assert forall|k: int| 0 <= k < ms2.len() implies (#[trigger] ms2[k]).resources@
                == spec_project_units(u, rs.take(n + 1), ms2[k].project_id@) by {
                lemma_project_units_push(units, rs, n, out, ms2[k].project_id@);
                if k != j {
                    assert(ms2[k] == ms[k]);
                    assert(ms[k].project_id@ != ms[j].project_id@);
                    assert(spec_project_units(units, rs.take(n), ms[k].project_id@)
                        + Seq::<UsageUnitMetric>::empty() =~= spec_project_units(units, rs.take(n), ms[k].project_id@));
                }
            }
            assert forall|k: int| 0 <= k < ms2.len() implies {
                let f = spec_first_units(u, rs, (#[trigger] ms2[k]).project_id@);
                0 <= f < n + 1 && rs[f].project_namespace == ms2[k].project_namespace
            } by {
                lemma_first_units_push(units, rs, out, ms2[k].project_id@);
                if k != j {
                    assert(ms2[k] == ms[k]);
                }
                assert(ms2[k].project_id@ == ms[k].project_id@);
                assert(ms2[k].project_namespace == ms[k].project_namespace);
            }
            assert forall|i: int| 0 <= i < n + 1 && (#[trigger] u[i]).len() > 0 implies spec_has_metric(ms2, rs[i].project_id@) by {
                if i < n {
                    assert(u[i] == units[i]);
                    assert(spec_has_metric(ms, rs[i].project_id@));
                    let k = choose|k: int| 0 <= k < ms.len() && (#[trigger] ms[k]).project_id@ == rs[i].project_id@;
                    if k != j {
                        assert(ms2[k] == ms[k]);
                    }
                    assert(ms2[k].project_id@ == rs[i].project_id@);
                } else {
                    assert(ms2[j].project_id@ == p);
                }
            }
        },
        None => {
            assert(!spec_has_metric(ms, p));
            let last = ms.len() as int;
            assert forall|i: int| 0 <= i < units.len() && rs[i].project_id@ == p implies (#[trigger] units[i]).len() == 0 by {
                if units[i].len() > 0 {
                    assert(spec_has_metric(ms, rs[i].project_id@));
                }
            }
            lemma_project_units_empty(units, rs, p);
            assert(units.len() == n);
            assert forall|k: int| 0 <= k < ms2.len() implies (#[trigger] ms2[k]).resources@
                == spec_project_units(u, rs.take(n + 1), ms2[k].project_id@) by {
                lemma_project_units_push(units, rs, n, out, ms2[k].project_id@);
                if k < last {
                    assert(ms2[k] == ms[k]);
                    if ms[k].project_id@ == p {
                        assert(spec_has_metric(ms, p));
                    }
                    assert(spec_project_units(units, rs.take(n), ms[k].project_id@)
                        + Seq::<UsageUnitMetric>::empty() =~= spec_project_units(units, rs.take(n), ms[k].project_id@));
                } else {
                    assert(ms2[k] == ms2.last());
                    assert(Seq::<UsageUnitMetric>::empty() + out =~= out);
                }
            }
            lemma_first_units(units, rs, p);
            assert forall|k: int| 0 <= k < ms2.len() implies {
                let f = spec_first_units(u, rs, (#[trigger] ms2[k]).project_id@);
                0 <= f < n + 1 && rs[f].project_namespace == ms2[k].project_namespace
            } by {
                lemma_first_units_push(units, rs, out, ms2[k].project_id@);
                if k < last {
                    assert(ms2[k] == ms[k]);
                } else {
                    assert(ms2[k] == ms2.last());
                    let f = spec_first_units(units, rs, p);
                    if f >= 0 {
                        assert(spec_has_metric(ms, rs[f].project_id@));
                    }
                }
            }
            assert forall|i: int| 0 <= i < n + 1 && (#[trigger] u[i]).len() > 0 implies spec_has_metric(ms2, rs[i].project_id@) by {
                if i < n {
                    assert(u[i] == units[i]);
                    assert(spec_has_metric(ms, rs[i].project_id@));
                    let k = choose|k: int| 0 <= k < ms.len() && (#[trigger] ms[k]).project_id@ == rs[i].project_id@;
                    assert(ms2[k] == ms[k]);
                } else {
                    assert(ms2[last] == ms2.last());
                }
            }
        },
    }
}

/// Records the reported metrics of the resource whose metrics were asked for: its units (see
/// `resource_units`) are added to the metrics of its project (see `add_units`) and the round
/// moves past it.
pub fn usage_round_record(round: &mut UsageRound, usages: Vec<UsageResourceUnit>)
    requires
        old(round).wf(),
        old(round).pending is Some,
    ensures
        final(round).wf(),
        final(round).resources == old(round).resources,
        final(round).interval == old(round).interval,
        final(round).next == old(round).next + 1,
        final(round).pending is None,
        final(round).reported@ == old(round).reported@.push(usages@),
        final(round).units@.len() == old(round).units@.len() + 1,
        final(round).units@.drop_last() == old(round).units@,
{
    let i = round.next;
    let tier = match &round.pending {
        Some(t) => t.clone(),
        None => String::new(),
    };
    round.pending = None;
    let units = resource_units(&round.resources[i], tier.as_str(), &usages, round.interval);
    let ghost out = units@;
    let ghost ms = round.metrics@;
    add_units(&mut round.metrics, &round.resources[i], units);
    proof {
        lemma_round_record(
            round.resources@,
            i as int,
            round.units@,
            round.reported@,
            ms,
            round.metrics@,
            round.interval,
            tier@,
            usages@,
            out,
        );
        assert(round.units@.push(out).drop_last() =~= round.units@);
    }
    round.units = Ghost(round.units@.push(out));
    round.reported = Ghost(round.reported@.push(usages@));
    round.next = i + 1;
}

/// The events of a round of collection: one per metric, in order, each with a fresh id.
pub fn usage_round_events(round: &UsageRound, cluster_id: &str, now: i128) -> (r: Vec<UsageCreated>)
    ensures
        r.len() == round.metrics.len(),
        forall|j: int|
            0 <= j < r.len() ==> is_uuid_v4_text((#[trigger] r[j]).id@) && spec_usage_event(
                r[j],
                round.metrics[j],
                cluster_id@,
                now,
            ),
{
    let mut r: Vec<UsageCreated> = Vec::new();
    let n = round.metrics.len();
    let mut j: usize = 0;
    while j < n
        invariant
            n == round.metrics.len(),
            j <= n,
            r.len() == j,
            forall|k: int|
                0 <= k < j ==> is_uuid_v4_text((#[trigger] r[k]).id@) && spec_usage_event(
                    r[k],
                    round.metrics[k],
                    cluster_id@,
                    now,
                ),
        decreases n - j,
    {
        let e = usage_created(&round.metrics[j], new_id(), cluster_id, now);
        r.push(e);
        j = j + 1;
    }
    r
}

/// What a whole round of collection yields, once every resource has been handled: the metrics
/// of a resource are queried exactly when it is metered and its units follow from them; there is
/// one metric per project that has units, no other, and never two for one project; a project's
/// metric holds the units of its resources in resource order, under the namespace of its first
/// resource with units.
pub proof fn lemma_usage_round_law(round: UsageRound)
    requires
        round.wf(),
        round.next == round.resources.len(),
    ensures
        ({
            let rs = round.resources@;
            let units = round.units@;
            let ms = round.metrics@;
            &&& units.len() == rs.len()
            &&& forall|i: int|
                0 <= i < rs.len() ==> match spec_tier_of(#[trigger] rs[i]) {
                    None => units[i].len() == 0,
                    Some(t) => units[i].len() > 0 && spec_resource_units(
                        units[i],
                        rs[i],
                        t,
                        round.reported@[i],
                        round.interval,
                    ),
                }
            &&& spec_projects_distinct(ms)
            &&& forall|j: int|
                0 <= j < ms.len() ==> (#[trigger] ms[j]).resources@ == spec_project_units(
                    units,
                    rs,
                    ms[j].project_id@,
                ) && ms[j].resources@.len() > 0
            &&& forall|i: int|
                0 <= i < rs.len() && spec_tier_of(#[trigger] rs[i]) is Some ==> spec_has_metric(
                    ms,
                    rs[i].project_id@,
                )
            &&& forall|j: int|
                0 <= j < ms.len() ==> {
                    let f = spec_first_units(units, rs, (#[trigger] ms[j]).project_id@);
                    &&& 0 <= f < rs.len()
                    &&& rs[f].project_id@ == ms[j].project_id@
                    &&& rs[f].project_namespace == ms[j].project_namespace
                    &&& forall|k: int|
                        0 <= k < f && rs[k].project_id@ == ms[j].project_id@ ==> spec_tier_of(
                            #[trigger] rs[k],
                        ) is None
                }
        }),
{
    let rs = round.resources@;
    let units = round.units@;
    let ms = round.metrics@;
    assert(rs.take(rs.len() as int) =~= rs);
    assert forall|j: int| 0 <= j < ms.len() implies (#[trigger] ms[j]).resources@ == spec_project_units(
        units,
        rs,
        ms[j].project_id@,
    ) && ms[j].resources@.len() > 0 by {
        let f = spec_first_units(units, rs, ms[j].project_id@);
        lemma_first_units(units, rs, ms[j].project_id@);
        lemma_project_units_contains(units, rs, ms[j].project_id@, f);
    }
    assert forall|i: int| 0 <= i < rs.len() && spec_tier_of(#[trigger] rs[i]) is Some implies spec_has_metric(
        ms,
        rs[i].project_id@,
    ) by {
        assert(units[i].len() > 0);
    }
    assert forall|j: int| 0 <= j < ms.len() implies {
        let f = spec_first_units(units, rs, (#[trigger] ms[j]).project_id@);
        &&& 0 <= f < rs.len()
        &&& rs[f].project_id@ == ms[j].project_id@
        &&& rs[f].project_namespace == ms[j].project_namespace
        &&& forall|k: int|
            0 <= k < f && rs[k].project_id@ == ms[j].project_id@ ==> spec_tier_of(#[trigger] rs[k]) is None
    } by {
        lemma_first_units(units, rs, ms[j].project_id@);
        let f = spec_first_units(units, rs, ms[j].project_id@);
        assert forall|k: int| 0 <= k < f && rs[k].project_id@ == ms[j].project_id@ implies spec_tier_of(#[trigger] rs[k]) is None by {
            assert(units[k].len() == 0);
        }
    }
}

/// A project's units hold those of each of its resources.
proof fn lemma_project_units_contains(
    units: Seq<Seq<UsageUnitMetric>>,
    rs: Seq<UsageResource>,
    p: Seq<char>,
    i: int,
)
    requires
        units.len() <= rs.len(),
        0 <= i < units.len(),
        rs[i].project_id@ == p,
    ensures
        spec_project_units(units, rs.take(units.len() as int), p).len() >= units[i].len(),
    decreases units.len(),
{
    let n = units.len() - 1;
    let v = units.drop_last();
    assert(units =~= v.push(units[n]));
    lemma_project_units_push(v, rs, n, units[n], p);
    if i < n {
        assert(v[i] == units[i]);
        lemma_project_units_contains(v, rs, p, i);
    }
}

} // verus!
