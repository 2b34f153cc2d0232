//! The reconciliation engine: given the desired entries, the live record
//! set fetched at the start of the run, and either a resolved address or
//! an explicit proxied override, it plans the provider calls that converge
//! live state on desired state, and judges each call's response against
//! the intent behind it.
//!
//! The engine only decides; the surrounding process performs the planned
//! calls, one domain at a time in configuration order, and feeds each
//! response back to [`judge_result`]. A failure on one domain never
//! disturbs the plan for the others: every planned action is an
//! independent unit of convergence.

use vstd::prelude::*;

use crate::configuration::cloudflare::domain_name::spec_domain_names;
use crate::configuration::cloudflare::domain_name::DomainName;
use crate::configuration::cloudflare::domain_name::RecordType as DesiredKind;
use crate::configuration::cloudflare::domain_name::SpecDomainName;
use crate::record_types::kind_matches;
use crate::record_types::record_type_of;
use crate::record_types::spec_kind_matches;
use crate::record_types::spec_record_type_of;
use crate::rest_api::cloudflare::error::Error;
use crate::rest_api::cloudflare::record::spec_records;
use crate::rest_api::cloudflare::record::Record;
use crate::rest_api::cloudflare::record::RecordType;
use crate::rest_api::cloudflare::record::SpecRecord;
use crate::rest_api::ip_sb::ip::SpecIp;
use crate::rest_api::ip_sb::ip::IP;

verus! {

/// Whether a live record is the one a desired entry speaks of. Matching is
/// keyed by the pair `(name, kind)` alone: the provider-assigned `id`
/// plays no part, and is only used to address the call once a match is
/// found.
pub open spec fn spec_matches(desired: SpecDomainName, live: SpecRecord) -> bool {
    live.domain_name == desired.name && spec_kind_matches(live.record_type, desired.record_type)
}

/// Whether a live record is the one a desired entry speaks of.
pub fn matches(desired: &DomainName, live: &Record) -> (r: bool)
    ensures
        r == spec_matches(desired@, live@),
{
    live.domain_name == desired.name && kind_matches(&live.record_type, &desired.record_type)
}

/// The position of the first live record matching a desired entry, in list
/// order. A well-kept zone holds at most one; should the provider ever
/// return several, the first is the documented choice.
pub open spec fn spec_find(records: Seq<SpecRecord>, desired: SpecDomainName) -> Option<int>
    decreases records.len(),
{
    if records.len() <= 0 {
        None
    } else if spec_matches(desired, records[0]) {
        Some(0int)
    } else {
        match spec_find(records.subrange(1, records.len() as int), desired) {
            Some(i) => Some(i + 1),
            None => None,
        }
    }
}

/// What a found position means: it is in range, it matches, and nothing
/// before it does; and nothing matches when no position is found.
pub proof fn lemma_spec_find(records: Seq<SpecRecord>, desired: SpecDomainName)
    ensures
        match spec_find(records, desired) {
            Some(i) => 0 <= i < records.len() && spec_matches(desired, records[i]) && (forall|
                j: int,
            |
                0 <= j < i ==> !spec_matches(desired, records[j])),
            None => forall|j: int| 0 <= j < records.len() ==> !spec_matches(desired, records[j]),
        },
    decreases records.len(),
{
    if records.len() > 0 && !spec_matches(desired, records[0]) {
        let rest = records.subrange(1, records.len() as int);
        lemma_spec_find(rest, desired);
        assert(forall|j: int| 1 <= j < records.len() ==> records[j] == rest[j - 1]);
    }
}

/// The converse: the first matching position is what `spec_find` finds.
pub proof fn lemma_spec_find_at(records: Seq<SpecRecord>, desired: SpecDomainName, i: int)
    requires
        0 <= i < records.len(),
        spec_matches(desired, records[i]),
        forall|j: int| 0 <= j < i ==> !spec_matches(desired, records[j]),
    ensures
        spec_find(records, desired) == Some(i),
    decreases records.len(),
{
    if i > 0 {
        let rest = records.subrange(1, records.len() as int);
        assert(forall|j: int| 0 <= j < rest.len() ==> records[j + 1] == rest[j]);
        lemma_spec_find_at(rest, desired, i - 1);
    }
}

/// Find the first live record matching a desired entry, in list order.
pub fn find_record(records: &Vec<Record>, desired: &DomainName) -> (r: Option<usize>)
    ensures
        match r {
            Some(i) => i < records.len() && spec_find(spec_records(records@), desired@) == Some(
                i as int,
            ),
            None => spec_find(spec_records(records@), desired@) is None,
        },
{
    let ghost model = spec_records(records@);
    let mut k: usize = 0;
    while k < records.len()
        invariant
            k <= records.len(),
            model == spec_records(records@),
            forall|j: int| 0 <= j < k ==> !spec_matches(desired@, model[j]),
        decreases records.len() - k,
    {
        if matches(desired, &records[k]) {
            proof {
                lemma_spec_find_at(model, desired@, k as int);
            }
            return Some(k);
        }
        k += 1;
    }
    proof {
        lemma_spec_find(model, desired@);
    }
    None
}

/// One provider call the plan asks for: create a record, replace a
/// record's address value, replace its proxied flag, or delete it. Mutate
/// and delete calls address the record by the `id` of the match that was
/// found.
pub enum Action {
    Create { name: String, value: String, kind: RecordType, time_to_live: u16, proxied: bool },
    SetValue { id: String, value: String },
    SetProxied { id: String, proxied: bool },
    Delete { id: String },
}

/// The mathematical shape of a planned action.
pub enum SpecAction {
    Create { name: Seq<char>, value: Seq<char>, kind: RecordType, time_to_live: u16, proxied: bool },
    SetValue { id: Seq<char>, value: Seq<char> },
    SetProxied { id: Seq<char>, proxied: bool },
    Delete { id: Seq<char> },
}

impl View for Action {
    type V = SpecAction;

    open spec fn view(&self) -> SpecAction {
        match self {
            Action::Create { name, value, kind, time_to_live, proxied } => SpecAction::Create {
                name: name@,
                value: value@,
                kind: *kind,
                time_to_live: *time_to_live,
                proxied: *proxied,
            },
            Action::SetValue { id, value } => SpecAction::SetValue { id: id@, value: value@ },
            Action::SetProxied { id, proxied } => SpecAction::SetProxied {
                id: id@,
                proxied: *proxied,
            },
            Action::Delete { id } => SpecAction::Delete { id: id@ },
        }
    }
}

/// The views of a sequence of planned actions.
pub open spec fn spec_actions(actions: Seq<Action>) -> Seq<SpecAction> {
    actions.map_values(|a: Action| a@)
}

/// The view of a possibly absent action.
pub open spec fn spec_action_opt(action: Option<Action>) -> Option<SpecAction> {
    match action {
        Some(a) => Some(a@),
        None => None,
    }
}

/// The address a desired entry's kind reads out of the resolution: the
/// IPv4 component for `A`, the IPv6 component for `AAAA`. Either may be
/// absent, which is the unavailable condition, not an error.
pub open spec fn spec_address_for(
    ip: SpecIp,
    kind: DesiredKind,
) -> Option<Seq<char>> {
    match kind {
        DesiredKind::A => ip.v4_addr(),
        DesiredKind::AAAA => ip.v6_addr(),
    }
}

/// What address reconciliation does for one desired entry, given the live
/// records and the resolution:
///
/// - matched and the address available: replace the record's value, unless
///   it already carries that address — an already converged record costs
///   no call, so an unchanged run plans nothing;
/// - matched and the address unavailable: delete the record if
///   `unavailable_hide` asks for hiding, otherwise leave it alone;
/// - unmatched and the address available: create the record from the
///   entry;
/// - unmatched and unavailable: nothing.
pub open spec fn spec_decide(
    desired: SpecDomainName,
    records: Seq<SpecRecord>,
    ip: SpecIp,
    unavailable_hide: bool,
) -> Option<SpecAction> {
    let found = spec_find(records, desired);
    match spec_address_for(ip, desired.record_type) {
        Some(address) => match found {
            Some(i) => if records[i].value != address {
                Some(SpecAction::SetValue { id: records[i].id, value: address })
            } else {
                None
            },
            None => Some(
                SpecAction::Create {
                    name: desired.name,
                    value: address,
                    kind: spec_record_type_of(desired.record_type),
                    time_to_live: desired.time_to_live,
                    proxied: desired.proxied,
                },
            ),
        },
        None => match found {
            Some(i) => if unavailable_hide {
                Some(SpecAction::Delete { id: records[i].id })
            } else {
                None
            },
            None => None,
        },
    }
}

/// Decide address reconciliation for one desired entry.
pub fn decide(desired: &DomainName, records: &Vec<Record>, ip: &IP, unavailable_hide: bool) -> (r:
    Option<Action>)
    ensures
        spec_action_opt(r) == spec_decide(desired@, spec_records(records@), ip@, unavailable_hide),
{
    let found = find_record(records, desired);
    let address = match desired.record_type {
        DesiredKind::A => ip.v4(),
        DesiredKind::AAAA => ip.v6(),
    };
    match (found, address) {
        (Some(i), Some(address)) => {
            if records[i].value != address {
                Some(Action::SetValue { id: records[i].id.clone(), value: address })
            } else {
                None
            }
        },
        (Some(i), None) => {
            if unavailable_hide {
                Some(Action::Delete { id: records[i].id.clone() })
            } else {
                None
            }
        },
        (None, Some(address)) => Some(
            Action::Create {
                name: desired.name.clone(),
                value: address,
                kind: record_type_of(&desired.record_type),
                time_to_live: desired.time_to_live,
                proxied: desired.proxied,
            },
        ),
        (None, None) => None,
    }
}

/// What proxy-flag reconciliation does for one desired entry, given the
/// live records and the explicit override: replace the matched record's
/// proxied flag where it differs from the override, and nothing otherwise.
/// This mode never creates records.
pub open spec fn spec_decide_proxied(
    desired: SpecDomainName,
    records: Seq<SpecRecord>,
    is_proxied: bool,
) -> Option<SpecAction> {
    match spec_find(records, desired) {
        Some(i) => if records[i].proxied != is_proxied {
            Some(SpecAction::SetProxied { id: records[i].id, proxied: is_proxied })
        } else {
            None
        },
        None => None,
    }
}

/// Decide proxy-flag reconciliation for one desired entry.
pub fn decide_proxied(desired: &DomainName, records: &Vec<Record>, is_proxied: bool) -> (r: Option<
    Action,
>)
    ensures
        spec_action_opt(r) == spec_decide_proxied(desired@, spec_records(records@), is_proxied),
{
    match find_record(records, desired) {
        Some(i) => {
            if records[i].proxied != is_proxied {
                Some(Action::SetProxied { id: records[i].id.clone(), proxied: is_proxied })
            } else {
                None
            }
        },
        None => None,
    }
}

/// A possibly absent action as a sequence of zero or one actions.
pub open spec fn spec_action_seq(action: Option<SpecAction>) -> Seq<SpecAction> {
    match action {
        Some(a) => seq![a],
        None => Seq::empty(),
    }
}

/// The whole address-reconciliation plan: the decisions for the desired
/// entries in configuration order, with the entries that need nothing
/// contributing nothing. Every decision reads only the live records
/// fetched at the start of the run, never another decision's outcome.
pub open spec fn spec_plan(
    domains: Seq<SpecDomainName>,
    records: Seq<SpecRecord>,
    ip: SpecIp,
    unavailable_hide: bool,
) -> Seq<SpecAction>
    decreases domains.len(),
{
    if domains.len() == 0 {
        Seq::empty()
    } else {
        spec_plan(domains.drop_last(), records, ip, unavailable_hide) + spec_action_seq(
            spec_decide(domains.last(), records, ip, unavailable_hide),
        )
    }
}

/// Plan address reconciliation for all desired entries, in configuration
/// order.
pub fn plan_address(
    domains: &Vec<DomainName>,
    records: &Vec<Record>,
    ip: &IP,
    unavailable_hide: bool,
) -> (r: Vec<Action>)
    ensures
        spec_actions(r@) == spec_plan(
            spec_domain_names(domains@),
            spec_records(records@),
            ip@,
            unavailable_hide,
        ),
{
    let ghost dmodel = spec_domain_names(domains@);
    let ghost rmodel = spec_records(records@);
    let mut actions: Vec<Action> = Vec::new();
    let mut k: usize = 0;
    while k < domains.len()
        invariant
            k <= domains.len(),
            dmodel == spec_domain_names(domains@),
            rmodel == spec_records(records@),
            spec_actions(actions@) == spec_plan(
                dmodel.take(k as int),
                rmodel,
                ip@,
                unavailable_hide,
            ),
        decreases domains.len() - k,
    {
        let ghost prefix = dmodel.take(k as int);
        let ghost longer = dmodel.take(k as int + 1);
        proof {
            assert(longer.drop_last() =~= prefix);
            assert(longer.last() == dmodel[k as int]);
        }
        if let Some(action) = decide(&domains[k], records, ip, unavailable_hide) {
            let ghost old_actions = actions@;
            actions.push(action);
            proof {
                assert(spec_actions(actions@) =~= spec_actions(old_actions).push(action@));
            }
        }
        k += 1;
    }
    proof {
        assert(dmodel.take(domains@.len() as int) =~= dmodel);
    }
    actions
}

/// The whole proxy-flag reconciliation plan, in configuration order.
pub open spec fn spec_plan_proxied(
    domains: Seq<SpecDomainName>,
    records: Seq<SpecRecord>,
    is_proxied: bool,
) -> Seq<SpecAction>
    decreases domains.len(),
{
    if domains.len() == 0 {
        Seq::empty()
    } else {
        spec_plan_proxied(domains.drop_last(), records, is_proxied) + spec_action_seq(
            spec_decide_proxied(domains.last(), records, is_proxied),
        )
    }
}

/// Plan proxy-flag reconciliation for all desired entries, in
/// configuration order.
pub fn plan_proxied(domains: &Vec<DomainName>, records: &Vec<Record>, is_proxied: bool) -> (r: Vec<
    Action,
>)
    ensures
        spec_actions(r@) == spec_plan_proxied(
            spec_domain_names(domains@),
            spec_records(records@),
            is_proxied,
        ),
{
    let ghost dmodel = spec_domain_names(domains@);
    let ghost rmodel = spec_records(records@);
    let mut actions: Vec<Action> = Vec::new();
    let mut k: usize = 0;
    while k < domains.len()
        invariant
            k <= domains.len(),
            dmodel == spec_domain_names(domains@),
            rmodel == spec_records(records@),
            spec_actions(actions@) == spec_plan_proxied(dmodel.take(k as int), rmodel, is_proxied),
        decreases domains.len() - k,
    {
        let ghost prefix = dmodel.take(k as int);
        let ghost longer = dmodel.take(k as int + 1);
        proof {
            assert(longer.drop_last() =~= prefix);
            assert(longer.last() == dmodel[k as int]);
        }
        if let Some(action) = decide_proxied(&domains[k], records, is_proxied) {
            let ghost old_actions = actions@;
            actions.push(action);
            proof {
                assert(spec_actions(actions@) =~= spec_actions(old_actions).push(action@));
            }
        }
        k += 1;
    }
    proof {
        assert(dmodel.take(domains@.len() as int) =~= dmodel);
    }
    actions
}

/// The three observable outcomes of one attempted action: it applied, the
/// provider answered success but the returned record does not carry the
/// intent (a soft failure, reported and never fatal), or the call itself
/// failed with a classified error.
#[derive(Clone, Copy, Debug, PartialEq, Eq, Structural)]
pub enum Outcome {
    Applied,
    Mismatch,
    Failed(Error),
}

/// Whether the record a mutate call returned carries the intent behind the
/// action: a created record must carry the asked-for name, kind and value;
/// an updated record must be the addressed one and carry the asked-for
/// value or flag. The provider occasionally signals success while silently
/// not applying the change, and this is the check that catches it. A
/// deletion returns no record, so there is nothing to hold against it.
pub open spec fn spec_applied(action: SpecAction, response: SpecRecord) -> bool {
    match action {
        SpecAction::Create { name, value, kind, .. } => response.domain_name == name
            && response.record_type == kind && response.value == value,
        SpecAction::SetValue { id, value } => response.id == id && response.value == value,
        SpecAction::SetProxied { id, proxied } => response.id == id && response.proxied == proxied,
        SpecAction::Delete { .. } => true,
    }
}

/// Judge the record a successful mutate call returned against the action's
/// intent: a response that does not carry the intent is a mismatch, never
/// a silent success.
pub fn judge_response(action: &Action, response: &Record) -> (o: Outcome)
    ensures
        o == if spec_applied(action@, response@) {
            Outcome::Applied
        } else {
            Outcome::Mismatch
        },
{
    let applied = match action {
        Action::Create { name, value, kind, .. } => {
            response.domain_name == *name && response.record_type == *kind && response.value
                == *value
        },
        Action::SetValue { id, value } => response.id == *id && response.value == *value,
        Action::SetProxied { id, proxied } => response.id == *id && response.proxied == *proxied,
        Action::Delete { .. } => true,
    };
    if applied {
        Outcome::Applied
    } else {
        Outcome::Mismatch
    }
}

/// Judge the whole result of a create or update call: a hard error carries
/// its classification, and a returned record is held against the intent.
pub fn judge_result(action: &Action, result: &Result<Record, Error>) -> (o: Outcome)
    ensures
        o == match result {
            Ok(response) => if spec_applied(action@, response@) {
                Outcome::Applied
            } else {
                Outcome::Mismatch
            },
            Err(e) => Outcome::Failed(*e),
        },
{
    match result {
        Ok(response) => judge_response(action, response),
        Err(e) => Outcome::Failed(*e),
    }
}

/// Judge the result of a delete call: success is the absence of an error.
pub fn judge_delete_result(result: &Result<(), Error>) -> (o: Outcome)
    ensures
        o == match result {
            Ok(_) => Outcome::Applied,
            Err(e) => Outcome::Failed(*e),
        },
{
    match result {
        Ok(_) => Outcome::Applied,
        Err(e) => Outcome::Failed(*e),
    }
}

/// Whether one desired entry already has what it asks for in the live
/// records: with its address available, its first match exists and carries
/// that address; with its address unavailable, hiding (if asked for) has
/// nothing left to delete.
pub open spec fn spec_domain_converged(
    desired: SpecDomainName,
    records: Seq<SpecRecord>,
    ip: SpecIp,
    unavailable_hide: bool,
) -> bool {
    match spec_address_for(ip, desired.record_type) {
        Some(address) => spec_find(records, desired) matches Some(i) && records[i].value
            == address,
        None => unavailable_hide ==> spec_find(records, desired) is None,
    }
}

/// Whether the live records already are the state the desired entries
/// converge on.
pub open spec fn spec_converged(
    domains: Seq<SpecDomainName>,
    records: Seq<SpecRecord>,
    ip: SpecIp,
    unavailable_hide: bool,
) -> bool {
    forall|k: int|
        0 <= k < domains.len() ==> spec_domain_converged(
            domains[k],
            records,
            ip,
            unavailable_hide,
        )
}

/// Law: address reconciliation is idempotent. On a live record set already
/// equal to the desired converged state, the plan holds no mutating call
/// at all, so a second run over unchanged inputs does nothing.
pub proof fn lemma_plan_address_idempotent(
    domains: Seq<SpecDomainName>,
    records: Seq<SpecRecord>,
    ip: SpecIp,
    unavailable_hide: bool,
)
    requires
        spec_converged(domains, records, ip, unavailable_hide),
    ensures
        spec_plan(domains, records, ip, unavailable_hide) == Seq::<SpecAction>::empty(),
    decreases domains.len(),
{
    if domains.len() > 0 {
        let prefix = domains.drop_last();
        assert(forall|k: int|
            0 <= k < prefix.len() ==> prefix[k] == domains[k]);
        lemma_plan_address_idempotent(prefix, records, ip, unavailable_hide);
        assert(spec_domain_converged(domains.last(), records, ip, unavailable_hide));
        assert(spec_decide(domains.last(), records, ip, unavailable_hide) is None);
        assert(spec_plan(domains, records, ip, unavailable_hide) =~= Seq::<SpecAction>::empty());
    }
}

/// Law: matching is keyed by the pair `(name, kind)` alone, so two live
/// records sharing a name but differing in kind never both match one
/// desired entry.
pub proof fn lemma_matching_keyed_by_name_and_kind(
    desired: SpecDomainName,
    r1: SpecRecord,
    r2: SpecRecord,
)
    requires
        r1.domain_name == r2.domain_name,
        r1.record_type != r2.record_type,
    ensures
        !(spec_matches(desired, r1) && spec_matches(desired, r2)),
{
}

/// Law: when a desired entry's stack is absent but a live record matches,
/// hiding deletes exactly that record — the matched one, by its id — and
/// without hiding no call is issued at all.
pub proof fn lemma_unavailable_hide(
    desired: SpecDomainName,
    records: Seq<SpecRecord>,
    ip: SpecIp,
)
    requires
        spec_address_for(ip, desired.record_type) is None,
        spec_find(records, desired) is Some,
    ensures
        spec_decide(desired, records, ip, true) == Some(
            SpecAction::Delete { id: records[spec_find(records, desired)->Some_0].id },
        ),
        spec_decide(desired, records, ip, false) is None,
{
}

} // verus!
