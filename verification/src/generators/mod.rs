pub mod common;
pub mod configmap;
pub mod deployment;
pub mod http_route;
pub mod pvc;
pub mod service;
pub mod service_account;

use crate::generators::configmap::config_map_of;
use crate::generators::configmap::ConfigMapGenerator;
use crate::generators::deployment::deployment_of;
use crate::generators::deployment::DeploymentGenerator;
use crate::generators::http_route::http_route_of;
use crate::generators::http_route::HttpRouteGenerator;
use crate::generators::pvc::claim_of;
use crate::generators::pvc::PvcGenerator;
use crate::generators::service::service_of;
use crate::generators::service::ServiceGenerator;
use crate::generators::service_account::service_account_of;
use crate::generators::service_account::ServiceAccountGenerator;
use crate::manifest::Resource;
use crate::named::distinct_names;
use crate::named::lemma_lookup_at;
use crate::manifest::ResourceView;
use crate::named::lookup;
use crate::text::same_text;
use crate::values::ConfigMap;
use crate::values::Controller;
use crate::values::PersistenceItem;
use crate::values::Route;
use crate::values::Service;
use crate::values::ServiceAccount;
use crate::values::Values;
use vstd::prelude::*;

verus! {

/// A generator of one kind of resource: from the configuration and the name
/// of an entry it makes the entry's resource, or nothing where the entry is
/// missing, disabled or of another kind.
pub trait ResourceGenerator {
    type Output;

    fn generate(&self, values: &Values, name: &str) -> Option<Self::Output>;
}

/// The kinds of resource for which there is a generator.
#[derive(Debug, Clone, Copy, PartialEq, Eq)]
pub enum ResourceKind {
    Deployment,
    Service,
    ConfigMap,
    ServiceAccount,
    PersistentVolumeClaim,
    HttpRoute,
}

/// Whether the generation of all resources covers the kind. Routes have a
/// generator, but it is not called on.
pub open spec fn is_wired(kind: ResourceKind) -> bool {
    kind != ResourceKind::HttpRoute
}

/// The number of entries from which resources of the kind are made.
pub open spec fn entry_count_of(values: Values, kind: ResourceKind) -> nat {
    match kind {
        ResourceKind::Deployment => values.controllers@.len(),
        ResourceKind::Service => values.service@.len(),
        ResourceKind::ConfigMap => values.config_maps@.len(),
        ResourceKind::ServiceAccount => values.service_account@.len(),
        ResourceKind::PersistentVolumeClaim => values.persistence@.len(),
        ResourceKind::HttpRoute => values.route@.len(),
    }
}

/// The name of the entry at position `i` among those of the kind.
pub open spec fn entry_name_of(values: Values, kind: ResourceKind, i: int) -> Seq<char> {
    match kind {
        ResourceKind::Deployment => values.controllers@[i].0,
        ResourceKind::Service => values.service@[i].0,
        ResourceKind::ConfigMap => values.config_maps@[i].0,
        ResourceKind::ServiceAccount => values.service_account@[i].0,
        ResourceKind::PersistentVolumeClaim => values.persistence@[i].0,
        ResourceKind::HttpRoute => values.route@[i].0,
    }
}

/// Whether the entry at position `i` among those of the kind is enabled.
pub open spec fn is_enabled(values: Values, kind: ResourceKind, i: int) -> bool {
    match kind {
        ResourceKind::Deployment => values.controllers@[i].1.enabled,
        ResourceKind::Service => values.service@[i].1.enabled,
        ResourceKind::ConfigMap => values.config_maps@[i].1.enabled,
        ResourceKind::ServiceAccount => values.service_account@[i].1.enabled,
        ResourceKind::PersistentVolumeClaim => values.persistence@[i].1.enabled,
        ResourceKind::HttpRoute => values.route@[i].1.enabled,
    }
}

/// Whether the entry at position `i` is of the generator's kind, where
/// entries have a kind of their own: a controller of the deployment kind, a
/// persistence entry of the claim kind.
pub open spec fn is_of_kind(values: Values, kind: ResourceKind, i: int) -> bool {
    match kind {
        ResourceKind::Deployment => values.controllers@[i].1.type_@ == "deployment"@,
        ResourceKind::PersistentVolumeClaim => values.persistence@[i].1.type_@ == "pvc"@,
        _ => true,
    }
}

/// Whether the entry at position `i` has what its resource cannot be
/// without: a controller its containers, a service its ports.
pub open spec fn has_content(values: Values, kind: ResourceKind, i: int) -> bool {
    match kind {
        ResourceKind::Deployment => values.controllers@[i].1.containers@.len() > 0,
        ResourceKind::Service => values.service@[i].1.ports@.len() > 0,
        _ => true,
    }
}

/// Whether the entry at position `i` is one for the generator of the kind:
/// it is enabled and of the generator's kind.
pub open spec fn is_eligible(values: Values, kind: ResourceKind, i: int) -> bool {
    is_enabled(values, kind, i) && is_of_kind(values, kind, i)
}

/// Whether no name occurs twice among the entries of the kind, as is the
/// case in every configuration that was built.
pub open spec fn names_are_distinct(values: Values, kind: ResourceKind) -> bool {
    match kind {
        ResourceKind::Deployment => distinct_names(values.controllers@),
        ResourceKind::Service => distinct_names(values.service@),
        ResourceKind::ConfigMap => distinct_names(values.config_maps@),
        ResourceKind::ServiceAccount => distinct_names(values.service_account@),
        ResourceKind::PersistentVolumeClaim => distinct_names(values.persistence@),
        ResourceKind::HttpRoute => distinct_names(values.route@),
    }
}

/// What the generator of the kind yields for the entry `name`.
pub open spec fn generated_for(values: Values, kind: ResourceKind, name: Seq<char>) -> Option<
    ResourceView,
> {
    match kind {
        ResourceKind::Deployment => match deployment_of(values, name) {
            Some(d) => Some(ResourceView::Deployment(d)),
            None => None,
        },
        ResourceKind::Service => match service_of(values, name) {
            Some(s) => Some(ResourceView::Service(s)),
            None => None,
        },
        ResourceKind::ConfigMap => match config_map_of(values, name) {
            Some(c) => Some(ResourceView::ConfigMap(c)),
            None => None,
        },
        ResourceKind::ServiceAccount => match service_account_of(values, name) {
            Some(a) => Some(ResourceView::ServiceAccount(a)),
            None => None,
        },
        ResourceKind::PersistentVolumeClaim => match claim_of(values, name) {
            Some(p) => Some(ResourceView::PersistentVolumeClaim(p)),
            None => None,
        },
        ResourceKind::HttpRoute => match http_route_of(values, name) {
            Some(h) => Some(ResourceView::HttpRoute(h)),
            None => None,
        },
    }
}

/// The resource of the entry at position `i` among those of the kind: what
/// the generator yields for its name where the entry is eligible, else
/// nothing.
pub open spec fn slot_at(values: Values, kind: ResourceKind, i: int) -> Option<ResourceView> {
    if is_eligible(values, kind, i) {
        generated_for(values, kind, entry_name_of(values, kind, i))
    } else {
        None
    }
}

/// One slot for each entry of the kind, in the order of the configuration.
pub open spec fn slots_of(values: Values, kind: ResourceKind) -> Seq<Option<ResourceView>> {
    Seq::new(entry_count_of(values, kind), |i: int| slot_at(values, kind, i))
}

/// What is there, in order: the values of the slots that hold one.
pub open spec fn present(slots: Seq<Option<ResourceView>>) -> Seq<ResourceView>
    decreases slots.len(),
{
    if slots.len() == 0 {
        Seq::empty()
    } else {
        match slots.last() {
            Some(r) => present(slots.drop_last()).push(r),
            None => present(slots.drop_last()),
        }
    }
}

/// The resources of one kind, in the order of their entries.
pub open spec fn group_of(values: Values, kind: ResourceKind) -> Seq<ResourceView> {
    present(slots_of(values, kind))
}

/// All resources of a configuration: the deployments, then the services,
/// the config maps, the service accounts and the claims, each group in the
/// order of its entries. Routes are not among them.
pub open spec fn resources_of(values: Values) -> Seq<ResourceView> {
    group_of(values, ResourceKind::Deployment) + group_of(values, ResourceKind::Service)
        + group_of(values, ResourceKind::ConfigMap) + group_of(
        values,
        ResourceKind::ServiceAccount,
    ) + group_of(values, ResourceKind::PersistentVolumeClaim)
}

/// Taking one slot more adds that slot's value, where it holds one.
proof fn lemma_present_step(slots: Seq<Option<ResourceView>>, i: int)
    requires
        0 <= i < slots.len(),
    ensures
        present(slots.take(i + 1)) == match slots[i] {
            Some(r) => present(slots.take(i)).push(r),
            None => present(slots.take(i)),
        },
{
    assert(slots.take(i + 1).drop_last() =~= slots.take(i));
}

/// The kind of a resource.
pub open spec fn kind_of(resource: ResourceView) -> ResourceKind {
    match resource {
        ResourceView::Deployment(_) => ResourceKind::Deployment,
        ResourceView::Service(_) => ResourceKind::Service,
        ResourceView::ConfigMap(_) => ResourceKind::ConfigMap,
        ResourceView::ServiceAccount(_) => ResourceKind::ServiceAccount,
        ResourceView::PersistentVolumeClaim(_) => ResourceKind::PersistentVolumeClaim,
        ResourceView::HttpRoute(_) => ResourceKind::HttpRoute,
    }
}

/// A disabled entry yields no resource: its slot is empty, and so is what
/// the generator of its kind makes of its name.
pub proof fn lemma_disabled_entry_yields_nothing(values: Values, kind: ResourceKind, i: int)
    requires
        0 <= i < entry_count_of(values, kind),
        names_are_distinct(values, kind),
        !is_enabled(values, kind, i),
    ensures
        slot_at(values, kind, i) is None,
        generated_for(values, kind, entry_name_of(values, kind, i)) is None,
{
    lemma_entry_is_found(values, kind, i);
}

/// An enabled entry of the generator's kind that has its content yields
/// exactly one resource, of that kind.
pub proof fn lemma_eligible_entry_yields_one(values: Values, kind: ResourceKind, i: int)
    requires
        0 <= i < entry_count_of(values, kind),
        names_are_distinct(values, kind),
        is_eligible(values, kind, i),
        has_content(values, kind, i),
    ensures
        slot_at(values, kind, i) is Some,
        kind_of(slot_at(values, kind, i)->0) == kind,
{
    lemma_entry_is_found(values, kind, i);
}

/// An entry of another kind than its generator's, or without its content,
/// yields no resource.
pub proof fn lemma_unfit_entry_yields_nothing(values: Values, kind: ResourceKind, i: int)
    requires
        0 <= i < entry_count_of(values, kind),
        names_are_distinct(values, kind),
        !is_of_kind(values, kind, i) || !has_content(values, kind, i),
    ensures
        slot_at(values, kind, i) is None,
        generated_for(values, kind, entry_name_of(values, kind, i)) is None,
{
    lemma_entry_is_found(values, kind, i);
}

/// Among entries with distinct names, the name of the entry at `i` finds
/// that entry.
proof fn lemma_entry_is_found(values: Values, kind: ResourceKind, i: int)
    requires
        0 <= i < entry_count_of(values, kind),
        names_are_distinct(values, kind),
    ensures
        match kind {
            ResourceKind::Deployment => lookup(values.controllers@, values.controllers@[i].0)
                == Some(values.controllers@[i].1),
            ResourceKind::Service => lookup(values.service@, values.service@[i].0) == Some(
                values.service@[i].1,
            ),
            ResourceKind::ConfigMap => lookup(values.config_maps@, values.config_maps@[i].0)
                == Some(values.config_maps@[i].1),
            ResourceKind::ServiceAccount => lookup(
                values.service_account@,
                values.service_account@[i].0,
            ) == Some(values.service_account@[i].1),
            ResourceKind::PersistentVolumeClaim => lookup(
                values.persistence@,
                values.persistence@[i].0,
            ) == Some(values.persistence@[i].1),
            ResourceKind::HttpRoute => lookup(values.route@, values.route@[i].0) == Some(
                values.route@[i].1,
            ),
        },
{
    match kind {
        ResourceKind::Deployment => lemma_lookup_at(values.controllers@, i),
        ResourceKind::Service => lemma_lookup_at(values.service@, i),
        ResourceKind::ConfigMap => lemma_lookup_at(values.config_maps@, i),
        ResourceKind::ServiceAccount => lemma_lookup_at(values.service_account@, i),
        ResourceKind::PersistentVolumeClaim => lemma_lookup_at(values.persistence@, i),
        ResourceKind::HttpRoute => lemma_lookup_at(values.route@, i),
    }
}

/// What holds of every filled slot holds of everything that is present.
proof fn lemma_present_keeps(
    slots: Seq<Option<ResourceView>>,
    holds: spec_fn(ResourceView) -> bool,
)
    requires
        forall|i: int| 0 <= i < slots.len() && slots[i] is Some ==> holds(slots[i]->0),
    ensures
        forall|j: int| 0 <= j < present(slots).len() ==> holds(#[trigger] present(slots)[j]),
    decreases slots.len(),
{
    if slots.len() > 0 {
        let rest = slots.drop_last();
        assert forall|i: int| 0 <= i < rest.len() && rest[i] is Some implies holds(rest[i]->0) by {
            assert(rest[i] == slots[i]);
        }
        lemma_present_keeps(rest, holds);
        assert forall|j: int| 0 <= j < present(slots).len() implies holds(
            #[trigger] present(slots)[j],
        ) by {
            if j < present(rest).len() {
                assert(present(slots)[j] == present(rest)[j]);
            } else {
                assert(slots[slots.len() - 1] == Some(present(slots)[j]));
            }
        }
    }
}

/// Every resource of a group is of the group's kind.
pub proof fn lemma_group_is_of_its_kind(values: Values, kind: ResourceKind)
    ensures
        forall|j: int|
            0 <= j < group_of(values, kind).len() ==> kind_of(#[trigger] group_of(values, kind)[j])
                == kind,
{
    lemma_present_keeps(slots_of(values, kind), |r: ResourceView| kind_of(r) == kind);
}

/// Whether a resource has a name and, among its labels, the two standard
/// ones.
pub open spec fn carries_standard_labels(resource: ResourceView) -> bool {
    let meta = crate::output::metadata_of(resource);
    &&& meta.name is Some
    &&& meta.labels is Some
    &&& meta.labels->0.contains_key("app.kubernetes.io/name"@)
    &&& meta.labels->0.contains_key("app.kubernetes.io/instance"@)
}

/// Whatever a generator yields has a name and carries the two standard
/// labels.
pub proof fn lemma_generated_carries_standard_labels(
    values: Values,
    kind: ResourceKind,
    name: Seq<char>,
)
    requires
        generated_for(values, kind, name) is Some,
    ensures
        carries_standard_labels(generated_for(values, kind, name)->0),
{
}

/// Every generated resource has a name and carries the two standard labels.
pub proof fn lemma_resources_carry_standard_labels(values: Values)
    ensures
        forall|j: int|
            0 <= j < resources_of(values).len() ==> carries_standard_labels(
                #[trigger] resources_of(values)[j],
            ),
{
    lemma_group_carries_standard_labels(values, ResourceKind::Deployment);
    lemma_group_carries_standard_labels(values, ResourceKind::Service);
    lemma_group_carries_standard_labels(values, ResourceKind::ConfigMap);
    lemma_group_carries_standard_labels(values, ResourceKind::ServiceAccount);
    lemma_group_carries_standard_labels(values, ResourceKind::PersistentVolumeClaim);
}

proof fn lemma_group_carries_standard_labels(values: Values, kind: ResourceKind)
    ensures
        forall|j: int|
            0 <= j < group_of(values, kind).len() ==> carries_standard_labels(
                #[trigger] group_of(values, kind)[j],
            ),
{
    let slots = slots_of(values, kind);
    assert forall|i: int| 0 <= i < slots.len() && slots[i] is Some implies carries_standard_labels(
        slots[i]->0,
    ) by {
        lemma_generated_carries_standard_labels(values, kind, entry_name_of(values, kind, i));
    }
    lemma_present_keeps(slots, |r: ResourceView| carries_standard_labels(r));
}

/// The generation of all resources makes no route: every resource is of a
/// kind that is wired.
pub proof fn lemma_no_route_is_generated(values: Values)
    ensures
        forall|j: int|
            0 <= j < resources_of(values).len() ==> is_wired(
                kind_of(#[trigger] resources_of(values)[j]),
            ),
{
    lemma_group_is_of_its_kind(values, ResourceKind::Deployment);
    lemma_group_is_of_its_kind(values, ResourceKind::Service);
    lemma_group_is_of_its_kind(values, ResourceKind::ConfigMap);
    lemma_group_is_of_its_kind(values, ResourceKind::ServiceAccount);
    lemma_group_is_of_its_kind(values, ResourceKind::PersistentVolumeClaim);
}

/// A configuration without entries yields no resource.
pub proof fn lemma_blank_configuration_yields_nothing(values: Values)
    requires
        values.is_blank(),
    ensures
        resources_of(values) == Seq::<ResourceView>::empty(),
{
}

/// Generation is repeatable: two runs on one configuration give the same
/// resources in the same order.
pub proof fn lemma_generation_is_repeatable(
    values: Values,
    first: Vec<Resource>,
    second: Vec<Resource>,
)
    requires
        first.deep_view() == resources_of(values),
        second.deep_view() == resources_of(values),
    ensures
        first.deep_view() == second.deep_view(),
{
}

/// Whether `after` is `before` with the disabled entry at position `i`
/// among those of the kind enabled, and all else equal.
pub open spec fn enables(before: Values, after: Values, kind: ResourceKind, i: int) -> bool {
    match kind {
        ResourceKind::Deployment => {
            let (name, entry) = before.controllers@[i];
            &&& !entry.enabled
            &&& after == Values { controllers: after.controllers, ..before }
            &&& after.controllers@ == before.controllers@.update(
                i,
                (name, Controller { enabled: true, ..entry }),
            )
        },
        ResourceKind::Service => {
            let (name, entry) = before.service@[i];
            &&& !entry.enabled
            &&& after == Values { service: after.service, ..before }
            &&& after.service@ == before.service@.update(
                i,
                (name, Service { enabled: true, ..entry }),
            )
        },
        ResourceKind::ConfigMap => {
            let (name, entry) = before.config_maps@[i];
            &&& !entry.enabled
            &&& after == Values { config_maps: after.config_maps, ..before }
            &&& after.config_maps@ == before.config_maps@.update(
                i,
                (name, ConfigMap { enabled: true, ..entry }),
            )
        },
        ResourceKind::ServiceAccount => {
            let (name, entry) = before.service_account@[i];
            &&& !entry.enabled
            &&& after == Values { service_account: after.service_account, ..before }
            &&& after.service_account@ == before.service_account@.update(
                i,
                (name, ServiceAccount { enabled: true, ..entry }),
            )
        },
        ResourceKind::PersistentVolumeClaim => {
            let (name, entry) = before.persistence@[i];
            &&& !entry.enabled
            &&& after == Values { persistence: after.persistence, ..before }
            &&& after.persistence@ == before.persistence@.update(
                i,
                (name, PersistenceItem { enabled: true, ..entry }),
            )
        },
        ResourceKind::HttpRoute => {
            let (name, entry) = before.route@[i];
            &&& !entry.enabled
            &&& after == Values { route: after.route, ..before }
            &&& after.route@ == before.route@.update(i, (name, Route { enabled: true, ..entry }))
        },
    }
}

/// Filling an empty slot makes what is present longer by one.
proof fn lemma_present_filled(slots: Seq<Option<ResourceView>>, i: int, r: ResourceView)
    requires
        0 <= i < slots.len(),
        slots[i] is None,
    ensures
        present(slots.update(i, Some(r))).len() == present(slots).len() + 1,
    decreases slots.len(),
{
    let filled = slots.update(i, Some(r));
    if i == slots.len() - 1 {
        assert(filled.drop_last() =~= slots.drop_last());
    } else {
        lemma_present_filled(slots.drop_last(), i, r);
        assert(filled.drop_last() =~= slots.drop_last().update(i, Some(r)));
    }
}

/// Whether two configurations agree in what every generator draws on
/// besides its own entries: the global settings, the default pod options
/// and the strategy by which pod options are combined.
pub open spec fn same_setting(a: Values, b: Values) -> bool {
    &&& a.global == b.global
    &&& a.default_pod_options == b.default_pod_options
    &&& a.default_pod_options_strategy == b.default_pod_options_strategy
}

/// Whether `name` finds the same entry of the kind in two configurations.
pub open spec fn same_entry(a: Values, b: Values, kind: ResourceKind, name: Seq<char>) -> bool {
    match kind {
        ResourceKind::Deployment => lookup(a.controllers@, name) == lookup(b.controllers@, name),
        ResourceKind::Service => lookup(a.service@, name) == lookup(b.service@, name),
        ResourceKind::ConfigMap => lookup(a.config_maps@, name) == lookup(b.config_maps@, name),
        ResourceKind::ServiceAccount => lookup(a.service_account@, name) == lookup(
            b.service_account@,
            name,
        ),
        ResourceKind::PersistentVolumeClaim => lookup(a.persistence@, name) == lookup(
            b.persistence@,
            name,
        ),
        ResourceKind::HttpRoute => lookup(a.route@, name) == lookup(b.route@, name),
    }
}

/// No resource depends on another: what a generator yields for a name is
/// settled by the setting and the entry that the name finds.
pub proof fn lemma_generated_from_setting_and_entry(
    a: Values,
    b: Values,
    kind: ResourceKind,
    name: Seq<char>,
)
    requires
        same_setting(a, b),
        same_entry(a, b, kind, name),
    ensures
        generated_for(a, kind, name) == generated_for(b, kind, name),
{
    match kind {
        ResourceKind::Deployment => {
            assert(deployment_of(a, name) == deployment_of(b, name));
        },
        ResourceKind::Service => {
            assert(service_of(a, name) == service_of(b, name));
        },
        ResourceKind::ConfigMap => {
            assert(config_map_of(a, name) == config_map_of(b, name));
        },
        ResourceKind::ServiceAccount => {
            assert(service_account_of(a, name) == service_account_of(b, name));
        },
        ResourceKind::PersistentVolumeClaim => {
            assert(claim_of(a, name) == claim_of(b, name));
        },
        ResourceKind::HttpRoute => {
            assert(http_route_of(a, name) == http_route_of(b, name));
        },
    }
}

/// Enabling an entry changes no slot but its own.
proof fn lemma_enabling_keeps_other_slots(
    before: Values,
    after: Values,
    kind: ResourceKind,
    i: int,
    other: ResourceKind,
    j: int,
)
    requires
        0 <= i < entry_count_of(before, kind),
        names_are_distinct(before, kind),
        enables(before, after, kind, i),
        0 <= j < entry_count_of(before, other),
        other != kind || j != i,
    ensures
        entry_count_of(after, other) == entry_count_of(before, other),
        slot_at(after, other, j) == slot_at(before, other, j),
{
    lemma_names_stay_distinct(before, after, kind, i);
    let name = entry_name_of(before, other, j);
    if other == kind {
        lemma_entry_is_found(before, kind, j);
        lemma_entry_is_found(after, kind, j);
    }
    lemma_generated_from_setting_and_entry(before, after, other, name);
}

/// Enabling an entry leaves the names of its kind distinct.
proof fn lemma_names_stay_distinct(before: Values, after: Values, kind: ResourceKind, i: int)
    requires
        0 <= i < entry_count_of(before, kind),
        names_are_distinct(before, kind),
        enables(before, after, kind, i),
    ensures
        names_are_distinct(after, kind),
        entry_count_of(after, kind) == entry_count_of(before, kind),
{
}

/// Enabling a disabled entry, all else equal, adds exactly one resource,
/// where the entry is of its generator's kind and has its content.
pub proof fn lemma_enabling_adds_one(before: Values, after: Values, kind: ResourceKind, i: int)
    requires
        is_wired(kind),
        0 <= i < entry_count_of(before, kind),
        names_are_distinct(before, kind),
        enables(before, after, kind, i),
        is_of_kind(before, kind, i),
        has_content(before, kind, i),
    ensures
        slot_at(before, kind, i) is None,
        slot_at(after, kind, i) is Some,
        resources_of(after).len() == resources_of(before).len() + 1,
{
    lemma_names_stay_distinct(before, after, kind, i);
    lemma_disabled_entry_yields_nothing(before, kind, i);
    lemma_eligible_entry_yields_one(after, kind, i);
    assert forall|other: ResourceKind| other != kind implies slots_of(after, other) == slots_of(
        before,
        other,
    ) by {
        assert forall|j: int| 0 <= j < entry_count_of(before, other) implies slot_at(
            after,
            other,
            j,
        ) == slot_at(before, other, j) by {
            lemma_enabling_keeps_other_slots(before, after, kind, i, other, j);
        }
    }
    assert forall|j: int| 0 <= j < entry_count_of(before, kind) && j != i implies slot_at(
        after,
        kind,
        j,
    ) == slot_at(before, kind, j) by {
        lemma_enabling_keeps_other_slots(before, after, kind, i, kind, j);
    }
    assert(slots_of(after, kind) =~= slots_of(before, kind).update(i, slot_at(after, kind, i)));
    lemma_present_filled(slots_of(before, kind), i, slot_at(after, kind, i)->0);
}

/// The number of entries from which resources of the kind are made.
pub fn entry_count(values: &Values, kind: ResourceKind) -> (r: usize)
    ensures
        r == entry_count_of(*values, kind),
{
    match kind {
        ResourceKind::Deployment => values.controllers.len(),
        ResourceKind::Service => values.service.len(),
        ResourceKind::ConfigMap => values.config_maps.len(),
        ResourceKind::ServiceAccount => values.service_account.len(),
        ResourceKind::PersistentVolumeClaim => values.persistence.len(),
        ResourceKind::HttpRoute => values.route.len(),
    }
}

/// The resource of the entry at position `i` among those of the kind, or
/// nothing where the entry is not eligible, the generator yields nothing,
/// or there is no such entry.
pub fn generate_at(values: &Values, kind: ResourceKind, i: usize) -> (r: Option<Resource>)
    ensures
        i < entry_count_of(*values, kind) ==> r.deep_view() == slot_at(*values, kind, i as int),
        i >= entry_count_of(*values, kind) ==> r is None,
{
    match kind {
        ResourceKind::Deployment => match values.controllers.entry(i) {
            Some((name, controller)) => {
                if controller.enabled && same_text(controller.type_.as_str(), "deployment") {
                    match DeploymentGenerator.generate(values, name.as_str()) {
                        Some(made) => Some(Resource::Deployment(made)),
                        None => None,
                    }
                } else {
                    None
                }
            },
            None => None,
        },
        ResourceKind::Service => match values.service.entry(i) {
            Some((name, service)) => {
                if service.enabled {
                    match ServiceGenerator.generate(values, name.as_str()) {
                        Some(made) => Some(Resource::Service(made)),
                        None => None,
                    }
                } else {
                    None
                }
            },
            None => None,
        },
        ResourceKind::ConfigMap => match values.config_maps.entry(i) {
            Some((name, config)) => {
                if config.enabled {
                    match ConfigMapGenerator.generate(values, name.as_str()) {
                        Some(made) => Some(Resource::ConfigMap(made)),
                        None => None,
                    }
                } else {
                    None
                }
            },
            None => None,
        },
        ResourceKind::ServiceAccount => match values.service_account.entry(i) {
            Some((name, account)) => {
                if account.enabled {
                    match ServiceAccountGenerator.generate(values, name.as_str()) {
                        Some(made) => Some(Resource::ServiceAccount(made)),
                        None => None,
                    }
                } else {
                    None
                }
            },
            None => None,
        },
        ResourceKind::PersistentVolumeClaim => match values.persistence.entry(i) {
            Some((name, item)) => {
                if item.enabled && same_text(item.type_.as_str(), "pvc") {
                    match PvcGenerator.generate(values, name.as_str()) {
                        Some(made) => Some(Resource::PersistentVolumeClaim(made)),
                        None => None,
                    }
                } else {
                    None
                }
            },
            None => None,
        },
        ResourceKind::HttpRoute => match values.route.entry(i) {
            Some((name, route)) => {
                if route.enabled {
                    match HttpRouteGenerator.generate(values, name.as_str()) {
                        Some(made) => Some(Resource::HttpRoute(made)),
                        None => None,
                    }
                } else {
                    None
                }
            },
            None => None,
        },
    }
}

/// Appends the resources of one kind, in the order of their entries.
pub fn append_group(values: &Values, kind: ResourceKind, resources: &mut Vec<Resource>)
    ensures
        final(resources).deep_view() == old(resources).deep_view() + group_of(*values, kind),
{
    let ghost slots = slots_of(*values, kind);
    let ghost before = resources.deep_view();
    let n: usize = entry_count(values, kind);
    let mut i: usize = 0;
    while i < n
        invariant
            n == entry_count_of(*values, kind),
            slots == slots_of(*values, kind),
            i <= n,
            resources.deep_view() == before + present(slots.take(i as int)),
        decreases n - i,
    {
        proof {
            lemma_present_step(slots, i as int);
        }
        let ghost so_far = resources.deep_view();
        match generate_at(values, kind, i) {
            Some(made) => {
                resources.push(made);
                assert(resources.deep_view() =~= so_far.push(made@));
            },
            None => {},
        }
        i += 1;
    }
    assert(slots.take(n as int) =~= slots);
}

/// Generates every resource of the configuration: for each eligible entry
/// what its generator yields. The groups come in a fixed order, the entries
/// of a group in the order of the configuration.
pub fn generate_all_resources(values: &Values) -> (r: Vec<Resource>)
    ensures
        r.deep_view() == resources_of(*values),
{
    let mut resources: Vec<Resource> = Vec::new();
    append_group(values, ResourceKind::Deployment, &mut resources);
    append_group(values, ResourceKind::Service, &mut resources);
    append_group(values, ResourceKind::ConfigMap, &mut resources);
    append_group(values, ResourceKind::ServiceAccount, &mut resources);
    append_group(values, ResourceKind::PersistentVolumeClaim, &mut resources);
    resources
}

} // verus!
