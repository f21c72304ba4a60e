use crate::manifest::ConfigMap;
use crate::manifest::Deployment;
use crate::manifest::HttpRoute;
use crate::manifest::ObjectMeta;
use crate::manifest::ObjectMetaView;
use crate::manifest::PersistentVolumeClaim;
use crate::manifest::Resource;
use crate::manifest::ResourceView;
use crate::manifest::Service;
use crate::manifest::ServiceAccount;
use vstd::prelude::*;
use vstd::string::StringExecFns;

verus! {

/// The kind of a resource as its manifest names it.
pub open spec fn kind_name_of(resource: ResourceView) -> Seq<char> {
    match resource {
        ResourceView::Deployment(_) => "Deployment"@,
        ResourceView::Service(_) => "Service"@,
        ResourceView::ConfigMap(_) => "ConfigMap"@,
        ResourceView::ServiceAccount(_) => "ServiceAccount"@,
        ResourceView::PersistentVolumeClaim(_) => "PersistentVolumeClaim"@,
        ResourceView::HttpRoute(_) => "HTTPRoute"@,
    }
}

/// The metadata of a resource.
pub open spec fn metadata_of(resource: ResourceView) -> ObjectMetaView {
    match resource {
        ResourceView::Deployment(d) => d.metadata,
        ResourceView::Service(s) => s.metadata,
        ResourceView::ConfigMap(c) => c.metadata,
        ResourceView::ServiceAccount(a) => a.metadata,
        ResourceView::PersistentVolumeClaim(p) => p.metadata,
        ResourceView::HttpRoute(h) => h.metadata,
    }
}

/// A name behind the name of an application and a hyphen.
pub open spec fn prefixed_name_of(app_name: Seq<char>, name: Seq<char>) -> Seq<char> {
    app_name + "-"@ + name
}

/// Metadata whose name, where it has one, stands behind the name of an
/// application; labels and annotations are as before.
pub open spec fn prefixed_metadata_of(meta: ObjectMetaView, app_name: Seq<char>) -> ObjectMetaView {
    ObjectMetaView {
        name: match meta.name {
            Some(n) => Some(prefixed_name_of(app_name, n)),
            None => None,
        },
        ..meta
    }
}

/// A resource whose name stands behind the name of an application;
/// everything but the name is as before.
pub open spec fn prefixed_resource_of(resource: ResourceView, app_name: Seq<char>) -> ResourceView {
    match resource {
        ResourceView::Deployment(d) => ResourceView::Deployment(
            crate::manifest::DeploymentView {
                metadata: prefixed_metadata_of(d.metadata, app_name),
                ..d
            },
        ),
        ResourceView::Service(s) => ResourceView::Service(
            crate::manifest::ServiceView {
                metadata: prefixed_metadata_of(s.metadata, app_name),
                ..s
            },
        ),
        ResourceView::ConfigMap(c) => ResourceView::ConfigMap(
            crate::manifest::ConfigMapView {
                metadata: prefixed_metadata_of(c.metadata, app_name),
                ..c
            },
        ),
        ResourceView::ServiceAccount(a) => ResourceView::ServiceAccount(
            crate::manifest::ServiceAccountView {
                metadata: prefixed_metadata_of(a.metadata, app_name),
                ..a
            },
        ),
        ResourceView::PersistentVolumeClaim(p) => ResourceView::PersistentVolumeClaim(
            crate::manifest::PersistentVolumeClaimView {
                metadata: prefixed_metadata_of(p.metadata, app_name),
                ..p
            },
        ),
        ResourceView::HttpRoute(h) => ResourceView::HttpRoute(
            crate::manifest::HttpRouteView {
                metadata: prefixed_metadata_of(h.metadata, app_name),
                ..h
            },
        ),
    }
}

/// The name of the file that holds a resource: its kind, a hyphen, its
/// name, and the ending `.json`. A resource without a name counts as
/// `unnamed`.
pub open spec fn file_name_of(resource: ResourceView) -> Seq<char> {
    let name = match metadata_of(resource).name {
        Some(n) => n,
        None => "unnamed"@,
    };
    kind_name_of(resource) + "-"@ + name + ".json"@
}

/// The kind of a resource as its manifest names it.
pub fn kind_name(resource: &Resource) -> (r: &'static str)
    ensures
        r@ == kind_name_of(resource@),
{
    match resource {
        Resource::Deployment(_) => "Deployment",
        Resource::Service(_) => "Service",
        Resource::ConfigMap(_) => "ConfigMap",
        Resource::ServiceAccount(_) => "ServiceAccount",
        Resource::PersistentVolumeClaim(_) => "PersistentVolumeClaim",
        Resource::HttpRoute(_) => "HTTPRoute",
    }
}

/// The metadata of a resource.
pub fn metadata(resource: &Resource) -> (r: &ObjectMeta)
    ensures
        r@ == metadata_of(resource@),
{
    match resource {
        Resource::Deployment(d) => &d.metadata,
        Resource::Service(s) => &s.metadata,
        Resource::ConfigMap(c) => &c.metadata,
        Resource::ServiceAccount(a) => &a.metadata,
        Resource::PersistentVolumeClaim(p) => &p.metadata,
        Resource::HttpRoute(h) => &h.metadata,
    }
}

/// `name` behind `app_name` and a hyphen.
pub fn prefixed_name(app_name: &str, name: &str) -> (r: String)
    ensures
        r@ == prefixed_name_of(app_name@, name@),
{
    app_name.to_string().concat("-").concat(name)
}

fn prefix_metadata(meta: ObjectMeta, app_name: &str) -> (r: ObjectMeta)
    ensures
        r@ == prefixed_metadata_of(meta@, app_name@),
{
    let name = match &meta.name {
        Some(n) => Some(prefixed_name(app_name, n.as_str())),
        None => None,
    };
    ObjectMeta { name, labels: meta.labels, annotations: meta.annotations }
}

/// Puts the name of an application before the name of a resource. Labels,
/// selectors and everything else stay as they are.
pub fn prefix_resource(resource: Resource, app_name: &str) -> (r: Resource)
    ensures
        r@ == prefixed_resource_of(resource@, app_name@),
{
    match resource {
        Resource::Deployment(d) => Resource::Deployment(
            Deployment { metadata: prefix_metadata(d.metadata, app_name), spec: d.spec },
        ),
        Resource::Service(s) => Resource::Service(
            Service { metadata: prefix_metadata(s.metadata, app_name), spec: s.spec },
        ),
        Resource::ConfigMap(c) => Resource::ConfigMap(
            ConfigMap { metadata: prefix_metadata(c.metadata, app_name), data: c.data },
        ),
        Resource::ServiceAccount(a) => Resource::ServiceAccount(
            ServiceAccount {
                metadata: prefix_metadata(a.metadata, app_name),
                automount_service_account_token: a.automount_service_account_token,
                secrets: a.secrets,
            },
        ),
        Resource::PersistentVolumeClaim(p) => Resource::PersistentVolumeClaim(
            PersistentVolumeClaim { metadata: prefix_metadata(p.metadata, app_name), spec: p.spec },
        ),
        Resource::HttpRoute(h) => Resource::HttpRoute(
            HttpRoute { metadata: prefix_metadata(h.metadata, app_name), spec: h.spec },
        ),
    }
}

/// The name of the file that holds a resource.
pub fn resource_filename(resource: &Resource) -> (r: String)
    ensures
        r@ == file_name_of(resource@),
{
    let kind = kind_name(resource).to_string().concat("-");
    let named = match &metadata(resource).name {
        Some(n) => kind.concat(n.as_str()),
        None => kind.concat("unnamed"),
    };
    named.concat(".json")
}

} // verus!
