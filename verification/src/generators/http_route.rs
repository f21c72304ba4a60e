use crate::generators::common::generate_overlaid_metadata;
use crate::generators::common::overlaid_metadata_of;
use crate::generators::ResourceGenerator;
use crate::manifest::BackendRef;
use crate::manifest::BackendRefView;
use crate::manifest::HttpHeaderMatch;
use crate::manifest::HttpHeaderMatchView;
use crate::manifest::HttpPathMatch;
use crate::manifest::HttpPathMatchView;
use crate::manifest::HttpQueryParamMatch;
use crate::manifest::HttpQueryParamMatchView;
use crate::manifest::HttpRoute;
use crate::manifest::HttpRouteMatch;
use crate::manifest::HttpRouteMatchView;
use crate::manifest::HttpRouteRule;
use crate::manifest::HttpRouteRuleView;
use crate::manifest::HttpRouteSpec;
use crate::manifest::HttpRouteSpecView;
use crate::manifest::HttpRouteView;
use crate::manifest::ParentReference;
use crate::manifest::ParentReferenceView;
use crate::named::lookup;
use crate::text::copy_text;
use crate::text::copy_text_list;
use crate::values::Route;
use crate::values::RouteBackendRef;
use crate::values::RouteHeaderMatch;
use crate::values::RouteMatch;
use crate::values::RoutePathMatch;
use crate::values::RouteQueryParamMatch;
use crate::values::RouteRule;
use crate::values::Values;
use vstd::prelude::*;

verus! {

/// The generator of HTTP routes, from the route entries of the
/// configuration. The generation of all resources does not call on it.
pub struct HttpRouteGenerator;

/// A configured path condition as a condition of the route.
pub open spec fn path_match_of(path: Option<RoutePathMatch>) -> Option<HttpPathMatchView> {
    match path {
        Some(p) => Some(HttpPathMatchView { type_: Some(p.type_@), value: Some(p.value@) }),
        None => None,
    }
}

/// A configured header condition as a condition of the route.
pub open spec fn header_match_of(header: RouteHeaderMatch) -> HttpHeaderMatchView {
    HttpHeaderMatchView { type_: Some(header.type_@), name: header.name@, value: header.value@ }
}

/// The header conditions of a match, in their order, where any are given.
pub open spec fn header_matches_of(headers: Option<Vec<RouteHeaderMatch>>) -> Option<
    Seq<HttpHeaderMatchView>,
> {
    match headers {
        Some(hs) => Some(Seq::new(hs@.len(), |i: int| header_match_of(hs@[i]))),
        None => None,
    }
}

/// A configured query parameter condition as a condition of the route.
pub open spec fn query_param_match_of(param: RouteQueryParamMatch) -> HttpQueryParamMatchView {
    HttpQueryParamMatchView { type_: Some(param.type_@), name: param.name@, value: param.value@ }
}

/// The query parameter conditions of a match, in their order, where any
/// are given.
pub open spec fn query_param_matches_of(params: Option<Vec<RouteQueryParamMatch>>) -> Option<
    Seq<HttpQueryParamMatchView>,
> {
    match params {
        Some(ps) => Some(Seq::new(ps@.len(), |i: int| query_param_match_of(ps@[i]))),
        None => None,
    }
}

/// A configured match as a match of the route.
pub open spec fn route_match_of(m: RouteMatch) -> HttpRouteMatchView {
    HttpRouteMatchView {
        path: path_match_of(m.path),
        method: m.method.deep_view(),
        headers: header_matches_of(m.headers),
        query_params: query_param_matches_of(m.query_params),
    }
}

/// The matches of a rule, in their order, or nothing where the rule has none.
pub open spec fn route_matches_of(matches: Seq<RouteMatch>) -> Option<Seq<HttpRouteMatchView>> {
    if matches.len() == 0 {
        None
    } else {
        Some(Seq::new(matches.len(), |i: int| route_match_of(matches[i])))
    }
}

/// A configured backend as a backend of the route.
pub open spec fn backend_ref_of(backend: RouteBackendRef) -> BackendRefView {
    BackendRefView { name: backend.name@, port: backend.port, weight: backend.weight }
}

/// The backends of a rule, in their order.
pub open spec fn backend_refs_of(backends: Seq<RouteBackendRef>) -> Seq<BackendRefView> {
    Seq::new(backends.len(), |i: int| backend_ref_of(backends[i]))
}

/// A configured rule as a rule of the route. Filters are not carried over.
pub open spec fn route_rule_of(rule: RouteRule) -> HttpRouteRuleView {
    HttpRouteRuleView {
        matches: route_matches_of(rule.matches@),
        backend_refs: Some(backend_refs_of(rule.backend_refs@)),
    }
}

/// The rules of a route, in their order, or nothing where the route has none.
pub open spec fn route_rules_of(rules: Seq<RouteRule>) -> Option<Seq<HttpRouteRuleView>> {
    if rules.len() == 0 {
        None
    } else {
        Some(Seq::new(rules.len(), |i: int| route_rule_of(rules[i])))
    }
}

/// The host names of a route, or nothing where the route names none.
pub open spec fn hostnames_of(hosts: Seq<Seq<char>>) -> Option<Seq<Seq<char>>> {
    if hosts.len() == 0 {
        None
    } else {
        Some(hosts)
    }
}

/// The route of the entry `route`, entered under `name`: nothing where the
/// entry is disabled. Every route attaches to the gateway named `gateway`.
pub open spec fn http_route_for(values: Values, name: Seq<char>, route: Route) -> Option<
    HttpRouteView,
> {
    if !route.enabled {
        None
    } else {
        Some(
            HttpRouteView {
                metadata: overlaid_metadata_of(
                    values,
                    name,
                    "httproute"@,
                    route.labels@,
                    route.annotations@,
                ),
                spec: HttpRouteSpecView {
                    parent_refs: Some(seq![ParentReferenceView { name: Some("gateway"@) }]),
                    hostnames: hostnames_of(route.hosts.deep_view()),
                    rules: route_rules_of(route.rules@),
                },
            },
        )
    }
}

/// The route that the configuration yields for the entry `name`: nothing
/// where there is no such entry or it is disabled.
pub open spec fn http_route_of(values: Values, name: Seq<char>) -> Option<HttpRouteView> {
    match lookup(values.route@, name) {
        Some(route) => http_route_for(values, name, route),
        None => None,
    }
}

fn convert_path(path: &Option<RoutePathMatch>) -> (r: Option<HttpPathMatch>)
    ensures
        r.deep_view() == path_match_of(*path),
{
    match path {
        Some(p) => Some(
            HttpPathMatch { type_: Some(p.type_.clone()), value: Some(p.value.clone()) },
        ),
        None => None,
    }
}

fn convert_headers(headers: &Option<Vec<RouteHeaderMatch>>) -> (r: Option<Vec<HttpHeaderMatch>>)
    ensures
        r.deep_view() == header_matches_of(*headers),
{
    match headers {
        Some(hs) => {
            let n: usize = hs.len();
            let mut out: Vec<HttpHeaderMatch> = Vec::new();
            let mut i: usize = 0;
            while i < n
                invariant
                    n == hs@.len(),
                    i <= n,
                    out@.len() == i,
                    forall|j: int| 0 <= j < i ==> (#[trigger] out@[j])@ == header_match_of(hs@[j]),
                decreases n - i,
            {
                let h = &hs[i];
                out.push(
                    HttpHeaderMatch {
                        type_: Some(h.type_.clone()),
                        name: h.name.clone(),
                        value: h.value.clone(),
                    },
                );
                i += 1;
            }
            Some(out)
        },
        None => None,
    }
}

fn convert_query_params(params: &Option<Vec<RouteQueryParamMatch>>) -> (r: Option<
    Vec<HttpQueryParamMatch>,
>)
    ensures
        r.deep_view() == query_param_matches_of(*params),
{
    match params {
        Some(ps) => {
            let n: usize = ps.len();
            let mut out: Vec<HttpQueryParamMatch> = Vec::new();
            let mut i: usize = 0;
            while i < n
                invariant
                    n == ps@.len(),
                    i <= n,
                    out@.len() == i,
                    forall|j: int|
                        0 <= j < i ==> (#[trigger] out@[j])@ == query_param_match_of(ps@[j]),
                decreases n - i,
            {
                let q = &ps[i];
                out.push(
                    HttpQueryParamMatch {
                        type_: Some(q.type_.clone()),
                        name: q.name.clone(),
                        value: q.value.clone(),
                    },
                );
                i += 1;
            }
            Some(out)
        },
        None => None,
    }
}

fn convert_match(m: &RouteMatch) -> (r: HttpRouteMatch)
    ensures
        r@ == route_match_of(*m),
{
    HttpRouteMatch {
        path: convert_path(&m.path),
        method: copy_text(&m.method),
        headers: convert_headers(&m.headers),
        query_params: convert_query_params(&m.query_params),
    }
}

fn convert_matches(matches: &Vec<RouteMatch>) -> (r: Option<Vec<HttpRouteMatch>>)
    ensures
        r.deep_view() == route_matches_of(matches@),
{
    let n: usize = matches.len();
    if n == 0 {
        return None;
    }
    let mut out: Vec<HttpRouteMatch> = Vec::new();
    let mut i: usize = 0;
    while i < n
        invariant
            n == matches@.len(),
            i <= n,
            out@.len() == i,
            forall|j: int| 0 <= j < i ==> (#[trigger] out@[j])@ == route_match_of(matches@[j]),
        decreases n - i,
    {
        out.push(convert_match(&matches[i]));
        i += 1;
    }
    Some(out)
}

fn convert_backends(backends: &Vec<RouteBackendRef>) -> (r: Vec<BackendRef>)
    ensures
        r.deep_view() == backend_refs_of(backends@),
{
    let n: usize = backends.len();
    let mut out: Vec<BackendRef> = Vec::new();
    let mut i: usize = 0;
    while i < n
        invariant
            n == backends@.len(),
            i <= n,
            out@.len() == i,
            forall|j: int| 0 <= j < i ==> (#[trigger] out@[j])@ == backend_ref_of(backends@[j]),
        decreases n - i,
    {
        let b = &backends[i];
        out.push(BackendRef { name: b.name.clone(), port: b.port, weight: b.weight });
        i += 1;
    }
    out
}

fn convert_rules(rules: &Vec<RouteRule>) -> (r: Option<Vec<HttpRouteRule>>)
    ensures
        r.deep_view() == route_rules_of(rules@),
{
    let n: usize = rules.len();
    if n == 0 {
        return None;
    }
    let mut out: Vec<HttpRouteRule> = Vec::new();
    let mut i: usize = 0;
    while i < n
        invariant
            n == rules@.len(),
            i <= n,
            out@.len() == i,
            forall|j: int| 0 <= j < i ==> (#[trigger] out@[j])@ == route_rule_of(rules@[j]),
        decreases n - i,
    {
        let rule = &rules[i];
        out.push(
            HttpRouteRule {
                matches: convert_matches(&rule.matches),
                backend_refs: Some(convert_backends(&rule.backend_refs)),
            },
        );
        i += 1;
    }
    Some(out)
}

fn gateway_reference() -> (r: Vec<ParentReference>)
    ensures
        r.deep_view() == seq![ParentReferenceView { name: Some("gateway"@) }],
{
    let mut parents: Vec<ParentReference> = Vec::new();
    parents.push(ParentReference { name: Some("gateway".to_string()) });
    parents
}

impl ResourceGenerator for HttpRouteGenerator {
    type Output = HttpRoute;

    /// The route of the entry `name`.
    fn generate(&self, values: &Values, name: &str) -> (r: Option<HttpRoute>)
        ensures
            r.deep_view() == http_route_of(*values, name@),
    {
        match values.route.get(name) {
            Some(route) => {
                if !route.enabled {
                    return None;
                }
                let metadata = generate_overlaid_metadata(
                    values,
                    name,
                    "httproute",
                    &route.labels,
                    &route.annotations,
                );
                let hostnames = if route.hosts.len() == 0 {
                    None
                } else {
                    Some(copy_text_list(&route.hosts))
                };
                let spec = HttpRouteSpec {
                    parent_refs: Some(gateway_reference()),
                    hostnames,
                    rules: convert_rules(&route.rules),
                };
                Some(HttpRoute { metadata, spec })
            },
            None => None,
        }
    }
}

} // verus!
