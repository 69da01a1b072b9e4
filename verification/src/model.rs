//! Data model: the route objects handed in by the caller, the flat route
//! records the scanner emits, and the display entries of the snapshot.

use vstd::prelude::*;

verus! {

/// Spec-level value of [`HttpPath`].
#[verifier::ext_equal]
pub ghost struct HttpPathV {
    pub path: Option<Seq<char>>,
}

/// One path entry under a rule's HTTP block.
#[derive(Debug, Clone, PartialEq, Eq)]
pub struct HttpPath {
    pub path: Option<String>,
}

impl DeepView for HttpPath {
    type V = HttpPathV;

    open spec fn deep_view(&self) -> HttpPathV {
        HttpPathV { path: self.path.deep_view() }
    }
}

/// Spec-level value of [`HttpRuleValue`].
#[verifier::ext_equal]
pub ghost struct HttpRuleValueV {
    pub paths: Seq<HttpPathV>,
}

/// The HTTP block of a rule: its ordered path entries.
#[derive(Debug, Clone, PartialEq, Eq)]
pub struct HttpRuleValue {
    pub paths: Vec<HttpPath>,
}

impl DeepView for HttpRuleValue {
    type V = HttpRuleValueV;

    open spec fn deep_view(&self) -> HttpRuleValueV {
        HttpRuleValueV { paths: self.paths.deep_view() }
    }
}

/// Spec-level value of [`IngressRule`].
#[verifier::ext_equal]
pub ghost struct IngressRuleV {
    pub host: Option<Seq<char>>,
    pub http: Option<HttpRuleValueV>,
}

/// One rule of a route object: an optional host and an optional HTTP block.
#[derive(Debug, Clone, PartialEq, Eq)]
pub struct IngressRule {
    pub host: Option<String>,
    pub http: Option<HttpRuleValue>,
}

impl DeepView for IngressRule {
    type V = IngressRuleV;

    open spec fn deep_view(&self) -> IngressRuleV {
        IngressRuleV { host: self.host.deep_view(), http: self.http.deep_view() }
    }
}

/// Spec-level value of [`IngressRouting`].
#[verifier::ext_equal]
pub ghost struct IngressRoutingV {
    pub rules: Option<Seq<IngressRuleV>>,
}

/// The routing specification of a route object.
#[derive(Debug, Clone, PartialEq, Eq)]
pub struct IngressRouting {
    pub rules: Option<Vec<IngressRule>>,
}

impl DeepView for IngressRouting {
    type V = IngressRoutingV;

    open spec fn deep_view(&self) -> IngressRoutingV {
        IngressRoutingV { rules: self.rules.deep_view() }
    }
}

/// Spec-level value of [`IngressObject`].
#[verifier::ext_equal]
pub ghost struct IngressObjectV {
    pub name: Seq<char>,
    pub namespace: Option<Seq<char>>,
    pub annotations: Option<Seq<(Seq<char>, Seq<char>)>>,
    pub labels: Option<Seq<(Seq<char>, Seq<char>)>>,
    pub spec: Option<IngressRoutingV>,
}

/// One discovered route object, as the caller hands it in after a listing
/// call: metadata plus the optional routing specification.
#[derive(Debug, Clone, PartialEq, Eq)]
pub struct IngressObject {
    pub name: String,
    pub namespace: Option<String>,
    pub annotations: Option<Vec<(String, String)>>,
    pub labels: Option<Vec<(String, String)>>,
    pub spec: Option<IngressRouting>,
}

impl DeepView for IngressObject {
    type V = IngressObjectV;

    open spec fn deep_view(&self) -> IngressObjectV {
        IngressObjectV {
            name: self.name@,
            namespace: self.namespace.deep_view(),
            annotations: self.annotations.deep_view(),
            labels: self.labels.deep_view(),
            spec: self.spec.deep_view(),
        }
    }
}

/// Spec-level value of [`IngressSpec`].
#[verifier::ext_equal]
pub ghost struct IngressSpecV {
    pub name: Seq<char>,
    pub namespace: Seq<char>,
    pub host: Seq<char>,
    pub tls_used: bool,
    pub path: Option<Seq<char>>,
    pub annotations: Seq<(Seq<char>, Seq<char>)>,
    pub labels: Seq<(Seq<char>, Seq<char>)>,
}

/// One flat route record: the scanner emits one per object, rule-with-host
/// and path entry.
#[derive(Debug, Clone, PartialEq, Eq)]
pub struct IngressSpec {
    pub name: String,
    pub namespace: String,
    pub host: String,
    pub tls_used: bool,
    pub path: Option<String>,
    pub annotations: Vec<(String, String)>,
    pub labels: Vec<(String, String)>,
}

impl DeepView for IngressSpec {
    type V = IngressSpecV;

    open spec fn deep_view(&self) -> IngressSpecV {
        IngressSpecV {
            name: self.name@,
            namespace: self.namespace@,
            host: self.host@,
            tls_used: self.tls_used,
            path: self.path.deep_view(),
            annotations: self.annotations.deep_view(),
            labels: self.labels.deep_view(),
        }
    }
}

/// Spec-level value of [`IngressInfo`].
#[verifier::ext_equal]
pub ghost struct IngressInfoV {
    pub name: Seq<char>,
    pub description: Seq<char>,
    pub url: Seq<char>,
}

/// One display-ready route entry.
#[derive(Debug, Clone, PartialEq, Eq)]
pub struct IngressInfo {
    pub name: String,
    pub description: String,
    pub url: String,
}

impl DeepView for IngressInfo {
    type V = IngressInfoV;

    open spec fn deep_view(&self) -> IngressInfoV {
        IngressInfoV { name: self.name@, description: self.description@, url: self.url@ }
    }
}

/// Spec-level value of [`ClusterInfo`].
#[verifier::ext_equal]
pub ghost struct ClusterInfoV {
    pub name: Seq<char>,
    pub description: Seq<char>,
    pub ingresses: Seq<IngressInfoV>,
}

/// One cluster of the snapshot with its route entries in scan order.
#[derive(Debug, Clone, PartialEq, Eq)]
pub struct ClusterInfo {
    pub name: String,
    pub description: String,
    pub ingresses: Vec<IngressInfo>,
}

impl DeepView for ClusterInfo {
    type V = ClusterInfoV;

    open spec fn deep_view(&self) -> ClusterInfoV {
        ClusterInfoV {
            name: self.name@,
            description: self.description@,
            ingresses: self.ingresses.deep_view(),
        }
    }
}

/// Spec-level value of [`GroupInfo`].
#[verifier::ext_equal]
pub ghost struct GroupInfoV {
    pub name: Seq<char>,
    pub clusters: Seq<ClusterInfoV>,
}

/// One named group of clusters of the snapshot.
#[derive(Debug, Clone, PartialEq, Eq)]
pub struct GroupInfo {
    pub name: String,
    pub clusters: Vec<ClusterInfo>,
}

impl DeepView for GroupInfo {
    type V = GroupInfoV;

    open spec fn deep_view(&self) -> GroupInfoV {
        GroupInfoV { name: self.name@, clusters: self.clusters.deep_view() }
    }
}

/// All clusters of a rendering context, flattened across groups.
#[derive(Debug, Clone, PartialEq, Eq)]
pub struct ContextInfo {
    pub clusters: Vec<ClusterInfo>,
}

impl DeepView for ContextInfo {
    type V = Seq<ClusterInfoV>;

    open spec fn deep_view(&self) -> Seq<ClusterInfoV> {
        self.clusters.deep_view()
    }
}

/// The annotation key whose value overrides a route entry's name.
pub open spec fn name_annotation() -> Seq<char> {
    "landingpage.info/name"@
}

/// The annotation key whose value overrides a route entry's description.
pub open spec fn description_annotation() -> Seq<char> {
    "landingpage.info/description"@
}

/// The name-override annotation key as an owned string.
pub fn name_annotation_key() -> (r: String)
    ensures
        r@ == name_annotation(),
{
    "landingpage.info/name".to_owned()
}

/// The description-override annotation key as an owned string.
pub fn description_annotation_key() -> (r: String)
    ensures
        r@ == description_annotation(),
{
    "landingpage.info/description".to_owned()
}

/// First value stored under `key`, if any.
pub open spec fn spec_lookup<V>(pairs: Seq<(Seq<char>, V)>, key: Seq<char>) -> Option<V>
    decreases pairs.len(),
{
    if pairs.len() == 0 {
        None
    } else if pairs[0].0 == key {
        Some(pairs[0].1)
    } else {
        spec_lookup(pairs.drop_first(), key)
    }
}

/// Looks `key` up in an association list of owned pairs.
pub fn lookup_value<'a, V: DeepView>(pairs: &'a Vec<(String, V)>, key: &String) -> (r: Option<
    &'a V,
>)
    ensures
        match r {
            Some(v) => spec_lookup(pairs.deep_view(), key@) == Some(v.deep_view()),
            None => spec_lookup(pairs.deep_view(), key@) is None,
        },
{
    let ghost all = pairs.deep_view();
    proof {
        assert(all.skip(0) =~= all);
    }
    for i in 0..pairs.len()
        invariant
            all == pairs.deep_view(),
            spec_lookup(all, key@) == spec_lookup(all.skip(i as int), key@),
            i <= pairs@.len(),
    {
        proof {
            assert(all.skip(i as int).drop_first() =~= all.skip(i as int + 1));
            assert(all.skip(i as int)[0] == all[i as int]);
        }
        if pairs[i].0 == *key {
            return Some(&pairs[i].1);
        }
    }
    proof {
        assert(all.skip(pairs@.len() as int) =~= Seq::<(Seq<char>, V::V)>::empty());
    }
    None
}

} // verus!
