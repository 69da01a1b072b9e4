//! Configuration of the aggregation engine: one optional local cluster,
//! any number of named remote groups, and two global knobs.

use vstd::prelude::*;

verus! {

/// Spec-level value of [`Global`].
#[verifier::ext_equal]
pub ghost struct GlobalV {
    pub only_with_annotation: bool,
    pub refresh_interval_seconds: Option<u64>,
}

/// Global settings: the annotation-only filter and the refresh period.
#[derive(Debug, Clone)]
pub struct Global {
    pub only_with_annotation: bool,
    pub refresh_interval_seconds: Option<u64>,
}

impl DeepView for Global {
    type V = GlobalV;

    open spec fn deep_view(&self) -> GlobalV {
        GlobalV {
            only_with_annotation: self.only_with_annotation,
            refresh_interval_seconds: self.refresh_interval_seconds,
        }
    }
}

/// Spec-level value of [`LocalCluster`].
#[verifier::ext_equal]
pub ghost struct LocalClusterV {
    pub enabled: bool,
    pub description: Option<Seq<char>>,
    pub namespaces: Option<Seq<Seq<char>>>,
}

/// The local cluster: scanned with the bootstrap client when enabled.
#[derive(Debug, Clone)]
pub struct LocalCluster {
    pub enabled: bool,
    pub description: Option<String>,
    pub namespaces: Option<Vec<String>>,
}

impl DeepView for LocalCluster {
    type V = LocalClusterV;

    open spec fn deep_view(&self) -> LocalClusterV {
        LocalClusterV {
            enabled: self.enabled,
            description: self.description.deep_view(),
            namespaces: self.namespaces.deep_view(),
        }
    }
}

/// Spec-level value of [`KubeconfigSecret`].
#[verifier::ext_equal]
pub ghost struct KubeconfigSecretV {
    pub name: Seq<char>,
    pub namespace: Seq<char>,
}

/// Name and namespace of the secret holding a remote cluster's credential
/// bundle.
#[derive(Debug, Clone)]
pub struct KubeconfigSecret {
    pub name: String,
    pub namespace: String,
}

impl DeepView for KubeconfigSecret {
    type V = KubeconfigSecretV;

    open spec fn deep_view(&self) -> KubeconfigSecretV {
        KubeconfigSecretV { name: self.name@, namespace: self.namespace@ }
    }
}

/// Spec-level value of [`RemoteCluster`].
#[verifier::ext_equal]
pub ghost struct RemoteClusterV {
    pub name: Seq<char>,
    pub description: Option<Seq<char>>,
    pub kubeconfig_secret: KubeconfigSecretV,
    pub namespaces: Option<Seq<Seq<char>>>,
}

/// One remote cluster: its display identity, where its credential bundle is
/// stored, and an optional namespace scope.
#[derive(Debug, Clone)]
pub struct RemoteCluster {
    pub name: String,
    pub description: Option<String>,
    pub kubeconfig_secret: KubeconfigSecret,
    pub namespaces: Option<Vec<String>>,
}

impl DeepView for RemoteCluster {
    type V = RemoteClusterV;

    open spec fn deep_view(&self) -> RemoteClusterV {
        RemoteClusterV {
            name: self.name@,
            description: self.description.deep_view(),
            kubeconfig_secret: self.kubeconfig_secret.deep_view(),
            namespaces: self.namespaces.deep_view(),
        }
    }
}

/// Spec-level value of [`RemoteGroup`].
#[verifier::ext_equal]
pub ghost struct RemoteGroupV {
    pub name: Seq<char>,
    pub clusters: Seq<RemoteClusterV>,
}

/// A named group of remote clusters; groups keep their configuration order
/// in the snapshot.
#[derive(Debug, Clone)]
pub struct RemoteGroup {
    pub name: String,
    pub clusters: Vec<RemoteCluster>,
}

impl DeepView for RemoteGroup {
    type V = RemoteGroupV;

    open spec fn deep_view(&self) -> RemoteGroupV {
        RemoteGroupV { name: self.name@, clusters: self.clusters.deep_view() }
    }
}

/// Spec-level value of [`Config`].
#[verifier::ext_equal]
pub ghost struct ConfigV {
    pub global: Option<GlobalV>,
    pub local: Option<LocalClusterV>,
    pub remote: Option<Seq<RemoteGroupV>>,
}

/// The full configuration handed to the engine.
#[derive(Debug, Clone)]
pub struct Config {
    pub global: Option<Global>,
    pub local: Option<LocalCluster>,
    pub remote: Option<Vec<RemoteGroup>>,
}

impl DeepView for Config {
    type V = ConfigV;

    open spec fn deep_view(&self) -> ConfigV {
        ConfigV {
            global: self.global.deep_view(),
            local: self.local.deep_view(),
            remote: self.remote.deep_view(),
        }
    }
}

/// Whether the annotation-only filter is on: false when no global section is
/// configured.
pub open spec fn spec_only_with_annotation(c: ConfigV) -> bool {
    match c.global {
        Some(g) => g.only_with_annotation,
        None => false,
    }
}

/// The refresh period in seconds, defaulting when unset.
pub open spec fn spec_refresh_interval(c: ConfigV) -> u64 {
    match c.global {
        Some(g) => match g.refresh_interval_seconds {
            Some(s) => s,
            None => 30,
        },
        None => 30,
    }
}

/// Whether the local cluster takes part in aggregation.
pub open spec fn spec_local_active(c: ConfigV) -> bool {
    match c.local {
        Some(l) => l.enabled,
        None => false,
    }
}

impl Config {
    /// The annotation-only filter flag that scanning applies.
    pub fn only_with_annotation(&self) -> (b: bool)
        ensures
            b == spec_only_with_annotation(self.deep_view()),
    {
        match &self.global {
            Some(g) => g.only_with_annotation,
            None => false,
        }
    }

    /// The refresh period in seconds; 30 when the configuration leaves it
    /// open.
    pub fn refresh_interval(&self) -> (r: u64)
        ensures
            r == spec_refresh_interval(self.deep_view()),
    {
        match &self.global {
            Some(g) => match g.refresh_interval_seconds {
                Some(s) => s,
                None => 30,
            },
            None => 30,
        }
    }

    /// Whether the local cluster is configured and enabled.
    pub fn local_active(&self) -> (b: bool)
        ensures
            b == spec_local_active(self.deep_view()),
    {
        match &self.local {
            Some(l) => l.enabled,
            None => false,
        }
    }
}

} // verus!
