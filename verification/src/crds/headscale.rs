//! The control-plane instance resource and the names of its rendered
//! children.

use vstd::prelude::*;

verus! {

use crate::json::Jv;
use crate::json::json_model;

/// A reference to an instance by name, optionally in another namespace.
pub struct HeadscaleRef {
    pub name: String,
    pub namespace: Option<String>,
}

/// Mathematical model of an instance reference.
pub struct HeadscaleRefView {
    pub name: Seq<char>,
    pub namespace: Option<Seq<char>>,
}

impl View for HeadscaleRef {
    type V = HeadscaleRefView;

    open spec fn view(&self) -> HeadscaleRefView {
        HeadscaleRefView { name: self.name@, namespace: self.namespace.deep_view() }
    }
}

impl HeadscaleRef {
    /// The namespace the referenced instance is looked up in: the
    /// reference's own, or the referring object's namespace.
    pub fn resolve_namespace(&self, fallback: &str) -> (r: String)
        ensures
            r@ == match self@.namespace {
                Some(ns) => ns,
                None => fallback@,
            },
    {
        match &self.namespace {
            Some(ns) => ns.clone(),
            None => fallback.to_owned(),
        }
    }
}

/// Deployment choices for the instance's workload.
pub struct HeadscaleDeploymentOptions {
    /// The desired container image.
    pub image: String,
    /// Extra environment entries handed through to the workload.
    pub env: Vec<(String, String)>,
}

/// Mathematical model of the deployment options.
pub struct HeadscaleDeploymentOptionsView {
    pub image: Seq<char>,
    pub env: Seq<(Seq<char>, Seq<char>)>,
}

impl View for HeadscaleDeploymentOptions {
    type V = HeadscaleDeploymentOptionsView;

    open spec fn view(&self) -> HeadscaleDeploymentOptionsView {
        HeadscaleDeploymentOptionsView { image: self.image@, env: self.env.deep_view() }
    }
}

/// The image the config-sync daemon's sidecar runs.
pub struct ConfigManagerOptions {
    pub image: String,
}

impl View for ConfigManagerOptions {
    type V = Seq<char>;

    open spec fn view(&self) -> Seq<char> {
        self.image@
    }
}

/// Where the instance's TLS material lives.
pub struct TLSOptions {
    pub existing_secret: Option<String>,
}

impl View for TLSOptions {
    type V = Option<Seq<char>>;

    open spec fn view(&self) -> Option<Seq<char>> {
        self.existing_secret.deep_view()
    }
}

/// What the operator user asks for: an image, an opaque runtime
/// configuration document, the sidecar image, and TLS material.
pub struct HeadscaleSpec {
    pub config: serde_json::Value,
    pub deployment: HeadscaleDeploymentOptions,
    pub config_manager: ConfigManagerOptions,
    pub tls: TLSOptions,
}

/// Mathematical model of an instance spec.
pub struct HeadscaleSpecView {
    pub config: Jv,
    pub deployment: HeadscaleDeploymentOptionsView,
    pub config_manager_image: Seq<char>,
    pub tls_existing_secret: Option<Seq<char>>,
}

impl View for HeadscaleSpec {
    type V = HeadscaleSpecView;

    open spec fn view(&self) -> HeadscaleSpecView {
        HeadscaleSpecView {
            config: json_model(self.config),
            deployment: self.deployment@,
            config_manager_image: self.config_manager@,
            tls_existing_secret: self.tls@,
        }
    }
}

/// The status half the reconciler patches once the instance is deployed.
pub struct HeadscaleStatus {
    pub ready: bool,
    pub message: Option<String>,
    pub last_updated: Option<String>,
}

/// Mathematical model of an instance status.
pub struct HeadscaleStatusView {
    pub ready: bool,
    pub message: Option<Seq<char>>,
    pub last_updated: Option<Seq<char>>,
}

impl View for HeadscaleStatus {
    type V = HeadscaleStatusView;

    open spec fn view(&self) -> HeadscaleStatusView {
        HeadscaleStatusView {
            ready: self.ready,
            message: self.message.deep_view(),
            last_updated: self.last_updated.deep_view(),
        }
    }
}

/// One managed control-plane instance, identified by namespace and name.
pub struct Headscale {
    pub name: String,
    pub namespace: Option<String>,
    pub spec: HeadscaleSpec,
    pub status: Option<HeadscaleStatus>,
}

/// Mathematical model of an instance object.
pub struct HeadscaleView {
    pub name: Seq<char>,
    pub namespace: Option<Seq<char>>,
    pub spec: HeadscaleSpecView,
    pub status: Option<HeadscaleStatusView>,
}

impl View for Headscale {
    type V = HeadscaleView;

    open spec fn view(&self) -> HeadscaleView {
        HeadscaleView {
            name: self.name@,
            namespace: self.namespace.deep_view(),
            spec: self.spec@,
            status: match self.status {
                Some(ref st) => Some(st@),
                None => None,
            },
        }
    }
}

/// The default image an instance runs when none is given, pinned by digest.
pub fn default_headscale_image() -> (r: String)
    ensures
        r@
            == "ghcr.io/headscale/headscale:v0.28.0@sha256:51b1b9182bb6219e97374fa89af6b9320d6f87ecc739e328d5357ea4fa7a5ce3"@,
{
    "ghcr.io/headscale/headscale:v0.28.0@sha256:51b1b9182bb6219e97374fa89af6b9320d6f87ecc739e328d5357ea4fa7a5ce3".to_owned()
}

/// The name of a child of the instance: the fixed child prefix, the
/// instance's name, and the child's suffix.
pub open spec fn child_name(name: Seq<char>, suffix: Seq<char>) -> Seq<char> {
    "headscale-"@ + name + suffix
}

impl Headscale {
    /// Renders a child name from the instance's name and a suffix.
    fn named_child(&self, suffix: &str) -> (r: String)
        ensures
            r@ == child_name(self.name@, suffix@),
    {
        let mut s = "headscale-".to_owned();
        s.append(self.name.as_str());
        s.append(suffix);
        s
    }

    /// The name of the instance's workload object.
    pub fn stateful_set_name(&self) -> (r: String)
        ensures
            r@ == child_name(self@.name, ""@),
    {
        self.named_child("")
    }

    /// The name of the configuration object holding the instance's
    /// access-control policy document.
    pub fn acl_configmap_name(&self) -> (r: String)
        ensures
            r@ == child_name(self@.name, "-acl"@),
    {
        self.named_child("-acl")
    }

    /// The name of the service account the config-sync daemon runs under.
    pub fn config_manager_service_account_name(&self) -> (r: String)
        ensures
            r@ == child_name(self@.name, "-config-manager"@),
    {
        self.named_child("-config-manager")
    }

    /// The name of the secret holding the instance's generated key material.
    pub fn keys_secret_name(&self) -> (r: String)
        ensures
            r@ == child_name(self@.name, "-keys"@),
    {
        self.named_child("-keys")
    }

    /// The name of the configuration object holding the instance's runtime
    /// configuration.
    pub fn configmap_name(&self) -> (r: String)
        ensures
            r@ == child_name(self@.name, "-config"@),
    {
        self.named_child("-config")
    }

    /// The name of the instance's network service.
    pub fn service_name(&self) -> (r: String)
        ensures
            r@ == child_name(self@.name, "-service"@),
    {
        self.named_child("-service")
    }

    /// The namespace the instance's children live in: the object's own, or
    /// the default one when none is set.
    pub fn namespace_any(&self) -> (r: String)
        ensures
            r@ == match self@.namespace {
                Some(ns) => ns,
                None => "default"@,
            },
    {
        match &self.namespace {
            Some(ns) => ns.clone(),
            None => "default".to_owned(),
        }
    }

    /// The label pairs the instance's children carry, for a child of the
    /// given name.
    pub fn common_labels(&self, name: &str) -> (r: Vec<(String, String)>)
        ensures
            r.deep_view() == crate::crds::common_labels_model(name@),
    {
        crate::crds::common_labels(name)
    }
}

} // verus!
