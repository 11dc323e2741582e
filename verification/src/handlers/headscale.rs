//! The instance reconciler: render and apply the instance's children in
//! dependency order on apply, remove them in reverse order on delete, and
//! patch status once the instance is deployed.
//!
//! Rendering the child manifests themselves is plain data transformation and
//! happens outside the library; the order of operations, the
//! create-only-if-absent decisions, the derived child names and the
//! policy-file pointer merged into the runtime configuration are decided
//! here.

use vstd::prelude::*;

verus! {

use crate::crds::headscale::Headscale;
use crate::crds::headscale::HeadscaleStatus;
use crate::crds::headscale::child_name;
use crate::json::Jv;
use crate::json::json_model;
use crate::json::value_get;
use crate::json::value_is_null;

/// One child object of the instance.
#[derive(Clone, Copy, PartialEq, Eq, Structural, Debug)]
pub enum ChildKind {
    /// The secret holding generated key material.
    KeysSecret,
    /// The configuration object holding the runtime configuration.
    RuntimeConfig,
    /// The placeholder configuration object for the access-control policy.
    AclConfig,
    /// The service account, role and binding the sync daemon runs under.
    Rbac,
    /// The stateful workload running the instance and its sidecar.
    Workload,
    /// The network service in front of the workload.
    Service,
}

/// One step of the apply sequence: which child, and whether it is created
/// only if absent (never overwritten) or re-applied unconditionally.
#[derive(Clone, Copy, PartialEq, Eq, Structural, Debug)]
pub struct ChildOp {
    pub kind: ChildKind,
    pub create_only_if_absent: bool,
}

impl DeepView for ChildOp {
    type V = ChildOp;

    open spec fn deep_view(&self) -> ChildOp {
        *self
    }
}

/// The apply sequence. Credential material is created only if absent, since
/// it holds generated keys; so is the placeholder policy object, which a
/// policy resource may already have filled. The secret stands before the
/// workload, which mounts it.
pub open spec fn deploy_sequence() -> Seq<ChildOp> {
    seq![
        ChildOp { kind: ChildKind::KeysSecret, create_only_if_absent: true },
        ChildOp { kind: ChildKind::RuntimeConfig, create_only_if_absent: false },
        ChildOp { kind: ChildKind::AclConfig, create_only_if_absent: true },
        ChildOp { kind: ChildKind::Rbac, create_only_if_absent: false },
        ChildOp { kind: ChildKind::Workload, create_only_if_absent: false },
        ChildOp { kind: ChildKind::Service, create_only_if_absent: false },
    ]
}

/// The delete sequence: reverse dependency order, the workload and service
/// first, configuration and credential material after, supporting
/// role-bindings last.
pub open spec fn cleanup_sequence() -> Seq<ChildKind> {
    seq![
        ChildKind::Workload,
        ChildKind::Service,
        ChildKind::RuntimeConfig,
        ChildKind::AclConfig,
        ChildKind::KeysSecret,
        ChildKind::Rbac,
    ]
}

/// Plans the apply event: the children in dependency order, each marked
/// whether it may overwrite an existing object.
pub fn deploy_plan() -> (r: Vec<ChildOp>)
    ensures
        r@ == deploy_sequence(),
{
    let mut r: Vec<ChildOp> = Vec::new();
    r.push(ChildOp { kind: ChildKind::KeysSecret, create_only_if_absent: true });
    r.push(ChildOp { kind: ChildKind::RuntimeConfig, create_only_if_absent: false });
    r.push(ChildOp { kind: ChildKind::AclConfig, create_only_if_absent: true });
    r.push(ChildOp { kind: ChildKind::Rbac, create_only_if_absent: false });
    r.push(ChildOp { kind: ChildKind::Workload, create_only_if_absent: false });
    r.push(ChildOp { kind: ChildKind::Service, create_only_if_absent: false });
    proof {
        assert(r@ =~= deploy_sequence());
    }
    r
}

/// Plans the delete event: the same children, removed in reverse dependency
/// order. The remote administrative channel is never needed.
pub fn cleanup_plan() -> (r: Vec<ChildKind>)
    ensures
        r@ == cleanup_sequence(),
{
    let mut r: Vec<ChildKind> = Vec::new();
    r.push(ChildKind::Workload);
    r.push(ChildKind::Service);
    r.push(ChildKind::RuntimeConfig);
    r.push(ChildKind::AclConfig);
    r.push(ChildKind::KeysSecret);
    r.push(ChildKind::Rbac);
    proof {
        assert(r@ =~= cleanup_sequence());
    }
    r
}

/// The apply sequence for one instance, each step paired with the name the
/// child is applied under.
pub open spec fn named_deploy_sequence(name: Seq<char>) -> Seq<(ChildOp, Seq<char>)> {
    seq![
        (
            ChildOp { kind: ChildKind::KeysSecret, create_only_if_absent: true },
            child_name(name, "-keys"@),
        ),
        (
            ChildOp { kind: ChildKind::RuntimeConfig, create_only_if_absent: false },
            child_name(name, "-config"@),
        ),
        (
            ChildOp { kind: ChildKind::AclConfig, create_only_if_absent: true },
            child_name(name, "-acl"@),
        ),
        (
            ChildOp { kind: ChildKind::Rbac, create_only_if_absent: false },
            child_name(name, "-config-manager"@),
        ),
        (ChildOp { kind: ChildKind::Workload, create_only_if_absent: false }, child_name(name, ""@)),
        (
            ChildOp { kind: ChildKind::Service, create_only_if_absent: false },
            child_name(name, "-service"@),
        ),
    ]
}

/// Plans the apply event for one instance: the children in dependency order,
/// each with the derived name it is applied under.
pub fn deploy_named_plan(hs: &Headscale) -> (r: Vec<(ChildOp, String)>)
    ensures
        r.deep_view() == named_deploy_sequence(hs@.name),
{
    let mut r: Vec<(ChildOp, String)> = Vec::new();
    r.push((
        ChildOp { kind: ChildKind::KeysSecret, create_only_if_absent: true },
        hs.keys_secret_name(),
    ));
    r.push((
        ChildOp { kind: ChildKind::RuntimeConfig, create_only_if_absent: false },
        hs.configmap_name(),
    ));
    r.push((
        ChildOp { kind: ChildKind::AclConfig, create_only_if_absent: true },
        hs.acl_configmap_name(),
    ));
    r.push((
        ChildOp { kind: ChildKind::Rbac, create_only_if_absent: false },
        hs.config_manager_service_account_name(),
    ));
    r.push((
        ChildOp { kind: ChildKind::Workload, create_only_if_absent: false },
        hs.stateful_set_name(),
    ));
    r.push((
        ChildOp { kind: ChildKind::Service, create_only_if_absent: false },
        hs.service_name(),
    ));
    proof {
        assert(r.deep_view() =~= named_deploy_sequence(hs@.name));
    }
    r
}

/// The named apply sequence carries the same steps as the bare one.
pub proof fn lemma_named_deploy_matches_sequence(name: Seq<char>)
    ensures
        named_deploy_sequence(name).len() == deploy_sequence().len(),
        forall|i: int|
            0 <= i < deploy_sequence().len() ==> #[trigger] named_deploy_sequence(name)[i].0
                == deploy_sequence()[i],
{
}

/// The status patched once every child has been applied.
pub fn deploy_status() -> (r: HeadscaleStatus)
    ensures
        r@.ready,
        r@.message == Some("Headscale has been deployed"@),
        r@.last_updated is None,
{
    HeadscaleStatus {
        ready: true,
        message: Some("Headscale has been deployed".to_owned()),
        last_updated: None,
    }
}

/// Whether the runtime configuration still needs the derived policy-file
/// pointer: its `policy` member is absent or null.
pub open spec fn needs_policy_pointer(j: Jv) -> bool {
    match j {
        Jv::Obj(m) => !m.dom().contains("policy"@) || m["policy"@] is Null,
        _ => true,
    }
}

/// Decides whether the derived policy-file pointer must be merged into the
/// instance's runtime configuration document.
pub fn policy_pointer_needed(config: &serde_json::Value) -> (r: bool)
    ensures
        r == needs_policy_pointer(json_model(*config)),
{
    match value_get(config, "policy") {
        Some(x) => value_is_null(x),
        None => true,
    }
}

/// The derived policy-file pointer: the managed process reads its policy
/// from the file the sync daemon maintains under the mounted path.
pub fn policy_pointer_json() -> (r: String)
    ensures
        r@ == "{\"mode\":\"file\",\"path\":\"/etc/headscale/acls/acl.json\"}"@,
{
    "{\"mode\":\"file\",\"path\":\"/etc/headscale/acls/acl.json\"}".to_owned()
}

/// The apply sequence creates the credential secret before the workload that
/// mounts it, and creates it only if absent, so generated key material is
/// never overwritten.
pub proof fn lemma_deploy_orders_keys_before_workload()
    ensures
        deploy_sequence()[0].kind is KeysSecret,
        deploy_sequence()[0].create_only_if_absent,
        deploy_sequence()[4].kind is Workload,
        forall|i: int|
            0 <= i < deploy_sequence().len() && #[trigger] deploy_sequence()[i].kind is Workload
                ==> i > 0,
{
}

} // verus!
