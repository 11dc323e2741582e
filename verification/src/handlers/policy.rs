//! The policy reconciler: render the rule set into the owning instance's
//! well-known policy configuration object; no remote execution is involved.

use vstd::prelude::*;

verus! {

use crate::crds::headscale::Headscale;
use crate::crds::headscale::child_name;
use crate::crds::policy::Policy;
use crate::crds::policy::PolicyConfig;
use crate::crds::policy::config_of_policy;

/// What an apply event requires for a policy: apply one configuration
/// object, under the owning instance's policy configmap name, holding the
/// rendered rule set.
pub struct PolicyApplyPlan {
    pub configmap_name: String,
    pub content: PolicyConfig,
}

/// Plans the apply event for a policy, given the resolved owning instance.
pub fn policy_apply_plan(policy: Policy, headscale: &Headscale) -> (r: PolicyApplyPlan)
    ensures
        r.configmap_name@ == child_name(headscale@.name, "-acl"@),
        r.content@ == config_of_policy(policy@.spec),
{
    PolicyApplyPlan {
        configmap_name: headscale.acl_configmap_name(),
        content: PolicyConfig::from(policy.spec),
    }
}

/// Plans the delete event: remove the same configuration object the apply
/// created, named after the owning instance.
pub fn policy_delete_plan(headscale: &Headscale) -> (r: String)
    ensures
        r@ == child_name(headscale@.name, "-acl"@),
{
    headscale.acl_configmap_name()
}

} // verus!
