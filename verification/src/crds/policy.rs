//! The access-control policy resource: rule content rendered into a single
//! configuration object consumed by the instance's sidecar.

use vstd::prelude::*;

verus! {

use crate::crds::headscale::HeadscaleRef;
use crate::crds::headscale::HeadscaleRefView;

/// Whether a rule allows or denies the traffic it selects.
pub enum Action {
    Accept,
    Deny,
}

/// One access-control rule: an action over source and destination selectors.
pub struct Acl {
    pub action: Action,
    pub src: Vec<String>,
    pub dst: Vec<String>,
}

/// Mathematical model of one rule.
pub struct AclView {
    pub action: Action,
    pub src: Seq<Seq<char>>,
    pub dst: Seq<Seq<char>>,
}

impl View for Acl {
    type V = AclView;

    open spec fn view(&self) -> AclView {
        AclView { action: self.action, src: self.src.deep_view(), dst: self.dst.deep_view() }
    }
}

impl DeepView for Acl {
    type V = AclView;

    open spec fn deep_view(&self) -> AclView {
        self.view()
    }
}

/// A named group, host or tag-owner entry: a name and its members.
pub struct NamedMembers {
    pub name: String,
    pub members: Vec<String>,
}

/// Mathematical model of a named entry.
pub struct NamedMembersView {
    pub name: Seq<char>,
    pub members: Seq<Seq<char>>,
}

impl View for NamedMembers {
    type V = NamedMembersView;

    open spec fn view(&self) -> NamedMembersView {
        NamedMembersView { name: self.name@, members: self.members.deep_view() }
    }
}

impl DeepView for NamedMembers {
    type V = NamedMembersView;

    open spec fn deep_view(&self) -> NamedMembersView {
        self.view()
    }
}

/// A named host entry: a name and one address.
pub struct NamedHost {
    pub name: String,
    pub address: String,
}

/// Mathematical model of a named host.
pub struct NamedHostView {
    pub name: Seq<char>,
    pub address: Seq<char>,
}

impl View for NamedHost {
    type V = NamedHostView;

    open spec fn view(&self) -> NamedHostView {
        NamedHostView { name: self.name@, address: self.address@ }
    }
}

impl DeepView for NamedHost {
    type V = NamedHostView;

    open spec fn deep_view(&self) -> NamedHostView {
        self.view()
    }
}

/// What the operator user asks for: rule content plus the owning instance.
pub struct PolicySpec {
    pub headscale_ref: HeadscaleRef,
    pub groups: Option<Vec<NamedMembers>>,
    pub hosts: Option<Vec<NamedHost>>,
    pub tag_owners: Option<Vec<NamedMembers>>,
    pub acls: Vec<Acl>,
}

/// Mathematical model of a policy spec.
pub struct PolicySpecView {
    pub headscale_ref: HeadscaleRefView,
    pub groups: Option<Seq<NamedMembersView>>,
    pub hosts: Option<Seq<NamedHostView>>,
    pub tag_owners: Option<Seq<NamedMembersView>>,
    pub acls: Seq<AclView>,
}

impl View for PolicySpec {
    type V = PolicySpecView;

    open spec fn view(&self) -> PolicySpecView {
        PolicySpecView {
            headscale_ref: self.headscale_ref@,
            groups: self.groups.deep_view(),
            hosts: self.hosts.deep_view(),
            tag_owners: self.tag_owners.deep_view(),
            acls: self.acls.deep_view(),
        }
    }
}

/// One access-control policy object, identified by namespace and name.
pub struct Policy {
    pub name: String,
    pub namespace: Option<String>,
    pub spec: PolicySpec,
}

/// Mathematical model of a policy object.
pub struct PolicyView {
    pub name: Seq<char>,
    pub namespace: Option<Seq<char>>,
    pub spec: PolicySpecView,
}

impl View for Policy {
    type V = PolicyView;

    open spec fn view(&self) -> PolicyView {
        PolicyView {
            name: self.name@,
            namespace: self.namespace.deep_view(),
            spec: self.spec@,
        }
    }
}

impl Policy {
    /// The label pairs the policy's rendered object carries, for a child of
    /// the given name.
    pub fn common_labels(&self, name: &str) -> (r: Vec<(String, String)>)
        ensures
            r.deep_view() == crate::crds::common_labels_model(name@),
    {
        crate::crds::common_labels(name)
    }
}

/// The document shape written into the policy configuration object: the rule
/// set with the instance reference stripped. Absent optional sections stay
/// absent in the document, they are never rendered as empty ones.
pub struct PolicyConfig {
    pub groups: Option<Vec<NamedMembers>>,
    pub hosts: Option<Vec<NamedHost>>,
    pub tag_owners: Option<Vec<NamedMembers>>,
    pub acls: Vec<Acl>,
}

/// Mathematical model of the rendered policy document.
pub struct PolicyConfigView {
    pub groups: Option<Seq<NamedMembersView>>,
    pub hosts: Option<Seq<NamedHostView>>,
    pub tag_owners: Option<Seq<NamedMembersView>>,
    pub acls: Seq<AclView>,
}

impl View for PolicyConfig {
    type V = PolicyConfigView;

    open spec fn view(&self) -> PolicyConfigView {
        PolicyConfigView {
            groups: self.groups.deep_view(),
            hosts: self.hosts.deep_view(),
            tag_owners: self.tag_owners.deep_view(),
            acls: self.acls.deep_view(),
        }
    }
}

/// The document rendered for a policy spec: each section carried over
/// unchanged, the instance reference dropped.
pub open spec fn config_of_policy(p: PolicySpecView) -> PolicyConfigView {
    PolicyConfigView { groups: p.groups, hosts: p.hosts, tag_owners: p.tag_owners, acls: p.acls }
}

impl From<PolicySpec> for PolicyConfig {
    /// The rendered policy document for a spec.
    fn from(policy: PolicySpec) -> (r: PolicyConfig) {
        PolicyConfig {
            groups: policy.groups,
            hosts: policy.hosts,
            tag_owners: policy.tag_owners,
            acls: policy.acls,
        }
    }
}

impl vstd::std_specs::convert::FromSpecImpl<PolicySpec> for PolicyConfig {
    open spec fn obeys_from_spec() -> bool {
        true
    }

    open spec fn from_spec(policy: PolicySpec) -> PolicyConfig {
        PolicyConfig {
            groups: policy.groups,
            hosts: policy.hosts,
            tag_owners: policy.tag_owners,
            acls: policy.acls,
        }
    }
}

} // verus!
