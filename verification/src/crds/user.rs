//! The tenant-user resource: one logical VPN user scoped to an instance.

use vstd::prelude::*;

verus! {

use crate::crds::Timestamp;
use crate::crds::headscale::HeadscaleRef;
use crate::crds::headscale::HeadscaleRefView;

/// A reference to a tenant user by name, optionally in another namespace.
pub struct UserRef {
    pub name: String,
    pub namespace: Option<String>,
}

/// Mathematical model of a user reference.
pub struct UserRefView {
    pub name: Seq<char>,
    pub namespace: Option<Seq<char>>,
}

impl View for UserRef {
    type V = UserRefView;

    open spec fn view(&self) -> UserRefView {
        UserRefView { name: self.name@, namespace: self.namespace.deep_view() }
    }
}

impl UserRef {
    /// The namespace the referenced user is looked up in: the reference's
    /// own, or the referring object's namespace.
    pub fn resolve_namespace(&self, fallback: &str) -> (r: String)
        ensures
            r@ == match self@.namespace {
                Some(ns) => ns,
                None => fallback@,
            },
    {
        match &self.namespace {
            Some(ns) => ns.clone(),
            None => fallback.to_owned(),
        }
    }
}

/// What the operator user asks for: an optional profile, and the instance
/// the user belongs to.
pub struct UserSpec {
    pub display_name: Option<String>,
    pub email: Option<String>,
    pub picture_url: Option<String>,
    pub headscale_ref: HeadscaleRef,
}

/// Mathematical model of a user spec.
pub struct UserSpecView {
    pub display_name: Option<Seq<char>>,
    pub email: Option<Seq<char>>,
    pub picture_url: Option<Seq<char>>,
    pub headscale_ref: HeadscaleRefView,
}

impl View for UserSpec {
    type V = UserSpecView;

    open spec fn view(&self) -> UserSpecView {
        UserSpecView {
            display_name: self.display_name.deep_view(),
            email: self.email.deep_view(),
            picture_url: self.picture_url.deep_view(),
            headscale_ref: self.headscale_ref@,
        }
    }
}

/// The record the administrative CLI reports for one remote user.
pub struct UserData {
    pub id: u32,
    pub name: String,
    pub created_at: Option<Timestamp>,
    pub email: Option<String>,
    pub display_name: Option<String>,
    pub picture_url: Option<String>,
}

/// Mathematical model of a remote user record.
pub struct UserDataView {
    pub id: u32,
    pub name: Seq<char>,
    pub created_at: Option<Timestamp>,
    pub email: Option<Seq<char>>,
    pub display_name: Option<Seq<char>>,
    pub picture_url: Option<Seq<char>>,
}

impl DeepView for UserData {
    type V = UserDataView;

    open spec fn deep_view(&self) -> UserDataView {
        self.view()
    }
}

impl View for UserData {
    type V = UserDataView;

    open spec fn view(&self) -> UserDataView {
        UserDataView {
            id: self.id,
            name: self.name@,
            created_at: self.created_at,
            email: self.email.deep_view(),
            display_name: self.display_name.deep_view(),
            picture_url: self.picture_url.deep_view(),
        }
    }
}

/// The status half the reconciler persists exactly once: the assigned remote
/// identifier, the creation timestamp, and the echoed profile fields.
pub struct UserStatus {
    pub id: u32,
    pub name: String,
    pub created_at: Option<Timestamp>,
    pub email: Option<String>,
    pub display_name: Option<String>,
    pub picture_url: Option<String>,
}

/// Mathematical model of a user status.
pub struct UserStatusView {
    pub id: u32,
    pub name: Seq<char>,
    pub created_at: Option<Timestamp>,
    pub email: Option<Seq<char>>,
    pub display_name: Option<Seq<char>>,
    pub picture_url: Option<Seq<char>>,
}

impl View for UserStatus {
    type V = UserStatusView;

    open spec fn view(&self) -> UserStatusView {
        UserStatusView {
            id: self.id,
            name: self.name@,
            created_at: self.created_at,
            email: self.email.deep_view(),
            display_name: self.display_name.deep_view(),
            picture_url: self.picture_url.deep_view(),
        }
    }
}

/// The status persisted for a decoded remote user record: every field is
/// echoed as the remote side reported it.
pub open spec fn status_of_user_data(d: UserDataView) -> UserStatusView {
    UserStatusView {
        id: d.id,
        name: d.name,
        created_at: d.created_at,
        email: d.email,
        display_name: d.display_name,
        picture_url: d.picture_url,
    }
}

/// One tenant user object, identified by namespace and name.
pub struct User {
    pub name: String,
    pub namespace: Option<String>,
    pub spec: UserSpec,
    pub status: Option<UserStatus>,
}

/// Mathematical model of a tenant user object.
pub struct UserView {
    pub name: Seq<char>,
    pub namespace: Option<Seq<char>>,
    pub spec: UserSpecView,
    pub status: Option<UserStatusView>,
}

impl View for User {
    type V = UserView;

    open spec fn view(&self) -> UserView {
        UserView {
            name: self.name@,
            namespace: self.namespace.deep_view(),
            spec: self.spec@,
            status: match self.status {
                Some(ref st) => Some(st@),
                None => None,
            },
        }
    }
}

impl User {
    /// The user's assigned remote identifier, once status is populated.
    pub fn id(&self) -> (r: Option<u32>)
        ensures
            r == match self@.status {
                Some(st) => Some(st.id),
                None => None::<u32>,
            },
    {
        match &self.status {
            Some(status) => Some(status.id),
            None => None,
        }
    }

    /// The namespace the user's side effects target: the object's own, or
    /// the default one when none is set.
    pub fn namespace_any(&self) -> (r: String)
        ensures
            r@ == match self@.namespace {
                Some(ns) => ns,
                None => "default"@,
            },
    {
        match &self.namespace {
            Some(ns) => ns.clone(),
            None => "default".to_owned(),
        }
    }
}

impl From<UserData> for UserStatus {
    /// The status echoing a decoded remote user record.
    fn from(data: UserData) -> (r: UserStatus) {
        UserStatus {
            id: data.id,
            name: data.name,
            created_at: data.created_at,
            email: data.email,
            display_name: data.display_name,
            picture_url: data.picture_url,
        }
    }
}

impl vstd::std_specs::convert::FromSpecImpl<UserData> for UserStatus {
    open spec fn obeys_from_spec() -> bool {
        true
    }

    open spec fn from_spec(data: UserData) -> UserStatus {
        UserStatus {
            id: data.id,
            name: data.name,
            created_at: data.created_at,
            email: data.email,
            display_name: data.display_name,
            picture_url: data.picture_url,
        }
    }
}

} // verus!
