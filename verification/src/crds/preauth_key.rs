//! The pre-shared authentication key resource, scoped to a tenant user.

use vstd::prelude::*;

verus! {

use crate::crds::Timestamp;
use crate::crds::user::UserData;
use crate::crds::user::UserDataView;
use crate::crds::user::UserRef;
use crate::crds::user::UserRefView;
use crate::crds::user::UserStatus;
use crate::crds::user::UserStatusView;
use crate::crds::user::status_of_user_data;

/// What the operator user asks for: key flags, an expiration duration, an
/// optional explicit secret name, and the owning tenant user.
pub struct PreauthKeySpec {
    pub ephemeral: bool,
    pub reusable: bool,
    pub expiration: String,
    pub target_secret: Option<String>,
    pub user: UserRef,
}

/// Mathematical model of a key spec.
pub struct PreauthKeySpecView {
    pub ephemeral: bool,
    pub reusable: bool,
    pub expiration: Seq<char>,
    pub target_secret: Option<Seq<char>>,
    pub user: UserRefView,
}

impl View for PreauthKeySpec {
    type V = PreauthKeySpecView;

    open spec fn view(&self) -> PreauthKeySpecView {
        PreauthKeySpecView {
            ephemeral: self.ephemeral,
            reusable: self.reusable,
            expiration: self.expiration@,
            target_secret: self.target_secret.deep_view(),
            user: self.user@,
        }
    }
}

impl Default for PreauthKeySpec {
    /// A single-use, non-ephemeral key that expires after one hour.
    fn default() -> (r: Self)
        ensures
            !r@.ephemeral,
            !r@.reusable,
            r@.expiration == "1h"@,
            r@.target_secret is None,
            r@.user.name == ""@,
            r@.user.namespace is None,
    {
        PreauthKeySpec {
            ephemeral: false,
            reusable: false,
            expiration: "1h".to_owned(),
            target_secret: None,
            user: UserRef { name: "".to_owned(), namespace: None },
        }
    }
}

/// The record the administrative CLI reports for one created key: the key
/// value itself, and the echoed flags and timestamps.
pub struct PreauthKeyData {
    pub id: u32,
    pub user: UserData,
    pub key: String,
    pub reusable: bool,
    pub ephemeral: bool,
    pub expiration: Timestamp,
    pub created_at: Timestamp,
}

/// Mathematical model of a created-key record.
pub struct PreauthKeyDataView {
    pub id: u32,
    pub user: UserDataView,
    pub key: Seq<char>,
    pub reusable: bool,
    pub ephemeral: bool,
    pub expiration: Timestamp,
    pub created_at: Timestamp,
}

impl View for PreauthKeyData {
    type V = PreauthKeyDataView;

    open spec fn view(&self) -> PreauthKeyDataView {
        PreauthKeyDataView {
            id: self.id,
            user: self.user@,
            key: self.key@,
            reusable: self.reusable,
            ephemeral: self.ephemeral,
            expiration: self.expiration,
            created_at: self.created_at,
        }
    }
}

/// The status half the reconciler persists after issuing a key. The raw key
/// value itself lives only in the credential secret, never in status.
pub struct PreauthKeyStatus {
    pub id: u32,
    pub user: UserStatus,
    pub reusable: bool,
    pub ephemeral: bool,
    pub expiration: Timestamp,
    pub created_at: Timestamp,
}

/// Mathematical model of a key status.
pub struct PreauthKeyStatusView {
    pub id: u32,
    pub user: UserStatusView,
    pub reusable: bool,
    pub ephemeral: bool,
    pub expiration: Timestamp,
    pub created_at: Timestamp,
}

impl View for PreauthKeyStatus {
    type V = PreauthKeyStatusView;

    open spec fn view(&self) -> PreauthKeyStatusView {
        PreauthKeyStatusView {
            id: self.id,
            user: self.user@,
            reusable: self.reusable,
            ephemeral: self.ephemeral,
            expiration: self.expiration,
            created_at: self.created_at,
        }
    }
}

/// One pre-shared key object, identified by namespace and name.
pub struct PreauthKey {
    pub name: String,
    pub namespace: Option<String>,
    pub spec: PreauthKeySpec,
    pub status: Option<PreauthKeyStatus>,
}

/// Mathematical model of a pre-shared key object.
pub struct PreauthKeyView {
    pub name: Seq<char>,
    pub namespace: Option<Seq<char>>,
    pub spec: PreauthKeySpecView,
    pub status: Option<PreauthKeyStatusView>,
}

impl View for PreauthKey {
    type V = PreauthKeyView;

    open spec fn view(&self) -> PreauthKeyView {
        PreauthKeyView {
            name: self.name@,
            namespace: self.namespace.deep_view(),
            spec: self.spec@,
            status: match self.status {
                Some(ref st) => Some(st@),
                None => None,
            },
        }
    }
}

/// The name of the key's credential secret: the explicit target name when
/// the spec gives one, the derived kind-prefixed name otherwise.
pub open spec fn key_secret_name(k: PreauthKeyView) -> Seq<char> {
    match k.spec.target_secret {
        Some(s) => s,
        None => "headscale-preauth-"@ + k.name,
    }
}

/// The namespace a key's children live in: the object's own, or the empty
/// name when none is set.
pub open spec fn key_namespace(k: PreauthKeyView) -> Seq<char> {
    match k.namespace {
        Some(ns) => ns,
        None => ""@,
    }
}

/// The credential secret rendered for a key value: exactly one entry,
/// holding the raw key under the fixed entry name.
pub open spec fn rendered_key_secret(k: PreauthKeyView, key_value: Seq<char>) -> crate::crds::SecretSpecView {
    crate::crds::SecretSpecView {
        name: key_secret_name(k),
        namespace: key_namespace(k),
        authkey: key_value,
    }
}

impl PreauthKey {
    /// The name of the credential secret this key materialises into.
    pub fn secret_name(&self) -> (r: String)
        ensures
            r@ == key_secret_name(self@),
    {
        match &self.spec.target_secret {
            Some(s) => s.clone(),
            None => {
                let mut n = "headscale-preauth-".to_owned();
                n.append(self.name.as_str());
                n
            },
        }
    }

    /// Renders the credential secret holding a raw key value.
    pub fn render_secret(&self, preauth_key: &str) -> (r: crate::crds::SecretSpec)
        ensures
            r@ == rendered_key_secret(self@, preauth_key@),
    {
        let namespace = match &self.namespace {
            Some(ns) => ns.clone(),
            None => String::new(),
        };
        proof {
            reveal_strlit("");
            assert(""@ =~= Seq::<char>::empty());
        }
        crate::crds::SecretSpec {
            name: self.secret_name(),
            namespace,
            authkey: preauth_key.to_owned(),
        }
    }

    /// The label pairs the key's credential secret carries, for a child of
    /// the given name.
    pub fn common_labels(&self, name: &str) -> (r: Vec<(String, String)>)
        ensures
            r.deep_view() == crate::crds::common_labels_model(name@),
    {
        crate::crds::common_labels(name)
    }
}

/// The status persisted for a decoded created-key record: the identifier,
/// the owning user snapshot, and the echoed flags and timestamps.
pub open spec fn status_of_key_data(d: PreauthKeyDataView) -> PreauthKeyStatusView {
    PreauthKeyStatusView {
        id: d.id,
        user: status_of_user_data(d.user),
        reusable: d.reusable,
        ephemeral: d.ephemeral,
        expiration: d.expiration,
        created_at: d.created_at,
    }
}

impl From<PreauthKeyData> for PreauthKeyStatus {
    /// The status echoing a decoded created-key record.
    fn from(data: PreauthKeyData) -> (r: PreauthKeyStatus) {
        PreauthKeyStatus {
            id: data.id,
            user: UserStatus {
                id: data.user.id,
                name: data.user.name,
                created_at: data.user.created_at,
                email: data.user.email,
                display_name: data.user.display_name,
                picture_url: data.user.picture_url,
            },
            reusable: data.reusable,
            ephemeral: data.ephemeral,
            expiration: data.expiration,
            created_at: data.created_at,
        }
    }
}

impl vstd::std_specs::convert::FromSpecImpl<PreauthKeyData> for PreauthKeyStatus {
    open spec fn obeys_from_spec() -> bool {
        true
    }

    open spec fn from_spec(data: PreauthKeyData) -> PreauthKeyStatus {
        PreauthKeyStatus {
            id: data.id,
            user: UserStatus {
                id: data.user.id,
                name: data.user.name,
                created_at: data.user.created_at,
                email: data.user.email,
                display_name: data.user.display_name,
                picture_url: data.user.picture_url,
            },
            reusable: data.reusable,
            ephemeral: data.ephemeral,
            expiration: data.expiration,
            created_at: data.created_at,
        }
    }
}

} // verus!
