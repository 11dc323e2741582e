//! The data model: externally-versioned records with spec and status halves
//! for the managed control-plane instance, its tenant users, pre-shared
//! authentication keys and access-control policy.

use vstd::prelude::*;

pub mod headscale;
pub mod policy;
pub mod preauth_key;
pub mod user;

verus! {

/// The timestamp shape the administrative CLI reports.
#[derive(Clone, Copy, PartialEq, Eq, Structural, Debug)]
pub struct Timestamp {
    pub seconds: u64,
    pub nanos: u64,
}

/// A rendered credential secret: one key under one name in one namespace.
pub struct SecretSpec {
    pub name: String,
    pub namespace: String,
    pub authkey: String,
}

/// Mathematical model of a rendered credential secret.
pub struct SecretSpecView {
    pub name: Seq<char>,
    pub namespace: Seq<char>,
    pub authkey: Seq<char>,
}

impl View for SecretSpec {
    type V = SecretSpecView;

    open spec fn view(&self) -> SecretSpecView {
        SecretSpecView { name: self.name@, namespace: self.namespace@, authkey: self.authkey@ }
    }
}

/// The label pairs every rendered child object carries, for a child of the
/// given name.
pub open spec fn common_labels_model(name: Seq<char>) -> Seq<(Seq<char>, Seq<char>)> {
    seq![
        ("app.kubernetes.io/name"@, name),
        ("app.kubernetes.io/managed-by"@, "headscale-operator"@),
        ("app.kubernetes.io/instance"@, "headscale-"@ + name),
        ("app.kubernetes.io/version"@, "0.1.0"@),
        ("app.kubernetes.io/part-of"@, "headscale"@),
    ]
}

/// Renders the label pairs every child object carries.
pub fn common_labels(name: &str) -> (r: Vec<(String, String)>)
    ensures
        r.deep_view() == common_labels_model(name@),
{
    let mut instance = "headscale-".to_owned();
    instance.append(name);
    let mut r: Vec<(String, String)> = Vec::new();
    r.push(("app.kubernetes.io/name".to_owned(), name.to_owned()));
    r.push(("app.kubernetes.io/managed-by".to_owned(), "headscale-operator".to_owned()));
    r.push(("app.kubernetes.io/instance".to_owned(), instance));
    r.push(("app.kubernetes.io/version".to_owned(), "0.1.0".to_owned()));
    r.push(("app.kubernetes.io/part-of".to_owned(), "headscale".to_owned()));
    proof {
        assert(r.deep_view() =~= common_labels_model(name@));
    }
    r
}

} // verus!
