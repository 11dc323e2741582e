use headscale_operator::Error;
use headscale_operator::crds::Timestamp;
use headscale_operator::crds::common_labels;
use headscale_operator::crds::headscale::Headscale;
use headscale_operator::crds::headscale::HeadscaleDeploymentOptions;
use headscale_operator::crds::headscale::ConfigManagerOptions;
use headscale_operator::crds::headscale::HeadscaleRef;
use headscale_operator::crds::headscale::HeadscaleSpec;
use headscale_operator::crds::headscale::TLSOptions;
use headscale_operator::crds::headscale::default_headscale_image;
use headscale_operator::crds::policy::Acl;
use headscale_operator::crds::policy::Action;
use headscale_operator::crds::policy::Policy;
use headscale_operator::crds::policy::PolicyConfig;
use headscale_operator::crds::policy::PolicySpec;
use headscale_operator::crds::preauth_key::PreauthKey;
use headscale_operator::crds::preauth_key::PreauthKeyData;
use headscale_operator::crds::preauth_key::PreauthKeySpec;
use headscale_operator::crds::preauth_key::PreauthKeyStatus;
use headscale_operator::crds::user::User;
use headscale_operator::crds::user::UserData;
use headscale_operator::crds::user::UserRef;
use headscale_operator::crds::user::UserSpec;
use headscale_operator::crds::user::UserStatus;
use headscale_operator::handlers::Event;
use headscale_operator::handlers::FinalizerStep;
use headscale_operator::handlers::finalizer_step;
use headscale_operator::handlers::headscale::ChildKind;
use headscale_operator::handlers::headscale::cleanup_plan;
use headscale_operator::handlers::headscale::deploy_named_plan;
use headscale_operator::handlers::headscale::deploy_plan;
use headscale_operator::handlers::headscale::deploy_status;
use headscale_operator::handlers::headscale::policy_pointer_json;
use headscale_operator::handlers::headscale::policy_pointer_needed;
use headscale_operator::handlers::policy::policy_apply_plan;
use headscale_operator::handlers::policy::policy_delete_plan;
use headscale_operator::handlers::preauth_key::KeyApplyPlan;
use headscale_operator::handlers::preauth_key::KeyDeletePlan;
use headscale_operator::handlers::preauth_key::preauth_key_apply_commit;
use headscale_operator::handlers::preauth_key::preauth_key_apply_plan;
use headscale_operator::handlers::preauth_key::preauth_key_delete_plan;
use headscale_operator::handlers::user::UserApplyPlan;
use headscale_operator::handlers::user::UserDeletePlan;
use headscale_operator::handlers::user::user_apply_commit;
use headscale_operator::handlers::user::user_apply_plan;
use headscale_operator::handlers::user::user_delete_plan;

fn jv(s: &str) -> serde_json::Value {
    serde_json::from_str(s).unwrap()
}

fn sample_user(status: Option<UserStatus>) -> User {
    User {
        name: "alice".to_string(),
        namespace: Some("tenants".to_string()),
        spec: UserSpec {
            display_name: Some("Alice A".to_string()),
            email: None,
            picture_url: None,
            headscale_ref: HeadscaleRef { name: "hs1".to_string(), namespace: None },
        },
        status,
    }
}

fn sample_user_data() -> UserData {
    UserData {
        id: 7,
        name: "alice".to_string(),
        created_at: Some(Timestamp { seconds: 1, nanos: 2 }),
        email: None,
        display_name: Some("Alice A".to_string()),
        picture_url: None,
    }
}

fn sample_key(target_secret: Option<String>) -> PreauthKey {
    PreauthKey {
        name: "k1".to_string(),
        namespace: Some("tenants".to_string()),
        spec: PreauthKeySpec {
            ephemeral: false,
            reusable: true,
            expiration: "1h".to_string(),
            target_secret,
            user: UserRef { name: "alice".to_string(), namespace: None },
        },
        status: None,
    }
}

fn sample_key_data() -> PreauthKeyData {
    PreauthKeyData {
        id: 3,
        user: sample_user_data(),
        key: "k-raw-value".to_string(),
        reusable: true,
        ephemeral: false,
        expiration: Timestamp { seconds: 9, nanos: 0 },
        created_at: Timestamp { seconds: 8, nanos: 0 },
    }
}

fn sample_headscale(name: &str) -> Headscale {
    Headscale {
        name: name.to_string(),
        namespace: Some("tenants".to_string()),
        spec: HeadscaleSpec {
            config: jv("{}"),
            deployment: HeadscaleDeploymentOptions {
                image: default_headscale_image(),
                env: Vec::new(),
            },
            config_manager: ConfigManagerOptions { image: "cm:latest".to_string() },
            tls: TLSOptions { existing_secret: Some("tls".to_string()) },
        },
        status: None,
    }
}

#[test]
fn user_apply_twice_issues_exactly_one_remote_create() {
    let fresh = sample_user(None);
    let mut remote_calls = 0;
    let first = user_apply_plan(&fresh);
    let created = match first {
        UserApplyPlan::CreateRemote(cmd) => {
            remote_calls += 1;
            assert_eq!(
                cmd,
                vec![
                    "headscale",
                    "-o",
                    "json-line",
                    "users",
                    "create",
                    "alice",
                    "--display-name",
                    "Alice A"
                ]
            );
            user_apply_commit(fresh, sample_user_data())
        }
        UserApplyPlan::AlreadyCreated => panic!("fresh user must issue a create"),
    };
    assert_eq!(created.status.as_ref().unwrap().id, 7);
    match user_apply_plan(&created) {
        UserApplyPlan::AlreadyCreated => {}
        UserApplyPlan::CreateRemote(_) => remote_calls += 1,
    }
    assert_eq!(remote_calls, 1);
}

#[test]
fn user_apply_commit_echoes_decoded_record_into_status() {
    let created = user_apply_commit(sample_user(None), sample_user_data());
    let st = created.status.unwrap();
    assert_eq!(st.id, 7);
    assert_eq!(st.name, "alice");
    assert_eq!(st.display_name.as_deref(), Some("Alice A"));
    assert_eq!(st.created_at.unwrap(), Timestamp { seconds: 1, nanos: 2 });
    assert_eq!(created.name, "alice");
}

#[test]
fn user_delete_without_status_is_noop_and_releases_finalizer() {
    let fresh = sample_user(None);
    let mut remote_calls = 0;
    match user_delete_plan(&fresh) {
        UserDeletePlan::NothingToDo => {}
        UserDeletePlan::DestroyRemote(_) => remote_calls += 1,
    }
    assert_eq!(remote_calls, 0);
    assert!(matches!(
        finalizer_step(&Event::Delete, true),
        FinalizerStep::CleanupThenRelease
    ));
}

#[test]
fn user_delete_with_status_destroys_by_identifier() {
    let user = sample_user(Some(UserStatus::from(sample_user_data())));
    match user_delete_plan(&user) {
        UserDeletePlan::DestroyRemote(cmd) => assert_eq!(
            cmd,
            vec![
                "headscale",
                "-o",
                "json-line",
                "users",
                "destroy",
                "--identifier",
                "7",
                "--force"
            ]
        ),
        UserDeletePlan::NothingToDo => panic!("status is set, remote user must be destroyed"),
    }
}

#[test]
fn finalizer_protocol_registers_cleans_and_skips() {
    assert!(matches!(
        finalizer_step(&Event::Apply, false),
        FinalizerStep::RegisterThenReconcile
    ));
    assert!(matches!(finalizer_step(&Event::Apply, true), FinalizerStep::Reconcile));
    assert!(matches!(
        finalizer_step(&Event::Delete, true),
        FinalizerStep::CleanupThenRelease
    ));
}

#[test]
fn delete_event_without_token_skips_compensating_logic() {
    assert!(matches!(
        finalizer_step(&Event::Delete, false),
        FinalizerStep::AlreadyReleased
    ));
}

#[test]
fn key_apply_writes_secret_once_and_then_stops_calling() {
    let key = sample_key(None);
    let mut remote_calls = 0;
    let plan = preauth_key_apply_plan(&key, false, Some(7)).unwrap();
    let (secret, status) = match plan {
        KeyApplyPlan::CreateRemote(cmd) => {
            remote_calls += 1;
            assert_eq!(
                cmd,
                vec![
                    "headscale",
                    "-o",
                    "json-line",
                    "preauthkeys",
                    "create",
                    "--user",
                    "7",
                    "--expiration",
                    "1h",
                    "--reusable"
                ]
            );
            preauth_key_apply_commit(&key, sample_key_data())
        }
        KeyApplyPlan::SecretExists => panic!("no secret yet, a create must be issued"),
    };
    assert_eq!(secret.name, "headscale-preauth-k1");
    assert_eq!(secret.namespace, "tenants");
    assert_eq!(secret.authkey, "k-raw-value");
    assert_eq!(status.id, 3);
    assert!(status.reusable);
    match preauth_key_apply_plan(&key, true, Some(7)).unwrap() {
        KeyApplyPlan::SecretExists => {}
        KeyApplyPlan::CreateRemote(_) => remote_calls += 1,
    }
    assert_eq!(remote_calls, 1);
}

#[test]
fn key_apply_without_user_identifier_is_a_hard_failure() {
    let key = sample_key(None);
    assert!(matches!(
        preauth_key_apply_plan(&key, false, None),
        Err(Error::MissingUserId)
    ));
}

#[test]
fn key_secret_name_prefers_explicit_target() {
    let key = sample_key(Some("my-secret".to_string()));
    assert_eq!(key.secret_name(), "my-secret");
    assert_eq!(sample_key(None).secret_name(), "headscale-preauth-k1");
}

#[test]
fn key_delete_revokes_and_removes_secret() {
    let key = sample_key(None);
    let raw = "k-raw-value".to_string();
    match preauth_key_delete_plan(&key, Some(&raw), Some(7)).unwrap() {
        KeyDeletePlan::Revoke { command, delete_secret } => {
            assert_eq!(
                command,
                vec!["headscale", "preauthkeys", "revoke", "--user", "7", "k-raw-value"]
            );
            assert_eq!(delete_secret, "headscale-preauth-k1");
        }
        KeyDeletePlan::SecretAlreadyGone => panic!("secret exists, key must be revoked"),
    }
    assert!(matches!(
        preauth_key_delete_plan(&key, None, Some(7)).unwrap(),
        KeyDeletePlan::SecretAlreadyGone
    ));
    assert!(matches!(
        preauth_key_delete_plan(&key, Some(&raw), None),
        Err(Error::MissingUserId)
    ));
}

#[test]
fn deploy_plan_orders_children_and_protects_generated_material() {
    let plan = deploy_plan();
    let kinds: Vec<ChildKind> = plan.iter().map(|op| op.kind).collect();
    assert_eq!(
        kinds,
        vec![
            ChildKind::KeysSecret,
            ChildKind::RuntimeConfig,
            ChildKind::AclConfig,
            ChildKind::Rbac,
            ChildKind::Workload,
            ChildKind::Service
        ]
    );
    assert!(plan[0].create_only_if_absent);
    assert!(!plan[1].create_only_if_absent);
    assert!(plan[2].create_only_if_absent);
    assert!(!plan[4].create_only_if_absent);
}

#[test]
fn named_deploy_plan_pairs_each_child_with_its_name() {
    let hs = sample_headscale("hs1");
    let plan = deploy_named_plan(&hs);
    let names: Vec<&str> = plan.iter().map(|(_, name)| name.as_str()).collect();
    assert_eq!(
        names,
        vec![
            "headscale-hs1-keys",
            "headscale-hs1-config",
            "headscale-hs1-acl",
            "headscale-hs1-config-manager",
            "headscale-hs1",
            "headscale-hs1-service"
        ]
    );
    assert_eq!(plan[0].0.kind, ChildKind::KeysSecret);
    assert!(plan[0].0.create_only_if_absent);
}

#[test]
fn cleanup_plan_reverses_dependency_order() {
    assert_eq!(
        cleanup_plan(),
        vec![
            ChildKind::Workload,
            ChildKind::Service,
            ChildKind::RuntimeConfig,
            ChildKind::AclConfig,
            ChildKind::KeysSecret,
            ChildKind::Rbac
        ]
    );
}

#[test]
fn deploy_status_reports_ready() {
    let st = deploy_status();
    assert!(st.ready);
    assert_eq!(st.message.as_deref(), Some("Headscale has been deployed"));
    assert!(st.last_updated.is_none());
}

#[test]
fn child_names_derive_from_instance_name() {
    let hs = sample_headscale("hs1");
    assert_eq!(hs.stateful_set_name(), "headscale-hs1");
    assert_eq!(hs.acl_configmap_name(), "headscale-hs1-acl");
    assert_eq!(hs.config_manager_service_account_name(), "headscale-hs1-config-manager");
    assert_eq!(hs.keys_secret_name(), "headscale-hs1-keys");
    assert_eq!(hs.configmap_name(), "headscale-hs1-config");
    assert_eq!(hs.service_name(), "headscale-hs1-service");
    assert_eq!(hs.namespace_any(), "tenants");
}

#[test]
fn policy_pointer_is_merged_only_when_absent_or_null() {
    assert!(policy_pointer_needed(&jv("{}")));
    assert!(policy_pointer_needed(&jv("{\"policy\": null}")));
    assert!(!policy_pointer_needed(&jv("{\"policy\": {\"mode\": \"db\"}}")));
    assert!(policy_pointer_needed(&jv("[]")));
    let pointer = jv(&policy_pointer_json());
    assert_eq!(pointer, jv("{\"path\": \"/etc/headscale/acls/acl.json\", \"mode\": \"file\"}"));
}

#[test]
fn policy_plans_target_the_owning_instance_configmap() {
    let hs = sample_headscale("hs1");
    let policy = Policy {
        name: "net-rules".to_string(),
        namespace: Some("tenants".to_string()),
        spec: PolicySpec {
            headscale_ref: HeadscaleRef { name: "hs1".to_string(), namespace: None },
            groups: None,
            hosts: None,
            tag_owners: None,
            acls: vec![Acl {
                action: Action::Accept,
                src: vec!["group:eng".to_string()],
                dst: vec!["*:*".to_string()],
            }],
        },
    };
    let plan = policy_apply_plan(policy, &hs);
    assert_eq!(plan.configmap_name, "headscale-hs1-acl");
    assert!(plan.content.groups.is_none());
    assert_eq!(plan.content.acls.len(), 1);
    assert_eq!(plan.content.acls[0].src, vec!["group:eng"]);
    assert_eq!(policy_delete_plan(&hs), "headscale-hs1-acl");
}

#[test]
fn policy_config_drops_only_the_instance_reference() {
    let spec = PolicySpec {
        headscale_ref: HeadscaleRef { name: "hs1".to_string(), namespace: None },
        groups: None,
        hosts: None,
        tag_owners: None,
        acls: Vec::new(),
    };
    let config = PolicyConfig::from(spec);
    assert!(config.groups.is_none());
    assert!(config.hosts.is_none());
    assert!(config.tag_owners.is_none());
    assert!(config.acls.is_empty());
}

#[test]
fn key_status_echoes_decoded_record() {
    let st = PreauthKeyStatus::from(sample_key_data());
    assert_eq!(st.id, 3);
    assert_eq!(st.user.id, 7);
    assert!(st.reusable);
    assert!(!st.ephemeral);
    assert_eq!(st.expiration, Timestamp { seconds: 9, nanos: 0 });
}

#[test]
fn default_key_spec_is_single_use_one_hour() {
    let spec = PreauthKeySpec::default();
    assert!(!spec.ephemeral);
    assert!(!spec.reusable);
    assert_eq!(spec.expiration, "1h");
    assert!(spec.target_secret.is_none());
}

#[test]
fn common_labels_name_the_managed_child() {
    let labels = common_labels("headscale-hs1");
    assert_eq!(labels.len(), 5);
    assert_eq!(labels[0], ("app.kubernetes.io/name".to_string(), "headscale-hs1".to_string()));
    assert_eq!(
        labels[2],
        ("app.kubernetes.io/instance".to_string(), "headscale-headscale-hs1".to_string())
    );
    assert_eq!(
        labels[4],
        ("app.kubernetes.io/part-of".to_string(), "headscale".to_string())
    );
}

#[test]
fn user_id_reads_status() {
    assert_eq!(sample_user(None).id(), None);
    let user = sample_user(Some(UserStatus::from(sample_user_data())));
    assert_eq!(user.id(), Some(7));
    assert_eq!(user.namespace_any(), "tenants");
}
