//! The desired-state builder and the error policy, on concrete values.

use kube_study::builder::{child_selector, create_owned_pod};
use kube_study::policy::{error_policy, Action, Error, RETRY_DELAY_SECONDS};
use kube_study::resource::{Container, Label, ObjectMeta, PodManager, PodTemplate, Spec, Status};

fn sample_manager() -> PodManager {
    PodManager {
        metadata: ObjectMeta {
            name: Some("m1".to_string()),
            namespace: Some("default".to_string()),
            uid: Some("uid-1".to_string()),
            resource_version: Some("41".to_string()),
            creation_timestamp: Some("2022-11-01T00:00:00Z".to_string()),
            labels: Vec::new(),
            owner_references: Vec::new(),
        },
        spec: Spec {
            template: PodTemplate {
                containers: vec![Container {
                    name: "c".to_string(),
                    image: "nginx:1.25".to_string(),
                    command: vec!["nginx".to_string()],
                }],
                volumes: Vec::new(),
                node_selector: Vec::new(),
            },
        },
        status: None,
    }
}

#[test]
fn desired_child_carries_identity_labels_and_ownership() {
    let manager = sample_manager();
    let pod = create_owned_pod(&manager).expect("manager has name and uid");
    assert_eq!(pod.metadata.name.as_deref(), Some("m1"));
    assert!(pod.metadata.namespace.is_none());
    assert!(pod.metadata.uid.is_none());
    assert!(pod.metadata.resource_version.is_none());
    assert!(pod.metadata.creation_timestamp.is_none());
    assert_eq!(pod.metadata.labels.len(), 2);
    assert_eq!(pod.metadata.labels[0].key, "owned-by");
    assert_eq!(pod.metadata.labels[0].value, "m1");
    assert_eq!(pod.metadata.labels[1].key, "managed-by");
    assert_eq!(pod.metadata.labels[1].value, "podmanager");
    assert_eq!(pod.metadata.owner_references.len(), 1);
    let oref = &pod.metadata.owner_references[0];
    assert_eq!(oref.api_version, "bestgopher.com/v1");
    assert_eq!(oref.kind, "PodManager");
    assert_eq!(oref.name, "m1");
    assert_eq!(oref.uid, "uid-1");
    assert!(oref.controller);
    assert!(oref.block_owner_deletion);
}

#[test]
fn desired_child_copies_the_template_verbatim() {
    let manager = sample_manager();
    let pod = create_owned_pod(&manager).expect("manager has name and uid");
    let template = pod.spec.expect("a creation request carries the spec");
    assert_eq!(template.containers.len(), 1);
    assert_eq!(template.containers[0].name, "c");
    assert_eq!(template.containers[0].image, "nginx:1.25");
    assert_eq!(template.containers[0].command, vec!["nginx"]);
    assert!(template.volumes.is_empty());
    assert!(template.node_selector.is_empty());
}

#[test]
fn builder_rejects_manager_without_name() {
    let mut manager = sample_manager();
    manager.metadata.name = None;
    assert!(matches!(create_owned_pod(&manager), Err(Error::MissingIdentity)));
}

#[test]
fn builder_rejects_manager_without_uid() {
    let mut manager = sample_manager();
    manager.metadata.uid = None;
    assert!(matches!(create_owned_pod(&manager), Err(Error::MissingIdentity)));
}

#[test]
fn builder_does_not_read_the_status() {
    let mut manager = sample_manager();
    manager.status = Some(Status { create_time: Some("2021-01-01T00:00:00Z".to_string()) });
    let pod = create_owned_pod(&manager).expect("manager has name and uid");
    assert_eq!(pod.metadata.name.as_deref(), Some("m1"));
    assert!(pod.metadata.creation_timestamp.is_none());
}

#[test]
fn child_selector_joins_key_and_name() {
    assert_eq!(child_selector("m1"), "owned-by=m1");
    assert_eq!(child_selector(""), "owned-by=");
}

#[test]
fn error_policy_retries_every_error_after_five_minutes() {
    let transport = Error::ApiError { message: "connection reset".to_string() };
    match error_policy(&transport) {
        Action::RequeueAfter { seconds } => assert_eq!(seconds, 5 * 60),
        Action::AwaitChange => panic!("failures are retried, not awaited"),
    }
    match error_policy(&Error::MissingIdentity) {
        Action::RequeueAfter { seconds } => assert_eq!(seconds, RETRY_DELAY_SECONDS),
        Action::AwaitChange => panic!("failures are retried, not awaited"),
    }
}

#[test]
fn label_pairs_clone_verbatim() {
    let label = Label { key: "owned-by".to_string(), value: "m1".to_string() };
    let copy = label.clone();
    assert_eq!(copy.key, label.key);
    assert_eq!(copy.value, label.value);
}
