//! Whole-reconciliation scenarios, driven against a small in-memory
//! stand-in for the cluster API.

use kube_study::policy::{error_policy, Action, Error, RETRY_DELAY_SECONDS};
use kube_study::reconcile::{reconcile_init, reconcile_step, ReconcileState, Request, Response};
use kube_study::resource::{
    Container, Label, ObjectMeta, Pod, PodManager, PodTemplate, Spec, Status, Volume,
};

fn nginx_template() -> PodTemplate {
    PodTemplate {
        containers: vec![Container {
            name: "c".to_string(),
            image: "nginx:1.25".to_string(),
            command: Vec::new(),
        }],
        volumes: Vec::new(),
        node_selector: Vec::new(),
    }
}

fn manager_m1() -> PodManager {
    PodManager {
        metadata: ObjectMeta {
            name: Some("m1".to_string()),
            namespace: Some("default".to_string()),
            uid: Some("uid-1".to_string()),
            ..ObjectMeta::empty()
        },
        spec: Spec { template: nginx_template() },
        status: None,
    }
}

struct SimCluster {
    manager: PodManager,
    pods: Vec<Pod>,
    now: String,
}

fn label_value(labels: &[Label], key: &str) -> Option<String> {
    labels.iter().find(|l| l.key == key).map(|l| l.value.clone())
}

fn handle(cluster: &mut SimCluster, request: Request, creates: &mut usize, patches: &mut usize) -> Response {
    match request {
        Request::GetManager { .. } => {
            Response::ManagerFetched { manager: cluster.manager.clone() }
        }
        Request::ListChildren { owned_by, .. } => {
            let children: Vec<Pod> = cluster
                .pods
                .iter()
                .filter(|p| label_value(&p.metadata.labels, "owned-by").as_deref() == Some(owned_by.as_str()))
                .cloned()
                .collect();
            Response::ChildrenListed { children }
        }
        Request::CreateChild { pod, .. } => {
            *creates += 1;
            let mut stored = pod.clone();
            stored.metadata.creation_timestamp = Some(cluster.now.clone());
            cluster.pods.push(stored.clone());
            Response::ChildCreated { child: stored }
        }
        Request::PatchManagerStatus { patch, .. } => {
            *patches += 1;
            cluster.manager.status = Some(Status { create_time: patch.create_time.clone() });
            Response::StatusPatched
        }
    }
}

/// Runs one whole reconciliation of the cluster's manager, returning the
/// outcome and the number of create and status-patch writes it issued.
fn run_reconcile(cluster: &mut SimCluster) -> (Result<Action, Error>, usize, usize) {
    let trigger = cluster.manager.clone();
    let mut creates: usize = 0;
    let mut patches: usize = 0;
    let (mut state, first) = match reconcile_init(&trigger) {
        Ok(x) => x,
        Err(e) => return (Err(e), creates, patches),
    };
    let mut request = first;
    loop {
        let response = handle(cluster, request, &mut creates, &mut patches);
        let (next_state, next_request) = reconcile_step(state, response);
        state = next_state;
        match next_request {
            Some(r) => request = r,
            None => break,
        }
    }
    match state {
        ReconcileState::Done { action } => (Ok(action), creates, patches),
        ReconcileState::Failed { error } => (Err(error), creates, patches),
        _ => panic!("reconciliation stopped without a terminal state"),
    }
}

#[test]
fn first_reconcile_creates_child_and_patches_status() {
    let mut cluster = SimCluster { manager: manager_m1(), pods: Vec::new(), now: "2023-01-01T00:00:00Z".to_string() };
    let (outcome, creates, patches) = run_reconcile(&mut cluster);
    assert!(matches!(outcome, Ok(Action::AwaitChange)));
    assert_eq!(creates, 1);
    assert_eq!(patches, 1);
    assert_eq!(cluster.pods.len(), 1);
    let child = &cluster.pods[0];
    assert_eq!(child.metadata.name.as_deref(), Some("m1"));
    assert_eq!(label_value(&child.metadata.labels, "owned-by").as_deref(), Some("m1"));
    assert_eq!(label_value(&child.metadata.labels, "managed-by").as_deref(), Some("podmanager"));
    assert_eq!(child.metadata.owner_references.len(), 1);
    assert_eq!(child.metadata.owner_references[0].name, "m1");
    assert_eq!(child.metadata.owner_references[0].uid, "uid-1");
    let status = cluster.manager.status.as_ref().expect("status was patched");
    assert_eq!(status.create_time.as_deref(), Some("2023-01-01T00:00:00Z"));
}

#[test]
fn second_reconcile_performs_zero_writes() {
    let mut cluster = SimCluster { manager: manager_m1(), pods: Vec::new(), now: "2023-01-01T00:00:00Z".to_string() };
    let (_, _, _) = run_reconcile(&mut cluster);
    let pods_before = cluster.pods.len();
    let (outcome, creates, patches) = run_reconcile(&mut cluster);
    assert!(matches!(outcome, Ok(Action::AwaitChange)));
    assert_eq!(creates, 0);
    assert_eq!(patches, 0);
    assert_eq!(cluster.pods.len(), pods_before);
    assert_eq!(cluster.pods.len(), 1);
}

#[test]
fn many_reconciliations_leave_exactly_one_child() {
    let mut cluster = SimCluster { manager: manager_m1(), pods: Vec::new(), now: "2023-01-01T00:00:00Z".to_string() };
    for _ in 0..5 {
        let (outcome, _, _) = run_reconcile(&mut cluster);
        assert!(outcome.is_ok());
        assert_eq!(cluster.pods.len(), 1);
    }
}

#[test]
fn manager_without_name_gets_identity_error_and_fixed_retry() {
    let mut manager = manager_m1();
    manager.metadata.name = None;
    manager.metadata.uid = None;
    let mut cluster = SimCluster { manager, pods: Vec::new(), now: "2023-01-01T00:00:00Z".to_string() };
    let (outcome, creates, patches) = run_reconcile(&mut cluster);
    let error = match outcome {
        Err(e) => e,
        Ok(_) => panic!("an unaddressable manager must not reconcile"),
    };
    assert!(matches!(error, Error::MissingIdentity));
    assert_eq!(creates, 0);
    assert_eq!(patches, 0);
    let action = error_policy(&error);
    match action {
        Action::RequeueAfter { seconds } => assert_eq!(seconds, RETRY_DELAY_SECONDS),
        Action::AwaitChange => panic!("failures are retried, not awaited"),
    }
    assert_eq!(RETRY_DELAY_SECONDS, 300);
}

#[test]
fn manager_without_uid_fails_only_when_child_must_be_created() {
    let mut manager = manager_m1();
    manager.metadata.uid = None;
    let mut cluster = SimCluster { manager, pods: Vec::new(), now: "2023-01-01T00:00:00Z".to_string() };
    let (outcome, creates, _) = run_reconcile(&mut cluster);
    assert!(matches!(outcome, Err(Error::MissingIdentity)));
    assert_eq!(creates, 0);

    let mut manager = manager_m1();
    manager.metadata.uid = None;
    let child = Pod {
        metadata: ObjectMeta {
            name: Some("m1".to_string()),
            labels: vec![
                Label { key: "owned-by".to_string(), value: "m1".to_string() },
                Label { key: "managed-by".to_string(), value: "podmanager".to_string() },
            ],
            creation_timestamp: Some("2022-12-31T00:00:00Z".to_string()),
            ..ObjectMeta::empty()
        },
        spec: Some(nginx_template()),
    };
    let mut cluster = SimCluster { manager, pods: vec![child], now: "2023-01-01T00:00:00Z".to_string() };
    let (outcome, creates, patches) = run_reconcile(&mut cluster);
    assert!(matches!(outcome, Ok(Action::AwaitChange)));
    assert_eq!(creates, 0);
    assert_eq!(patches, 1);
}

#[test]
fn status_is_never_rewritten_once_set() {
    let mut manager = manager_m1();
    manager.status = Some(Status { create_time: Some("2022-01-01T00:00:00Z".to_string()) });
    let child = Pod {
        metadata: ObjectMeta {
            name: Some("m1".to_string()),
            labels: vec![Label { key: "owned-by".to_string(), value: "m1".to_string() }],
            creation_timestamp: Some("2023-06-01T00:00:00Z".to_string()),
            ..ObjectMeta::empty()
        },
        spec: Some(nginx_template()),
    };
    let mut cluster = SimCluster { manager, pods: vec![child], now: "2023-06-02T00:00:00Z".to_string() };
    let (outcome, creates, patches) = run_reconcile(&mut cluster);
    assert!(matches!(outcome, Ok(Action::AwaitChange)));
    assert_eq!(creates, 0);
    assert_eq!(patches, 0);
    let status = cluster.manager.status.as_ref().expect("status stays");
    assert_eq!(status.create_time.as_deref(), Some("2022-01-01T00:00:00Z"));

    // The child disappears and is recreated with a later timestamp: the
    // recorded creation time still never changes.
    cluster.pods.clear();
    let (outcome, creates, patches) = run_reconcile(&mut cluster);
    assert!(matches!(outcome, Ok(Action::AwaitChange)));
    assert_eq!(creates, 1);
    assert_eq!(patches, 0);
    let status = cluster.manager.status.as_ref().expect("status stays");
    assert_eq!(status.create_time.as_deref(), Some("2022-01-01T00:00:00Z"));
}

#[test]
fn status_present_but_empty_is_patched() {
    let mut manager = manager_m1();
    manager.status = Some(Status { create_time: None });
    let mut cluster = SimCluster { manager, pods: Vec::new(), now: "2023-01-01T00:00:00Z".to_string() };
    let (outcome, creates, patches) = run_reconcile(&mut cluster);
    assert!(matches!(outcome, Ok(Action::AwaitChange)));
    assert_eq!(creates, 1);
    assert_eq!(patches, 1);
    let status = cluster.manager.status.as_ref().expect("status was patched");
    assert_eq!(status.create_time.as_deref(), Some("2023-01-01T00:00:00Z"));
}

#[test]
fn first_listed_child_is_adopted_when_several_exist() {
    let make_child = |ts: &str| Pod {
        metadata: ObjectMeta {
            name: Some("m1".to_string()),
            labels: vec![Label { key: "owned-by".to_string(), value: "m1".to_string() }],
            creation_timestamp: Some(ts.to_string()),
            ..ObjectMeta::empty()
        },
        spec: Some(nginx_template()),
    };
    let mut cluster = SimCluster {
        manager: manager_m1(),
        pods: vec![make_child("2023-03-01T00:00:00Z"), make_child("2023-04-01T00:00:00Z")],
        now: "2023-05-01T00:00:00Z".to_string(),
    };
    let (outcome, creates, patches) = run_reconcile(&mut cluster);
    assert!(matches!(outcome, Ok(Action::AwaitChange)));
    assert_eq!(creates, 0);
    assert_eq!(patches, 1);
    let status = cluster.manager.status.as_ref().expect("status was patched");
    assert_eq!(status.create_time.as_deref(), Some("2023-03-01T00:00:00Z"));
    assert_eq!(cluster.pods.len(), 2);
}

#[test]
fn unlabeled_pods_are_not_adopted() {
    let stranger = Pod {
        metadata: ObjectMeta {
            name: Some("other".to_string()),
            labels: vec![Label { key: "owned-by".to_string(), value: "m2".to_string() }],
            creation_timestamp: Some("2023-01-01T00:00:00Z".to_string()),
            ..ObjectMeta::empty()
        },
        spec: None,
    };
    let mut cluster = SimCluster { manager: manager_m1(), pods: vec![stranger], now: "2023-02-01T00:00:00Z".to_string() };
    let (outcome, creates, _) = run_reconcile(&mut cluster);
    assert!(matches!(outcome, Ok(Action::AwaitChange)));
    assert_eq!(creates, 1);
    assert_eq!(cluster.pods.len(), 2);
}

#[test]
fn api_failure_surfaces_as_error_and_is_retried() {
    let manager = manager_m1();
    let (state, _request) = reconcile_init(&manager).expect("addressable manager");
    let (state, next) = reconcile_step(state, Response::ApiFailure { message: "boom".to_string() });
    assert!(next.is_none());
    let error = match state {
        ReconcileState::Failed { error } => error,
        _ => panic!("an API failure must end the attempt"),
    };
    match &error {
        Error::ApiError { message } => assert_eq!(message, "boom"),
        Error::MissingIdentity => panic!("wrong error variant"),
    }
    match error_policy(&error) {
        Action::RequeueAfter { seconds } => assert_eq!(seconds, 300),
        Action::AwaitChange => panic!("failures are retried, not awaited"),
    }
}

#[test]
fn created_child_spec_is_the_template_verbatim() {
    let mut manager = manager_m1();
    manager.spec.template.containers[0].command =
        vec!["nginx".to_string(), "-g".to_string(), "daemon off;".to_string()];
    manager.spec.template.volumes = vec![Volume { name: "data".to_string() }];
    manager.spec.template.node_selector =
        vec![Label { key: "disktype".to_string(), value: "ssd".to_string() }];
    let mut cluster = SimCluster { manager, pods: Vec::new(), now: "2023-01-01T00:00:00Z".to_string() };
    let (outcome, _, _) = run_reconcile(&mut cluster);
    assert!(outcome.is_ok());
    let spec = cluster.pods[0].spec.as_ref().expect("created child has a spec");
    assert_eq!(spec.containers.len(), 1);
    assert_eq!(spec.containers[0].name, "c");
    assert_eq!(spec.containers[0].image, "nginx:1.25");
    assert_eq!(spec.containers[0].command, vec!["nginx", "-g", "daemon off;"]);
    assert_eq!(spec.volumes.len(), 1);
    assert_eq!(spec.volumes[0].name, "data");
    assert_eq!(spec.node_selector.len(), 1);
    assert_eq!(spec.node_selector[0].key, "disktype");
    assert_eq!(spec.node_selector[0].value, "ssd");
}
