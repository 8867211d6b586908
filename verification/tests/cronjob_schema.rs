//! The cron-job schema mirror: pure data description, constructed and
//! read back on concrete values.

#![allow(non_snake_case)]

use std::collections::BTreeMap;

use kube_study::cronjob::{
    CronJobJobTemplate, CronJobJobTemplateSpec, CronJobJobTemplateSpecTemplate,
    CronJobJobTemplateSpecTemplateSpec, CronJobJobTemplateSpecTemplateSpecContainers,
    CronJobSchedule, CronJobSpec, CronJobStatus, IntOrString,
};

fn minute_schedule() -> CronJobSchedule {
    CronJobSchedule {
        dayOfMonth: None,
        dayOfWeek: None,
        hour: None,
        minute: Some("*/5".to_string()),
        month: None,
    }
}

#[test]
fn cron_job_spec_holds_its_fields() {
    let spec = CronJobSpec {
        concurrencyPolicy: Some("Forbid".to_string()),
        failedJobHistoryLimit: Some(1),
        jobTemplate: CronJobJobTemplate { metadata: None, spec: None },
        schedule: minute_schedule(),
        startingDeadlineSeconds: Some(60),
        successfulJobHistoryLimit: Some(3),
        suspend: Some(false),
    };
    assert_eq!(spec.concurrencyPolicy.as_deref(), Some("Forbid"));
    assert_eq!(spec.failedJobHistoryLimit, Some(1));
    assert_eq!(spec.schedule.minute.as_deref(), Some("*/5"));
    assert_eq!(spec.startingDeadlineSeconds, Some(60));
    assert_eq!(spec.suspend, Some(false));
    let copy = spec.clone();
    assert_eq!(copy.successfulJobHistoryLimit, Some(3));
}

#[test]
fn cron_job_status_starts_empty() {
    let status = CronJobStatus { active: None, lastScheduleTime: None };
    assert!(status.active.is_none());
    assert!(status.lastScheduleTime.is_none());
}

#[test]
fn pod_template_mirror_nests_to_containers() {
    let mut selector: BTreeMap<String, String> = BTreeMap::new();
    selector.insert("disktype".to_string(), "ssd".to_string());
    let container = CronJobJobTemplateSpecTemplateSpecContainers {
        args: None,
        command: Some(vec!["sh".to_string(), "-c".to_string(), "date".to_string()]),
        env: None,
        envFrom: None,
        image: Some("busybox:1.36".to_string()),
        imagePullPolicy: None,
        lifecycle: None,
        livenessProbe: None,
        name: "main".to_string(),
        ports: None,
        readinessProbe: None,
        resources: None,
        securityContext: None,
        startupProbe: None,
        stdin: None,
        stdinOnce: None,
        terminationMessagePath: None,
        terminationMessagePolicy: None,
        tty: None,
        volumeDevices: None,
        volumeMounts: None,
        workingDir: None,
    };
    let pod_spec = CronJobJobTemplateSpecTemplateSpec {
        activeDeadlineSeconds: None,
        affinity: None,
        automountServiceAccountToken: None,
        containers: vec![container],
        dnsConfig: None,
        dnsPolicy: None,
        enableServiceLinks: None,
        ephemeralContainers: None,
        hostAliases: None,
        hostIPC: None,
        hostNetwork: None,
        hostPID: None,
        hostname: None,
        imagePullSecrets: None,
        initContainers: None,
        nodeName: None,
        nodeSelector: Some(selector),
        os: None,
        overhead: None,
        preemptionPolicy: None,
        priority: None,
        priorityClassName: None,
        readinessGates: None,
        restartPolicy: Some("OnFailure".to_string()),
        runtimeClassName: None,
        schedulerName: None,
        securityContext: None,
        serviceAccount: None,
        serviceAccountName: None,
        setHostnameAsFQDN: None,
        shareProcessNamespace: None,
        subdomain: None,
        terminationGracePeriodSeconds: None,
        tolerations: None,
        topologySpreadConstraints: None,
        volumes: None,
    };
    let template = CronJobJobTemplate {
        metadata: None,
        spec: Some(CronJobJobTemplateSpec {
            activeDeadlineSeconds: None,
            backoffLimit: Some(6),
            completionMode: None,
            completions: None,
            manualSelector: None,
            parallelism: None,
            selector: None,
            suspend: None,
            template: CronJobJobTemplateSpecTemplate { metadata: None, spec: Some(pod_spec) },
            ttlSecondsAfterFinished: None,
        }),
    };
    let inner = template.spec.as_ref().unwrap();
    assert_eq!(inner.backoffLimit, Some(6));
    let pod = inner.template.spec.as_ref().unwrap();
    assert_eq!(pod.containers.len(), 1);
    assert_eq!(pod.containers[0].name, "main");
    assert_eq!(pod.containers[0].image.as_deref(), Some("busybox:1.36"));
    assert_eq!(pod.nodeSelector.as_ref().unwrap().get("disktype").map(String::as_str), Some("ssd"));
}

#[test]
fn int_or_string_holds_both_forms() {
    let port = IntOrString::Int(8080);
    match port {
        IntOrString::Int(n) => assert_eq!(n, 8080),
        IntOrString::Text(_) => panic!("built as an integer"),
    }
    let named = IntOrString::Text("http".to_string());
    match named {
        IntOrString::Int(_) => panic!("built as a string"),
        IntOrString::Text(s) => assert_eq!(s, "http"),
    }
}
