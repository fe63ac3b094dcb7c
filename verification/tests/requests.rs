use kuber::clock::{ClockReading, Timestamp};
use kuber::requests::{
    delete_deployment, delete_pod, get_patch_spec, get_pod_container_logs, restart_deployment,
    restart_patch, DeleteRequest, LogRequest, PatchRequest, ResourceKind,
};
use kuber::resources::{DeploymentInfo, PodInfo};

fn nested(key: &str, value: serde_json::Value) -> serde_json::Value {
    let mut object = serde_json::Map::new();
    object.insert(key.to_string(), value);
    serde_json::Value::Object(object)
}

fn expected_patch(timestamp: &str) -> serde_json::Value {
    nested(
        "spec",
        nested(
            "template",
            nested(
                "metadata",
                nested(
                    "annotations",
                    nested(
                        "kubectl.kubernetes.io/restartedAt",
                        serde_json::Value::String(timestamp.to_string()),
                    ),
                ),
            ),
        ),
    )
}

fn restarted_at(body: &str) -> String {
    let patch: serde_json::Value = serde_json::from_str(body).unwrap();
    let at = &patch["spec"]["template"]["metadata"]["annotations"]["kubectl.kubernetes.io/restartedAt"];
    at.as_str().unwrap().to_string()
}

fn pod(name: &str, namespace: Option<&str>) -> PodInfo {
    PodInfo {
        name: name.to_string(),
        namespace: namespace.map(|n| n.to_string()),
        containers: Some(vec!["app".to_string()]),
    }
}

fn deployment(name: &str, namespace: Option<&str>) -> DeploymentInfo {
    DeploymentInfo {
        name: name.to_string(),
        namespace: namespace.map(|n| n.to_string()),
        status: None,
        created: None,
    }
}

#[test]
fn restart_patch_is_exactly_the_annotation_document() {
    let body = restart_patch("2015-05-15T00:00:00+00:00");
    assert_eq!(
        body,
        "{\"spec\":{\"template\":{\"metadata\":{\"annotations\":{\"kubectl.kubernetes.io/restartedAt\":\"2015-05-15T00:00:00+00:00\"}}}}}"
    );
    let parsed: serde_json::Value = serde_json::from_str(&body).unwrap();
    assert_eq!(parsed, expected_patch("2015-05-15T00:00:00+00:00"));
    assert_eq!(body, serde_json::to_string(&expected_patch("2015-05-15T00:00:00+00:00")).unwrap());
}

#[test]
fn restart_patch_of_the_clock_carries_the_present_time() {
    let before = chrono::Utc::now();
    let body = get_patch_spec();
    let after = chrono::Utc::now();
    let text = restarted_at(&body);
    let parsed: serde_json::Value = serde_json::from_str(&body).unwrap();
    assert_eq!(parsed, expected_patch(&text));
    assert_eq!(body, restart_patch(&text));
    let at = chrono::DateTime::parse_from_rfc3339(&text).unwrap();
    assert_eq!(at.to_rfc3339(), text);
    assert!(before <= at && at <= after);
    assert!(text.chars().all(|c| c.is_ascii_digit() || "+-:.T".contains(c)));
}

#[test]
fn restart_patches_a_second_apart_differ() {
    let first = get_patch_spec();
    let started = std::time::Instant::now();
    while started.elapsed() < std::time::Duration::from_millis(1_050) {
        std::hint::spin_loop();
    }
    let second = get_patch_spec();
    assert_ne!(restarted_at(&first), restarted_at(&second));
    assert_ne!(first, second);
}

#[test]
fn restart_request_goes_to_the_namespace_of_the_deployment() {
    let now = ClockReading {
        at: Timestamp { secs: 1_431_648_000, nanos: 0 },
        rfc3339: "2015-05-15T00:00:00+00:00".to_string(),
    };
    let request = restart_deployment(&deployment("web", Some("shop")), &now);
    assert_eq!(
        request,
        PatchRequest {
            namespace: "shop".to_string(),
            name: "web".to_string(),
            field_manager: "shop".to_string(),
            body: restart_patch("2015-05-15T00:00:00+00:00"),
        }
    );
}

#[test]
fn restart_request_defaults_the_namespace() {
    let now = ClockReading {
        at: Timestamp { secs: 0, nanos: 0 },
        rfc3339: "1970-01-01T00:00:00+00:00".to_string(),
    };
    let request = restart_deployment(&deployment("web", None), &now);
    assert_eq!(request.namespace, "default");
    assert_eq!(request.field_manager, "default");
    assert_eq!(request.name, "web");
    assert_eq!(restarted_at(&request.body), "1970-01-01T00:00:00+00:00");
}

#[test]
fn restart_patch_is_the_same_for_every_deployment() {
    let now = ClockReading {
        at: Timestamp { secs: 0, nanos: 0 },
        rfc3339: "1970-01-01T00:00:00+00:00".to_string(),
    };
    let one = restart_deployment(&deployment("web", Some("shop")), &now);
    let other = restart_deployment(&deployment("api", None), &now);
    assert_eq!(one.body, other.body);
}

#[test]
fn delete_deployment_is_scoped_to_its_namespace() {
    assert_eq!(
        delete_deployment(&deployment("web", Some("shop"))),
        DeleteRequest {
            kind: ResourceKind::Deployment,
            namespace: "shop".to_string(),
            name: "web".to_string(),
        }
    );
    assert_eq!(delete_deployment(&deployment("web", None)).namespace, "default");
}

#[test]
fn delete_pod_is_scoped_to_the_namespace_of_the_pod() {
    assert_eq!(
        delete_pod(&pod("web-1", Some("shop"))),
        DeleteRequest {
            kind: ResourceKind::Pod,
            namespace: "shop".to_string(),
            name: "web-1".to_string(),
        }
    );
    assert_eq!(delete_pod(&pod("web-1", None)).namespace, "default");
}

#[test]
fn log_requests_go_to_the_pods_of_that_name() {
    let current = vec![pod("api-1", Some("shop")), pod("web-1", Some("shop")), pod("web-2", Some("shop"))];
    let requests = get_pod_container_logs(&current, &pod("web-1", Some("shop")), "app");
    assert_eq!(
        requests,
        vec![LogRequest {
            namespace: "shop".to_string(),
            pod: "web-1".to_string(),
            container: "app".to_string(),
        }]
    );
}

#[test]
fn log_requests_are_none_where_the_pod_is_gone() {
    let current = vec![pod("api-1", None)];
    assert_eq!(get_pod_container_logs(&current, &pod("web-1", None), "app"), Vec::new());
    assert_eq!(get_pod_container_logs(&Vec::new(), &pod("web-1", None), "app"), Vec::new());
}

#[test]
fn log_requests_repeat_for_each_pod_of_the_name() {
    let current = vec![pod("web-1", None), pod("api-1", None), pod("web-1", Some("other"))];
    let requests = get_pod_container_logs(&current, &pod("web-1", None), "sidecar");
    let expected = LogRequest {
        namespace: "default".to_string(),
        pod: "web-1".to_string(),
        container: "sidecar".to_string(),
    };
    assert_eq!(requests, vec![expected.clone(), expected]);
}
