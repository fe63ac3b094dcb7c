use kuber::cli::{Action, Cli, Event, RunState, Step, SubCommands};
use kuber::clock::{ClockReading, Timestamp};
use kuber::requests::{restart_patch, LogRequest, PatchRequest};
use kuber::resources::{format_deployment_row, DeploymentInfo, PodInfo, ReplicaStatus};

fn pod(name: &str, namespace: Option<&str>, containers: Option<Vec<&str>>) -> PodInfo {
    PodInfo {
        name: name.to_string(),
        namespace: namespace.map(|n| n.to_string()),
        containers: containers.map(|names| names.iter().map(|n| n.to_string()).collect()),
    }
}

fn deployment(name: &str, ready: Option<i32>, created: Option<i64>) -> DeploymentInfo {
    DeploymentInfo {
        name: name.to_string(),
        namespace: None,
        status: Some(ReplicaStatus { ready, updated: ready, available: Some(1) }),
        created: created.map(|secs| Timestamp { secs, nanos: 0 }),
    }
}

fn reading(secs: i64, rfc3339: &str) -> ClockReading {
    ClockReading { at: Timestamp { secs, nanos: 0 }, rfc3339: rfc3339.to_string() }
}

fn finish(step: Step) {
    assert_eq!(step.state, RunState::Finishing);
    assert!(step.state.accepts(&Event::Done));
    let last = step.state.advance(Event::Done);
    assert_eq!(last, Step { state: RunState::Finished, action: Action::Exit });
    assert!(!last.state.accepts(&Event::Done));
    assert!(!last.state.accepts(&Event::Selected { index: 0 }));
}

#[test]
fn delete_pod_only_prints_its_notice() {
    let step = Cli { subcmd: SubCommands::DeletePod }.run();
    assert_eq!(step.action, Action::Print { lines: vec!["Deleting a pod".to_string()] });
    assert!(!step.state.accepts(&Event::Pods { pods: Vec::new() }));
    assert!(!step.state.accepts(&Event::Selected { index: 0 }));
    finish(step);
}

#[test]
fn delete_deployment_only_prints_its_notice() {
    let step = Cli { subcmd: SubCommands::DeleteDeployment }.run();
    assert_eq!(step.action, Action::Print { lines: vec!["Deleting a deployment".to_string()] });
    assert!(!step.state.accepts(&Event::Deployments { deployments: Vec::new() }));
    finish(step);
}

#[test]
fn get_namespaces_prints_one_name_per_line() {
    let step = Cli { subcmd: SubCommands::GetNamespaces }.run();
    assert_eq!(step.action, Action::ListNamespaces);
    let names = vec!["default".to_string(), "kube-system".to_string()];
    let event = Event::Namespaces { names: names.clone() };
    assert!(step.state.accepts(&event));
    let step = step.state.advance(event);
    assert_eq!(step.action, Action::Print { lines: names });
    finish(step);
}

#[test]
fn get_pods_lists_the_default_namespace() {
    let step = Cli { subcmd: SubCommands::GetPods }.run();
    assert_eq!(step.action, Action::ListPods { namespace: "default".to_string() });
    let event = Event::Pods { pods: vec![pod("web-1", None, None), pod("api-1", Some("x"), None)] };
    assert!(step.state.accepts(&event));
    let step = step.state.advance(event);
    assert_eq!(step.action, Action::Print { lines: vec!["web-1".to_string(), "api-1".to_string()] });
    finish(step);
}

#[test]
fn get_deployments_lists_the_default_namespace() {
    let step = Cli { subcmd: SubCommands::GetDeployments }.run();
    assert_eq!(step.action, Action::ListDeployments { namespace: "default".to_string() });
    let event = Event::Deployments { deployments: vec![deployment("web", None, None)] };
    assert!(step.state.accepts(&event));
    let step = step.state.advance(event);
    assert_eq!(step.action, Action::Print { lines: vec!["web".to_string()] });
    finish(step);
}

#[test]
fn get_pods_of_an_empty_namespace_prints_nothing() {
    let step = Cli { subcmd: SubCommands::GetPods }.run();
    let step = step.state.advance(Event::Pods { pods: Vec::new() });
    assert_eq!(step.action, Action::Print { lines: Vec::new() });
    finish(step);
}

#[test]
fn logs_chooses_a_pod_then_a_container_then_streams() {
    let step = Cli { subcmd: SubCommands::Logs }.run();
    assert_eq!(step.action, Action::ListPods { namespace: "default".to_string() });

    let pods = vec![
        pod("api-1", Some("default"), Some(vec!["api"])),
        pod("web-1", Some("shop"), Some(vec!["app", "sidecar"])),
    ];
    let event = Event::Pods { pods: pods.clone() };
    assert!(step.state.accepts(&event));
    let step = step.state.advance(event);
    assert_eq!(
        step.action,
        Action::Select {
            prompt: "Select a pod".to_string(),
            items: vec!["api-1".to_string(), "web-1".to_string()],
            default: 0,
        }
    );
    assert_eq!(step.state, RunState::ChoosingPod { pods: pods.clone() });

    assert!(!step.state.accepts(&Event::Selected { index: 2 }));
    assert!(!step.state.accepts(&Event::Done));
    assert!(step.state.accepts(&Event::Selected { index: 1 }));
    let step = step.state.advance(Event::Selected { index: 1 });
    assert_eq!(
        step.action,
        Action::Select {
            prompt: "Select a container".to_string(),
            items: vec!["app".to_string(), "sidecar".to_string()],
            default: 0,
        }
    );
    assert_eq!(
        step.state,
        RunState::ChoosingContainer {
            pod: pods[1].clone(),
            containers: vec!["app".to_string(), "sidecar".to_string()],
        }
    );

    assert!(!step.state.accepts(&Event::Selected { index: 2 }));
    assert!(step.state.accepts(&Event::Selected { index: 1 }));
    let step = step.state.advance(Event::Selected { index: 1 });
    assert_eq!(step.action, Action::ListPods { namespace: "shop".to_string() });
    assert_eq!(
        step.state,
        RunState::LocatingPod { pod: pods[1].clone(), container: "sidecar".to_string() }
    );

    let current = vec![pod("web-0", Some("shop"), None), pod("web-1", Some("shop"), None)];
    let event = Event::Pods { pods: current };
    assert!(step.state.accepts(&event));
    let step = step.state.advance(event);
    assert_eq!(
        step.action,
        Action::StreamLogs {
            requests: vec![LogRequest {
                namespace: "shop".to_string(),
                pod: "web-1".to_string(),
                container: "sidecar".to_string(),
            }],
        }
    );
    finish(step);
}

#[test]
fn logs_looks_for_a_pod_without_namespace_in_default() {
    let state = RunState::ChoosingContainer {
        pod: pod("web-1", None, Some(vec!["app"])),
        containers: vec!["app".to_string()],
    };
    let step = state.advance(Event::Selected { index: 0 });
    assert_eq!(step.action, Action::ListPods { namespace: "default".to_string() });
}

#[test]
fn logs_does_not_go_on_from_a_pod_without_spec() {
    let state = RunState::ChoosingPod {
        pods: vec![pod("web-1", None, Some(vec!["app"])), pod("web-2", None, None)],
    };
    assert!(state.accepts(&Event::Selected { index: 0 }));
    assert!(!state.accepts(&Event::Selected { index: 1 }));
}

#[test]
fn logs_offers_an_empty_menu_for_an_empty_namespace() {
    let step = Cli { subcmd: SubCommands::Logs }.run();
    let step = step.state.advance(Event::Pods { pods: Vec::new() });
    assert_eq!(
        step.action,
        Action::Select { prompt: "Select a pod".to_string(), items: Vec::new(), default: 0 }
    );
    assert!(!step.state.accepts(&Event::Selected { index: 0 }));
}

#[test]
fn restart_deployment_chooses_from_the_table_and_patches() {
    let step = Cli { subcmd: SubCommands::RestartDeployment }.run();
    assert_eq!(step.action, Action::ListDeployments { namespace: "default".to_string() });
    assert!(step.state.consults_clock());

    let deployments = vec![
        deployment("web", Some(2), Some(1_431_648_000 - 93_785)),
        deployment("api", None, Some(1_431_648_000)),
    ];
    let event = Event::Deployments { deployments: deployments.clone() };
    assert!(step.state.accepts(&event));
    let now = reading(1_431_648_000, "2015-05-15T00:00:00+00:00");
    let step = step.state.advance_at(event, &now);
    assert_eq!(
        step.action,
        Action::Select {
            prompt: "Select a deployment to restart".to_string(),
            items: vec![
                format_deployment_row("web", 2, 2, 1, "1d 2h 3m 5s"),
                format_deployment_row("api", 0, 0, 1, "0d 0h 0m 0s"),
            ],
            default: 0,
        }
    );
    assert_eq!(step.state, RunState::ChoosingDeployment { deployments });

    assert!(!step.state.accepts(&Event::Selected { index: 2 }));
    assert!(step.state.accepts(&Event::Selected { index: 1 }));
    let later = reading(1_431_648_060, "2015-05-15T00:01:00+00:00");
    let step = step.state.advance_at(Event::Selected { index: 1 }, &later);
    assert_eq!(
        step.action,
        Action::Patch {
            request: PatchRequest {
                namespace: "default".to_string(),
                name: "api".to_string(),
                field_manager: "default".to_string(),
                body: restart_patch("2015-05-15T00:01:00+00:00"),
            },
        }
    );
    finish(step);
}

#[test]
fn restart_deployment_cuts_a_wide_name_in_the_table() {
    let step = Cli { subcmd: SubCommands::RestartDeployment }.run();
    let name = "a-deployment-with-a-name-of-forty-chars!";
    let mut wide = deployment(name, Some(2), Some(1_431_648_000 - 93_785));
    wide.status = Some(ReplicaStatus { ready: Some(2), updated: Some(2), available: Some(1) });
    let now = reading(1_431_648_000, "2015-05-15T00:00:00+00:00");
    let step = step.state.advance_at(Event::Deployments { deployments: vec![wide] }, &now);
    assert_eq!(
        step.action,
        Action::Select {
            prompt: "Select a deployment to restart".to_string(),
            items: vec![
                "a-deployment-with-a-name-of-fo 2          2          1          1d 2h 3m 5s"
                    .to_string(),
            ],
            default: 0,
        }
    );
    let step = step.state.advance_at(Event::Selected { index: 0 }, &now);
    match step.action {
        Action::Patch { request } => assert_eq!(request.name, name),
        other => panic!("not a patch: {:?}", other),
    }
}

#[test]
fn restart_deployment_reads_the_clock_itself() {
    let before = chrono::Utc::now().timestamp();
    let step = Cli { subcmd: SubCommands::RestartDeployment }.run();
    let deployments = vec![deployment("web", Some(2), Some(before - 93_785))];
    let step = step.state.advance(Event::Deployments { deployments });
    let after = chrono::Utc::now().timestamp();
    let rows = match &step.action {
        Action::Select { items, .. } => items.clone(),
        other => panic!("not a menu: {:?}", other),
    };
    let possible: Vec<String> = (before..=after)
        .map(|now| {
            let age = kuber::format_age((now - before + 93_785) as i128);
            format_deployment_row("web", 2, 2, 1, &age)
        })
        .collect();
    assert_eq!(rows.len(), 1);
    assert!(possible.contains(&rows[0]));

    let step = step.state.advance(Event::Selected { index: 0 });
    let request = match step.action {
        Action::Patch { request } => request,
        other => panic!("not a patch: {:?}", other),
    };
    assert_eq!(request.name, "web");
    assert_eq!(request.namespace, "default");
    let patch: serde_json::Value = serde_json::from_str(&request.body).unwrap();
    let at = patch["spec"]["template"]["metadata"]["annotations"]["kubectl.kubernetes.io/restartedAt"]
        .as_str()
        .unwrap()
        .to_string();
    let at = chrono::DateTime::parse_from_rfc3339(&at).unwrap().timestamp();
    assert!(before <= at && at <= chrono::Utc::now().timestamp());
}

#[test]
fn restart_deployment_does_not_go_on_without_a_creation_time() {
    let step = Cli { subcmd: SubCommands::RestartDeployment }.run();
    let event = Event::Deployments {
        deployments: vec![deployment("web", None, Some(0)), deployment("api", None, None)],
    };
    assert!(!step.state.accepts(&event));
    let listing = Cli { subcmd: SubCommands::GetDeployments }.run();
    assert!(listing.state.accepts(&event));
}

#[test]
fn only_the_states_with_ages_or_patches_consult_the_clock() {
    assert!(RunState::ListingDeploymentsForRestart.consults_clock());
    assert!(RunState::ChoosingDeployment { deployments: Vec::new() }.consults_clock());
    assert!(!RunState::ListingNamespaces.consults_clock());
    assert!(!RunState::ListingPods.consults_clock());
    assert!(!RunState::ListingDeployments.consults_clock());
    assert!(!RunState::ListingPodsForLogs.consults_clock());
    assert!(!RunState::ChoosingPod { pods: Vec::new() }.consults_clock());
    assert!(!RunState::Finishing.consults_clock());
    assert!(!RunState::Finished.consults_clock());
}

#[test]
fn a_state_takes_only_the_answer_to_its_action() {
    let listing = Cli { subcmd: SubCommands::GetNamespaces }.run().state;
    assert!(!listing.accepts(&Event::Pods { pods: Vec::new() }));
    assert!(!listing.accepts(&Event::Done));
    let pods = Cli { subcmd: SubCommands::GetPods }.run().state;
    assert!(!pods.accepts(&Event::Namespaces { names: Vec::new() }));
    assert!(!pods.accepts(&Event::Deployments { deployments: Vec::new() }));
    assert!(!RunState::Finishing.accepts(&Event::Namespaces { names: Vec::new() }));
}
