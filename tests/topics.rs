use kube_topics::cli::{run, select_topic, usage, CliError, Outcome};
use kube_topics::page::{compose_page, render_topic};
use kube_topics::topic::Topic;
use kube_topics::yaml::{reformat_yaml, YamlError, MAX_YAML_LEN};
use yaml_rust::{Yaml, YamlLoader};

fn invoke(words: &[&str]) -> Outcome {
    let args: Vec<String> = words.iter().map(|w| w.to_string()).collect();
    run(&args)
}

fn yaml_part(t: Topic, stdout: &str) -> String {
    let head = format!("{}\n", t.description());
    let tail = format!("\n\nTo learn more, please visit here: {}\n", t.doc_url());
    assert!(stdout.starts_with(&head), "page of {} starts with its explanation", t.name());
    assert!(stdout.ends_with(&tail), "page of {} ends with its link", t.name());
    stdout[head.len()..stdout.len() - tail.len()].to_string()
}

#[test]
fn every_topic_prints_explanation_yaml_and_link() {
    for t in Topic::all() {
        let out = invoke(&[t.name()]);
        assert_eq!(out.exit_code, 0, "topic {}: {}", t.name(), out.stderr);
        assert!(out.stderr.is_empty());
        let lines: Vec<&str> = out.stdout.lines().collect();
        assert!(!lines[0].is_empty());
        assert_eq!(lines[0], t.description());
        let n = lines.len();
        assert_eq!(lines[n - 2], "");
        assert!(lines[n - 1].contains(t.doc_url()));
        let yaml = yaml_part(t, &out.stdout);
        assert!(yaml.starts_with("---\n"));
        let docs = YamlLoader::load_from_str(&yaml).expect("emitted YAML loads");
        assert_eq!(docs.len(), 1);
    }
}

#[test]
fn emitted_yaml_loads_to_the_same_document() {
    for t in Topic::all() {
        let original = YamlLoader::load_from_str(t.sample()).unwrap();
        let once = reformat_yaml(t.sample()).unwrap();
        let reloaded = YamlLoader::load_from_str(&once).unwrap();
        assert_eq!(reloaded[0], original[0], "topic {}", t.name());
        let twice = reformat_yaml(&once).unwrap();
        assert_eq!(twice, once, "topic {}", t.name());
    }
}

#[test]
fn unknown_topic_is_reported() {
    let out = invoke(&["nodes"]);
    assert_ne!(out.exit_code, 0);
    assert_eq!(out.exit_code, 2);
    assert!(out.stdout.is_empty());
    assert!(out.stderr.starts_with("unknown topic: nodes\n"));
    assert!(out.stderr.ends_with(&usage()));
}

#[test]
fn topic_names_are_case_sensitive() {
    let out = invoke(&["Pods"]);
    assert_eq!(out.exit_code, 2);
    assert!(out.stdout.is_empty());
    assert!(matches!(select_topic(&vec!["PODS".to_string()]), Err(CliError::UnknownTopic(w)) if w == "PODS"));
}

#[test]
fn missing_argument_reports_usage() {
    let out = invoke(&[]);
    assert_eq!(out.exit_code, 2);
    assert!(out.stdout.is_empty());
    assert_eq!(out.stderr, format!("missing topic argument\n{}", usage()));
    assert!(matches!(select_topic(&vec![]), Err(CliError::MissingArgument)));
}

#[test]
fn usage_lists_every_topic() {
    assert_eq!(
        usage(),
        "usage: kube-topics <topic>\nwhere <topic> is one of: pods, deployments, services, \
         daemonsets, replicasets, ingress, volumes, secrets, configmaps\n"
    );
}

#[test]
fn pods_page_scenario() {
    let out = invoke(&["pods"]);
    assert_eq!(out.exit_code, 0);
    assert!(out
        .stdout
        .starts_with("A pod is the smallest execution unit in Kubernetes."));
    let yaml = yaml_part(Topic::Pods, &out.stdout);
    assert!(yaml.contains("kind: Pod"));
    assert!(yaml.contains("name: nginx"));
    let last = out.stdout.lines().last().unwrap();
    assert!(last.contains("https://kubernetes.io/docs/concepts/workloads/pods/"));
}

#[test]
fn configmaps_keep_multiline_values() {
    let out = invoke(&["configmaps"]);
    assert_eq!(out.exit_code, 0);
    let yaml = yaml_part(Topic::ConfigMaps, &out.stdout);
    let doc = &YamlLoader::load_from_str(&yaml).unwrap()[0];
    let data = &doc["data"];
    assert_eq!(
        data["game.properties"].as_str(),
        Some("enemy.types=aliens,monsters\nplayer.maximum-lives=5    \n")
    );
    assert_eq!(
        data["user-interface.properties"].as_str(),
        Some("color.good=purple\ncolor.bad=yellow\nallow.textmode=true\n")
    );
    assert_eq!(data["player_initial_lives"], Yaml::String("3".to_string()));
}

#[test]
fn extra_arguments_are_ignored() {
    let chosen = select_topic(&vec!["secrets".to_string(), "pods".to_string()]);
    assert!(matches!(chosen, Ok(Topic::Secrets)));
}

#[test]
fn names_select_their_topics() {
    for t in Topic::all() {
        assert_eq!(Topic::from_name(t.name()), Some(t));
    }
    assert_eq!(Topic::from_name(""), None);
    assert_eq!(Topic::from_name("pod"), None);
    assert_eq!(Topic::from_name("pods "), None);
    assert_eq!(Topic::all().len(), 9);
}

#[test]
fn reformat_writes_canonical_layout() {
    assert_eq!(reformat_yaml("a:    1\nb: [x,   y]").unwrap(), "---\na: 1\nb:\n  - x\n  - y");
}

#[test]
fn reformat_rejects_malformed_text() {
    match reformat_yaml("a: [1, 2") {
        Err(YamlError::Scan(message)) => assert!(message.contains(" at line ")),
        other => panic!("expected a scan error, got {:?}", other),
    }
    assert!(matches!(reformat_yaml(""), Err(YamlError::NoDocument)));
    assert_eq!(YamlError::NoDocument.message(), "the text holds no YAML document");
}

fn nested(unit: &str) -> String {
    let mut text = unit.repeat((MAX_YAML_LEN - 1) / unit.len());
    text.push('a');
    assert!(text.chars().count() <= MAX_YAML_LEN);
    text
}

#[test]
fn deepest_sequences_within_the_bound_load() {
    let out = reformat_yaml(&nested("- ")).unwrap();
    assert!(out.starts_with("---\n- - "));
    assert!(out.ends_with("- a"));
}

#[test]
fn deepest_keys_within_the_bound_load() {
    let out = reformat_yaml(&nested("? ")).unwrap();
    assert!(out.starts_with("---\n? "));
}

#[test]
fn deepest_mixed_nesting_within_the_bound_loads() {
    assert!(reformat_yaml(&nested("- ? ")).is_ok());
    assert!(reformat_yaml(&nested("? - ")).is_ok());
}

#[test]
fn compose_page_lays_out_the_sections() {
    let page = compose_page(Topic::Secrets, "---\nk: v");
    assert_eq!(
        page,
        "A secret is an object for storing sensitive pieces of data such as usernames, \
         passwords, tokens, and keys\n---\nk: v\n\nTo learn more, please visit here: \
         https://kubernetes.io/docs/concepts/configuration/secret/\n"
    );
}

#[test]
fn configmaps_link_to_their_own_page() {
    assert_eq!(Topic::ConfigMaps.doc_url(), "https://kubernetes.io/docs/concepts/configuration/configmap/");
    let page = render_topic(Topic::ConfigMaps).unwrap();
    assert!(page.ends_with("configuration/configmap/\n"));
}

#[test]
fn render_failure_message_carries_the_loader_message() {
    let e = CliError::Render(Topic::Volumes, YamlError::Scan("bad indent at line 3 column 5".to_string()));
    assert_eq!(
        e.message(),
        "the sample manifest of topic volumes does not load: bad indent at line 3 column 5\n"
    );
    assert_eq!(e.exit_code(), 1);
    let none = CliError::Render(Topic::Pods, YamlError::NoDocument);
    assert_eq!(
        none.message(),
        "the sample manifest of topic pods does not load: the text holds no YAML document\n"
    );
    assert_eq!(CliError::MissingArgument.exit_code(), 2);
    assert_eq!(CliError::UnknownTopic("x".to_string()).exit_code(), 2);
}

#[test]
fn every_sample_fits_the_bound() {
    for t in Topic::all() {
        assert!(t.sample().chars().count() <= MAX_YAML_LEN);
    }
}

#[test]
fn daemonset_sample_keeps_its_lists() {
    let doc = &YamlLoader::load_from_str(Topic::DaemonSets.sample()).unwrap()[0];
    let spec = &doc["spec"];
    assert_eq!(spec["tolerations"].as_vec().unwrap().len(), 2);
    assert_eq!(spec["tolerations"][0]["operator"].as_str(), Some("Exists"));
    assert_eq!(spec["volumes"][1]["hostPath"]["path"].as_str(), Some("/var/lib/docker/containers"));
}
