use fiftyshades::config::{
    node, template, Config, ElasticNode, GoogleNode, GraylogNode, Node, Templates,
};

fn sample() -> Config {
    Config {
        nodes: vec![
            (
                "main".to_string(),
                Node::Graylog(GraylogNode {
                    url: "https://graylog.example.com/api".to_string(),
                    user: "alice".to_string(),
                }),
            ),
            (
                "docs".to_string(),
                Node::Elastic(ElasticNode {
                    url: "https://elastic.example.com".to_string(),
                    user: None,
                }),
            ),
            (
                "cloud".to_string(),
                Node::Google(GoogleNode { resources: vec!["projects/demo".to_string()] }),
            ),
        ],
        templates: Templates(vec![("plain".to_string(), "{{message}}".to_string())]),
    }
}

#[test]
fn node_lookup_finds_configured_nodes() {
    let config = sample();
    match node(&config, "main").unwrap() {
        Node::Graylog(n) => assert_eq!(n.user, "alice"),
        other => panic!("expected the REST node, got {:?}", other),
    }
    match node(&config, "cloud").unwrap() {
        Node::Google(n) => assert_eq!(n.resources, vec!["projects/demo".to_string()]),
        other => panic!("expected the RPC node, got {:?}", other),
    }
}

#[test]
fn node_lookup_names_the_missing_node() {
    let config = sample();
    let err = node(&config, "absent").unwrap_err();
    assert_eq!(err.0, "absent");
}

#[test]
fn template_lookup_finds_and_reports() {
    let config = sample();
    assert_eq!(template(&config, "plain").unwrap(), "{{message}}");
    let err = template(&config, "fancy").unwrap_err();
    assert_eq!(err.0, "fancy");
}

#[test]
fn default_templates_hold_the_builtin_entry() {
    let templates = Templates::default();
    assert_eq!(templates.0.len(), 1);
    assert_eq!(templates.0[0].0, "default");
    assert_eq!(
        templates.0[0].1,
        "[{{default container_name \"-\"}}] {{message}}"
    );
}

#[test]
fn credential_need_follows_the_backend_kind() {
    let config = sample();
    assert!(node(&config, "main").unwrap().requires_credential());
    assert!(!node(&config, "docs").unwrap().requires_credential());
    assert!(!node(&config, "cloud").unwrap().requires_credential());
    let with_user = Node::Elastic(ElasticNode {
        url: "https://elastic.example.com".to_string(),
        user: Some("bob".to_string()),
    });
    assert!(with_user.requires_credential());
}
