use plim::ansible::{AnsibleBackendType, AnsibleConfig, AnsibleEtcdBackend, AnsibleGitlabBackend, AnsibleInventoryType};
use plim::config::{
    Config, ExecuteApiType, GitlabConfig, PlanType, PlimConfig, PlimPlan, PlimPlanGitlabSettings,
    PlimUser, default_allow_ref_select, default_etcd_configs, default_etcd_map,
};
use plim::dispatch::ErrorClass;
use plim::errors::PlimErrorKind;
use plim::inventory::{
    AnsibleInventoryRequest, InventoryFormat, InventorySource, PlanAnsibleInventory,
    RawLocalAnsibleInventory, decode_file_content, first_word_of, inventory_source,
    parse_ini_inventory, path_format,
};
use plim::tokens::GitlabTokens;

fn entries(e: &[(&str, Option<&str>)]) -> Vec<(String, Option<String>)> {
    e.iter().map(|(k, v)| (k.to_string(), v.map(|x| x.to_string()))).collect()
}

#[test]
fn ini_sections_become_groups() {
    let sections = vec![
        ("web".to_string(), entries(&[("w1 ansible_port=22", Some("10.0.0.1")), ("w2", None)])),
        ("_vars".to_string(), entries(&[("x", Some("1"))])),
        ("db".to_string(), entries(&[("d1", Some("10.0.0.9")), ("d1 other", Some("10.0.0.8"))])),
    ];
    let inv = parse_ini_inventory(&sections);
    let groups: Vec<(String, Vec<(String, Option<Option<String>>)>)> = inv
        .0
        .iter()
        .map(|(name, children)| {
            (
                name.clone(),
                children.hosts.0.iter().map(|(h, v)| (h.clone(), v.as_ref().map(|hv| hv.ansible_host.clone()))).collect(),
            )
        })
        .collect();
    assert_eq!(
        groups,
        vec![
            (
                "web".to_string(),
                vec![("w1".to_string(), Some(Some("10.0.0.1".to_string()))), ("w2".to_string(), None)]
            ),
            ("db".to_string(), vec![("d1".to_string(), Some(Some("10.0.0.8".to_string())))]),
        ]
    );
}

#[test]
fn first_word_stops_at_space() {
    assert_eq!(first_word_of("host1 a=b"), "host1");
    assert_eq!(first_word_of("host1"), "host1");
    assert_eq!(first_word_of(" x"), "");
}

#[test]
fn format_follows_extension() {
    assert_eq!(path_format("inv/hosts.yml"), InventoryFormat::Yaml);
    assert_eq!(path_format("hosts.yaml"), InventoryFormat::Yaml);
    assert_eq!(path_format("hosts.ini"), InventoryFormat::Ini);
    assert_eq!(path_format("hosts"), InventoryFormat::Ini);
    assert_eq!(path_format("yml"), InventoryFormat::Yaml);
    assert_eq!(path_format("a.yml.bak"), InventoryFormat::Ini);
}

#[test]
fn file_content_decoding() {
    match decode_file_content(Some("aG9zdDogMQ==".to_string())) {
        Ok(s) => assert_eq!(s, "host: 1"),
        Err(_) => panic!("expected text"),
    }
    assert!(matches!(decode_file_content(None), Err(PlimErrorKind::Validation(_))));
    assert!(matches!(decode_file_content(Some("***".to_string())), Err(PlimErrorKind::InternalServerError(_))));
    assert!(matches!(decode_file_content(Some("/w==".to_string())), Err(PlimErrorKind::InternalServerError(_))));
}

fn plan(backend: AnsibleBackendType) -> PlimPlan {
    let mut a = AnsibleConfig::new("p.yml".to_string(), "i".to_string());
    a.backend_inventory = backend;
    PlimPlan {
        plan_type: PlanType::GitlabNative,
        groups: vec![],
        ansible: Some(a),
        gitlab: PlimPlanGitlabSettings {
            project_id: 1,
            token_var: "T".to_string(),
            ref_name: "main".to_string(),
            ref_select: default_allow_ref_select(),
            json_data_key: None,
            execute_api_type: ExecuteApiType::Trigger,
        },
        webhooks: None,
        views: vec![],
    }
}

fn config(plans: Vec<(String, PlimPlan)>) -> Config {
    Config {
        plim: PlimConfig { listen_address: String::new(), jwt_token_duration_hours: 1, webhook_token_length: 8 },
        gitlab: GitlabConfig { api_endpoint: String::new() },
        admins: vec![],
        users: Vec::<(String, PlimUser)>::new(),
        etcd_data_map: default_etcd_map(),
        etcd_configs: default_etcd_configs(),
        plans,
    }
}

fn by_plan(name: &str) -> AnsibleInventoryRequest {
    AnsibleInventoryRequest::Plan(PlanAnsibleInventory { plan_name: name.to_string() })
}

#[test]
fn inventory_sources() {
    let gitlab = AnsibleBackendType::Gitlab(AnsibleGitlabBackend {
        inventory_type: AnsibleInventoryType::Gitlab,
        token_var: Some("INV_TOKEN".to_string()),
        ref_name: Some("main".to_string()),
        project_id: Some(7),
        file_path: "inv/hosts.yaml".to_string(),
    });
    let etcd = AnsibleBackendType::Etcd(AnsibleEtcdBackend {
        inventory_type: AnsibleInventoryType::Etcd,
        etcd_name: "store".to_string(),
        key_path: "/inv".to_string(),
    });
    let cfg = config(vec![
        ("g".to_string(), plan(gitlab)),
        ("e".to_string(), plan(etcd)),
        ("l".to_string(), plan(AnsibleBackendType::default())),
    ]);
    let tokens = GitlabTokens::new(vec![("INV_TOKEN".to_string(), "tk".to_string())]);
    match inventory_source(&cfg, &tokens, &by_plan("g")) {
        Ok(InventorySource::GitlabFile { request, format }) => {
            assert_eq!(request.project_id, 7);
            assert_eq!(request.file_path, "inv/hosts.yaml");
            assert_eq!(request.ref_name, "main");
            assert_eq!(request.token, "tk");
            assert_eq!(format, InventoryFormat::Yaml);
        }
        _ => panic!("expected a repository file"),
    }
    match inventory_source(&cfg, &tokens, &by_plan("e")) {
        Ok(InventorySource::StoreDocument { etcd_name, key_path }) => {
            assert_eq!(etcd_name, "store");
            assert_eq!(key_path, "/inv");
        }
        _ => panic!("expected a store document"),
    }
    match inventory_source(&cfg, &tokens, &by_plan("l")) {
        Ok(InventorySource::LocalFile { file_path, format }) => {
            assert_eq!(file_path, "");
            assert_eq!(format, InventoryFormat::Ini);
        }
        _ => panic!("expected a local file"),
    }
    let raw = AnsibleInventoryRequest::Raw(RawLocalAnsibleInventory { file_path: "x.yml".to_string() });
    assert!(matches!(
        inventory_source(&cfg, &tokens, &raw),
        Ok(InventorySource::LocalFile { format: InventoryFormat::Yaml, .. })
    ));
    match inventory_source(&cfg, &tokens, &by_plan("missing")) {
        Err(e) => assert_eq!(e.class(), ErrorClass::Validation),
        Ok(_) => panic!("expected an error"),
    }
    let no_token = GitlabTokens::new(vec![]);
    assert!(matches!(inventory_source(&cfg, &no_token, &by_plan("g")), Err(PlimErrorKind::Validation(_))));
}
