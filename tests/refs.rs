use plim::config::{
    Config, ExecuteApiType, GitlabConfig, PlanType, PlimConfig, PlimPlan, PlimPlanGitlabSettings,
    PlimUser, default_allow_ref_select, default_etcd_configs, default_etcd_map,
};
use plim::errors::PlimErrorKind;
use plim::refs::{RefListing, collect_refs, ref_listing};
use plim::tokens::GitlabTokens;

fn config(select: bool) -> Config {
    let mut rs = default_allow_ref_select();
    rs.ref_select_enabled = select;
    rs.branch_enabled = true;
    rs.branch_search_name = Some("feat".to_string());
    rs.tag_enabled = false;
    let plan = PlimPlan {
        plan_type: PlanType::GitlabNative,
        groups: vec![],
        ansible: None,
        gitlab: PlimPlanGitlabSettings {
            project_id: 5,
            token_var: "T".to_string(),
            ref_name: "main".to_string(),
            ref_select: rs,
            json_data_key: None,
            execute_api_type: ExecuteApiType::Trigger,
        },
        webhooks: None,
        views: vec![],
    };
    Config {
        plim: PlimConfig { listen_address: String::new(), jwt_token_duration_hours: 1, webhook_token_length: 8 },
        gitlab: GitlabConfig { api_endpoint: String::new() },
        admins: vec![],
        users: Vec::<(String, PlimUser)>::new(),
        etcd_data_map: default_etcd_map(),
        etcd_configs: default_etcd_configs(),
        plans: vec![("p".to_string(), plan)],
    }
}

#[test]
fn fixed_ref_when_selection_is_off() {
    let t = GitlabTokens::new(vec![]);
    match ref_listing(&config(false), &t, "p") {
        Ok(RefListing::Fixed(v)) => assert_eq!(v, vec!["main".to_string()]),
        _ => panic!("expected the fixed ref"),
    }
}

#[test]
fn queries_when_selection_is_on() {
    let t = GitlabTokens::new(vec![("T".to_string(), "tok".to_string())]);
    match ref_listing(&config(true), &t, "p") {
        Ok(RefListing::Query { branches: Some(b), tags: None }) => {
            assert_eq!(b.project_id, 5);
            assert_eq!(b.token, "tok");
            assert_eq!(b.search, Some("feat".to_string()));
        }
        _ => panic!("expected a branch query"),
    }
    let none = GitlabTokens::new(vec![]);
    assert!(matches!(ref_listing(&config(true), &none, "p"), Err(PlimErrorKind::InternalServerError(_))));
    assert!(matches!(ref_listing(&config(true), &t, "q"), Err(PlimErrorKind::NotFound(_))));
}

#[test]
fn refs_concatenate() {
    let r = collect_refs(Some(vec!["b1".to_string()]), Some(vec!["t1".to_string(), "t2".to_string()]));
    assert_eq!(r, vec!["b1".to_string(), "t1".to_string(), "t2".to_string()]);
    assert!(collect_refs(None, None).is_empty());
}

#[test]
fn error_statuses() {
    assert_eq!(PlimErrorKind::not_found("x").status_code(), 404);
    assert_eq!(PlimErrorKind::unauthorized("x").status_code(), 401);
    assert_eq!(PlimErrorKind::forbidden("x").status_code(), 403);
    assert_eq!(PlimErrorKind::validation("x").status_code(), 400);
    assert_eq!(PlimErrorKind::internal_server_error("boom").status_code(), 500);
    assert_eq!(PlimErrorKind::internal_server_error("boom").message(), "boom");
}
