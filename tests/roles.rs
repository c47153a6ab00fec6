use plim::access::{authorize_role, get_all_plans, get_plan};
use plim::config::{
    Config, ExecuteApiType, GitlabConfig, PlanType, PlimConfig, PlimPlan, PlimPlanGitlabSettings,
    PlimUser, default_allow_ref_select, default_etcd_configs, default_etcd_map, get_available_plans,
};
use plim::errors::PlimErrorKind;

fn plan(groups: &[&str]) -> PlimPlan {
    PlimPlan {
        plan_type: PlanType::GitlabNative,
        groups: groups.iter().map(|g| g.to_string()).collect(),
        ansible: None,
        gitlab: PlimPlanGitlabSettings {
            project_id: 1,
            token_var: "T".to_string(),
            ref_name: "main".to_string(),
            ref_select: default_allow_ref_select(),
            json_data_key: None,
            execute_api_type: ExecuteApiType::Trigger,
        },
        webhooks: None,
        views: vec![],
    }
}

fn config() -> Config {
    Config {
        plim: PlimConfig { listen_address: String::new(), jwt_token_duration_hours: 1, webhook_token_length: 8 },
        gitlab: GitlabConfig { api_endpoint: String::new() },
        admins: vec![],
        users: Vec::<(String, PlimUser)>::new(),
        etcd_data_map: default_etcd_map(),
        etcd_configs: default_etcd_configs(),
        plans: vec![
            ("deploy".to_string(), plan(&["ops"])),
            ("build".to_string(), plan(&["dev", "qa"])),
            ("audit".to_string(), plan(&["sec"])),
        ],
    }
}

fn roles(r: &[&str]) -> Vec<String> {
    r.iter().map(|x| x.to_string()).collect()
}

fn names(v: Vec<&(String, PlimPlan)>) -> Vec<String> {
    v.into_iter().map(|e| e.0.clone()).collect()
}

#[test]
fn role_in_any_group_sees_the_plan() {
    let c = config();
    let visible = names(c.filter_plans_by_groups(&roles(&["dev", "ops"])));
    assert_eq!(visible, vec!["deploy".to_string(), "build".to_string()]);
    let only_ops = names(c.filter_plans_by_groups(&roles(&["ops"])));
    assert_eq!(only_ops, vec!["deploy".to_string()]);
}

#[test]
fn role_outside_the_groups_is_excluded() {
    let c = config();
    let visible = names(get_available_plans(&c, &roles(&["dev"])));
    assert_eq!(visible, vec!["build".to_string()]);
    assert!(!visible.contains(&"deploy".to_string()));
    assert!(names(get_available_plans(&c, &roles(&["guest"]))).is_empty());
}

#[test]
fn admin_sees_every_plan() {
    let c = config();
    let visible = names(get_available_plans(&c, &roles(&["admin"])));
    assert_eq!(visible, vec!["deploy".to_string(), "build".to_string(), "audit".to_string()]);
}

#[test]
fn listing_without_roles_is_forbidden() {
    let c = config();
    assert!(matches!(get_all_plans(&c, &vec![]), Err(PlimErrorKind::Forbidden(_))));
    match get_all_plans(&c, &roles(&["sec"])) {
        Ok(v) => assert_eq!(names(v), vec!["audit".to_string()]),
        Err(_) => panic!("expected plans"),
    }
}

#[test]
fn plan_outside_the_roles_is_not_found() {
    let c = config();
    assert!(matches!(get_plan(&c, &roles(&["dev"]), "deploy"), Err(PlimErrorKind::NotFound(_))));
    match get_plan(&c, &roles(&["ops"]), "deploy") {
        Ok(p) => assert_eq!(p.groups, vec!["ops".to_string()]),
        Err(_) => panic!("expected the plan"),
    }
}

#[test]
fn authorize_role_needs_role_and_enabled_user() {
    assert!(authorize_role(&roles(&["admin"]), false, "admin"));
    assert!(!authorize_role(&roles(&["admin"]), true, "admin"));
    assert!(!authorize_role(&roles(&["dev"]), false, "admin"));
}
