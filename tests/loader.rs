use plim::config::{
    Config, ExecuteApiType, GitlabConfig, PlanType, PlimConfig, PlimPlan, PlimPlanGitlabSettings,
    PlimUser, default_allow_ref_select, default_etcd_configs, default_etcd_map,
};
use plim::loader::{EtcdConfigLoader, etcd_entry_name};

#[test]
fn entry_names() {
    assert_eq!(etcd_entry_name("main", "/plim/plans", "/plim/plans/deploy/"), "main_deploy");
    assert_eq!(etcd_entry_name("main", "/plim/plans", "/plim/plans//a/b//"), "main_a/b");
    assert_eq!(etcd_entry_name("s", "", "/x/"), "s_x");
    assert_eq!(etcd_entry_name("s", "ab", "xabyab"), "s_xy");
    assert_eq!(etcd_entry_name("s", "p", "///"), "s_");
}

fn plan(project_id: u64) -> PlimPlan {
    PlimPlan {
        plan_type: PlanType::GitlabNative,
        groups: vec![],
        ansible: None,
        gitlab: PlimPlanGitlabSettings {
            project_id,
            token_var: "T".to_string(),
            ref_name: "main".to_string(),
            ref_select: default_allow_ref_select(),
            json_data_key: None,
            execute_api_type: ExecuteApiType::Trigger,
        },
        webhooks: None,
        views: vec![],
    }
}

#[test]
fn loading_replaces_or_appends() {
    let mut c = Config {
        plim: PlimConfig { listen_address: String::new(), jwt_token_duration_hours: 1, webhook_token_length: 8 },
        gitlab: GitlabConfig { api_endpoint: String::new() },
        admins: vec![],
        users: Vec::<(String, PlimUser)>::new(),
        etcd_data_map: default_etcd_map(),
        etcd_configs: default_etcd_configs(),
        plans: vec![("a".to_string(), plan(1))],
    };
    plan(2).load_into_config(&mut c, "b".to_string());
    plan(3).load_into_config(&mut c, "a".to_string());
    let got: Vec<(String, u64)> = c.plans.iter().map(|(n, p)| (n.clone(), p.gitlab.project_id)).collect();
    assert_eq!(got, vec![("a".to_string(), 3), ("b".to_string(), 2)]);
    let user = PlimUser {
        full_name: "U".to_string(),
        email: "u@x".to_string(),
        groups: vec![],
        hashed_password: String::new(),
        disabled: false,
    };
    user.load_into_config(&mut c, "u".to_string());
    assert_eq!(c.users.len(), 1);
}
