use plim::ansible::AnsibleConfig;
use plim::config::{
    Config, EtcdDataMap, ExecuteApiType, GitlabConfig, PlanType, PlimConfig, PlimPlan,
    PlimPlanGitlabSettings, PlimPlanWebhook, PlimUser, WebhookType, default_allow_ref_select,
    default_etcd_configs,
};
use plim::dispatch::{ErrorClass, PipelineCall, prepare_pipeline, prepare_webhook_pipeline};
use plim::errors::PlimErrorKind;
use plim::payload::PipelinePayload;
use plim::pipeline::{GitlabParams, TriggerPipelineRequest, WebhookPipelineRequest};
use plim::resolve::resolve_webhook_views;
use plim::tokens::GitlabTokens;
use plim::value::AnyValue;
use plim::views::{OneValueView, PlimPlanViewType};

fn one(key: &str, value: &str) -> PlimPlanViewType {
    PlimPlanViewType::One(OneValueView {
        text: key.to_string(),
        view_type: "one".to_string(),
        key: Some(AnyValue::String(key.to_string())),
        value: Some(AnyValue::String(value.to_string())),
        data_source: None,
    })
}

fn settings(json_key: Option<&str>) -> PlimPlanGitlabSettings {
    PlimPlanGitlabSettings {
        project_id: 42,
        token_var: "GL_TOKEN".to_string(),
        ref_name: "main".to_string(),
        ref_select: default_allow_ref_select(),
        json_data_key: json_key.map(|s| s.to_string()),
        execute_api_type: ExecuteApiType::Create,
    }
}

fn webhook(kind: WebhookType, views: Option<Vec<PlimPlanViewType>>) -> PlimPlanWebhook {
    PlimPlanWebhook {
        name: "deploy".to_string(),
        trigger_token: "WH_SECRET".to_string(),
        webhook_type: kind,
        views,
        ansible: Some(AnsibleConfig::new("deploy.yml".to_string(), "hosts".to_string())),
    }
}

fn plan(plan_type: PlanType, webhooks: Option<Vec<PlimPlanWebhook>>, json_key: Option<&str>) -> PlimPlan {
    PlimPlan {
        plan_type,
        groups: vec!["ops".to_string()],
        ansible: Some(AnsibleConfig::new("plan.yml".to_string(), "plan_hosts".to_string())),
        gitlab: settings(json_key),
        webhooks,
        views: vec![one("p", "0")],
    }
}

fn config(plans: Vec<(String, PlimPlan)>) -> Config {
    Config {
        plim: PlimConfig {
            listen_address: "0.0.0.0:8080".to_string(),
            jwt_token_duration_hours: 1,
            webhook_token_length: 6,
        },
        gitlab: GitlabConfig { api_endpoint: "http://gitlab/api/v4".to_string() },
        admins: vec![],
        users: Vec::<(String, PlimUser)>::new(),
        etcd_data_map: Vec::<(String, EtcdDataMap)>::new(),
        etcd_configs: default_etcd_configs(),
        plans,
    }
}

fn tokens() -> GitlabTokens {
    GitlabTokens::new(vec![
        ("WH_SECRET".to_string(), "s3cr3t".to_string()),
        ("GL_TOKEN".to_string(), "gltok".to_string()),
    ])
}

fn webhook_config(kind: WebhookType) -> Config {
    let wh = webhook(kind, Some(vec![one("a", "1")]));
    config(vec![(
        "release".to_string(),
        plan(PlanType::GitlabAnsibleBase64, Some(vec![wh]), Some("ANSIBLE_CMD")),
    )])
}

fn request(views: Option<Vec<PlimPlanViewType>>, ansible: Option<AnsibleConfig>) -> WebhookPipelineRequest {
    WebhookPipelineRequest { ansible_data: ansible, views }
}

fn class(r: &Result<PipelineCall, PlimErrorKind>) -> Option<ErrorClass> {
    match r {
        Ok(_) => None,
        Err(e) => Some(e.class()),
    }
}

fn single_file_variable(call: &PipelineCall) -> (String, String, String, bool) {
    match &call.payload {
        PipelinePayload::Create { ref_name, variables } => {
            assert_eq!(variables.len(), 1);
            (ref_name.clone(), variables[0].key.clone(), variables[0].value.to_string(), variables[0].is_file)
        }
        PipelinePayload::AnsibleVariables(_) => panic!("expected a create body"),
    }
}

fn pairs_text(pairs: Vec<(String, Option<AnyValue>)>) -> Vec<(String, String)> {
    pairs.into_iter().map(|(k, v)| (k, v.map(|x| x.to_string()).unwrap_or_default())).collect()
}

#[test]
fn dynamic_webhook_merges_request_views() {
    let p = plan(PlanType::GitlabAnsibleBase64, None, None);
    let wh = webhook(WebhookType::Dynamic, Some(vec![one("a", "1")]));
    let out = resolve_webhook_views(&p, &wh, &Some(vec![one("b", "2")]));
    assert_eq!(pairs_text(out), vec![("a".to_string(), "1".to_string()), ("b".to_string(), "2".to_string())]);
}

#[test]
fn dynamic_webhook_request_view_overrides_same_key() {
    let p = plan(PlanType::GitlabAnsibleBase64, None, None);
    let wh = webhook(WebhookType::Dynamic, Some(vec![one("a", "1"), one("c", "3")]));
    let out = resolve_webhook_views(&p, &wh, &Some(vec![one("a", "9")]));
    assert_eq!(pairs_text(out), vec![("a".to_string(), "9".to_string()), ("c".to_string(), "3".to_string())]);
}

#[test]
fn static_webhook_ignores_request_views() {
    let p = plan(PlanType::GitlabAnsibleBase64, None, None);
    let wh = webhook(WebhookType::Static, Some(vec![one("a", "1")]));
    let out = resolve_webhook_views(&p, &wh, &Some(vec![one("b", "2")]));
    assert_eq!(pairs_text(out), vec![("a".to_string(), "1".to_string())]);
}

#[test]
fn webhook_without_views_uses_plan_views() {
    let p = plan(PlanType::GitlabAnsibleBase64, None, None);
    let wh = webhook(WebhookType::Dynamic, None);
    let out = resolve_webhook_views(&p, &wh, &Some(vec![one("b", "2")]));
    assert_eq!(pairs_text(out), vec![("p".to_string(), "0".to_string())]);
}

#[test]
fn dynamic_webhook_call_builds_base64_command() {
    let cfg = webhook_config(WebhookType::Dynamic);
    let r = prepare_webhook_pipeline(&cfg, &tokens(), "release", "deploy", Some("s3cr3t"), request(Some(vec![one("b", "2")]), None));
    let call = r.unwrap_or_else(|_| panic!("expected a call"));
    assert_eq!(call.project_id, 42);
    assert_eq!(call.token, "gltok");
    assert_eq!(call.execute_api_type, ExecuteApiType::Create);
    let (ref_name, key, value, is_file) = single_file_variable(&call);
    assert_eq!(ref_name, "main");
    assert_eq!(key, "ANSIBLE_CMD");
    assert!(is_file);
    assert_eq!(value, "YW5zaWJsZS1wbGF5Ym9vayBkZXBsb3kueW1sIC1pIGhvc3RzIC1lIGE9JzEnIC1lIGI9JzIn");
}

#[test]
fn dynamic_webhook_merges_caller_ansible_settings() {
    let cfg = webhook_config(WebhookType::Dynamic);
    let mut over = AnsibleConfig::new("deploy.yml".to_string(), "hosts".to_string());
    over.check = Some(true);
    let r = prepare_webhook_pipeline(&cfg, &tokens(), "release", "deploy", Some("s3cr3t"), request(Some(vec![one("b", "2")]), Some(over)));
    let call = r.unwrap_or_else(|_| panic!("expected a call"));
    let (_, _, value, _) = single_file_variable(&call);
    assert_eq!(value, "YW5zaWJsZS1wbGF5Ym9vayBkZXBsb3kueW1sIC1pIGhvc3RzIC0tY2hlY2sgLWUgYT0nMScgLWUgYj0nMic=");
}

#[test]
fn static_webhook_call_ignores_overrides() {
    let cfg = webhook_config(WebhookType::Static);
    let mut over = AnsibleConfig::new("other.yml".to_string(), "other".to_string());
    over.check = Some(true);
    let r = prepare_webhook_pipeline(&cfg, &tokens(), "release", "deploy", Some("s3cr3t"), request(Some(vec![one("b", "2")]), Some(over)));
    let call = r.unwrap_or_else(|_| panic!("expected a call"));
    let (_, _, value, _) = single_file_variable(&call);
    assert_eq!(value, "YW5zaWJsZS1wbGF5Ym9vayBkZXBsb3kueW1sIC1pIGhvc3RzIC1lIGE9JzEn");
}

#[test]
fn secret_of_right_value_but_wrong_length_is_forbidden() {
    let mut cfg = webhook_config(WebhookType::Dynamic);
    cfg.plim.webhook_token_length = 5;
    let r = prepare_webhook_pipeline(&cfg, &tokens(), "release", "deploy", Some("s3cr3t"), request(None, None));
    assert_eq!(class(&r), Some(ErrorClass::Forbidden));
}

#[test]
fn wrong_secret_is_forbidden() {
    let cfg = webhook_config(WebhookType::Dynamic);
    let r = prepare_webhook_pipeline(&cfg, &tokens(), "release", "deploy", Some("s3cr3x"), request(None, None));
    assert_eq!(class(&r), Some(ErrorClass::Forbidden));
    let missing = prepare_webhook_pipeline(&cfg, &tokens(), "release", "deploy", None, request(None, None));
    assert_eq!(class(&missing), Some(ErrorClass::Forbidden));
}

#[test]
fn webhook_lookup_errors() {
    let cfg = webhook_config(WebhookType::Dynamic);
    let no_plan = prepare_webhook_pipeline(&cfg, &tokens(), "nope", "deploy", Some("s3cr3t"), request(None, None));
    assert_eq!(class(&no_plan), Some(ErrorClass::NotFound));
    let no_hook = prepare_webhook_pipeline(&cfg, &tokens(), "release", "nope", Some("s3cr3t"), request(None, None));
    assert_eq!(class(&no_hook), Some(ErrorClass::NotFound));
    let bare = config(vec![("bare".to_string(), plan(PlanType::GitlabAnsibleBase64, None, Some("K")))]);
    let undefined = prepare_webhook_pipeline(&bare, &tokens(), "bare", "deploy", Some("s3cr3t"), request(None, None));
    assert_eq!(class(&undefined), Some(ErrorClass::Validation));
    let no_secret = GitlabTokens::new(vec![("GL_TOKEN".to_string(), "gltok".to_string())]);
    let r = prepare_webhook_pipeline(&cfg, &no_secret, "release", "deploy", Some("s3cr3t"), request(None, None));
    assert_eq!(class(&r), Some(ErrorClass::NotFound));
}

#[test]
fn webhook_on_other_plan_types_is_not_implemented() {
    let wh = webhook(WebhookType::Static, None);
    let cfg = config(vec![("n".to_string(), plan(PlanType::GitlabNative, Some(vec![wh]), Some("K")))]);
    let r = prepare_webhook_pipeline(&cfg, &tokens(), "n", "deploy", Some("s3cr3t"), request(None, None));
    assert_eq!(class(&r), Some(ErrorClass::Validation));
}

#[test]
fn webhook_without_json_key_is_validation_error() {
    let wh = webhook(WebhookType::Static, None);
    let cfg = config(vec![("n".to_string(), plan(PlanType::GitlabAnsibleBase64, Some(vec![wh]), None))]);
    let r = prepare_webhook_pipeline(&cfg, &tokens(), "n", "deploy", Some("s3cr3t"), request(None, None));
    assert_eq!(class(&r), Some(ErrorClass::Validation));
}

fn direct(plan_type: PlanType, key: Option<&str>, req: TriggerPipelineRequest, json_text: &str) -> Result<PipelineCall, PlimErrorKind> {
    let cfg = config(vec![("p".to_string(), plan(plan_type, None, key))]);
    prepare_pipeline(&cfg, &tokens(), "p", req, json_text)
}

fn data() -> Option<Vec<(String, Option<AnyValue>)>> {
    Some(vec![("x".to_string(), Some(AnyValue::String("1".to_string())))])
}

#[test]
fn direct_ansible_base64_uses_selected_ref() {
    let req = TriggerPipelineRequest::new(
        data(),
        Some(AnsibleConfig::new("run.yml".to_string(), "inv".to_string())),
        Some(GitlabParams { selected_ref: "release-1".to_string() }),
    );
    let call = direct(PlanType::GitlabAnsibleBase64, Some("CMD"), req, "{}").unwrap_or_else(|_| panic!("expected a call"));
    let (ref_name, key, value, is_file) = single_file_variable(&call);
    assert_eq!(ref_name, "release-1");
    assert_eq!(key, "CMD");
    assert!(is_file);
    assert_eq!(value, "YW5zaWJsZS1wbGF5Ym9vayBydW4ueW1sIC1pIGludiAtZSB4PScxJw==");
}

#[test]
fn direct_base64_encodes_json_text() {
    let req = TriggerPipelineRequest::new(data(), None, None);
    let call = direct(PlanType::GitlabBase64, Some("DATA"), req, "{\"k\":\"v\"}").unwrap_or_else(|_| panic!("expected a call"));
    let (ref_name, key, value, _) = single_file_variable(&call);
    assert_eq!(ref_name, "main");
    assert_eq!(key, "DATA");
    assert_eq!(value, "eyJrIjoidiJ9");
}

#[test]
fn direct_native_passes_pairs() {
    let req = TriggerPipelineRequest::new(data(), None, None);
    let call = direct(PlanType::GitlabNative, None, req, "").unwrap_or_else(|_| panic!("expected a call"));
    match call.payload {
        PipelinePayload::Create { ref_name, variables } => {
            assert_eq!(ref_name, "main");
            assert_eq!(variables.len(), 1);
            assert_eq!(variables[0].key, "x");
            assert_eq!(variables[0].value.to_string(), "1");
            assert!(!variables[0].is_file);
        }
        PipelinePayload::AnsibleVariables(_) => panic!("expected a create body"),
    }
}

#[test]
fn direct_ansible_native_passes_settings() {
    let req = TriggerPipelineRequest::new(data(), Some(AnsibleConfig::new("a.yml".to_string(), "i".to_string())), None);
    let call = direct(PlanType::GitlabAnsibleNative, None, req, "").unwrap_or_else(|_| panic!("expected a call"));
    match call.payload {
        PipelinePayload::AnsibleVariables(c) => assert_eq!(c.playbook, "a.yml"),
        PipelinePayload::Create { .. } => panic!("expected ansible variables"),
    }
}

#[test]
fn direct_request_validation_errors() {
    let no_data = TriggerPipelineRequest::new(None, None, None);
    assert_eq!(class(&direct(PlanType::GitlabNative, None, no_data, "")), Some(ErrorClass::Validation));
    let no_ansible = TriggerPipelineRequest::new(data(), None, None);
    assert_eq!(class(&direct(PlanType::GitlabAnsibleBase64, Some("K"), no_ansible, "")), Some(ErrorClass::Validation));
    let no_native_ansible = TriggerPipelineRequest::new(data(), None, None);
    assert_eq!(class(&direct(PlanType::GitlabAnsibleNative, None, no_native_ansible, "")), Some(ErrorClass::Validation));
    let no_key = TriggerPipelineRequest::new(data(), None, None);
    assert_eq!(class(&direct(PlanType::GitlabBase64, None, no_key, "{}")), Some(ErrorClass::Validation));
}

#[test]
fn direct_lookup_errors() {
    let cfg = config(vec![("p".to_string(), plan(PlanType::GitlabNative, None, None))]);
    let r = prepare_pipeline(&cfg, &tokens(), "q", TriggerPipelineRequest::new(data(), None, None), "");
    assert_eq!(class(&r), Some(ErrorClass::NotFound));
    let empty = GitlabTokens::new(vec![]);
    let r2 = prepare_pipeline(&cfg, &empty, "p", TriggerPipelineRequest::new(data(), None, None), "");
    assert_eq!(class(&r2), Some(ErrorClass::NotFound));
}
