//! The plan/webhook dispatcher: plan and webhook lookup, the secret check,
//! the merge of caller overrides, command synthesis and payload building.
//! What it yields is the call to make on the pipeline API.

use vstd::prelude::*;
use crate::views::pairs_view;
use crate::ansible::{
    AnsibleConfig, ansible_command, merge_ansible, merge_spec, options_text, opt_config_vars_text,
    request_vars_text, ansible_cmd_text, lemma_same_settings_same_command,
};
use crate::config::{Config, PlimPlan, PlimPlanWebhook, PlanType, WebhookType, ExecuteApiType, name_index, find_named};
use crate::tokens::{GitlabTokens, token_value};
use crate::resolve::{resolve_webhook_views, webhook_views_spec};
use crate::payload::{
    PipelinePayload, PayloadModel, base64_payload, native_payload, encodable,
    make_base64_payload_for_create_pipeline_api, make_native_payload_for_create_pipeline_api,
};
use crate::pipeline::{TriggerPipelineRequest, WebhookPipelineRequest};
use crate::errors::PlimErrorKind;

verus! {

/// The category of an error, as the caller sees it.
#[derive(PartialEq, Eq, Structural, Clone, Copy, Debug)]
pub enum ErrorClass {
    NotFound,
    Unauthorized,
    Forbidden,
    Validation,
    Internal,
}

/// The category of an error.
pub open spec fn error_class(e: PlimErrorKind) -> ErrorClass {
    match e {
        PlimErrorKind::NotFound(_) => ErrorClass::NotFound,
        PlimErrorKind::Unauthorized(_) => ErrorClass::Unauthorized,
        PlimErrorKind::Forbidden(_) => ErrorClass::Forbidden,
        PlimErrorKind::Validation(_) => ErrorClass::Validation,
        PlimErrorKind::InternalServerError(_) => ErrorClass::Internal,
    }
}

impl PlimErrorKind {
    /// The category of the error.
    pub fn class(&self) -> (r: ErrorClass)
        ensures
            r == error_class(*self),
    {
        match self {
            PlimErrorKind::NotFound(_) => ErrorClass::NotFound,
            PlimErrorKind::Unauthorized(_) => ErrorClass::Unauthorized,
            PlimErrorKind::Forbidden(_) => ErrorClass::Forbidden,
            PlimErrorKind::Validation(_) => ErrorClass::Validation,
            PlimErrorKind::InternalServerError(_) => ErrorClass::Internal,
        }
    }
}

/// A call to make on the pipeline API.
pub struct PipelineCall {
    pub project_id: u64,
    pub token: String,
    pub execute_api_type: ExecuteApiType,
    pub payload: PipelinePayload,
}

/// The model of a call: project, API token, endpoint shape and body.
pub type CallModel = (u64, Seq<char>, ExecuteApiType, PayloadModel);

impl View for PipelineCall {
    type V = CallModel;

    open spec fn view(&self) -> CallModel {
        (self.project_id, self.token@, self.execute_api_type, self.payload@)
    }
}

/// The model of a dispatch result.
pub open spec fn outcome_view(r: Result<PipelineCall, PlimErrorKind>) -> Result<CallModel, ErrorClass> {
    match r {
        Ok(c) => Ok(c@),
        Err(e) => Err(error_class(e)),
    }
}

/// The index of the first webhook named `name`, or -1.
pub open spec fn webhook_index(s: Seq<PlimPlanWebhook>, name: Seq<char>) -> int
    decreases s.len(),
{
    if s.len() == 0 {
        -1
    } else if s[0].name@ == name {
        0
    } else {
        let i = webhook_index(s.drop_first(), name);
        if i < 0 {
            -1
        } else {
            i + 1
        }
    }
}

proof fn lemma_webhook_index(s: Seq<PlimPlanWebhook>, name: Seq<char>)
    ensures
        -1 <= webhook_index(s, name) < s.len(),
        webhook_index(s, name) >= 0 ==> s[webhook_index(s, name)].name@ == name,
        webhook_index(s, name) >= 0 ==> forall|j: int|
            0 <= j < webhook_index(s, name) ==> s[j].name@ != name,
        webhook_index(s, name) < 0 ==> forall|j: int| 0 <= j < s.len() ==> s[j].name@ != name,
    decreases s.len(),
{
    if s.len() > 0 && s[0].name@ != name {
        lemma_webhook_index(s.drop_first(), name);
        assert forall|j: int| 1 <= j < s.len() implies s[j] == s.drop_first()[j - 1] by {}
    }
}

/// Position of the first webhook named `name`.
pub fn find_webhook(s: &Vec<PlimPlanWebhook>, name: &str) -> (r: Option<usize>)
    ensures
        match r {
            Some(i) => i < s@.len() && i as int == webhook_index(s@, name@),
            None => webhook_index(s@, name@) < 0,
        },
{
    proof {
        lemma_webhook_index(s@, name@);
    }
    let wanted = name.to_owned();
    let mut i: usize = 0;
    while i < s.len()
        invariant
            i <= s.len(),
            wanted@ == name@,
            forall|j: int| 0 <= j < i ==> s@[j].name@ != name@,
            -1 <= webhook_index(s@, name@) < s@.len(),
            webhook_index(s@, name@) >= 0 ==> s@[webhook_index(s@, name@)].name@ == name@,
            webhook_index(s@, name@) >= 0 ==> forall|j: int|
                0 <= j < webhook_index(s@, name@) ==> s@[j].name@ != name@,
            webhook_index(s@, name@) < 0 ==> forall|j: int| 0 <= j < s.len() ==> s@[j].name@ != name@,
        decreases s.len() - i,
    {
        if s[i].name == wanted {
            proof {
                if webhook_index(s@, name@) > i {
                    assert(s@[i as int].name@ != name@);
                }
            }
            return Some(i);
        }
        i = i + 1;
    }
    None
}

/// The ansible settings a webhook call runs with: the webhook's, with the
/// caller's laid over them when the webhook is dynamic; the plan's when the
/// webhook declares none.
pub open spec fn webhook_config_spec(
    plan: PlimPlan,
    webhook: PlimPlanWebhook,
    over: Option<AnsibleConfig>,
) -> Option<AnsibleConfig> {
    match webhook.ansible {
        Some(base) => if webhook.webhook_type == WebhookType::Dynamic && over is Some {
            Some(merge_spec(base, over->0))
        } else {
            Some(base)
        },
        None => plan.ansible,
    }
}

/// The body of a webhook call. Only plans that pass an ansible command
/// base64-encoded can be triggered by webhook.
pub open spec fn webhook_payload_spec(
    plan: PlimPlan,
    webhook: PlimPlanWebhook,
    request: WebhookPipelineRequest,
) -> Result<PayloadModel, ErrorClass> {
    if plan.plan_type != PlanType::GitlabAnsibleBase64 {
        Err(ErrorClass::Validation)
    } else {
        match webhook_config_spec(plan, webhook, request.ansible_data) {
            None => Err(ErrorClass::Internal),
            Some(c) => match plan.gitlab.json_data_key {
                None => Err(ErrorClass::Validation),
                Some(k) => {
                    let cmd = options_text(c) + opt_config_vars_text(c.extra_vars) + request_vars_text(
                        webhook_views_spec(plan, webhook, request.views),
                    );
                    if encodable(cmd) {
                        Ok(base64_payload(cmd, plan.gitlab.ref_name@, k@))
                    } else {
                        Err(ErrorClass::Internal)
                    }
                },
            },
        }
    }
}

/// What a webhook call comes to: the plan, then the webhook, are looked up;
/// the header token must be present, equal to the webhook's secret, and of
/// the configured length; the plan's API token must exist; then the body is
/// built.
pub open spec fn webhook_outcome(
    config: Config,
    tokens: GitlabTokens,
    plan_name: Seq<char>,
    webhook_name: Seq<char>,
    header_token: Option<Seq<char>>,
    request: WebhookPipelineRequest,
) -> Result<CallModel, ErrorClass> {
    let pi = name_index(config.plans@, plan_name);
    if pi < 0 {
        Err(ErrorClass::NotFound)
    } else {
        let plan = config.plans@[pi].1;
        match plan.webhooks {
            None => Err(ErrorClass::Validation),
            Some(whs) => {
                let wi = webhook_index(whs@, webhook_name);
                if wi < 0 {
                    Err(ErrorClass::NotFound)
                } else {
                    let webhook = whs@[wi];
                    match header_token {
                        None => Err(ErrorClass::Forbidden),
                        Some(h) => match token_value(tokens.all_vars@, webhook.trigger_token@) {
                            None => Err(ErrorClass::NotFound),
                            Some(secret) => if secret != h || h.len()
                                != config.plim.webhook_token_length as nat {
                                Err(ErrorClass::Forbidden)
                            } else {
                                match token_value(tokens.all_vars@, plan.gitlab.token_var@) {
                                    None => Err(ErrorClass::NotFound),
                                    Some(api_token) => match webhook_payload_spec(
                                        plan,
                                        webhook,
                                        request,
                                    ) {
                                        Err(c) => Err(c),
                                        Ok(p) => Ok(
                                            (
                                                plan.gitlab.project_id,
                                                api_token,
                                                plan.gitlab.execute_api_type,
                                                p,
                                            ),
                                        ),
                                    },
                                }
                            },
                        },
                    }
                }
            },
        }
    }
}

/// The body of a webhook call.
#[verifier::rlimit(40)]
pub fn webhook_payload(plan: &PlimPlan, webhook: &PlimPlanWebhook, request: WebhookPipelineRequest) -> (r:
    Result<PipelinePayload, PlimErrorKind>)
    ensures
        match r {
            Ok(p) => Ok(p@),
            Err(e) => Err(error_class(e)),
        } == webhook_payload_spec(*plan, *webhook, request),
{
    if plan.plan_type != PlanType::GitlabAnsibleBase64 {
        return Err(PlimErrorKind::validation("Invalid plan type - not implemented"));
    }
    let views = resolve_webhook_views(plan, webhook, &request.views);
    let ghost vs = pairs_view(views@);
    let req_vars = Some(views);
    let ghost spec_config = webhook_config_spec(*plan, *webhook, request.ansible_data);
    let cmd = match &webhook.ansible {
        Some(base) => {
            if webhook.webhook_type == WebhookType::Dynamic && request.ansible_data.is_some() {
                let over = request.ansible_data.unwrap();
                let merged = merge_ansible(base, over);
                proof {
                    lemma_same_settings_same_command(merged, merge_spec(*base, over), req_vars);
                }
                ansible_command(&merged, &req_vars)
            } else {
                ansible_command(base, &req_vars)
            }
        },
        None => match &plan.ansible {
            Some(c) => ansible_command(c, &req_vars),
            None => return Err(PlimErrorKind::internal_server_error("Ansible data not found")),
        },
    };
    proof {
        let c = spec_config->0;
        assert(cmd@ == options_text(c) + opt_config_vars_text(c.extra_vars) + request_vars_text(vs));
    }
    let key = match &plan.gitlab.json_data_key {
        Some(k) => k,
        None => return Err(
            PlimErrorKind::validation("JSON data key required for gitlab-ansible-base64 type"),
        ),
    };
    make_base64_payload_for_create_pipeline_api(cmd.as_str(), plan.gitlab.ref_name.as_str(), key.as_str())
}

/// Decides a webhook call: which call to make on the pipeline API, or the
/// error to answer with.
#[verifier::rlimit(40)]
pub fn prepare_webhook_pipeline(
    config: &Config,
    tokens: &GitlabTokens,
    plan_name: &str,
    webhook_name: &str,
    header_token: Option<&str>,
    request: WebhookPipelineRequest,
) -> (r: Result<PipelineCall, PlimErrorKind>)
    ensures
        outcome_view(r) == webhook_outcome(
            *config,
            *tokens,
            plan_name@,
            webhook_name@,
            match header_token {
                Some(h) => Some(h@),
                None => None,
            },
            request,
        ),
{
    let pi = match find_named(&config.plans, plan_name) {
        Some(i) => i,
        None => return Err(PlimErrorKind::not_found("Plan not found")),
    };
    let plan = &config.plans[pi].1;
    let whs = match &plan.webhooks {
        Some(w) => w,
        None => return Err(PlimErrorKind::validation("Webhook is not defined")),
    };
    let wi = match find_webhook(whs, webhook_name) {
        Some(i) => i,
        None => return Err(PlimErrorKind::not_found("Webhook not found")),
    };
    let webhook = &whs[wi];
    let header = match header_token {
        Some(h) => h,
        None => return Err(PlimErrorKind::forbidden("Webhook token is missing")),
    };
    let secret = match tokens.get(webhook.trigger_token.as_str()) {
        Ok(t) => t,
        Err(_) => return Err(PlimErrorKind::not_found("Webhook token is missing")),
    };
    let presented = header.to_owned();
    if !(secret == presented) || header.unicode_len() != config.plim.webhook_token_length as usize {
        return Err(PlimErrorKind::forbidden("Webhook token is not valid or short"));
    }
    let api_token = match tokens.get(plan.gitlab.token_var.as_str()) {
        Ok(t) => t,
        Err(_) => return Err(PlimErrorKind::not_found("Your token is missing")),
    };
    let payload = match webhook_payload(plan, webhook, request) {
        Ok(p) => p,
        Err(e) => return Err(e),
    };
    Ok(
        PipelineCall {
            project_id: plan.gitlab.project_id,
            token: api_token,
            execute_api_type: plan.gitlab.execute_api_type,
            payload,
        },
    )
}

/// A header token that equals the webhook's secret but whose length is not
/// the configured token length is refused as forbidden, as is any token
/// that differs from the secret.
#[verifier::rlimit(40)]
pub proof fn lemma_secret_check(
    config: Config,
    tokens: GitlabTokens,
    plan_name: Seq<char>,
    webhook_name: Seq<char>,
    header_token: Seq<char>,
    request: WebhookPipelineRequest,
)
    requires
        name_index(config.plans@, plan_name) >= 0,
        config.plans@[name_index(config.plans@, plan_name)].1.webhooks is Some,
        webhook_index(
            config.plans@[name_index(config.plans@, plan_name)].1.webhooks->0@,
            webhook_name,
        ) >= 0,
        token_value(
            tokens.all_vars@,
            config.plans@[name_index(config.plans@, plan_name)].1.webhooks->0@[webhook_index(
                config.plans@[name_index(config.plans@, plan_name)].1.webhooks->0@,
                webhook_name,
            )].trigger_token@,
        ) matches Some(secret) && (secret != header_token || header_token.len()
            != config.plim.webhook_token_length as nat),
    ensures
        webhook_outcome(config, tokens, plan_name, webhook_name, Some(header_token), request)
            == Err::<CallModel, ErrorClass>(ErrorClass::Forbidden),
{
}

/// The body of a direct trigger, by plan type. `json_text` is the request's
/// json data written as JSON text.
pub open spec fn direct_payload_spec(
    plan: PlimPlan,
    request: TriggerPipelineRequest,
    json_text: Seq<char>,
) -> Result<PayloadModel, ErrorClass> {
    match plan.plan_type {
        PlanType::GitlabAnsibleBase64 => match plan.gitlab.json_data_key {
            None => Err(ErrorClass::Validation),
            Some(k) => {
                let cmd = ansible_cmd_text(request.ansible_data->0, request.json_data);
                let ref_name = match request.gitlab_data {
                    Some(g) => g.selected_ref@,
                    None => plan.gitlab.ref_name@,
                };
                if encodable(cmd) {
                    Ok(base64_payload(cmd, ref_name, k@))
                } else {
                    Err(ErrorClass::Internal)
                }
            },
        },
        PlanType::GitlabBase64 => match plan.gitlab.json_data_key {
            None => Err(ErrorClass::Validation),
            Some(k) => if encodable(json_text) {
                Ok(base64_payload(json_text, plan.gitlab.ref_name@, k@))
            } else {
                Err(ErrorClass::Internal)
            },
        },
        PlanType::GitlabAnsibleNative => match request.ansible_data {
            Some(c) => Ok(PayloadModel::AnsibleVariables(c)),
            None => Err(ErrorClass::Validation),
        },
        PlanType::GitlabNative => Ok(
            native_payload(pairs_view(request.json_data->0@), plan.gitlab.ref_name@),
        ),
    }
}

/// What a direct trigger comes to: the plan and its API token are looked
/// up; the request must carry json data, and ansible settings when the plan
/// passes an ansible command; then the body is built.
pub open spec fn direct_outcome(
    config: Config,
    tokens: GitlabTokens,
    plan_name: Seq<char>,
    request: TriggerPipelineRequest,
    json_text: Seq<char>,
) -> Result<CallModel, ErrorClass> {
    let pi = name_index(config.plans@, plan_name);
    if pi < 0 {
        Err(ErrorClass::NotFound)
    } else {
        let plan = config.plans@[pi].1;
        match token_value(tokens.all_vars@, plan.gitlab.token_var@) {
            None => Err(ErrorClass::NotFound),
            Some(api_token) => if request.json_data is None {
                Err(ErrorClass::Validation)
            } else if request.ansible_data is None && plan.plan_type
                == PlanType::GitlabAnsibleBase64 {
                Err(ErrorClass::Validation)
            } else {
                match direct_payload_spec(plan, request, json_text) {
                    Err(c) => Err(c),
                    Ok(p) => Ok(
                        (plan.gitlab.project_id, api_token, plan.gitlab.execute_api_type, p),
                    ),
                }
            },
        }
    }
}

/// The body of a direct trigger, once json data, and ansible settings for
/// an ansible-command plan, are known to be there.
#[verifier::rlimit(40)]
pub fn direct_payload(plan: &PlimPlan, request: TriggerPipelineRequest, json_text: &str) -> (r: Result<
    PipelinePayload,
    PlimErrorKind,
>)
    requires
        request.json_data is Some,
        plan.plan_type == PlanType::GitlabAnsibleBase64 ==> request.ansible_data is Some,
    ensures
        match r {
            Ok(p) => Ok(p@),
            Err(e) => Err(error_class(e)),
        } == direct_payload_spec(*plan, request, json_text@),
{
    match plan.plan_type {
        PlanType::GitlabAnsibleBase64 => {
            let key = match &plan.gitlab.json_data_key {
                Some(k) => k,
                None => return Err(
                    PlimErrorKind::validation("JSON data key required for gitlab-ansible-base64 type"),
                ),
            };
            let cmd = match &request.ansible_data {
                Some(c) => ansible_command(c, &request.json_data),
                None => return Err(PlimErrorKind::validation("Ansible data not found")),
            };
            match &request.gitlab_data {
                Some(g) => make_base64_payload_for_create_pipeline_api(
                    cmd.as_str(),
                    g.selected_ref.as_str(),
                    key.as_str(),
                ),
                None => make_base64_payload_for_create_pipeline_api(
                    cmd.as_str(),
                    plan.gitlab.ref_name.as_str(),
                    key.as_str(),
                ),
            }
        },
        PlanType::GitlabBase64 => {
            match &plan.gitlab.json_data_key {
                Some(k) => make_base64_payload_for_create_pipeline_api(
                    json_text,
                    plan.gitlab.ref_name.as_str(),
                    k.as_str(),
                ),
                None => Err(
                    PlimErrorKind::validation("JSON data key required for gitlab-base64 type"),
                ),
            }
        },
        PlanType::GitlabAnsibleNative => {
            match request.ansible_data {
                Some(c) => Ok(PipelinePayload::AnsibleVariables(c)),
                None => Err(
                    PlimErrorKind::validation("Ansible data required for gitlab-ansible-native type"),
                ),
            }
        },
        PlanType::GitlabNative => {
            match &request.json_data {
                Some(d) => Ok(make_native_payload_for_create_pipeline_api(d, plan.gitlab.ref_name.as_str())),
                None => Err(PlimErrorKind::validation("JSON data view")),
            }
        },
    }
}

/// Decides a direct trigger of a plan: which call to make on the pipeline
/// API, or the error to answer with. `json_text` is the request's json data
/// written as JSON text; only plans that pass it base64-encoded read it.
#[verifier::rlimit(40)]
pub fn prepare_pipeline(
    config: &Config,
    tokens: &GitlabTokens,
    plan_name: &str,
    request: TriggerPipelineRequest,
    json_text: &str,
) -> (r: Result<PipelineCall, PlimErrorKind>)
    ensures
        outcome_view(r) == direct_outcome(*config, *tokens, plan_name@, request, json_text@),
{
    let pi = match find_named(&config.plans, plan_name) {
        Some(i) => i,
        None => return Err(PlimErrorKind::not_found("Plan not found")),
    };
    let plan = &config.plans[pi].1;
    let api_token = match tokens.get(plan.gitlab.token_var.as_str()) {
        Ok(t) => t,
        Err(_) => return Err(PlimErrorKind::not_found("Your token is missing")),
    };
    if request.json_data.is_none() {
        return Err(PlimErrorKind::validation("JSON data view"));
    }
    if request.ansible_data.is_none() && plan.plan_type == PlanType::GitlabAnsibleBase64 {
        return Err(PlimErrorKind::validation("Ansible data required for gitlab-ansible-base64 type"));
    }
    let payload = match direct_payload(plan, request, json_text) {
        Ok(p) => p,
        Err(e) => return Err(e),
    };
    Ok(
        PipelineCall {
            project_id: plan.gitlab.project_id,
            token: api_token,
            execute_api_type: plan.gitlab.execute_api_type,
            payload,
        },
    )
}

} // verus!
