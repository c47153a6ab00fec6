//! Requests to trigger a pipeline.

use vstd::prelude::*;
use crate::value::AnyValue;
use crate::ansible::AnsibleConfig;
use crate::views::PlimPlanViewType;

verus! {

/// The ref a caller selected.
#[derive(Clone)]
pub struct GitlabParams {
    pub selected_ref: String,
}

/// A direct request to trigger a plan's pipeline.
#[derive(Clone)]
pub struct TriggerPipelineRequest {
    pub json_data: Option<Vec<(String, Option<AnyValue>)>>,
    pub ansible_data: Option<AnsibleConfig>,
    pub gitlab_data: Option<GitlabParams>,
}

impl TriggerPipelineRequest {
    /// A request made of its three parts.
    pub fn new(
        json_data: Option<Vec<(String, Option<AnyValue>)>>,
        ansible_data: Option<AnsibleConfig>,
        gitlab_data: Option<GitlabParams>,
    ) -> (r: Self)
        ensures
            r.json_data == json_data,
            r.ansible_data == ansible_data,
            r.gitlab_data == gitlab_data,
    {
        Self { json_data, ansible_data, gitlab_data }
    }
}

/// The overrides a caller may send with a webhook call.
#[derive(Clone)]
pub struct WebhookPipelineRequest {
    pub ansible_data: Option<AnsibleConfig>,
    pub views: Option<Vec<PlimPlanViewType>>,
}

} // verus!
