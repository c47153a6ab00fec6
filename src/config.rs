//! The configuration tree: plans, webhooks, users and store settings, with
//! the role filter and the user lookup.

use vstd::prelude::*;
use crate::ansible::AnsibleConfig;
use crate::views::PlimPlanViewType;
use crate::errors::PlimErrorKind;
use crate::external::{bcrypt_verify, bcrypt_verdict};

verus! {

/// How a webhook treats the overrides a caller sends.
#[derive(PartialEq, Eq, Structural, Clone, Copy, Debug)]
pub enum WebhookType {
    Static,
    Dynamic,
}

/// The strategy by which a plan builds its pipeline payload.
#[derive(PartialEq, Eq, Structural, Clone, Copy, Debug)]
pub enum PlanType {
    GitlabAnsibleBase64,
    GitlabBase64,
    GitlabAnsibleNative,
    GitlabNative,
}

/// Which endpoint of the pipeline API is called.
#[derive(PartialEq, Eq, Structural, Clone, Copy, Debug)]
pub enum ExecuteApiType {
    Trigger,
    Create,
}

/// Whether and how callers may pick a branch or tag.
#[derive(Clone)]
pub struct RefSelect {
    pub ref_select_enabled: bool,
    pub branch_enabled: bool,
    pub branch_search_name: Option<String>,
    pub branch_regex: Option<String>,
    pub tag_enabled: bool,
    pub tag_search_name: Option<String>,
    pub tag_regex: Option<String>,
}

/// Ref selection when the configuration says nothing of it: all disabled.
pub fn default_allow_ref_select() -> (r: RefSelect)
    ensures
        !r.ref_select_enabled,
        !r.branch_enabled,
        !r.tag_enabled,
        r.branch_search_name is None,
        r.branch_regex is None,
        r.tag_search_name is None,
        r.tag_regex is None,
{
    RefSelect {
        ref_select_enabled: false,
        branch_enabled: false,
        branch_search_name: None,
        branch_regex: None,
        tag_enabled: false,
        tag_search_name: None,
        tag_regex: None,
    }
}

/// The pipeline settings of a plan.
#[derive(Clone)]
pub struct PlimPlanGitlabSettings {
    pub project_id: u64,
    pub token_var: String,
    pub ref_name: String,
    pub ref_select: RefSelect,
    pub json_data_key: Option<String>,
    pub execute_api_type: ExecuteApiType,
}

/// A secret-gated entry point of a plan.
#[derive(Clone)]
pub struct PlimPlanWebhook {
    pub name: String,
    pub trigger_token: String,
    pub webhook_type: WebhookType,
    pub views: Option<Vec<PlimPlanViewType>>,
    pub ansible: Option<AnsibleConfig>,
}

/// A named pipeline-trigger configuration.
#[derive(Clone)]
pub struct PlimPlan {
    pub plan_type: PlanType,
    pub groups: Vec<String>,
    pub ansible: Option<AnsibleConfig>,
    pub gitlab: PlimPlanGitlabSettings,
    pub webhooks: Option<Vec<PlimPlanWebhook>>,
    pub views: Vec<PlimPlanViewType>,
}

/// A user account.
#[derive(Clone)]
pub struct PlimUser {
    pub full_name: String,
    pub email: String,
    pub groups: Vec<String>,
    pub hashed_password: String,
    pub disabled: bool,
}

/// Process-level settings.
#[derive(Clone)]
pub struct PlimConfig {
    pub listen_address: String,
    pub jwt_token_duration_hours: i64,
    pub webhook_token_length: u8,
}

/// A database location.
pub struct Database {
    pub url: String,
}

/// Where the pipeline API is.
#[derive(Clone)]
pub struct GitlabConfig {
    pub api_endpoint: String,
}

/// The endpoints of a key-value store.
#[derive(Clone)]
pub struct EtcdDataMap {
    pub address: Vec<String>,
}

/// A prefix in a named store.
#[derive(Clone)]
pub struct EtcdConfig {
    pub etcd_name: String,
    pub key_prefix_path: String,
}

/// Where plans, users and inventories are kept in stores.
#[derive(Clone)]
pub struct EtcdConfigs {
    pub plans: EtcdConfig,
    pub users: EtcdConfig,
    pub ansible_inventories: EtcdConfig,
}

/// The whole configuration; plans, users and stores are listed by name.
#[derive(Clone)]
pub struct Config {
    pub plim: PlimConfig,
    pub gitlab: GitlabConfig,
    pub admins: Vec<String>,
    pub users: Vec<(String, PlimUser)>,
    pub etcd_data_map: Vec<(String, EtcdDataMap)>,
    pub etcd_configs: EtcdConfigs,
    pub plans: Vec<(String, PlimPlan)>,
}

/// No stores when the configuration names none.
pub fn default_etcd_map() -> (r: Vec<(String, EtcdDataMap)>)
    ensures
        r@.len() == 0,
{
    Vec::new()
}

fn empty_etcd_config() -> (r: EtcdConfig)
    ensures
        r.etcd_name@.len() == 0,
        r.key_prefix_path@.len() == 0,
{
    EtcdConfig { etcd_name: String::new(), key_prefix_path: String::new() }
}

/// Store prefixes when the configuration names none: all empty.
pub fn default_etcd_configs() -> (r: EtcdConfigs)
    ensures
        r.plans.etcd_name@.len() == 0,
        r.plans.key_prefix_path@.len() == 0,
        r.users.etcd_name@.len() == 0,
        r.users.key_prefix_path@.len() == 0,
        r.ansible_inventories.etcd_name@.len() == 0,
        r.ansible_inventories.key_prefix_path@.len() == 0,
{
    EtcdConfigs {
        plans: empty_etcd_config(),
        users: empty_etcd_config(),
        ansible_inventories: empty_etcd_config(),
    }
}

/// The index of the first entry named `name`, or -1.
pub open spec fn name_index<T>(s: Seq<(String, T)>, name: Seq<char>) -> int
    decreases s.len(),
{
    if s.len() == 0 {
        -1
    } else if s[0].0@ == name {
        0
    } else {
        let i = name_index(s.drop_first(), name);
        if i < 0 {
            -1
        } else {
            i + 1
        }
    }
}

/// What `name_index` gives: a position whose name matches, with no
/// earlier match, or -1 when no entry matches.
pub proof fn lemma_name_index<T>(s: Seq<(String, T)>, name: Seq<char>)
    ensures
        -1 <= name_index(s, name) < s.len(),
        name_index(s, name) >= 0 ==> s[name_index(s, name)].0@ == name,
        name_index(s, name) >= 0 ==> forall|j: int|
            0 <= j < name_index(s, name) ==> s[j].0@ != name,
        name_index(s, name) < 0 ==> forall|j: int| 0 <= j < s.len() ==> s[j].0@ != name,
    decreases s.len(),
{
    if s.len() > 0 && s[0].0@ != name {
        lemma_name_index(s.drop_first(), name);
        assert forall|j: int| 1 <= j < s.len() implies s[j] == s.drop_first()[j - 1] by {}
    }
}

/// Position of the first entry named `name`.
pub fn find_named<T>(s: &Vec<(String, T)>, name: &str) -> (r: Option<usize>)
    ensures
        match r {
            Some(i) => i < s@.len() && i as int == name_index(s@, name@),
            None => name_index(s@, name@) < 0,
        },
{
    proof {
        lemma_name_index(s@, name@);
    }
    let wanted = name.to_owned();
    let mut i: usize = 0;
    while i < s.len()
        invariant
            i <= s.len(),
            wanted@ == name@,
            forall|j: int| 0 <= j < i ==> s@[j].0@ != name@,
            -1 <= name_index(s@, name@) < s@.len(),
            name_index(s@, name@) >= 0 ==> s@[name_index(s@, name@)].0@ == name@,
            name_index(s@, name@) >= 0 ==> forall|j: int|
                0 <= j < name_index(s@, name@) ==> s@[j].0@ != name@,
            name_index(s@, name@) < 0 ==> forall|j: int| 0 <= j < s.len() ==> s@[j].0@ != name@,
        decreases s.len() - i,
    {
        if s[i].0 == wanted {
            proof {
                assert(s@[i as int].0@ == name@);
                if name_index(s@, name@) > i {
                    assert(s@[i as int].0@ != name@);
                }
            }
            return Some(i);
        }
        i = i + 1;
    }
    None
}

/// Whether `s` holds the text `t`.
pub open spec fn has_text(s: Seq<String>, t: Seq<char>) -> bool {
    exists|i: int| 0 <= i < s.len() && (#[trigger] s[i])@ == t
}

/// Whether `s` holds the text `t`.
pub fn contains_text(s: &Vec<String>, t: &String) -> (r: bool)
    ensures
        r == has_text(s@, t@),
{
    let mut i: usize = 0;
    while i < s.len()
        invariant
            i <= s.len(),
            forall|j: int| 0 <= j < i ==> (#[trigger] s@[j])@ != t@,
        decreases s.len() - i,
    {
        if s[i] == *t {
            return true;
        }
        i = i + 1;
    }
    false
}

/// Whether some group of the plan is among `groups`.
pub open spec fn plan_in_groups(plan: PlimPlan, groups: Seq<String>) -> bool {
    exists|i: int| 0 <= i < plan.groups@.len() && has_text(groups, (#[trigger] plan.groups@[i])@)
}

/// Whether some group of `plan_groups` is among `groups`.
fn any_group_in(plan_groups: &Vec<String>, groups: &Vec<String>) -> (r: bool)
    ensures
        r == exists|i: int| 0 <= i < plan_groups@.len() && has_text(groups@, (#[trigger] plan_groups@[i])@),
{
    let mut i: usize = 0;
    while i < plan_groups.len()
        invariant
            i <= plan_groups.len(),
            forall|j: int| 0 <= j < i ==> !has_text(groups@, (#[trigger] plan_groups@[j])@),
        decreases plan_groups.len() - i,
    {
        if contains_text(groups, &plan_groups[i]) {
            return true;
        }
        i = i + 1;
    }
    false
}

/// The plans, in order, that some of `groups` may see.
pub open spec fn plans_in_groups(plans: Seq<(String, PlimPlan)>, groups: Seq<String>) -> Seq<
    (String, PlimPlan),
>
    decreases plans.len(),
{
    if plans.len() == 0 {
        Seq::empty()
    } else {
        plans_in_groups(plans.drop_last(), groups) + if plan_in_groups(plans.last().1, groups) {
            seq![plans.last()]
        } else {
            Seq::empty()
        }
    }
}

/// The entries that a list of references points to.
pub open spec fn entries_of(s: Seq<&(String, PlimPlan)>) -> Seq<(String, PlimPlan)> {
    s.map_values(|e: &(String, PlimPlan)| *e)
}

/// The name of the role that sees every plan.
pub open spec fn admin_role() -> Seq<char> {
    "admin"@
}

/// The plans visible to callers with `roles`: all of them for an admin,
/// else those sharing a group with the roles.
pub open spec fn visible_plans(plans: Seq<(String, PlimPlan)>, roles: Seq<String>) -> Seq<
    (String, PlimPlan),
> {
    if has_text(roles, admin_role()) {
        plans
    } else {
        plans_in_groups(plans, roles)
    }
}

/// Whether the user's password check passes, given what the bcrypt
/// comparison of the password with the stored hash gave (`None`: the
/// hash could not be read).
pub open spec fn password_accepted(user: PlimUser, verdict: Option<bool>) -> bool {
    user.hashed_password@.len() > 0 && !user.disabled && verdict == Some(true)
}

impl PlimUser {
    /// Whether the user may log in with the password, given the outcome of
    /// comparing it with the stored hash.
    pub fn password_matches(&self, verdict: Option<bool>) -> (r: bool)
        ensures
            r == password_accepted(*self, verdict),
    {
        if self.hashed_password.as_str().is_empty() {
            return false;
        }
        if self.disabled {
            return false;
        }
        match verdict {
            Some(valid) => valid,
            None => false,
        }
    }

    /// Whether the user may log in with `password`: the user has a password
    /// hash, is not disabled, and the password matches the hash.
    pub fn validate_password(&self, password: &str) -> (r: bool)
        ensures
            r == password_accepted(*self, bcrypt_verdict(password@, self.hashed_password@)),
    {
        if self.hashed_password.as_str().is_empty() || self.disabled {
            return false;
        }
        let verdict = bcrypt_verify(password, self.hashed_password.as_str());
        self.password_matches(verdict)
    }
}

impl Config {
    /// The user named `username`; not found when there is none.
    pub fn get_user(&self, username: &str) -> (r: Result<&PlimUser, PlimErrorKind>)
        ensures
            name_index(self.users@, username@) >= 0 ==> (r matches Ok(u) && *u
                == self.users@[name_index(self.users@, username@)].1),
            name_index(self.users@, username@) < 0 ==> (r matches Err(PlimErrorKind::NotFound(_))),
    {
        match find_named(&self.users, username) {
            Some(i) => Ok(&self.users[i].1),
            None => Err(PlimErrorKind::not_found("User not found")),
        }
    }

    /// Whether `username` names a user who may log in with `password`.
    pub fn check_user_password_is_valid(&self, username: &str, password: &str) -> (r: bool)
        ensures
            r == (name_index(self.users@, username@) >= 0 && password_accepted(
                self.users@[name_index(self.users@, username@)].1,
                bcrypt_verdict(password@, self.users@[name_index(self.users@, username@)].1.hashed_password@),
            )),
    {
        let user = match self.get_user(username) {
            Ok(user) => user,
            Err(_) => return false,
        };
        user.validate_password(password)
    }

    /// The plans, in order, that share a group with `desired_groups`.
    pub fn filter_plans_by_groups(&self, desired_groups: &Vec<String>) -> (r: Vec<&(String, PlimPlan)>)
        ensures
            entries_of(r@) == plans_in_groups(self.plans@, desired_groups@),
    {
        let mut out: Vec<&(String, PlimPlan)> = Vec::new();
        let mut i: usize = 0;
        while i < self.plans.len()
            invariant
                i <= self.plans.len(),
                entries_of(out@) == plans_in_groups(self.plans@.take(i as int), desired_groups@),
            decreases self.plans.len() - i,
        {
            proof {
                assert(self.plans@.take(i + 1).drop_last() =~= self.plans@.take(i as int));
            }
            let entry = &self.plans[i];
            if any_group_in(&entry.1.groups, desired_groups) {
                out.push(entry);
            }
            i = i + 1;
            proof {
                assert(entries_of(out@) =~= plans_in_groups(self.plans@.take(i as int), desired_groups@));
            }
        }
        proof {
            assert(self.plans@.take(self.plans@.len() as int) =~= self.plans@);
        }
        out
    }
}

/// The plans visible to callers with `roles`: every plan for the admin
/// role, else the plans that share a group with `roles`.
pub fn get_available_plans<'a>(config: &'a Config, roles: &Vec<String>) -> (r: Vec<&'a (String, PlimPlan)>)
    ensures
        entries_of(r@) == visible_plans(config.plans@, roles@),
{
    let admin = String::from_str("admin");
    if contains_text(roles, &admin) {
        let mut out: Vec<&(String, PlimPlan)> = Vec::new();
        let mut i: usize = 0;
        while i < config.plans.len()
            invariant
                i <= config.plans.len(),
                entries_of(out@) == config.plans@.take(i as int),
            decreases config.plans.len() - i,
        {
            let ghost prev = out@;
            out.push(&config.plans[i]);
            proof {
                assert(entries_of(out@) =~= entries_of(prev).push(config.plans@[i as int]));
            }
            i = i + 1;
            proof {
                assert(entries_of(out@) =~= config.plans@.take(i as int));
            }
        }
        proof {
            assert(config.plans@.take(config.plans@.len() as int) =~= config.plans@);
        }
        out
    } else {
        config.filter_plans_by_groups(roles)
    }
}

/// The role filter keeps exactly the plans that share at least one group
/// with the caller's roles (any one suffices), in their order; an admin
/// sees every plan.
pub proof fn lemma_role_filter(plans: Seq<(String, PlimPlan)>, roles: Seq<String>)
    ensures
        has_text(roles, admin_role()) ==> visible_plans(plans, roles) == plans,
        !has_text(roles, admin_role()) ==> forall|e: (String, PlimPlan)|
            visible_plans(plans, roles).contains(e) <==> (plans.contains(e) && plan_in_groups(
                e.1,
                roles,
            )),
    decreases plans.len(),
{
    if plans.len() > 0 {
        lemma_role_filter(plans.drop_last(), roles);
        assert(plans =~= plans.drop_last().push(plans.last()));
        assert forall|e: (String, PlimPlan)|
            plans_in_groups(plans, roles).contains(e) <==> (plans.contains(e) && plan_in_groups(
                e.1,
                roles,
            )) by {
            lemma_plans_in_groups_member(plans, roles, e);
        }
    }
}

proof fn lemma_plans_in_groups_member(
    plans: Seq<(String, PlimPlan)>,
    roles: Seq<String>,
    e: (String, PlimPlan),
)
    ensures
        plans_in_groups(plans, roles).contains(e) <==> (plans.contains(e) && plan_in_groups(e.1, roles)),
    decreases plans.len(),
{
    if plans.len() == 0 {
    } else {
        let init = plans.drop_last();
        lemma_plans_in_groups_member(init, roles, e);
        let prev = plans_in_groups(init, roles);
        let tail = if plan_in_groups(plans.last().1, roles) {
            seq![plans.last()]
        } else {
            Seq::empty()
        };
        assert(plans_in_groups(plans, roles) == prev + tail);
        assert(plans =~= init.push(plans.last()));
        if (prev + tail).contains(e) {
            let k = choose|k: int| 0 <= k < (prev + tail).len() && (prev + tail)[k] == e;
            if k >= prev.len() {
                assert(plans[plans.len() - 1] == e);
            } else {
                assert(prev[k] == e);
                let j = choose|j: int| 0 <= j < init.len() && init[j] == e;
                assert(plans[j] == e);
            }
        }
        if plans.contains(e) && plan_in_groups(e.1, roles) {
            let j = choose|j: int| 0 <= j < plans.len() && plans[j] == e;
            if j == plans.len() - 1 {
                assert((prev + tail)[prev.len() as int] == e);
            } else {
                assert(init[j] == e);
                assert(init.contains(e));
                let k = choose|k: int| 0 <= k < prev.len() && prev[k] == e;
                assert((prev + tail)[k] == e);
            }
        }
    }
}

} // verus!
