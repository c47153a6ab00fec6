//! Ansible settings and the synthesis of an `ansible-playbook` command line.

use vstd::prelude::*;
use vstd::string::*;
use crate::value::{AnyValue, join, join_strings, texts_of, decimal, decimal_string, value_text};
use crate::views::{PairModel, pairs_view};
use crate::errors::PlimErrorKind;
use crate::pipeline::TriggerPipelineRequest;

verus! {

/// Where an inventory is kept.
#[derive(PartialEq, Eq, Structural, Clone, Copy, Debug)]
pub enum AnsibleInventoryType {
    Local,
    Gitlab,
    Etcd,
}

/// An inventory file in a repository.
#[derive(Clone)]
pub struct AnsibleGitlabBackend {
    pub inventory_type: AnsibleInventoryType,
    pub token_var: Option<String>,
    pub ref_name: Option<String>,
    pub project_id: Option<u64>,
    pub file_path: String,
}

/// An inventory document in a key-value store.
#[derive(Clone)]
pub struct AnsibleEtcdBackend {
    pub inventory_type: AnsibleInventoryType,
    pub etcd_name: String,
    pub key_path: String,
}

/// An inventory file on the local disk.
#[derive(Clone)]
pub struct AnsibleLocalBackend {
    pub inventory_type: AnsibleInventoryType,
    pub file_path: String,
}

/// The inventory backend of a plan.
#[derive(Clone)]
pub enum AnsibleBackendType {
    Local(AnsibleLocalBackend),
    Gitlab(AnsibleGitlabBackend),
    Etcd(AnsibleEtcdBackend),
}

impl Default for AnsibleBackendType {
    fn default() -> (r: AnsibleBackendType)
        ensures
            r matches AnsibleBackendType::Local(l) && l.inventory_type == AnsibleInventoryType::Local
                && l.file_path@ == Seq::<char>::empty(),
    {
        AnsibleBackendType::Local(
            AnsibleLocalBackend { inventory_type: AnsibleInventoryType::Local, file_path: String::new() },
        )
    }
}

/// The settings from which an ansible command line is synthesized.
#[derive(Clone)]
pub struct AnsibleConfig {
    pub is_inventory_inline: Option<bool>,
    pub backend_inventory: AnsibleBackendType,
    pub playbook: String,
    pub inventory: String,
    pub extra_vars: Option<Vec<(String, String)>>,
    pub private_key: Option<String>,
    pub remote_user: Option<String>,
    pub connection: Option<String>,
    pub timeout: Option<u64>,
    pub ssh_common_args: Option<String>,
    pub sftp_extra_args: Option<String>,
    pub scp_extra_args: Option<String>,
    pub ssh_extra_args: Option<String>,
    pub force_handlers: Option<bool>,
    pub ask_pass: Option<bool>,
    pub privilege_escalation: Option<bool>,
    pub become_method: Option<String>,
    pub become_user: Option<String>,
    pub ask_become_pass: Option<bool>,
    pub tags: Option<Vec<String>>,
    pub skip_tags: Option<String>,
    pub forks: Option<u64>,
    pub limit_hosts: Option<Vec<String>>,
    pub verbosity: Option<u64>,
    pub vault_password_file: Option<String>,
    pub syntax_check: Option<bool>,
    pub diff: Option<bool>,
    pub check: Option<bool>,
    pub list_hosts: Option<bool>,
    pub list_tasks: Option<bool>,
    pub list_tags: Option<bool>,
    pub start_at_task: Option<String>,
    pub become_password_file: Option<String>,
    pub connection_password_file: Option<String>,
    pub module_dir: Option<String>,
    pub version: Option<bool>,
}

/// `flag` followed by the value, when there is one.
pub open spec fn text_arg(o: Option<String>, flag: Seq<char>) -> Seq<char> {
    match o {
        Some(s) => flag + s@,
        None => Seq::empty(),
    }
}

/// `flag` followed by the value and a closing quote, when there is a value;
/// `flag` ends with the opening quote.
pub open spec fn quoted_arg(o: Option<String>, flag: Seq<char>) -> Seq<char> {
    match o {
        Some(s) => flag + s@ + "'"@,
        None => Seq::empty(),
    }
}

/// `flag` followed by the number in decimal, when there is one.
pub open spec fn number_arg(o: Option<u64>, flag: Seq<char>) -> Seq<char> {
    match o {
        Some(n) => flag + decimal(n as nat),
        None => Seq::empty(),
    }
}

/// `flag` alone when the setting is true; nothing when it is false or absent.
pub open spec fn flag_arg(o: Option<bool>, flag: Seq<char>) -> Seq<char> {
    if o == Some(true) {
        flag
    } else {
        Seq::empty()
    }
}

/// `-t` with the comma-joined tags, when there are any.
pub open spec fn tags_arg(o: Option<Vec<String>>) -> Seq<char> {
    match o {
        Some(v) => if v@.len() > 0 {
            " -t "@ + join(texts_of(v@), ","@)
        } else {
            Seq::empty()
        },
        None => Seq::empty(),
    }
}

/// `-l` with the comma-joined hosts, when there are any, and a trailing
/// comma when the inventory is inline.
pub open spec fn limit_arg(o: Option<Vec<String>>, inline: Option<bool>) -> Seq<char> {
    match o {
        Some(v) => if v@.len() > 0 {
            " -l "@ + join(texts_of(v@), ","@) + (if inline == Some(true) {
                ","@
            } else {
                Seq::empty()
            })
        } else {
            Seq::empty()
        },
        None => Seq::empty(),
    }
}

/// `n` letters `v`.
pub open spec fn repeat_v(n: nat) -> Seq<char>
    decreases n,
{
    if n == 0 {
        Seq::empty()
    } else {
        repeat_v((n - 1) as nat) + "v"@
    }
}

/// `-v` repeated as many times as the verbosity, when it is not zero.
pub open spec fn verbosity_arg(o: Option<u64>) -> Seq<char> {
    match o {
        Some(n) => if n != 0 {
            " -"@ + repeat_v(n as nat)
        } else {
            Seq::empty()
        },
        None => Seq::empty(),
    }
}

/// Everything of the command before the extra variables, in its fixed order.
pub open spec fn options_text(c: AnsibleConfig) -> Seq<char> {
    "ansible-playbook "@ + c.playbook@ + " -i "@ + c.inventory@ + text_arg(
        c.private_key,
        " --private-key "@,
    ) + text_arg(c.remote_user, " -u "@) + text_arg(c.connection, " -c "@) + number_arg(
        c.timeout,
        " -T "@,
    ) + quoted_arg(c.ssh_common_args, " --ssh-common-args '"@) + quoted_arg(
        c.sftp_extra_args,
        " --sftp-extra-args '"@,
    ) + quoted_arg(c.scp_extra_args, " --scp-extra-args '"@) + quoted_arg(
        c.ssh_extra_args,
        " --ssh-extra-args '"@,
    ) + flag_arg(c.ask_pass, " -k"@) + flag_arg(c.privilege_escalation, " -b"@) + text_arg(
        c.become_method,
        " --become-method "@,
    ) + text_arg(c.become_user, " --become-user "@) + flag_arg(c.ask_become_pass, " -K"@)
        + tags_arg(c.tags) + text_arg(c.skip_tags, " --skip-tags "@) + number_arg(
        c.forks,
        " -f "@,
    ) + limit_arg(c.limit_hosts, c.is_inventory_inline) + verbosity_arg(c.verbosity) + text_arg(
        c.vault_password_file,
        " --vault-password-file "@,
    ) + flag_arg(c.syntax_check, " --syntax-check"@) + flag_arg(c.diff, " --diff"@) + flag_arg(
        c.check,
        " --check"@,
    ) + flag_arg(c.list_hosts, " --list-hosts"@) + flag_arg(c.list_tasks, " --list-tasks"@)
        + flag_arg(c.list_tags, " --list-tags"@) + quoted_arg(
        c.start_at_task,
        " --start-at-task '"@,
    )
}

/// One extra variable: `-e key='value'`.
pub open spec fn var_text(key: Seq<char>, value: Seq<char>) -> Seq<char> {
    " -e "@ + key + "='"@ + value + "'"@
}

/// The configured extra variables, in their order.
pub open spec fn config_vars_text(s: Seq<(String, String)>) -> Seq<char>
    decreases s.len(),
{
    if s.len() == 0 {
        Seq::empty()
    } else {
        config_vars_text(s.drop_last()) + var_text(s.last().0@, s.last().1@)
    }
}

/// The request's extra variables, in their order; a variable without a
/// value is skipped.
pub open spec fn request_vars_text(s: Seq<PairModel>) -> Seq<char>
    decreases s.len(),
{
    if s.len() == 0 {
        Seq::empty()
    } else {
        request_vars_text(s.drop_last()) + match s.last().1 {
            Some(v) => var_text(s.last().0, value_text(v)),
            None => Seq::empty(),
        }
    }
}

/// The configured extra variables, if any.
pub open spec fn opt_config_vars_text(o: Option<Vec<(String, String)>>) -> Seq<char> {
    match o {
        Some(v) => config_vars_text(v@),
        None => Seq::empty(),
    }
}

/// The request's extra variables, if any.
pub open spec fn opt_request_vars_text(o: Option<Vec<(String, Option<AnyValue>)>>) -> Seq<char> {
    match o {
        Some(v) => request_vars_text(pairs_view(v@)),
        None => Seq::empty(),
    }
}

/// The full command: options, then the configured extra variables, then the
/// request's extra variables.
pub open spec fn ansible_cmd_text(
    c: AnsibleConfig,
    req_vars: Option<Vec<(String, Option<AnyValue>)>>,
) -> Seq<char> {
    options_text(c) + opt_config_vars_text(c.extra_vars) + opt_request_vars_text(req_vars)
}

fn push_text_arg(out: &mut String, o: &Option<String>, flag: &str)
    ensures
        final(out)@ == old(out)@ + text_arg(*o, flag@),
{
    match o {
        Some(s) => {
            out.append(flag);
            out.append(s.as_str());
        },
        None => {
            assert(old(out)@ + Seq::<char>::empty() =~= old(out)@);
        },
    }
}

fn push_quoted_arg(out: &mut String, o: &Option<String>, flag: &str)
    ensures
        final(out)@ == old(out)@ + quoted_arg(*o, flag@),
{
    match o {
        Some(s) => {
            out.append(flag);
            out.append(s.as_str());
            out.append("'");
            assert(final(out)@ =~= old(out)@ + (flag@ + s@ + "'"@));
        },
        None => {
            assert(old(out)@ + Seq::<char>::empty() =~= old(out)@);
        },
    }
}

fn push_number_arg(out: &mut String, o: &Option<u64>, flag: &str)
    ensures
        final(out)@ == old(out)@ + number_arg(*o, flag@),
{
    match o {
        Some(n) => {
            out.append(flag);
            let d = decimal_string(*n);
            out.append(d.as_str());
        },
        None => {
            assert(old(out)@ + Seq::<char>::empty() =~= old(out)@);
        },
    }
}

fn push_flag_arg(out: &mut String, o: &Option<bool>, flag: &str)
    ensures
        final(out)@ == old(out)@ + flag_arg(*o, flag@),
{
    if let Some(true) = o {
        out.append(flag);
    } else {
        assert(old(out)@ + Seq::<char>::empty() =~= old(out)@);
    }
}

fn push_tags_arg(out: &mut String, o: &Option<Vec<String>>)
    ensures
        final(out)@ == old(out)@ + tags_arg(*o),
{
    match o {
        Some(v) => {
            if v.len() > 0 {
                out.append(" -t ");
                let joined = join_strings(v, ",");
                out.append(joined.as_str());
            } else {
                assert(old(out)@ + Seq::<char>::empty() =~= old(out)@);
            }
        },
        None => {
            assert(old(out)@ + Seq::<char>::empty() =~= old(out)@);
        },
    }
}

fn push_limit_arg(out: &mut String, o: &Option<Vec<String>>, inline: &Option<bool>)
    ensures
        final(out)@ == old(out)@ + limit_arg(*o, *inline),
{
    match o {
        Some(v) => {
            if v.len() > 0 {
                let joined = join_strings(v, ",");
                let mut part = String::from_str(" -l ");
                part.append(joined.as_str());
                if let Some(true) = inline {
                    part.append(",");
                } else {
                    assert(part@ + Seq::<char>::empty() =~= part@);
                }
                out.append(part.as_str());
            } else {
                assert(old(out)@ + Seq::<char>::empty() =~= old(out)@);
            }
        },
        None => {
            assert(old(out)@ + Seq::<char>::empty() =~= old(out)@);
        },
    }
}

fn push_verbosity_arg(out: &mut String, o: &Option<u64>)
    ensures
        final(out)@ == old(out)@ + verbosity_arg(*o),
{
    match o {
        Some(n) => {
            if *n != 0 {
                let mut part = String::from_str(" -");
                let ghost start = part@;
                let mut i: u64 = 0;
                while i < *n
                    invariant
                        i <= *n,
                        part@ == start + repeat_v(i as nat),
                    decreases *n - i,
                {
                    part.append("v");
                    i = i + 1;
                    assert(part@ =~= start + repeat_v(i as nat));
                }
                out.append(part.as_str());
            } else {
                assert(old(out)@ + Seq::<char>::empty() =~= old(out)@);
            }
        },
        None => {
            assert(old(out)@ + Seq::<char>::empty() =~= old(out)@);
        },
    }
}

/// Everything of the command before the extra variables.
#[verifier::rlimit(40)]
pub fn options_command(c: &AnsibleConfig) -> (r: String)
    ensures
        r@ == options_text(*c),
{
    let mut out = String::from_str("ansible-playbook ");
    out.append(c.playbook.as_str());
    out.append(" -i ");
    out.append(c.inventory.as_str());
    push_text_arg(&mut out, &c.private_key, " --private-key ");
    push_text_arg(&mut out, &c.remote_user, " -u ");
    push_text_arg(&mut out, &c.connection, " -c ");
    push_number_arg(&mut out, &c.timeout, " -T ");
    push_quoted_arg(&mut out, &c.ssh_common_args, " --ssh-common-args '");
    push_quoted_arg(&mut out, &c.sftp_extra_args, " --sftp-extra-args '");
    push_quoted_arg(&mut out, &c.scp_extra_args, " --scp-extra-args '");
    push_quoted_arg(&mut out, &c.ssh_extra_args, " --ssh-extra-args '");
    push_flag_arg(&mut out, &c.ask_pass, " -k");
    push_flag_arg(&mut out, &c.privilege_escalation, " -b");
    push_text_arg(&mut out, &c.become_method, " --become-method ");
    push_text_arg(&mut out, &c.become_user, " --become-user ");
    push_flag_arg(&mut out, &c.ask_become_pass, " -K");
    push_tags_arg(&mut out, &c.tags);
    push_text_arg(&mut out, &c.skip_tags, " --skip-tags ");
    push_number_arg(&mut out, &c.forks, " -f ");
    push_limit_arg(&mut out, &c.limit_hosts, &c.is_inventory_inline);
    push_verbosity_arg(&mut out, &c.verbosity);
    push_text_arg(&mut out, &c.vault_password_file, " --vault-password-file ");
    push_flag_arg(&mut out, &c.syntax_check, " --syntax-check");
    push_flag_arg(&mut out, &c.diff, " --diff");
    push_flag_arg(&mut out, &c.check, " --check");
    push_flag_arg(&mut out, &c.list_hosts, " --list-hosts");
    push_flag_arg(&mut out, &c.list_tasks, " --list-tasks");
    push_flag_arg(&mut out, &c.list_tags, " --list-tags");
    push_quoted_arg(&mut out, &c.start_at_task, " --start-at-task '");
    out
}

fn push_var(out: &mut String, key: &str, value: &str)
    ensures
        final(out)@ == old(out)@ + var_text(key@, value@),
{
    let mut part = String::from_str(" -e ");
    part.append(key);
    part.append("='");
    part.append(value);
    part.append("'");
    out.append(part.as_str());
}

/// Appends the configured extra variables.
fn push_config_vars(out: &mut String, vars: &Vec<(String, String)>)
    ensures
        final(out)@ == old(out)@ + config_vars_text(vars@),
{
    let ghost start = out@;
    let mut i: usize = 0;
    while i < vars.len()
        invariant
            i <= vars.len(),
            out@ == start + config_vars_text(vars@.take(i as int)),
        decreases vars.len() - i,
    {
        proof {
            assert(vars@.take(i + 1).drop_last() =~= vars@.take(i as int));
        }
        push_var(out, vars[i].0.as_str(), vars[i].1.as_str());
        i = i + 1;
        assert(out@ =~= start + config_vars_text(vars@.take(i as int)));
    }
    proof {
        assert(vars@.take(vars@.len() as int) =~= vars@);
    }
}

/// Appends the request's extra variables, skipping those without a value.
fn push_request_vars(out: &mut String, vars: &Vec<(String, Option<AnyValue>)>)
    ensures
        final(out)@ == old(out)@ + request_vars_text(pairs_view(vars@)),
{
    let ghost start = out@;
    let mut i: usize = 0;
    while i < vars.len()
        invariant
            i <= vars.len(),
            out@ == start + request_vars_text(pairs_view(vars@.take(i as int))),
        decreases vars.len() - i,
    {
        proof {
            assert(pairs_view(vars@.take(i + 1)).drop_last() =~= pairs_view(vars@.take(i as int)));
            assert(pairs_view(vars@.take(i + 1)).last() == pairs_view(vars@)[i as int]);
        }
        match &vars[i].1 {
            Some(v) => {
                let text = v.to_string();
                push_var(out, vars[i].0.as_str(), text.as_str());
            },
            None => {
                assert(out@ + Seq::<char>::empty() =~= out@);
            },
        }
        i = i + 1;
        assert(out@ =~= start + request_vars_text(pairs_view(vars@.take(i as int))));
    }
    proof {
        assert(vars@.take(vars@.len() as int) =~= vars@);
    }
}

/// The command line for `c`, followed by the request's extra variables.
pub fn ansible_command(c: &AnsibleConfig, req_vars: &Option<Vec<(String, Option<AnyValue>)>>) -> (r:
    String)
    ensures
        r@ == ansible_cmd_text(*c, *req_vars),
{
    let mut out = options_command(c);
    match &c.extra_vars {
        Some(v) => push_config_vars(&mut out, v),
        None => {
            assert(out@ + Seq::<char>::empty() =~= out@);
        },
    }
    match req_vars {
        Some(v) => push_request_vars(&mut out, v),
        None => {
            assert(out@ + Seq::<char>::empty() =~= out@);
        },
    }
    out
}

/// The ansible command generator.
pub struct AnsibleGenCmd;

impl AnsibleGenCmd {
    /// The command for the request's ansible settings, with the request's
    /// json data as extra variables; a validation error without settings.
    pub fn gen_ansible_cmd(&self, req: &TriggerPipelineRequest) -> (r: Result<String, PlimErrorKind>)
        ensures
            match req.ansible_data {
                Some(c) => r matches Ok(s) && s@ == ansible_cmd_text(c, req.json_data),
                None => r matches Err(PlimErrorKind::Validation(_)),
            },
    {
        match &req.ansible_data {
            Some(c) => Ok(ansible_command(c, &req.json_data)),
            None => Err(PlimErrorKind::validation("Ansible data not found")),
        }
    }
}

/// With no setting but the playbook and the inventory, and no extra
/// variables, the command is exactly `ansible-playbook <playbook> -i <inventory>`.
#[verifier::rlimit(40)]
pub proof fn lemma_minimal_command(c: AnsibleConfig, req_vars: Option<Vec<(String, Option<AnyValue>)>>)
    requires
        c.is_inventory_inline is None,
        c.extra_vars is None,
        c.private_key is None,
        c.remote_user is None,
        c.connection is None,
        c.timeout is None,
        c.ssh_common_args is None,
        c.sftp_extra_args is None,
        c.scp_extra_args is None,
        c.ssh_extra_args is None,
        c.ask_pass is None,
        c.privilege_escalation is None,
        c.become_method is None,
        c.become_user is None,
        c.ask_become_pass is None,
        c.tags is None,
        c.skip_tags is None,
        c.forks is None,
        c.limit_hosts is None,
        c.verbosity is None,
        c.vault_password_file is None,
        c.syntax_check is None,
        c.diff is None,
        c.check is None,
        c.list_hosts is None,
        c.list_tasks is None,
        c.list_tags is None,
        c.start_at_task is None,
        req_vars is None,
    ensures
        ansible_cmd_text(c, req_vars) == "ansible-playbook "@ + c.playbook@ + " -i "@ + c.inventory@,
{
    let e = Seq::<char>::empty();
    let base = "ansible-playbook "@ + c.playbook@ + " -i "@ + c.inventory@;
    assert(base + e =~= base);
    assert(options_text(c) =~= base);
    assert(ansible_cmd_text(c, req_vars) =~= base);
}

/// A boolean flag set to false gives the same command as the flag left out.
#[verifier::spinoff_prover]
#[verifier::rlimit(40)]
pub proof fn lemma_false_flag_is_absent(
    c: AnsibleConfig,
    req_vars: Option<Vec<(String, Option<AnyValue>)>>,
)
    ensures
        ansible_cmd_text(AnsibleConfig { ask_pass: Some(false), ..c }, req_vars) == ansible_cmd_text(
            AnsibleConfig { ask_pass: None, ..c },
            req_vars,
        ),
        ansible_cmd_text(AnsibleConfig { privilege_escalation: Some(false), ..c }, req_vars)
            == ansible_cmd_text(AnsibleConfig { privilege_escalation: None, ..c }, req_vars),
        ansible_cmd_text(AnsibleConfig { ask_become_pass: Some(false), ..c }, req_vars)
            == ansible_cmd_text(AnsibleConfig { ask_become_pass: None, ..c }, req_vars),
        ansible_cmd_text(AnsibleConfig { syntax_check: Some(false), ..c }, req_vars)
            == ansible_cmd_text(AnsibleConfig { syntax_check: None, ..c }, req_vars),
        ansible_cmd_text(AnsibleConfig { diff: Some(false), ..c }, req_vars) == ansible_cmd_text(
            AnsibleConfig { diff: None, ..c },
            req_vars,
        ),
        ansible_cmd_text(AnsibleConfig { check: Some(false), ..c }, req_vars) == ansible_cmd_text(
            AnsibleConfig { check: None, ..c },
            req_vars,
        ),
        ansible_cmd_text(AnsibleConfig { list_hosts: Some(false), ..c }, req_vars)
            == ansible_cmd_text(AnsibleConfig { list_hosts: None, ..c }, req_vars),
        ansible_cmd_text(AnsibleConfig { list_tasks: Some(false), ..c }, req_vars)
            == ansible_cmd_text(AnsibleConfig { list_tasks: None, ..c }, req_vars),
        ansible_cmd_text(AnsibleConfig { list_tags: Some(false), ..c }, req_vars)
            == ansible_cmd_text(AnsibleConfig { list_tags: None, ..c }, req_vars),
{
}

/// A boolean flag set to true makes the command longer than with the flag
/// left out, by exactly the flag's text.
#[verifier::spinoff_prover]
#[verifier::rlimit(60)]
pub proof fn lemma_true_flag_is_emitted(
    c: AnsibleConfig,
    req_vars: Option<Vec<(String, Option<AnyValue>)>>,
)
    ensures
        ansible_cmd_text(AnsibleConfig { ask_pass: Some(true), ..c }, req_vars).len()
            == ansible_cmd_text(AnsibleConfig { ask_pass: None, ..c }, req_vars).len() + " -k"@.len(),
        ansible_cmd_text(AnsibleConfig { privilege_escalation: Some(true), ..c }, req_vars).len()
            == ansible_cmd_text(AnsibleConfig { privilege_escalation: None, ..c }, req_vars).len() + " -b"@.len(),
        ansible_cmd_text(AnsibleConfig { ask_become_pass: Some(true), ..c }, req_vars).len()
            == ansible_cmd_text(AnsibleConfig { ask_become_pass: None, ..c }, req_vars).len() + " -K"@.len(),
        ansible_cmd_text(AnsibleConfig { syntax_check: Some(true), ..c }, req_vars).len()
            == ansible_cmd_text(AnsibleConfig { syntax_check: None, ..c }, req_vars).len() + " --syntax-check"@.len(),
        ansible_cmd_text(AnsibleConfig { diff: Some(true), ..c }, req_vars).len()
            == ansible_cmd_text(AnsibleConfig { diff: None, ..c }, req_vars).len() + " --diff"@.len(),
        ansible_cmd_text(AnsibleConfig { check: Some(true), ..c }, req_vars).len()
            == ansible_cmd_text(AnsibleConfig { check: None, ..c }, req_vars).len() + " --check"@.len(),
        ansible_cmd_text(AnsibleConfig { list_hosts: Some(true), ..c }, req_vars).len()
            == ansible_cmd_text(AnsibleConfig { list_hosts: None, ..c }, req_vars).len() + " --list-hosts"@.len(),
        ansible_cmd_text(AnsibleConfig { list_tasks: Some(true), ..c }, req_vars).len()
            == ansible_cmd_text(AnsibleConfig { list_tasks: None, ..c }, req_vars).len() + " --list-tasks"@.len(),
        ansible_cmd_text(AnsibleConfig { list_tags: Some(true), ..c }, req_vars).len()
            == ansible_cmd_text(AnsibleConfig { list_tags: None, ..c }, req_vars).len() + " --list-tags"@.len(),
{
}

/// The configured extra variables of `a + b` are those of `a` followed by
/// those of `b`: each pair gives exactly one `-e`, in order.
pub proof fn lemma_config_vars_concat(a: Seq<(String, String)>, b: Seq<(String, String)>)
    ensures
        config_vars_text(a + b) == config_vars_text(a) + config_vars_text(b),
    decreases b.len(),
{
    if b.len() == 0 {
        assert(a + b =~= a);
        assert(config_vars_text(a) + Seq::<char>::empty() =~= config_vars_text(a));
    } else {
        assert((a + b).drop_last() =~= a + b.drop_last());
        lemma_config_vars_concat(a, b.drop_last());
        let l = var_text(b.last().0@, b.last().1@);
        assert(config_vars_text(a) + config_vars_text(b.drop_last()) + l =~= config_vars_text(a) + (
        config_vars_text(b.drop_last()) + l));
    }
}

/// The request's extra variables of `a + b` are those of `a` followed by
/// those of `b`.
pub proof fn lemma_request_vars_concat(a: Seq<PairModel>, b: Seq<PairModel>)
    ensures
        request_vars_text(a + b) == request_vars_text(a) + request_vars_text(b),
    decreases b.len(),
{
    if b.len() == 0 {
        assert(a + b =~= a);
        assert(request_vars_text(a) + Seq::<char>::empty() =~= request_vars_text(a));
    } else {
        assert((a + b).drop_last() =~= a + b.drop_last());
        lemma_request_vars_concat(a, b.drop_last());
        let l = match b.last().1 {
            Some(v) => var_text(b.last().0, value_text(v)),
            None => Seq::<char>::empty(),
        };
        assert(request_vars_text(a) + request_vars_text(b.drop_last()) + l =~= request_vars_text(a)
            + (request_vars_text(b.drop_last()) + l));
    }
}

/// The configured extra variables come after all options and before every
/// request variable: the command is the command without request variables,
/// followed by the request's variables.
pub proof fn lemma_extra_vars_order(
    c: AnsibleConfig,
    req_vars: Option<Vec<(String, Option<AnyValue>)>>,
)
    ensures
        ansible_cmd_text(c, req_vars) == ansible_cmd_text(c, None) + opt_request_vars_text(req_vars),
        ansible_cmd_text(c, None) == options_text(c) + opt_config_vars_text(c.extra_vars),
{
    let e = Seq::<char>::empty();
    assert(options_text(c) + opt_config_vars_text(c.extra_vars) + e =~= options_text(c)
        + opt_config_vars_text(c.extra_vars));
}

/// The caller's value when there is one, else the default.
pub open spec fn pick<T>(over: Option<T>, base: Option<T>) -> Option<T> {
    if over is Some {
        over
    } else {
        base
    }
}

/// Settings `over` laid over `base`: each optional setting the caller gives
/// replaces the default; the playbook, the inventory and its backend are
/// the caller's.
pub open spec fn merge_spec(base: AnsibleConfig, over: AnsibleConfig) -> AnsibleConfig {
    AnsibleConfig {
        backend_inventory: over.backend_inventory,
        playbook: over.playbook,
        inventory: over.inventory,
        is_inventory_inline: pick(over.is_inventory_inline, base.is_inventory_inline),
        private_key: pick(over.private_key, base.private_key),
        remote_user: pick(over.remote_user, base.remote_user),
        connection: pick(over.connection, base.connection),
        timeout: pick(over.timeout, base.timeout),
        ssh_common_args: pick(over.ssh_common_args, base.ssh_common_args),
        sftp_extra_args: pick(over.sftp_extra_args, base.sftp_extra_args),
        scp_extra_args: pick(over.scp_extra_args, base.scp_extra_args),
        ssh_extra_args: pick(over.ssh_extra_args, base.ssh_extra_args),
        force_handlers: pick(over.force_handlers, base.force_handlers),
        ask_pass: pick(over.ask_pass, base.ask_pass),
        privilege_escalation: pick(over.privilege_escalation, base.privilege_escalation),
        become_method: pick(over.become_method, base.become_method),
        become_user: pick(over.become_user, base.become_user),
        ask_become_pass: pick(over.ask_become_pass, base.ask_become_pass),
        skip_tags: pick(over.skip_tags, base.skip_tags),
        forks: pick(over.forks, base.forks),
        verbosity: pick(over.verbosity, base.verbosity),
        vault_password_file: pick(over.vault_password_file, base.vault_password_file),
        syntax_check: pick(over.syntax_check, base.syntax_check),
        diff: pick(over.diff, base.diff),
        check: pick(over.check, base.check),
        list_hosts: pick(over.list_hosts, base.list_hosts),
        list_tasks: pick(over.list_tasks, base.list_tasks),
        list_tags: pick(over.list_tags, base.list_tags),
        start_at_task: pick(over.start_at_task, base.start_at_task),
        become_password_file: pick(over.become_password_file, base.become_password_file),
        connection_password_file: pick(over.connection_password_file, base.connection_password_file),
        module_dir: pick(over.module_dir, base.module_dir),
        version: pick(over.version, base.version),
        extra_vars: pick(over.extra_vars, base.extra_vars),
        tags: pick(over.tags, base.tags),
        limit_hosts: pick(over.limit_hosts, base.limit_hosts),
    }
}

/// The lists of an optional list of strings.
pub open spec fn opt_texts(o: Option<Vec<String>>) -> Option<Seq<String>> {
    match o {
        Some(v) => Some(v@),
        None => None,
    }
}

/// The pairs of an optional list of extra variables.
pub open spec fn opt_vars(o: Option<Vec<(String, String)>>) -> Option<Seq<(String, String)>> {
    match o {
        Some(v) => Some(v@),
        None => None,
    }
}

/// Two settings agree: equal in every field, lists compared by content.
pub open spec fn same_settings(a: AnsibleConfig, b: AnsibleConfig) -> bool {
    &&& a.backend_inventory == b.backend_inventory
    &&& a.playbook == b.playbook
    &&& a.inventory == b.inventory
    &&& a.is_inventory_inline == b.is_inventory_inline
    &&& a.private_key == b.private_key
    &&& a.remote_user == b.remote_user
    &&& a.connection == b.connection
    &&& a.timeout == b.timeout
    &&& a.ssh_common_args == b.ssh_common_args
    &&& a.sftp_extra_args == b.sftp_extra_args
    &&& a.scp_extra_args == b.scp_extra_args
    &&& a.ssh_extra_args == b.ssh_extra_args
    &&& a.force_handlers == b.force_handlers
    &&& a.ask_pass == b.ask_pass
    &&& a.privilege_escalation == b.privilege_escalation
    &&& a.become_method == b.become_method
    &&& a.become_user == b.become_user
    &&& a.ask_become_pass == b.ask_become_pass
    &&& a.skip_tags == b.skip_tags
    &&& a.forks == b.forks
    &&& a.verbosity == b.verbosity
    &&& a.vault_password_file == b.vault_password_file
    &&& a.syntax_check == b.syntax_check
    &&& a.diff == b.diff
    &&& a.check == b.check
    &&& a.list_hosts == b.list_hosts
    &&& a.list_tasks == b.list_tasks
    &&& a.list_tags == b.list_tags
    &&& a.start_at_task == b.start_at_task
    &&& a.become_password_file == b.become_password_file
    &&& a.connection_password_file == b.connection_password_file
    &&& a.module_dir == b.module_dir
    &&& a.version == b.version
    &&& opt_vars(a.extra_vars) == opt_vars(b.extra_vars)
    &&& opt_texts(a.tags) == opt_texts(b.tags)
    &&& opt_texts(a.limit_hosts) == opt_texts(b.limit_hosts)
}

/// Settings that agree give the same command.
#[verifier::rlimit(40)]
pub proof fn lemma_same_settings_same_command(
    a: AnsibleConfig,
    b: AnsibleConfig,
    req_vars: Option<Vec<(String, Option<AnyValue>)>>,
)
    requires
        same_settings(a, b),
    ensures
        ansible_cmd_text(a, req_vars) == ansible_cmd_text(b, req_vars),
        options_text(a) == options_text(b),
        opt_config_vars_text(a.extra_vars) == opt_config_vars_text(b.extra_vars),
{
    assert(tags_arg(a.tags) == tags_arg(b.tags));
    assert(limit_arg(a.limit_hosts, a.is_inventory_inline) == limit_arg(b.limit_hosts, b.is_inventory_inline));
}

fn copy_opt_strings(o: &Option<Vec<String>>) -> (r: Option<Vec<String>>)
    ensures
        opt_texts(r) == opt_texts(*o),
{
    match o {
        Some(v) => Some(crate::value::copy_strings(v)),
        None => None,
    }
}

fn copy_vars(v: &Vec<(String, String)>) -> (r: Vec<(String, String)>)
    ensures
        r@ == v@,
{
    let mut out: Vec<(String, String)> = Vec::new();
    let mut i: usize = 0;
    while i < v.len()
        invariant
            i <= v.len(),
            out@ == v@.take(i as int),
        decreases v.len() - i,
    {
        out.push((v[i].0.clone(), v[i].1.clone()));
        i = i + 1;
        proof {
            assert(out@ =~= v@.take(i as int));
        }
    }
    proof {
        assert(v@.take(v@.len() as int) =~= v@);
    }
    out
}

fn copy_opt_vars(o: &Option<Vec<(String, String)>>) -> (r: Option<Vec<(String, String)>>)
    ensures
        opt_vars(r) == opt_vars(*o),
{
    match o {
        Some(v) => Some(copy_vars(v)),
        None => None,
    }
}

/// The caller's settings `over` laid over the defaults `base`.
#[verifier::rlimit(40)]
pub fn merge_ansible(base: &AnsibleConfig, over: AnsibleConfig) -> (r: AnsibleConfig)
    ensures
        same_settings(r, merge_spec(*base, over)),
{
    AnsibleConfig {
        backend_inventory: over.backend_inventory,
        playbook: over.playbook,
        inventory: over.inventory,
        extra_vars: if over.extra_vars.is_some() { over.extra_vars } else { copy_opt_vars(&base.extra_vars) },
        tags: if over.tags.is_some() { over.tags } else { copy_opt_strings(&base.tags) },
        limit_hosts: if over.limit_hosts.is_some() { over.limit_hosts } else { copy_opt_strings(&base.limit_hosts) },
        is_inventory_inline: if over.is_inventory_inline.is_some() { over.is_inventory_inline } else { base.is_inventory_inline.clone() },
        private_key: if over.private_key.is_some() { over.private_key } else { base.private_key.clone() },
        remote_user: if over.remote_user.is_some() { over.remote_user } else { base.remote_user.clone() },
        connection: if over.connection.is_some() { over.connection } else { base.connection.clone() },
        timeout: if over.timeout.is_some() { over.timeout } else { base.timeout.clone() },
        ssh_common_args: if over.ssh_common_args.is_some() { over.ssh_common_args } else { base.ssh_common_args.clone() },
        sftp_extra_args: if over.sftp_extra_args.is_some() { over.sftp_extra_args } else { base.sftp_extra_args.clone() },
        scp_extra_args: if over.scp_extra_args.is_some() { over.scp_extra_args } else { base.scp_extra_args.clone() },
        ssh_extra_args: if over.ssh_extra_args.is_some() { over.ssh_extra_args } else { base.ssh_extra_args.clone() },
        force_handlers: if over.force_handlers.is_some() { over.force_handlers } else { base.force_handlers.clone() },
        ask_pass: if over.ask_pass.is_some() { over.ask_pass } else { base.ask_pass.clone() },
        privilege_escalation: if over.privilege_escalation.is_some() { over.privilege_escalation } else { base.privilege_escalation.clone() },
        become_method: if over.become_method.is_some() { over.become_method } else { base.become_method.clone() },
        become_user: if over.become_user.is_some() { over.become_user } else { base.become_user.clone() },
        ask_become_pass: if over.ask_become_pass.is_some() { over.ask_become_pass } else { base.ask_become_pass.clone() },
        skip_tags: if over.skip_tags.is_some() { over.skip_tags } else { base.skip_tags.clone() },
        forks: if over.forks.is_some() { over.forks } else { base.forks.clone() },
        verbosity: if over.verbosity.is_some() { over.verbosity } else { base.verbosity.clone() },
        vault_password_file: if over.vault_password_file.is_some() { over.vault_password_file } else { base.vault_password_file.clone() },
        syntax_check: if over.syntax_check.is_some() { over.syntax_check } else { base.syntax_check.clone() },
        diff: if over.diff.is_some() { over.diff } else { base.diff.clone() },
        check: if over.check.is_some() { over.check } else { base.check.clone() },
        list_hosts: if over.list_hosts.is_some() { over.list_hosts } else { base.list_hosts.clone() },
        list_tasks: if over.list_tasks.is_some() { over.list_tasks } else { base.list_tasks.clone() },
        list_tags: if over.list_tags.is_some() { over.list_tags } else { base.list_tags.clone() },
        start_at_task: if over.start_at_task.is_some() { over.start_at_task } else { base.start_at_task.clone() },
        become_password_file: if over.become_password_file.is_some() { over.become_password_file } else { base.become_password_file.clone() },
        connection_password_file: if over.connection_password_file.is_some() { over.connection_password_file } else { base.connection_password_file.clone() },
        module_dir: if over.module_dir.is_some() { over.module_dir } else { base.module_dir.clone() },
        version: if over.version.is_some() { over.version } else { base.version.clone() },
    }
}

impl AnsibleConfig {
    /// Settings that name only a playbook and an inventory, with a local
    /// inventory backend.
    pub fn new(playbook: String, inventory: String) -> (r: AnsibleConfig)
        ensures
            r.playbook == playbook,
            r.inventory == inventory,
            r.is_inventory_inline is None,
            r.extra_vars is None,
            r.private_key is None,
            r.remote_user is None,
            r.connection is None,
            r.timeout is None,
            r.ssh_common_args is None,
            r.sftp_extra_args is None,
            r.scp_extra_args is None,
            r.ssh_extra_args is None,
            r.force_handlers is None,
            r.ask_pass is None,
            r.privilege_escalation is None,
            r.become_method is None,
            r.become_user is None,
            r.ask_become_pass is None,
            r.tags is None,
            r.skip_tags is None,
            r.forks is None,
            r.limit_hosts is None,
            r.verbosity is None,
            r.vault_password_file is None,
            r.syntax_check is None,
            r.diff is None,
            r.check is None,
            r.list_hosts is None,
            r.list_tasks is None,
            r.list_tags is None,
            r.start_at_task is None,
            r.become_password_file is None,
            r.connection_password_file is None,
            r.module_dir is None,
            r.version is None,
    {
        AnsibleConfig {
            backend_inventory: AnsibleBackendType::default(),
            playbook,
            inventory,
            is_inventory_inline: None,
            extra_vars: None,
            private_key: None,
            remote_user: None,
            connection: None,
            timeout: None,
            ssh_common_args: None,
            sftp_extra_args: None,
            scp_extra_args: None,
            ssh_extra_args: None,
            force_handlers: None,
            ask_pass: None,
            privilege_escalation: None,
            become_method: None,
            become_user: None,
            ask_become_pass: None,
            tags: None,
            skip_tags: None,
            forks: None,
            limit_hosts: None,
            verbosity: None,
            vault_password_file: None,
            syntax_check: None,
            diff: None,
            check: None,
            list_hosts: None,
            list_tasks: None,
            list_tags: None,
            start_at_task: None,
            become_password_file: None,
            connection_password_file: None,
            module_dir: None,
            version: None,
        }
    }
}

} // verus!
