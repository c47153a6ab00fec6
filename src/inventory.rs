//! Ansible inventories: where a request's inventory comes from, and how
//! the sections of an INI inventory become host groups.

use vstd::prelude::*;
use vstd::string::*;
use crate::ansible::{AnsibleBackendType, AnsibleGitlabBackend};
use crate::config::{Config, PlimPlan, name_index, find_named};
use crate::tokens::{GitlabTokens, token_value};
use crate::errors::PlimErrorKind;
use crate::dispatch::{ErrorClass, error_class};
use crate::external::{base64_decode, base64_decoded, utf8_text};

verus! {

/// The variables of one host.
pub struct HostVars {
    pub ansible_host: Option<String>,
}

/// The hosts of a group, by name.
pub struct HostGroup(pub Vec<(String, Option<HostVars>)>);

/// One group of an inventory.
pub struct InventoryChildren {
    pub hosts: HostGroup,
}

/// Host groups by name.
pub struct Inventory(pub Vec<(String, InventoryChildren)>);

/// The model of a host: its name and, when it has variables, its address.
pub type HostModel = (Seq<char>, Option<Option<Seq<char>>>);

/// The model of a group: its name and its hosts.
pub type GroupModel = (Seq<char>, Seq<HostModel>);

/// The model of a host entry.
pub open spec fn host_view(p: (String, Option<HostVars>)) -> HostModel {
    (p.0@, match p.1 {
        Some(h) => Some(match h.ansible_host {
            Some(a) => Some(a@),
            None => None,
        }),
        None => None,
    })
}

/// The model of a list of host entries.
pub open spec fn hosts_view(s: Seq<(String, Option<HostVars>)>) -> Seq<HostModel> {
    s.map_values(|p: (String, Option<HostVars>)| host_view(p))
}

/// The model of a group entry.
pub open spec fn group_view(p: (String, InventoryChildren)) -> GroupModel {
    (p.0@, hosts_view(p.1.hosts.0@))
}

/// The model of an inventory.
pub open spec fn inventory_view(s: Seq<(String, InventoryChildren)>) -> Seq<GroupModel> {
    s.map_values(|p: (String, InventoryChildren)| group_view(p))
}

/// The index of the first entry labelled `k`, or -1.
pub open spec fn label_index<V>(s: Seq<(Seq<char>, V)>, k: Seq<char>) -> int
    decreases s.len(),
{
    if s.len() == 0 {
        -1
    } else if s[0].0 == k {
        0
    } else {
        let i = label_index(s.drop_first(), k);
        if i < 0 {
            -1
        } else {
            i + 1
        }
    }
}

proof fn lemma_label_index<V>(s: Seq<(Seq<char>, V)>, k: Seq<char>)
    ensures
        -1 <= label_index(s, k) < s.len(),
        label_index(s, k) >= 0 ==> s[label_index(s, k)].0 == k,
        label_index(s, k) >= 0 ==> forall|j: int| 0 <= j < label_index(s, k) ==> s[j].0 != k,
        label_index(s, k) < 0 ==> forall|j: int| 0 <= j < s.len() ==> s[j].0 != k,
    decreases s.len(),
{
    if s.len() > 0 && s[0].0 != k {
        lemma_label_index(s.drop_first(), k);
        assert forall|j: int| 1 <= j < s.len() implies s[j] == s.drop_first()[j - 1] by {}
    }
}

/// `acc` with `p` put in: it replaces the first entry with its label, or is
/// appended.
pub open spec fn insert_labeled<V>(acc: Seq<(Seq<char>, V)>, p: (Seq<char>, V)) -> Seq<(Seq<char>, V)> {
    let i = label_index(acc, p.0);
    if i >= 0 {
        acc.update(i, p)
    } else {
        acc.push(p)
    }
}

fn insert_host(acc: &mut Vec<(String, Option<HostVars>)>, key: String, value: Option<HostVars>)
    ensures
        hosts_view(final(acc)@) == insert_labeled(hosts_view(old(acc)@), host_view((key, value))),
{
    let ghost s = hosts_view(acc@);
    proof {
        lemma_label_index(s, key@);
    }
    let mut i: usize = 0;
    while i < acc.len()
        invariant
            i <= acc.len(),
            acc@ == old(acc)@,
            s == hosts_view(acc@),
            forall|j: int| 0 <= j < i ==> s[j].0 != key@,
            -1 <= label_index(s, key@) < s.len(),
            label_index(s, key@) >= 0 ==> s[label_index(s, key@)].0 == key@,
            label_index(s, key@) >= 0 ==> forall|j: int| 0 <= j < label_index(s, key@) ==> s[j].0 != key@,
            label_index(s, key@) < 0 ==> forall|j: int| 0 <= j < s.len() ==> s[j].0 != key@,
        decreases acc.len() - i,
    {
        if acc[i].0 == key {
            proof {
                assert(s[i as int].0 == key@);
                if label_index(s, key@) > i {
                    assert(s[i as int].0 != key@);
                }
            }
            acc.set(i, (key, value));
            proof {
                assert(hosts_view(acc@) =~= s.update(i as int, host_view((key, value))));
            }
            return;
        }
        i = i + 1;
    }
    acc.push((key, value));
    proof {
        assert(hosts_view(acc@) =~= s.push(host_view((key, value))));
    }
}

fn insert_group(acc: &mut Vec<(String, InventoryChildren)>, key: String, value: InventoryChildren)
    ensures
        inventory_view(final(acc)@) == insert_labeled(inventory_view(old(acc)@), group_view((key, value))),
{
    let ghost s = inventory_view(acc@);
    proof {
        lemma_label_index(s, key@);
    }
    let mut i: usize = 0;
    while i < acc.len()
        invariant
            i <= acc.len(),
            acc@ == old(acc)@,
            s == inventory_view(acc@),
            forall|j: int| 0 <= j < i ==> s[j].0 != key@,
            -1 <= label_index(s, key@) < s.len(),
            label_index(s, key@) >= 0 ==> s[label_index(s, key@)].0 == key@,
            label_index(s, key@) >= 0 ==> forall|j: int| 0 <= j < label_index(s, key@) ==> s[j].0 != key@,
            label_index(s, key@) < 0 ==> forall|j: int| 0 <= j < s.len() ==> s[j].0 != key@,
        decreases acc.len() - i,
    {
        if acc[i].0 == key {
            proof {
                assert(s[i as int].0 == key@);
                if label_index(s, key@) > i {
                    assert(s[i as int].0 != key@);
                }
            }
            acc.set(i, (key, value));
            proof {
                assert(inventory_view(acc@) =~= s.update(i as int, group_view((key, value))));
            }
            return;
        }
        i = i + 1;
    }
    acc.push((key, value));
    proof {
        assert(inventory_view(acc@) =~= s.push(group_view((key, value))));
    }
}

/// The text before the first space.
pub open spec fn first_word(s: Seq<char>) -> Seq<char>
    decreases s.len(),
{
    if s.len() == 0 || s[0] == ' ' {
        Seq::empty()
    } else {
        seq![s[0]] + first_word(s.skip(1))
    }
}

proof fn lemma_first_word(s: Seq<char>, i: int)
    requires
        0 <= i <= s.len(),
        forall|j: int| 0 <= j < i ==> s[j] != ' ',
        i == s.len() || s[i] == ' ',
    ensures
        first_word(s) == s.subrange(0, i),
    decreases i,
{
    if i > 0 {
        lemma_first_word(s.skip(1), i - 1);
        assert(s.subrange(0, i) =~= seq![s[0]] + s.skip(1).subrange(0, i - 1));
    } else {
        assert(s.subrange(0, 0) =~= Seq::<char>::empty());
    }
}

/// The text of `s` before the first space.
pub fn first_word_of(s: &str) -> (r: String)
    ensures
        r@ == first_word(s@),
{
    let n = s.unicode_len();
    let mut i: usize = 0;
    while i < n
        invariant
            i <= n,
            n as int == s@.len(),
            forall|j: int| 0 <= j < i ==> s@[j] != ' ',
        ensures
            i <= n,
            forall|j: int| 0 <= j < i ==> s@[j] != ' ',
            i == n || s@[i as int] == ' ',
        decreases n - i,
    {
        if s.get_char(i) == ' ' {
            break;
        }
        i = i + 1;
    }
    proof {
        lemma_first_word(s@, i as int);
    }
    s.substring_char(0, i).to_owned()
}

/// The hosts of an INI section: each key's first word names a host, and a
/// value gives its address; a later key for a host replaces an earlier one.
pub open spec fn host_group_spec(entries: Seq<(String, Option<String>)>) -> Seq<HostModel>
    decreases entries.len(),
{
    if entries.len() == 0 {
        Seq::empty()
    } else {
        insert_labeled(
            host_group_spec(entries.drop_last()),
            (first_word(entries.last().0@), match entries.last().1 {
                Some(v) => Some(Some(v@)),
                None => None,
            }),
        )
    }
}

/// Whether a section holds variables rather than hosts: its name starts
/// with an underscore.
pub open spec fn is_vars_section(name: Seq<char>) -> bool {
    name.len() > 0 && name[0] == '_'
}

/// The inventory of INI sections, in order: sections of variables are left
/// out.
pub open spec fn ini_inventory_spec(sections: Seq<(String, Vec<(String, Option<String>)>)>) -> Seq<GroupModel>
    decreases sections.len(),
{
    if sections.len() == 0 {
        Seq::empty()
    } else {
        let prev = ini_inventory_spec(sections.drop_last());
        if is_vars_section(sections.last().0@) {
            prev
        } else {
            insert_labeled(prev, (sections.last().0@, host_group_spec(sections.last().1@)))
        }
    }
}

fn host_group_of(entries: &Vec<(String, Option<String>)>) -> (r: HostGroup)
    ensures
        hosts_view(r.0@) == host_group_spec(entries@),
{
    let mut hosts: Vec<(String, Option<HostVars>)> = Vec::new();
    let mut i: usize = 0;
    while i < entries.len()
        invariant
            i <= entries.len(),
            hosts_view(hosts@) == host_group_spec(entries@.take(i as int)),
        decreases entries.len() - i,
    {
        proof {
            assert(entries@.take(i + 1).drop_last() =~= entries@.take(i as int));
            assert(entries@.take(i + 1).last() == entries@[i as int]);
        }
        let name = first_word_of(entries[i].0.as_str());
        let vars = match &entries[i].1 {
            Some(v) => Some(HostVars { ansible_host: Some(v.clone()) }),
            None => None,
        };
        insert_host(&mut hosts, name, vars);
        i = i + 1;
    }
    proof {
        assert(entries@.take(entries@.len() as int) =~= entries@);
    }
    HostGroup(hosts)
}

/// The inventory that INI sections describe, each given by its name and
/// its entries in order.
pub fn parse_ini_inventory(sections: &Vec<(String, Vec<(String, Option<String>)>)>) -> (r: Inventory)
    ensures
        inventory_view(r.0@) == ini_inventory_spec(sections@),
{
    let mut groups: Vec<(String, InventoryChildren)> = Vec::new();
    let mut i: usize = 0;
    while i < sections.len()
        invariant
            i <= sections.len(),
            inventory_view(groups@) == ini_inventory_spec(sections@.take(i as int)),
        decreases sections.len() - i,
    {
        proof {
            assert(sections@.take(i + 1).drop_last() =~= sections@.take(i as int));
            assert(sections@.take(i + 1).last() == sections@[i as int]);
        }
        let name = &sections[i].0;
        let skip = name.as_str().unicode_len() > 0 && name.as_str().get_char(0) == '_';
        if !skip {
            let group = host_group_of(&sections[i].1);
            insert_group(&mut groups, name.clone(), InventoryChildren { hosts: group });
        }
        i = i + 1;
    }
    proof {
        assert(sections@.take(sections@.len() as int) =~= sections@);
    }
    Inventory(groups)
}

/// The text format of an inventory.
#[derive(PartialEq, Eq, Structural, Clone, Copy, Debug)]
pub enum InventoryFormat {
    Yaml,
    Ini,
}

/// An inventory file named by its path.
pub struct RawLocalAnsibleInventory {
    pub file_path: String,
}

/// The inventory of a plan, named by the plan.
pub struct PlanAnsibleInventory {
    pub plan_name: String,
}

/// A request for an inventory.
pub enum AnsibleInventoryRequest {
    Raw(RawLocalAnsibleInventory),
    Plan(PlanAnsibleInventory),
}

/// A file to read from a repository.
pub struct GitlabFileRequest {
    pub project_id: u64,
    pub file_path: String,
    pub ref_name: String,
    pub token: String,
}

/// Where an inventory is to be read from, and in which format.
pub enum InventorySource {
    LocalFile { file_path: String, format: InventoryFormat },
    GitlabFile { request: GitlabFileRequest, format: InventoryFormat },
    StoreDocument { etcd_name: String, key_path: String },
}

/// The model of an inventory source.
pub enum SourceModel {
    LocalFile(Seq<char>, InventoryFormat),
    GitlabFile(u64, Seq<char>, Seq<char>, Seq<char>, InventoryFormat),
    StoreDocument(Seq<char>, Seq<char>),
}

impl View for InventorySource {
    type V = SourceModel;

    open spec fn view(&self) -> SourceModel {
        match self {
            InventorySource::LocalFile { file_path, format } => SourceModel::LocalFile(file_path@, *format),
            InventorySource::GitlabFile { request, format } => SourceModel::GitlabFile(
                request.project_id,
                request.file_path@,
                request.ref_name@,
                request.token@,
                *format,
            ),
            InventorySource::StoreDocument { etcd_name, key_path } => SourceModel::StoreDocument(
                etcd_name@,
                key_path@,
            ),
        }
    }
}

/// The text after the last dot, or the whole text when there is none.
pub open spec fn last_segment(s: Seq<char>) -> Seq<char>
    decreases s.len(),
{
    if s.len() == 0 {
        s
    } else if s.last() == '.' {
        Seq::empty()
    } else {
        last_segment(s.drop_last()).push(s.last())
    }
}

/// The format a path names: YAML for the extensions `yaml` and `yml`, INI
/// for anything else.
pub open spec fn format_of(path: Seq<char>) -> InventoryFormat {
    if last_segment(path) == "yaml"@ || last_segment(path) == "yml"@ {
        InventoryFormat::Yaml
    } else {
        InventoryFormat::Ini
    }
}

proof fn lemma_last_segment(s: Seq<char>, i: int)
    requires
        0 <= i <= s.len(),
        forall|j: int| i <= j < s.len() ==> s[j] != '.',
        i == 0 || s[i - 1] == '.',
    ensures
        last_segment(s) == s.subrange(i, s.len() as int),
    decreases s.len() - i,
{
    if s.len() > i {
        lemma_last_segment(s.drop_last(), i);
        assert(s.subrange(i, s.len() as int) =~= s.drop_last().subrange(i, s.len() - 1).push(s.last()));
    } else if s.len() > 0 {
        assert(s.last() == '.');
        assert(s.subrange(i, s.len() as int) =~= Seq::<char>::empty());
    } else {
        assert(s.subrange(i, s.len() as int) =~= s);
    }
}

/// The format a path names.
pub fn path_format(path: &str) -> (r: InventoryFormat)
    ensures
        r == format_of(path@),
{
    let n = path.unicode_len();
    let mut i: usize = n;
    while i > 0
        invariant
            i <= n,
            n as int == path@.len(),
            forall|j: int| i <= j < n ==> path@[j] != '.',
        ensures
            i <= n,
            forall|j: int| i <= j < n ==> path@[j] != '.',
            i == 0 || path@[i - 1] == '.',
        decreases i,
    {
        if path.get_char(i - 1) == '.' {
            break;
        }
        i = i - 1;
    }
    proof {
        lemma_last_segment(path@, i as int);
    }
    let ext = path.substring_char(i, n).to_owned();
    if ext == "yaml".to_owned() || ext == "yml".to_owned() {
        InventoryFormat::Yaml
    } else {
        InventoryFormat::Ini
    }
}

/// The repository file a plan's inventory lives in, with the token to read
/// it; a validation error when the plan's settings do not name one fully.
pub open spec fn gitlab_file_spec(plan: PlimPlan, tokens: GitlabTokens) -> Result<
    (u64, Seq<char>, Seq<char>, Seq<char>),
    ErrorClass,
> {
    match plan.ansible {
        None => Err(ErrorClass::Validation),
        Some(c) => match c.backend_inventory {
            AnsibleBackendType::Gitlab(g) => match g.token_var {
                None => Err(ErrorClass::Validation),
                Some(tv) => match token_value(tokens.all_vars@, tv@) {
                    None => Err(ErrorClass::Validation),
                    Some(t) => match g.project_id {
                        None => Err(ErrorClass::Validation),
                        Some(pid) => match g.ref_name {
                            None => Err(ErrorClass::Validation),
                            Some(rn) => Ok((pid, g.file_path@, rn@, t)),
                        },
                    },
                },
            },
            _ => Err(ErrorClass::Validation),
        },
    }
}

/// The repository file a plan's inventory lives in, with the token to read it.
#[verifier::rlimit(40)]
pub fn gitlab_file_request(plan: &PlimPlan, tokens: &GitlabTokens) -> (r: Result<GitlabFileRequest, PlimErrorKind>)
    ensures
        match r {
            Ok(f) => Ok((f.project_id, f.file_path@, f.ref_name@, f.token@)),
            Err(e) => Err(error_class(e)),
        } == gitlab_file_spec(*plan, *tokens),
{
    let g: &AnsibleGitlabBackend = match &plan.ansible {
        Some(c) => match &c.backend_inventory {
            AnsibleBackendType::Gitlab(g) => g,
            _ => return Err(PlimErrorKind::validation("Invalid inventory type")),
        },
        None => return Err(PlimErrorKind::validation("No inventory file path found")),
    };
    let token_var = match &g.token_var {
        Some(t) => t,
        None => return Err(PlimErrorKind::validation("Token variable not found")),
    };
    let token = match tokens.get(token_var.as_str()) {
        Ok(t) => t,
        Err(_) => return Err(PlimErrorKind::validation("Your token is missing")),
    };
    let project_id = match g.project_id {
        Some(p) => p,
        None => return Err(PlimErrorKind::validation("Project ID not found")),
    };
    let ref_name = match &g.ref_name {
        Some(r) => r.clone(),
        None => return Err(PlimErrorKind::validation("Ref name not found")),
    };
    Ok(GitlabFileRequest { project_id, file_path: g.file_path.clone(), ref_name, token })
}

/// The text of a repository file from its base64 content: a validation
/// error without content, an internal one when it is not base64 of UTF-8.
pub open spec fn file_text_spec(content: Option<String>) -> Result<Seq<char>, ErrorClass> {
    match content {
        None => Err(ErrorClass::Validation),
        Some(c) => match base64_decoded(c@) {
            None => Err(ErrorClass::Internal),
            Some(b) => if vstd::utf8::valid_utf8(b) {
                Ok(vstd::utf8::decode_utf8(b))
            } else {
                Err(ErrorClass::Internal)
            },
        },
    }
}

/// The text of a repository file from its base64 content.
pub fn decode_file_content(content: Option<String>) -> (r: Result<String, PlimErrorKind>)
    ensures
        match r {
            Ok(s) => Ok(s@),
            Err(e) => Err(error_class(e)),
        } == file_text_spec(content),
{
    let c = match content {
        Some(c) => c,
        None => return Err(PlimErrorKind::validation("Base64 content not found")),
    };
    let bytes = match base64_decode(c.as_str()) {
        Some(b) => b,
        None => return Err(PlimErrorKind::internal_server_error("Invalid base64 content")),
    };
    match utf8_text(bytes) {
        Some(s) => Ok(s),
        None => Err(PlimErrorKind::internal_server_error("Invalid UTF-8 content")),
    }
}

/// Where the inventory that a request names is to be read from: a raw
/// request names a local file; a plan's inventory comes from its backend.
/// A store document is always YAML.
pub open spec fn inventory_source_spec(
    config: Config,
    tokens: GitlabTokens,
    request: AnsibleInventoryRequest,
) -> Result<SourceModel, ErrorClass> {
    match request {
        AnsibleInventoryRequest::Raw(inv) => Ok(
            SourceModel::LocalFile(inv.file_path@, format_of(inv.file_path@)),
        ),
        AnsibleInventoryRequest::Plan(inv) => {
            let i = name_index(config.plans@, inv.plan_name@);
            if i < 0 {
                Err(ErrorClass::Validation)
            } else {
                let plan = config.plans@[i].1;
                match plan.ansible {
                    None => Err(ErrorClass::Validation),
                    Some(c) => match c.backend_inventory {
                        AnsibleBackendType::Local(l) => Ok(
                            SourceModel::LocalFile(l.file_path@, format_of(l.file_path@)),
                        ),
                        AnsibleBackendType::Gitlab(g) => match gitlab_file_spec(plan, tokens) {
                            Err(e) => Err(e),
                            Ok(f) => Ok(
                                SourceModel::GitlabFile(f.0, f.1, f.2, f.3, format_of(g.file_path@)),
                            ),
                        },
                        AnsibleBackendType::Etcd(e) => Ok(
                            SourceModel::StoreDocument(e.etcd_name@, e.key_path@),
                        ),
                    },
                }
            }
        },
    }
}

/// Where the inventory that a request names is to be read from.
#[verifier::rlimit(40)]
pub fn inventory_source(config: &Config, tokens: &GitlabTokens, request: &AnsibleInventoryRequest) -> (r: Result<
    InventorySource,
    PlimErrorKind,
>)
    ensures
        match r {
            Ok(s) => Ok(s@),
            Err(e) => Err(error_class(e)),
        } == inventory_source_spec(*config, *tokens, *request),
{
    match request {
        AnsibleInventoryRequest::Raw(inv) => Ok(
            InventorySource::LocalFile {
                file_path: inv.file_path.clone(),
                format: path_format(inv.file_path.as_str()),
            },
        ),
        AnsibleInventoryRequest::Plan(inv) => {
            let i = match find_named(&config.plans, inv.plan_name.as_str()) {
                Some(i) => i,
                None => return Err(PlimErrorKind::validation("Plan not found")),
            };
            let plan = &config.plans[i].1;
            match &plan.ansible {
                None => Err(PlimErrorKind::validation("No inventory file path found")),
                Some(c) => match &c.backend_inventory {
                    AnsibleBackendType::Local(l) => Ok(
                        InventorySource::LocalFile {
                            file_path: l.file_path.clone(),
                            format: path_format(l.file_path.as_str()),
                        },
                    ),
                    AnsibleBackendType::Gitlab(g) => {
                        let format = path_format(g.file_path.as_str());
                        match gitlab_file_request(plan, tokens) {
                            Ok(f) => Ok(InventorySource::GitlabFile { request: f, format }),
                            Err(e) => Err(e),
                        }
                    },
                    AnsibleBackendType::Etcd(e) => Ok(
                        InventorySource::StoreDocument {
                            etcd_name: e.etcd_name.clone(),
                            key_path: e.key_path.clone(),
                        },
                    ),
                },
            }
        },
    }
}

} // verus!
