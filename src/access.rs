//! What callers may read and write: plan listings, the store keys that
//! plans declare, and role checks.

use vstd::prelude::*;
use crate::views::{DataSource, DataSourceType, PlimPlanViewType, GetPlanViewData, is_store_source, some_data_source};
use crate::ansible::{AnsibleBackendType, AnsibleEtcdBackend};
use crate::config::{Config, PlimPlan, entries_of, visible_plans, get_available_plans, name_index, has_text, contains_text};
use crate::errors::PlimErrorKind;

verus! {

/// The views of all plans, plan after plan.
pub open spec fn plans_views(plans: Seq<(String, PlimPlan)>) -> Seq<PlimPlanViewType>
    decreases plans.len(),
{
    if plans.len() == 0 {
        Seq::empty()
    } else {
        plans_views(plans.drop_last()) + plans.last().1.views@
    }
}

/// The store pointer a view declares, whatever its kind.
pub open spec fn declared_source(v: PlimPlanViewType) -> Option<DataSource> {
    match v {
        PlimPlanViewType::One(x) => x.data_source,
        PlimPlanViewType::Multi(x) => x.data_source,
        PlimPlanViewType::CheckboxList(x) => x.data_source,
        PlimPlanViewType::Dynamic(x) => x.data_source,
    }
}

/// The store pointers that the views declare, in order.
pub open spec fn store_sources(views: Seq<PlimPlanViewType>) -> Seq<DataSource>
    decreases views.len(),
{
    if views.len() == 0 {
        Seq::empty()
    } else {
        store_sources(views.drop_last()) + if is_store_source(declared_source(views.last())) {
            seq![declared_source(views.last())->0]
        } else {
            Seq::empty()
        }
    }
}

/// The store inventories that the plans' ansible settings declare, in order.
pub open spec fn store_inventories(plans: Seq<(String, PlimPlan)>) -> Seq<AnsibleEtcdBackend>
    decreases plans.len(),
{
    if plans.len() == 0 {
        Seq::empty()
    } else {
        store_inventories(plans.drop_last()) + match plans.last().1.ansible {
            Some(c) => match c.backend_inventory {
                AnsibleBackendType::Etcd(e) => seq![e],
                _ => Seq::empty(),
            },
            None => Seq::empty(),
        }
    }
}

fn collect_views<'a>(plans: &Vec<&'a (String, PlimPlan)>) -> (r: Vec<&'a PlimPlanViewType>)
    ensures
        r@.map_values(|v: &PlimPlanViewType| *v) == plans_views(entries_of(plans@)),
{
    let mut out: Vec<&PlimPlanViewType> = Vec::new();
    let mut i: usize = 0;
    while i < plans.len()
        invariant
            i <= plans.len(),
            out@.map_values(|v: &PlimPlanViewType| *v) == plans_views(entries_of(plans@).take(i as int)),
        decreases plans.len() - i,
    {
        proof {
            assert(entries_of(plans@).take(i + 1).drop_last() =~= entries_of(plans@).take(i as int));
        }
        let entry: &'a (String, PlimPlan) = plans[i];
        let views = &entry.1.views;
        let ghost start = out@.map_values(|v: &PlimPlanViewType| *v);
        let mut j: usize = 0;
        while j < views.len()
            invariant
                j <= views.len(),
                out@.map_values(|v: &PlimPlanViewType| *v) == start + views@.take(j as int),
            decreases views.len() - j,
        {
            let ghost before = out@;
            out.push(&views[j]);
            proof {
                assert(out@.map_values(|v: &PlimPlanViewType| *v) =~= before.map_values(
                    |v: &PlimPlanViewType| *v,
                ).push(views@[j as int]));
            }
            j = j + 1;
            proof {
                assert(out@.map_values(|v: &PlimPlanViewType| *v) =~= start + views@.take(j as int));
            }
        }
        proof {
            assert(views@.take(views@.len() as int) =~= views@);
            assert(entries_of(plans@).take(i + 1).last() == *plans@[i as int]);
        }
        i = i + 1;
    }
    proof {
        assert(entries_of(plans@).take(plans@.len() as int) =~= entries_of(plans@));
    }
    out
}

/// The store pointers that the views of `plans` declare; not found when no
/// view of them declares a data source.
pub fn get_etcd_view_data_source_list(plans: &Vec<&(String, PlimPlan)>) -> (r: Result<Vec<DataSource>, PlimErrorKind>)
    ensures
        !some_data_source(plans_views(entries_of(plans@))) ==> (r matches Err(PlimErrorKind::NotFound(_))),
        some_data_source(plans_views(entries_of(plans@))) ==> (r matches Ok(v) && v@ == store_sources(
            plans_views(entries_of(plans@)),
        )),
{
    let views = collect_views(plans);
    let ghost all = plans_views(entries_of(plans@));
    let mut any = false;
    let mut i: usize = 0;
    while i < views.len()
        invariant
            i <= views.len(),
            views@.map_values(|v: &PlimPlanViewType| *v) == all,
            any == exists|j: int| 0 <= j < i && (#[trigger] all[j]).has_data_source(),
        decreases views.len() - i,
    {
        proof {
            assert(all[i as int] == *views@[i as int]);
        }
        if views[i].check_data_source_is_exist() {
            any = true;
        }
        i = i + 1;
    }
    if !any {
        return Err(PlimErrorKind::not_found("No data source found"));
    }
    let mut out: Vec<DataSource> = Vec::new();
    let mut k: usize = 0;
    while k < views.len()
        invariant
            k <= views.len(),
            views@.map_values(|v: &PlimPlanViewType| *v) == all,
            out@ == store_sources(all.take(k as int)),
        decreases views.len() - k,
    {
        proof {
            assert(all.take(k + 1).drop_last() =~= all.take(k as int));
            assert(all.take(k + 1).last() == *views@[k as int]);
        }
        let d = match views[k] {
            PlimPlanViewType::One(x) => &x.data_source,
            PlimPlanViewType::Multi(x) => &x.data_source,
            PlimPlanViewType::CheckboxList(x) => &x.data_source,
            PlimPlanViewType::Dynamic(x) => &x.data_source,
        };
        match d {
            Some(ds) => {
                if ds.source_type == DataSourceType::Etcd {
                    out.push(ds.copy());
                }
            },
            None => {},
        }
        proof {
            assert(out@ =~= store_sources(all.take(k + 1)));
        }
        k = k + 1;
    }
    proof {
        assert(all.take(views@.len() as int) =~= all);
    }
    Ok(out)
}

impl AnsibleEtcdBackend {
    /// A copy of the backend.
    pub fn copy(&self) -> (r: AnsibleEtcdBackend)
        ensures
            r == *self,
    {
        AnsibleEtcdBackend {
            inventory_type: self.inventory_type,
            etcd_name: self.etcd_name.clone(),
            key_path: self.key_path.clone(),
        }
    }
}

/// The store inventories that the ansible settings of `plans` declare.
pub fn get_etcd_inventory_data_source_list(plans: &Vec<&(String, PlimPlan)>) -> (r: Vec<AnsibleEtcdBackend>)
    ensures
        r@ == store_inventories(entries_of(plans@)),
{
    let mut out: Vec<AnsibleEtcdBackend> = Vec::new();
    let mut i: usize = 0;
    while i < plans.len()
        invariant
            i <= plans.len(),
            out@ == store_inventories(entries_of(plans@).take(i as int)),
        decreases plans.len() - i,
    {
        proof {
            assert(entries_of(plans@).take(i + 1).drop_last() =~= entries_of(plans@).take(i as int));
            assert(entries_of(plans@).take(i + 1).last() == *plans@[i as int]);
        }
        match &plans[i].1.ansible {
            Some(c) => match &c.backend_inventory {
                AnsibleBackendType::Etcd(e) => out.push(e.copy()),
                _ => {},
            },
            None => {},
        }
        proof {
            assert(out@ =~= store_inventories(entries_of(plans@).take(i + 1)));
        }
        i = i + 1;
    }
    proof {
        assert(entries_of(plans@).take(plans@.len() as int) =~= entries_of(plans@));
    }
    out
}

/// Whether some store pointer names the store `etcd_name` and the key `key_path`.
pub open spec fn source_listed(s: Seq<DataSource>, etcd_name: Seq<char>, key_path: Seq<char>) -> bool {
    exists|i: int| 0 <= i < s.len() && (#[trigger] s[i]).etcd_name@ == etcd_name && s[i].key_path@ == key_path
}

/// Whether a view of `plans` reads the key `key_path` of the store
/// `etcd_name`; not found when no view of them declares a data source.
pub fn check_etcd_key_value_is_available_in_views(
    plans: &Vec<&(String, PlimPlan)>,
    etcd_name: &String,
    key_path: &String,
) -> (r: Result<bool, PlimErrorKind>)
    ensures
        !some_data_source(plans_views(entries_of(plans@))) ==> (r matches Err(PlimErrorKind::NotFound(_))),
        some_data_source(plans_views(entries_of(plans@))) ==> (r matches Ok(b) && b == source_listed(
            store_sources(plans_views(entries_of(plans@))),
            etcd_name@,
            key_path@,
        )),
{
    let list = match get_etcd_view_data_source_list(plans) {
        Ok(l) => l,
        Err(e) => return Err(e),
    };
    let ghost all = plans_views(entries_of(plans@));
    let mut i: usize = 0;
    while i < list.len()
        invariant
            i <= list.len(),
            some_data_source(all),
            all == plans_views(entries_of(plans@)),
            list@ == store_sources(all),
            forall|j: int|
                0 <= j < i ==> !((#[trigger] list@[j]).etcd_name@ == etcd_name@ && list@[j].key_path@
                    == key_path@),
        decreases list.len() - i,
    {
        if list[i].etcd_name == *etcd_name && list[i].key_path == *key_path {
            proof {
                assert(list@[i as int].etcd_name@ == etcd_name@);
            }
            return Ok(true);
        }
        i = i + 1;
    }
    Ok(false)
}

/// Whether some store inventory names the store `etcd_name` and the key `key_path`.
pub open spec fn inventory_listed(s: Seq<AnsibleEtcdBackend>, etcd_name: Seq<char>, key_path: Seq<char>) -> bool {
    exists|i: int| 0 <= i < s.len() && (#[trigger] s[i]).etcd_name@ == etcd_name && s[i].key_path@ == key_path
}

/// Whether the ansible settings of `plans` keep an inventory at the key
/// `key_path` of the store `etcd_name`.
pub fn check_etcd_key_value_is_available_in_inventories(
    plans: &Vec<&(String, PlimPlan)>,
    etcd_name: &String,
    key_path: &String,
) -> (r: bool)
    ensures
        r == inventory_listed(store_inventories(entries_of(plans@)), etcd_name@, key_path@),
{
    let list = get_etcd_inventory_data_source_list(plans);
    let mut i: usize = 0;
    while i < list.len()
        invariant
            i <= list.len(),
            list@ == store_inventories(entries_of(plans@)),
            forall|j: int|
                0 <= j < i ==> !((#[trigger] list@[j]).etcd_name@ == etcd_name@ && list@[j].key_path@
                    == key_path@),
        decreases list.len() - i,
    {
        if list[i].etcd_name == *etcd_name && list[i].key_path == *key_path {
            proof {
                assert(list@[i as int].etcd_name@ == etcd_name@);
            }
            return true;
        }
        i = i + 1;
    }
    false
}

/// The plans a caller may list: forbidden without any role, else the
/// plans visible to the roles.
pub fn get_all_plans<'a>(config: &'a Config, roles: &Vec<String>) -> (r: Result<Vec<&'a (String, PlimPlan)>, PlimErrorKind>)
    ensures
        roles@.len() == 0 ==> (r matches Err(PlimErrorKind::Forbidden(_))),
        roles@.len() > 0 ==> (r matches Ok(v) && entries_of(v@) == visible_plans(config.plans@, roles@)),
{
    if roles.len() == 0 {
        return Err(PlimErrorKind::forbidden("Forbidden"));
    }
    Ok(get_available_plans(config, roles))
}

/// The plan named `plan_name` among those visible to `roles`; not found
/// when it is not one of them.
pub fn get_plan<'a>(config: &'a Config, roles: &Vec<String>, plan_name: &str) -> (r: Result<&'a PlimPlan, PlimErrorKind>)
    ensures
        ({
            let vis = visible_plans(config.plans@, roles@);
            let i = name_index(vis, plan_name@);
            &&& i >= 0 ==> (r matches Ok(p) && *p == vis[i].1)
            &&& i < 0 ==> (r matches Err(PlimErrorKind::NotFound(_)))
        }),
{
    let available = get_available_plans(config, roles);
    let ghost vis = entries_of(available@);
    let wanted = plan_name.to_owned();
    let mut i: usize = 0;
    proof {
        crate::config::lemma_name_index(vis, plan_name@);
    }
    while i < available.len()
        invariant
            i <= available.len(),
            vis == entries_of(available@),
            vis == visible_plans(config.plans@, roles@),
            wanted@ == plan_name@,
            forall|j: int| 0 <= j < i ==> vis[j].0@ != plan_name@,
            -1 <= name_index(vis, plan_name@) < vis.len(),
            name_index(vis, plan_name@) >= 0 ==> vis[name_index(vis, plan_name@)].0@ == plan_name@,
            name_index(vis, plan_name@) >= 0 ==> forall|j: int|
                0 <= j < name_index(vis, plan_name@) ==> vis[j].0@ != plan_name@,
            name_index(vis, plan_name@) < 0 ==> forall|j: int| 0 <= j < vis.len() ==> vis[j].0@ != plan_name@,
        decreases available.len() - i,
    {
        let entry: &'a (String, PlimPlan) = available[i];
        proof {
            assert(vis[i as int] == *entry);
        }
        if entry.0 == wanted {
            proof {
                if name_index(vis, plan_name@) > i {
                    assert(vis[i as int].0@ != plan_name@);
                }
            }
            return Ok(&entry.1);
        }
        i = i + 1;
    }
    Err(PlimErrorKind::not_found("Plan not found"))
}

/// Whether a caller with `roles`, enabled or not, holds `required_role`:
/// a disabled caller never does.
pub fn authorize_role(roles: &Vec<String>, disabled: bool, required_role: &str) -> (r: bool)
    ensures
        r == (has_text(roles@, required_role@) && !disabled),
{
    let role = required_role.to_owned();
    contains_text(roles, &role) && !disabled
}

} // verus!
