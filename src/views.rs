//! Plan views: the input fields a plan exposes, where their values come
//! from, and how they flatten into key/value pairs.

use vstd::prelude::*;
use crate::value::{AnyValue, ValueModel, opt_value_view, value_text, copy_opt_value};

verus! {

/// The model of one flattened key/value pair.
pub type PairModel = (Seq<char>, Option<ValueModel>);

/// The model of a key/value pair.
pub open spec fn pair_view(p: (String, Option<AnyValue>)) -> PairModel {
    (p.0@, opt_value_view(p.1))
}

/// The model of a list of key/value pairs.
pub open spec fn pairs_view(s: Seq<(String, Option<AnyValue>)>) -> Seq<PairModel> {
    s.map_values(|p: (String, Option<AnyValue>)| pair_view(p))
}

/// Where the runtime values of a view come from.
#[derive(PartialEq, Eq, Structural, Clone, Copy, Debug)]
pub enum DataSourceType {
    StaticConfig,
    Etcd,
}

/// A pointer into a store: its kind, the store's name and the key path.
#[derive(Clone)]
pub struct DataSource {
    pub source_type: DataSourceType,
    pub etcd_name: String,
    pub key_path: String,
}

/// The data source a view has when its configuration names none: static.
pub fn default_data_source() -> (r: Option<DataSource>)
    ensures
        r matches Some(d) && d.source_type == DataSourceType::StaticConfig && d.etcd_name@
            == Seq::<char>::empty() && d.key_path@ == Seq::<char>::empty(),
{
    Some(DataSource {
        source_type: DataSourceType::StaticConfig,
        etcd_name: String::new(),
        key_path: String::new(),
    })
}

impl DataSource {
    /// A copy of the data source.
    pub fn copy(&self) -> (r: DataSource)
        ensures
            r == *self,
    {
        DataSource {
            source_type: self.source_type,
            etcd_name: self.etcd_name.clone(),
            key_path: self.key_path.clone(),
        }
    }
}

/// Whether an optional data source points into a key-value store.
pub open spec fn is_store_source(d: Option<DataSource>) -> bool {
    d matches Some(s) && s.source_type == DataSourceType::Etcd
}

/// A single key with an optional value.
#[derive(Clone)]
pub struct OneValueView {
    pub text: String,
    pub view_type: String,
    pub key: Option<AnyValue>,
    pub value: Option<AnyValue>,
    pub data_source: Option<DataSource>,
}

/// A single key with an optional value and a list of choices.
#[derive(Clone)]
pub struct MultiValueView {
    pub text: String,
    pub view_type: String,
    pub key: Option<AnyValue>,
    pub value: Option<AnyValue>,
    pub data: Vec<AnyValue>,
    pub data_source: Option<DataSource>,
}

/// Parallel lists of keys and values.
#[derive(Clone)]
pub struct CheckboxListView {
    pub text: String,
    pub view_type: String,
    pub keys: Vec<String>,
    pub values: Vec<AnyValue>,
    pub data_source: Option<DataSource>,
}

/// A view whose choices depend on other fields, named in `referenced_key`.
#[derive(Clone)]
pub struct DynamicView {
    pub text: String,
    pub view_type: String,
    pub key: Option<AnyValue>,
    pub value: Option<AnyValue>,
    pub data: Vec<AnyValue>,
    pub referenced_key: Vec<AnyValue>,
    pub data_source: Option<DataSource>,
}

/// One declared input field (or field group) of a plan.
#[derive(Clone)]
pub enum PlimPlanViewType {
    Multi(MultiValueView),
    CheckboxList(CheckboxListView),
    Dynamic(DynamicView),
    One(OneValueView),
}

/// The pairs of a keyed view: one pair under the key's text, or none
/// without a key.
pub open spec fn keyed_data(key: Option<AnyValue>, value: Option<AnyValue>) -> Seq<PairModel> {
    match key {
        Some(k) => seq![(value_text(k@), opt_value_view(value))],
        None => Seq::empty(),
    }
}

/// The pairs of a checkbox list: keys and values zipped by position,
/// unmatched trailing entries dropped.
pub open spec fn zipped_data(keys: Seq<String>, values: Seq<AnyValue>) -> Seq<PairModel> {
    Seq::new(
        if keys.len() <= values.len() { keys.len() } else { values.len() },
        |i: int| (keys[i]@, Some(values[i]@)),
    )
}

/// Flattening of views into key/value pairs, and whether a view declares a
/// data source.
pub trait GetPlanViewData {
    spec fn data_spec(&self) -> Seq<PairModel>;

    spec fn has_data_source(&self) -> bool;

    fn get_data(&self) -> (r: Vec<(String, Option<AnyValue>)>)
        ensures
            pairs_view(r@) == self.data_spec(),
    ;

    fn check_data_source_is_exist(&self) -> (r: bool)
        ensures
            r == self.has_data_source(),
    ;
}

/// The single pair of a keyed view.
fn keyed_get_data(key: &Option<AnyValue>, value: &Option<AnyValue>) -> (r: Vec<
    (String, Option<AnyValue>),
>)
    ensures
        pairs_view(r@) == keyed_data(*key, *value),
{
    match key {
        Some(k) => {
            let mut out: Vec<(String, Option<AnyValue>)> = Vec::new();
            out.push((k.to_string(), copy_opt_value(value)));
            proof {
                assert(pairs_view(out@) =~= keyed_data(*key, *value));
            }
            out
        },
        None => {
            let out: Vec<(String, Option<AnyValue>)> = Vec::new();
            proof {
                assert(pairs_view(out@) =~= keyed_data(*key, *value));
            }
            out
        },
    }
}

impl GetPlanViewData for OneValueView {
    open spec fn data_spec(&self) -> Seq<PairModel> {
        keyed_data(self.key, self.value)
    }

    open spec fn has_data_source(&self) -> bool {
        false
    }

    fn get_data(&self) -> (r: Vec<(String, Option<AnyValue>)>) {
        keyed_get_data(&self.key, &self.value)
    }

    fn check_data_source_is_exist(&self) -> (r: bool) {
        false
    }
}

impl GetPlanViewData for MultiValueView {
    open spec fn data_spec(&self) -> Seq<PairModel> {
        keyed_data(self.key, self.value)
    }

    open spec fn has_data_source(&self) -> bool {
        self.data_source is Some
    }

    fn get_data(&self) -> (r: Vec<(String, Option<AnyValue>)>) {
        keyed_get_data(&self.key, &self.value)
    }

    fn check_data_source_is_exist(&self) -> (r: bool) {
        self.data_source.is_some()
    }
}

impl GetPlanViewData for CheckboxListView {
    open spec fn data_spec(&self) -> Seq<PairModel> {
        zipped_data(self.keys@, self.values@)
    }

    open spec fn has_data_source(&self) -> bool {
        false
    }

    fn get_data(&self) -> (r: Vec<(String, Option<AnyValue>)>) {
        let n: usize = if self.keys.len() <= self.values.len() {
            self.keys.len()
        } else {
            self.values.len()
        };
        let mut out: Vec<(String, Option<AnyValue>)> = Vec::new();
        let mut i: usize = 0;
        while i < n
            invariant
                i <= n,
                n as int == if self.keys@.len() <= self.values@.len() {
                    self.keys@.len()
                } else {
                    self.values@.len()
                },
                pairs_view(out@) =~= zipped_data(self.keys@, self.values@).take(i as int),
            decreases n - i,
        {
            let k = self.keys[i].clone();
            let v = self.values[i].copy();
            proof {
                assert(pair_view((k, Some(v))) == zipped_data(self.keys@, self.values@)[i as int]);
            }
            let ghost prev = out@;
            out.push((k, Some(v)));
            proof {
                assert(pairs_view(out@) =~= pairs_view(prev).push(pair_view((k, Some(v)))));
            }
            i = i + 1;
            proof {
                assert(pairs_view(out@) =~= zipped_data(self.keys@, self.values@).take(i as int));
            }
        }
        proof {
            assert(zipped_data(self.keys@, self.values@).take(n as int) =~= zipped_data(
                self.keys@,
                self.values@,
            ));
        }
        out
    }

    fn check_data_source_is_exist(&self) -> (r: bool) {
        false
    }
}

impl GetPlanViewData for PlimPlanViewType {
    open spec fn data_spec(&self) -> Seq<PairModel> {
        match self {
            PlimPlanViewType::One(v) => v.data_spec(),
            PlimPlanViewType::Multi(v) => v.data_spec(),
            PlimPlanViewType::CheckboxList(v) => v.data_spec(),
            PlimPlanViewType::Dynamic(_) => Seq::empty(),
        }
    }

    open spec fn has_data_source(&self) -> bool {
        match self {
            PlimPlanViewType::One(v) => v.has_data_source(),
            PlimPlanViewType::Multi(v) => v.has_data_source(),
            PlimPlanViewType::CheckboxList(v) => v.has_data_source(),
            PlimPlanViewType::Dynamic(_) => false,
        }
    }

    fn get_data(&self) -> (r: Vec<(String, Option<AnyValue>)>) {
        match self {
            PlimPlanViewType::One(v) => v.get_data(),
            PlimPlanViewType::Multi(v) => v.get_data(),
            PlimPlanViewType::CheckboxList(v) => v.get_data(),
            PlimPlanViewType::Dynamic(_) => {
                let out: Vec<(String, Option<AnyValue>)> = Vec::new();
                proof {
                    assert(pairs_view(out@) =~= Seq::<PairModel>::empty());
                }
                out
            },
        }
    }

    fn check_data_source_is_exist(&self) -> (r: bool) {
        match self {
            PlimPlanViewType::One(v) => v.check_data_source_is_exist(),
            PlimPlanViewType::Multi(v) => v.check_data_source_is_exist(),
            PlimPlanViewType::CheckboxList(v) => v.check_data_source_is_exist(),
            PlimPlanViewType::Dynamic(_) => false,
        }
    }
}

/// Whether some view of the list declares a data source.
pub open spec fn some_data_source(views: Seq<PlimPlanViewType>) -> bool {
    exists|i: int| 0 <= i < views.len() && (#[trigger] views[i]).has_data_source()
}

impl PlimPlanViewType {
    /// Whether some view of `plan_views` declares a data source.
    pub fn data_source_is_exist(plan_views: &Vec<PlimPlanViewType>) -> (r: bool)
        ensures
            r == some_data_source(plan_views@),
    {
        let mut is_exist = false;
        let mut i: usize = 0;
        while i < plan_views.len()
            invariant
                i <= plan_views.len(),
                is_exist == exists|j: int|
                    0 <= j < i && (#[trigger] plan_views@[j]).has_data_source(),
            decreases plan_views.len() - i,
        {
            if plan_views[i].check_data_source_is_exist() {
                is_exist = true;
            }
            i = i + 1;
        }
        is_exist
    }
}

/// A checkbox list gives one pair per position that has both a key and a
/// value: as many pairs as the shorter list is long, the i-th pairing the
/// i-th key with the i-th value.
pub proof fn lemma_checkbox_pairs(v: CheckboxListView)
    ensures
        v.data_spec().len() == if v.keys@.len() <= v.values@.len() {
            v.keys@.len()
        } else {
            v.values@.len()
        },
        forall|i: int|
            0 <= i < v.data_spec().len() ==> #[trigger] v.data_spec()[i] == (v.keys@[i]@, Some(
                v.values@[i]@,
            )),
{
}

} // verus!
