//! The view resolver: flattening views into key/value pairs, folding pairs
//! by key (a later value for a key replaces an earlier one, the first
//! position of the key is kept), and overlaying values fetched from a store.

use vstd::prelude::*;
use crate::value::{AnyValue, ValueModel};
use crate::views::{
    PairModel, pair_view, pairs_view, GetPlanViewData, PlimPlanViewType,
    DataSource, DataSourceType, is_store_source, some_data_source,
};
use crate::config::{PlimPlan, PlimPlanWebhook, WebhookType};
use crate::errors::PlimErrorKind;

verus! {

/// The index of the first pair keyed `k`, or -1.
pub open spec fn key_index(s: Seq<PairModel>, k: Seq<char>) -> int
    decreases s.len(),
{
    if s.len() == 0 {
        -1
    } else if s[0].0 == k {
        0
    } else {
        let i = key_index(s.drop_first(), k);
        if i < 0 {
            -1
        } else {
            i + 1
        }
    }
}

proof fn lemma_key_index(s: Seq<PairModel>, k: Seq<char>)
    ensures
        -1 <= key_index(s, k) < s.len(),
        key_index(s, k) >= 0 ==> s[key_index(s, k)].0 == k,
        key_index(s, k) >= 0 ==> forall|j: int| 0 <= j < key_index(s, k) ==> s[j].0 != k,
        key_index(s, k) < 0 ==> forall|j: int| 0 <= j < s.len() ==> s[j].0 != k,
    decreases s.len(),
{
    if s.len() > 0 && s[0].0 != k {
        lemma_key_index(s.drop_first(), k);
        assert forall|j: int| 1 <= j < s.len() implies s[j] == s.drop_first()[j - 1] by {}
    }
}

/// `acc` with the pair `p` put in: its value replaces that of the first pair
/// with the same key, or the pair is appended.
pub open spec fn insert_pair_spec(acc: Seq<PairModel>, p: PairModel) -> Seq<PairModel> {
    let i = key_index(acc, p.0);
    if i >= 0 {
        acc.update(i, p)
    } else {
        acc.push(p)
    }
}

/// The pairs of `s` put in one after another, from an empty list.
pub open spec fn fold_pairs(s: Seq<PairModel>) -> Seq<PairModel>
    decreases s.len(),
{
    if s.len() == 0 {
        Seq::empty()
    } else {
        insert_pair_spec(fold_pairs(s.drop_last()), s.last())
    }
}

/// The mapping that a list of pairs describes when a later pair for a key
/// replaces an earlier one.
pub open spec fn pairs_map(s: Seq<PairModel>) -> Map<Seq<char>, Option<ValueModel>>
    decreases s.len(),
{
    if s.len() == 0 {
        Map::empty()
    } else {
        pairs_map(s.drop_last()).insert(s.last().0, s.last().1)
    }
}

/// No key occurs twice.
pub open spec fn keys_unique(s: Seq<PairModel>) -> bool {
    forall|i: int, j: int| 0 <= i < j < s.len() ==> s[i].0 != s[j].0
}

/// Puts the pair into `acc`: its value replaces that of the first pair with
/// the same key, or the pair is appended.
pub fn insert_pair(acc: &mut Vec<(String, Option<AnyValue>)>, key: String, value: Option<AnyValue>)
    ensures
        pairs_view(final(acc)@) == insert_pair_spec(pairs_view(old(acc)@), pair_view((key, value))),
{
    let ghost s = pairs_view(acc@);
    proof {
        lemma_key_index(s, key@);
    }
    let mut i: usize = 0;
    while i < acc.len()
        invariant
            i <= acc.len(),
            acc@ == old(acc)@,
            s == pairs_view(acc@),
            forall|j: int| 0 <= j < i ==> s[j].0 != key@,
            -1 <= key_index(s, key@) < s.len(),
            key_index(s, key@) >= 0 ==> s[key_index(s, key@)].0 == key@,
            key_index(s, key@) >= 0 ==> forall|j: int| 0 <= j < key_index(s, key@) ==> s[j].0 != key@,
            key_index(s, key@) < 0 ==> forall|j: int| 0 <= j < s.len() ==> s[j].0 != key@,
        decreases acc.len() - i,
    {
        if acc[i].0 == key {
            proof {
                assert(s[i as int].0 == key@);
                if key_index(s, key@) > i {
                    assert(s[i as int].0 != key@);
                }
            }
            acc.set(i, (key, value));
            proof {
                assert(pairs_view(acc@) =~= s.update(i as int, pair_view((key, value))));
            }
            return;
        }
        i = i + 1;
    }
    acc.push((key, value));
    proof {
        assert(pairs_view(acc@) =~= s.push(pair_view((key, value))));
    }
}

/// Folds `pairs` by key: a later value for a key replaces an earlier one,
/// and each key keeps the position where it first occurred.
pub fn fold_by_key(pairs: Vec<(String, Option<AnyValue>)>) -> (r: Vec<(String, Option<AnyValue>)>)
    ensures
        pairs_view(r@) == fold_pairs(pairs_view(pairs@)),
{
    let mut out: Vec<(String, Option<AnyValue>)> = Vec::new();
    let total: usize = pairs.len();
    let mut rest = pairs;
    let ghost all = pairs_view(pairs@);
    let ghost n = pairs@.len();
    let mut taken: usize = 0;
    proof {
        assert(pairs_view(out@) =~= fold_pairs(all.take(0)));
    }
    while rest.len() > 0
        invariant
            n == pairs@.len(),
            all == pairs_view(pairs@),
            taken + rest@.len() == n,
            n == total,
            rest@ == pairs@.skip(taken as int),
            pairs_view(out@) == fold_pairs(all.take(taken as int)),
        decreases rest.len(),
    {
        let p = rest.remove(0);
        proof {
            assert(p == pairs@[taken as int]);
            assert(all.take(taken + 1).drop_last() =~= all.take(taken as int));
            assert(all.take(taken + 1).last() == pair_view(p));
        }
        insert_pair(&mut out, p.0, p.1);
        taken = taken + 1;
    }
    proof {
        assert(all.take(n as int) =~= all);
    }
    out
}

/// The pairs of all views, in their order.
pub open spec fn flat_data(views: Seq<PlimPlanViewType>) -> Seq<PairModel>
    decreases views.len(),
{
    if views.len() == 0 {
        Seq::empty()
    } else {
        flat_data(views.drop_last()) + views.last().data_spec()
    }
}

/// The pairs of all views, in their order.
pub fn flatten_views(views: &Vec<PlimPlanViewType>) -> (r: Vec<(String, Option<AnyValue>)>)
    ensures
        pairs_view(r@) == flat_data(views@),
{
    let mut out: Vec<(String, Option<AnyValue>)> = Vec::new();
    let mut i: usize = 0;
    while i < views.len()
        invariant
            i <= views.len(),
            pairs_view(out@) == flat_data(views@.take(i as int)),
        decreases views.len() - i,
    {
        proof {
            assert(views@.take(i + 1).drop_last() =~= views@.take(i as int));
        }
        let mut more = views[i].get_data();
        let ghost prev = out@;
        let ghost added = more@;
        out.append(&mut more);
        proof {
            assert(pairs_view(out@) =~= pairs_view(prev) + pairs_view(added));
        }
        i = i + 1;
    }
    proof {
        assert(views@.take(views@.len() as int) =~= views@);
    }
    out
}

/// The key/value data of a list of views, folded by key.
pub open spec fn views_data(views: Seq<PlimPlanViewType>) -> Seq<PairModel> {
    fold_pairs(flat_data(views))
}

/// The key/value data of a list of views, folded by key.
pub fn resolve_views_data(views: &Vec<PlimPlanViewType>) -> (r: Vec<(String, Option<AnyValue>)>)
    ensures
        pairs_view(r@) == views_data(views@),
{
    fold_by_key(flatten_views(views))
}

/// The view data a webhook call resolves to: the webhook's own views, with
/// the caller's views merged over them when the webhook is dynamic; the
/// plan's views when the webhook declares none.
pub open spec fn webhook_views_spec(
    plan: PlimPlan,
    webhook: PlimPlanWebhook,
    requested: Option<Vec<PlimPlanViewType>>,
) -> Seq<PairModel> {
    match webhook.views {
        Some(v) => if webhook.webhook_type == WebhookType::Dynamic && requested is Some {
            fold_pairs(flat_data(v@) + flat_data(requested->0@))
        } else {
            views_data(v@)
        },
        None => views_data(plan.views@),
    }
}

/// The view data a webhook call resolves to.
pub fn resolve_webhook_views(
    plan: &PlimPlan,
    webhook: &PlimPlanWebhook,
    requested: &Option<Vec<PlimPlanViewType>>,
) -> (r: Vec<(String, Option<AnyValue>)>)
    ensures
        pairs_view(r@) == webhook_views_spec(*plan, *webhook, *requested),
{
    match &webhook.views {
        Some(views) => {
            match requested {
                Some(req) => {
                    if webhook.webhook_type == WebhookType::Dynamic {
                        let mut all = flatten_views(views);
                        let mut more = flatten_views(req);
                        let ghost a = all@;
                        let ghost b = more@;
                        all.append(&mut more);
                        proof {
                            assert(pairs_view(all@) =~= pairs_view(a) + pairs_view(b));
                        }
                        fold_by_key(all)
                    } else {
                        resolve_views_data(views)
                    }
                },
                None => resolve_views_data(views),
            }
        },
        None => resolve_views_data(&plan.views),
    }
}

proof fn lemma_pairs_map_update(acc: Seq<PairModel>, i: int, p: PairModel)
    requires
        keys_unique(acc),
        0 <= i < acc.len(),
        acc[i].0 == p.0,
    ensures
        pairs_map(acc.update(i, p)) == pairs_map(acc).insert(p.0, p.1),
    decreases acc.len(),
{
    let n = acc.len() - 1;
    let u = acc.update(i, p);
    assert(u.drop_last() =~= if i == n {
        acc.drop_last()
    } else {
        acc.drop_last().update(i, p)
    });
    if i == n {
        assert(pairs_map(u) =~= pairs_map(acc).insert(p.0, p.1));
    } else {
        assert(keys_unique(acc.drop_last()));
        lemma_pairs_map_update(acc.drop_last(), i, p);
        assert(acc.last().0 != p.0);
        assert(u.last() == acc.last());
        assert(pairs_map(u) =~= pairs_map(acc).insert(p.0, p.1));
    }
}

/// Putting a pair into a list with distinct keys keeps the keys distinct
/// and sets the pair's key in the described mapping.
proof fn lemma_insert_pair(acc: Seq<PairModel>, p: PairModel)
    requires
        keys_unique(acc),
    ensures
        keys_unique(insert_pair_spec(acc, p)),
        pairs_map(insert_pair_spec(acc, p)) == pairs_map(acc).insert(p.0, p.1),
{
    lemma_key_index(acc, p.0);
    let i = key_index(acc, p.0);
    if i >= 0 {
        lemma_pairs_map_update(acc, i, p);
        let u = acc.update(i, p);
        assert forall|a: int, b: int| 0 <= a < b < u.len() implies u[a].0 != u[b].0 by {
            assert(u[a].0 == acc[a].0);
            assert(u[b].0 == acc[b].0);
        }
    } else {
        let u = acc.push(p);
        assert(u.drop_last() =~= acc);
        assert forall|a: int, b: int| 0 <= a < b < u.len() implies u[a].0 != u[b].0 by {
            if b == acc.len() {
                assert(u[a] == acc[a]);
            } else {
                assert(u[a] == acc[a]);
                assert(u[b] == acc[b]);
            }
        }
    }
}

/// Folding by key keeps keys distinct and describes the same mapping as the
/// unfolded pairs.
pub proof fn lemma_fold_pairs(s: Seq<PairModel>)
    ensures
        keys_unique(fold_pairs(s)),
        pairs_map(fold_pairs(s)) == pairs_map(s),
    decreases s.len(),
{
    if s.len() > 0 {
        lemma_fold_pairs(s.drop_last());
        lemma_insert_pair(fold_pairs(s.drop_last()), s.last());
    }
}

/// The mapping of `a + b` is that of `a` with that of `b` laid over it.
pub proof fn lemma_pairs_map_concat(a: Seq<PairModel>, b: Seq<PairModel>)
    ensures
        pairs_map(a + b) == pairs_map(a).union_prefer_right(pairs_map(b)),
    decreases b.len(),
{
    if b.len() == 0 {
        assert(a + b =~= a);
        assert(pairs_map(a).union_prefer_right(pairs_map(b)) =~= pairs_map(a));
    } else {
        assert((a + b).drop_last() =~= a + b.drop_last());
        assert((a + b).last() == b.last());
        lemma_pairs_map_concat(a, b.drop_last());
        assert(pairs_map(a + b) =~= pairs_map(a).union_prefer_right(pairs_map(b)));
    }
}

/// A dynamic webhook resolves to its own view data with the caller's laid
/// over it, key by key; a static webhook ignores the caller's views. Either
/// way each key occurs once.
pub proof fn lemma_webhook_view_merge(
    plan: PlimPlan,
    webhook: PlimPlanWebhook,
    requested: Option<Vec<PlimPlanViewType>>,
)
    ensures
        keys_unique(webhook_views_spec(plan, webhook, requested)),
        (webhook.views is Some && webhook.webhook_type == WebhookType::Dynamic && requested is Some)
            ==> pairs_map(webhook_views_spec(plan, webhook, requested)) == pairs_map(
            flat_data(webhook.views->0@),
        ).union_prefer_right(pairs_map(flat_data(requested->0@))),
        (webhook.views is Some && webhook.webhook_type == WebhookType::Static) ==> (
        webhook_views_spec(plan, webhook, requested) == webhook_views_spec(plan, webhook, None)
            && pairs_map(webhook_views_spec(plan, webhook, requested)) == pairs_map(
            flat_data(webhook.views->0@),
        )),
{
    match webhook.views {
        Some(v) => {
            if webhook.webhook_type == WebhookType::Dynamic && requested is Some {
                lemma_fold_pairs(flat_data(v@) + flat_data(requested->0@));
                lemma_pairs_map_concat(flat_data(v@), flat_data(requested->0@));
            } else {
                lemma_fold_pairs(flat_data(v@));
            }
        },
        None => {
            lemma_fold_pairs(flat_data(plan.views@));
        },
    }
}

/// What became of a view's store read.
pub enum FetchOutcome {
    /// The view does not read from a store.
    NotNeeded,
    /// The values read and decoded.
    Fetched(Vec<AnyValue>),
    /// The read or the decoding failed.
    Failed(PlimErrorKind),
}

/// The store pointer of a view, when it reads from a store.
pub open spec fn view_store_source(v: PlimPlanViewType) -> Option<DataSource> {
    let d = match v {
        PlimPlanViewType::One(x) => x.data_source,
        PlimPlanViewType::Multi(x) => x.data_source,
        PlimPlanViewType::CheckboxList(x) => x.data_source,
        PlimPlanViewType::Dynamic(x) => x.data_source,
    };
    if is_store_source(d) {
        d
    } else {
        None
    }
}

/// For each view, the store pointer to read, if any. Nothing is read when
/// no view declares a data source.
pub open spec fn sources_to_fetch(views: Seq<PlimPlanViewType>) -> Seq<Option<DataSource>> {
    Seq::new(
        views.len(),
        |i: int|
            if some_data_source(views) {
                view_store_source(views[i])
            } else {
                None
            },
    )
}

fn store_source_of(d: &Option<DataSource>) -> (r: Option<DataSource>)
    ensures
        r == (if is_store_source(*d) {
            *d
        } else {
            None
        }),
{
    match d {
        Some(x) => if x.source_type == DataSourceType::Etcd {
            Some(x.copy())
        } else {
            None
        },
        None => None,
    }
}

/// The store pointer of a view, when it reads from a store.
pub fn view_source(v: &PlimPlanViewType) -> (r: Option<DataSource>)
    ensures
        r == view_store_source(*v),
{
    match v {
        PlimPlanViewType::One(x) => store_source_of(&x.data_source),
        PlimPlanViewType::Multi(x) => store_source_of(&x.data_source),
        PlimPlanViewType::CheckboxList(x) => store_source_of(&x.data_source),
        PlimPlanViewType::Dynamic(x) => store_source_of(&x.data_source),
    }
}

/// For each view, the store pointer to read, if any.
pub fn views_to_fetch(views: &Vec<PlimPlanViewType>) -> (r: Vec<Option<DataSource>>)
    ensures
        r@ == sources_to_fetch(views@),
{
    let any = PlimPlanViewType::data_source_is_exist(views);
    let mut out: Vec<Option<DataSource>> = Vec::new();
    let mut i: usize = 0;
    while i < views.len()
        invariant
            i <= views.len(),
            any == some_data_source(views@),
            out@ == sources_to_fetch(views@).take(i as int),
        decreases views.len() - i,
    {
        if any {
            out.push(view_source(&views[i]));
        } else {
            out.push(None);
        }
        i = i + 1;
        proof {
            assert(out@ =~= sources_to_fetch(views@).take(i as int));
        }
    }
    proof {
        assert(sources_to_fetch(views@).take(views@.len() as int) =~= sources_to_fetch(views@));
    }
    out
}

/// A view with fetched values laid over it: lists of choices and checkbox
/// values are replaced; a single-value view takes the first value, and is
/// left as it is when nothing was fetched.
pub open spec fn overlay_spec(v: PlimPlanViewType, data: Vec<AnyValue>) -> PlimPlanViewType {
    match v {
        PlimPlanViewType::Multi(x) => PlimPlanViewType::Multi(
            crate::views::MultiValueView { data: data, ..x },
        ),
        PlimPlanViewType::CheckboxList(x) => PlimPlanViewType::CheckboxList(
            crate::views::CheckboxListView { values: data, ..x },
        ),
        PlimPlanViewType::Dynamic(x) => PlimPlanViewType::Dynamic(
            crate::views::DynamicView { data: data, ..x },
        ),
        PlimPlanViewType::One(x) => if data@.len() > 0 {
            PlimPlanViewType::One(crate::views::OneValueView { value: Some(data@[0]), ..x })
        } else {
            PlimPlanViewType::One(x)
        },
    }
}

/// The views that a plan shows after its store reads: a view whose read
/// failed is left out.
pub open spec fn overlaid_views(views: Seq<PlimPlanViewType>, outcomes: Seq<FetchOutcome>) -> Seq<
    PlimPlanViewType,
>
    decreases views.len(),
{
    if views.len() == 0 || outcomes.len() == 0 {
        Seq::empty()
    } else {
        let prev = overlaid_views(views.drop_last(), outcomes.drop_last());
        match outcomes.last() {
            FetchOutcome::NotNeeded => prev.push(views.last()),
            FetchOutcome::Fetched(d) => prev.push(overlay_spec(views.last(), d)),
            FetchOutcome::Failed(_) => prev,
        }
    }
}

/// Lays fetched values over a view.
pub fn overlay_view(v: PlimPlanViewType, data: Vec<AnyValue>) -> (r: PlimPlanViewType)
    ensures
        r == overlay_spec(v, data),
{
    match v {
        PlimPlanViewType::Multi(mut x) => {
            x.data = data;
            PlimPlanViewType::Multi(x)
        },
        PlimPlanViewType::CheckboxList(mut x) => {
            x.values = data;
            PlimPlanViewType::CheckboxList(x)
        },
        PlimPlanViewType::Dynamic(mut x) => {
            x.data = data;
            PlimPlanViewType::Dynamic(x)
        },
        PlimPlanViewType::One(mut x) => {
            let mut data = data;
            if data.len() > 0 {
                let first = data.remove(0);
                x.value = Some(first);
            }
            PlimPlanViewType::One(x)
        },
    }
}

/// The views of a plan after its store reads, one outcome per view.
pub fn overlay_views(views: Vec<PlimPlanViewType>, outcomes: Vec<FetchOutcome>) -> (r: Vec<
    PlimPlanViewType,
>)
    requires
        views@.len() == outcomes@.len(),
    ensures
        r@ == overlaid_views(views@, outcomes@),
{
    let ghost vs = views@;
    let ghost os = outcomes@;
    let total: usize = views.len();
    let mut rest_v = views;
    let mut rest_o = outcomes;
    let mut out: Vec<PlimPlanViewType> = Vec::new();
    let mut k: usize = 0;
    while rest_v.len() > 0
        invariant
            vs.len() == os.len(),
            total == vs.len(),
            k + rest_v@.len() == total,
            rest_v@ == vs.skip(k as int),
            rest_o@ == os.skip(k as int),
            out@ == overlaid_views(vs.take(k as int), os.take(k as int)),
        decreases rest_v.len(),
    {
        let v = rest_v.remove(0);
        let o = rest_o.remove(0);
        proof {
            assert(vs.take(k + 1).drop_last() =~= vs.take(k as int));
            assert(os.take(k + 1).drop_last() =~= os.take(k as int));
            assert(vs.take(k + 1).last() == v);
            assert(os.take(k + 1).last() == o);
        }
        match o {
            FetchOutcome::NotNeeded => out.push(v),
            FetchOutcome::Fetched(d) => out.push(overlay_view(v, d)),
            FetchOutcome::Failed(_) => {},
        }
        k = k + 1;
    }
    proof {
        assert(vs.take(total as int) =~= vs);
        assert(os.take(total as int) =~= os);
    }
    out
}

} // verus!
