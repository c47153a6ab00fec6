//! Branch and tag selection: which refs a plan offers, and what to ask the
//! repository for.

use vstd::prelude::*;
use crate::config::{Config, name_index, find_named};
use crate::tokens::{GitlabTokens, token_value};
use crate::errors::PlimErrorKind;
use crate::dispatch::{ErrorClass, error_class};

verus! {

/// A query for the branches of a project.
pub struct GitLabBranchesArgs {
    pub project_id: u64,
    pub token: String,
    pub search: Option<String>,
    pub regex: Option<String>,
}

/// A query for the tags of a project.
pub struct GitLabTagsArgs {
    pub project_id: u64,
    pub token: String,
    pub order_by: Option<String>,
    pub search: Option<String>,
}

/// The refs a plan offers: its fixed ref, or what the repository answers
/// to the branch and tag queries.
pub enum RefListing {
    Fixed(Vec<String>),
    Query { branches: Option<GitLabBranchesArgs>, tags: Option<GitLabTagsArgs> },
}

/// The model of a ref listing: the fixed refs, or for each query whether it
/// is made, with its project, token and the two texts it passes on.
pub enum RefListingModel {
    Fixed(Seq<Seq<char>>),
    Query(
        Option<(u64, Seq<char>, Option<String>, Option<String>)>,
        Option<(u64, Seq<char>, Option<String>, Option<String>)>,
    ),
}

impl View for RefListing {
    type V = RefListingModel;

    open spec fn view(&self) -> RefListingModel {
        match self {
            RefListing::Fixed(v) => RefListingModel::Fixed(crate::value::texts_of(v@)),
            RefListing::Query { branches, tags } => RefListingModel::Query(
                match branches {
                    Some(b) => Some((b.project_id, b.token@, b.search, b.regex)),
                    None => None,
                },
                match tags {
                    Some(t) => Some((t.project_id, t.token@, t.order_by, t.search)),
                    None => None,
                },
            ),
        }
    }
}

/// The refs a plan offers: not found for an unknown plan; the plan's ref
/// alone when ref selection is off; an internal error without the plan's
/// API token; else a branch query when branches are enabled, and a tag
/// query, ordered by the tag search name and searching by the tag regex,
/// when tags are.
pub open spec fn ref_listing_spec(config: Config, tokens: GitlabTokens, plan_name: Seq<char>) -> Result<
    RefListingModel,
    ErrorClass,
> {
    let i = name_index(config.plans@, plan_name);
    if i < 0 {
        Err(ErrorClass::NotFound)
    } else {
        let g = config.plans@[i].1.gitlab;
        if !g.ref_select.ref_select_enabled {
            Ok(RefListingModel::Fixed(seq![g.ref_name@]))
        } else {
            match token_value(tokens.all_vars@, g.token_var@) {
                None => Err(ErrorClass::Internal),
                Some(t) => Ok(
                    RefListingModel::Query(
                        if g.ref_select.branch_enabled {
                            Some(
                                (
                                    g.project_id,
                                    t,
                                    g.ref_select.branch_search_name,
                                    g.ref_select.branch_regex,
                                ),
                            )
                        } else {
                            None
                        },
                        if g.ref_select.tag_enabled {
                            Some((g.project_id, t, g.ref_select.tag_search_name, g.ref_select.tag_regex))
                        } else {
                            None
                        },
                    ),
                ),
            }
        }
    }
}

/// The refs a plan offers, or the queries to make for them.
pub fn ref_listing(config: &Config, tokens: &GitlabTokens, plan_name: &str) -> (r: Result<RefListing, PlimErrorKind>)
    ensures
        match r {
            Ok(l) => Ok(l@),
            Err(e) => Err(error_class(e)),
        } == ref_listing_spec(*config, *tokens, plan_name@),
{
    let i = match find_named(&config.plans, plan_name) {
        Some(i) => i,
        None => return Err(PlimErrorKind::not_found("Plan not found")),
    };
    let g = &config.plans[i].1.gitlab;
    if !g.ref_select.ref_select_enabled {
        let mut refs: Vec<String> = Vec::new();
        refs.push(g.ref_name.clone());
        proof {
            assert(crate::value::texts_of(refs@) =~= seq![g.ref_name@]);
        }
        return Ok(RefListing::Fixed(refs));
    }
    let token = match tokens.get(g.token_var.as_str()) {
        Ok(t) => t,
        Err(_) => return Err(PlimErrorKind::internal_server_error("Your token is missing")),
    };
    let branches = if g.ref_select.branch_enabled {
        Some(
            GitLabBranchesArgs {
                project_id: g.project_id,
                token: token.clone(),
                search: g.ref_select.branch_search_name.clone(),
                regex: g.ref_select.branch_regex.clone(),
            },
        )
    } else {
        None
    };
    let tags = if g.ref_select.tag_enabled {
        Some(
            GitLabTagsArgs {
                project_id: g.project_id,
                token,
                order_by: g.ref_select.tag_search_name.clone(),
                search: g.ref_select.tag_regex.clone(),
            },
        )
    } else {
        None
    };
    Ok(RefListing::Query { branches, tags })
}

/// The refs to offer: the branch names, then the tag names; a query that
/// failed (`None`) adds nothing.
pub fn collect_refs(branches: Option<Vec<String>>, tags: Option<Vec<String>>) -> (r: Vec<String>)
    ensures
        r@ == (match branches {
            Some(b) => b@,
            None => Seq::empty(),
        }) + (match tags {
            Some(t) => t@,
            None => Seq::empty(),
        }),
{
    let mut refs: Vec<String> = Vec::new();
    match branches {
        Some(mut b) => refs.append(&mut b),
        None => {},
    }
    match tags {
        Some(mut t) => refs.append(&mut t),
        None => {},
    }
    proof {
        assert(refs@ =~= (match branches {
            Some(b) => b@,
            None => Seq::<String>::empty(),
        }) + (match tags {
            Some(t) => t@,
            None => Seq::<String>::empty(),
        }));
    }
    refs
}

} // verus!
