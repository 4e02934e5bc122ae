//! Projection of one fetched row into key/value pairs.
//!
//! Each projection rule is applied independently: a failure in one rule's
//! templates is reported for that rule alone and aborts neither the other
//! rules nor the row.

use vstd::prelude::*;

use crate::config::{KeyValConfig, KeyValModel, TableConfig};
use crate::errors::TemplateError;
use crate::template::{resolve, spec_resolve};

verus! {

/// One projected key/value pair: the target store, the derived cache key
/// and the derived value.
#[derive(Debug, Clone, PartialEq)]
pub struct ProjectedPair {
    pub target_name: String,
    pub key: String,
    pub value: String,
}

impl View for ProjectedPair {
    type V = (Seq<char>, Seq<char>, Seq<char>);

    open spec fn view(&self) -> (Seq<char>, Seq<char>, Seq<char>) {
        (self.target_name@, self.key@, self.value@)
    }
}

/// What one rule yields on one row: the target store name with the
/// resolved key and value templates, or the first template error, the key
/// template tried first.
pub open spec fn spec_project_rule(rule: KeyValModel, row: Seq<Seq<char>>) -> Result<
    (Seq<char>, Seq<char>, Seq<char>),
    TemplateError,
> {
    match spec_resolve(rule.key_format, row) {
        Err(e) => Err(e),
        Ok(k) => match spec_resolve(rule.val_format, row) {
            Err(e) => Err(e),
            Ok(v) => Ok((rule.table_name, k, v)),
        },
    }
}

/// What a whole rule set yields on one row, one outcome per rule, in rule
/// order.
pub open spec fn spec_project_row(rules: Seq<KeyValModel>, row: Seq<Seq<char>>) -> Seq<
    Result<(Seq<char>, Seq<char>, Seq<char>), TemplateError>,
> {
    Seq::new(rules.len(), |i: int| spec_project_rule(rules[i], row))
}

/// The mathematical content of one projection outcome.
pub open spec fn outcome_view(o: Result<ProjectedPair, TemplateError>) -> Result<
    (Seq<char>, Seq<char>, Seq<char>),
    TemplateError,
> {
    match o {
        Ok(p) => Ok(p@),
        Err(e) => Err(e),
    }
}

/// Applies one projection rule to one row.
pub fn project_rule(rule: &KeyValConfig, row: &Vec<String>) -> (r: Result<
    ProjectedPair,
    TemplateError,
>)
    ensures
        outcome_view(r) == spec_project_rule(rule@, row.deep_view()),
{
    let key = match resolve(rule.key_format.as_str(), row) {
        Ok(k) => k,
        Err(e) => {
            return Err(e);
        },
    };
    let value = match resolve(rule.val_format.as_str(), row) {
        Ok(v) => v,
        Err(e) => {
            return Err(e);
        },
    };
    Ok(ProjectedPair { target_name: rule.table_name.clone(), key, value })
}

/// Applies every projection rule of `rules` to one fetched row, in rule
/// order. Each outcome stands on its own: one failed rule leaves the
/// others untouched.
pub fn project_row(rules: &Vec<KeyValConfig>, row: &Vec<String>) -> (r: Vec<
    Result<ProjectedPair, TemplateError>,
>)
    ensures
        r@.len() == rules@.len(),
        forall|i: int|
            0 <= i < r@.len() ==> outcome_view(#[trigger] r@[i]) == spec_project_row(
                rules.deep_view(),
                row.deep_view(),
            )[i],
{
    let n = rules.len();
    let mut out: Vec<Result<ProjectedPair, TemplateError>> = Vec::new();
    let mut i: usize = 0;
    while i < n
        invariant
            n == rules.len(),
            i <= n,
            out@.len() == i,
            forall|k: int|
                0 <= k < i ==> outcome_view(#[trigger] out@[k]) == spec_project_row(
                    rules.deep_view(),
                    row.deep_view(),
                )[k],
        decreases n - i,
    {
        let one = project_rule(&rules[i], row);
        proof {
            assert(rules.deep_view()[i as int] == rules[i as int]@);
        }
        out.push(one);
        i += 1;
    }
    out
}

impl TableConfig {
    /// Projects one fetched row through this table's rules, in rule
    /// order.
    pub fn project(&self, row: &Vec<String>) -> (r: Vec<Result<ProjectedPair, TemplateError>>)
        ensures
            r@.len() == self@.key_val_pairs.len(),
            forall|i: int|
                0 <= i < r@.len() ==> outcome_view(#[trigger] r@[i]) == spec_project_row(
                    self@.key_val_pairs,
                    row.deep_view(),
                )[i],
    {
        project_row(&self.key_val_pairs, row)
    }
}

/// Projection is deterministic: two outcome sequences of the same rules
/// and the same row agree, outcome by outcome and in rule order.
pub proof fn lemma_projection_deterministic(
    r1: Seq<Result<ProjectedPair, TemplateError>>,
    r2: Seq<Result<ProjectedPair, TemplateError>>,
    rules: Seq<KeyValModel>,
    row: Seq<Seq<char>>,
)
    requires
        r1.len() == rules.len(),
        r2.len() == rules.len(),
        forall|i: int|
            0 <= i < r1.len() ==> outcome_view(#[trigger] r1[i]) == spec_project_row(rules, row)[i],
        forall|i: int|
            0 <= i < r2.len() ==> outcome_view(#[trigger] r2[i]) == spec_project_row(rules, row)[i],
    ensures
        r1.len() == r2.len(),
        forall|i: int|
            0 <= i < r1.len() ==> outcome_view(#[trigger] r1[i]) == outcome_view(r2[i]),
{
    assert forall|i: int| 0 <= i < r1.len() implies outcome_view(#[trigger] r1[i]) == outcome_view(
        r2[i],
    ) by {
        assert(outcome_view(r1[i]) == spec_project_row(rules, row)[i]);
        assert(outcome_view(r2[i]) == spec_project_row(rules, row)[i]);
    }
}

} // verus!
