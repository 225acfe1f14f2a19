//! The data model of compiled filters: per-field specifications, request
//! parameters, and the symbolic query that predicate composition produces.
//!
//! A query value is the abstraction over the external query builder: a table
//! reference plus an ordered conjunction of predicates, each built from one
//! present parameter. Rendering or executing the query is an external
//! collaborator's concern.

use vstd::prelude::*;

use crate::filterable_type::FilterableType;
use crate::filterable_type::FilterableTypeModel;
use crate::opts::MatchKind;

verus! {

/// One field's filter specification: its name, the kind of its declared
/// value type, its comparison strategy, and whether it accepts a sequence of
/// candidate values.
#[derive(Debug, PartialEq, Eq)]
pub struct FieldFilterSpec {
    pub name: String,
    pub value_kind: FilterableType,
    pub match_kind: MatchKind,
    pub multiple: bool,
}

/// Mathematical model of [`FieldFilterSpec`].
pub struct FieldFilterSpecModel {
    pub name: Seq<char>,
    pub value_kind: FilterableTypeModel,
    pub match_kind: MatchKind,
    pub multiple: bool,
}

impl View for FieldFilterSpec {
    type V = FieldFilterSpecModel;

    open spec fn view(&self) -> FieldFilterSpecModel {
        FieldFilterSpecModel {
            name: self.name@,
            value_kind: self.value_kind@,
            match_kind: self.match_kind,
            multiple: self.multiple,
        }
    }
}

impl DeepView for FieldFilterSpec {
    type V = FieldFilterSpecModel;

    open spec fn deep_view(&self) -> FieldFilterSpecModel {
        self.view()
    }
}

/// A supplied parameter value: one text value, or a sequence of candidate
/// values for a `multiple` field.
#[derive(Debug, PartialEq, Eq)]
pub enum FilterValue {
    Single(String),
    Many(Vec<String>),
}

/// Mathematical model of [`FilterValue`].
pub enum FilterValueModel {
    Single(Seq<char>),
    Many(Seq<Seq<char>>),
}

impl View for FilterValue {
    type V = FilterValueModel;

    open spec fn view(&self) -> FilterValueModel {
        match self {
            FilterValue::Single(v) => FilterValueModel::Single(v@),
            FilterValue::Many(vs) => FilterValueModel::Many(vs.deep_view()),
        }
    }
}

impl DeepView for FilterValue {
    type V = FilterValueModel;

    open spec fn deep_view(&self) -> FilterValueModel {
        self.view()
    }
}

/// Clones every element of a string vector.
fn clone_strings(vs: &Vec<String>) -> (r: Vec<String>)
    ensures
        r.deep_view() == vs.deep_view(),
{
    let mut r: Vec<String> = Vec::new();
    let mut i: usize = 0;
    while i < vs.len()
        invariant
            0 <= i <= vs.len(),
            r.len() == i,
            forall|j: int| 0 <= j < i ==> r.deep_view()[j] == vs.deep_view()[j],
        decreases vs.len() - i,
    {
        r.push(vs[i].clone());
        i += 1;
    }
    assert(r.deep_view() =~= vs.deep_view());
    r
}

impl Clone for FilterValue {
    /// A clone has the same model.
    fn clone(&self) -> (r: Self)
        ensures
            r@ == self@,
    {
        match self {
            FilterValue::Single(v) => FilterValue::Single(v.clone()),
            FilterValue::Many(vs) => FilterValue::Many(clone_strings(vs)),
        }
    }
}

/// The resolved table reference of a compiled filter set: a schema namespace
/// and a table name.
#[derive(Debug, PartialEq, Eq)]
pub struct TableRef {
    pub schema: String,
    pub table: String,
}

/// Mathematical model of [`TableRef`].
pub struct TableRefModel {
    pub schema: Seq<char>,
    pub table: Seq<char>,
}

impl View for TableRef {
    type V = TableRefModel;

    open spec fn view(&self) -> TableRefModel {
        TableRefModel { schema: self.schema@, table: self.table@ }
    }
}

impl Clone for TableRef {
    /// A clone has the same model.
    fn clone(&self) -> (r: Self)
        ensures
            r@ == self@,
    {
        TableRef { schema: self.schema.clone(), table: self.table.clone() }
    }
}

/// One predicate of a composed query: the field it constrains, the comparison
/// strategy, and the supplied operand.
#[derive(Debug, PartialEq, Eq)]
pub struct Predicate {
    pub field: String,
    pub match_kind: MatchKind,
    pub operand: FilterValue,
}

/// Mathematical model of [`Predicate`].
pub struct PredicateModel {
    pub field: Seq<char>,
    pub match_kind: MatchKind,
    pub operand: FilterValueModel,
}

impl View for Predicate {
    type V = PredicateModel;

    open spec fn view(&self) -> PredicateModel {
        PredicateModel { field: self.field@, match_kind: self.match_kind, operand: self.operand@ }
    }
}

impl DeepView for Predicate {
    type V = PredicateModel;

    open spec fn deep_view(&self) -> PredicateModel {
        self.view()
    }
}

/// A symbolic query: the table it draws from and the conjunction of its
/// predicates, in the order they were attached.
#[derive(Debug, PartialEq, Eq)]
pub struct Query {
    pub table: TableRef,
    pub predicates: Vec<Predicate>,
}

/// Mathematical model of [`Query`].
pub struct QueryModel {
    pub table: TableRefModel,
    pub predicates: Seq<PredicateModel>,
}

impl View for Query {
    type V = QueryModel;

    open spec fn view(&self) -> QueryModel {
        QueryModel { table: self.table@, predicates: self.predicates.deep_view() }
    }
}

/// The predicate built for one field from one present parameter.
pub open spec fn predicate_of(field: FieldFilterSpecModel, value: FilterValueModel)
    -> PredicateModel {
    PredicateModel { field: field.name, match_kind: field.match_kind, operand: value }
}

/// The ordered predicate list that composition produces: one predicate per
/// field whose parameter is present, in field declaration order; absent
/// parameters contribute nothing.
pub open spec fn composed_predicates(
    fields: Seq<FieldFilterSpecModel>,
    values: Seq<Option<FilterValueModel>>,
) -> Seq<PredicateModel>
    recommends
        values.len() == fields.len(),
    decreases fields.len(),
{
    if fields.len() == 0 {
        Seq::empty()
    } else {
        let rest = composed_predicates(fields.drop_last(), values.drop_last());
        if values.len() == fields.len() {
            match values.last() {
                Some(v) => rest.push(predicate_of(fields.last(), v)),
                None => rest,
            }
        } else {
            rest
        }
    }
}

/// Whether a parameter value agrees with its field's declared multiplicity:
/// a sequence of candidates exactly when the field is `multiple`.
pub open spec fn value_fits(field: FieldFilterSpecModel, value: Option<FilterValueModel>) -> bool {
    match value {
        None => true,
        Some(FilterValueModel::Single(_)) => !field.multiple,
        Some(FilterValueModel::Many(_)) => field.multiple,
    }
}

/// The pattern a substring predicate hands to a `like`-style comparison
/// primitive: the value enclosed in `%` wildcards.
pub fn like_pattern(value: &String) -> (r: String)
    ensures
        r@ == seq!['%'] + value@ + seq!['%'],
{
    proof {
        reveal_strlit("%");
    }
    let r = String::from_str("%").concat(value.as_str()).concat("%");
    proof {
        assert(r@ =~= seq!['%'] + value@ + seq!['%']);
    }
    r
}

/// Identity law: when every parameter is absent, composition attaches no
/// predicate, so the composed query is structurally the unfiltered base
/// query.
pub proof fn lemma_absent_parameters_identity(
    fields: Seq<FieldFilterSpecModel>,
    values: Seq<Option<FilterValueModel>>,
)
    requires
        values.len() == fields.len(),
        forall|i: int| 0 <= i < values.len() ==> values[i] is None,
    ensures
        composed_predicates(fields, values) == Seq::<PredicateModel>::empty(),
    decreases fields.len(),
{
    if fields.len() > 0 {
        assert(forall|i: int|
            0 <= i < values.len() - 1 ==> values.drop_last()[i] == values[i]);
        lemma_absent_parameters_identity(fields.drop_last(), values.drop_last());
        assert(values.last() is None);
    }
}

/// How many of the first `i` parameter values are present.
pub open spec fn present_before(values: Seq<Option<FilterValueModel>>, i: int) -> int
    decreases i,
{
    if i <= 0 {
        0
    } else {
        present_before(values, i - 1) + (if values[i - 1] is Some {
            1int
        } else {
            0int
        })
    }
}

/// `present_before` only reads the first `i` values.
pub proof fn lemma_present_before_agrees(
    v1: Seq<Option<FilterValueModel>>,
    v2: Seq<Option<FilterValueModel>>,
    i: int,
)
    requires
        forall|j: int| 0 <= j < i ==> v1[j] == v2[j],
    ensures
        present_before(v1, i) == present_before(v2, i),
    decreases i,
{
    if i > 0 {
        lemma_present_before_agrees(v1, v2, i - 1);
    }
}

/// The composed predicate list holds exactly one predicate per present
/// parameter.
pub proof fn lemma_composed_length(
    fields: Seq<FieldFilterSpecModel>,
    values: Seq<Option<FilterValueModel>>,
)
    requires
        values.len() == fields.len(),
    ensures
        composed_predicates(fields, values).len() == present_before(values, values.len() as int),
        present_before(values, values.len() as int) >= 0,
    decreases fields.len(),
{
    if fields.len() > 0 {
        lemma_composed_length(fields.drop_last(), values.drop_last());
        assert(forall|j: int|
            0 <= j < values.len() - 1 ==> values.drop_last()[j] == values[j]);
        lemma_present_before_agrees(values.drop_last(), values, values.len() - 1);
    }
}

/// Conjunction-order law: the predicate built for field `i` stands at
/// position `present_before(values, i)` of the composed predicate list —
/// that is, predicates appear in field declaration order, each preceded by
/// exactly the predicates of the present fields declared before it. Together
/// with [`lemma_composed_length`] this pins the composed list completely, so
/// the conjunction order is deterministic across repeated calls.
pub proof fn lemma_conjunction_order(
    fields: Seq<FieldFilterSpecModel>,
    values: Seq<Option<FilterValueModel>>,
    i: int,
)
    requires
        values.len() == fields.len(),
        0 <= i < fields.len(),
        values[i] is Some,
    ensures
        0 <= present_before(values, i) < composed_predicates(fields, values).len(),
        composed_predicates(fields, values)[present_before(values, i)] == predicate_of(
            fields[i],
            values[i].unwrap(),
        ),
    decreases fields.len(),
{
    lemma_composed_length(fields, values);
    assert(forall|j: int|
        0 <= j < values.len() - 1 ==> values.drop_last()[j] == values[j]);
    if i == fields.len() - 1 {
        lemma_composed_length(fields.drop_last(), values.drop_last());
        lemma_present_before_agrees(values.drop_last(), values, values.len() - 1);
    } else {
        lemma_conjunction_order(fields.drop_last(), values.drop_last(), i);
        lemma_present_before_agrees(values.drop_last(), values, i);
        assert(fields.drop_last()[i] == fields[i]);
    }
}

/// Determinism law: the composed query is a pure function of the compiled
/// set and the parameters; two requests with equal inputs compose equal
/// queries.
pub proof fn lemma_filter_deterministic(
    set1: crate::CompiledFilterSetModel,
    set2: crate::CompiledFilterSetModel,
    values1: Seq<Option<FilterValueModel>>,
    values2: Seq<Option<FilterValueModel>>,
)
    requires
        set1 == set2,
        values1 == values2,
    ensures
        composed_predicates(set1.fields, values1) == composed_predicates(set2.fields, values2),
{
}

} // verus!
