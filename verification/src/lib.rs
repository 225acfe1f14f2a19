//! Runtime compilation of declarative field-filter descriptions into
//! query-predicate composition.
//!
//! A record type registers its filterable fields once, at setup time, through
//! [`compile`]; the result is an immutable [`CompiledFilterSet`]. Each
//! incoming request then supplies a [`FilterParameters`] value, and
//! [`filter`] narrows the unfiltered base query with one predicate per
//! present parameter, in field declaration order. Absent parameters add no
//! predicate. The produced [`Query`] is symbolic: rendering or executing it
//! is an external collaborator's concern.

use vstd::prelude::*;

mod filter;
mod filterable_type;
mod opts;
mod pagination;
mod semantics;

pub use filter::FieldFilterSpec;
pub use filter::FieldFilterSpecModel;
pub use filter::FilterValue;
pub use filter::FilterValueModel;
pub use filter::Predicate;
pub use filter::PredicateModel;
pub use filter::Query;
pub use filter::QueryModel;
pub use filter::TableRef;
pub use filter::TableRefModel;
pub use filter::composed_predicates;
pub use filter::lemma_absent_parameters_identity;
pub use filter::lemma_composed_length;
pub use filter::lemma_conjunction_order;
pub use filter::lemma_filter_deterministic;
pub use filter::like_pattern;
pub use filter::predicate_of;
pub use filter::present_before;
pub use filter::value_fits;
pub use filterable_type::FilterableType;
pub use filterable_type::FilterableTypeModel;
pub use filterable_type::classify;
pub use filterable_type::is_identifier_name;
pub use filterable_type::is_text_name;
pub use opts::FilterOpts;
pub use opts::MatchKind;
pub use opts::has_token;
pub use opts::kind_of;
pub use opts::opts_of;
pub use pagination::DEFAULT_PAGE;
pub use pagination::DEFAULT_PER_PAGE;
pub use pagination::Paging;
pub use pagination::page_window;
pub use pagination::paginate;
pub use pagination::resolve_paging;
pub use pagination::window_hi;
pub use pagination::window_lo;
pub use semantics::char_ieq;
pub use semantics::is_ascii_upper;
pub use semantics::lemma_multiple_membership;
pub use semantics::lemma_multiple_pair_disjunction;
pub use semantics::lemma_single_field_query_semantics;
pub use semantics::lemma_single_value_semantics;
pub use semantics::operand_sat;
pub use semantics::pred_sat;
pub use semantics::query_sat;
pub use semantics::single_sat;
pub use semantics::text_contains;
pub use semantics::text_icontains;
pub use semantics::text_ieq;

verus! {

/// A configuration fault detected at setup time. Such a fault is fatal to
/// the registration of the record type; nothing is retried.
///
/// Option tokens are handed to [`compile`] as plain strings, so a malformed
/// token list cannot arise here: an unrecognised token is ignored, and an
/// empty list means "filter with defaults".
#[derive(Debug, Clone, Copy, PartialEq, Eq, Structural)]
pub enum ConfigurationError {
    /// No field of the record type was annotated as filterable.
    NoFilterableFields,
    /// The required table reference was not supplied.
    MissingTableName,
}

/// One declared field of a record type, as handed to [`compile`]: the
/// field's name, its declared value type name, and its optional filter
/// annotation. `None` means the field is not filterable; `Some` carries the
/// option tokens (possibly none, meaning defaults).
#[derive(Debug, PartialEq, Eq)]
pub struct FieldInput {
    pub name: String,
    pub declared_type: String,
    pub annotation: Option<Vec<String>>,
}

/// Mathematical model of [`FieldInput`].
pub struct FieldInputModel {
    pub name: Seq<char>,
    pub declared_type: Seq<char>,
    pub annotation: Option<Seq<Seq<char>>>,
}

impl View for FieldInput {
    type V = FieldInputModel;

    open spec fn view(&self) -> FieldInputModel {
        FieldInputModel {
            name: self.name@,
            declared_type: self.declared_type@,
            annotation: match self.annotation {
                Some(ref tokens) => Some(tokens.deep_view()),
                None => None,
            },
        }
    }
}

impl DeepView for FieldInput {
    type V = FieldInputModel;

    open spec fn deep_view(&self) -> FieldInputModel {
        self.view()
    }
}

/// An immutable compiled filter set: the ordered field specifications of one
/// record type, the resolved table reference, and whether pagination is
/// enabled. Built once at setup time and shared read-only afterwards.
#[derive(Debug, PartialEq, Eq)]
pub struct CompiledFilterSet {
    pub fields: Vec<FieldFilterSpec>,
    pub table: TableRef,
    pub pagination: bool,
}

/// Mathematical model of [`CompiledFilterSet`].
pub struct CompiledFilterSetModel {
    pub fields: Seq<FieldFilterSpecModel>,
    pub table: TableRefModel,
    pub pagination: bool,
}

impl View for CompiledFilterSet {
    type V = CompiledFilterSetModel;

    open spec fn view(&self) -> CompiledFilterSetModel {
        CompiledFilterSetModel {
            fields: self.fields.deep_view(),
            table: self.table@,
            pagination: self.pagination,
        }
    }
}

/// The parameters of one filter request: one optional value per compiled
/// field, aligned by position, plus the optional pagination window.
#[derive(Debug, PartialEq, Eq)]
pub struct FilterParameters {
    pub values: Vec<Option<FilterValue>>,
    pub page: Option<i64>,
    pub per_page: Option<i64>,
}

/// Mathematical model of [`FilterParameters`].
pub struct FilterParametersModel {
    pub values: Seq<Option<FilterValueModel>>,
    pub page: Option<i64>,
    pub per_page: Option<i64>,
}

impl View for FilterParameters {
    type V = FilterParametersModel;

    open spec fn view(&self) -> FilterParametersModel {
        FilterParametersModel {
            values: self.values.deep_view(),
            page: self.page,
            per_page: self.per_page,
        }
    }
}

/// Whether a parameters value fits a compiled filter set: one optional value
/// per field, each present value agreeing with its field's multiplicity.
pub open spec fn params_fit(set: CompiledFilterSetModel, params: FilterParametersModel) -> bool {
    &&& params.values.len() == set.fields.len()
    &&& forall|i: int|
        0 <= i < set.fields.len() ==> value_fits(set.fields[i], #[trigger] params.values[i])
}

/// The field specifications compiled from a declared field list: one per
/// annotated field, in declaration order; unannotated fields contribute
/// nothing.
pub open spec fn compiled_fields(inputs: Seq<FieldInputModel>) -> Seq<FieldFilterSpecModel>
    decreases inputs.len(),
{
    if inputs.len() == 0 {
        Seq::empty()
    } else {
        let rest = compiled_fields(inputs.drop_last());
        match inputs.last().annotation {
            Some(tokens) => rest.push(
                FieldFilterSpecModel {
                    name: inputs.last().name,
                    value_kind: classify(inputs.last().declared_type),
                    match_kind: opts_of(tokens).kind,
                    multiple: opts_of(tokens).multiple,
                },
            ),
            None => rest,
        }
    }
}

/// No field specification is compiled exactly when no field carries an
/// annotation.
pub proof fn lemma_zero_annotated_fields(inputs: Seq<FieldInputModel>)
    ensures
        compiled_fields(inputs).len() == 0 <==> (forall|i: int|
            0 <= i < inputs.len() ==> inputs[i].annotation is None),
    decreases inputs.len(),
{
    if inputs.len() > 0 {
        lemma_zero_annotated_fields(inputs.drop_last());
        assert(forall|i: int|
            0 <= i < inputs.len() - 1 ==> inputs.drop_last()[i] == inputs[i]);
        if inputs.last().annotation is None && compiled_fields(inputs.drop_last()).len() == 0 {
            assert(forall|i: int|
                0 <= i < inputs.len() ==> inputs[i].annotation is None) by {
                assert(inputs[inputs.len() - 1].annotation is None);
            }
        }
    }
}

/// The default schema namespace used when no schema prefix override is
/// supplied.
pub fn default_schema() -> (s: String)
    ensures
        s@ == "crate::schema"@,
{
    String::from_str("crate::schema")
}

/// Compiles a record type's declared field list into a [`CompiledFilterSet`].
///
/// A missing table reference and a field list with zero annotated fields are
/// both configuration faults: the set is not built. Otherwise the compiled
/// fields stand in declaration order, and the table reference takes the
/// schema prefix override when one is supplied, the default schema namespace
/// when none is.
pub fn compile(
    fields: Vec<FieldInput>,
    table_name: Option<String>,
    schema_override: Option<String>,
    pagination: bool,
) -> (r: Result<CompiledFilterSet, ConfigurationError>)
    ensures
        table_name is None ==> r == Err::<CompiledFilterSet, ConfigurationError>(
            ConfigurationError::MissingTableName,
        ),
        table_name is Some && compiled_fields(fields.deep_view()).len() == 0 ==> r == Err::<
            CompiledFilterSet,
            ConfigurationError,
        >(ConfigurationError::NoFilterableFields),
        table_name is Some && compiled_fields(fields.deep_view()).len() > 0 ==> r is Ok && {
            let set = r.unwrap()@;
            &&& set.fields == compiled_fields(fields.deep_view())
            &&& set.table.table == table_name.unwrap()@
            &&& set.table.schema == (match schema_override {
                Some(ref s) => s@,
                None => "crate::schema"@,
            })
            &&& set.pagination == pagination
        },
{
    let table = match table_name {
        Some(t) => t,
        None => {
            return Err(ConfigurationError::MissingTableName);
        },
    };
    let mut specs: Vec<FieldFilterSpec> = Vec::new();
    let mut i: usize = 0;
    while i < fields.len()
        invariant
            0 <= i <= fields.len(),
            specs.deep_view() == compiled_fields(fields.deep_view().take(i as int)),
        decreases fields.len() - i,
    {
        let ghost pre = fields.deep_view().take(i as int);
        match &fields[i].annotation {
            Some(tokens) => {
                let opts = FilterOpts::from_tokens(tokens);
                specs.push(
                    FieldFilterSpec {
                        name: fields[i].name.clone(),
                        value_kind: FilterableType::from_declared(&fields[i].declared_type),
                        match_kind: opts.kind,
                        multiple: opts.multiple,
                    },
                );
            },
            None => {},
        }
        i += 1;
        proof {
            let all = fields.deep_view();
            assert(all.take(i as int).drop_last() =~= pre);
            assert(all.take(i as int).last() == all[i - 1]);
        }
    }
    proof {
        assert(fields.deep_view().take(fields.len() as int) =~= fields.deep_view());
    }
    if specs.is_empty() {
        return Err(ConfigurationError::NoFilterableFields);
    }
    let schema = match schema_override {
        Some(s) => s,
        None => default_schema(),
    };
    Ok(CompiledFilterSet { fields: specs, table: TableRef { schema, table }, pagination })
}

/// The unfiltered base query of a compiled filter set: its table, no
/// predicates.
pub fn base_query(set: &CompiledFilterSet) -> (q: Query)
    ensures
        q@.table == set@.table,
        q@.predicates == Seq::<PredicateModel>::empty(),
{
    let q = Query { table: set.table.clone(), predicates: Vec::new() };
    proof {
        assert(q@.predicates =~= Seq::<PredicateModel>::empty());
    }
    q
}

/// Composes the filter query of one request: the base query of `set`,
/// narrowed by one predicate per present parameter, in field declaration
/// order. Absent parameters are skipped, not treated as wildcards. The
/// result is a pure function of its arguments, so repeated calls with equal
/// inputs produce equal queries.
pub fn filter(set: &CompiledFilterSet, params: &FilterParameters) -> (q: Query)
    requires
        params_fit(set@, params@),
    ensures
        q@.table == set@.table,
        q@.predicates == composed_predicates(set@.fields, params@.values),
        (forall|i: int| 0 <= i < params@.values.len() ==> params@.values[i] is None) ==> q@
            .predicates == Seq::<PredicateModel>::empty(),
{
    let mut preds: Vec<Predicate> = Vec::new();
    let mut i: usize = 0;
    while i < set.fields.len()
        invariant
            0 <= i <= set.fields.len(),
            params.values.len() == set.fields.len(),
            preds.deep_view() == composed_predicates(
                set@.fields.take(i as int),
                params@.values.take(i as int),
            ),
        decreases set.fields.len() - i,
    {
        let ghost pre_f = set@.fields.take(i as int);
        let ghost pre_v = params@.values.take(i as int);
        match &params.values[i] {
            Some(v) => {
                preds.push(
                    Predicate {
                        field: set.fields[i].name.clone(),
                        match_kind: set.fields[i].match_kind,
                        operand: v.clone(),
                    },
                );
            },
            None => {},
        }
        i += 1;
        proof {
            assert(set@.fields.take(i as int).drop_last() =~= pre_f);
            assert(params@.values.take(i as int).drop_last() =~= pre_v);
            assert(set@.fields.take(i as int).last() == set@.fields[i - 1]);
            assert(params@.values.take(i as int).last() == params@.values[i - 1]);
        }
    }
    proof {
        assert(set@.fields.take(set.fields.len() as int) =~= set@.fields);
        assert(params@.values.take(set.fields.len() as int) =~= params@.values);
        if forall|j: int| 0 <= j < params@.values.len() ==> params@.values[j] is None {
            crate::filter::lemma_absent_parameters_identity(set@.fields, params@.values);
        }
    }
    Query { table: set.table.clone(), predicates: preds }
}

} // verus!
