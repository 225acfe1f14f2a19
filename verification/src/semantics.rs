//! The meaning of composed queries over an abstract row model.
//!
//! A row is a map from field names to text values. Case-insensitivity is
//! modelled on the ASCII letters, matching the usual behaviour of a
//! case-insensitive comparison operator on plain identifiers and Latin text.
//! These spec functions give the predicate forms their equivalence laws:
//! what a single-value predicate of each comparison strategy means, and how
//! a multi-value predicate disjoins over its candidates.

use vstd::prelude::*;

use crate::filter::composed_predicates;
use crate::filter::predicate_of;
use crate::filter::FieldFilterSpecModel;
use crate::filter::FilterValueModel;
use crate::filter::PredicateModel;
use crate::filter::QueryModel;
use crate::filter::TableRefModel;
use crate::opts::MatchKind;

verus! {

/// Whether `c` is an ASCII upper-case letter.
pub open spec fn is_ascii_upper(c: char) -> bool {
    'A' <= c && c <= 'Z'
}

/// Case-insensitive equality of two characters, folding the ASCII letters.
pub open spec fn char_ieq(a: char, b: char) -> bool {
    a == b || (is_ascii_upper(a) && b as int == a as int + 32) || (is_ascii_upper(b) && a as int
        == b as int + 32)
}

/// Whether `needle` occurs contiguously within `hay`.
pub open spec fn text_contains(hay: Seq<char>, needle: Seq<char>) -> bool {
    exists|i: int|
        0 <= i && i + needle.len() <= hay.len() && #[trigger] hay.subrange(i, i + needle.len())
            == needle
}

/// Case-insensitive equality of two texts.
pub open spec fn text_ieq(a: Seq<char>, b: Seq<char>) -> bool {
    a.len() == b.len() && (forall|i: int| 0 <= i < a.len() ==> char_ieq(a[i], b[i]))
}

/// Whether `needle` occurs contiguously within `hay`, compared
/// case-insensitively.
pub open spec fn text_icontains(hay: Seq<char>, needle: Seq<char>) -> bool {
    exists|i: int|
        0 <= i && i + needle.len() <= hay.len() && text_ieq(
            #[trigger] hay.subrange(i, i + needle.len()),
            needle,
        )
}

/// What one candidate value means against a field's text under a comparison
/// strategy.
pub open spec fn single_sat(kind: MatchKind, field_value: Seq<char>, v: Seq<char>) -> bool {
    match kind {
        MatchKind::Exact => field_value == v,
        MatchKind::Substring => text_contains(field_value, v),
        MatchKind::CaseInsensitive => text_ieq(field_value, v),
        MatchKind::SubstringCaseInsensitive => text_icontains(field_value, v),
    }
}

/// What an operand means: a single candidate applies directly; a sequence of
/// candidates disjoins — the field's text must satisfy the strategy for at
/// least one of them.
pub open spec fn operand_sat(kind: MatchKind, field_value: Seq<char>, operand: FilterValueModel)
    -> bool {
    match operand {
        FilterValueModel::Single(v) => single_sat(kind, field_value, v),
        FilterValueModel::Many(vs) => exists|j: int|
            0 <= j < vs.len() && single_sat(kind, field_value, #[trigger] vs[j]),
    }
}

/// Whether a row satisfies one predicate.
pub open spec fn pred_sat(p: PredicateModel, row: Map<Seq<char>, Seq<char>>) -> bool {
    row.dom().contains(p.field) && operand_sat(p.match_kind, row[p.field], p.operand)
}

/// Whether a row satisfies a composed query: the conjunction of all its
/// predicates. A query with no predicates is satisfied by every row.
pub open spec fn query_sat(q: QueryModel, row: Map<Seq<char>, Seq<char>>) -> bool {
    forall|i: int| 0 <= i < q.predicates.len() ==> pred_sat(#[trigger] q.predicates[i], row)
}

/// Single-value law: a single-value predicate of each comparison strategy is
/// equivalent to the corresponding relation between the row's text and the
/// value — equality, containment, case-insensitive equality, or
/// case-insensitive containment.
pub proof fn lemma_single_value_semantics(
    field: Seq<char>,
    v: Seq<char>,
    row: Map<Seq<char>, Seq<char>>,
)
    requires
        row.dom().contains(field),
    ensures
        pred_sat(
            PredicateModel {
                field,
                match_kind: MatchKind::Exact,
                operand: FilterValueModel::Single(v),
            },
            row,
        ) <==> row[field] == v,
        pred_sat(
            PredicateModel {
                field,
                match_kind: MatchKind::Substring,
                operand: FilterValueModel::Single(v),
            },
            row,
        ) <==> text_contains(row[field], v),
        pred_sat(
            PredicateModel {
                field,
                match_kind: MatchKind::CaseInsensitive,
                operand: FilterValueModel::Single(v),
            },
            row,
        ) <==> text_ieq(row[field], v),
        pred_sat(
            PredicateModel {
                field,
                match_kind: MatchKind::SubstringCaseInsensitive,
                operand: FilterValueModel::Single(v),
            },
            row,
        ) <==> text_icontains(row[field], v),
{
}

/// Multi-value law: a predicate over the candidate pair `[a, b]` is
/// equivalent to the disjunction of the two single-value predicates, for
/// every comparison strategy.
pub proof fn lemma_multiple_pair_disjunction(
    field: Seq<char>,
    kind: MatchKind,
    a: Seq<char>,
    b: Seq<char>,
    row: Map<Seq<char>, Seq<char>>,
)
    requires
        row.dom().contains(field),
    ensures
        pred_sat(
            PredicateModel { field, match_kind: kind, operand: FilterValueModel::Many(seq![a, b]) },
            row,
        ) <==> (pred_sat(
            PredicateModel { field, match_kind: kind, operand: FilterValueModel::Single(a) },
            row,
        ) || pred_sat(
            PredicateModel { field, match_kind: kind, operand: FilterValueModel::Single(b) },
            row,
        )),
{
    let vs = seq![a, b];
    let fv = row[field];
    assert(vs.len() == 2 && vs[0] == a && vs[1] == b);
    if single_sat(kind, fv, a) {
        assert(exists|j: int| 0 <= j < vs.len() && single_sat(kind, fv, #[trigger] vs[j])) by {
            assert(0 <= 0int < vs.len() && single_sat(kind, fv, vs[0int]));
        }
    }
    if single_sat(kind, fv, b) {
        assert(exists|j: int| 0 <= j < vs.len() && single_sat(kind, fv, #[trigger] vs[j])) by {
            assert(0 <= 1int < vs.len() && single_sat(kind, fv, vs[1int]));
        }
    }
    if operand_sat(kind, fv, FilterValueModel::Many(vs)) {
        let j = choose|j: int| 0 <= j < vs.len() && single_sat(kind, fv, #[trigger] vs[j]);
        assert(j == 0 || j == 1);
        assert(single_sat(kind, fv, a) || single_sat(kind, fv, b));
    }
}

/// Membership form of the multi-value law: a predicate over any candidate
/// sequence holds exactly when some candidate's single-value predicate
/// holds.
pub proof fn lemma_multiple_membership(
    field: Seq<char>,
    kind: MatchKind,
    vs: Seq<Seq<char>>,
    row: Map<Seq<char>, Seq<char>>,
)
    requires
        row.dom().contains(field),
    ensures
        pred_sat(
            PredicateModel { field, match_kind: kind, operand: FilterValueModel::Many(vs) },
            row,
        ) <==> exists|j: int|
            0 <= j < vs.len() && pred_sat(
                PredicateModel {
                    field,
                    match_kind: kind,
                    operand: FilterValueModel::Single(#[trigger] vs[j]),
                },
                row,
            ),
{
    let fv = row[field];
    if operand_sat(kind, fv, FilterValueModel::Many(vs)) {
        let j = choose|j: int| 0 <= j < vs.len() && single_sat(kind, fv, #[trigger] vs[j]);
        assert(pred_sat(
            PredicateModel { field, match_kind: kind, operand: FilterValueModel::Single(vs[j]) },
            row,
        ));
    }
    if exists|j: int|
        0 <= j < vs.len() && pred_sat(
            PredicateModel {
                field,
                match_kind: kind,
                operand: FilterValueModel::Single(#[trigger] vs[j]),
            },
            row,
        ) {
        let j = choose|j: int|
            0 <= j < vs.len() && pred_sat(
                PredicateModel {
                    field,
                    match_kind: kind,
                    operand: FilterValueModel::Single(#[trigger] vs[j]),
                },
                row,
            );
        assert(single_sat(kind, fv, vs[j]));
    }
}

/// Single-field composition law: the query composed over one field with one
/// present parameter is satisfied by a row exactly when the field's text
/// stands in the comparison relation to the value — the query adds that
/// predicate and nothing else.
pub proof fn lemma_single_field_query_semantics(
    field: FieldFilterSpecModel,
    v: FilterValueModel,
    table: TableRefModel,
    row: Map<Seq<char>, Seq<char>>,
)
    requires
        row.dom().contains(field.name),
    ensures
        query_sat(
            QueryModel {
                table,
                predicates: composed_predicates(seq![field], seq![Some(v)]),
            },
            row,
        ) <==> operand_sat(field.match_kind, row[field.name], v),
{
    let fields = seq![field];
    let values = seq![Some(v)];
    let ef = Seq::<FieldFilterSpecModel>::empty();
    let ev = Seq::<Option<FilterValueModel>>::empty();
    assert(fields.drop_last() =~= ef);
    assert(values.drop_last() =~= ev);
    assert(composed_predicates(ef, ev) =~= Seq::<PredicateModel>::empty());
    assert(fields.len() == 1 && values.len() == 1);
    assert(fields.last() == field && values.last() == Some(v));
    let preds = composed_predicates(fields, values);
    assert(preds =~= Seq::<PredicateModel>::empty().push(predicate_of(field, v)));
    assert(preds =~= seq![predicate_of(field, v)]);
    let q = QueryModel { table, predicates: preds };
    if pred_sat(preds[0], row) {
        assert(forall|i: int| 0 <= i < q.predicates.len() ==> pred_sat(#[trigger] q.predicates[i], row)) by {
            assert(forall|i: int| 0 <= i < q.predicates.len() ==> q.predicates[i] == preds[0]);
        }
    }
}

} // verus!
