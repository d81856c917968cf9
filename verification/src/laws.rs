//! What holds of every request and of every text, stated over the same
//! specifications as the contracts of the compiling functions and proved
//! from them.

use vstd::prelude::*;
use crate::field::{
    clause_text, declared_fields, fuzzy_disjunct, fuzzy_disjuncts, FieldKind, FilterField,
};
use crate::order::OrderPaymentStatus;
use crate::polarity::{is_reversed, operator_text, OperatorKind};
use crate::query::{clause, listed, value_text, where_clauses, where_text, QueryView};
use crate::sorter::{
    lemma_token_round_trip, order_terms, order_text, term_text, token_text, SortDirection,
};
use crate::text::{
    digit_char, escaped, escaped_char, int_text, is_digit, join, nat_text, quotes_paired,
};

verus! {

/// The function that gives each field its clause in a request.
pub open spec fn clause_picker(
    q: QueryView,
    ids: Seq<i64>,
    statuses: Seq<OrderPaymentStatus>,
) -> spec_fn(FilterField) -> Option<Seq<char>> {
    |field: FilterField| clause(q, ids, statuses, field)
}

/// A field contributes a clause exactly if the request carries a value for
/// it.
pub proof fn lemma_clause_iff_present(
    q: QueryView,
    ids: Seq<i64>,
    statuses: Seq<OrderPaymentStatus>,
    field: FilterField,
)
    ensures
        clause(q, ids, statuses, field) is Some <==> q.has(field),
{
}

/// A request that carries no field compiles to the empty `WHERE` fragment,
/// and one without sort tokens to the empty `ORDER BY` fragment.
pub proof fn lemma_nothing_asked_compiles_to_nothing(
    q: QueryView,
    ids: Seq<i64>,
    statuses: Seq<OrderPaymentStatus>,
)
    requires
        forall|field: FilterField| !q.has(field),
    ensures
        where_clauses(q, ids, statuses) == Seq::<Seq<char>>::empty(),
        where_text(q, ids, statuses) == Seq::<char>::empty(),
        q.sorters is None ==> order_text(q.sorters) == Seq::<char>::empty(),
        q.sorters == Some(Seq::<Seq<char>>::empty()) ==> order_text(q.sorters) == Seq::<
            char,
        >::empty(),
{
    assert forall|field: FilterField| clause(q, ids, statuses, field) is None by {
        assert(!q.has(field));
    }
}

/// The empty request carries no field and no sort token, so both of its
/// fragments are empty.
pub proof fn lemma_empty_request_compiles_to_nothing(
    ids: Seq<i64>,
    statuses: Seq<OrderPaymentStatus>,
)
    ensures
        where_text(QueryView::empty(), ids, statuses) == Seq::<char>::empty(),
        order_text(QueryView::empty().sorters) == Seq::<char>::empty(),
{
    lemma_nothing_asked_compiles_to_nothing(QueryView::empty(), ids, statuses);
}

/// A request that carries one field only compiles to the keyword and that
/// field's clause, and to nothing else.
pub proof fn lemma_single_field_is_single_clause(
    q: QueryView,
    ids: Seq<i64>,
    statuses: Seq<OrderPaymentStatus>,
    field: FilterField,
)
    requires
        q.has(field),
        forall|other: FilterField| other != field ==> !q.has(other),
    ensures
        where_clauses(q, ids, statuses) == seq![clause(q, ids, statuses, field)->0],
        where_text(q, ids, statuses) == "WHERE "@ + clause(q, ids, statuses, field)->0,
{
    assert forall|other: FilterField| other != field implies clause(q, ids, statuses, other)
        is None by {
        assert(!q.has(other));
    }
}

/// A request that carries one equality field only, not reversed, compiles to
/// the keyword, the field's column, `=` and the value. With the field added
/// to the reverse set it compiles to the same with `!=` in place of `=`.
pub proof fn lemma_single_equality_field(
    q: QueryView,
    ids: Seq<i64>,
    statuses: Seq<OrderPaymentStatus>,
    field: FilterField,
)
    requires
        field.kind() == FieldKind::Equality,
        q.has(field),
        forall|other: FilterField| other != field ==> !q.has(other),
        !is_reversed(q.reverse, field.name()),
    ensures
        where_text(q, ids, statuses) == "WHERE "@ + (field.column() + "="@ + value_text(
            q,
            ids,
            statuses,
            field,
        )->0),
        where_text(q.reversing(field), ids, statuses) == "WHERE "@ + (field.column() + "!="@
            + value_text(q, ids, statuses, field)->0),
{
    lemma_single_field_is_single_clause(q, ids, statuses, field);
    lemma_single_field_is_single_clause(q.reversing(field), ids, statuses, field);
}

/// A request that carries one membership field only, not reversed, compiles
/// to the keyword, the field's column, `IN` and the list of the members in the
/// order of the walk. With the field added to the reverse set it compiles to
/// the same with `NOT IN` in place of `IN`.
pub proof fn lemma_single_membership_field(
    q: QueryView,
    ids: Seq<i64>,
    statuses: Seq<OrderPaymentStatus>,
    field: FilterField,
)
    requires
        field.kind() == FieldKind::Membership,
        q.has(field),
        forall|other: FilterField| other != field ==> !q.has(other),
        !is_reversed(q.reverse, field.name()),
    ensures
        where_text(q, ids, statuses) == "WHERE "@ + (field.column() + " "@ + "IN"@ + " "@
            + value_text(q, ids, statuses, field)->0),
        where_text(q.reversing(field), ids, statuses) == "WHERE "@ + (field.column() + " "@
            + "NOT IN"@ + " "@ + value_text(q, ids, statuses, field)->0),
{
    lemma_single_field_is_single_clause(q, ids, statuses, field);
    lemma_single_field_is_single_clause(q.reversing(field), ids, statuses, field);
}

/// No two fields share an identifier.
pub proof fn lemma_names_differ(a: FilterField, b: FilterField)
    requires
        a != b,
    ensures
        a.name() != b.name(),
{
    reveal_strlit("id");
    reveal_strlit("created_by_user_id");
    reveal_strlit("updated_by_user_id");
    reveal_strlit("fuzzy");
    reveal_strlit("warehouse_ids");
    reveal_strlit("person_related_id");
    reveal_strlit("person_in_charge_id");
    reveal_strlit("order_type");
    reveal_strlit("order_payment_status");
    reveal_strlit("order_category_id");
    reveal_strlit("currency");
    reveal_strlit("date_start");
    reveal_strlit("date_end");
    reveal_strlit("last_updated_date_start");
    reveal_strlit("last_updated_date_end");
    if a.name().len() == b.name().len() {
        assert(a.name()[0] != b.name()[0]);
    }
}

/// Adding a field to the reverse set turns that field's clause into its
/// negated form: `!=` for `=`, `NOT IN` for `IN`, `NOT LIKE` for `LIKE` in
/// every disjunct. The value stays, and so does every other field's clause.
pub proof fn lemma_reversing_negates_one_clause(
    q: QueryView,
    ids: Seq<i64>,
    statuses: Seq<OrderPaymentStatus>,
    field: FilterField,
)
    ensures
        value_text(q.reversing(field), ids, statuses, field) == value_text(
            q,
            ids,
            statuses,
            field,
        ),
        q.has(field) ==> clause(q.reversing(field), ids, statuses, field) == Some(
            clause_text(field, true, value_text(q, ids, statuses, field)->0),
        ),
        forall|other: FilterField|
            other != field ==> #[trigger] clause(q.reversing(field), ids, statuses, other)
                == clause(q, ids, statuses, other),
{
    assert forall|other: FilterField| other != field implies #[trigger] clause(
        q.reversing(field),
        ids,
        statuses,
        other,
    ) == clause(q, ids, statuses, other) by {
        lemma_names_differ(other, field);
    }
}

/// The negated clause of an equality field is its column, `!=` and the value;
/// that of a membership field is its column, `NOT IN` and the list.
pub proof fn lemma_negated_clause_shape(field: FilterField, value: Seq<char>)
    ensures
        field.kind() == FieldKind::Equality ==> clause_text(field, false, value) == field.column()
            + "="@ + value && clause_text(field, true, value) == field.column() + "!="@ + value,
        field.kind() == FieldKind::Membership ==> clause_text(field, false, value)
            == field.column() + " "@ + "IN"@ + " "@ + value && clause_text(field, true, value)
            == field.column() + " "@ + "NOT IN"@ + " "@ + value,
{
}

/// The pattern clause is the five disjuncts in the fixed order of the display
/// columns, `OR` between them, all with `LIKE` or all with `NOT LIKE`.
pub proof fn lemma_fuzzy_clause_shape(negated: bool, value: Seq<char>)
    ensures
        clause_text(FilterField::Fuzzy, negated, value) == {
            let op = if negated {
                "NOT LIKE"@
            } else {
                "LIKE"@
            };
            fuzzy_disjunct("CAST(orders.id AS TEXT)"@, op, value) + " OR "@ + fuzzy_disjunct(
                "persons_related.name"@,
                op,
                value,
            ) + " OR "@ + fuzzy_disjunct("persons_in_charge.name"@, op, value) + " OR "@
                + fuzzy_disjunct("order_status_list.name"@, op, value) + " OR "@ + fuzzy_disjunct(
                "warehouses.name"@,
                op,
                value,
            )
        },
{
    let op = operator_text(OperatorKind::Pattern, negated);
    let parts = fuzzy_disjuncts(op, value);
    let sep = " OR "@;
    let p4 = parts.drop_last();
    let p3 = p4.drop_last();
    let p2 = p3.drop_last();
    let p1 = p2.drop_last();
    assert(join(p1, sep) == parts[0]);
    assert(join(p2, sep) == join(p1, sep) + sep + parts[1]);
    assert(join(p3, sep) == join(p2, sep) + sep + parts[2]);
    assert(join(p4, sep) == join(p3, sep) + sep + parts[3]);
    assert(join(parts, sep) == join(p4, sep) + sep + parts[4]);
}

/// The clause of a bound is its column, `>=` or `<=`, and the number. The
/// reverse set has no part in it, whatever it holds.
pub proof fn lemma_bounds_ignore_reverse(
    q: QueryView,
    reverse: Option<Set<Seq<char>>>,
    ids: Seq<i64>,
    statuses: Seq<OrderPaymentStatus>,
    field: FilterField,
)
    requires
        field.kind() == FieldKind::LowerBound || field.kind() == FieldKind::UpperBound,
    ensures
        clause(q.with_reverse(reverse), ids, statuses, field) == clause(q, ids, statuses, field),
        q.has(field) && field.kind() == FieldKind::LowerBound ==> clause(q, ids, statuses, field)
            == Some(field.column() + ">="@ + value_text(q, ids, statuses, field)->0),
        q.has(field) && field.kind() == FieldKind::UpperBound ==> clause(q, ids, statuses, field)
            == Some(field.column() + "<="@ + value_text(q, ids, statuses, field)->0),
{
}

/// A request that carries both bounds of the order's date and nothing else
/// compiles to the two bounds joined by `AND`, whatever its reverse set.
pub proof fn lemma_date_range(
    q: QueryView,
    ids: Seq<i64>,
    statuses: Seq<OrderPaymentStatus>,
    start: i64,
    end: i64,
)
    requires
        q.date_start == Some(start),
        q.date_end == Some(end),
        forall|other: FilterField|
            other != FilterField::DateStart && other != FilterField::DateEnd ==> !q.has(other),
    ensures
        where_text(q, ids, statuses) == "WHERE "@ + ("orders.date"@ + ">="@ + int_text(
            start as int,
        ) + " AND "@ + ("orders.date"@ + "<="@ + int_text(end as int))),
{
    assert forall|other: FilterField|
        other != FilterField::DateStart && other != FilterField::DateEnd implies clause(
        q,
        ids,
        statuses,
        other,
    ) is None by {
        assert(!q.has(other));
    }
    let low = "orders.date"@ + ">="@ + int_text(start as int);
    let high = "orders.date"@ + "<="@ + int_text(end as int);
    let clauses = where_clauses(q, ids, statuses);
    assert(clauses =~= seq![low, high]);
    assert(clauses.drop_last() =~= seq![low]);
    assert(join(clauses.drop_last(), " AND "@) == low);
    assert(join(clauses, " AND "@) == low + " AND "@ + high);
}

proof fn lemma_next_declared_field(
    q: QueryView,
    ids: Seq<i64>,
    statuses: Seq<OrderPaymentStatus>,
    i: int,
    field: FilterField,
)
    requires
        0 <= i < declared_fields().len(),
        declared_fields()[i] == field,
    ensures
        declared_fields().take(i + 1).filter_map(clause_picker(q, ids, statuses))
            == declared_fields().take(i).filter_map(clause_picker(q, ids, statuses)) + listed(
            clause(q, ids, statuses, field),
        ),
{
    declared_fields().lemma_filter_map_take_succ(clause_picker(q, ids, statuses), i);
}

/// The clauses of a request are those of the fields that it carries, in the
/// declared order of the fields.
pub proof fn lemma_clauses_in_declared_order(
    q: QueryView,
    ids: Seq<i64>,
    statuses: Seq<OrderPaymentStatus>,
)
    ensures
        where_clauses(q, ids, statuses) == declared_fields().filter_map(
            clause_picker(q, ids, statuses),
        ),
{
    lemma_next_declared_field(q, ids, statuses, 0, FilterField::Id);
    lemma_next_declared_field(q, ids, statuses, 1, FilterField::CreatedByUserId);
    lemma_next_declared_field(q, ids, statuses, 2, FilterField::UpdatedByUserId);
    lemma_next_declared_field(q, ids, statuses, 3, FilterField::Fuzzy);
    lemma_next_declared_field(q, ids, statuses, 4, FilterField::WarehouseIds);
    lemma_next_declared_field(q, ids, statuses, 5, FilterField::PersonRelatedId);
    lemma_next_declared_field(q, ids, statuses, 6, FilterField::PersonInChargeId);
    lemma_next_declared_field(q, ids, statuses, 7, FilterField::OrderType);
    lemma_next_declared_field(q, ids, statuses, 8, FilterField::OrderPaymentStatus);
    lemma_next_declared_field(q, ids, statuses, 9, FilterField::OrderCategoryId);
    lemma_next_declared_field(q, ids, statuses, 10, FilterField::Currency);
    lemma_next_declared_field(q, ids, statuses, 11, FilterField::DateStart);
    lemma_next_declared_field(q, ids, statuses, 12, FilterField::DateEnd);
    lemma_next_declared_field(q, ids, statuses, 13, FilterField::LastUpdatedDateStart);
    lemma_next_declared_field(q, ids, statuses, 14, FilterField::LastUpdatedDateEnd);
}

/// Tokens written from columns without a colon compile to one term each, in
/// the order of the tokens, each with the column and the direction that its
/// token was written from.
pub proof fn lemma_written_tokens_keep_order_and_direction(
    sorts: Seq<(Seq<char>, SortDirection)>,
)
    requires
        forall|i: int| 0 <= i < sorts.len() ==> !(#[trigger] sorts[i]).0.contains(':'),
    ensures
        order_terms(sorts.map_values(|s: (Seq<char>, SortDirection)| token_text(s.0, s.1)))
            == sorts.map_values(|s: (Seq<char>, SortDirection)| term_text(s.0, s.1)),
{
    let tokens = sorts.map_values(|s: (Seq<char>, SortDirection)| token_text(s.0, s.1));
    let terms = sorts.map_values(|s: (Seq<char>, SortDirection)| term_text(s.0, s.1));
    assert forall|i: int| 0 <= i < sorts.len() implies order_terms(tokens)[i] == terms[i] by {
        lemma_token_round_trip(sorts[i].0, sorts[i].1);
    }
}

/// The text of a natural number is one digit at least, and digits only.
pub proof fn lemma_nat_text_is_digits(n: nat)
    ensures
        nat_text(n).len() >= 1,
        forall|i: int| 0 <= i < nat_text(n).len() ==> is_digit(#[trigger] nat_text(n)[i]),
    decreases n,
{
    if n >= 10 {
        lemma_nat_text_is_digits(n / 10);
    }
}

/// The text of an integer is digits only but for the minus sign in front of
/// a negative one: a number brings neither a quote nor a blank into a clause.
pub proof fn lemma_int_text_is_numeric(v: int)
    ensures
        int_text(v).len() >= 1,
        forall|i: int|
            0 <= i < int_text(v).len() ==> is_digit(#[trigger] int_text(v)[i]) || (i == 0 && v
                < 0 && int_text(v)[i] == '-'),
{
    if v < 0 {
        lemma_nat_text_is_digits((-v) as nat);
    } else {
        lemma_nat_text_is_digits(v as nat);
    }
}

/// Escaping works character by character from the front.
proof fn lemma_escaped_unfolds(text: Seq<char>)
    requires
        text.len() > 0,
    ensures
        escaped(text) == escaped_char(text[0]) + escaped(text.drop_first()),
{
    let each = |c: char| escaped_char(c);
    assert(text.map_values(each).drop_first() =~= text.drop_first().map_values(each));
}

/// A text without a single quote is escaped to itself, so hardening changes
/// nothing of a request whose pattern holds none.
pub proof fn lemma_escaping_keeps_plain_text(text: Seq<char>)
    requires
        !text.contains('\''),
    ensures
        escaped(text) == text,
    decreases text.len(),
{
    if text.len() > 0 {
        lemma_escaping_keeps_plain_text(text.drop_first());
        lemma_escaped_unfolds(text);
    }
}

/// In an escaped text every single quote has its pair: no text, whatever it
/// holds, ends the literal that its escaped form stands in.
pub proof fn lemma_escaped_quotes_are_paired(text: Seq<char>)
    ensures
        quotes_paired(escaped(text)),
    decreases text.len(),
{
    if text.len() > 0 {
        let rest = text.drop_first();
        lemma_escaped_quotes_are_paired(rest);
        lemma_escaped_unfolds(text);
        let out = escaped(text);
        if text[0] == '\'' {
            assert(out.skip(2) =~= escaped(rest));
        } else {
            assert(out.drop_first() =~= escaped(rest));
        }
    }
}

/// Hardening changes neither the verdict on a request, nor its sort tokens,
/// nor its reverse set, nor which fields it carries.
pub proof fn lemma_hardening_keeps_the_verdict(q: QueryView)
    ensures
        q.escaping().verdict() == q.verdict(),
        q.escaping().sorters == q.sorters,
        q.escaping().reverse == q.reverse,
        forall|field: FilterField| q.escaping().has(field) == q.has(field),
{
}

} // verus!
