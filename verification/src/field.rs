//! The fields of a request that constrain the result, what each is called,
//! which column it is compared with and how.

use vstd::prelude::*;
use crate::polarity::{operator, operator_text, OperatorKind};
use crate::text::{join, join_strings, same_text, texts};

verus! {

/// How a field constrains its column.
#[derive(Debug, Hash, PartialEq, Eq, Clone, Copy, Structural)]
pub enum FieldKind {
    /// The column equals one value, or differs from it when reversed.
    Equality,
    /// The column is one of a set of values, or none of them when reversed.
    Membership,
    /// Some display column matches a pattern, or none does when reversed.
    Pattern,
    /// The column is at least a value. It cannot be reversed.
    LowerBound,
    /// The column is at most a value. It cannot be reversed.
    UpperBound,
}

/// The constraining fields of a request, in the order in which their clauses
/// are emitted.
#[derive(Debug, Hash, PartialEq, Eq, Clone, Copy, Structural)]
pub enum FilterField {
    Id,
    CreatedByUserId,
    UpdatedByUserId,
    Fuzzy,
    WarehouseIds,
    PersonRelatedId,
    PersonInChargeId,
    OrderType,
    OrderPaymentStatus,
    OrderCategoryId,
    Currency,
    DateStart,
    DateEnd,
    LastUpdatedDateStart,
    LastUpdatedDateEnd,
}

impl FilterField {
    /// The identifier of the field, by which a reverse set names it.
    pub open spec fn name(self) -> Seq<char> {
        match self {
            FilterField::Id => "id"@,
            FilterField::CreatedByUserId => "created_by_user_id"@,
            FilterField::UpdatedByUserId => "updated_by_user_id"@,
            FilterField::Fuzzy => "fuzzy"@,
            FilterField::WarehouseIds => "warehouse_ids"@,
            FilterField::PersonRelatedId => "person_related_id"@,
            FilterField::PersonInChargeId => "person_in_charge_id"@,
            FilterField::OrderType => "order_type"@,
            FilterField::OrderPaymentStatus => "order_payment_status"@,
            FilterField::OrderCategoryId => "order_category_id"@,
            FilterField::Currency => "currency"@,
            FilterField::DateStart => "date_start"@,
            FilterField::DateEnd => "date_end"@,
            FilterField::LastUpdatedDateStart => "last_updated_date_start"@,
            FilterField::LastUpdatedDateEnd => "last_updated_date_end"@,
        }
    }

    /// The column that the field is compared with. The pattern field has no
    /// single column: see `fuzzy_columns`. The two bounds on the date of the
    /// last update name columns after themselves, not after the date.
    pub open spec fn column(self) -> Seq<char> {
        match self {
            FilterField::Id => "orders.id"@,
            FilterField::CreatedByUserId => "orders.created_by_user_id"@,
            FilterField::UpdatedByUserId => "orders.updated_by_user_id"@,
            FilterField::Fuzzy => Seq::empty(),
            FilterField::WarehouseIds => "orders.warehouse_id"@,
            FilterField::PersonRelatedId => "orders.person_related_id"@,
            FilterField::PersonInChargeId => "orders.person_in_charge_id"@,
            FilterField::OrderType => "orders.order_type"@,
            FilterField::OrderPaymentStatus => "orders.order_payment_status"@,
            FilterField::OrderCategoryId => "orders.order_category_id"@,
            FilterField::Currency => "orders.currency"@,
            FilterField::DateStart => "orders.date"@,
            FilterField::DateEnd => "orders.date"@,
            FilterField::LastUpdatedDateStart => "orders.last_updated_date_start"@,
            FilterField::LastUpdatedDateEnd => "orders.last_updated_date_end"@,
        }
    }

    /// How the field constrains its column.
    pub open spec fn kind(self) -> FieldKind {
        match self {
            FilterField::Fuzzy => FieldKind::Pattern,
            FilterField::WarehouseIds => FieldKind::Membership,
            FilterField::OrderPaymentStatus => FieldKind::Membership,
            FilterField::DateStart => FieldKind::LowerBound,
            FilterField::DateEnd => FieldKind::UpperBound,
            FilterField::LastUpdatedDateStart => FieldKind::LowerBound,
            FilterField::LastUpdatedDateEnd => FieldKind::UpperBound,
            _ => FieldKind::Equality,
        }
    }

    /// The identifier of the field.
    pub fn name_str(&self) -> (s: &'static str)
        ensures
            s@ == self.name(),
    {
        match self {
            FilterField::Id => "id",
            FilterField::CreatedByUserId => "created_by_user_id",
            FilterField::UpdatedByUserId => "updated_by_user_id",
            FilterField::Fuzzy => "fuzzy",
            FilterField::WarehouseIds => "warehouse_ids",
            FilterField::PersonRelatedId => "person_related_id",
            FilterField::PersonInChargeId => "person_in_charge_id",
            FilterField::OrderType => "order_type",
            FilterField::OrderPaymentStatus => "order_payment_status",
            FilterField::OrderCategoryId => "order_category_id",
            FilterField::Currency => "currency",
            FilterField::DateStart => "date_start",
            FilterField::DateEnd => "date_end",
            FilterField::LastUpdatedDateStart => "last_updated_date_start",
            FilterField::LastUpdatedDateEnd => "last_updated_date_end",
        }
    }

    /// The column that the field is compared with.
    pub fn column_str(&self) -> (s: &'static str)
        ensures
            s@ == self.column(),
    {
        match self {
            FilterField::Id => "orders.id",
            FilterField::CreatedByUserId => "orders.created_by_user_id",
            FilterField::UpdatedByUserId => "orders.updated_by_user_id",
            FilterField::Fuzzy => {
                proof {
                    reveal_strlit("");
                }
                ""
            },
            FilterField::WarehouseIds => "orders.warehouse_id",
            FilterField::PersonRelatedId => "orders.person_related_id",
            FilterField::PersonInChargeId => "orders.person_in_charge_id",
            FilterField::OrderType => "orders.order_type",
            FilterField::OrderPaymentStatus => "orders.order_payment_status",
            FilterField::OrderCategoryId => "orders.order_category_id",
            FilterField::Currency => "orders.currency",
            FilterField::DateStart => "orders.date",
            FilterField::DateEnd => "orders.date",
            FilterField::LastUpdatedDateStart => "orders.last_updated_date_start",
            FilterField::LastUpdatedDateEnd => "orders.last_updated_date_end",
        }
    }

    /// How the field constrains its column.
    pub fn kind_of(&self) -> (kind: FieldKind)
        ensures
            kind == self.kind(),
    {
        match self {
            FilterField::Fuzzy => FieldKind::Pattern,
            FilterField::WarehouseIds => FieldKind::Membership,
            FilterField::OrderPaymentStatus => FieldKind::Membership,
            FilterField::DateStart => FieldKind::LowerBound,
            FilterField::DateEnd => FieldKind::UpperBound,
            FilterField::LastUpdatedDateStart => FieldKind::LowerBound,
            FilterField::LastUpdatedDateEnd => FieldKind::UpperBound,
            _ => FieldKind::Equality,
        }
    }
}

/// All fields, in the order in which their clauses are emitted.
pub open spec fn declared_fields() -> Seq<FilterField> {
    seq![
        FilterField::Id,
        FilterField::CreatedByUserId,
        FilterField::UpdatedByUserId,
        FilterField::Fuzzy,
        FilterField::WarehouseIds,
        FilterField::PersonRelatedId,
        FilterField::PersonInChargeId,
        FilterField::OrderType,
        FilterField::OrderPaymentStatus,
        FilterField::OrderCategoryId,
        FilterField::Currency,
        FilterField::DateStart,
        FilterField::DateEnd,
        FilterField::LastUpdatedDateStart,
        FilterField::LastUpdatedDateEnd,
    ]
}

/// Every field is among the declared ones.
pub proof fn lemma_every_field_is_declared(field: FilterField)
    ensures
        declared_fields().contains(field),
{
    let d = declared_fields();
    match field {
        FilterField::Id => assert(d[0] == field),
        FilterField::CreatedByUserId => assert(d[1] == field),
        FilterField::UpdatedByUserId => assert(d[2] == field),
        FilterField::Fuzzy => assert(d[3] == field),
        FilterField::WarehouseIds => assert(d[4] == field),
        FilterField::PersonRelatedId => assert(d[5] == field),
        FilterField::PersonInChargeId => assert(d[6] == field),
        FilterField::OrderType => assert(d[7] == field),
        FilterField::OrderPaymentStatus => assert(d[8] == field),
        FilterField::OrderCategoryId => assert(d[9] == field),
        FilterField::Currency => assert(d[10] == field),
        FilterField::DateStart => assert(d[11] == field),
        FilterField::DateEnd => assert(d[12] == field),
        FilterField::LastUpdatedDateStart => assert(d[13] == field),
        FilterField::LastUpdatedDateEnd => assert(d[14] == field),
    }
}

fn declared_field(i: usize) -> (field: FilterField)
    requires
        i < 15,
    ensures
        field == declared_fields()[i as int],
{
    if i == 0 {
        FilterField::Id
    } else if i == 1 {
        FilterField::CreatedByUserId
    } else if i == 2 {
        FilterField::UpdatedByUserId
    } else if i == 3 {
        FilterField::Fuzzy
    } else if i == 4 {
        FilterField::WarehouseIds
    } else if i == 5 {
        FilterField::PersonRelatedId
    } else if i == 6 {
        FilterField::PersonInChargeId
    } else if i == 7 {
        FilterField::OrderType
    } else if i == 8 {
        FilterField::OrderPaymentStatus
    } else if i == 9 {
        FilterField::OrderCategoryId
    } else if i == 10 {
        FilterField::Currency
    } else if i == 11 {
        FilterField::DateStart
    } else if i == 12 {
        FilterField::DateEnd
    } else if i == 13 {
        FilterField::LastUpdatedDateStart
    } else {
        FilterField::LastUpdatedDateEnd
    }
}

/// Whether a text is the identifier of some field.
pub open spec fn is_field_name(name: Seq<char>) -> bool {
    exists|field: FilterField| #[trigger] field.name() == name
}

/// The field that an identifier names, if it names one.
pub fn field_named(name: &str) -> (found: Option<FilterField>)
    ensures
        match found {
            Some(field) => field.name() == name@,
            None => !is_field_name(name@),
        },
{
    let mut i: usize = 0;
    while i < 15
        invariant
            i <= 15,
            declared_fields().len() == 15,
            forall|j: int| 0 <= j < i ==> (#[trigger] declared_fields()[j]).name() != name@,
        decreases 15 - i,
    {
        let field = declared_field(i);
        if same_text(field.name_str(), name) {
            return Some(field);
        }
        i += 1;
    }
    proof {
        assert forall|field: FilterField| #[trigger] field.name() != name@ by {
            lemma_every_field_is_declared(field);
            let j = choose|j: int| 0 <= j < 15 && declared_fields()[j] == field;
            assert(declared_fields()[j].name() != name@);
        }
    }
    None
}

/// The display columns that the pattern is matched against, in the order of
/// their disjuncts: the order's id as text, then the names of the related
/// person, the person in charge, the category and the warehouse.
pub open spec fn fuzzy_columns() -> Seq<Seq<char>> {
    seq![
        "CAST(orders.id AS TEXT)"@,
        "persons_related.name"@,
        "persons_in_charge.name"@,
        "order_status_list.name"@,
        "warehouses.name"@,
    ]
}

/// One disjunct of the pattern clause: the column, the operator, and the
/// pattern that matches the value anywhere.
pub open spec fn fuzzy_disjunct(column: Seq<char>, op: Seq<char>, value: Seq<char>) -> Seq<char> {
    column + " "@ + op + " '%"@ + value + "%'"@
}

/// The disjuncts of the pattern clause, one for each display column.
pub open spec fn fuzzy_disjuncts(op: Seq<char>, value: Seq<char>) -> Seq<Seq<char>> {
    fuzzy_columns().map_values(|column: Seq<char>| fuzzy_disjunct(column, op, value))
}

/// The pattern clause: the disjuncts of all display columns, joined by `OR`.
/// All of them carry the same operator. The clause is not parenthesised.
pub open spec fn fuzzy_text(op: Seq<char>, value: Seq<char>) -> Seq<char> {
    join(fuzzy_disjuncts(op, value), " OR "@)
}

/// The clause of a field whose value has been rendered as text.
pub open spec fn clause_text(field: FilterField, negated: bool, value: Seq<char>) -> Seq<char> {
    match field.kind() {
        FieldKind::Equality => field.column() + operator_text(OperatorKind::Equality, negated)
            + value,
        FieldKind::Membership => field.column() + " "@ + operator_text(
            OperatorKind::Membership,
            negated,
        ) + " "@ + value,
        FieldKind::Pattern => fuzzy_text(operator_text(OperatorKind::Pattern, negated), value),
        FieldKind::LowerBound => field.column() + ">="@ + value,
        FieldKind::UpperBound => field.column() + "<="@ + value,
    }
}

fn fuzzy_column(i: usize) -> (column: &'static str)
    requires
        i < 5,
    ensures
        column@ == fuzzy_columns()[i as int],
{
    if i == 0 {
        "CAST(orders.id AS TEXT)"
    } else if i == 1 {
        "persons_related.name"
    } else if i == 2 {
        "persons_in_charge.name"
    } else if i == 3 {
        "order_status_list.name"
    } else {
        "warehouses.name"
    }
}

/// Renders the pattern clause for an operator and a value.
pub fn fuzzy_clause(op: &str, value: &str) -> (out: String)
    ensures
        out@ == fuzzy_text(op@, value@),
{
    let mut parts: Vec<String> = Vec::new();
    let mut i: usize = 0;
    while i < 5
        invariant
            i <= 5,
            fuzzy_columns().len() == 5,
            texts(parts@) == fuzzy_disjuncts(op@, value@).take(i as int),
        decreases 5 - i,
    {
        let mut part = String::from_str(fuzzy_column(i));
        part.append(" ");
        part.append(op);
        part.append(" '%");
        part.append(value);
        part.append("%'");
        parts.push(part);
        proof {
            assert(fuzzy_disjuncts(op@, value@).take(i + 1) =~= fuzzy_disjuncts(op@, value@).take(
                i as int,
            ).push(part@));
        }
        i += 1;
    }
    proof {
        assert(fuzzy_disjuncts(op@, value@).take(5) =~= fuzzy_disjuncts(op@, value@));
    }
    join_strings(&parts, " OR ")
}

/// Renders the clause of a field from its polarity and its rendered value.
pub fn render_clause(field: FilterField, negated: bool, value: &str) -> (out: String)
    ensures
        out@ == clause_text(field, negated, value@),
{
    match field.kind_of() {
        FieldKind::Equality => {
            let mut out = String::from_str(field.column_str());
            out.append(operator(OperatorKind::Equality, negated));
            out.append(value);
            out
        },
        FieldKind::Membership => {
            let mut out = String::from_str(field.column_str());
            out.append(" ");
            out.append(operator(OperatorKind::Membership, negated));
            out.append(" ");
            out.append(value);
            out
        },
        FieldKind::Pattern => fuzzy_clause(operator(OperatorKind::Pattern, negated), value),
        FieldKind::LowerBound => {
            let mut out = String::from_str(field.column_str());
            out.append(">=");
            out.append(value);
            out
        },
        FieldKind::UpperBound => {
            let mut out = String::from_str(field.column_str());
            out.append("<=");
            out.append(value);
            out
        },
    }
}

} // verus!
