//! The filter and sort request over the order table, and its compilation into
//! the `WHERE` and `ORDER BY` fragments of a query.

use vstd::prelude::*;
use crate::field::{clause_text, render_clause, FieldKind, FilterField};
use crate::order::{OrderCurrency, OrderPaymentStatus, OrderType};
use crate::polarity::{is_reversed, reversed};
use crate::sets::{is_walk, walk};
use crate::sorter::{order_condition, order_text};
use crate::text::{decimal, int_text, join, join_strings, texts};

verus! {

/// A request for orders. Every field is optional, and an absent field
/// constrains nothing. `sorters` holds sort tokens; `reverse` names the fields
/// whose comparison is inverted.
#[derive(Debug)]
pub struct GetOrdersQuery {
    pub id: Option<i64>,
    pub created_by_user_id: Option<i64>,
    pub updated_by_user_id: Option<i64>,
    pub fuzzy: Option<String>,
    pub warehouse_ids: Option<ahash::HashSet<i64>>,
    pub person_related_id: Option<i64>,
    pub person_in_charge_id: Option<i64>,
    pub order_payment_status: Option<ahash::HashSet<OrderPaymentStatus>>,
    pub order_type: Option<OrderType>,
    pub order_category_id: Option<i64>,
    pub currency: Option<OrderCurrency>,
    pub date_start: Option<i64>,
    pub date_end: Option<i64>,
    pub last_updated_date_start: Option<i64>,
    pub last_updated_date_end: Option<i64>,
    pub sorters: Option<Vec<String>>,
    pub reverse: Option<ahash::HashSet<String>>,
}

/// What a request says, as mathematical values.
pub struct QueryView {
    pub id: Option<i64>,
    pub created_by_user_id: Option<i64>,
    pub updated_by_user_id: Option<i64>,
    pub fuzzy: Option<Seq<char>>,
    pub warehouse_ids: Option<Set<i64>>,
    pub person_related_id: Option<i64>,
    pub person_in_charge_id: Option<i64>,
    pub order_payment_status: Option<Set<OrderPaymentStatus>>,
    pub order_type: Option<OrderType>,
    pub order_category_id: Option<i64>,
    pub currency: Option<OrderCurrency>,
    pub date_start: Option<i64>,
    pub date_end: Option<i64>,
    pub last_updated_date_start: Option<i64>,
    pub last_updated_date_end: Option<i64>,
    pub sorters: Option<Seq<Seq<char>>>,
    pub reverse: Option<Set<Seq<char>>>,
}

impl View for GetOrdersQuery {
    type V = QueryView;

    open spec fn view(&self) -> QueryView {
        QueryView {
            id: self.id,
            created_by_user_id: self.created_by_user_id,
            updated_by_user_id: self.updated_by_user_id,
            fuzzy: match self.fuzzy {
                Some(s) => Some(s@),
                None => None,
            },
            warehouse_ids: match self.warehouse_ids {
                Some(set) => Some(set@),
                None => None,
            },
            person_related_id: self.person_related_id,
            person_in_charge_id: self.person_in_charge_id,
            order_payment_status: match self.order_payment_status {
                Some(set) => Some(set@),
                None => None,
            },
            order_type: self.order_type,
            order_category_id: self.order_category_id,
            currency: self.currency,
            date_start: self.date_start,
            date_end: self.date_end,
            last_updated_date_start: self.last_updated_date_start,
            last_updated_date_end: self.last_updated_date_end,
            sorters: match self.sorters {
                Some(list) => Some(texts(list@)),
                None => None,
            },
            reverse: match self.reverse {
                Some(set) => Some(set.deep_view()),
                None => None,
            },
        }
    }
}

impl QueryView {
    /// The request that constrains nothing and asks for no order.
    pub open spec fn empty() -> QueryView {
        QueryView {
            id: None,
            created_by_user_id: None,
            updated_by_user_id: None,
            fuzzy: None,
            warehouse_ids: None,
            person_related_id: None,
            person_in_charge_id: None,
            order_payment_status: None,
            order_type: None,
            order_category_id: None,
            currency: None,
            date_start: None,
            date_end: None,
            last_updated_date_start: None,
            last_updated_date_end: None,
            sorters: None,
            reverse: None,
        }
    }

    /// Whether the request carries a value for the field.
    pub open spec fn has(self, field: FilterField) -> bool {
        match field {
            FilterField::Id => self.id is Some,
            FilterField::CreatedByUserId => self.created_by_user_id is Some,
            FilterField::UpdatedByUserId => self.updated_by_user_id is Some,
            FilterField::Fuzzy => self.fuzzy is Some,
            FilterField::WarehouseIds => self.warehouse_ids is Some,
            FilterField::PersonRelatedId => self.person_related_id is Some,
            FilterField::PersonInChargeId => self.person_in_charge_id is Some,
            FilterField::OrderType => self.order_type is Some,
            FilterField::OrderPaymentStatus => self.order_payment_status is Some,
            FilterField::OrderCategoryId => self.order_category_id is Some,
            FilterField::Currency => self.currency is Some,
            FilterField::DateStart => self.date_start is Some,
            FilterField::DateEnd => self.date_end is Some,
            FilterField::LastUpdatedDateStart => self.last_updated_date_start is Some,
            FilterField::LastUpdatedDateEnd => self.last_updated_date_end is Some,
        }
    }

    /// The same request with another reverse set.
    pub open spec fn with_reverse(self, reverse: Option<Set<Seq<char>>>) -> QueryView {
        QueryView { reverse, ..self }
    }

    /// The same request with the field added to its reverse set.
    pub open spec fn reversing(self, field: FilterField) -> QueryView {
        self.with_reverse(
            Some(
                match self.reverse {
                    Some(names) => names.insert(field.name()),
                    None => Set::empty().insert(field.name()),
                },
            ),
        )
    }

    /// Whether `ids` and `statuses` are walks through the two sets of the
    /// request. For a set that is absent the walk is empty.
    pub open spec fn walked_by(self, ids: Seq<i64>, statuses: Seq<OrderPaymentStatus>) -> bool {
        &&& match self.warehouse_ids {
            Some(set) => is_walk(ids, set),
            None => ids.len() == 0,
        }
        &&& match self.order_payment_status {
            Some(set) => is_walk(statuses, set),
            None => statuses.len() == 0,
        }
    }
}

/// The decimal text of a number, if there is one.
pub open spec fn number_text(value: Option<i64>) -> Option<Seq<char>> {
    match value {
        Some(v) => Some(int_text(v as int)),
        None => None,
    }
}

/// A name between single quotes.
pub open spec fn quoted(name: Seq<char>) -> Seq<char> {
    "'"@ + name + "'"@
}

/// The ids in decimal, comma-separated, in parentheses.
pub open spec fn id_list_text(ids: Seq<i64>) -> Seq<char> {
    "("@ + join(ids.map_values(|v: i64| int_text(v as int)), ","@) + ")"@
}

/// The names of the statuses, each quoted, comma-separated, in parentheses.
/// Of no status at all this is one empty quoted name.
pub open spec fn status_list_text(statuses: Seq<OrderPaymentStatus>) -> Seq<char> {
    "('"@ + join(statuses.map_values(|s: OrderPaymentStatus| s.name()), "','"@) + "')"@
}

/// The value of a field as it stands in the field's clause, if the request
/// carries one. The two sets are rendered in the order of the given walks.
pub open spec fn value_text(
    q: QueryView,
    ids: Seq<i64>,
    statuses: Seq<OrderPaymentStatus>,
    field: FilterField,
) -> Option<Seq<char>> {
    match field {
        FilterField::Id => number_text(q.id),
        FilterField::CreatedByUserId => number_text(q.created_by_user_id),
        FilterField::UpdatedByUserId => number_text(q.updated_by_user_id),
        FilterField::Fuzzy => q.fuzzy,
        FilterField::WarehouseIds => match q.warehouse_ids {
            Some(_) => Some(id_list_text(ids)),
            None => None,
        },
        FilterField::PersonRelatedId => number_text(q.person_related_id),
        FilterField::PersonInChargeId => number_text(q.person_in_charge_id),
        FilterField::OrderType => match q.order_type {
            Some(t) => Some(quoted(t.name())),
            None => None,
        },
        FilterField::OrderPaymentStatus => match q.order_payment_status {
            Some(_) => Some(status_list_text(statuses)),
            None => None,
        },
        FilterField::OrderCategoryId => number_text(q.order_category_id),
        FilterField::Currency => match q.currency {
            Some(c) => Some(quoted(c.name())),
            None => None,
        },
        FilterField::DateStart => number_text(q.date_start),
        FilterField::DateEnd => number_text(q.date_end),
        FilterField::LastUpdatedDateStart => number_text(q.last_updated_date_start),
        FilterField::LastUpdatedDateEnd => number_text(q.last_updated_date_end),
    }
}

/// The clause that a field contributes, if the request carries a value for
/// it. The polarity is that of the field's identifier in the reverse set.
pub open spec fn clause(
    q: QueryView,
    ids: Seq<i64>,
    statuses: Seq<OrderPaymentStatus>,
    field: FilterField,
) -> Option<Seq<char>> {
    match value_text(q, ids, statuses, field) {
        Some(value) => Some(clause_text(field, is_reversed(q.reverse, field.name()), value)),
        None => None,
    }
}

/// A clause as a list: of one element if there is one, empty if not.
pub open spec fn listed(clause: Option<Seq<char>>) -> Seq<Seq<char>> {
    match clause {
        Some(text) => seq![text],
        None => Seq::empty(),
    }
}

/// The clauses of a request: those of the fields that it carries, in the
/// fixed order of the fields.
pub open spec fn where_clauses(
    q: QueryView,
    ids: Seq<i64>,
    statuses: Seq<OrderPaymentStatus>,
) -> Seq<Seq<char>> {
    Seq::empty()
        + listed(clause(q, ids, statuses, FilterField::Id))
        + listed(clause(q, ids, statuses, FilterField::CreatedByUserId))
        + listed(clause(q, ids, statuses, FilterField::UpdatedByUserId))
        + listed(clause(q, ids, statuses, FilterField::Fuzzy))
        + listed(clause(q, ids, statuses, FilterField::WarehouseIds))
        + listed(clause(q, ids, statuses, FilterField::PersonRelatedId))
        + listed(clause(q, ids, statuses, FilterField::PersonInChargeId))
        + listed(clause(q, ids, statuses, FilterField::OrderType))
        + listed(clause(q, ids, statuses, FilterField::OrderPaymentStatus))
        + listed(clause(q, ids, statuses, FilterField::OrderCategoryId))
        + listed(clause(q, ids, statuses, FilterField::Currency))
        + listed(clause(q, ids, statuses, FilterField::DateStart))
        + listed(clause(q, ids, statuses, FilterField::DateEnd))
        + listed(clause(q, ids, statuses, FilterField::LastUpdatedDateStart))
        + listed(clause(q, ids, statuses, FilterField::LastUpdatedDateEnd))
}

/// The `WHERE` fragment of a list of clauses: empty for no clause, else the
/// keyword and the clauses joined by `AND`.
pub open spec fn where_text_of(clauses: Seq<Seq<char>>) -> Seq<char> {
    if clauses.len() == 0 {
        Seq::empty()
    } else {
        "WHERE "@ + join(clauses, " AND "@)
    }
}

/// The `WHERE` fragment of a request whose sets are walked in a given order.
pub open spec fn where_text(
    q: QueryView,
    ids: Seq<i64>,
    statuses: Seq<OrderPaymentStatus>,
) -> Seq<char> {
    where_text_of(where_clauses(q, ids, statuses))
}

/// The characters of a string, if there is one.
pub open spec fn opt_text(text: Option<String>) -> Option<Seq<char>> {
    match text {
        Some(s) => Some(s@),
        None => None,
    }
}

fn number(value: Option<i64>) -> (out: Option<String>)
    ensures
        opt_text(out) == number_text(value),
{
    match value {
        Some(v) => Some(decimal(v)),
        None => None,
    }
}

fn quote(name: &str) -> (out: String)
    ensures
        out@ == quoted(name@),
{
    let mut out = String::from_str("'");
    out.append(name);
    out.append("'");
    out
}

fn id_list(ids: &Vec<i64>) -> (out: String)
    ensures
        out@ == id_list_text(ids@),
{
    let ghost render = |v: i64| int_text(v as int);
    let mut parts: Vec<String> = Vec::new();
    let mut i: usize = 0;
    while i < ids.len()
        invariant
            i <= ids.len(),
            render == |v: i64| int_text(v as int),
            texts(parts@) == ids@.take(i as int).map_values(render),
        decreases ids.len() - i,
    {
        let part = decimal(ids[i]);
        parts.push(part);
        proof {
            assert(ids@.take(i + 1).map_values(render) =~= ids@.take(i as int).map_values(
                render,
            ).push(part@));
        }
        i += 1;
    }
    proof {
        assert(ids@.take(i as int) =~= ids@);
    }
    let mut out = String::from_str("(");
    out.append(join_strings(&parts, ",").as_str());
    out.append(")");
    out
}

fn status_list(statuses: &Vec<OrderPaymentStatus>) -> (out: String)
    ensures
        out@ == status_list_text(statuses@),
{
    let ghost render = |s: OrderPaymentStatus| s.name();
    let mut parts: Vec<String> = Vec::new();
    let mut i: usize = 0;
    while i < statuses.len()
        invariant
            i <= statuses.len(),
            render == |s: OrderPaymentStatus| s.name(),
            texts(parts@) == statuses@.take(i as int).map_values(render),
        decreases statuses.len() - i,
    {
        let part = String::from_str(statuses[i].as_ref());
        parts.push(part);
        proof {
            assert(statuses@.take(i + 1).map_values(render) =~= statuses@.take(
                i as int,
            ).map_values(render).push(part@));
        }
        i += 1;
    }
    proof {
        assert(statuses@.take(i as int) =~= statuses@);
    }
    let mut out = String::from_str("('");
    out.append(join_strings(&parts, "','").as_str());
    out.append("')");
    out
}

impl GetOrdersQuery {
    /// The request that constrains nothing and asks for no order.
    pub fn empty() -> (q: Self)
        ensures
            q@ == QueryView::empty(),
    {
        Self {
            id: None,
            created_by_user_id: None,
            updated_by_user_id: None,
            fuzzy: None,
            warehouse_ids: None,
            person_in_charge_id: None,
            person_related_id: None,
            order_payment_status: None,
            order_category_id: None,
            order_type: None,
            currency: None,
            date_start: None,
            date_end: None,
            sorters: None,
            reverse: None,
            last_updated_date_start: None,
            last_updated_date_end: None,
        }
    }

    /// Renders the value of a field as it stands in the field's clause, if
    /// the request carries one, with the two sets in the order of the walks.
    pub fn value_of(
        &self,
        field: FilterField,
        ids: &Vec<i64>,
        statuses: &Vec<OrderPaymentStatus>,
    ) -> (out: Option<String>)
        ensures
            opt_text(out) == value_text(self@, ids@, statuses@, field),
    {
        match field {
            FilterField::Id => number(self.id),
            FilterField::CreatedByUserId => number(self.created_by_user_id),
            FilterField::UpdatedByUserId => number(self.updated_by_user_id),
            FilterField::Fuzzy => match &self.fuzzy {
                Some(s) => Some(s.clone()),
                None => None,
            },
            FilterField::WarehouseIds => match &self.warehouse_ids {
                Some(_) => Some(id_list(ids)),
                None => None,
            },
            FilterField::PersonRelatedId => number(self.person_related_id),
            FilterField::PersonInChargeId => number(self.person_in_charge_id),
            FilterField::OrderType => match &self.order_type {
                Some(t) => Some(quote(t.as_ref())),
                None => None,
            },
            FilterField::OrderPaymentStatus => match &self.order_payment_status {
                Some(_) => Some(status_list(statuses)),
                None => None,
            },
            FilterField::OrderCategoryId => number(self.order_category_id),
            FilterField::Currency => match &self.currency {
                Some(c) => Some(quote(c.as_ref())),
                None => None,
            },
            FilterField::DateStart => number(self.date_start),
            FilterField::DateEnd => number(self.date_end),
            FilterField::LastUpdatedDateStart => number(self.last_updated_date_start),
            FilterField::LastUpdatedDateEnd => number(self.last_updated_date_end),
        }
    }

    /// The clause that a field contributes, if the request carries a value
    /// for it, with the two sets in the order of the walks.
    pub fn clause_of(
        &self,
        field: FilterField,
        ids: &Vec<i64>,
        statuses: &Vec<OrderPaymentStatus>,
    ) -> (out: Option<String>)
        ensures
            opt_text(out) == clause(self@, ids@, statuses@, field),
    {
        match self.value_of(field, ids, statuses) {
            Some(value) => {
                let negated = match field.kind_of() {
                    FieldKind::LowerBound => false,
                    FieldKind::UpperBound => false,
                    _ => reversed(self.reverse.as_ref(), field.name_str()),
                };
                Some(render_clause(field, negated, value.as_str()))
            },
            None => None,
        }
    }

    fn push_clause(
        &self,
        clauses: &mut Vec<String>,
        field: FilterField,
        ids: &Vec<i64>,
        statuses: &Vec<OrderPaymentStatus>,
    )
        ensures
            texts(final(clauses)@) == texts(old(clauses)@) + listed(
                clause(self@, ids@, statuses@, field),
            ),
    {
        if let Some(text) = self.clause_of(field, ids, statuses) {
            clauses.push(text);
        }
    }

    /// Compiles the `WHERE` fragment with the two sets rendered in the order
    /// of the given walks. Where a set is absent its walk is not looked at.
    pub fn where_condition_walked(
        &self,
        ids: &Vec<i64>,
        statuses: &Vec<OrderPaymentStatus>,
    ) -> (out: String)
        ensures
            out@ == where_text(self@, ids@, statuses@),
    {
        let mut clauses: Vec<String> = Vec::with_capacity(5);
        self.push_clause(&mut clauses, FilterField::Id, ids, statuses);
        self.push_clause(&mut clauses, FilterField::CreatedByUserId, ids, statuses);
        self.push_clause(&mut clauses, FilterField::UpdatedByUserId, ids, statuses);
        self.push_clause(&mut clauses, FilterField::Fuzzy, ids, statuses);
        self.push_clause(&mut clauses, FilterField::WarehouseIds, ids, statuses);
        self.push_clause(&mut clauses, FilterField::PersonRelatedId, ids, statuses);
        self.push_clause(&mut clauses, FilterField::PersonInChargeId, ids, statuses);
        self.push_clause(&mut clauses, FilterField::OrderType, ids, statuses);
        self.push_clause(&mut clauses, FilterField::OrderPaymentStatus, ids, statuses);
        self.push_clause(&mut clauses, FilterField::OrderCategoryId, ids, statuses);
        self.push_clause(&mut clauses, FilterField::Currency, ids, statuses);
        self.push_clause(&mut clauses, FilterField::DateStart, ids, statuses);
        self.push_clause(&mut clauses, FilterField::DateEnd, ids, statuses);
        self.push_clause(&mut clauses, FilterField::LastUpdatedDateStart, ids, statuses);
        self.push_clause(&mut clauses, FilterField::LastUpdatedDateEnd, ids, statuses);
        let mut out = String::new();
        if !clauses.is_empty() {
            out.append("WHERE ");
            out.append(join_strings(&clauses, " AND ").as_str());
        }
        out
    }

    /// Compiles the `WHERE` fragment: one clause for each field that the
    /// request carries, in the fixed order of the fields, joined by `AND`
    /// behind the keyword; nothing at all if no field is carried. The members
    /// of a set stand in the order in which the set is walked, which is some
    /// order that meets each member once.
    pub fn get_where_condition(&self) -> (out: String)
        ensures
            exists|ids: Seq<i64>, statuses: Seq<OrderPaymentStatus>|
                #[trigger] self@.walked_by(ids, statuses) && out@ == where_text(
                    self@,
                    ids,
                    statuses,
                ),
    {
        let ids = match &self.warehouse_ids {
            Some(set) => walk(set),
            None => Vec::new(),
        };
        let statuses = match &self.order_payment_status {
            Some(set) => walk(set),
            None => Vec::new(),
        };
        let out = self.where_condition_walked(&ids, &statuses);
        assert(self@.walked_by(ids@, statuses@));
        out
    }

    /// Compiles the `ORDER BY` fragment: one term for each sort token, in the
    /// tokens' order, comma-separated behind the keyword; nothing at all
    /// without a token.
    pub fn get_order_condition(&self) -> (out: String)
        ensures
            out@ == order_text(self@.sorters),
    {
        match &self.sorters {
            Some(tokens) => order_condition(tokens),
            None => String::new(),
        }
    }
}

} // verus!
