//! Hardening of a request before it is compiled. The compiling functions write
//! sort columns and the pattern of a request into the query as they come;
//! this module rejects the identifiers that are not known and makes the
//! pattern safe to stand between quotes.

use vstd::prelude::*;
use crate::field::{field_named, is_field_name};
use crate::query::{GetOrdersQuery, QueryView};
use crate::sets::walk;
use crate::sorter::{get_sort_col_str, sort_column};
use crate::text::{escape_quotes, escaped, same_text, texts};

verus! {

/// Why a request is refused.
#[derive(Debug, Hash, PartialEq, Eq, Clone, Copy, Structural)]
pub enum QueryError {
    /// A sort token names a column that is not a column of the order table.
    InvalidSortField,
    /// The reverse set names something that is not a field of the request.
    InvalidFilterField,
}

/// The columns that a sort token may name: those of the order table.
pub open spec fn sortable_columns() -> Seq<Seq<char>> {
    seq![
        "id"@,
        "created_by_user_id"@,
        "updated_by_user_id"@,
        "date"@,
        "last_updated_date"@,
        "person_in_charge_id"@,
        "order_category_id"@,
        "from_guest_order_id"@,
        "currency"@,
        "total_amount"@,
        "total_amount_settled"@,
        "order_payment_status"@,
        "warehouse_id"@,
        "person_related_id"@,
        "description"@,
        "order_type"@,
    ]
}

/// Whether a sort token may name the column.
pub open spec fn is_sortable(column: Seq<char>) -> bool {
    sortable_columns().contains(column)
}

fn sortable_column(i: usize) -> (column: &'static str)
    requires
        i < 16,
    ensures
        column@ == sortable_columns()[i as int],
{
    if i == 0 {
        "id"
    } else if i == 1 {
        "created_by_user_id"
    } else if i == 2 {
        "updated_by_user_id"
    } else if i == 3 {
        "date"
    } else if i == 4 {
        "last_updated_date"
    } else if i == 5 {
        "person_in_charge_id"
    } else if i == 6 {
        "order_category_id"
    } else if i == 7 {
        "from_guest_order_id"
    } else if i == 8 {
        "currency"
    } else if i == 9 {
        "total_amount"
    } else if i == 10 {
        "total_amount_settled"
    } else if i == 11 {
        "order_payment_status"
    } else if i == 12 {
        "warehouse_id"
    } else if i == 13 {
        "person_related_id"
    } else if i == 14 {
        "description"
    } else {
        "order_type"
    }
}

/// Whether a sort token may name the column.
pub fn sortable(column: &str) -> (allowed: bool)
    ensures
        allowed == is_sortable(column@),
{
    let mut i: usize = 0;
    while i < 16
        invariant
            i <= 16,
            sortable_columns().len() == 16,
            forall|j: int| 0 <= j < i ==> sortable_columns()[j] != column@,
        decreases 16 - i,
    {
        if same_text(sortable_column(i), column) {
            return true;
        }
        i += 1;
    }
    false
}

impl QueryView {
    /// Whether every name of the reverse set is the identifier of a field.
    pub open spec fn reverse_known(self) -> bool {
        match self.reverse {
            Some(names) => forall|name: Seq<char>| names.contains(name) ==> is_field_name(name),
            None => true,
        }
    }

    /// Whether every sort token names a column of the order table.
    pub open spec fn sorters_known(self) -> bool {
        match self.sorters {
            Some(tokens) => forall|i: int|
                0 <= i < tokens.len() ==> is_sortable(sort_column(#[trigger] tokens[i])),
            None => true,
        }
    }

    /// Whether the request is accepted, and why not if it is not. The reverse
    /// set is looked at first.
    pub open spec fn verdict(self) -> Result<(), QueryError> {
        if !self.reverse_known() {
            Err(QueryError::InvalidFilterField)
        } else if !self.sorters_known() {
            Err(QueryError::InvalidSortField)
        } else {
            Ok(())
        }
    }

    /// The same request with the quotes of its pattern doubled.
    pub open spec fn escaping(self) -> QueryView {
        QueryView {
            fuzzy: match self.fuzzy {
                Some(text) => Some(escaped(text)),
                None => None,
            },
            ..self
        }
    }
}

fn names_known(list: &Vec<String>) -> (known: bool)
    ensures
        known == forall|name: Seq<char>|
            texts(list@).to_set().contains(name) ==> is_field_name(name),
{
    let mut i: usize = 0;
    while i < list.len()
        invariant
            i <= list.len(),
            forall|j: int| 0 <= j < i ==> is_field_name(#[trigger] texts(list@)[j]),
        decreases list.len() - i,
    {
        if field_named(list[i].as_str()).is_none() {
            assert(texts(list@).to_set().contains(texts(list@)[i as int]));
            return false;
        }
        i += 1;
    }
    true
}

fn tokens_known(tokens: &Vec<String>) -> (known: bool)
    ensures
        known == forall|i: int|
            0 <= i < tokens.len() ==> is_sortable(sort_column(#[trigger] texts(tokens@)[i])),
{
    let mut i: usize = 0;
    while i < tokens.len()
        invariant
            i <= tokens.len(),
            forall|j: int| 0 <= j < i ==> is_sortable(sort_column(#[trigger] texts(tokens@)[j])),
        decreases tokens.len() - i,
    {
        let column = get_sort_col_str(tokens[i].as_str());
        assert(texts(tokens@)[i as int] == tokens@[i as int]@);
        if !sortable(column.as_str()) {
            return false;
        }
        i += 1;
    }
    true
}

impl GetOrdersQuery {
    /// Checks the identifiers that the request brings from outside: the names
    /// of the reverse set must be identifiers of fields, and the columns of
    /// the sort tokens must be columns of the order table.
    pub fn validate(&self) -> (verdict: Result<(), QueryError>)
        ensures
            verdict == self@.verdict(),
    {
        let reverse_known = match &self.reverse {
            Some(set) => {
                let names = walk(set);
                proof {
                    assert(texts(names@).to_set() =~= set.deep_view()) by {
                        names@.lemma_to_set_map_commutes(|s: String| s@);
                        assert forall|name: Seq<char>|
                            set@.map(|s: String| s@).contains(name) <==> set.deep_view().contains(
                                name,
                            ) by {
                            if set@.map(|s: String| s@).contains(name) {
                                let s = choose|s: String| set@.contains(s) && s@ == name;
                                assert(s.deep_view() == name);
                            }
                            if set.deep_view().contains(name) {
                                let s = choose|s: String|
                                    set@.contains(s) && s.deep_view() == name;
                                assert(s@ == name);
                            }
                        }
                    }
                }
                names_known(&names)
            },
            None => true,
        };
        if !reverse_known {
            return Err(QueryError::InvalidFilterField);
        }
        let sorters_known = match &self.sorters {
            Some(tokens) => tokens_known(tokens),
            None => true,
        };
        if !sorters_known {
            proof {
                let tokens = self@.sorters->0;
                let i = choose|i: int|
                    0 <= i < tokens.len() && !is_sortable(sort_column(#[trigger] tokens[i]));
                assert(!is_sortable(sort_column(tokens[i])));
            }
            return Err(QueryError::InvalidSortField);
        }
        Ok(())
    }

    /// Checks the request as `validate` does and doubles the quotes of its
    /// pattern, so that the compiled pattern cannot end its own literal.
    /// Nothing else of the request changes.
    pub fn hardened(self) -> (out: Result<GetOrdersQuery, QueryError>)
        ensures
            match out {
                Ok(q) => self@.verdict() is Ok && q@ == self@.escaping(),
                Err(e) => self@.verdict() == Err::<(), QueryError>(e),
            },
    {
        match self.validate() {
            Err(e) => Err(e),
            Ok(_) => {
                let mut q = self;
                let fuzzy = match &q.fuzzy {
                    Some(text) => Some(escape_quotes(text.as_str())),
                    None => None,
                };
                q.fuzzy = fuzzy;
                Ok(q)
            },
        }
    }
}

} // verus!
