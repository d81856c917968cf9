//! Sort tokens. A token is a column identifier, optionally followed by a colon
//! and a direction; this module reads tokens, writes them, and turns each into
//! one term of an `ORDER BY` fragment.

use vstd::prelude::*;
use crate::text::{join, same_text, join_strings, texts};

verus! {

/// The direction of one sort term.
#[derive(Debug, Hash, PartialEq, Eq, Clone, Copy, Structural)]
pub enum SortDirection {
    Ascending,
    Descending,
}

impl SortDirection {
    /// The keyword of the direction, which is also its spelling in a token.
    pub open spec fn text(self) -> Seq<char> {
        match self {
            SortDirection::Ascending => "asc"@,
            SortDirection::Descending => "desc"@,
        }
    }

    /// The keyword of the direction.
    pub fn as_str(&self) -> (s: &'static str)
        ensures
            s@ == self.text(),
    {
        match self {
            SortDirection::Ascending => "asc",
            SortDirection::Descending => "desc",
        }
    }
}

/// The position of the first colon of a token, or the token's length if it
/// has none.
pub open spec fn colon_index(token: Seq<char>) -> int
    decreases token.len(),
{
    if token.len() == 0 || token[0] == ':' {
        0
    } else {
        1 + colon_index(token.drop_first())
    }
}

/// The column identifier of a token: what stands before its first colon.
pub open spec fn sort_column(token: Seq<char>) -> Seq<char> {
    token.take(colon_index(token))
}

/// The direction of a token: descending if `desc` follows its first colon,
/// ascending in every other case.
pub open spec fn sort_direction(token: Seq<char>) -> SortDirection {
    let k = colon_index(token);
    if k < token.len() && token.skip(k + 1) == "desc"@ {
        SortDirection::Descending
    } else {
        SortDirection::Ascending
    }
}

/// `colon_index` is the one position that has no colon before it and either a
/// colon at it or the end of the token.
pub proof fn lemma_colon_index(token: Seq<char>, k: int)
    requires
        0 <= k <= token.len(),
        forall|j: int| 0 <= j < k ==> token[j] != ':',
        k < token.len() ==> token[k] == ':',
    ensures
        colon_index(token) == k,
    decreases token.len(),
{
    if token.len() == 0 || token[0] == ':' {
    } else {
        lemma_colon_index(token.drop_first(), k - 1);
    }
}

fn colon_position(token: &str) -> (found: (usize, usize))
    ensures
        found.0 == colon_index(token@),
        found.1 == token@.len(),
        found.0 <= found.1,
{
    let n: usize = token.unicode_len();
    let mut k: usize = 0;
    let mut seen = false;
    for c in it: token.chars()
        invariant
            n == token@.len(),
            it.seq() == token@,
            k <= it.index(),
            !seen ==> k == it.index(),
            seen ==> k < token@.len() && token@[k as int] == ':',
            forall|j: int| 0 <= j < k ==> token@[j] != ':',
    {
        if !seen {
            if c == ':' {
                seen = true;
            } else {
                k += 1;
            }
        }
    }
    proof {
        lemma_colon_index(token@, k as int);
    }
    (k, n)
}

/// Reads a token: its column identifier and its direction. Every string is a
/// token; one without a direction, or with one that is not `desc`, sorts
/// ascending.
pub fn parse_sort_token(token: &str) -> (parsed: (String, SortDirection))
    ensures
        parsed.0@ == sort_column(token@),
        parsed.1 == sort_direction(token@),
{
    let (k, n) = colon_position(token);
    let column = String::from_str(token.substring_char(0, k));
    let direction = if k < n && same_text(token.substring_char(k + 1, n), "desc") {
        SortDirection::Descending
    } else {
        SortDirection::Ascending
    };
    (column, direction)
}

/// The column identifier of a token.
pub fn get_sort_col_str(sorter: &str) -> (column: String)
    ensures
        column@ == sort_column(sorter@),
{
    parse_sort_token(sorter).0
}

/// The direction keyword of a token.
pub fn get_sorter_str(sorter: &str) -> (keyword: &'static str)
    ensures
        keyword@ == sort_direction(sorter@).text(),
{
    parse_sort_token(sorter).1.as_str()
}

/// A token as it is written: the column, a colon, the direction's keyword.
pub open spec fn token_text(column: Seq<char>, direction: SortDirection) -> Seq<char> {
    column + ":"@ + direction.text()
}

/// Writes the token that sorts by `column` in `direction`.
pub fn sort_token(column: &str, direction: SortDirection) -> (token: String)
    ensures
        token@ == token_text(column@, direction),
{
    let mut token = String::from_str(column);
    token.append(":");
    token.append(direction.as_str());
    token
}

/// The column that a term sorts by. The four references to other tables sort
/// by the joined display name; every other identifier is a column of the
/// order table.
pub open spec fn order_column(column: Seq<char>) -> Seq<char> {
    if column == "warehouse_id"@ {
        "warehouse_name"@
    } else if column == "person_related_id"@ {
        "person_related_name"@
    } else if column == "person_in_charge_id"@ {
        "person_in_charge_name"@
    } else if column == "order_category_id"@ {
        "order_status_name"@
    } else {
        "orders."@ + column
    }
}

/// The term that a column and a direction stand for: column, blank, keyword.
pub open spec fn term_text(column: Seq<char>, direction: SortDirection) -> Seq<char> {
    order_column(column) + " "@ + direction.text()
}

/// The `ORDER BY` term of a token.
pub open spec fn order_term(token: Seq<char>) -> Seq<char> {
    term_text(sort_column(token), sort_direction(token))
}

/// The terms of a list of tokens, one for each, in the tokens' order.
pub open spec fn order_terms(tokens: Seq<Seq<char>>) -> Seq<Seq<char>> {
    tokens.map_values(|token: Seq<char>| order_term(token))
}

/// The `ORDER BY` fragment of a list of tokens: empty without a list or with
/// an empty one, else the keyword and the terms, comma-separated.
pub open spec fn order_text(tokens: Option<Seq<Seq<char>>>) -> Seq<char> {
    match tokens {
        Some(tokens) => if tokens.len() == 0 {
            Seq::empty()
        } else {
            "ORDER BY "@ + join(order_terms(tokens), ", "@)
        },
        None => Seq::empty(),
    }
}

/// Compiles one token into its `ORDER BY` term.
pub fn sort_term(token: &str) -> (term: String)
    ensures
        term@ == order_term(token@),
{
    let (column, direction) = parse_sort_token(token);
    let mut term = String::new();
    if same_text(column.as_str(), "warehouse_id") {
        term.append("warehouse_name");
    } else if same_text(column.as_str(), "person_related_id") {
        term.append("person_related_name");
    } else if same_text(column.as_str(), "person_in_charge_id") {
        term.append("person_in_charge_name");
    } else if same_text(column.as_str(), "order_category_id") {
        term.append("order_status_name");
    } else {
        term.append("orders.");
        term.append(column.as_str());
    }
    term.append(" ");
    term.append(direction.as_str());
    term
}

/// Compiles a list of tokens into the `ORDER BY` fragment.
pub fn order_condition(tokens: &Vec<String>) -> (out: String)
    ensures
        out@ == order_text(Some(texts(tokens@))),
{
    let mut terms: Vec<String> = Vec::new();
    let mut i: usize = 0;
    while i < tokens.len()
        invariant
            i <= tokens.len(),
            texts(terms@) == order_terms(texts(tokens@).take(i as int)),
        decreases tokens.len() - i,
    {
        let term = sort_term(tokens[i].as_str());
        terms.push(term);
        proof {
            let done = texts(tokens@).take(i as int);
            let next = texts(tokens@).take(i + 1);
            assert(order_terms(next) =~= order_terms(done).push(order_term(tokens@[i as int]@)));
        }
        i += 1;
    }
    proof {
        assert(texts(tokens@).take(i as int) =~= texts(tokens@));
    }
    let mut out = String::new();
    if terms.len() > 0 {
        out.append("ORDER BY ");
        let list = join_strings(&terms, ", ");
        out.append(list.as_str());
    }
    out
}

/// A token that was written from a column without a colon reads back as that
/// column and that direction.
pub proof fn lemma_token_round_trip(column: Seq<char>, direction: SortDirection)
    requires
        !column.contains(':'),
    ensures
        sort_column(token_text(column, direction)) == column,
        sort_direction(token_text(column, direction)) == direction,
{
    let token = token_text(column, direction);
    let k = column.len() as int;
    reveal_strlit(":");
    reveal_strlit("asc");
    reveal_strlit("desc");
    lemma_colon_index(token, k);
    assert(token.skip(k + 1) =~= direction.text());
}

} // verus!
