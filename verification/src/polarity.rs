//! Comparison operators and their negation. A request names, in its reverse
//! set, the fields whose comparison is to be inverted; this module turns a
//! field identifier and the kind of its comparison into the operator text.

use vstd::prelude::*;
use crate::sets::holds_name;

verus! {

/// The kinds of comparison that can be inverted.
#[derive(Debug, Hash, PartialEq, Eq, Clone, Copy, Structural)]
pub enum OperatorKind {
    /// `=`, inverted `!=`.
    Equality,
    /// `IN`, inverted `NOT IN`.
    Membership,
    /// `LIKE`, inverted `NOT LIKE`.
    Pattern,
}

/// The operator of a kind, in its affirmative or its negated form.
pub open spec fn operator_text(kind: OperatorKind, negated: bool) -> Seq<char> {
    match kind {
        OperatorKind::Equality => if negated {
            "!="@
        } else {
            "="@
        },
        OperatorKind::Membership => if negated {
            "NOT IN"@
        } else {
            "IN"@
        },
        OperatorKind::Pattern => if negated {
            "NOT LIKE"@
        } else {
            "LIKE"@
        },
    }
}

/// The field identifiers that a reverse set holds, if there is one.
pub open spec fn reverse_names(reverse: Option<&ahash::HashSet<String>>) -> Option<
    Set<Seq<char>>,
> {
    match reverse {
        Some(set) => Some(set.deep_view()),
        None => None,
    }
}

/// Whether the reverse set inverts a field. Without a set nothing is inverted.
pub open spec fn is_reversed(reverse: Option<Set<Seq<char>>>, field: Seq<char>) -> bool {
    match reverse {
        Some(names) => names.contains(field),
        None => false,
    }
}

/// Whether the reverse set names the field.
pub fn reversed(reverse: Option<&ahash::HashSet<String>>, field: &str) -> (inverted: bool)
    ensures
        inverted == is_reversed(reverse_names(reverse), field@),
{
    match reverse {
        Some(set) => holds_name(set, field),
        None => false,
    }
}

/// The operator of a kind in the given polarity.
pub fn operator(kind: OperatorKind, negated: bool) -> (op: &'static str)
    ensures
        op@ == operator_text(kind, negated),
{
    match kind {
        OperatorKind::Equality => if negated {
            "!="
        } else {
            "="
        },
        OperatorKind::Membership => if negated {
            "NOT IN"
        } else {
            "IN"
        },
        OperatorKind::Pattern => if negated {
            "NOT LIKE"
        } else {
            "LIKE"
        },
    }
}

/// The operator to compare a field with: the negated form of the kind if the
/// reverse set names the field, the affirmative form otherwise.
pub fn resolve_operator(
    reverse: Option<&ahash::HashSet<String>>,
    field: &str,
    kind: OperatorKind,
) -> (op: &'static str)
    ensures
        op@ == operator_text(kind, is_reversed(reverse_names(reverse), field@)),
{
    operator(kind, reversed(reverse, field))
}

/// `=`, or `!=` if the reverse set names the field.
pub fn eq_or_not(reverse: Option<&ahash::HashSet<String>>, field: &str) -> (op: &'static str)
    ensures
        op@ == operator_text(
            OperatorKind::Equality,
            is_reversed(reverse_names(reverse), field@),
        ),
{
    resolve_operator(reverse, field, OperatorKind::Equality)
}

/// `IN`, or `NOT IN` if the reverse set names the field.
pub fn in_or_not(reverse: Option<&ahash::HashSet<String>>, field: &str) -> (op: &'static str)
    ensures
        op@ == operator_text(
            OperatorKind::Membership,
            is_reversed(reverse_names(reverse), field@),
        ),
{
    resolve_operator(reverse, field, OperatorKind::Membership)
}

/// `LIKE`, or `NOT LIKE` if the reverse set names the field.
pub fn like_or_not(reverse: Option<&ahash::HashSet<String>>, field: &str) -> (op: &'static str)
    ensures
        op@ == operator_text(
            OperatorKind::Pattern,
            is_reversed(reverse_names(reverse), field@),
        ),
{
    resolve_operator(reverse, field, OperatorKind::Pattern)
}

} // verus!
