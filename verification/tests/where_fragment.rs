use ahash::HashSet;
use order_query::field::FilterField;
use order_query::order::{OrderCurrency, OrderPaymentStatus, OrderType};
use order_query::query::GetOrdersQuery;

fn names(list: &[&str]) -> HashSet<String> {
    list.iter().map(|s| s.to_string()).collect()
}

/// Splits `prefix(a,b,c)` into the prefix and the sorted members.
fn membership(clause: &str) -> (String, Vec<String>) {
    let open = clause.find('(').unwrap();
    assert!(clause.ends_with(')'));
    let mut members: Vec<String> = clause[open + 1..clause.len() - 1]
        .split(',')
        .map(|s| s.to_string())
        .collect();
    members.sort();
    (clause[..open].to_string(), members)
}

#[test]
fn empty_request_compiles_to_nothing() {
    let q = GetOrdersQuery::empty();
    assert_eq!(q.get_where_condition(), "");
    assert_eq!(q.get_order_condition(), "");
}

#[test]
fn empty_request_has_no_field() {
    let q = GetOrdersQuery::empty();
    assert!(q.id.is_none());
    assert!(q.created_by_user_id.is_none());
    assert!(q.updated_by_user_id.is_none());
    assert!(q.fuzzy.is_none());
    assert!(q.warehouse_ids.is_none());
    assert!(q.person_related_id.is_none());
    assert!(q.person_in_charge_id.is_none());
    assert!(q.order_payment_status.is_none());
    assert!(q.order_type.is_none());
    assert!(q.order_category_id.is_none());
    assert!(q.currency.is_none());
    assert!(q.date_start.is_none());
    assert!(q.date_end.is_none());
    assert!(q.last_updated_date_start.is_none());
    assert!(q.last_updated_date_end.is_none());
    assert!(q.sorters.is_none());
    assert!(q.reverse.is_none());
}

#[test]
fn reverse_alone_adds_no_clause() {
    let mut q = GetOrdersQuery::empty();
    q.reverse = Some(names(&["id", "fuzzy", "warehouse_ids", "date_start"]));
    assert_eq!(q.get_where_condition(), "");
}

#[test]
fn single_id_is_one_equality_clause() {
    let mut q = GetOrdersQuery::empty();
    q.id = Some(42);
    assert_eq!(q.get_where_condition(), "WHERE orders.id=42");
}

#[test]
fn reversed_id_is_one_inequality_clause() {
    let mut q = GetOrdersQuery::empty();
    q.id = Some(42);
    q.reverse = Some(names(&["id"]));
    assert_eq!(q.get_where_condition(), "WHERE orders.id!=42");
}

#[test]
fn reverse_of_another_field_leaves_the_clause() {
    let mut q = GetOrdersQuery::empty();
    q.id = Some(42);
    q.reverse = Some(names(&["created_by_user_id", "ID", "orders.id"]));
    assert_eq!(q.get_where_condition(), "WHERE orders.id=42");
}

#[test]
fn empty_reverse_set_negates_nothing() {
    let mut q = GetOrdersQuery::empty();
    q.id = Some(1);
    q.reverse = Some(names(&[]));
    assert_eq!(q.get_where_condition(), "WHERE orders.id=1");
}

#[test]
fn each_numeric_equality_field_has_its_column() {
    let mut q = GetOrdersQuery::empty();
    q.created_by_user_id = Some(7);
    assert_eq!(q.get_where_condition(), "WHERE orders.created_by_user_id=7");

    let mut q = GetOrdersQuery::empty();
    q.updated_by_user_id = Some(8);
    assert_eq!(q.get_where_condition(), "WHERE orders.updated_by_user_id=8");

    let mut q = GetOrdersQuery::empty();
    q.person_related_id = Some(9);
    assert_eq!(q.get_where_condition(), "WHERE orders.person_related_id=9");

    let mut q = GetOrdersQuery::empty();
    q.person_in_charge_id = Some(10);
    assert_eq!(q.get_where_condition(), "WHERE orders.person_in_charge_id=10");

    let mut q = GetOrdersQuery::empty();
    q.order_category_id = Some(11);
    assert_eq!(q.get_where_condition(), "WHERE orders.order_category_id=11");
}

#[test]
fn each_numeric_equality_field_can_be_reversed() {
    let mut q = GetOrdersQuery::empty();
    q.created_by_user_id = Some(7);
    q.reverse = Some(names(&["created_by_user_id"]));
    assert_eq!(q.get_where_condition(), "WHERE orders.created_by_user_id!=7");

    let mut q = GetOrdersQuery::empty();
    q.updated_by_user_id = Some(8);
    q.reverse = Some(names(&["updated_by_user_id"]));
    assert_eq!(q.get_where_condition(), "WHERE orders.updated_by_user_id!=8");

    let mut q = GetOrdersQuery::empty();
    q.person_related_id = Some(9);
    q.reverse = Some(names(&["person_related_id"]));
    assert_eq!(q.get_where_condition(), "WHERE orders.person_related_id!=9");

    let mut q = GetOrdersQuery::empty();
    q.person_in_charge_id = Some(10);
    q.reverse = Some(names(&["person_in_charge_id"]));
    assert_eq!(q.get_where_condition(), "WHERE orders.person_in_charge_id!=10");

    let mut q = GetOrdersQuery::empty();
    q.order_category_id = Some(11);
    q.reverse = Some(names(&["order_category_id"]));
    assert_eq!(q.get_where_condition(), "WHERE orders.order_category_id!=11");
}

#[test]
fn negative_and_extreme_numbers_are_written_in_decimal() {
    let mut q = GetOrdersQuery::empty();
    q.id = Some(-5);
    assert_eq!(q.get_where_condition(), "WHERE orders.id=-5");
    q.id = Some(0);
    assert_eq!(q.get_where_condition(), "WHERE orders.id=0");
    q.id = Some(i64::MIN);
    assert_eq!(q.get_where_condition(), "WHERE orders.id=-9223372036854775808");
    q.id = Some(i64::MAX);
    assert_eq!(q.get_where_condition(), "WHERE orders.id=9223372036854775807");
}

#[test]
fn enum_fields_are_quoted_by_name() {
    let mut q = GetOrdersQuery::empty();
    q.order_type = Some(OrderType::StockIn);
    assert_eq!(q.get_where_condition(), "WHERE orders.order_type='StockIn'");
    q.reverse = Some(names(&["order_type"]));
    assert_eq!(q.get_where_condition(), "WHERE orders.order_type!='StockIn'");

    let mut q = GetOrdersQuery::empty();
    q.currency = Some(OrderCurrency::USD);
    assert_eq!(q.get_where_condition(), "WHERE orders.currency='USD'");
    q.reverse = Some(names(&["currency"]));
    assert_eq!(q.get_where_condition(), "WHERE orders.currency!='USD'");
}

#[test]
fn fuzzy_is_a_disjunction_over_five_columns() {
    let mut q = GetOrdersQuery::empty();
    q.fuzzy = Some("abc".to_string());
    q.reverse = Some(names(&[]));
    assert_eq!(
        q.get_where_condition(),
        "WHERE CAST(orders.id AS TEXT) LIKE '%abc%' OR persons_related.name LIKE '%abc%' \
         OR persons_in_charge.name LIKE '%abc%' OR order_status_list.name LIKE '%abc%' \
         OR warehouses.name LIKE '%abc%'"
    );
}

#[test]
fn reversed_fuzzy_flips_every_disjunct() {
    let mut q = GetOrdersQuery::empty();
    q.fuzzy = Some("abc".to_string());
    q.reverse = Some(names(&["fuzzy"]));
    assert_eq!(
        q.get_where_condition(),
        "WHERE CAST(orders.id AS TEXT) NOT LIKE '%abc%' OR persons_related.name NOT LIKE '%abc%' \
         OR persons_in_charge.name NOT LIKE '%abc%' OR order_status_list.name NOT LIKE '%abc%' \
         OR warehouses.name NOT LIKE '%abc%'"
    );
}

#[test]
fn fuzzy_value_is_taken_as_it_is() {
    let mut q = GetOrdersQuery::empty();
    q.fuzzy = Some("".to_string());
    let text = q.get_where_condition();
    assert!(text.starts_with("WHERE CAST(orders.id AS TEXT) LIKE '%%' OR "));
    q.fuzzy = Some("gr\u{fc}n 100%".to_string());
    let text = q.get_where_condition();
    assert!(text.ends_with(" OR warehouses.name LIKE '%gr\u{fc}n 100%%'"));
    assert_eq!(text.matches(" OR ").count(), 4);
}

#[test]
fn warehouse_ids_are_a_membership_clause() {
    let mut q = GetOrdersQuery::empty();
    q.warehouse_ids = Some([1i64, 2, 3].into_iter().collect());
    let text = q.get_where_condition();
    let (prefix, members) = membership(text.strip_prefix("WHERE ").unwrap());
    assert_eq!(prefix, "orders.warehouse_id IN ");
    assert_eq!(members, vec!["1", "2", "3"]);
}

#[test]
fn reversed_warehouse_ids_are_excluded() {
    let mut q = GetOrdersQuery::empty();
    q.warehouse_ids = Some([1i64, 2, 3].into_iter().collect());
    q.reverse = Some(names(&["warehouse_ids"]));
    let text = q.get_where_condition();
    let (prefix, members) = membership(text.strip_prefix("WHERE ").unwrap());
    assert_eq!(prefix, "orders.warehouse_id NOT IN ");
    assert_eq!(members, vec!["1", "2", "3"]);
}

#[test]
fn single_and_empty_warehouse_sets() {
    let mut q = GetOrdersQuery::empty();
    q.warehouse_ids = Some([-17i64].into_iter().collect());
    assert_eq!(q.get_where_condition(), "WHERE orders.warehouse_id IN (-17)");
    q.warehouse_ids = Some(HashSet::default());
    assert_eq!(q.get_where_condition(), "WHERE orders.warehouse_id IN ()");
}

#[test]
fn many_warehouse_ids_each_appear_once() {
    let mut q = GetOrdersQuery::empty();
    q.warehouse_ids = Some((0i64..200).collect());
    let text = q.get_where_condition();
    let (_, members) = membership(text.strip_prefix("WHERE ").unwrap());
    let mut expected: Vec<String> = (0i64..200).map(|v| v.to_string()).collect();
    expected.sort();
    assert_eq!(members, expected);
}

#[test]
fn payment_statuses_are_quoted_members() {
    let mut q = GetOrdersQuery::empty();
    q.order_payment_status = Some([OrderPaymentStatus::Settled].into_iter().collect());
    assert_eq!(
        q.get_where_condition(),
        "WHERE orders.order_payment_status IN ('Settled')"
    );
    q.reverse = Some(names(&["order_payment_status"]));
    assert_eq!(
        q.get_where_condition(),
        "WHERE orders.order_payment_status NOT IN ('Settled')"
    );
}

#[test]
fn several_payment_statuses_each_appear_once() {
    let mut q = GetOrdersQuery::empty();
    q.order_payment_status = Some(
        [
            OrderPaymentStatus::Settled,
            OrderPaymentStatus::Unsettled,
            OrderPaymentStatus::PartialSettled,
            OrderPaymentStatus::NoPayment,
        ]
        .into_iter()
        .collect(),
    );
    let text = q.get_where_condition();
    let (prefix, members) = membership(text.strip_prefix("WHERE ").unwrap());
    assert_eq!(prefix, "orders.order_payment_status IN ");
    assert_eq!(
        members,
        vec!["'None'", "'PartialSettled'", "'Settled'", "'Unsettled'"]
    );
}

#[test]
fn empty_payment_status_set_is_one_empty_name() {
    let mut q = GetOrdersQuery::empty();
    q.order_payment_status = Some(HashSet::default());
    assert_eq!(
        q.get_where_condition(),
        "WHERE orders.order_payment_status IN ('')"
    );
}

#[test]
fn date_range_is_two_inclusive_bounds() {
    let mut q = GetOrdersQuery::empty();
    q.date_start = Some(100);
    q.date_end = Some(200);
    assert_eq!(
        q.get_where_condition(),
        "WHERE orders.date>=100 AND orders.date<=200"
    );
}

#[test]
fn date_range_cannot_be_reversed() {
    let mut q = GetOrdersQuery::empty();
    q.date_start = Some(100);
    q.date_end = Some(200);
    q.reverse = Some(names(&["date_start", "date_end", "date", "id"]));
    assert_eq!(
        q.get_where_condition(),
        "WHERE orders.date>=100 AND orders.date<=200"
    );
}

#[test]
fn one_sided_date_ranges() {
    let mut q = GetOrdersQuery::empty();
    q.date_start = Some(100);
    assert_eq!(q.get_where_condition(), "WHERE orders.date>=100");
    let mut q = GetOrdersQuery::empty();
    q.date_end = Some(200);
    assert_eq!(q.get_where_condition(), "WHERE orders.date<=200");
}

#[test]
fn last_updated_range_names_its_own_columns() {
    let mut q = GetOrdersQuery::empty();
    q.last_updated_date_start = Some(5);
    q.last_updated_date_end = Some(6);
    q.reverse = Some(names(&["last_updated_date_start", "last_updated_date_end"]));
    assert_eq!(
        q.get_where_condition(),
        "WHERE orders.last_updated_date_start>=5 AND orders.last_updated_date_end<=6"
    );
}

fn full_request() -> GetOrdersQuery {
    let mut q = GetOrdersQuery::empty();
    q.id = Some(1);
    q.created_by_user_id = Some(2);
    q.updated_by_user_id = Some(3);
    q.fuzzy = Some("x".to_string());
    q.warehouse_ids = Some([4i64].into_iter().collect());
    q.person_related_id = Some(5);
    q.person_in_charge_id = Some(6);
    q.order_type = Some(OrderType::Return);
    q.order_payment_status = Some([OrderPaymentStatus::NoPayment].into_iter().collect());
    q.order_category_id = Some(7);
    q.currency = Some(OrderCurrency::Unknown);
    q.date_start = Some(8);
    q.date_end = Some(9);
    q.last_updated_date_start = Some(10);
    q.last_updated_date_end = Some(11);
    q
}

#[test]
fn all_fields_are_joined_in_declared_order() {
    let q = full_request();
    assert_eq!(
        q.get_where_condition(),
        "WHERE orders.id=1 AND orders.created_by_user_id=2 AND orders.updated_by_user_id=3 \
         AND CAST(orders.id AS TEXT) LIKE '%x%' OR persons_related.name LIKE '%x%' \
         OR persons_in_charge.name LIKE '%x%' OR order_status_list.name LIKE '%x%' \
         OR warehouses.name LIKE '%x%' AND orders.warehouse_id IN (4) \
         AND orders.person_related_id=5 AND orders.person_in_charge_id=6 \
         AND orders.order_type='Return' AND orders.order_payment_status IN ('None') \
         AND orders.order_category_id=7 AND orders.currency='Unknown' \
         AND orders.date>=8 AND orders.date<=9 \
         AND orders.last_updated_date_start>=10 AND orders.last_updated_date_end<=11"
    );
}

#[test]
fn all_fields_reversed_negate_all_but_the_bounds() {
    let mut q = full_request();
    q.reverse = Some(names(&[
        "id",
        "created_by_user_id",
        "updated_by_user_id",
        "fuzzy",
        "warehouse_ids",
        "person_related_id",
        "person_in_charge_id",
        "order_type",
        "order_payment_status",
        "order_category_id",
        "currency",
        "date_start",
        "date_end",
        "last_updated_date_start",
        "last_updated_date_end",
    ]));
    assert_eq!(
        q.get_where_condition(),
        "WHERE orders.id!=1 AND orders.created_by_user_id!=2 AND orders.updated_by_user_id!=3 \
         AND CAST(orders.id AS TEXT) NOT LIKE '%x%' OR persons_related.name NOT LIKE '%x%' \
         OR persons_in_charge.name NOT LIKE '%x%' OR order_status_list.name NOT LIKE '%x%' \
         OR warehouses.name NOT LIKE '%x%' AND orders.warehouse_id NOT IN (4) \
         AND orders.person_related_id!=5 AND orders.person_in_charge_id!=6 \
         AND orders.order_type!='Return' AND orders.order_payment_status NOT IN ('None') \
         AND orders.order_category_id!=7 AND orders.currency!='Unknown' \
         AND orders.date>=8 AND orders.date<=9 \
         AND orders.last_updated_date_start>=10 AND orders.last_updated_date_end<=11"
    );
}

#[test]
fn reversing_one_field_leaves_the_other_clauses() {
    let mut q = GetOrdersQuery::empty();
    q.id = Some(1);
    q.person_related_id = Some(5);
    q.currency = Some(OrderCurrency::GBP);
    q.reverse = Some(names(&["person_related_id"]));
    assert_eq!(
        q.get_where_condition(),
        "WHERE orders.id=1 AND orders.person_related_id!=5 AND orders.currency='GBP'"
    );
}

#[test]
fn sorters_add_nothing_to_the_where_fragment() {
    let mut q = GetOrdersQuery::empty();
    q.sorters = Some(vec!["id:desc".to_string()]);
    assert_eq!(q.get_where_condition(), "");
}

#[test]
fn walked_sets_are_rendered_in_the_given_order() {
    let mut q = GetOrdersQuery::empty();
    q.warehouse_ids = Some([1i64, 2, 3].into_iter().collect());
    q.order_payment_status = Some(
        [OrderPaymentStatus::Settled, OrderPaymentStatus::Unsettled]
            .into_iter()
            .collect(),
    );
    let text = q.where_condition_walked(
        &vec![3, 1, 2],
        &vec![OrderPaymentStatus::Unsettled, OrderPaymentStatus::Settled],
    );
    assert_eq!(
        text,
        "WHERE orders.warehouse_id IN (3,1,2) \
         AND orders.order_payment_status IN ('Unsettled','Settled')"
    );
}

#[test]
fn walks_of_absent_sets_are_not_looked_at() {
    let mut q = GetOrdersQuery::empty();
    q.id = Some(1);
    let text = q.where_condition_walked(&vec![3, 1, 2], &vec![OrderPaymentStatus::Settled]);
    assert_eq!(text, "WHERE orders.id=1");
}

#[test]
fn clause_of_gives_each_present_field_its_clause() {
    let q = full_request();
    let ids = vec![4i64];
    let statuses = vec![OrderPaymentStatus::NoPayment];
    let clause = |f: FilterField| q.clause_of(f, &ids, &statuses);
    assert_eq!(clause(FilterField::Id).as_deref(), Some("orders.id=1"));
    assert_eq!(
        clause(FilterField::WarehouseIds).as_deref(),
        Some("orders.warehouse_id IN (4)")
    );
    assert_eq!(
        clause(FilterField::OrderType).as_deref(),
        Some("orders.order_type='Return'")
    );
    assert_eq!(clause(FilterField::DateEnd).as_deref(), Some("orders.date<=9"));
    assert_eq!(
        clause(FilterField::LastUpdatedDateStart).as_deref(),
        Some("orders.last_updated_date_start>=10")
    );
    let q = GetOrdersQuery::empty();
    assert_eq!(q.clause_of(FilterField::Id, &ids, &statuses), None);
    assert_eq!(q.clause_of(FilterField::WarehouseIds, &ids, &statuses), None);
    assert_eq!(q.clause_of(FilterField::Fuzzy, &ids, &statuses), None);
}

#[test]
fn value_of_gives_each_present_field_its_value() {
    let q = full_request();
    let ids = vec![4i64, 40];
    let statuses = vec![OrderPaymentStatus::NoPayment, OrderPaymentStatus::Settled];
    let value = |f: FilterField| q.value_of(f, &ids, &statuses);
    assert_eq!(value(FilterField::Id).as_deref(), Some("1"));
    assert_eq!(value(FilterField::Fuzzy).as_deref(), Some("x"));
    assert_eq!(value(FilterField::WarehouseIds).as_deref(), Some("(4,40)"));
    assert_eq!(
        value(FilterField::OrderPaymentStatus).as_deref(),
        Some("('None','Settled')")
    );
    assert_eq!(value(FilterField::Currency).as_deref(), Some("'Unknown'"));
    assert_eq!(value(FilterField::LastUpdatedDateEnd).as_deref(), Some("11"));
    assert_eq!(GetOrdersQuery::empty().value_of(FilterField::Currency, &ids, &statuses), None);
}
