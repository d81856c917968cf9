use order_query::query::GetOrdersQuery;
use order_query::sorter::{
    get_sort_col_str, get_sorter_str, order_condition, parse_sort_token, sort_term, sort_token,
    SortDirection,
};

fn sorted_by(tokens: &[&str]) -> GetOrdersQuery {
    let mut q = GetOrdersQuery::empty();
    q.sorters = Some(tokens.iter().map(|s| s.to_string()).collect());
    q
}

#[test]
fn no_sort_list_and_empty_sort_list_compile_to_nothing() {
    assert_eq!(GetOrdersQuery::empty().get_order_condition(), "");
    assert_eq!(sorted_by(&[]).get_order_condition(), "");
    assert_eq!(order_condition(&vec![]), "");
}

#[test]
fn warehouse_id_sorts_by_the_joined_name() {
    assert_eq!(sort_term("warehouse_id:desc"), "warehouse_name desc");
    assert_eq!(
        sorted_by(&["warehouse_id:desc"]).get_order_condition(),
        "ORDER BY warehouse_name desc"
    );
}

#[test]
fn token_without_direction_sorts_ascending() {
    assert_eq!(sort_term("id"), "orders.id asc");
    assert_eq!(sorted_by(&["id"]).get_order_condition(), "ORDER BY orders.id asc");
}

#[test]
fn every_foreign_key_is_remapped() {
    assert_eq!(sort_term("warehouse_id"), "warehouse_name asc");
    assert_eq!(sort_term("person_related_id:desc"), "person_related_name desc");
    assert_eq!(sort_term("person_in_charge_id:asc"), "person_in_charge_name asc");
    assert_eq!(sort_term("order_category_id:desc"), "order_status_name desc");
}

#[test]
fn other_columns_are_qualified_by_the_order_table() {
    assert_eq!(sort_term("date:desc"), "orders.date desc");
    assert_eq!(sort_term("total_amount:asc"), "orders.total_amount asc");
    assert_eq!(sort_term("warehouse_ids:desc"), "orders.warehouse_ids desc");
    assert_eq!(sort_term("Warehouse_id:desc"), "orders.Warehouse_id desc");
    assert_eq!(sort_term(""), "orders. asc");
}

#[test]
fn terms_follow_the_tokens_in_order() {
    let q = sorted_by(&["date:desc", "warehouse_id", "id:asc", "person_related_id:desc"]);
    assert_eq!(
        q.get_order_condition(),
        "ORDER BY orders.date desc, warehouse_name asc, orders.id asc, person_related_name desc"
    );
}

#[test]
fn repeated_tokens_are_kept() {
    let q = sorted_by(&["id", "id:desc", "id"]);
    assert_eq!(
        q.get_order_condition(),
        "ORDER BY orders.id asc, orders.id desc, orders.id asc"
    );
}

#[test]
fn filter_fields_add_nothing_to_the_order_fragment() {
    let mut q = GetOrdersQuery::empty();
    q.id = Some(1);
    q.fuzzy = Some("x".to_string());
    assert_eq!(q.get_order_condition(), "");
}

#[test]
fn token_is_split_at_its_first_colon() {
    assert_eq!(
        parse_sort_token("id:desc"),
        ("id".to_string(), SortDirection::Descending)
    );
    assert_eq!(
        parse_sort_token("id:asc"),
        ("id".to_string(), SortDirection::Ascending)
    );
    assert_eq!(parse_sort_token("id"), ("id".to_string(), SortDirection::Ascending));
    assert_eq!(parse_sort_token("id:"), ("id".to_string(), SortDirection::Ascending));
    assert_eq!(parse_sort_token(""), ("".to_string(), SortDirection::Ascending));
    assert_eq!(parse_sort_token(":"), ("".to_string(), SortDirection::Ascending));
    assert_eq!(parse_sort_token(":desc"), ("".to_string(), SortDirection::Descending));
}

#[test]
fn malformed_direction_falls_back_to_ascending() {
    assert_eq!(parse_sort_token("id:DESC").1, SortDirection::Ascending);
    assert_eq!(parse_sort_token("id:descending").1, SortDirection::Ascending);
    assert_eq!(parse_sort_token("id: desc").1, SortDirection::Ascending);
    assert_eq!(parse_sort_token("id:desc ").1, SortDirection::Ascending);
    assert_eq!(parse_sort_token("id:des").1, SortDirection::Ascending);
    assert_eq!(parse_sort_token("id:desc:desc").1, SortDirection::Ascending);
    assert_eq!(parse_sort_token("id::desc").1, SortDirection::Ascending);
    assert_eq!(parse_sort_token("id:up").1, SortDirection::Ascending);
    assert_eq!(parse_sort_token("a:b:desc").0, "a");
}

#[test]
fn tokens_with_wide_characters_are_split_by_character() {
    assert_eq!(
        parse_sort_token("gr\u{f6}\u{df}e:desc"),
        ("gr\u{f6}\u{df}e".to_string(), SortDirection::Descending)
    );
    assert_eq!(
        parse_sort_token("\u{1f600}:desc"),
        ("\u{1f600}".to_string(), SortDirection::Descending)
    );
    assert_eq!(
        parse_sort_token("id:d\u{e9}sc"),
        ("id".to_string(), SortDirection::Ascending)
    );
    assert_eq!(sort_term("\u{540d}\u{524d}:desc"), "orders.\u{540d}\u{524d} desc");
}

#[test]
fn column_and_keyword_of_a_token() {
    assert_eq!(get_sort_col_str("warehouse_id:desc"), "warehouse_id");
    assert_eq!(get_sorter_str("warehouse_id:desc"), "desc");
    assert_eq!(get_sort_col_str("id"), "id");
    assert_eq!(get_sorter_str("id"), "asc");
    assert_eq!(get_sorter_str("id:sideways"), "asc");
}

#[test]
fn direction_keywords() {
    assert_eq!(SortDirection::Ascending.as_str(), "asc");
    assert_eq!(SortDirection::Descending.as_str(), "desc");
}

#[test]
fn written_tokens_read_back() {
    for column in ["id", "warehouse_id", "date", "", "gr\u{f6}\u{df}e", "a b"] {
        for direction in [SortDirection::Ascending, SortDirection::Descending] {
            let token = sort_token(column, direction);
            assert_eq!(parse_sort_token(&token), (column.to_string(), direction));
        }
    }
    assert_eq!(sort_token("id", SortDirection::Descending), "id:desc");
    assert_eq!(sort_token("id", SortDirection::Ascending), "id:asc");
}

#[test]
fn written_token_list_compiles_in_order_with_its_directions() {
    let sorts = [
        ("date", SortDirection::Descending),
        ("warehouse_id", SortDirection::Ascending),
        ("order_category_id", SortDirection::Descending),
        ("id", SortDirection::Ascending),
    ];
    let tokens: Vec<String> = sorts.iter().map(|(c, d)| sort_token(c, *d)).collect();
    let reread: Vec<(String, SortDirection)> =
        tokens.iter().map(|t| parse_sort_token(t)).collect();
    for (i, (column, direction)) in sorts.iter().enumerate() {
        assert_eq!(reread[i].0, *column);
        assert_eq!(reread[i].1, *direction);
    }
    assert_eq!(
        order_condition(&tokens),
        "ORDER BY orders.date desc, warehouse_name asc, order_status_name desc, orders.id asc"
    );
}

#[test]
fn compiled_fragment_reads_back_in_order() {
    let tokens: Vec<String> = ["date:desc", "id", "warehouse_id:desc", "currency:asc", "id:desc"]
        .iter()
        .map(|s| s.to_string())
        .collect();
    let text = order_condition(&tokens);
    let terms: Vec<&str> = text.strip_prefix("ORDER BY ").unwrap().split(", ").collect();
    assert_eq!(terms.len(), tokens.len());
    for (term, token) in terms.iter().zip(&tokens) {
        let (column, direction) = parse_sort_token(token);
        let (written_column, written_direction) = term.rsplit_once(' ').unwrap();
        assert_eq!(written_direction, direction.as_str());
        if column == "warehouse_id" {
            assert_eq!(written_column, "warehouse_name");
        } else {
            assert_eq!(written_column, format!("orders.{}", column));
        }
    }
}
