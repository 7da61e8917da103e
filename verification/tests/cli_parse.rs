use stock_control::cli::{parse_args, parse_datetime, Command};
use stock_control::models::Timestamp;

fn args(s: &str) -> Vec<String> {
    s.split_whitespace().map(String::from).collect()
}

#[test]
fn test_parse_help() {
    assert_eq!(parse_args(&args("prog help")).unwrap(), Command::Help);
    assert_eq!(parse_args(&args("prog --help")).unwrap(), Command::Help);
    assert_eq!(parse_args(&args("prog -h")).unwrap(), Command::Help);
    assert_eq!(parse_args(&args("prog")).unwrap(), Command::Help);
}

#[test]
fn test_parse_add_product() {
    let result = parse_args(&args("prog add-product SKU001 Widget Description 100 20")).unwrap();
    assert_eq!(
        result,
        Command::AddProduct {
            sku: "SKU001".to_string(),
            name: "Widget".to_string(),
            description: "Description".to_string(),
            quantity: 100,
            reorder_point: 20,
        }
    );
}

#[test]
fn test_parse_add_product_missing_args() {
    let result = parse_args(&args("prog add-product SKU001 Widget"));
    assert!(result.is_err());
}

#[test]
fn test_parse_update_product() {
    let result =
        parse_args(&args("prog update-product SKU001 --name NewName --reorder-point 30")).unwrap();
    assert_eq!(
        result,
        Command::UpdateProduct {
            sku: "SKU001".to_string(),
            name: Some("NewName".to_string()),
            description: None,
            reorder_point: Some(30),
        }
    );
}

#[test]
fn test_parse_add_stock() {
    let result = parse_args(&args("prog add-stock SKU001 50")).unwrap();
    assert_eq!(
        result,
        Command::AddStock { sku: "SKU001".to_string(), quantity: 50, notes: None }
    );
}

#[test]
fn test_parse_add_stock_with_notes() {
    let result = parse_args(&args("prog add-stock SKU001 50 --notes Shipment")).unwrap();
    assert_eq!(
        result,
        Command::AddStock {
            sku: "SKU001".to_string(),
            quantity: 50,
            notes: Some("Shipment".to_string()),
        }
    );
}

#[test]
fn test_parse_remove_stock() {
    let result = parse_args(&args("prog remove-stock SKU001 10")).unwrap();
    assert_eq!(
        result,
        Command::RemoveStock { sku: "SKU001".to_string(), quantity: 10, notes: None }
    );
}

#[test]
fn test_parse_view_product() {
    let result = parse_args(&args("prog view-product SKU001")).unwrap();
    assert_eq!(result, Command::ViewProduct { sku: "SKU001".to_string() });
}

#[test]
fn test_parse_list_products() {
    let result = parse_args(&args("prog list-products")).unwrap();
    assert_eq!(result, Command::ListProducts);
}

#[test]
fn test_parse_low_stock() {
    let result = parse_args(&args("prog low-stock")).unwrap();
    assert_eq!(result, Command::LowStock);
}

#[test]
fn test_parse_history() {
    let result = parse_args(&args("prog history SKU001")).unwrap();
    assert_eq!(result, Command::History { sku: "SKU001".to_string(), start: None, end: None });
}

#[test]
fn test_parse_delete_product() {
    let result = parse_args(&args("prog delete-product SKU001")).unwrap();
    assert_eq!(result, Command::DeleteProduct { sku: "SKU001".to_string() });
}

#[test]
fn test_parse_unknown_command() {
    let result = parse_args(&args("prog unknown-cmd"));
    assert!(result.is_err());
    assert!(result.unwrap_err().contains("Unknown command"));
}

#[test]
fn test_parse_invalid_quantity() {
    let result = parse_args(&args("prog add-product SKU001 Widget Desc abc 20"));
    assert!(result.is_err());
    assert!(result.unwrap_err().contains("Invalid quantity"));
}

#[test]
fn unknown_command_message_is_exact() {
    assert_eq!(
        parse_args(&args("prog frobnicate")).unwrap_err(),
        "Unknown command: 'frobnicate'. Use 'help' to see available commands."
    );
}

#[test]
fn usage_messages_are_exact() {
    assert_eq!(
        parse_args(&args("prog add-product SKU001")).unwrap_err(),
        "Usage: add-product <sku> <name> <description> <quantity> <reorder_point>\nExample: add-product SKU001 \"Widget\" \"A useful widget\" 100 20"
    );
    assert_eq!(
        parse_args(&args("prog update-product")).unwrap_err(),
        "Usage: update-product <sku> [--name <name>] [--description <desc>] [--reorder-point <n>]\nExample: update-product SKU001 --name \"New Name\" --reorder-point 30"
    );
    assert_eq!(
        parse_args(&args("prog add-stock SKU001")).unwrap_err(),
        "Usage: add-stock <sku> <quantity> [--notes <notes>]\nExample: add-stock SKU001 50 --notes \"Received shipment\""
    );
    assert_eq!(
        parse_args(&args("prog remove-stock")).unwrap_err(),
        "Usage: remove-stock <sku> <quantity> [--notes <notes>]\nExample: remove-stock SKU001 10 --notes \"Sold to customer\""
    );
    assert_eq!(
        parse_args(&args("prog view-product")).unwrap_err(),
        "Usage: view-product <sku>\nExample: view-product SKU001"
    );
    assert_eq!(
        parse_args(&args("prog history")).unwrap_err(),
        "Usage: history <sku> [--start <datetime>] [--end <datetime>]\nExample: history SKU001 --start 2025-01-01T00:00:00 --end 2025-12-31T23:59:59"
    );
    assert_eq!(
        parse_args(&args("prog delete-product")).unwrap_err(),
        "Usage: delete-product <sku>\nExample: delete-product SKU001"
    );
}

#[test]
fn amounts_that_are_no_numbers_are_named() {
    assert_eq!(
        parse_args(&args("prog add-product S W D abc 20")).unwrap_err(),
        "Invalid quantity 'abc': must be a non-negative integer"
    );
    assert_eq!(
        parse_args(&args("prog add-product S W D 1 -2")).unwrap_err(),
        "Invalid reorder point '-2': must be a non-negative integer"
    );
    assert_eq!(
        parse_args(&args("prog add-stock S 4294967296")).unwrap_err(),
        "Invalid quantity '4294967296': must be a positive integer"
    );
    assert_eq!(
        parse_args(&args("prog remove-stock S 1.5")).unwrap_err(),
        "Invalid quantity '1.5': must be a positive integer"
    );
    assert_eq!(
        parse_args(&args("prog update-product S --reorder-point x")).unwrap_err(),
        "Invalid reorder point 'x': must be a non-negative integer"
    );
}

#[test]
fn update_options_in_any_order_and_the_last_wins() {
    let result = parse_args(&args(
        "prog update-product S --reorder-point 3 --description d --name a --name b",
    ))
    .unwrap();
    assert_eq!(
        result,
        Command::UpdateProduct {
            sku: "S".to_string(),
            name: Some("b".to_string()),
            description: Some("d".to_string()),
            reorder_point: Some(3),
        }
    );
}

#[test]
fn update_options_without_value_or_unknown() {
    assert_eq!(
        parse_args(&args("prog update-product S --name")).unwrap_err(),
        "--name requires a value"
    );
    assert_eq!(
        parse_args(&args("prog update-product S --description")).unwrap_err(),
        "--description requires a value"
    );
    assert_eq!(
        parse_args(&args("prog update-product S --reorder-point")).unwrap_err(),
        "--reorder-point requires a value"
    );
    assert_eq!(
        parse_args(&args("prog update-product S --colour red")).unwrap_err(),
        "Unknown option: '--colour'. Valid options: --name, --description, --reorder-point"
    );
}

#[test]
fn notes_need_a_value_and_other_words_are_ignored() {
    assert_eq!(
        parse_args(&args("prog add-stock S 5 --notes")).unwrap_err(),
        "--notes requires a value"
    );
    assert_eq!(
        parse_args(&args("prog remove-stock S 5 --notes")).unwrap_err(),
        "--notes requires a value"
    );
    assert_eq!(
        parse_args(&args("prog add-stock S 5 extra words")).unwrap(),
        Command::AddStock { sku: "S".to_string(), quantity: 5, notes: None }
    );
    assert_eq!(
        parse_args(&args("prog remove-stock S 5 --notes sold again")).unwrap(),
        Command::RemoveStock { sku: "S".to_string(), quantity: 5, notes: Some("sold".to_string()) }
    );
}

#[test]
fn history_reads_both_instants() {
    let result = parse_args(&args(
        "prog history SKU001 --start 2025-01-01T00:00:00 --end 2025-12-31T23:59:59",
    ))
    .unwrap();
    assert_eq!(
        result,
        Command::History {
            sku: "SKU001".to_string(),
            start: Some(Timestamp::new(1735689600, 0)),
            end: Some(Timestamp::new(1767225599, 0)),
        }
    );
}

#[test]
fn history_options_without_value_or_unknown_or_malformed() {
    assert_eq!(
        parse_args(&args("prog history S --start")).unwrap_err(),
        "--start requires a datetime value (e.g., 2025-01-01T00:00:00)"
    );
    assert_eq!(
        parse_args(&args("prog history S --end")).unwrap_err(),
        "--end requires a datetime value (e.g., 2025-12-31T23:59:59)"
    );
    assert_eq!(
        parse_args(&args("prog history S --from x")).unwrap_err(),
        "Unknown option: '--from'. Valid options: --start, --end"
    );
    assert_eq!(
        parse_args(&args("prog history S --start yesterday")).unwrap_err(),
        "Invalid datetime 'yesterday': expected format YYYY-MM-DDTHH:MM:SS"
    );
    assert_eq!(
        parse_args(&args("prog history S --end 2025-02-30T00:00:00")).unwrap_err(),
        "Invalid datetime '2025-02-30T00:00:00': expected format YYYY-MM-DDTHH:MM:SS"
    );
}

#[test]
fn datetime_is_read_as_utc() {
    assert_eq!(parse_datetime("1970-01-01T00:00:00").unwrap(), Timestamp::new(0, 0));
    assert_eq!(parse_datetime("2015-05-15T00:00:00").unwrap(), Timestamp::new(1431648000, 0));
    assert_eq!(parse_datetime("1969-12-31T23:59:59").unwrap(), Timestamp::new(-1, 0));
    assert!(parse_datetime("2015-05-15 00:00:00").is_err());
    assert!(parse_datetime("").is_err());
}
