use stock_control::errors::StorageError;
use stock_control::storage::{
    directory_failure, encode_failure, interpret_read, join_path, parse_failure, read_failure,
    write_failure, FileRead, JsonStorage, Stored,
};

#[test]
fn files_lie_in_the_directory() {
    let s = JsonStorage::new("data");
    assert_eq!(s.products_path(), "data/products.json");
    assert_eq!(s.transactions_path(), "data/transactions.json");
    let s = JsonStorage::new(".");
    assert_eq!(s.products_path(), "./products.json");
    assert_eq!(s.transactions_path(), "./transactions.json");
    let s = JsonStorage::new("/var/lib/stock/");
    assert_eq!(s.products_path(), "/var/lib/stock/products.json");
    let s = JsonStorage::new("");
    assert_eq!(s.products_path(), "products.json");
    assert_eq!(s.transactions_path(), "transactions.json");
}

#[test]
fn joined_paths_are_what_the_standard_library_joins() {
    for dir in ["", ".", "a", "a/", "a/b", "/", "/tmp", "/tmp/", "rel/dir/"] {
        let expected = std::path::Path::new(dir).join("products.json");
        assert_eq!(join_path(dir, "products.json"), expected.to_str().unwrap(), "{:?}", dir);
    }
}

#[test]
fn explicit_paths_are_kept() {
    let s = JsonStorage::with_paths("p.json", "elsewhere/t.json");
    assert_eq!(s.products_path(), "p.json");
    assert_eq!(s.transactions_path(), "elsewhere/t.json");
}

#[test]
fn missing_and_blank_files_hold_nothing() {
    assert!(matches!(interpret_read("f", FileRead::Missing), Ok(Stored::Nothing)));
    assert!(matches!(
        interpret_read("f", FileRead::Contents(String::new())),
        Ok(Stored::Nothing)
    ));
    assert!(matches!(
        interpret_read("f", FileRead::Contents(" \n\t ".to_string())),
        Ok(Stored::Nothing)
    ));
}

#[test]
fn other_text_is_to_be_decoded_as_it_is() {
    match interpret_read("f", FileRead::Contents(" [] \n".to_string())) {
        Ok(Stored::Text(t)) => assert_eq!(t, " [] \n"),
        other => panic!("{:?}", other),
    }
    match interpret_read("f", FileRead::Contents("not valid json {{{".to_string())) {
        Ok(Stored::Text(t)) => assert_eq!(t, "not valid json {{{"),
        other => panic!("{:?}", other),
    }
}

#[test]
fn failed_read_names_file_and_cause() {
    match interpret_read("dir/products.json", FileRead::Failed("permission denied".to_string())) {
        Err(e) => assert_eq!(
            e,
            StorageError::ReadError(
                "Failed to read dir/products.json: permission denied".to_string()
            )
        ),
        other => panic!("{:?}", other),
    }
}

#[test]
fn failures_are_worded() {
    assert_eq!(
        read_failure("p", "c"),
        StorageError::ReadError("Failed to read p: c".to_string())
    );
    assert_eq!(
        parse_failure("p.json", "expected value at line 1 column 1"),
        StorageError::ParseError(
            "Failed to parse p.json: expected value at line 1 column 1".to_string()
        )
    );
    assert_eq!(
        directory_failure("d", "c"),
        StorageError::WriteError("Failed to create directory d: c".to_string())
    );
    assert_eq!(
        encode_failure("c"),
        StorageError::WriteError("Failed to serialize data: c".to_string())
    );
    assert_eq!(
        write_failure("p", "c"),
        StorageError::WriteError("Failed to write p: c".to_string())
    );
}
