use ucanduit::error::StoreError;

#[test]
fn directory_create_message() {
    let e = StoreError::DirectoryCreate(String::from("Permission denied (os error 13)"));
    assert_eq!(e.message(), "Failed to create app directory: Permission denied (os error 13)");
}

#[test]
fn serialization_message() {
    let e = StoreError::Serialization(String::from("key must be a string"));
    assert_eq!(e.message(), "Failed to serialize JSON: key must be a string");
}

#[test]
fn write_message() {
    let e = StoreError::Write(String::from("No space left on device (os error 28)"));
    assert_eq!(e.message(), "Failed to write file: No space left on device (os error 28)");
}

#[test]
fn file_not_found_message() {
    let e = StoreError::FileNotFound(String::from("tasks.json"));
    assert_eq!(e.message(), "File does not exist: tasks.json");
}

#[test]
fn read_message() {
    let e = StoreError::Read(String::from("stream did not contain valid UTF-8"));
    assert_eq!(e.message(), "Failed to read file: stream did not contain valid UTF-8");
}

#[test]
fn parse_message() {
    let e = StoreError::Parse(String::from("expected value at line 1 column 1"));
    assert_eq!(e.message(), "Failed to parse JSON: expected value at line 1 column 1");
}

#[test]
fn message_with_empty_detail_is_the_prefix() {
    assert_eq!(StoreError::FileNotFound(String::new()).message(), "File does not exist: ");
    assert_eq!(StoreError::Write(String::new()).message(), "Failed to write file: ");
}

#[test]
fn message_keeps_non_ascii_detail() {
    let e = StoreError::FileNotFound(String::from("donn\u{e9}es.json"));
    assert_eq!(e.message(), "File does not exist: donn\u{e9}es.json");
}
