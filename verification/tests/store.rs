use serde_json::{Number, Value};
use std::collections::{HashMap, HashSet};
use ucanduit::error::StoreError;
use ucanduit::location::Environment;
use ucanduit::store::{FileRead, FileWrite, ReadJob, WriteJob};

/// A file system in memory that carries out every request.
struct MemoryDisk {
    dirs: HashSet<String>,
    files: HashMap<String, String>,
}

fn empty_disk() -> MemoryDisk {
    MemoryDisk { dirs: HashSet::new(), files: HashMap::new() }
}

fn write(disk: &mut MemoryDisk, env: &Environment, filename: &str, data: Value) -> Result<(), StoreError> {
    let job = WriteJob::new(env, filename, data);
    disk.dirs.insert(job.dir.clone());
    let file = job.directory_created(Ok(()))?;
    disk.files.insert(file.path.clone(), file.text.clone());
    file.written(Ok(()))
}

fn read(disk: &MemoryDisk, env: &Environment, filename: &str) -> Result<Value, StoreError> {
    let job = ReadJob::new(env, filename);
    let present = disk.files.contains_key(&job.path);
    let file = job.probed(present)?;
    let content = disk.files[&file.path].clone();
    file.loaded(Ok(content))
}

fn env() -> Environment {
    Environment {
        app_data: Some(String::from("/tmp/appdata")),
        home: Some(String::from("/home/user")),
        current_dir: String::from("/work"),
    }
}

fn document(title: &str, count: u64) -> Value {
    let mut m = serde_json::Map::new();
    m.insert(String::from("title"), Value::String(String::from(title)));
    m.insert(String::from("count"), Value::Number(Number::from(count)));
    m.insert(String::from("tags"), Value::Array(vec![Value::from("a"), Value::Null, Value::from(2.5)]));
    Value::Object(m)
}

#[test]
fn write_job_names_directory_and_file() {
    let job = WriteJob::new(&env(), "tasks.json", document("t", 1));
    assert_eq!(job.dir, "/tmp/appdata/ucanduit");
    assert_eq!(job.path, "/tmp/appdata/ucanduit/tasks.json");
    assert_eq!(job.data, document("t", 1));
}

#[test]
fn write_ends_when_the_directory_cannot_be_created() {
    let job = WriteJob::new(&env(), "tasks.json", document("t", 1));
    let next = job.directory_created(Err(String::from("Permission denied (os error 13)")));
    assert_eq!(
        next,
        Err(StoreError::DirectoryCreate(String::from("Permission denied (os error 13)")))
    );
    assert_eq!(
        next.unwrap_err().message(),
        "Failed to create app directory: Permission denied (os error 13)"
    );
}

#[test]
fn write_encodes_once_the_directory_exists() {
    let mut m = serde_json::Map::new();
    m.insert(String::from("a"), Value::Number(Number::from(1u64)));
    let job = WriteJob::new(&env(), "a.json", Value::Object(m));
    let next = job.directory_created(Ok(()));
    assert_eq!(
        next,
        Ok(FileWrite {
            path: String::from("/tmp/appdata/ucanduit/a.json"),
            text: String::from("{\n  \"a\": 1\n}"),
        })
    );
}

#[test]
fn write_ends_well_when_the_file_is_written() {
    let file = FileWrite { path: String::from("/p/a.json"), text: String::from("null") };
    assert_eq!(file.written(Ok(())), Ok(()));
}

#[test]
fn write_ends_with_the_failure_to_write() {
    let file = FileWrite { path: String::from("/p/a.json"), text: String::from("null") };
    let r = file.written(Err(String::from("No space left on device (os error 28)")));
    assert_eq!(r, Err(StoreError::Write(String::from("No space left on device (os error 28)"))));
    assert_eq!(
        r.unwrap_err().message(),
        "Failed to write file: No space left on device (os error 28)"
    );
}

#[test]
fn read_job_names_the_file() {
    let job = ReadJob::new(&env(), "tasks.json");
    assert_eq!(job.filename, "tasks.json");
    assert_eq!(job.path, "/tmp/appdata/ucanduit/tasks.json");
}

#[test]
fn read_of_a_missing_file_names_the_filename_only() {
    let job = ReadJob::new(&env(), "tasks.json");
    let next = job.probed(false);
    assert_eq!(next, Err(StoreError::FileNotFound(String::from("tasks.json"))));
    assert_eq!(next.unwrap_err().message(), "File does not exist: tasks.json");
}

#[test]
fn read_of_a_present_file_asks_for_its_content() {
    let job = ReadJob::new(&env(), "tasks.json");
    assert_eq!(
        job.probed(true),
        Ok(FileRead { path: String::from("/tmp/appdata/ucanduit/tasks.json") })
    );
}

#[test]
fn read_ends_with_the_failure_to_read() {
    let file = FileRead { path: String::from("/p/a.json") };
    let r = file.loaded(Err(String::from("Permission denied (os error 13)")));
    assert_eq!(r, Err(StoreError::Read(String::from("Permission denied (os error 13)"))));
    assert_eq!(
        r.unwrap_err().message(),
        "Failed to read file: Permission denied (os error 13)"
    );
}

#[test]
fn read_decodes_the_content() {
    let file = FileRead { path: String::from("/p/a.json") };
    assert_eq!(file.loaded(Ok(String::from("[true, null]"))), Ok(Value::Array(vec![Value::Bool(true), Value::Null])));
}

#[test]
fn read_of_content_that_is_not_json_is_a_parse_failure() {
    let file = FileRead { path: String::from("/p/bad.json") };
    let r = file.loaded(Ok(String::from("hello, world")));
    assert_eq!(r, Err(StoreError::Parse(String::from("expected value at line 1 column 1"))));
    assert_eq!(
        r.unwrap_err().message(),
        "Failed to parse JSON: expected value at line 1 column 1"
    );
}

#[test]
fn write_then_read_round_trips() {
    let mut disk = empty_disk();
    let values = vec![
        document("water the plants", 3),
        Value::Null,
        Value::Bool(false),
        Value::from("text"),
        Value::from(-12),
        Value::from(0.5),
        Value::Array(vec![Value::from(1), Value::from("two"), Value::Array(Vec::new())]),
        Value::Object(serde_json::Map::new()),
    ];
    for (i, value) in values.into_iter().enumerate() {
        let name = format!("doc{}.json", i);
        assert_eq!(write(&mut disk, &env(), &name, value.clone()), Ok(()));
        assert_eq!(read(&disk, &env(), &name), Ok(value));
    }
}

#[test]
fn write_creates_the_missing_directory() {
    let mut disk = empty_disk();
    assert!(!disk.dirs.contains("/tmp/appdata/ucanduit"));
    assert_eq!(write(&mut disk, &env(), "a.json", Value::Null), Ok(()));
    assert!(disk.dirs.contains("/tmp/appdata/ucanduit"));
    assert_eq!(disk.files.get("/tmp/appdata/ucanduit/a.json"), Some(&String::from("null")));
    assert_eq!(write(&mut disk, &env(), "b.json", Value::Null), Ok(()));
    assert_eq!(disk.dirs.len(), 1);
}

#[test]
fn read_of_a_name_never_written_creates_nothing() {
    let disk = empty_disk();
    assert_eq!(
        read(&disk, &env(), "never.json"),
        Err(StoreError::FileNotFound(String::from("never.json")))
    );
    assert!(disk.dirs.is_empty());
    assert!(disk.files.is_empty());
}

#[test]
fn read_of_corrupt_content_leaves_the_file_alone() {
    let mut disk = empty_disk();
    disk.dirs.insert(String::from("/tmp/appdata/ucanduit"));
    disk.files.insert(String::from("/tmp/appdata/ucanduit/bad.json"), String::from("{ not json"));
    let r = read(&disk, &env(), "bad.json");
    assert_eq!(r, Err(StoreError::Parse(String::from("key must be a string at line 1 column 3"))));
    assert_eq!(disk.files.get("/tmp/appdata/ucanduit/bad.json"), Some(&String::from("{ not json")));
}

#[test]
fn last_write_wins() {
    let mut disk = empty_disk();
    let first = document("first", 1);
    let second = Value::Array(vec![Value::from("second")]);
    assert_eq!(write(&mut disk, &env(), "doc.json", first), Ok(()));
    assert_eq!(write(&mut disk, &env(), "doc.json", second.clone()), Ok(()));
    assert_eq!(read(&disk, &env(), "doc.json"), Ok(second));
    assert_eq!(disk.files.len(), 1);
}

#[test]
fn documents_of_different_names_do_not_disturb_each_other() {
    let mut disk = empty_disk();
    assert_eq!(write(&mut disk, &env(), "a.json", Value::from(1)), Ok(()));
    assert_eq!(write(&mut disk, &env(), "b.json", Value::from(2)), Ok(()));
    assert_eq!(read(&disk, &env(), "a.json"), Ok(Value::from(1)));
    assert_eq!(read(&disk, &env(), "b.json"), Ok(Value::from(2)));
}

#[test]
fn stored_text_is_pretty_printed() {
    let mut disk = empty_disk();
    let mut m = serde_json::Map::new();
    m.insert(String::from("k"), Value::Array(vec![Value::from(1), Value::from(2)]));
    assert_eq!(write(&mut disk, &env(), "p.json", Value::Object(m)), Ok(()));
    assert_eq!(
        disk.files.get("/tmp/appdata/ucanduit/p.json"),
        Some(&String::from("{\n  \"k\": [\n    1,\n    2\n  ]\n}"))
    );
}
