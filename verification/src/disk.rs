//! What the store's operations come to on a file system that carries out
//! every request: a model in which directories and files are plain sets and
//! maps, and the laws that the operations obey on it.

use crate::codec::{decoded, encoded, error_text, parsed_json};
use crate::error::ErrorView;
use crate::location::{app_dir, document_path, EnvironmentView};
use crate::store::{read_after_probe, read_result, write_after_directory, write_result};
use vstd::prelude::*;

verus! {

/// A file system that never fails: the directories that exist, and the text
/// of each file that exists, by path.
pub struct Disk {
    pub dirs: Set<Seq<char>>,
    pub files: Map<Seq<char>, Seq<char>>,
}

impl Disk {
    /// The disk once `dir` has been created; nothing changes if it exists.
    pub open spec fn with_dir(self, dir: Seq<char>) -> Disk {
        Disk { dirs: self.dirs.insert(dir), files: self.files }
    }

    /// The disk once the content of `path` has been replaced by `text`.
    pub open spec fn with_file(self, path: Seq<char>, text: Seq<char>) -> Disk {
        Disk { dirs: self.dirs, files: self.files.insert(path, text) }
    }

    /// Whether a file exists at `path`.
    pub open spec fn has_file(self, path: Seq<char>) -> bool {
        self.files.dom().contains(path)
    }
}

/// How writing `data` under `filename` ends on a disk that carries out both
/// requests of the write.
pub open spec fn write_outcome(
    env: EnvironmentView,
    filename: Seq<char>,
    data: serde_json::Value,
) -> Result<(), ErrorView> {
    match write_after_directory(document_path(env, filename), data, Ok(())) {
        Err(e) => Err(e),
        Ok(_) => write_result(Ok(())),
    }
}

/// The disk after writing `data` under `filename`: the application directory
/// exists, and the file holds the encoded text if there is one.
pub open spec fn after_write(
    disk: Disk,
    env: EnvironmentView,
    filename: Seq<char>,
    data: serde_json::Value,
) -> Disk {
    let disk = disk.with_dir(app_dir(env));
    match write_after_directory(document_path(env, filename), data, Ok(())) {
        Err(_) => disk,
        Ok((path, text)) => disk.with_file(path, text),
    }
}

/// How reading `filename` ends on a disk that answers the probe and hands
/// over the content of the file. A read asks for nothing else, so the disk is
/// the same afterwards.
pub open spec fn read_outcome(disk: Disk, env: EnvironmentView, filename: Seq<char>) -> Result<
    serde_json::Value,
    ErrorView,
> {
    let path = document_path(env, filename);
    match read_after_probe(filename, disk.has_file(path)) {
        Some(e) => Err(e),
        None => read_result(Ok(disk.files[path])),
    }
}

/// A write followed by a read of the same name hands the decoder exactly the
/// text that the encoder produced, whatever the disk held before.
pub proof fn read_after_write_decodes_written_text(
    disk: Disk,
    env: EnvironmentView,
    filename: Seq<char>,
    data: serde_json::Value,
    text: Seq<char>,
)
    requires
        encoded(data) == Ok::<Seq<char>, ErrorView>(text),
    ensures
        write_outcome(env, filename, data) is Ok,
        read_outcome(after_write(disk, env, filename, data), env, filename) == decoded(text),
{
}

/// A value that the codec takes to a text and that text back to the value is
/// read back as it was written.
pub proof fn write_then_read_round_trips(
    disk: Disk,
    env: EnvironmentView,
    filename: Seq<char>,
    data: serde_json::Value,
    text: Seq<char>,
)
    requires
        encoded(data) == Ok::<Seq<char>, ErrorView>(text),
        decoded(text) == Ok::<serde_json::Value, ErrorView>(data),
    ensures
        write_outcome(env, filename, data) is Ok,
        read_outcome(after_write(disk, env, filename, data), env, filename) == Ok::<
            serde_json::Value,
            ErrorView,
        >(data),
{
}

/// A write succeeds exactly when the value can be encoded, whether or not the
/// application directory existed before, and the directory exists afterwards.
pub proof fn write_creates_directory(
    disk: Disk,
    env: EnvironmentView,
    filename: Seq<char>,
    data: serde_json::Value,
)
    ensures
        write_outcome(env, filename, data) is Ok <==> encoded(data) is Ok,
        after_write(disk, env, filename, data).dirs.contains(app_dir(env)),
        forall|dir: Seq<char>|
            disk.dirs.contains(dir) ==> after_write(disk, env, filename, data).dirs.contains(dir),
{
}

/// Reading a name under which no file exists ends with the failure that names
/// it.
pub proof fn read_of_missing_file_fails(disk: Disk, env: EnvironmentView, filename: Seq<char>)
    requires
        !disk.has_file(document_path(env, filename)),
    ensures
        read_outcome(disk, env, filename) == Err::<serde_json::Value, ErrorView>(
            ErrorView::FileNotFound(filename),
        ),
{
}

/// Reading a file whose content the parser rejects ends with a parse failure
/// that carries the parser's message.
pub proof fn read_of_corrupt_file_fails(
    disk: Disk,
    env: EnvironmentView,
    filename: Seq<char>,
    cause: serde_json::Error,
)
    requires
        disk.has_file(document_path(env, filename)),
        parsed_json(disk.files[document_path(env, filename)]) == Err::<
            serde_json::Value,
            serde_json::Error,
        >(cause),
    ensures
        read_outcome(disk, env, filename) == Err::<serde_json::Value, ErrorView>(
            ErrorView::Parse(error_text(cause)),
        ),
{
}

/// The last write wins: two writes under one name leave the disk as the
/// second alone would have left it, so nothing of the first is merged in and
/// a read gives what the second wrote.
pub proof fn last_write_wins(
    disk: Disk,
    env: EnvironmentView,
    filename: Seq<char>,
    first: serde_json::Value,
    second: serde_json::Value,
)
    requires
        encoded(second) is Ok,
    ensures
        after_write(after_write(disk, env, filename, first), env, filename, second) == after_write(
            disk,
            env,
            filename,
            second,
        ),
        read_outcome(
            after_write(after_write(disk, env, filename, first), env, filename, second),
            env,
            filename,
        ) == decoded(encoded(second)->Ok_0),
{
    let twice = after_write(after_write(disk, env, filename, first), env, filename, second);
    let once = after_write(disk, env, filename, second);
    assert(twice.dirs =~= once.dirs);
    assert(twice.files =~= once.files);
}

} // verus!
