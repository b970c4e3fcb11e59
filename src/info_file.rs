use vstd::prelude::*;

use crate::paths::{join_path, path_join};

verus! {

/// The pretty-printed JSON object that serde_json makes of a status record:
/// the keys `running`, `base_url`, `port`, `project_dir` and `updated_at`,
/// an absent field written as `null`.
pub uninterp spec fn info_record_json(
    running: bool,
    base_url: Option<Seq<char>>,
    port: Option<u16>,
    project_dir: Option<Seq<char>>,
    updated_at: Seq<char>,
) -> Seq<char>;

/// The text of an optional owned string.
pub open spec fn text_of(s: Option<String>) -> Option<Seq<char>> {
    match s {
        Some(t) => Some(t@),
        None => None,
    }
}

/// The text of an optional borrowed string.
pub open spec fn str_text_of(s: Option<&str>) -> Option<Seq<char>> {
    match s {
        Some(t) => Some(t@),
        None => None,
    }
}

/// Name of the status file inside the status directory.
pub open spec fn info_file_name() -> Seq<char> {
    seq!['e', 'n', 'g', 'i', 'n', 'e', '-', 'i', 'n', 'f', 'o', '.', 'j', 's', 'o', 'n']
}

/// Name of the staging file that a new record is written to before it is
/// renamed over the status file.
pub open spec fn staging_file_name() -> Seq<char> {
    info_file_name() + seq!['.', 't', 'm', 'p']
}

/// Relies on `serde_json::to_string_pretty`, applied to a `serde_json::Value`
/// object whose entries are the five record fields; `None` becomes `null`
/// through `serde_json::Value::from`. Serialising such an object into memory
/// does not fail: every key is a string and every value a plain JSON value.
#[verifier::external_body]
fn encode_info_record(
    running: bool,
    base_url: &Option<String>,
    port: Option<u16>,
    project_dir: &Option<String>,
    updated_at: &str,
) -> (r: Result<String, String>)
    ensures
        r is Ok,
        r matches Ok(s) ==> s@ == info_record_json(
            running,
            text_of(*base_url),
            port,
            text_of(*project_dir),
            updated_at@,
        ),
{
    let mut record = serde_json::Map::new();
    record.insert("running".to_owned(), serde_json::Value::from(running));
    record.insert("base_url".to_owned(), serde_json::Value::from(base_url.clone()));
    record.insert("port".to_owned(), serde_json::Value::from(port));
    record.insert("project_dir".to_owned(), serde_json::Value::from(project_dir.clone()));
    record.insert("updated_at".to_owned(), serde_json::Value::from(updated_at));
    serde_json::to_string_pretty(&serde_json::Value::Object(record)).map_err(|e| e.to_string())
}

/// Relies on `chrono::DateTime<Utc>::from(SystemTime)`, rendered by
/// `DateTime::to_rfc3339`: the system clock as RFC 3339 UTC text, also for a
/// clock set before 1970. Nothing is known of its value.
#[verifier::external_body]
fn utc_now_rfc3339() -> (r: String) {
    chrono::DateTime::<chrono::Utc>::from(std::time::SystemTime::now()).to_rfc3339()
}

/// Why a status record could not be prepared.
#[derive(Debug, Clone, PartialEq, Eq)]
pub enum InfoFileError {
    /// The platform gave no configuration directory: mirroring is unavailable.
    ConfigDirUnavailable,
    /// The record could not be serialised; the serialiser's message.
    Serialize(String),
}

impl InfoFileError {
    /// The message for a log or a caller.
    pub fn message(&self) -> (r: String)
        ensures
            self is ConfigDirUnavailable ==> r@ == "Failed to get config directory"@,
            self matches InfoFileError::Serialize(e) ==> r@ == "Failed to serialize: "@ + e@,
    {
        match self {
            InfoFileError::ConfigDirUnavailable => "Failed to get config directory".to_owned(),
            InfoFileError::Serialize(e) => "Failed to serialize: ".to_owned().concat(e.as_str()),
        }
    }
}

/// A status record ready to be written: the host writes `content` to
/// `temp_path`, creating `dir` first, and then renames `temp_path` over
/// `file_path`, so that a reader sees either the old record or the new one.
#[derive(Debug, Clone, PartialEq, Eq)]
pub struct InfoFileWrite {
    pub dir: String,
    pub temp_path: String,
    pub file_path: String,
    pub content: String,
    pub updated_at: String,
}

impl InfoFileWrite {
    /// Both files lie in `dir`, under their fixed names.
    pub open spec fn placed(&self) -> bool {
        &&& self.file_path@ == path_join(self.dir@, info_file_name())
        &&& self.temp_path@ == path_join(self.dir@, staging_file_name())
    }

    /// The write publishes the given status, stamped with `updated_at`.
    pub open spec fn publishes(
        &self,
        running: bool,
        base_url: Option<Seq<char>>,
        port: Option<u16>,
        project_dir: Option<Seq<char>>,
    ) -> bool {
        &&& self.placed()
        &&& self.content@ == info_record_json(
            running,
            base_url,
            port,
            project_dir,
            self.updated_at@,
        )
    }
}

/// The staging file and the status file never coincide.
pub proof fn lemma_staging_differs(dir: Seq<char>)
    ensures
        path_join(dir, staging_file_name()) != path_join(dir, info_file_name()),
{
    assert(path_join(dir, staging_file_name()).len() == path_join(dir, info_file_name()).len()
        + 4);
}

/// The write for a resolved directory `dir` and an already encoded record;
/// no directory gives `ConfigDirUnavailable`, a failed encoding gives
/// `Serialize` with its message.
pub fn write_plan(
    dir: Option<String>,
    updated_at: String,
    encoded: Result<String, String>,
) -> (r: Result<InfoFileWrite, InfoFileError>)
    ensures
        match dir {
            None => r matches Err(InfoFileError::ConfigDirUnavailable),
            Some(d) => match encoded {
                Err(e) => r matches Err(InfoFileError::Serialize(m)) && m == e,
                Ok(c) => r matches Ok(w) && w.dir == d && w.content == c && w.updated_at
                    == updated_at && w.placed(),
            },
        },
        r matches Ok(w) ==> w.temp_path@ != w.file_path@,
{
    proof {
        reveal_strlit("engine-info.json");
        reveal_strlit("engine-info.json.tmp");
    }
    match dir {
        None => Err(InfoFileError::ConfigDirUnavailable),
        Some(d) => match encoded {
            Err(e) => Err(InfoFileError::Serialize(e)),
            Ok(content) => {
                let file_path = join_path(d.as_str(), "engine-info.json");
                let temp_path = join_path(d.as_str(), "engine-info.json.tmp");
                proof {
                    assert("engine-info.json"@ =~= info_file_name());
                    assert("engine-info.json.tmp"@ =~= staging_file_name());
                    lemma_staging_differs(d@);
                }
                Ok(InfoFileWrite { dir: d, temp_path, file_path, content, updated_at })
            },
        },
    }
}

fn owned_text(s: Option<&str>) -> (r: Option<String>)
    ensures
        text_of(r) == str_text_of(s),
{
    match s {
        Some(t) => Some(t.to_owned()),
        None => None,
    }
}

/// The record of the given status for the directory `dir`, stamped with
/// `updated_at`. A known directory always gives a record.
pub fn record_write(
    dir: Option<String>,
    running: bool,
    base_url: Option<&str>,
    port: Option<u16>,
    project_dir: Option<&str>,
    updated_at: String,
) -> (r: Result<InfoFileWrite, InfoFileError>)
    ensures
        dir is None <==> r matches Err(InfoFileError::ConfigDirUnavailable),
        dir is Some ==> r is Ok,
        r matches Ok(w) ==> Some(w.dir) == dir && w.updated_at == updated_at && w.publishes(
            running,
            str_text_of(base_url),
            port,
            str_text_of(project_dir),
        ) && w.temp_path@ != w.file_path@,
{
    if dir.is_none() {
        return Err(InfoFileError::ConfigDirUnavailable);
    }
    let base = owned_text(base_url);
    let project = owned_text(project_dir);
    let encoded = encode_info_record(running, &base, port, &project, updated_at.as_str());
    write_plan(dir, updated_at, encoded)
}

/// Prepares the record of the given status for the status directory `dir`
/// (as resolved for the platform), stamped with the current time. No
/// directory gives `ConfigDirUnavailable`, which means that mirroring is
/// unavailable; a known directory always gives a record.
pub fn prepare_engine_info_write(
    dir: Option<String>,
    running: bool,
    base_url: Option<&str>,
    port: Option<u16>,
    project_dir: Option<&str>,
) -> (r: Result<InfoFileWrite, InfoFileError>)
    ensures
        dir is None <==> r matches Err(InfoFileError::ConfigDirUnavailable),
        dir is Some ==> r is Ok,
        r matches Ok(w) ==> Some(w.dir) == dir && w.publishes(
            running,
            str_text_of(base_url),
            port,
            str_text_of(project_dir),
        ) && w.temp_path@ != w.file_path@,
{
    if dir.is_none() {
        return Err(InfoFileError::ConfigDirUnavailable);
    }
    let updated_at = utc_now_rfc3339();
    record_write(dir, running, base_url, port, project_dir, updated_at)
}

/// Prepares the record that tells pollers the engine is no longer active:
/// not running, every optional field `null`, whatever the status file held
/// before. The status file stays where it is, so that pollers keep finding
/// it. No directory gives `ConfigDirUnavailable` and nothing else.
pub fn clear_engine_info_file(dir: Option<String>) -> (r: Result<InfoFileWrite, InfoFileError>)
    ensures
        dir is None <==> r matches Err(InfoFileError::ConfigDirUnavailable),
        dir is Some ==> r is Ok,
        r matches Ok(w) ==> Some(w.dir) == dir && w.publishes(false, None, None, None)
            && w.temp_path@ != w.file_path@,
{
    prepare_engine_info_write(dir, false, None, None, None)
}

/// Clearing twice writes the same thing: two clear records for one
/// directory go to the same file and say the same (not running, every
/// optional field `null`); their contents differ at most in `updated_at`.
pub proof fn lemma_clear_repeatable(first: InfoFileWrite, second: InfoFileWrite)
    requires
        first.publishes(false, None, None, None),
        second.publishes(false, None, None, None),
        first.dir@ == second.dir@,
    ensures
        first.file_path@ == second.file_path@,
        first.temp_path@ == second.temp_path@,
        first.updated_at@ == second.updated_at@ ==> first.content@ == second.content@,
{
}

} // verus!
