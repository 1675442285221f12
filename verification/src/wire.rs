//! The wire message: one JSON object for each snapshot of a job.
//!
//! ```text
//! {"id":"<job>","files":[{"id":"<task>","progress":<0..100>,
//!   "file_name":"<name>"|null,"message":"<text>",
//!   "compression_level":"Low"|"Medium"|"High"|null}],"status":"<state>"}
//! ```
//!
//! The object is written without any white space. Texts are quoted and
//! escaped by `serde_json`.

use vstd::prelude::*;
use crate::job_id::{JobId, uuid_text};
use crate::level::CompressionLevel;
use crate::status::Status;

verus! {

/// One text frame for a connected client.
#[derive(Debug)]
pub struct WsMessage(pub String);

/// The processing record of one file of a job.
#[derive(Debug)]
pub struct FileProgress {
    /// The identifier of the task, unique within its job.
    pub id: String,
    /// Percent done, from 0 to 100.
    pub progress: u8,
    /// The name the file was uploaded under, if any.
    pub file_name: Option<String>,
    /// A text for the person watching.
    pub message: String,
    /// The level the file is compressed at.
    pub compression_level: Option<CompressionLevel>,
    /// Where the task stands.
    pub status: Status,
}

/// What a [`FileProgress`] holds, as mathematical values.
pub struct FileProgressView {
    pub id: Seq<char>,
    pub progress: nat,
    pub file_name: Option<Seq<char>>,
    pub message: Seq<char>,
    pub compression_level: Option<CompressionLevel>,
    pub status: Status,
}

/// The full state of a job at one moment: what one wire message tells.
pub struct Snapshot {
    pub id: JobId,
    pub files: Seq<FileProgressView>,
    pub status: Status,
}

impl View for FileProgress {
    type V = FileProgressView;

    open spec fn view(&self) -> FileProgressView {
        FileProgressView {
            id: self.id@,
            progress: self.progress as nat,
            file_name: match self.file_name {
                Some(name) => Some(name@),
                None => None,
            },
            message: self.message@,
            compression_level: self.compression_level,
            status: self.status,
        }
    }
}

/// The views of a list of file records, in the same order.
pub open spec fn file_views(files: Seq<FileProgress>) -> Seq<FileProgressView> {
    Seq::new(files.len(), |i: int| files[i]@)
}

impl Clone for FileProgress {
    fn clone(&self) -> (r: FileProgress)
        ensures
            r@ == self@,
    {
        FileProgress {
            id: self.id.clone(),
            progress: self.progress,
            file_name: match &self.file_name {
                Some(name) => Some(name.clone()),
                None => None,
            },
            message: self.message.clone(),
            compression_level: self.compression_level,
            status: self.status,
        }
    }
}

/// Copies a list of file records.
pub fn clone_files(files: &Vec<FileProgress>) -> (r: Vec<FileProgress>)
    ensures
        file_views(r@) == file_views(files@),
{
    let mut out: Vec<FileProgress> = Vec::new();
    let mut i: usize = 0;
    while i < files.len()
        invariant
            i <= files.len(),
            out.len() == i,
            forall|k: int| 0 <= k < i ==> out[k]@ == files[k]@,
        decreases files.len() - i,
    {
        out.push(files[i].clone());
        i = i + 1;
    }
    assert(file_views(out@) =~= file_views(files@));
    out
}

/// The JSON string literal that `serde_json` writes for a text: the text in
/// double quotes, with its escapes.
pub uninterp spec fn json_string(text: Seq<char>) -> Seq<char>;

/// Has `serde_json` write a text as a JSON value: makes the text a
/// `serde_json::Value` and calls `to_string` on it. The contract names the
/// literal that comes out.
#[verifier::external_body]
fn json_quote(text: &str) -> (r: String)
    ensures
        r@ == json_string(text@),
{
    serde_json::Value::from(text).to_string()
}

/// The character of a decimal digit.
pub open spec fn digit_char(d: nat) -> char {
    if d == 0 {
        '0'
    } else if d == 1 {
        '1'
    } else if d == 2 {
        '2'
    } else if d == 3 {
        '3'
    } else if d == 4 {
        '4'
    } else if d == 5 {
        '5'
    } else if d == 6 {
        '6'
    } else if d == 7 {
        '7'
    } else if d == 8 {
        '8'
    } else {
        '9'
    }
}

/// A number in decimal digits, without leading zeros.
pub open spec fn decimal_text(n: nat) -> Seq<char>
    decreases n,
{
    if n < 10 {
        seq![digit_char(n)]
    } else {
        decimal_text(n / 10).push(digit_char(n % 10))
    }
}

/// A value that may be missing, as a JSON value: the value or `null`.
pub open spec fn or_null(value: Option<Seq<char>>) -> Seq<char> {
    match value {
        Some(v) => v,
        None => "null"@,
    }
}

/// The JSON string of a compression level.
pub open spec fn level_json(level: CompressionLevel) -> Seq<char> {
    match level {
        CompressionLevel::Low => "\"Low\""@,
        CompressionLevel::Medium => "\"Medium\""@,
        CompressionLevel::High => "\"High\""@,
    }
}

/// The JSON string of a status.
pub open spec fn status_json(status: Status) -> Seq<char> {
    match status {
        Status::Connecting => "\"Connecting\""@,
        Status::Connected => "\"Connected\""@,
        Status::InProgress => "\"InProgress\""@,
        Status::Completed => "\"Completed\""@,
        Status::Failed => "\"Failed\""@,
        Status::Disconnected => "\"Disconnected\""@,
    }
}

/// The JSON object of one file record, made of the JSON values of its
/// fields.
pub open spec fn file_object(
    id: Seq<char>,
    progress: nat,
    file_name: Option<Seq<char>>,
    message: Seq<char>,
    level: Option<Seq<char>>,
) -> Seq<char> {
    "{\"id\":"@ + id + ",\"progress\":"@ + decimal_text(progress) + ",\"file_name\":"@ + or_null(
        file_name,
    ) + ",\"message\":"@ + message + ",\"compression_level\":"@ + or_null(level) + "}"@
}

/// The JSON object of a snapshot, made of the JSON values of its fields;
/// `files` are the objects of its file records, separated by commas.
pub open spec fn snapshot_object(id: Seq<char>, files: Seq<char>, status: Seq<char>) -> Seq<char> {
    "{\"id\":"@ + id + ",\"files\":["@ + files + "],\"status\":"@ + status + "}"@
}

/// The JSON object of one file record.
pub open spec fn file_json(f: FileProgressView) -> Seq<char> {
    file_object(
        json_string(f.id),
        f.progress,
        match f.file_name {
            Some(name) => Some(json_string(name)),
            None => None,
        },
        json_string(f.message),
        match f.compression_level {
            Some(level) => Some(level_json(level)),
            None => None,
        },
    )
}

/// The JSON objects of a list of file records, separated by commas.
pub open spec fn files_json(files: Seq<FileProgressView>) -> Seq<char>
    decreases files.len(),
{
    if files.len() == 0 {
        Seq::empty()
    } else if files.len() == 1 {
        file_json(files[0])
    } else {
        files_json(files.drop_last()) + ","@ + file_json(files.last())
    }
}

/// The wire message of a snapshot.
pub open spec fn snapshot_json(s: Snapshot) -> Seq<char> {
    snapshot_object(json_string(uuid_text(s.id.0)), files_json(s.files), status_json(s.status))
}

/// The body of an error response: a JSON object with the text under `error`.
pub open spec fn error_json(text: Seq<char>) -> Seq<char> {
    "{\"error\":"@ + json_string(text) + "}"@
}

/// The single decimal digit `d` as a text.
fn digit_str(d: u8) -> (r: &'static str)
    requires
        d < 10,
    ensures
        r@ == seq![digit_char(d as nat)],
{
    proof {
        reveal_strlit("0");
        reveal_strlit("1");
        reveal_strlit("2");
        reveal_strlit("3");
        reveal_strlit("4");
        reveal_strlit("5");
        reveal_strlit("6");
        reveal_strlit("7");
        reveal_strlit("8");
        reveal_strlit("9");
    }
    let r = if d == 0 {
        "0"
    } else if d == 1 {
        "1"
    } else if d == 2 {
        "2"
    } else if d == 3 {
        "3"
    } else if d == 4 {
        "4"
    } else if d == 5 {
        "5"
    } else if d == 6 {
        "6"
    } else if d == 7 {
        "7"
    } else if d == 8 {
        "8"
    } else {
        "9"
    };
    assert(r@ =~= seq![digit_char(d as nat)]);
    r
}

/// Writes a number in decimal digits.
pub fn decimal(n: u8) -> (r: String)
    ensures
        r@ == decimal_text(n as nat),
{
    let mut out = String::from_str("");
    proof {
        reveal_strlit("");
        reveal_with_fuel(decimal_text, 3);
    }
    if n >= 100 {
        out.append(digit_str(n / 100));
        out.append(digit_str((n / 10) % 10));
        out.append(digit_str(n % 10));
    } else if n >= 10 {
        out.append(digit_str(n / 10));
        out.append(digit_str(n % 10));
    } else {
        out.append(digit_str(n));
    }
    assert(out@ =~= decimal_text(n as nat));
    out
}

/// The JSON string of a compression level.
pub fn level_literal(level: CompressionLevel) -> (r: &'static str)
    ensures
        r@ == level_json(level),
{
    match level {
        CompressionLevel::Low => "\"Low\"",
        CompressionLevel::Medium => "\"Medium\"",
        CompressionLevel::High => "\"High\"",
    }
}

/// The JSON string of a status.
pub fn status_literal(status: Status) -> (r: &'static str)
    ensures
        r@ == status_json(status),
{
    match status {
        Status::Connecting => "\"Connecting\"",
        Status::Connected => "\"Connected\"",
        Status::InProgress => "\"InProgress\"",
        Status::Completed => "\"Completed\"",
        Status::Failed => "\"Failed\"",
        Status::Disconnected => "\"Disconnected\"",
    }
}

/// Puts the JSON object of one file record together from the JSON values of
/// its fields.
pub fn assemble_file(
    id: &str,
    progress: u8,
    file_name: Option<&str>,
    message: &str,
    level: Option<&str>,
) -> (r: String)
    ensures
        r@ == file_object(
            id@,
            progress as nat,
            match file_name {
                Some(name) => Some(name@),
                None => None,
            },
            message@,
            match level {
                Some(l) => Some(l@),
                None => None,
            },
        ),
{
    let mut out = String::from_str("{\"id\":");
    out.append(id);
    out.append(",\"progress\":");
    out.append(decimal(progress).as_str());
    out.append(",\"file_name\":");
    match file_name {
        Some(name) => out.append(name),
        None => out.append("null"),
    }
    out.append(",\"message\":");
    out.append(message);
    out.append(",\"compression_level\":");
    match level {
        Some(l) => out.append(l),
        None => out.append("null"),
    }
    out.append("}");
    out
}

/// Puts the JSON object of a snapshot together from the JSON values of its
/// fields.
pub fn assemble_snapshot(id: &str, files: &str, status: &str) -> (r: String)
    ensures
        r@ == snapshot_object(id@, files@, status@),
{
    let mut out = String::from_str("{\"id\":");
    out.append(id);
    out.append(",\"files\":[");
    out.append(files);
    out.append("],\"status\":");
    out.append(status);
    out.append("}");
    out
}

/// Writes the JSON object of one file record.
pub fn render_file(f: &FileProgress) -> (r: String)
    ensures
        r@ == file_json(f@),
{
    let id = json_quote(f.id.as_str());
    let message = json_quote(f.message.as_str());
    let level = match f.compression_level {
        Some(l) => Some(level_literal(l)),
        None => None,
    };
    match &f.file_name {
        Some(name) => {
            let quoted = json_quote(name.as_str());
            assemble_file(id.as_str(), f.progress, Some(quoted.as_str()), message.as_str(), level)
        },
        None => assemble_file(id.as_str(), f.progress, None, message.as_str(), level),
    }
}

/// Writes the JSON objects of a list of file records, separated by commas.
pub fn render_files(files: &Vec<FileProgress>) -> (r: String)
    ensures
        r@ == files_json(file_views(files@)),
{
    let mut out = String::from_str("");
    let ghost views = file_views(files@);
    proof {
        reveal_strlit("");
        assert(out@ =~= files_json(views.take(0)));
    }
    let mut i: usize = 0;
    while i < files.len()
        invariant
            i <= files.len(),
            views == file_views(files@),
            out@ == files_json(views.take(i as int)),
        decreases files.len() - i,
    {
        let ghost before = out@;
        if i > 0 {
            out.append(",");
        }
        out.append(render_file(&files[i]).as_str());
        proof {
            let next = views.take(i + 1);
            assert(next.drop_last() =~= views.take(i as int));
            assert(next.last() == files[i as int]@);
            if i == 0 {
                assert(out@ =~= file_json(next[0]));
            }
        }
        i = i + 1;
    }
    assert(views.take(files.len() as int) =~= views);
    out
}

/// Writes the wire message of a snapshot.
pub fn render_snapshot(id: JobId, files: &Vec<FileProgress>, status: Status) -> (r: WsMessage)
    ensures
        r.0@ == snapshot_json(Snapshot { id, files: file_views(files@), status }),
{
    let quoted_id = json_quote(id.hyphenated().as_str());
    let listed = render_files(files);
    WsMessage(assemble_snapshot(quoted_id.as_str(), listed.as_str(), status_literal(status)))
}

/// Writes the body of an error response.
pub fn render_error(text: &str) -> (r: String)
    ensures
        r@ == error_json(text@),
{
    let mut out = String::from_str("{\"error\":");
    out.append(json_quote(text).as_str());
    out.append("}");
    out
}

} // verus!
