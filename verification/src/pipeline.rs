//! The pipeline of one upload batch.
//!
//! A batch is received file by file, then worked on file by file in the order
//! of arrival, then answered. At each milestone it hands out the message that
//! publishes its full state:
//!
//! 1. when the last file has arrived, one snapshot that announces all tasks;
//! 2. after each file, one snapshot in which that file is `Completed` with
//!    progress 100, or `Failed` with a message to read;
//! 3. before the answer, one closing snapshot with the job `Completed`.
//!
//! A file that fails does not stop the files after it. The pipeline never
//! looks at the registry: who listens, if anybody, changes nothing of what it
//! does. Running the tool and sending the messages are left to the caller,
//! which reports each outcome back.

use vstd::prelude::*;
use crate::archive::{PackError, archive_entries, create_zip, pack_failure, stored_archive};
use crate::job_id::{JobId, is_version4, job_id_of_query, new_task_id, uuid_text};
use crate::level::CompressionLevel;
use crate::pdf::{CompressError, lemma_error_text_not_empty};
use crate::processor::{CompleteProcess, UpdateProgress};
use crate::status::Status;
use crate::wire::{
    FileProgress,
    FileProgressView,
    Snapshot,
    clone_files,
    error_json,
    file_views,
    render_error,
};

verus! {

/// The name of a file that was uploaded without one.
pub const UNNAMED: &'static str = "unnamed.pdf";

/// Why a batch has no documents to answer with.
#[derive(Clone, Copy, Debug, PartialEq, Eq, Structural)]
pub enum BatchError {
    /// The request does not say which job it belongs to.
    MalformedJobId,
    /// No file arrived.
    NoFiles,
    /// Files arrived, and none of them could be compressed.
    NothingCompressed,
    /// The compressed files could not be packed into an archive.
    Packing(PackError),
}

/// The answer of a batch.
#[derive(Debug)]
pub enum Response {
    /// The one compressed document of a batch of one file.
    Pdf(Vec<u8>),
    /// An archive of the compressed documents of a batch of several files.
    Zip(Vec<u8>),
}

/// How a batch answers once every task has had its turn.
#[derive(Clone, Copy, Debug, PartialEq, Eq, Structural)]
pub enum Plan {
    /// The batch was one file, and it was compressed: the answer is that
    /// document as it is.
    Single,
    /// The batch was several files, and at least one was compressed: the
    /// answer is an archive of the compressed documents.
    Archive,
    /// No file was compressed: the batch fails.
    Nothing,
}

impl BatchError {
    /// The text that tells a person why the batch failed.
    pub open spec fn text(self) -> Seq<char> {
        match self {
            BatchError::MalformedJobId => "Identificador invalido."@,
            BatchError::NoFiles => "Nenhum arquivo recebido."@,
            BatchError::NothingCompressed => "Nenhum arquivo comprimido."@,
            BatchError::Packing(_) => "Falha ao criar o arquivo ZIP."@,
        }
    }

    /// The HTTP status that the failure is answered with: a request that
    /// cannot be served is the client's fault, an archive that cannot be made
    /// is not.
    pub open spec fn code(self) -> u16 {
        match self {
            BatchError::MalformedJobId => 400,
            BatchError::NoFiles => 400,
            BatchError::NothingCompressed => 422,
            BatchError::Packing(_) => 500,
        }
    }

    /// The HTTP status that the failure is answered with.
    pub fn status_code(&self) -> (r: u16)
        ensures
            r == self.code(),
    {
        match self {
            BatchError::MalformedJobId => 400,
            BatchError::NoFiles => 400,
            BatchError::NothingCompressed => 422,
            BatchError::Packing(_) => 500,
        }
    }

    /// The text that tells a person why the batch failed.
    pub fn message(&self) -> (r: &'static str)
        ensures
            r@ == self.text(),
    {
        match self {
            BatchError::MalformedJobId => "Identificador invalido.",
            BatchError::NoFiles => "Nenhum arquivo recebido.",
            BatchError::NothingCompressed => "Nenhum arquivo comprimido.",
            BatchError::Packing(_) => "Falha ao criar o arquivo ZIP.",
        }
    }

    /// The body of the error response of the batch.
    pub fn body(&self) -> (r: String)
        ensures
            r@ == error_json(self.text()),
    {
        render_error(self.message())
    }
}

impl Response {
    /// The content type that the answer is sent under.
    pub open spec fn media_type(self) -> Seq<char> {
        match self {
            Response::Pdf(_) => "application/pdf"@,
            Response::Zip(_) => "application/zip"@,
        }
    }

    /// The content type that the answer is sent under.
    pub fn content_type(&self) -> (r: &'static str)
        ensures
            r@ == self.media_type(),
    {
        match self {
            Response::Pdf(_) => "application/pdf",
            Response::Zip(_) => "application/zip",
        }
    }

    /// The bytes of the answer.
    pub fn into_body(self) -> (r: Vec<u8>)
        ensures
            r == match self {
                Response::Pdf(bytes) => bytes,
                Response::Zip(bytes) => bytes,
            },
    {
        match self {
            Response::Pdf(bytes) => bytes,
            Response::Zip(bytes) => bytes,
        }
    }
}

/// What came of compressing one file, as mathematical values.
pub type Outcome = Result<Seq<u8>, CompressError>;

/// The name a file is known under: the name it was uploaded with, or
/// `unnamed.pdf`.
pub open spec fn upload_name(file_name: Option<&str>) -> Seq<char> {
    match file_name {
        Some(name) => name@,
        None => UNNAMED@,
    }
}

/// The message of a file that has arrived.
pub open spec fn received_text(name: Seq<char>) -> Seq<char> {
    "Arquivo "@ + name + " recebido."@
}

/// The message of a file that has been compressed.
pub open spec fn processed_text(name: Seq<char>) -> Seq<char> {
    "Arquivo "@ + name + " processado."@
}

/// The name under which a task shows its file; empty where it has none.
pub open spec fn name_of(f: FileProgressView) -> Seq<char> {
    match f.file_name {
        Some(name) => name,
        None => Seq::empty(),
    }
}

/// A task as it is made when its file has arrived: nothing done yet, waiting
/// to be compressed at `level`, under a fresh random identifier.
pub open spec fn is_received(f: FileProgressView, name: Seq<char>, level: CompressionLevel) -> bool {
    &&& exists|value: u128| is_version4(value) && f.id == #[trigger] uuid_text(value)
    &&& f.progress == 0
    &&& f.file_name == Some(name)
    &&& f.message == received_text(name)
    &&& f.compression_level == Some(level)
    &&& f.status == Status::InProgress
}

/// A task that waits for its turn.
pub open spec fn pending(f: FileProgressView) -> bool {
    &&& f.progress == 0
    &&& f.status == Status::InProgress
    &&& f.compression_level is Some
}

/// A task that has had its turn: it is `Completed` at progress 100 and has
/// an output, or it is `Failed` below 100 with a message and no output.
pub open spec fn settled(f: FileProgressView, output: Option<Seq<u8>>) -> bool {
    ||| f.status == Status::Completed && f.progress == 100 && output is Some
    ||| f.status == Status::Failed && f.progress < 100 && f.message.len() > 0 && output is None
}

/// The task `f` after its file has been worked on.
pub open spec fn settle(f: FileProgressView, outcome: Outcome) -> FileProgressView {
    match outcome {
        Ok(_) => FileProgressView {
            progress: 100,
            status: Status::Completed,
            message: processed_text(name_of(f)),
            ..f
        },
        Err(e) => FileProgressView { status: Status::Failed, message: e.text(), ..f },
    }
}

/// The names and outputs of those of the first `n` tasks that have an
/// output, in the order of arrival.
pub open spec fn packed(
    files: Seq<FileProgressView>,
    outputs: Seq<Option<Seq<u8>>>,
    n: nat,
) -> Seq<(Seq<char>, Seq<u8>)>
    decreases n,
{
    if n == 0 {
        Seq::empty()
    } else {
        let rest = packed(files, outputs, (n - 1) as nat);
        match outputs[n - 1] {
            Some(output) => rest.push((name_of(files[n - 1]), output)),
            None => rest,
        }
    }
}

/// The state of a batch that is being worked on.
pub struct BatchView {
    /// The job the batch belongs to.
    pub id: JobId,
    /// The tasks, in the order in which their files arrived.
    pub files: Seq<FileProgressView>,
    /// For each task the compressed document, once there is one.
    pub outputs: Seq<Option<Seq<u8>>>,
    /// How many tasks have had their turn.
    pub cursor: nat,
}

impl BatchView {
    /// The state in which the work on the announced `files` begins.
    pub open spec fn begin(id: JobId, files: Seq<FileProgressView>) -> BatchView {
        BatchView { id, files, outputs: Seq::new(files.len(), |i: int| None), cursor: 0 }
    }

    /// What holds of every batch: there is at least one task, the tasks
    /// before the cursor are settled, the others are pending.
    pub open spec fn wf(self) -> bool {
        &&& self.files.len() >= 1
        &&& self.outputs.len() == self.files.len()
        &&& self.cursor <= self.files.len()
        &&& forall|i: int| 0 <= i < self.cursor ==> settled(#[trigger] self.files[i], self.outputs[i])
        &&& forall|i: int|
            self.cursor <= i < self.files.len() ==> pending(#[trigger] self.files[i])
                && self.outputs[i] is None
    }

    /// Whether every task has had its turn.
    pub open spec fn done(self) -> bool {
        self.cursor == self.files.len()
    }

    /// The snapshot of the batch, published under the job status `status`.
    pub open spec fn snapshot(self, status: Status) -> Snapshot {
        Snapshot { id: self.id, files: self.files, status }
    }

    /// The state after the outcome of the next task has been recorded.
    pub open spec fn record(self, outcome: Outcome) -> BatchView {
        BatchView {
            files: self.files.update(
                self.cursor as int,
                settle(self.files[self.cursor as int], outcome),
            ),
            outputs: self.outputs.update(
                self.cursor as int,
                match outcome {
                    Ok(output) => Some(output),
                    Err(_) => None,
                },
            ),
            cursor: self.cursor + 1,
            ..self
        }
    }

    /// The state after the outcomes of the next tasks have been recorded, one
    /// after the other.
    pub open spec fn replay(self, outcomes: Seq<Outcome>) -> BatchView
        decreases outcomes.len(),
    {
        if outcomes.len() == 0 {
            self
        } else {
            self.replay(outcomes.drop_last()).record(outcomes.last())
        }
    }

    /// The compressed documents so far, each under the name of its file.
    pub open spec fn entries(self) -> Seq<(Seq<char>, Seq<u8>)> {
        packed(self.files, self.outputs, self.files.len())
    }

    /// How the batch answers with what has been compressed.
    pub open spec fn plan(self) -> Plan {
        if self.entries().len() == 0 {
            Plan::Nothing
        } else if self.files.len() == 1 {
            Plan::Single
        } else {
            Plan::Archive
        }
    }

    /// The snapshots that are published while `outcomes` are recorded: the
    /// one of this state, and one after each outcome.
    pub open spec fn published(self, outcomes: Seq<Outcome>) -> Seq<Snapshot> {
        Seq::new(
            outcomes.len() + 1,
            |i: int| self.replay(outcomes.take(i)).snapshot(Status::InProgress),
        )
    }
}

/// The outcome of compressing one file, as mathematical values.
pub open spec fn outcome_view(outcome: Result<Vec<u8>, CompressError>) -> Outcome {
    match outcome {
        Ok(bytes) => Ok(bytes@),
        Err(e) => Err(e),
    }
}

/// A batch whose files are still arriving.
pub struct Intake {
    id: JobId,
    files: Vec<FileProgress>,
}

/// A batch that is being worked on, file by file.
pub struct Batch {
    id: JobId,
    files: Vec<FileProgress>,
    cursor: usize,
    compressed_files: Vec<Vec<u8>>,
    compressed_names: Vec<String>,
    outputs: Ghost<Seq<Option<Seq<u8>>>>,
}

impl View for Intake {
    type V = Snapshot;

    /// The snapshot that announces the files received so far.
    closed spec fn view(&self) -> Snapshot {
        Snapshot { id: self.id, files: file_views(self.files@), status: Status::InProgress }
    }
}

impl View for Batch {
    type V = BatchView;

    closed spec fn view(&self) -> BatchView {
        BatchView {
            id: self.id,
            files: file_views(self.files@),
            outputs: self.outputs@,
            cursor: self.cursor as nat,
        }
    }
}

impl Intake {
    /// What holds of every intake: each task waits for its turn and has a
    /// name.
    pub closed spec fn wf(&self) -> bool {
        forall|i: int|
            0 <= i < self.files.len() ==> pending(#[trigger] self.files[i]@)
                && self.files[i]@.file_name is Some
    }

    /// Opens the batch of job `id`, with no file received yet.
    pub fn new(id: JobId) -> (r: Intake)
        ensures
            r.wf(),
            r@ == (Snapshot { id, files: Seq::empty(), status: Status::InProgress }),
    {
        let r = Intake { id, files: Vec::new() };
        assert(file_views(r.files@) =~= Seq::empty());
        r
    }

    /// Opens the batch of the job that the query string of a request names.
    /// A request without a well-formed job identifier is turned away.
    pub fn open(query: &str) -> (r: Result<Intake, BatchError>)
        ensures
            match job_id_of_query(query@) {
                Some(id) => r matches Ok(intake) && intake.wf() && intake@ == (Snapshot {
                    id,
                    files: Seq::empty(),
                    status: Status::InProgress,
                }),
                None => r matches Err(e) && e == BatchError::MalformedJobId,
            },
    {
        match JobId::from_query(query) {
            Some(id) => Ok(Intake::new(id)),
            None => Err(BatchError::MalformedJobId),
        }
    }

    /// Takes note of a file that has been received in full: a task is made
    /// for it, behind the tasks of the files that arrived before.
    pub fn receive(&mut self, file_name: Option<&str>, compression_level: CompressionLevel)
        requires
            old(self).wf(),
        ensures
            final(self).wf(),
            final(self)@.id == old(self)@.id,
            final(self)@.status == old(self)@.status,
            final(self)@.files.len() == old(self)@.files.len() + 1,
            final(self)@.files.drop_last() == old(self)@.files,
            is_received(final(self)@.files.last(), upload_name(file_name), compression_level),
    {
        let name = match file_name {
            Some(given) => String::from_str(given),
            None => String::from_str(UNNAMED),
        };
        let mut message = String::from_str("Arquivo ");
        message.append(name.as_str());
        message.append(" recebido.");
        let task = FileProgress {
            id: new_task_id(),
            progress: 0,
            file_name: Some(name),
            message,
            compression_level: Some(compression_level),
            status: Status::InProgress,
        };
        self.files.push(task);
        assert(self@.files.drop_last() =~= old(self)@.files);
    }

    /// How many files have been received.
    pub fn len(&self) -> (r: usize)
        ensures
            r == self@.files.len(),
    {
        self.files.len()
    }

    /// Ends the receiving of files and begins the work on them.
    ///
    /// With no file received the batch fails and nothing is published. Else
    /// the batch comes back with the message that announces all its tasks.
    pub fn start(self) -> (r: Result<(Batch, UpdateProgress), BatchError>)
        requires
            self.wf(),
        ensures
            match r {
                Ok((batch, announcement)) => {
                    &&& self@.files.len() > 0
                    &&& batch.wf()
                    &&& batch@.wf()
                    &&& batch@ == BatchView::begin(self@.id, self@.files)
                    &&& announcement@ == self@
                    &&& announcement@.status == Status::InProgress
                },
                Err(e) => self@.files.len() == 0 && e == BatchError::NoFiles,
            },
    {
        if self.files.len() == 0 {
            return Err(BatchError::NoFiles);
        }
        let announcement = UpdateProgress {
            id: self.id,
            status: Status::InProgress,
            files: clone_files(&self.files),
        };
        let ghost outputs = Seq::new(self.files@.len(), |i: int| None::<Seq<u8>>);
        let batch = Batch {
            id: self.id,
            files: self.files,
            cursor: 0,
            compressed_files: Vec::new(),
            compressed_names: Vec::new(),
            outputs: Ghost(outputs),
        };
        proof {
            assert(batch@ == BatchView::begin(self@.id, self@.files));
            assert(archive_entries(batch.compressed_files@, batch.compressed_names@) =~= packed(
                batch@.files,
                batch@.outputs,
                0,
            ));
        }
        Ok((batch, announcement))
    }
}

impl Batch {
    /// What holds of every batch that this module hands out.
    pub closed spec fn wf(&self) -> bool {
        &&& self@.wf()
        &&& self.compressed_files.len() == self.compressed_names.len()
        &&& archive_entries(self.compressed_files@, self.compressed_names@) == packed(
            self@.files,
            self@.outputs,
            self@.cursor,
        )
        &&& forall|i: int| 0 <= i < self.files.len() ==> self.files[i]@.file_name is Some
    }

    /// A well-formed batch has a well-formed state, to which the laws of
    /// this module apply.
    pub proof fn lemma_wf(&self)
        requires
            self.wf(),
        ensures
            self@.wf(),
    {
    }

    /// The job the batch belongs to.
    pub fn id(&self) -> (r: JobId)
        ensures
            r == self@.id,
    {
        self.id
    }

    /// The tasks of the batch as they stand, in the order of arrival.
    pub fn files(&self) -> (r: &Vec<FileProgress>)
        ensures
            file_views(r@) == self@.files,
    {
        &self.files
    }

    /// Whether every task has had its turn.
    pub fn is_done(&self) -> (r: bool)
        requires
            self.wf(),
        ensures
            r == self@.done(),
    {
        self.cursor >= self.files.len()
    }

    /// The task whose turn it is: its place in the order of arrival and the
    /// level its file is to be compressed at. `None` when all are done.
    pub fn next(&self) -> (r: Option<(usize, CompressionLevel)>)
        requires
            self.wf(),
        ensures
            match r {
                Some((index, level)) => {
                    &&& !self@.done()
                    &&& index == self@.cursor
                    &&& self@.files[index as int].compression_level == Some(level)
                },
                None => self@.done(),
            },
    {
        if self.cursor < self.files.len() {
            assert(pending(self@.files[self.cursor as int]));
            match self.files[self.cursor].compression_level {
                Some(level) => Some((self.cursor, level)),
                None => None,
            }
        } else {
            None
        }
    }

    /// Records what came of compressing the file whose turn it was, and
    /// hands out the message that publishes the new state of the batch.
    ///
    /// A compressed file is `Completed` at progress 100 and its output is
    /// kept for the answer. A file that failed is `Failed` with the text of
    /// its failure, and has no part in the answer. Either way the turn passes
    /// to the next file.
    pub fn record(&mut self, outcome: Result<Vec<u8>, CompressError>) -> (published: UpdateProgress)
        requires
            old(self).wf(),
            !old(self)@.done(),
        ensures
            final(self).wf(),
            final(self)@.wf(),
            final(self)@ == old(self)@.record(outcome_view(outcome)),
            published@ == final(self)@.snapshot(Status::InProgress),
    {
        let index = self.cursor;
        let ghost before = self@;
        let ghost result = outcome_view(outcome);
        assert(pending(before.files[index as int]));
        assert(self.files[index as int]@.file_name is Some);
        let task = &self.files[index];
        let name = match &task.file_name {
            Some(name) => name.clone(),
            None => String::from_str(""),
        };
        let settled_task = match outcome {
            Ok(bytes) => {
                let mut message = String::from_str("Arquivo ");
                message.append(name.as_str());
                message.append(" processado.");
                let t = FileProgress {
                    id: task.id.clone(),
                    progress: 100,
                    file_name: Some(name.clone()),
                    message,
                    compression_level: task.compression_level,
                    status: Status::Completed,
                };
                self.compressed_files.push(bytes);
                self.compressed_names.push(name);
                t
            },
            Err(e) => FileProgress {
                id: task.id.clone(),
                progress: task.progress,
                file_name: Some(name),
                message: String::from_str(e.message()),
                compression_level: task.compression_level,
                status: Status::Failed,
            },
        };
        assert(settled_task@ == settle(before.files[index as int], result));
        self.files.set(index, settled_task);
        assert(index < self.files.len());
        self.cursor = index + 1;
        proof {
            self.outputs@ = before.outputs.update(
                index as int,
                match result {
                    Ok(output) => Some(output),
                    Err(_) => None,
                },
            );
            let after = before.record(result);
            assert(self@.files =~= after.files);
            assert(self@ == after);
            lemma_record_wf(before, result);
            lemma_packed_prefix(
                before.files,
                before.outputs,
                after.files,
                after.outputs,
                before.cursor,
            );
            assert(archive_entries(self.compressed_files@, self.compressed_names@) =~= packed(
                after.files,
                after.outputs,
                after.cursor,
            ));
        }
        UpdateProgress { id: self.id, status: Status::InProgress, files: clone_files(&self.files) }
    }

    /// How the batch answers with what has been compressed so far.
    pub fn plan(&self) -> (r: Plan)
        requires
            self.wf(),
        ensures
            r == self@.plan(),
    {
        proof {
            let state = self@;
            assert forall|i: int| state.cursor <= i < state.files.len() implies (
            #[trigger] state.outputs[i]) is None by {
                assert(pending(state.files[i]));
            }
            lemma_packed_pending(state.files, state.outputs, state.cursor, state.files.len());
        }
        if self.compressed_files.len() == 0 {
            Plan::Nothing
        } else if self.files.len() == 1 {
            Plan::Single
        } else {
            Plan::Archive
        }
    }

    /// Closes a batch whose tasks have all had their turn: hands out the
    /// closing message, with the job `Completed`, and the answer.
    ///
    /// A batch of one file that was compressed answers with that document as
    /// it is. A batch of several files answers with an archive of those that
    /// were compressed, in the order of arrival. A batch in which no file was
    /// compressed fails.
    pub fn finish(self) -> (r: (CompleteProcess, Result<Response, BatchError>))
        requires
            self.wf(),
            self@.done(),
        ensures
            r.0@ == self@.snapshot(Status::Completed),
            match self@.plan() {
                Plan::Nothing => r.1 == Err::<Response, BatchError>(BatchError::NothingCompressed),
                Plan::Single => r.1 matches Ok(Response::Pdf(bytes)) && self@.outputs[0] == Some(
                    bytes@,
                ),
                Plan::Archive => match pack_failure(self@.entries()) {
                    Some(e) => r.1 == Err::<Response, BatchError>(BatchError::Packing(e)),
                    None => r.1 matches Ok(Response::Zip(bytes)) && bytes@ == stored_archive(
                        self@.entries(),
                    ),
                },
            },
    {
        let ghost state = self@;
        let plan = self.plan();
        let Batch { id, files, cursor, compressed_files, compressed_names, outputs } = self;
        let mut compressed_files = compressed_files;
        let ghost entries = archive_entries(compressed_files@, compressed_names@);
        assert(entries == state.entries());
        let response = match plan {
            Plan::Nothing => Err(BatchError::NothingCompressed),
            Plan::Single => {
                proof {
                    reveal_with_fuel(packed, 2);
                    assert(entries.len() == compressed_files.len());
                    assert(entries[0].1 == compressed_files[0]@);
                }
                match compressed_files.pop() {
                    Some(bytes) => Ok(Response::Pdf(bytes)),
                    None => Err(BatchError::NothingCompressed),
                }
            },
            Plan::Archive => match create_zip(compressed_files, compressed_names) {
                Ok(bytes) => Ok(Response::Zip(bytes)),
                Err(e) => Err(BatchError::Packing(e)),
            },
        };
        (CompleteProcess { id, status: Status::Completed, files }, response)
    }
}

/// `packed` looks at the first `n` tasks only.
proof fn lemma_packed_prefix(
    files: Seq<FileProgressView>,
    outputs: Seq<Option<Seq<u8>>>,
    files2: Seq<FileProgressView>,
    outputs2: Seq<Option<Seq<u8>>>,
    n: nat,
)
    requires
        n <= files.len(),
        n <= files2.len(),
        n <= outputs.len(),
        n <= outputs2.len(),
        forall|i: int| 0 <= i < n ==> files[i] == files2[i] && outputs[i] == outputs2[i],
    ensures
        packed(files, outputs, n) == packed(files2, outputs2, n),
    decreases n,
{
    if n > 0 {
        lemma_packed_prefix(files, outputs, files2, outputs2, (n - 1) as nat);
    }
}

/// Tasks without an output add nothing to `packed`.
proof fn lemma_packed_pending(
    files: Seq<FileProgressView>,
    outputs: Seq<Option<Seq<u8>>>,
    from: nat,
    n: nat,
)
    requires
        from <= n <= outputs.len(),
        forall|i: int| from <= i < n ==> outputs[i] is None,
    ensures
        packed(files, outputs, n) == packed(files, outputs, from),
    decreases n,
{
    if n > from {
        lemma_packed_pending(files, outputs, from, (n - 1) as nat);
    }
}

/// Recording an outcome keeps a batch well formed and moves it one task on.
pub proof fn lemma_record_wf(b: BatchView, outcome: Outcome)
    requires
        b.wf(),
        !b.done(),
    ensures
        b.record(outcome).wf(),
        b.record(outcome).cursor == b.cursor + 1,
        b.record(outcome).files.len() == b.files.len(),
        b.record(outcome).id == b.id,
{
    let after = b.record(outcome);
    match outcome {
        Ok(_) => {},
        Err(e) => {
            lemma_error_text_not_empty(e);
        },
    }
    assert(settled(after.files[b.cursor as int], after.outputs[b.cursor as int]));
    assert forall|i: int| 0 <= i < after.cursor implies settled(
        #[trigger] after.files[i],
        after.outputs[i],
    ) by {
        if i < b.cursor {
            assert(settled(b.files[i], b.outputs[i]));
        }
    }
    assert forall|i: int| after.cursor <= i < after.files.len() implies pending(
        #[trigger] after.files[i],
    ) && after.outputs[i] is None by {
        assert(pending(b.files[i]));
    }
}

/// Replaying outcomes, as many as there are tasks left at most, keeps a batch
/// well formed and moves it on by as many tasks.
pub proof fn lemma_replay_wf(b: BatchView, outcomes: Seq<Outcome>)
    requires
        b.wf(),
        b.cursor + outcomes.len() <= b.files.len(),
    ensures
        b.replay(outcomes).wf(),
        b.replay(outcomes).cursor == b.cursor + outcomes.len(),
        b.replay(outcomes).files.len() == b.files.len(),
        b.replay(outcomes).id == b.id,
    decreases outcomes.len(),
{
    if outcomes.len() > 0 {
        lemma_replay_wf(b, outcomes.drop_last());
        lemma_record_wf(b.replay(outcomes.drop_last()), outcomes.last());
    }
}

/// From one state of a batch to a later one, a task keeps what names it, its
/// progress does not fall, and its status stays or advances.
proof fn lemma_task_moves_forward(
    b: BatchView,
    outcomes: Seq<Outcome>,
    earlier: int,
    later: int,
    k: int,
)
    requires
        b.wf(),
        b.cursor + outcomes.len() <= b.files.len(),
        0 <= earlier <= later <= outcomes.len(),
        0 <= k < b.files.len(),
    ensures
        ({
            let before = b.replay(outcomes.take(earlier)).files[k];
            let after = b.replay(outcomes.take(later)).files[k];
            &&& before.id == after.id
            &&& before.file_name == after.file_name
            &&& before.compression_level == after.compression_level
            &&& before.progress <= after.progress
            &&& before.status.may_become(after.status)
        }),
    decreases later - earlier,
{
    if earlier < later {
        let shorter = outcomes.take(later - 1);
        let longer = outcomes.take(later);
        assert(longer.drop_last() =~= shorter);
        lemma_task_moves_forward(b, outcomes, earlier, later - 1, k);
        lemma_replay_wf(b, shorter);
        let mid = b.replay(shorter);
        assert(b.replay(longer) == mid.record(longer.last()));
        if k == mid.cursor {
            assert(pending(mid.files[k]));
        }
    }
}

/// What a listener sees of one task never goes back: from any snapshot that
/// a batch publishes to any later one, the task stands at the same place
/// under the same identifier and name, its progress does not fall, and its
/// status stays or advances.
pub proof fn lemma_progress_never_falls(b: BatchView, outcomes: Seq<Outcome>)
    requires
        b.wf(),
        b.cursor + outcomes.len() <= b.files.len(),
    ensures
        b.published(outcomes).len() == outcomes.len() + 1,
        forall|i: int|
            0 <= i <= outcomes.len() ==> (#[trigger] b.published(outcomes)[i]).files.len()
                == b.files.len() && b.published(outcomes)[i].id == b.id,
        forall|i: int, j: int, k: int|
            #![trigger b.published(outcomes)[i].files[k], b.published(outcomes)[j].files[k]]
            0 <= i <= j <= outcomes.len() && 0 <= k < b.files.len() ==> {
                let before = b.published(outcomes)[i].files[k];
                let after = b.published(outcomes)[j].files[k];
                &&& before.id == after.id
                &&& before.file_name == after.file_name
                &&& before.compression_level == after.compression_level
                &&& before.progress <= after.progress
                &&& before.status.may_become(after.status)
            },
{
    assert forall|i: int| 0 <= i <= outcomes.len() implies (#[trigger] b.published(
        outcomes,
    )[i]).files.len() == b.files.len() && b.published(outcomes)[i].id == b.id by {
        lemma_replay_wf(b, outcomes.take(i));
    }
    assert forall|i: int, j: int, k: int|
        #![trigger b.published(outcomes)[i].files[k], b.published(outcomes)[j].files[k]]
        0 <= i <= j <= outcomes.len() && 0 <= k < b.files.len() implies {
        let before = b.published(outcomes)[i].files[k];
        let after = b.published(outcomes)[j].files[k];
        &&& before.id == after.id
        &&& before.file_name == after.file_name
        &&& before.compression_level == after.compression_level
        &&& before.progress <= after.progress
        &&& before.status.may_become(after.status)
    } by {
        lemma_task_moves_forward(b, outcomes, i, j, k);
    }
}

/// When every task has had its turn, each has come to its end: it is
/// `Completed` at progress 100, or it is `Failed` with its progress still
/// below 100 and a message that is not empty. The last snapshot of the work
/// and the closing snapshot both show the tasks in that state.
pub proof fn lemma_every_task_ends(b: BatchView, outcomes: Seq<Outcome>)
    requires
        b.wf(),
        b.cursor + outcomes.len() == b.files.len(),
    ensures
        b.replay(outcomes).wf(),
        b.replay(outcomes).done(),
        b.published(outcomes).last().files == b.replay(outcomes).snapshot(
            Status::Completed,
        ).files,
        forall|k: int|
            0 <= k < b.files.len() ==> {
                let last = #[trigger] b.replay(outcomes).snapshot(Status::Completed).files[k];
                ||| last.status == Status::Completed && last.progress == 100
                ||| last.status == Status::Failed && last.progress < 100 && last.message.len()
                    > 0
            },
{
    lemma_replay_wf(b, outcomes);
    let end = b.replay(outcomes);
    assert(outcomes.take(outcomes.len() as int) =~= outcomes);
    assert forall|k: int| 0 <= k < b.files.len() implies {
        let last = #[trigger] end.snapshot(Status::Completed).files[k];
        ||| last.status == Status::Completed && last.progress == 100
        ||| last.status == Status::Failed && last.progress < 100 && last.message.len() > 0
    } by {
        assert(settled(end.files[k], end.outputs[k]));
    }
}

/// A batch of one file that was compressed answers with that document, and
/// no other batch does.
pub proof fn lemma_single_answer(b: BatchView)
    requires
        b.wf(),
        b.done(),
    ensures
        b.plan() == Plan::Single <==> b.files.len() == 1 && b.outputs[0] is Some,
        b.plan() == Plan::Nothing <==> forall|k: int|
            0 <= k < b.files.len() ==> (#[trigger] b.outputs[k]) is None,
{
    reveal_with_fuel(packed, 2);
    lemma_packed_count(b.files, b.outputs, b.files.len());
    if b.entries().len() == 0 {
        assert forall|k: int| 0 <= k < b.files.len() implies (#[trigger] b.outputs[k]) is None by {
            lemma_packed_grows(b.files, b.outputs, (k + 1) as nat, b.files.len());
            lemma_packed_count(b.files, b.outputs, (k + 1) as nat);
        }
    } else {
        if forall|k: int| 0 <= k < b.files.len() ==> (#[trigger] b.outputs[k]) is None {
            lemma_packed_pending(b.files, b.outputs, 0, b.files.len());
        }
    }
}

/// `packed` of `n` tasks has at most `n` entries, and has one if the last of
/// them has an output.
proof fn lemma_packed_count(
    files: Seq<FileProgressView>,
    outputs: Seq<Option<Seq<u8>>>,
    n: nat,
)
    ensures
        packed(files, outputs, n).len() <= n,
        n > 0 && outputs[n - 1] is Some ==> packed(files, outputs, n).len() > 0,
    decreases n,
{
    if n > 0 {
        lemma_packed_count(files, outputs, (n - 1) as nat);
    }
}

/// `packed` of more tasks has no fewer entries.
proof fn lemma_packed_grows(
    files: Seq<FileProgressView>,
    outputs: Seq<Option<Seq<u8>>>,
    m: nat,
    n: nat,
)
    requires
        m <= n,
    ensures
        packed(files, outputs, m).len() <= packed(files, outputs, n).len(),
    decreases n,
{
    if m < n {
        lemma_packed_grows(files, outputs, m, (n - 1) as nat);
    }
}

} // verus!
