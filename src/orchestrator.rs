//! Batch orchestration: validates a batch, registers its files with the
//! aggregator, and reduces the outcome of each file's transfer task to one
//! result per file, in input order, without one failure affecting another.
use vstd::prelude::*;
use crate::models::{FileInfo, FileUploadStatus};
use crate::tracker::{ProgressModel, ProgressTracker, registered};

verus! {

/// A file of a batch: its name, its length in bytes, and where its bytes
/// come from (a local path or a URL).
pub struct FileDescriptor {
    pub name: String,
    pub len: u64,
    pub source: String,
}

/// The direction of a batch.
#[derive(Clone, Copy, Debug, PartialEq, Eq, Structural)]
pub enum TransferKind {
    Upload,
    Download,
}

/// Why a batch is refused before any task starts.
#[derive(Debug)]
pub enum BatchError {
    /// The batch holds no file.
    NoFiles { kind: TransferKind },
}

impl BatchError {
    /// The text of this error.
    pub open spec fn message_spec(&self) -> Seq<char> {
        match self {
            BatchError::NoFiles { kind: TransferKind::Upload } => "No files to upload"@,
            BatchError::NoFiles { kind: TransferKind::Download } => "No files to download"@,
        }
    }

    /// The error's text.
    pub fn to_string(&self) -> (r: String)
        ensures
            r@ == self.message_spec(),
    {
        match self {
            BatchError::NoFiles { kind: TransferKind::Upload } => "No files to upload".to_owned(),
            BatchError::NoFiles { kind: TransferKind::Download } => "No files to download".to_owned(),
        }
    }
}

/// Counters after registering the files `files`, in order.
pub open spec fn registered_all(bars: Seq<ProgressModel>, files: Seq<FileDescriptor>) -> Seq<
    ProgressModel,
>
    decreases files.len(),
{
    if files.len() == 0 {
        bars
    } else {
        registered(
            registered_all(bars, files.drop_last()),
            files.last().name@,
            files.last().len as int,
        )
    }
}

/// Starts a batch: refuses an empty one, else returns an aggregator with
/// every file registered with its length.
pub fn start_batch(files: &Vec<FileDescriptor>, kind: TransferKind) -> (r: Result<
    ProgressTracker,
    BatchError,
>)
    ensures
        files@.len() == 0 <==> r is Err,
        r matches Err(e) ==> e == (BatchError::NoFiles { kind }),
        r matches Ok(t) ==> t.wf() && t@ == registered_all(Seq::empty(), files@),
{
    if files.len() == 0 {
        return Err(BatchError::NoFiles { kind });
    }
    let mut tracker = ProgressTracker::new();
    let mut i: usize = 0;
    while i < files.len()
        invariant
            0 <= i <= files@.len(),
            tracker.wf(),
            tracker@ == registered_all(Seq::empty(), files@.take(i as int)),
        decreases files.len() - i,
    {
        assert(files@.take(i + 1).drop_last() =~= files@.take(i as int));
        tracker.add_bar(files[i].name.clone(), files[i].len);
        i = i + 1;
    }
    assert(files@.take(files@.len() as int) =~= files@);
    Ok(tracker)
}

/// The result of one file of a batch.
#[derive(Debug)]
pub enum TransferResult {
    /// The file was transferred: its name where it landed, and its size.
    Success { name: String, size: u64 },
    /// The file was not transferred, for the reason given.
    Error { message: String },
}

/// Abstract result of one file.
pub ghost enum ResultModel {
    Success { name: Seq<char>, size: int },
    Error { message: Seq<char> },
}

impl View for TransferResult {
    type V = ResultModel;

    open spec fn view(&self) -> ResultModel {
        match self {
            TransferResult::Success { name, size } => ResultModel::Success {
                name: name@,
                size: *size as int,
            },
            TransferResult::Error { message } => ResultModel::Error { message: message@ },
        }
    }
}

/// What one upload task ended with: the server's status for the file, or the
/// text of a local or transport failure.
pub type UploadOutcome = Result<FileUploadStatus, String>;

/// What one download task ended with: the number of bytes written, or the
/// text of the failure.
pub type DownloadOutcome = Result<u64, String>;

/// The result of uploading `file`.
pub open spec fn upload_result(file: FileDescriptor, outcome: UploadOutcome) -> ResultModel {
    match outcome {
        Ok(FileUploadStatus::Success(info)) => ResultModel::Success {
            name: info.name@,
            size: info.size as int,
        },
        Ok(FileUploadStatus::Error(e)) => ResultModel::Error {
            message: file.name@ + " - Error while uploading file: "@ + e.error_msg@,
        },
        Err(e) => ResultModel::Error { message: file.name@ + " - operation failed. "@ + e@ },
    }
}

/// The result of downloading `file`.
pub open spec fn download_result(file: FileDescriptor, outcome: DownloadOutcome) -> ResultModel {
    match outcome {
        Ok(size) => ResultModel::Success { name: file.name@, size: size as int },
        Err(e) => ResultModel::Error { message: file.name@ + " - "@ + e@ },
    }
}

fn joined(a: &String, b: &str, c: &String) -> (r: String)
    ensures
        r@ == a@ + b@ + c@,
{
    let mut s = a.clone();
    s.append(b);
    s.append(c.as_str());
    s
}

/// Results of uploading `files`, one per file, in order.
pub open spec fn upload_results(files: Seq<FileDescriptor>, outcomes: Seq<UploadOutcome>) -> Seq<
    ResultModel,
> {
    Seq::new(files.len(), |i: int| upload_result(files[i], outcomes[i]))
}

/// Results of downloading `files`, one per file, in order.
pub open spec fn download_results(
    files: Seq<FileDescriptor>,
    outcomes: Seq<DownloadOutcome>,
) -> Seq<ResultModel> {
    Seq::new(files.len(), |i: int| download_result(files[i], outcomes[i]))
}

/// Number of successes among `results`.
pub open spec fn success_count(results: Seq<ResultModel>) -> nat
    decreases results.len(),
{
    if results.len() == 0 {
        0
    } else {
        success_count(results.drop_last()) + if results.last() is Success {
            1nat
        } else {
            0nat
        }
    }
}

/// Number of failures among `results`.
pub open spec fn failure_count(results: Seq<ResultModel>) -> nat
    decreases results.len(),
{
    if results.len() == 0 {
        0
    } else {
        failure_count(results.drop_last()) + if results.last() is Error {
            1nat
        } else {
            0nat
        }
    }
}

proof fn lemma_counts_one_failure(results: Seq<ResultModel>, j: int)
    requires
        0 <= j < results.len(),
        results[j] is Error,
        forall|k: int| 0 <= k < results.len() && k != j ==> #[trigger] results[k] is Success,
    ensures
        success_count(results) == results.len() - 1,
        failure_count(results) == 1,
    decreases results.len(),
{
    if j < results.len() - 1 {
        lemma_counts_one_failure(results.drop_last(), j);
    } else {
        lemma_counts_no_failure(results.drop_last());
    }
}

proof fn lemma_counts_no_failure(results: Seq<ResultModel>)
    requires
        forall|k: int| 0 <= k < results.len() ==> #[trigger] results[k] is Success,
    ensures
        success_count(results) == results.len(),
        failure_count(results) == 0,
    decreases results.len(),
{
    if results.len() > 0 {
        lemma_counts_no_failure(results.drop_last());
    }
}

/// In a batch of uploads where exactly one task failed (its source could not
/// be read or sent) and every other one was accepted by the server, there is
/// one result per file: all successes but one failure, at the failed file.
pub proof fn lemma_uploads_one_failure(
    files: Seq<FileDescriptor>,
    outcomes: Seq<UploadOutcome>,
    j: int,
)
    requires
        outcomes.len() == files.len(),
        0 <= j < files.len(),
        outcomes[j] is Err,
        forall|k: int|
            0 <= k < outcomes.len() && k != j ==> (#[trigger] outcomes[k] matches Ok(
                FileUploadStatus::Success(_),
            )),
    ensures
        upload_results(files, outcomes).len() == files.len(),
        upload_results(files, outcomes)[j] is Error,
        success_count(upload_results(files, outcomes)) == files.len() - 1,
        failure_count(upload_results(files, outcomes)) == 1,
{
    let results = upload_results(files, outcomes);
    assert forall|k: int| 0 <= k < results.len() && k != j implies #[trigger] results[k] is Success by {
        assert(outcomes[k] matches Ok(FileUploadStatus::Success(_)));
    }
    lemma_counts_one_failure(results, j);
}

/// In a batch of downloads where exactly one task failed and every other one
/// completed, there is one result per file: all successes but one failure, at
/// the failed file.
pub proof fn lemma_downloads_one_failure(
    files: Seq<FileDescriptor>,
    outcomes: Seq<DownloadOutcome>,
    j: int,
)
    requires
        outcomes.len() == files.len(),
        0 <= j < files.len(),
        outcomes[j] is Err,
        forall|k: int| 0 <= k < outcomes.len() && k != j ==> #[trigger] outcomes[k] is Ok,
    ensures
        download_results(files, outcomes).len() == files.len(),
        download_results(files, outcomes)[j] is Error,
        success_count(download_results(files, outcomes)) == files.len() - 1,
        failure_count(download_results(files, outcomes)) == 1,
{
    let results = download_results(files, outcomes);
    assert forall|k: int| 0 <= k < results.len() && k != j implies #[trigger] results[k] is Success by {
        assert(outcomes[k] is Ok);
    }
    lemma_counts_one_failure(results, j);
}

/// Settles the upload of one file.
pub fn settle_upload(file: &FileDescriptor, outcome: UploadOutcome) -> (r: TransferResult)
    ensures
        r@ == upload_result(*file, outcome),
{
    match outcome {
        Ok(FileUploadStatus::Success(info)) => TransferResult::Success {
            name: info.name,
            size: info.size,
        },
        Ok(FileUploadStatus::Error(e)) => TransferResult::Error {
            message: joined(&file.name, " - Error while uploading file: ", &e.error_msg),
        },
        Err(e) => TransferResult::Error { message: joined(&file.name, " - operation failed. ", &e) },
    }
}

/// Settles the download of one file.
pub fn settle_download(file: &FileDescriptor, outcome: DownloadOutcome) -> (r: TransferResult)
    ensures
        r@ == download_result(*file, outcome),
{
    match outcome {
        Ok(size) => TransferResult::Success { name: file.name.clone(), size },
        Err(e) => TransferResult::Error { message: joined(&file.name, " - ", &e) },
    }
}

/// Reduces the outcomes of an upload batch to one result per file, in the
/// order of the files, whatever order the tasks finished in.
pub fn report_uploads(files: &Vec<FileDescriptor>, outcomes: Vec<UploadOutcome>) -> (r: Vec<
    TransferResult,
>)
    requires
        outcomes@.len() == files@.len(),
    ensures
        r@.map_values(|t: TransferResult| t@) == upload_results(files@, outcomes@),
{
    let ghost outs = outcomes@;
    let mut results: Vec<TransferResult> = Vec::new();
    let mut rest = outcomes;
    let mut i: usize = 0;
    while i < files.len()
        invariant
            0 <= i <= files@.len(),
            outs.len() == files@.len(),
            results@.len() == i,
            rest@.len() == files@.len() - i,
            rest@ == outs.skip(i as int),
            forall|k: int| 0 <= k < i ==> #[trigger] results@[k]@ == upload_result(files@[k], outs[k]),
        decreases files.len() - i,
    {
        let outcome = rest.remove(0);
        results.push(settle_upload(&files[i], outcome));
        i = i + 1;
    }
    assert(results@.map_values(|t: TransferResult| t@) =~= upload_results(files@, outs));
    results
}

/// Reduces the outcomes of a download batch to one result per file, in the
/// order of the files, whatever order the tasks finished in.
pub fn report_downloads(files: &Vec<FileDescriptor>, outcomes: Vec<DownloadOutcome>) -> (r: Vec<
    TransferResult,
>)
    requires
        outcomes@.len() == files@.len(),
    ensures
        r@.map_values(|t: TransferResult| t@) == download_results(files@, outcomes@),
{
    let ghost outs = outcomes@;
    let mut results: Vec<TransferResult> = Vec::new();
    let mut rest = outcomes;
    let mut i: usize = 0;
    while i < files.len()
        invariant
            0 <= i <= files@.len(),
            outs.len() == files@.len(),
            results@.len() == i,
            rest@ == outs.skip(i as int),
            forall|k: int| 0 <= k < i ==> #[trigger] results@[k]@ == download_result(files@[k], outs[k]),
        decreases files.len() - i,
    {
        let outcome = rest.remove(0);
        results.push(settle_download(&files[i], outcome));
        i = i + 1;
    }
    assert(results@.map_values(|t: TransferResult| t@) =~= download_results(files@, outs));
    results
}

} // verus!
