//! The processing of one input file, as a machine that asks for I/O and is
//! told what came of it.
//!
//! The library does no I/O. A job says what is to be done next (open the
//! input, read a chunk of it, write the sidecar), the caller does it and
//! hands the outcome back, and the job decides how to go on. An input is
//! opened, read to its end chunk by chunk, and only then is its sidecar
//! written; the first request that fails ends the job.

use crate::failure::{Failure, FailureText, Stage};
use crate::hasher::{md5_digest, Digester, DIGEST_LEN};
use crate::sidecar::{
    lemma_last_write_wins, lemma_write_again_changes_nothing, path_file_name, sidecar_of,
    Directory, Sidecar, SidecarText,
};
use vstd::prelude::*;
use vstd::slice::slice_subrange;
use vstd::string::*;

verus! {

/// The number of bytes that a caller is expected to read at a time. Any
/// other size gives the same digest.
pub const CHUNK_SIZE: usize = 1024;

/// What a job is waiting for.
enum Phase {
    Opening,
    Reading(Digester),
    Writing,
}

/// The processing of one input file, not yet at its end.
pub struct FileJob {
    path: String,
    phase: Phase,
}

/// A job as plain values.
pub enum JobText {
    /// The input at `path` is to be opened.
    Opening { path: Seq<char> },
    /// The input is open, and `taken` are the bytes read from it so far.
    Reading { path: Seq<char>, taken: Seq<u8> },
    /// The input was read to its end, and its sidecar is to be written.
    Writing { path: Seq<char> },
}

impl View for FileJob {
    type V = JobText;

    closed spec fn view(&self) -> JobText {
        match self.phase {
            Phase::Opening => JobText::Opening { path: self.path@ },
            Phase::Reading(digester) => JobText::Reading { path: self.path@, taken: digester@ },
            Phase::Writing => JobText::Writing { path: self.path@ },
        }
    }
}

/// What a job asks its caller to do.
#[derive(Debug)]
pub enum Request {
    /// Open the input file for reading.
    Open,
    /// Read the next chunk of the input.
    Read,
    /// Create the sidecar in the working directory, replacing a file of that
    /// name if there is one, and write its content.
    Write(Sidecar),
}

/// A request as plain values.
pub enum RequestText {
    Open,
    Read,
    Write(SidecarText),
}

impl View for Request {
    type V = RequestText;

    open spec fn view(&self) -> RequestText {
        match self {
            Request::Open => RequestText::Open,
            Request::Read => RequestText::Read,
            Request::Write(sidecar) => RequestText::Write(sidecar@),
        }
    }
}

/// What came of a request.
pub enum Reply<'a> {
    /// It was carried out. After a read these are the bytes that were read,
    /// none at the end of the input; after another request they are ignored.
    Done(&'a [u8]),
    /// It failed, with these details.
    Failed(String),
}

/// A reply as plain values.
pub enum ReplyText {
    Done(Seq<u8>),
    Failed(Seq<char>),
}

impl<'a> View for Reply<'a> {
    type V = ReplyText;

    open spec fn view(&self) -> ReplyText {
        match self {
            Reply::Done(bytes) => ReplyText::Done(bytes@),
            Reply::Failed(details) => ReplyText::Failed(details@),
        }
    }
}

/// How a job goes on after a reply.
pub enum Progress {
    /// The job goes on with this request.
    Next(FileJob, Request),
    /// The job is over: the file was processed, or it failed.
    Finished(Result<(), Failure>),
    /// The input was read to its end, but its path has no final component to
    /// name a sidecar after. Nothing is written.
    Unnamed,
}

/// Progress as plain values.
pub enum ProgressText {
    Next(JobText, RequestText),
    Finished(Result<(), FailureText>),
    Unnamed,
}

impl View for Progress {
    type V = ProgressText;

    open spec fn view(&self) -> ProgressText {
        match self {
            Progress::Next(job, request) => ProgressText::Next(job@, request@),
            Progress::Finished(Ok(())) => ProgressText::Finished(Ok(())),
            Progress::Finished(Err(failure)) => ProgressText::Finished(Err(failure@)),
            Progress::Unnamed => ProgressText::Unnamed,
        }
    }
}

/// The rule of the machine: how a job goes on after a reply to its request.
pub open spec fn step(job: JobText, reply: ReplyText) -> ProgressText {
    match job {
        JobText::Opening { path } => match reply {
            ReplyText::Done(_) => ProgressText::Next(
                JobText::Reading { path, taken: Seq::empty() },
                RequestText::Read,
            ),
            ReplyText::Failed(details) => ProgressText::Finished(
                Err(FailureText { path, stage: Stage::Open, details }),
            ),
        },
        JobText::Reading { path, taken } => match reply {
            ReplyText::Done(bytes) => if bytes.len() > 0 {
                ProgressText::Next(
                    JobText::Reading { path, taken: taken + bytes },
                    RequestText::Read,
                )
            } else {
                match sidecar_of(path_file_name(path), md5_digest(taken)) {
                    Some(sidecar) => ProgressText::Next(
                        JobText::Writing { path },
                        RequestText::Write(sidecar),
                    ),
                    None => ProgressText::Unnamed,
                }
            },
            ReplyText::Failed(details) => ProgressText::Finished(
                Err(FailureText { path, stage: Stage::Read, details }),
            ),
        },
        JobText::Writing { path } => match reply {
            ReplyText::Done(_) => ProgressText::Finished(Ok(())),
            ReplyText::Failed(details) => ProgressText::Finished(
                Err(FailureText { path, stage: Stage::Write, details }),
            ),
        },
    }
}

impl FileJob {
    /// A job for the input at `path`. Its first request is `Request::Open`.
    pub fn start(path: &str) -> (job: FileJob)
        ensures
            job@ == (JobText::Opening { path: path@ }),
    {
        FileJob { path: String::from_str(path), phase: Phase::Opening }
    }

    /// Goes on after the reply to the job's request.
    pub fn resume(self, reply: Reply<'_>) -> (progress: Progress)
        ensures
            progress@ == step(self@, reply@),
            progress matches Progress::Next(_, Request::Write(sidecar))
                ==> sidecar.content@.len() == 2 * DIGEST_LEN + 1,
    {
        let FileJob { path, phase } = self;
        match phase {
            Phase::Opening => match reply {
                Reply::Done(_) => Progress::Next(
                    FileJob { path, phase: Phase::Reading(Digester::new()) },
                    Request::Read,
                ),
                Reply::Failed(details) => Progress::Finished(
                    Err(Failure { path, stage: Stage::Open, details }),
                ),
            },
            Phase::Reading(digester) => match reply {
                Reply::Done(bytes) => {
                    if bytes.len() > 0 {
                        let mut digester = digester;
                        digester.update(bytes);
                        Progress::Next(
                            FileJob { path, phase: Phase::Reading(digester) },
                            Request::Read,
                        )
                    } else {
                        let digest = digester.finalize();
                        match Sidecar::for_path(path.as_str(), digest.as_slice()) {
                            Some(sidecar) => Progress::Next(
                                FileJob { path, phase: Phase::Writing },
                                Request::Write(sidecar),
                            ),
                            None => Progress::Unnamed,
                        }
                    }
                },
                Reply::Failed(details) => Progress::Finished(
                    Err(Failure { path, stage: Stage::Read, details }),
                ),
            },
            Phase::Writing => match reply {
                Reply::Done(_) => Progress::Finished(Ok(())),
                Reply::Failed(details) => Progress::Finished(
                    Err(Failure { path, stage: Stage::Write, details }),
                ),
            },
        }
    }
}

/// How a job stands after a series of replies, each given to the request
/// that stood before it. Replies that come when the job is over change
/// nothing.
pub open spec fn run(progress: ProgressText, replies: Seq<ReplyText>) -> ProgressText
    decreases replies.len(),
{
    if replies.len() == 0 {
        progress
    } else {
        match progress {
            ProgressText::Next(job, _) => run(step(job, replies.first()), replies.drop_first()),
            _ => progress,
        }
    }
}

/// Where a job for `path` stands when its input has been read to the end
/// and `content` is all that was read: its sidecar is to be written, or the
/// path has no name for one.
pub open spec fn after_reading(path: Seq<char>, content: Seq<u8>) -> ProgressText {
    step(JobText::Reading { path, taken: content }, ReplyText::Done(Seq::empty()))
}

/// Runs a job for `path` over an input that is already in memory, handing
/// the content over in chunks of `chunk_size` bytes, up to the request to
/// write. Returns the sidecar that the job asks to write, or `None` where
/// the path has no final component to name it after.
pub fn sidecar_for_bytes(path: &str, content: &[u8], chunk_size: usize) -> (sidecar: Option<
    Sidecar,
>)
    requires
        chunk_size > 0,
    ensures
        sidecar.deep_view() == sidecar_of(path_file_name(path@), md5_digest(content@)),
        sidecar matches Some(written) ==> written.content@.len() == 2 * DIGEST_LEN + 1,
{
    let nothing = slice_subrange(content, 0, 0);
    let mut job = match FileJob::start(path).resume(Reply::Done(nothing)) {
        Progress::Next(job, _) => job,
        _ => vstd::pervasive::unreached(),
    };
    let mut pos: usize = 0;
    assert(content@.take(0) =~= Seq::<u8>::empty());
    while pos < content.len()
        invariant
            chunk_size > 0,
            pos <= content.len(),
            job@ == (JobText::Reading { path: path@, taken: content@.take(pos as int) }),
        decreases content.len() - pos,
    {
        let end: usize = if content.len() - pos < chunk_size {
            content.len()
        } else {
            pos + chunk_size
        };
        let chunk = slice_subrange(content, pos, end);
        assert(content@.take(pos as int) + chunk@ =~= content@.take(end as int));
        job = match job.resume(Reply::Done(chunk)) {
            Progress::Next(job, _) => job,
            _ => vstd::pervasive::unreached(),
        };
        pos = end;
    }
    assert(content@.take(pos as int) =~= content@);
    match job.resume(Reply::Done(nothing)) {
        Progress::Next(_, Request::Write(sidecar)) => Some(sidecar),
        Progress::Unnamed => None,
        _ => vstd::pervasive::unreached(),
    }
}

/// The replies of a run in which nothing fails, over an input that comes in
/// `chunks`: one to the open, one for each chunk, and one for the end of the
/// input.
pub open spec fn replies_of(chunks: Seq<Seq<u8>>) -> Seq<ReplyText> {
    seq![ReplyText::Done(Seq::empty())] + chunks.map_values(
        |chunk: Seq<u8>| ReplyText::Done(chunk),
    ) + seq![ReplyText::Done(Seq::empty())]
}

/// Where a new job for `path` stands: it asks for the input to be opened.
pub open spec fn started(path: Seq<char>) -> ProgressText {
    ProgressText::Next(JobText::Opening { path }, RequestText::Open)
}

/// Whether no chunk is empty. An empty chunk stands for the end of the input,
/// so a read gives one only there.
pub open spec fn all_nonempty(chunks: Seq<Seq<u8>>) -> bool {
    forall|i: int| 0 <= i < chunks.len() ==> (#[trigger] chunks[i]).len() > 0
}

/// A job that has read `taken` and is then given `chunks` and the end of the
/// input stands where a job stands that has read all of it at once.
proof fn lemma_reading_joins_chunks(path: Seq<char>, taken: Seq<u8>, chunks: Seq<Seq<u8>>)
    requires
        all_nonempty(chunks),
    ensures
        run(
            ProgressText::Next(JobText::Reading { path, taken }, RequestText::Read),
            chunks.map_values(|chunk: Seq<u8>| ReplyText::Done(chunk)) + seq![
                ReplyText::Done(Seq::empty()),
            ],
        ) == after_reading(path, taken + chunks.flatten()),
    decreases chunks.len(),
{
    let wrap = |chunk: Seq<u8>| ReplyText::Done(chunk);
    let end = seq![ReplyText::Done(Seq::<u8>::empty())];
    let replies = chunks.map_values(wrap) + end;
    let reading = ProgressText::Next(JobText::Reading { path, taken }, RequestText::Read);
    if chunks.len() == 0 {
        assert(replies =~= end);
        assert(replies.drop_first() =~= Seq::<ReplyText>::empty());
        assert(taken + chunks.flatten() =~= taken);
        let last = step(JobText::Reading { path, taken }, replies.first());
        assert(run(reading, replies) == run(last, replies.drop_first()));
    } else {
        let rest = chunks.drop_first();
        assert(replies.first() == ReplyText::Done(chunks.first()));
        assert(replies.drop_first() =~= rest.map_values(wrap) + end);
        assert(chunks.first().len() > 0);
        assert forall|i: int| 0 <= i < rest.len() implies (#[trigger] rest[i]).len() > 0 by {
            assert(rest[i] == chunks[i + 1]);
        }
        lemma_reading_joins_chunks(path, taken + chunks.first(), rest);
        assert(taken + chunks.first() + rest.flatten() =~= taken + chunks.flatten());
    }
}

/// A run in which nothing fails takes in the whole input: after the last
/// reply the job stands where it would stand had it read the joined chunks
/// at once, whatever their number and sizes.
pub proof fn lemma_run_reads_whole_input(path: Seq<char>, chunks: Seq<Seq<u8>>)
    requires
        all_nonempty(chunks),
    ensures
        run(started(path), replies_of(chunks)) == after_reading(path, chunks.flatten()),
{
    let wrap = |chunk: Seq<u8>| ReplyText::Done(chunk);
    let end = seq![ReplyText::Done(Seq::<u8>::empty())];
    let replies = replies_of(chunks);
    assert(replies.first() == ReplyText::Done(Seq::<u8>::empty()));
    assert(replies.drop_first() =~= chunks.map_values(wrap) + end);
    lemma_reading_joins_chunks(path, Seq::empty(), chunks);
    assert(Seq::<u8>::empty() + chunks.flatten() =~= chunks.flatten());
}

/// The size of the chunks in which an input is read does not matter: two
/// runs over the same path, whose chunks join to the same bytes, end alike,
/// with the same sidecar to write.
pub proof fn lemma_chunking_is_immaterial(
    path: Seq<char>,
    first: Seq<Seq<u8>>,
    second: Seq<Seq<u8>>,
)
    requires
        all_nonempty(first),
        all_nonempty(second),
        first.flatten() == second.flatten(),
    ensures
        run(started(path), replies_of(first)) == run(started(path), replies_of(second)),
{
    lemma_run_reads_whole_input(path, first);
    lemma_run_reads_whole_input(path, second);
}

/// The working directory once the request of `progress` has been carried
/// out without failure. Only a write changes it.
pub open spec fn directory_after(progress: ProgressText, directory: Directory) -> Directory {
    match progress {
        ProgressText::Next(_, RequestText::Write(sidecar)) => sidecar.written_into(directory),
        _ => directory,
    }
}

/// Processing an unchanged file a second time changes nothing: the second
/// run ends as the first did, with the same sidecar to write, and writing it
/// leaves the directory as the first run left it.
pub proof fn lemma_second_run_changes_nothing(
    path: Seq<char>,
    first: Seq<Seq<u8>>,
    second: Seq<Seq<u8>>,
    directory: Directory,
)
    requires
        all_nonempty(first),
        all_nonempty(second),
        first.flatten() == second.flatten(),
    ensures
        run(started(path), replies_of(second)) == run(started(path), replies_of(first)),
        ({
            let once = directory_after(run(started(path), replies_of(first)), directory);
            directory_after(run(started(path), replies_of(second)), once) == once
        }),
{
    lemma_chunking_is_immaterial(path, first, second);
    match run(started(path), replies_of(first)) {
        ProgressText::Next(_, RequestText::Write(sidecar)) => {
            lemma_write_again_changes_nothing(sidecar, directory);
        },
        _ => {},
    }
}

/// Two inputs whose paths end in the same base name share one sidecar: when
/// both have been processed, the directory holds the sidecar of the one
/// that was written last, as if the other had never been written.
pub proof fn lemma_same_base_name_shares_sidecar(
    first_path: Seq<char>,
    first_content: Seq<u8>,
    second_path: Seq<char>,
    second_content: Seq<u8>,
    directory: Directory,
)
    requires
        path_file_name(first_path) == path_file_name(second_path),
    ensures
        directory_after(
            after_reading(second_path, second_content),
            directory_after(after_reading(first_path, first_content), directory),
        ) == directory_after(after_reading(second_path, second_content), directory),
{
    let first = sidecar_of(path_file_name(first_path), md5_digest(first_content));
    let second = sidecar_of(path_file_name(second_path), md5_digest(second_content));
    if first is Some && second is Some {
        lemma_last_write_wins(first->0, second->0, directory);
    }
}

} // verus!
