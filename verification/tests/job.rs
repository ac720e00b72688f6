use md5_hasher::failure::Stage;
use md5_hasher::job::{FileJob, Progress, Reply, Request};

fn next(progress: Progress) -> (FileJob, Request) {
    match progress {
        Progress::Next(job, request) => (job, request),
        Progress::Finished(result) => panic!("the job is over: {:?}", result),
        Progress::Unnamed => panic!("the job has no name for a sidecar"),
    }
}

fn reading(path: &str) -> FileJob {
    let (job, request) = next(FileJob::start(path).resume(Reply::Done(&[])));
    assert!(matches!(request, Request::Read));
    job
}

#[test]
fn job_reads_to_the_end_and_then_writes() {
    let job = reading("dir/hello.txt");
    let (job, request) = next(job.resume(Reply::Done(b"hello")));
    assert!(matches!(request, Request::Read));
    let (job, request) = next(job.resume(Reply::Done(b" world")));
    assert!(matches!(request, Request::Read));
    let (job, request) = next(job.resume(Reply::Done(b"")));
    match request {
        Request::Write(sidecar) => {
            assert_eq!(sidecar.name, "hello.txt.md5");
            assert_eq!(sidecar.content, "5EB63BBBE01EEED093CB22BB8F5ACDC3\n");
        }
        other => panic!("expected a write, got {:?}", other),
    }
    match job.resume(Reply::Done(&[])) {
        Progress::Finished(Ok(())) => {}
        _ => panic!("expected the job to end well"),
    }
}

#[test]
fn bytes_of_the_open_and_write_replies_are_ignored() {
    let (job, _) = next(FileJob::start("abc.txt").resume(Reply::Done(b"not content")));
    let (job, _) = next(job.resume(Reply::Done(b"abc")));
    let (job, request) = next(job.resume(Reply::Done(b"")));
    match request {
        Request::Write(sidecar) => {
            assert_eq!(sidecar.content, "900150983CD24FB0D6963F7D28E17F72\n")
        }
        other => panic!("expected a write, got {:?}", other),
    }
    assert!(matches!(job.resume(Reply::Done(b"ignored")), Progress::Finished(Ok(()))));
}

#[test]
fn open_failure_ends_the_job_before_any_read() {
    let reply = Reply::Failed(String::from("No such file or directory (os error 2)"));
    match FileJob::start("missing/file.txt").resume(reply) {
        Progress::Finished(Err(failure)) => {
            assert_eq!(failure.path, "missing/file.txt");
            assert_eq!(failure.stage, Stage::Open);
            assert_eq!(failure.details, "No such file or directory (os error 2)");
        }
        _ => panic!("expected an open failure"),
    }
}

#[test]
fn read_failure_ends_the_job_without_a_sidecar() {
    let job = reading("disk/data.bin");
    let (job, _) = next(job.resume(Reply::Done(b"partial")));
    match job.resume(Reply::Failed(String::from("Input/output error (os error 5)"))) {
        Progress::Finished(Err(failure)) => {
            assert_eq!(failure.path, "disk/data.bin");
            assert_eq!(failure.stage, Stage::Read);
            assert_eq!(failure.details, "Input/output error (os error 5)");
        }
        _ => panic!("expected a read failure"),
    }
}

#[test]
fn read_failure_on_the_first_chunk() {
    match reading("a_directory").resume(Reply::Failed(String::from("Is a directory (os error 21)")))
    {
        Progress::Finished(Err(failure)) => {
            assert_eq!(failure.stage, Stage::Read);
            assert_eq!(failure.path, "a_directory");
        }
        _ => panic!("expected a read failure"),
    }
}

#[test]
fn write_failure_fails_the_file_though_the_digest_was_computed() {
    let job = reading("abc.txt");
    let (job, _) = next(job.resume(Reply::Done(b"abc")));
    let (job, request) = next(job.resume(Reply::Done(&[])));
    assert!(matches!(request, Request::Write(_)));
    match job.resume(Reply::Failed(String::from("Permission denied (os error 13)"))) {
        Progress::Finished(Err(failure)) => {
            assert_eq!(failure.path, "abc.txt");
            assert_eq!(failure.stage, Stage::Write);
            assert_eq!(failure.details, "Permission denied (os error 13)");
        }
        _ => panic!("expected a write failure"),
    }
}

#[test]
fn path_without_a_base_name_ends_unnamed() {
    let job = reading("..");
    assert!(matches!(job.resume(Reply::Done(&[])), Progress::Unnamed));
}

#[test]
fn empty_input_goes_straight_to_the_write() {
    let job = reading("empty");
    let (_, request) = next(job.resume(Reply::Done(&[])));
    match request {
        Request::Write(sidecar) => {
            assert_eq!(sidecar.name, "empty.md5");
            assert_eq!(sidecar.content, "D41D8CD98F00B204E9800998ECF8427E\n");
        }
        other => panic!("expected a write, got {:?}", other),
    }
}
