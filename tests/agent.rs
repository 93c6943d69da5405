use lfs_dal::agent::{join_path, lfs_object_path, Action, Agent};
use lfs_dal::protocol::{Response, TransferResponse};
use lfs_dal::transfer::Transfer;

fn reply_of(r: Result<Action, lfs_dal::protocol::ProtocolError>) -> String {
    match r {
        Ok(Action::Reply(s)) => s,
        _ => panic!("expected a reply"),
    }
}

#[test]
fn init() {
    let mut agent = Agent::new(String::new());
    let reply = reply_of(agent.process(r#"{"event":"init"}"#));
    assert_eq!(&reply, "{}");
    assert!(agent.live.is_empty());
}

#[test]
fn upload() {
    let mut agent = Agent::new(String::new());
    let line = r#"{"event":"upload","oid":"aabbcc","path":"/tmp/object"}"#;
    let (oid, path) = match agent.process(line) {
        Ok(Action::Upload { oid, path }) => (oid, path),
        _ => panic!("expected an upload"),
    };
    assert_eq!(oid, "aabbcc");
    assert_eq!(path, "/tmp/object");
    assert_eq!(agent.live, vec!["aabbcc".to_string()]);
    let mut transfer = Transfer::new(oid);
    let progress = transfer.record_read(4).unwrap();
    assert_eq!(
        progress.json(),
        r#"{"event":"progress","oid":"aabbcc","bytesSoFar":4,"bytesSinceLast":4}"#
    );
    assert!(transfer.record_read(0).is_none());
    assert_eq!(
        transfer.finish(Ok(None)).json(),
        r#"{"event":"complete","oid":"aabbcc"}"#
    );
}

#[test]
fn download() {
    let mut agent = Agent::new("/tmp/work".to_string());
    let (oid, path) = match agent.process(r#"{"event":"download","oid":"aabbcc"}"#) {
        Ok(Action::Download { oid, path }) => (oid, path),
        _ => panic!("expected a download"),
    };
    let file_name = "/tmp/work/.git/lfs/objects/aa/bb/aabbcc";
    assert_eq!(path, file_name);
    let mut transfer = Transfer::new(oid);
    assert_eq!(
        transfer.record_read(4).unwrap().json(),
        r#"{"event":"progress","oid":"aabbcc","bytesSoFar":4,"bytesSinceLast":4}"#
    );
    assert!(transfer.record_read(0).is_none());
    assert_eq!(
        transfer.finish(Ok(Some(path))).json(),
        format!(r#"{{"event":"complete","oid":"aabbcc","path":"{}"}}"#, file_name)
    );
}

#[test]
fn terminate() {
    let mut agent = Agent::new(String::new());
    assert!(matches!(agent.process(r#"{"event":"terminate"}"#), Ok(Action::Drain)));
}

#[test]
fn terminate_drains_every_started_transfer() {
    let mut agent = Agent::new(String::new());
    assert!(matches!(
        agent.process(r#"{"event":"upload","oid":"1111","path":"a"}"#),
        Ok(Action::Upload { .. })
    ));
    assert!(matches!(
        agent.process(r#"{"event":"download","oid":"2222"}"#),
        Ok(Action::Download { .. })
    ));
    assert_eq!(agent.live, vec!["1111".to_string(), "2222".to_string()]);
    assert!(matches!(agent.process(r#"{"event":"terminate"}"#), Ok(Action::Drain)));
    assert!(agent.live.is_empty());
}

#[test]
fn init_twice_answers_twice() {
    let mut agent = Agent::new(String::new());
    assert_eq!(reply_of(agent.process(r#"{"event":"init"}"#)), "{}");
    assert_eq!(reply_of(agent.process(r#" { "event" : "init" } "#)), "{}");
    assert!(agent.live.is_empty());
}

#[test]
fn invalid_lines_are_errors() {
    let lines = [
        "",
        "not json",
        "[1,2]",
        r#"{"event":"init""#,
        r#"{"oid":"aabbcc"}"#,
        r#"{"event":"unknown"}"#,
        r#"{"event":3}"#,
        r#"{"event":"download"}"#,
        r#"{"event":"download","oid":5}"#,
        r#"{"event":"upload","oid":"aabbcc"}"#,
        r#"{"event":"upload","path":"x"}"#,
    ];
    for line in lines {
        let mut agent = Agent::new(String::new());
        match agent.process(line) {
            Err(e) => {
                assert_eq!(e.code, 1);
                assert_eq!(e.message, "invalid request");
            }
            Ok(_) => panic!("accepted {}", line),
        }
        assert!(agent.live.is_empty());
    }
}

#[test]
fn unknown_members_are_ignored() {
    let mut agent = Agent::new(String::new());
    match agent.process(r#"{"event":"download","oid":"abcdef","size":12,"extra":null}"#) {
        Ok(Action::Download { oid, path }) => {
            assert_eq!(oid, "abcdef");
            assert_eq!(path, ".git/lfs/objects/ab/cd/abcdef");
        }
        _ => panic!("expected a download"),
    }
}

#[test]
fn short_oid_download_fails_alone() {
    let mut agent = Agent::new(String::new());
    let reply = reply_of(agent.process(r#"{"event":"download","oid":"abc"}"#));
    assert_eq!(
        reply,
        r#"{"event":"complete","oid":"abc","error":{"code":1,"message":"object id too short"}}"#
    );
    assert!(agent.live.is_empty());
}

#[test]
fn object_path_is_sharded() {
    assert_eq!(lfs_object_path("aabbcc"), ".git/lfs/objects/aa/bb/aabbcc");
    assert_eq!(lfs_object_path("0123"), ".git/lfs/objects/01/23/0123");
}

#[test]
fn join_path_places_under_root() {
    assert_eq!(join_path("", "a/b"), "a/b");
    assert_eq!(join_path("/r", "a/b"), "/r/a/b");
    assert_eq!(join_path("/r/", "a/b"), "/r/a/b");
}

#[test]
fn progress_accounts_for_every_chunk() {
    let mut transfer = Transfer::new("aabbcc".to_string());
    let mut lines = Vec::new();
    for n in [3usize, 5, 1] {
        lines.push(transfer.record_read(n).unwrap().json());
    }
    assert!(transfer.record_read(0).is_none());
    assert_eq!(transfer.bytes_so_far, 9);
    assert_eq!(
        lines,
        vec![
            r#"{"event":"progress","oid":"aabbcc","bytesSoFar":3,"bytesSinceLast":3}"#,
            r#"{"event":"progress","oid":"aabbcc","bytesSoFar":8,"bytesSinceLast":5}"#,
            r#"{"event":"progress","oid":"aabbcc","bytesSoFar":9,"bytesSinceLast":1}"#,
        ]
    );
}

#[test]
fn large_counts_are_written_in_full() {
    let mut transfer = Transfer::new("ab\"cd".to_string());
    let report = transfer.record_read(8388608).unwrap();
    assert_eq!(
        report.json(),
        r#"{"event":"progress","oid":"ab\"cd","bytesSoFar":8388608,"bytesSinceLast":8388608}"#
    );
    let report = transfer.record_read(1234567890).unwrap();
    assert_eq!(report.bytes_so_far, 1242956498);
    assert_eq!(report.bytes_since_last, 1234567890);
}

#[test]
fn zero_length_object_has_no_progress() {
    let mut transfer = Transfer::new("aabbcc".to_string());
    assert!(transfer.record_read(0).is_none());
    assert_eq!(transfer.bytes_so_far, 0);
    assert_eq!(
        transfer.finish(Ok(None)).json(),
        r#"{"event":"complete","oid":"aabbcc"}"#
    );
}

#[test]
fn failed_transfer_reports_its_own_oid() {
    let failed = Transfer::new("1111".to_string());
    let mut other = Transfer::new("2222".to_string());
    let line = failed.finish(Err("No such file or directory (os error 2)".to_string())).json();
    assert_eq!(
        line,
        r#"{"event":"complete","oid":"1111","error":{"code":1,"message":"No such file or directory (os error 2)"}}"#
    );
    assert_eq!(
        other.record_read(2).unwrap().json(),
        r#"{"event":"progress","oid":"2222","bytesSoFar":2,"bytesSinceLast":2}"#
    );
    assert_eq!(
        other.finish(Ok(Some("p".to_string()))).json(),
        r#"{"event":"complete","oid":"2222","path":"p"}"#
    );
}

#[test]
fn failure_messages_are_escaped() {
    let r = TransferResponse::new("o".to_string(), Err("line\nbreak \\ \"q\"".to_string()));
    assert_eq!(
        r.json(),
        r#"{"event":"complete","oid":"o","error":{"code":1,"message":"line\nbreak \\ \"q\""}}"#
    );
}
