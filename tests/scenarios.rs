use std::collections::BTreeMap;

use twinpane::framing::{encode_frame, FrameReader};
use twinpane::listing::{AttributeMode, RawEntry};
use twinpane::protocol::{encode_request, request_to_bytes, status_reply, ReplyKind, Request};
use twinpane::server::{
    answer_listing, file_reply, on_read, plan, plan_message, ConnectionStep, FileReply, FsAction,
    ReadEvent, ReadOutcome,
};

/// A directory tree held in memory: paths of directories, and files with
/// their content.
struct MemFs {
    dirs: Vec<String>,
    files: BTreeMap<String, String>,
}

impl MemFs {
    fn new() -> MemFs {
        let mut files = BTreeMap::new();
        files.insert("/tmp/a.txt".to_string(), "first".to_string());
        files.insert("/tmp/c.log".to_string(), "x".to_string());
        MemFs { dirs: vec!["/tmp".to_string(), "/tmp/sub".to_string()], files }
    }

    fn parent(p: &str) -> &str {
        &p[..p.rfind('/').unwrap()]
    }

    fn entries(&self, dir: &str) -> Option<Vec<RawEntry>> {
        if !self.dirs.iter().any(|d| d == dir) {
            return None;
        }
        let mut out = Vec::new();
        for d in self.dirs.iter().filter(|d| d.contains('/') && Self::parent(d) == dir) {
            out.push(raw(&d[dir.len() + 1..], true, 4096, 0o40755));
        }
        for (f, c) in self.files.iter().filter(|(f, _)| Self::parent(f) == dir) {
            out.push(raw(&f[dir.len() + 1..], false, c.len() as u64, 0o100644));
        }
        Some(out)
    }

    /// Carries out one request and gives the reply text, if one is due.
    fn serve(&mut self, bytes: Vec<u8>) -> Option<String> {
        match plan_message(bytes) {
            FsAction::List { path, mode, keyword } => {
                Some(answer_listing(self.entries(&path), mode, &keyword))
            }
            FsAction::Read { path } => {
                let reply = match self.files.get(&path) {
                    Some(c) => file_reply(ReadOutcome::Content(c.clone())),
                    None => file_reply(ReadOutcome::OpenFailed),
                };
                Some(file_json(&reply))
            }
            FsAction::Write { path, content } => {
                self.files.insert(path, content);
                None
            }
            FsAction::Rename { from, to } => {
                let ok = match self.files.remove(&from) {
                    Some(c) => {
                        self.files.insert(to, c);
                        true
                    }
                    None => false,
                };
                Some(status_reply(ok))
            }
            _ => Some(status_reply(false)),
        }
    }
}

#[test]
fn malformed_message_is_refused() {
    assert!(matches!(plan_message(b"GetDir /tmp".to_vec()), FsAction::Refuse));
    assert!(matches!(plan_message(vec![0xc3]), FsAction::Refuse));
    assert_eq!(MemFs::new().serve(b"Nonsense".to_vec()), Some("Error".to_string()));
}

#[test]
fn reply_kinds_follow_the_verb() {
    let p = || "/tmp".to_string();
    assert_eq!(get_dir(AttributeMode::Basic).reply_kind(), ReplyKind::Listing);
    assert_eq!(Request::GetFile { path: p() }.reply_kind(), ReplyKind::File);
    assert_eq!(Request::SaveFile { path: p(), content: p() }.reply_kind(), ReplyKind::NoReply);
    assert_eq!(Request::CreateDir { path: p() }.reply_kind(), ReplyKind::Status);
}

fn raw(name: &str, is_dir: bool, size: u64, mode: u32) -> RawEntry {
    RawEntry { name: name.to_string(), is_dir, modified: 1_700_000_000, size, uid: 0, gid: 0, mode }
}

fn file_json(r: &FileReply) -> String {
    let mut m = serde_json::Map::new();
    m.insert("success".to_string(), serde_json::Value::Bool(r.success));
    m.insert("message".to_string(), serde_json::Value::String(r.message.clone()));
    serde_json::Value::Object(m).to_string()
}

/// Sends a request through the framing, as a client would, and returns the
/// reply text read back through the framing.
fn round_trip(fs: &mut MemFs, req: &Request) -> Option<String> {
    let mut server_in = FrameReader::new();
    server_in.push(&encode_frame(&request_to_bytes(req)));
    let frame = server_in.next_frame().expect("whole request");
    let reply = fs.serve(frame)?;
    let mut client_in = FrameReader::new();
    client_in.push(&encode_frame(reply.as_bytes()));
    Some(String::from_utf8(client_in.next_frame().unwrap()).unwrap())
}

fn listing(text: &str) -> Vec<Vec<String>> {
    serde_json::from_str(text).unwrap()
}

fn get_dir(mode: AttributeMode) -> Request {
    Request::GetDir { path: "/tmp".to_string(), mode }
}

#[test]
fn scenario_basic_listing_has_two_columns() {
    let req = get_dir(AttributeMode::Basic);
    assert_eq!(encode_request(&req), "GetDir /tmp|0");
    let rows = listing(&round_trip(&mut MemFs::new(), &req).unwrap());
    assert_eq!(rows.len(), 3);
    assert!(rows.iter().all(|r| r.len() == 2));
}

#[test]
fn scenario_extended_listing_has_permissions() {
    let req = get_dir(AttributeMode::Extended);
    assert_eq!(encode_request(&req), "GetDir /tmp|1");
    let rows = listing(&round_trip(&mut MemFs::new(), &req).unwrap());
    assert_eq!(rows.len(), 3);
    for r in &rows {
        assert_eq!(r.len(), 6);
        let p: Vec<char> = r[5].chars().collect();
        assert_eq!(p.len(), 9);
        for (k, c) in p.iter().enumerate() {
            let letter = ['r', 'w', 'x'][k % 3];
            assert!(*c == letter || *c == '-');
        }
    }
    assert!(rows.iter().any(|r| r[0] == "/sub" && r[5] == "rwxr-xr-x"));
    assert!(rows.iter().any(|r| r[0] == "a.txt" && r[5] == "rw-r--r--" && r[2] == "5"));
}

#[test]
fn scenario_rename_then_list() {
    let mut fs = MemFs::new();
    let rename = Request::RenameFile { source: "/tmp/a.txt".to_string(), new_name: "b.txt".to_string() };
    assert_eq!(encode_request(&rename), "RenameFile /tmp/a.txt|b.txt");
    assert_eq!(round_trip(&mut fs, &rename).unwrap(), "Ok");
    let rows = listing(&round_trip(&mut fs, &get_dir(AttributeMode::Basic)).unwrap());
    let names: Vec<&str> = rows.iter().map(|r| r[0].as_str()).collect();
    assert!(names.contains(&"b.txt"));
    assert!(!names.contains(&"a.txt"));
}

#[test]
fn scenario_save_then_read() {
    let mut fs = MemFs::new();
    let save = Request::SaveFile { path: "/tmp/a.txt".to_string(), content: "hello\nworld".to_string() };
    assert_eq!(encode_request(&save), "SaveFile /tmp/a.txt;hello\nworld");
    assert_eq!(round_trip(&mut fs, &save), None);
    let reply = round_trip(&mut fs, &Request::GetFile { path: "/tmp/a.txt".to_string() }).unwrap();
    let v: serde_json::Value = serde_json::from_str(&reply).unwrap();
    assert_eq!(v["success"], serde_json::Value::Bool(true));
    assert_eq!(v["message"], serde_json::Value::String("hello\nworld".to_string()));
}

#[test]
fn move_keeps_the_name() {
    let req = Request::MoveFile { source: "/tmp/a.txt".to_string(), destination: "/home/u".to_string() };
    match plan(&req) {
        FsAction::Rename { from, to } => {
            assert_eq!(from, "/tmp/a.txt");
            assert_eq!(to, "/home/u/a.txt");
        }
        _ => panic!("not a rename"),
    }
    let bad = Request::MoveFile { source: "a.txt".to_string(), destination: "/home".to_string() };
    assert!(matches!(plan(&bad), FsAction::Refuse));
}

#[test]
fn filtered_listing_from_server() {
    let req = Request::FilterDir {
        path: "/tmp".to_string(),
        mode: AttributeMode::Basic,
        keyword: "TXT".to_string(),
    };
    let rows = listing(&round_trip(&mut MemFs::new(), &req).unwrap());
    assert_eq!(rows.len(), 1);
    assert_eq!(rows[0][0], "a.txt");
}

#[test]
fn unreadable_directory_lists_nothing() {
    let req = Request::GetDir { path: "/nowhere".to_string(), mode: AttributeMode::Basic };
    assert_eq!(round_trip(&mut MemFs::new(), &req).unwrap(), "[]");
}

#[test]
fn missing_file_reply() {
    let r = file_reply(ReadOutcome::OpenFailed);
    assert!(!r.success);
    assert_eq!(r.message, "Unable to open file.");
    let r = file_reply(ReadOutcome::ReadFailed);
    assert_eq!(r.message, "Unable to read file");
}

#[test]
fn connection_answers_each_whole_message_in_order() {
    let mut bytes = encode_frame(b"CreateDir /tmp/x");
    bytes.extend(encode_frame(b"bogus"));
    bytes.extend(encode_frame(b"GetFile /tmp/a.txt"));
    let (first, second) = bytes.split_at(30);
    let mut reader = FrameReader::new();
    match on_read(&mut reader, ReadEvent::Data(first.to_vec())) {
        ConnectionStep::Answer(work) => {
            assert_eq!(work.len(), 1);
            assert!(matches!(&work[0], FsAction::MakeDir { path } if path == "/tmp/x"));
        }
        ConnectionStep::Close => panic!("closed"),
    }
    match on_read(&mut reader, ReadEvent::Failed) {
        ConnectionStep::Answer(work) => assert!(work.is_empty()),
        ConnectionStep::Close => panic!("closed"),
    }
    match on_read(&mut reader, ReadEvent::Data(second.to_vec())) {
        ConnectionStep::Answer(work) => {
            assert_eq!(work.len(), 2);
            assert!(matches!(work[0], FsAction::Refuse));
            assert!(matches!(&work[1], FsAction::Read { path } if path == "/tmp/a.txt"));
        }
        ConnectionStep::Close => panic!("closed"),
    }
    assert!(matches!(on_read(&mut reader, ReadEvent::Closed), ConnectionStep::Close));
}

#[test]
fn listing_reply_reads_back_as_the_kept_rows() {
    let fs = MemFs::new();
    let text = answer_listing(fs.entries("/tmp"), AttributeMode::Basic, "");
    let rows = listing(&text);
    let names: Vec<&str> = rows.iter().map(|r| r[0].as_str()).collect();
    assert_eq!(names, vec!["/sub", "a.txt", "c.log"]);
    assert_eq!(answer_listing(None, AttributeMode::Basic, ""), "[]");
}
