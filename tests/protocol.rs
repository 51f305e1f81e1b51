use twinpane::listing::AttributeMode;
use twinpane::protocol::{
    decode_request, encode_request, parse_path, parse_request, request_to_bytes, status_ok,
    status_reply, Request, Verb,
};

fn s(x: &str) -> String {
    x.to_string()
}

#[test]
fn requests_are_written_as_verb_and_args() {
    let cases = vec![
        (Request::GetDir { path: s("/tmp"), mode: AttributeMode::Basic }, "GetDir /tmp|0"),
        (Request::GetDir { path: s("/tmp"), mode: AttributeMode::Extended }, "GetDir /tmp|1"),
        (
            Request::FilterDir { path: s("/tmp"), mode: AttributeMode::Basic, keyword: s("txt") },
            "FilterDir /tmp|0|txt",
        ),
        (Request::GetFile { path: s("/tmp/a.txt") }, "GetFile /tmp/a.txt"),
        (
            Request::SaveFile { path: s("/tmp/a.txt"), content: s("a|b;c") },
            "SaveFile /tmp/a.txt;a|b;c",
        ),
        (Request::CreateDir { path: s("/tmp/d") }, "CreateDir /tmp/d"),
        (Request::RemoveDir { path: s("/tmp/d") }, "RemoveDir /tmp/d"),
        (Request::CreateFile { path: s("/tmp/f") }, "CreateFile /tmp/f"),
        (Request::RemoveFile { path: s("/tmp/f") }, "RemoveFile /tmp/f"),
        (
            Request::MoveFile { source: s("/tmp/a.txt"), destination: s("/home") },
            "MoveFile /tmp/a.txt|/home",
        ),
        (
            Request::RenameFile { source: s("/tmp/a.txt"), new_name: s("b.txt") },
            "RenameFile /tmp/a.txt|b.txt",
        ),
    ];
    for (req, text) in cases {
        assert_eq!(encode_request(&req), text);
        let back = parse_request(text).expect("reads back");
        assert_eq!(encode_request(&back), text);
        assert_eq!(back.verb(), req.verb());
    }
}

#[test]
fn save_content_keeps_separators() {
    match parse_request("SaveFile /tmp/a.txt;x;y|z\nw") {
        Some(Request::SaveFile { path, content }) => {
            assert_eq!(path, "/tmp/a.txt");
            assert_eq!(content, "x;y|z\nw");
        }
        _ => panic!("not a save"),
    }
}

#[test]
fn get_dir_path_may_hold_a_bar() {
    match parse_request("GetDir /tmp/a|b|1") {
        Some(Request::GetDir { path, mode }) => {
            assert_eq!(path, "/tmp/a|b");
            assert_eq!(mode, AttributeMode::Extended);
        }
        _ => panic!("not a listing"),
    }
}

#[test]
fn malformed_requests_are_refused() {
    for text in [
        "",
        "GetDir",
        "GetDir /tmp",
        "GetDir /tmp|2",
        "GetDir /tmp|01",
        "FilterDir /tmp|0",
        "FilterDir /tmp|x|kw",
        "SaveFile /tmp/a.txt",
        "MoveFile /tmp/a.txt",
        "RenameFile b.txt",
        "Fetch /tmp",
        "getdir /tmp|0",
    ] {
        assert!(parse_request(text).is_none(), "{text}");
    }
}

#[test]
fn bytes_of_a_request_decode_back() {
    let req = Request::RenameFile { source: s("/tmp/é.txt"), new_name: s("ü.txt") };
    let bytes = request_to_bytes(&req);
    assert_eq!(bytes, "RenameFile /tmp/é.txt|ü.txt".as_bytes());
    let back = decode_request(bytes).unwrap();
    assert_eq!(encode_request(&back), "RenameFile /tmp/é.txt|ü.txt");
    assert!(decode_request(vec![0xff, 0xfe]).is_none());
}

#[test]
fn status_replies() {
    assert_eq!(status_reply(true), "Ok");
    assert_eq!(status_reply(false), "Error");
    assert!(status_ok("Ok"));
    assert!(!status_ok("Error"));
    assert!(!status_ok("Error: gone"));
    assert!(status_ok("Err"));
}

#[test]
fn save_expects_no_reply() {
    let save = Request::SaveFile { path: s("/a"), content: s("") };
    assert!(!save.expects_reply());
    assert_eq!(save.verb(), Verb::SaveFile);
    assert!(Request::GetFile { path: s("/a") }.expects_reply());
}

#[test]
fn path_after_prefix_loses_padding() {
    assert_eq!(parse_path("GetFile ", "GetFile /tmp/a\0\0"), Some(s("/tmp/a")));
    assert_eq!(parse_path("GetFile ", "GetFile /tmp/a"), Some(s("/tmp/a")));
    assert_eq!(parse_path("GetFile ", "GetDir /tmp"), None);
    assert_eq!(parse_path("GetFile ", "GetFile "), None);
    assert_eq!(parse_path("GetFile ", "GetFile \0"), Some(s("")));
}

#[test]
fn path_after_prefix_ignores_surrounding_white_space() {
    assert_eq!(parse_path("GetFile ", "  GetFile /tmp/a.txt\0\0"), Some(s("/tmp/a.txt")));
    assert_eq!(parse_path("GetFile ", "GetFile /tmp/a.txt \n"), Some(s("/tmp/a.txt")));
    assert_eq!(parse_path("GetFile ", "\tGetFile /tmp/a b\u{3000}"), Some(s("/tmp/a b")));
    assert_eq!(parse_path("GetFile ", "   "), None);
}
