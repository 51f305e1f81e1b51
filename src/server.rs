//! The server's side of a connection: what each request asks of the
//! filesystem, and the reply that goes back.

use vstd::prelude::*;
use crate::listing::{
    describes, filter_dir, filtered, in_calendar, listing_rows, AttributeMode, RawEntry,
};
use crate::protocol::{
    decode_request, json_of_rows, rows_in_json, request_bytes, rows_to_json, well_formed, Request, RequestModel,
};
use crate::framing::{copy_range, split_all, FrameReader};
use crate::text::{chars_of, find_last, push_char, push_chars};

verus! {

/// The filesystem work that answers a request.
pub enum FsAction {
    /// List a directory in a mode, keeping the rows that mention the
    /// keyword; an empty keyword keeps them all.
    List { path: String, mode: AttributeMode, keyword: String },
    /// Read a whole file.
    Read { path: String },
    /// Truncate a file, or create it, and write the content.
    Write { path: String, content: String },
    MakeDir { path: String },
    RemoveDir { path: String },
    MakeFile { path: String },
    RemoveFile { path: String },
    /// Rename `from` to `to`.
    Rename { from: String, to: String },
    /// Nothing to do: the request cannot be carried out, and the answer is
    /// a failure.
    Refuse,
}

/// `i` is the position of the last `/` in `s`.
pub open spec fn is_last_slash(s: Seq<char>, i: int) -> bool {
    &&& 0 <= i < s.len()
    &&& s[i] == '/'
    &&& forall|k: int| i < k < s.len() ==> s[k] != '/'
}

/// Where a move of `source` into `directory` puts it: the directory, a `/`,
/// and the name after the last `/` of the source.
pub open spec fn move_target(source: Seq<char>, directory: Seq<char>) -> Option<Seq<char>> {
    if exists|i: int| is_last_slash(source, i) {
        let i = choose|i: int| is_last_slash(source, i);
        Some(directory + seq!['/'] + source.skip(i + 1))
    } else {
        None
    }
}

/// Where a rename of `source` to `name` puts it: the part of the source
/// before its last `/`, a `/`, and the new name.
pub open spec fn rename_target(source: Seq<char>, name: Seq<char>) -> Option<Seq<char>> {
    if exists|i: int| is_last_slash(source, i) {
        let i = choose|i: int| is_last_slash(source, i);
        Some(source.take(i) + seq!['/'] + name)
    } else {
        None
    }
}

/// The work that answers `req` is `a`.
pub open spec fn plans(req: RequestModel, a: FsAction) -> bool {
    match req {
        RequestModel::GetDir { path, mode } => a matches FsAction::List {
            path: p,
            mode: m,
            keyword: k,
        } && p@ == path && m == mode && k@.len() == 0,
        RequestModel::FilterDir { path, mode, keyword } => a matches FsAction::List {
            path: p,
            mode: m,
            keyword: k,
        } && p@ == path && m == mode && k@ == keyword,
        RequestModel::GetFile { path } => a matches FsAction::Read { path: p } && p@ == path,
        RequestModel::SaveFile { path, content } => a matches FsAction::Write {
            path: p,
            content: c,
        } && p@ == path && c@ == content,
        RequestModel::CreateDir { path } => a matches FsAction::MakeDir { path: p } && p@ == path,
        RequestModel::RemoveDir { path } => a matches FsAction::RemoveDir { path: p } && p@ == path,
        RequestModel::CreateFile { path } => a matches FsAction::MakeFile { path: p } && p@ == path,
        RequestModel::RemoveFile { path } => a matches FsAction::RemoveFile { path: p } && p@
            == path,
        RequestModel::MoveFile { source, destination } => match move_target(source, destination) {
            Some(t) => a matches FsAction::Rename { from, to } && from@ == source && to@ == t,
            None => a is Refuse,
        },
        RequestModel::RenameFile { source, new_name } => match rename_target(source, new_name) {
            Some(t) => a matches FsAction::Rename { from, to } && from@ == source && to@ == t,
            None => a is Refuse,
        },
    }
}

fn last_slash(s: &String) -> (r: (Vec<char>, Option<usize>))
    ensures
        r.0@ == s@,
        r.1 matches Some(i) ==> is_last_slash(s@, i as int),
        r.1 is None ==> !exists|i: int| is_last_slash(s@, i),
{
    let v = chars_of(s.as_str());
    let found = find_last(&v, '/', 0, v.len());
    if let Some(i) = found {
        assert forall|j: int| is_last_slash(s@, j) implies j == i by {
            if j < i {
                assert(s@[i as int] == '/');
            } else if j > i {
                assert(s@[j] == '/');
            }
        }
    } else {
        assert forall|j: int| !is_last_slash(s@, j) by {
            if 0 <= j < s@.len() {
                assert(v@[j] != '/');
            }
        }
    }
    (v, found)
}

/// The filesystem work that answers a request.
pub fn plan(req: &Request) -> (a: FsAction)
    ensures
        plans(req@, a),
{
    match req {
        Request::GetDir { path, mode } => FsAction::List {
            path: path.clone(),
            mode: *mode,
            keyword: String::new(),
        },
        Request::FilterDir { path, mode, keyword } => FsAction::List {
            path: path.clone(),
            mode: *mode,
            keyword: keyword.clone(),
        },
        Request::GetFile { path } => FsAction::Read { path: path.clone() },
        Request::SaveFile { path, content } => FsAction::Write {
            path: path.clone(),
            content: content.clone(),
        },
        Request::CreateDir { path } => FsAction::MakeDir { path: path.clone() },
        Request::RemoveDir { path } => FsAction::RemoveDir { path: path.clone() },
        Request::CreateFile { path } => FsAction::MakeFile { path: path.clone() },
        Request::RemoveFile { path } => FsAction::RemoveFile { path: path.clone() },
        Request::MoveFile { source, destination } => {
            let (v, found) = last_slash(source);
            match found {
                None => FsAction::Refuse,
                Some(i) => {
                    let mut to = destination.clone();
                    push_char(&mut to, '/');
                    push_chars(&mut to, &v, i + 1, v.len());
                    assert(to@ =~= destination@ + seq!['/'] + source@.skip(i + 1));
                    FsAction::Rename { from: source.clone(), to }
                },
            }
        },
        Request::RenameFile { source, new_name } => {
            let (v, found) = last_slash(source);
            match found {
                None => FsAction::Refuse,
                Some(i) => {
                    let mut to = String::new();
                    push_chars(&mut to, &v, 0, i);
                    push_char(&mut to, '/');
                    to.append(new_name.as_str());
                    assert(to@ =~= source@.take(i as int) + seq!['/'] + new_name@);
                    FsAction::Rename { from: source.clone(), to }
                },
            }
        },
    }
}

/// `a` is the work that answers a message of bytes `bytes`: the work
/// that answers the request they carry, or a refusal when they carry none.
pub open spec fn answers(bytes: Seq<u8>, a: FsAction) -> bool {
    ||| exists|m: RequestModel|
        well_formed(m) && #[trigger] request_bytes(m) == bytes && plans(m, a)
    ||| a is Refuse && forall|m: RequestModel| well_formed(m) ==> #[trigger] request_bytes(m) != bytes
}

/// The filesystem work that answers the bytes of one message.
pub fn plan_message(bytes: Vec<u8>) -> (a: FsAction)
    ensures
        answers(bytes@, a),
{
    let ghost b = bytes@;
    match decode_request(bytes) {
        Some(req) => {
            let a = plan(&req);
            assert(well_formed(req@) && request_bytes(req@) == b && plans(req@, a));
            a
        },
        None => FsAction::Refuse,
    }
}

/// What a read from a client's connection brought.
pub enum ReadEvent {
    /// The client closed the connection: the read returned no bytes.
    Closed,
    /// The read failed.
    Failed,
    /// These bytes arrived.
    Data(Vec<u8>),
}

/// What the server does after a read.
pub enum ConnectionStep {
    /// End the connection.
    Close,
    /// Carry out this work, in order, answering each message; then read
    /// again.
    Answer(Vec<FsAction>),
}

/// The server's decision after each read from a client: a closed
/// connection ends; a failed read is passed over; bytes are added to what
/// has arrived, and every message now whole is answered, in the order sent.
pub fn on_read(reader: &mut FrameReader, event: ReadEvent) -> (r: ConnectionStep)
    ensures
        match event {
            ReadEvent::Closed => r is Close && final(reader).pending() == old(reader).pending(),
            ReadEvent::Failed => (r matches ConnectionStep::Answer(work) && work.len() == 0)
                && final(reader).pending() == old(reader).pending(),
            ReadEvent::Data(bytes) => {
                let (messages, rest) = split_all(old(reader).pending() + bytes@);
                &&& final(reader).pending() == rest
                &&& r matches ConnectionStep::Answer(work)
                &&& work.len() == messages.len()
                &&& forall|i: int| 0 <= i < work.len() ==> answers(messages[i], #[trigger] work[i])
            },
        },
{
    match event {
        ReadEvent::Closed => ConnectionStep::Close,
        ReadEvent::Failed => ConnectionStep::Answer(Vec::new()),
        ReadEvent::Data(bytes) => {
            reader.push(bytes.as_slice());
            let messages = reader.drain();
            let mut work: Vec<FsAction> = Vec::new();
            let mut i: usize = 0;
            while i < messages.len()
                invariant
                    i <= messages.len(),
                    work.len() == i,
                    forall|k: int|
                        0 <= k < i ==> answers(messages.deep_view()[k], #[trigger] work[k]),
                decreases messages.len() - i,
            {
                let m = copy_range(&messages[i], 0, messages[i].len());
                assert(m@ =~= messages.deep_view()[i as int]);
                work.push(plan_message(m));
                i = i + 1;
            }
            ConnectionStep::Answer(work)
        },
    }
}

/// The JSON listing that answers a listing request, from the rows of the
/// directory. The client reads the kept rows back from it.
pub fn listing_reply(rows: &Vec<Vec<String>>, keyword: &str) -> (r: String)
    ensures
        r@ == json_of_rows(filtered(rows.deep_view(), keyword@)),
        rows_in_json(r@) == Some(filtered(rows.deep_view(), keyword@)),
{
    let kept = filter_dir(rows, keyword);
    rows_to_json(&kept)
}

/// `rows` describe the entries one by one.
pub open spec fn listed(
    rows: Seq<Seq<Seq<char>>>,
    entries: Option<Vec<RawEntry>>,
    mode: AttributeMode,
) -> bool {
    match entries {
        Some(e) => rows.len() == e.len() && forall|i: int|
            0 <= i < rows.len() ==> describes(#[trigger] rows[i], e[i], mode),
        None => false,
    }
}

/// Every entry's modification time lies within years 1 to 9999.
pub open spec fn all_in_calendar(entries: Seq<RawEntry>) -> bool {
    forall|i: int| 0 <= i < entries.len() ==> in_calendar(#[trigger] entries[i].modified)
}

/// Answers a listing request from the entries of the directory, or from
/// `None` when the directory could not be read. The listing describes each
/// entry once, in order, when every modification time lies within the
/// calendar; a directory that cannot be read, or a listing that cannot be
/// made, is answered with the empty listing.
pub fn answer_listing(entries: Option<Vec<RawEntry>>, mode: AttributeMode, keyword: &str) -> (r:
    String)
    ensures
        exists|rows: Seq<Seq<Seq<char>>>|
            #![trigger json_of_rows(filtered(rows, keyword@))]
            r@ == json_of_rows(filtered(rows, keyword@)) && (rows.len() == 0 || listed(
                rows,
                entries,
                mode,
            )),
        entries matches Some(e) && all_in_calendar(e@) ==> exists|rows: Seq<Seq<Seq<char>>>|
            #![trigger json_of_rows(filtered(rows, keyword@))]
            r@ == json_of_rows(filtered(rows, keyword@)) && listed(rows, entries, mode)
                && rows_in_json(r@) == Some(filtered(rows, keyword@)),
        entries is None ==> r@ == json_of_rows(filtered(Seq::empty(), keyword@)),
{
    let ghost ghost_entries = entries;
    let rows = match entries {
        Some(e) => match listing_rows(&e, mode) {
            Some(rows) => {
                assert(forall|i: int|
                    0 <= i < rows.len() ==> rows.deep_view()[i] == rows[i].deep_view());
                rows
            },
            None => Vec::new(),
        },
        None => Vec::new(),
    };
    let r = listing_reply(&rows, keyword);
    assert(r@ == json_of_rows(filtered(rows.deep_view(), keyword@)));
    proof {
        if ghost_entries is None {
            assert(rows.deep_view() =~= Seq::<Seq<Seq<char>>>::empty());
        }
    }
    r
}

/// The reply to a file read.
pub struct FileReply {
    /// Whether the file could be read.
    pub success: bool,
    /// The file's content, or what went wrong.
    pub message: String,
}

/// How reading a file turned out.
pub enum ReadOutcome {
    Content(String),
    /// The file could not be opened.
    OpenFailed,
    /// The file was opened and could not be read to the end as text.
    ReadFailed,
}

/// The reply to a file read: the content, or a description of the failure.
pub open spec fn file_reply_of(outcome: ReadOutcome, reply: FileReply) -> bool {
    match outcome {
        ReadOutcome::Content(c) => reply.success && reply.message@ == c@,
        ReadOutcome::OpenFailed => !reply.success && reply.message@ == "Unable to open file."@,
        ReadOutcome::ReadFailed => !reply.success && reply.message@ == "Unable to read file"@,
    }
}

pub fn file_reply(outcome: ReadOutcome) -> (r: FileReply)
    ensures
        file_reply_of(outcome, r),
{
    match outcome {
        ReadOutcome::Content(c) => FileReply { success: true, message: c },
        ReadOutcome::OpenFailed => FileReply {
            success: false,
            message: String::from_str("Unable to open file."),
        },
        ReadOutcome::ReadFailed => FileReply {
            success: false,
            message: String::from_str("Unable to read file"),
        },
    }
}

} // verus!
