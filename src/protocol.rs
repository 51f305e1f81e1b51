//! The wire grammar: each request is the text `<Verb> <Args>`, and each
//! reply is a JSON listing, a JSON file reply, or the text `Ok` / `Error`.

use vstd::prelude::*;
use crate::listing::AttributeMode;
use vstd::utf8::{decode_utf8, encode_utf8, valid_utf8};
use crate::text::{chars_of, find_first, find_last, push_char, push_chars, string_of};

verus! {

/// The operations a client can ask of the server.
#[derive(Clone, Copy, Debug, PartialEq, Eq, Structural)]
pub enum Verb {
    GetDir,
    GetFile,
    FilterDir,
    CreateDir,
    RemoveDir,
    CreateFile,
    RemoveFile,
    SaveFile,
    MoveFile,
    RenameFile,
}

/// The word that names a verb on the wire.
pub open spec fn verb_name(v: Verb) -> Seq<char> {
    match v {
        Verb::GetDir => seq!['G', 'e', 't', 'D', 'i', 'r'],
        Verb::GetFile => seq!['G', 'e', 't', 'F', 'i', 'l', 'e'],
        Verb::FilterDir => seq!['F', 'i', 'l', 't', 'e', 'r', 'D', 'i', 'r'],
        Verb::CreateDir => seq!['C', 'r', 'e', 'a', 't', 'e', 'D', 'i', 'r'],
        Verb::RemoveDir => seq!['R', 'e', 'm', 'o', 'v', 'e', 'D', 'i', 'r'],
        Verb::CreateFile => seq!['C', 'r', 'e', 'a', 't', 'e', 'F', 'i', 'l', 'e'],
        Verb::RemoveFile => seq!['R', 'e', 'm', 'o', 'v', 'e', 'F', 'i', 'l', 'e'],
        Verb::SaveFile => seq!['S', 'a', 'v', 'e', 'F', 'i', 'l', 'e'],
        Verb::MoveFile => seq!['M', 'o', 'v', 'e', 'F', 'i', 'l', 'e'],
        Verb::RenameFile => seq!['R', 'e', 'n', 'a', 'm', 'e', 'F', 'i', 'l', 'e'],
    }
}

fn verb_chars(v: Verb) -> (r: Vec<char>)
    ensures
        r@ == verb_name(v),
{
    let r = match v {
        Verb::GetDir => vec!['G', 'e', 't', 'D', 'i', 'r'],
        Verb::GetFile => vec!['G', 'e', 't', 'F', 'i', 'l', 'e'],
        Verb::FilterDir => vec!['F', 'i', 'l', 't', 'e', 'r', 'D', 'i', 'r'],
        Verb::CreateDir => vec!['C', 'r', 'e', 'a', 't', 'e', 'D', 'i', 'r'],
        Verb::RemoveDir => vec!['R', 'e', 'm', 'o', 'v', 'e', 'D', 'i', 'r'],
        Verb::CreateFile => vec!['C', 'r', 'e', 'a', 't', 'e', 'F', 'i', 'l', 'e'],
        Verb::RemoveFile => vec!['R', 'e', 'm', 'o', 'v', 'e', 'F', 'i', 'l', 'e'],
        Verb::SaveFile => vec!['S', 'a', 'v', 'e', 'F', 'i', 'l', 'e'],
        Verb::MoveFile => vec!['M', 'o', 'v', 'e', 'F', 'i', 'l', 'e'],
        Verb::RenameFile => vec!['R', 'e', 'n', 'a', 'm', 'e', 'F', 'i', 'l', 'e'],
    };
    assert(r@ =~= verb_name(v));
    r
}

/// No verb name holds a space.
proof fn lemma_verb_has_no_space(v: Verb)
    ensures
        forall|k: int| 0 <= k < verb_name(v).len() ==> verb_name(v)[k] != ' ',
{
}

/// Distinct verbs have distinct names.
proof fn lemma_verb_name_injective(a: Verb, b: Verb)
    requires
        verb_name(a) == verb_name(b),
    ensures
        a == b,
{
    assert(verb_name(a).len() == verb_name(b).len());
    assert(verb_name(a)[0] == verb_name(b)[0]);
    assert(verb_name(a)[2] == verb_name(b)[2]);
    assert(verb_name(a)[6] == verb_name(b)[6]);
}

/// A request, as the client builds it and the server reads it.
#[derive(Debug)]
pub enum Request {
    /// List a directory.
    GetDir { path: String, mode: AttributeMode },
    /// List a directory and keep the rows that mention a keyword.
    FilterDir { path: String, mode: AttributeMode, keyword: String },
    /// Read a whole file.
    GetFile { path: String },
    /// Replace a file's content.
    SaveFile { path: String, content: String },
    CreateDir { path: String },
    RemoveDir { path: String },
    CreateFile { path: String },
    RemoveFile { path: String },
    /// Move a file into another directory, keeping its name.
    MoveFile { source: String, destination: String },
    /// Give a file a new name within its own directory.
    RenameFile { source: String, new_name: String },
}

/// A request over character sequences.
pub enum RequestModel {
    GetDir { path: Seq<char>, mode: AttributeMode },
    FilterDir { path: Seq<char>, mode: AttributeMode, keyword: Seq<char> },
    GetFile { path: Seq<char> },
    SaveFile { path: Seq<char>, content: Seq<char> },
    CreateDir { path: Seq<char> },
    RemoveDir { path: Seq<char> },
    CreateFile { path: Seq<char> },
    RemoveFile { path: Seq<char> },
    MoveFile { source: Seq<char>, destination: Seq<char> },
    RenameFile { source: Seq<char>, new_name: Seq<char> },
}

impl View for Request {
    type V = RequestModel;

    open spec fn view(&self) -> RequestModel {
        match self {
            Request::GetDir { path, mode } => RequestModel::GetDir { path: path@, mode: *mode },
            Request::FilterDir { path, mode, keyword } => RequestModel::FilterDir {
                path: path@,
                mode: *mode,
                keyword: keyword@,
            },
            Request::GetFile { path } => RequestModel::GetFile { path: path@ },
            Request::SaveFile { path, content } => RequestModel::SaveFile {
                path: path@,
                content: content@,
            },
            Request::CreateDir { path } => RequestModel::CreateDir { path: path@ },
            Request::RemoveDir { path } => RequestModel::RemoveDir { path: path@ },
            Request::CreateFile { path } => RequestModel::CreateFile { path: path@ },
            Request::RemoveFile { path } => RequestModel::RemoveFile { path: path@ },
            Request::MoveFile { source, destination } => RequestModel::MoveFile {
                source: source@,
                destination: destination@,
            },
            Request::RenameFile { source, new_name } => RequestModel::RenameFile {
                source: source@,
                new_name: new_name@,
            },
        }
    }
}

/// The digit that stands for an attribute mode: `0` basic, `1` extended.
pub open spec fn mode_char(m: AttributeMode) -> char {
    match m {
        AttributeMode::Basic => '0',
        AttributeMode::Extended => '1',
    }
}

pub open spec fn verb_of(r: RequestModel) -> Verb {
    match r {
        RequestModel::GetDir { .. } => Verb::GetDir,
        RequestModel::FilterDir { .. } => Verb::FilterDir,
        RequestModel::GetFile { .. } => Verb::GetFile,
        RequestModel::SaveFile { .. } => Verb::SaveFile,
        RequestModel::CreateDir { .. } => Verb::CreateDir,
        RequestModel::RemoveDir { .. } => Verb::RemoveDir,
        RequestModel::CreateFile { .. } => Verb::CreateFile,
        RequestModel::RemoveFile { .. } => Verb::RemoveFile,
        RequestModel::MoveFile { .. } => Verb::MoveFile,
        RequestModel::RenameFile { .. } => Verb::RenameFile,
    }
}

/// The arguments of a request, as they follow the verb and a space.
pub open spec fn args_text(r: RequestModel) -> Seq<char> {
    match r {
        RequestModel::GetDir { path, mode } => path + seq!['|', mode_char(mode)],
        RequestModel::FilterDir { path, mode, keyword } => path + seq!['|', mode_char(mode), '|']
            + keyword,
        RequestModel::GetFile { path } => path,
        RequestModel::SaveFile { path, content } => path + seq![';'] + content,
        RequestModel::CreateDir { path } => path,
        RequestModel::RemoveDir { path } => path,
        RequestModel::CreateFile { path } => path,
        RequestModel::RemoveFile { path } => path,
        RequestModel::MoveFile { source, destination } => source + seq!['|'] + destination,
        RequestModel::RenameFile { source, new_name } => source + seq!['|'] + new_name,
    }
}

/// The text of a request on the wire: `<Verb> <Args>`.
pub open spec fn request_text(r: RequestModel) -> Seq<char> {
    verb_name(verb_of(r)) + seq![' '] + args_text(r)
}

/// A request whose text reads back as itself: a field followed by a
/// separator holds no such separator where the grammar splits at its first
/// occurrence, and a field that follows a separator holds none where it
/// splits at the last.
pub open spec fn well_formed(r: RequestModel) -> bool {
    match r {
        RequestModel::FilterDir { path, .. } => !path.contains('|'),
        RequestModel::SaveFile { path, .. } => !path.contains(';'),
        RequestModel::MoveFile { destination, .. } => !destination.contains('|'),
        RequestModel::RenameFile { new_name, .. } => !new_name.contains('|'),
        _ => true,
    }
}

/// What the server sends back for a request.
#[derive(Clone, Copy, Debug, PartialEq, Eq, Structural)]
pub enum ReplyKind {
    /// A JSON array of rows.
    Listing,
    /// A JSON object with `success` and `message`.
    File,
    /// `Ok` or `Error`.
    Status,
    /// Nothing.
    NoReply,
}

pub open spec fn reply_kind_of(v: Verb) -> ReplyKind {
    match v {
        Verb::GetDir | Verb::FilterDir => ReplyKind::Listing,
        Verb::GetFile => ReplyKind::File,
        Verb::SaveFile => ReplyKind::NoReply,
        _ => ReplyKind::Status,
    }
}

impl Request {
    pub fn verb(&self) -> (v: Verb)
        ensures
            v == verb_of(self@),
    {
        match self {
            Request::GetDir { .. } => Verb::GetDir,
            Request::FilterDir { .. } => Verb::FilterDir,
            Request::GetFile { .. } => Verb::GetFile,
            Request::SaveFile { .. } => Verb::SaveFile,
            Request::CreateDir { .. } => Verb::CreateDir,
            Request::RemoveDir { .. } => Verb::RemoveDir,
            Request::CreateFile { .. } => Verb::CreateFile,
            Request::RemoveFile { .. } => Verb::RemoveFile,
            Request::MoveFile { .. } => Verb::MoveFile,
            Request::RenameFile { .. } => Verb::RenameFile,
        }
    }

    /// The kind of reply the server gives to this request.
    pub fn reply_kind(&self) -> (k: ReplyKind)
        ensures
            k == reply_kind_of(verb_of(self@)),
    {
        match self {
            Request::GetDir { .. } | Request::FilterDir { .. } => ReplyKind::Listing,
            Request::GetFile { .. } => ReplyKind::File,
            Request::SaveFile { .. } => ReplyKind::NoReply,
            _ => ReplyKind::Status,
        }
    }

    /// Whether the server answers this request. A save is not answered.
    pub fn expects_reply(&self) -> (r: bool)
        ensures
            r == (verb_of(self@) != Verb::SaveFile),
    {
        match self {
            Request::SaveFile { .. } => false,
            _ => true,
        }
    }
}

fn mode_digit(m: AttributeMode) -> (c: char)
    ensures
        c == mode_char(m),
{
    match m {
        AttributeMode::Basic => '0',
        AttributeMode::Extended => '1',
    }
}

fn mode_of_digit(c: char) -> (r: Option<AttributeMode>)
    ensures
        r matches Some(m) ==> mode_char(m) == c,
        r is None ==> forall|m: AttributeMode| mode_char(m) != c,
{
    if c == '0' {
        Some(AttributeMode::Basic)
    } else if c == '1' {
        Some(AttributeMode::Extended)
    } else {
        None
    }
}

/// Writes a request as the text the server reads.
pub fn encode_request(req: &Request) -> (r: String)
    ensures
        r@ == request_text(req@),
{
    let mut r = String::new();
    let verb = verb_chars(req.verb());
    push_chars(&mut r, &verb, 0, verb.len());
    push_char(&mut r, ' ');
    match req {
        Request::GetDir { path, mode } => {
            r.append(path.as_str());
            push_char(&mut r, '|');
            push_char(&mut r, mode_digit(*mode));
        },
        Request::FilterDir { path, mode, keyword } => {
            r.append(path.as_str());
            push_char(&mut r, '|');
            push_char(&mut r, mode_digit(*mode));
            push_char(&mut r, '|');
            r.append(keyword.as_str());
        },
        Request::GetFile { path } => r.append(path.as_str()),
        Request::SaveFile { path, content } => {
            r.append(path.as_str());
            push_char(&mut r, ';');
            r.append(content.as_str());
        },
        Request::CreateDir { path } => r.append(path.as_str()),
        Request::RemoveDir { path } => r.append(path.as_str()),
        Request::CreateFile { path } => r.append(path.as_str()),
        Request::RemoveFile { path } => r.append(path.as_str()),
        Request::MoveFile { source, destination } => {
            r.append(source.as_str());
            push_char(&mut r, '|');
            r.append(destination.as_str());
        },
        Request::RenameFile { source, new_name } => {
            r.append(source.as_str());
            push_char(&mut r, '|');
            r.append(new_name.as_str());
        },
    }
    assert(r@ =~= request_text(req@));
    r
}

fn same_chars(v: &Vec<char>, to: usize, w: &Vec<char>) -> (r: bool)
    requires
        to <= v.len(),
    ensures
        r == (v@.take(to as int) == w@),
{
    if to != w.len() {
        return false;
    }
    let mut i: usize = 0;
    while i < to
        invariant
            i <= to <= v.len(),
            to == w.len(),
            v@.take(i as int) == w@.take(i as int),
        decreases to - i,
    {
        if v[i] != w[i] {
            assert(v@.take(to as int)[i as int] != w@[i as int]);
            return false;
        }
        i = i + 1;
        assert(v@.take(i as int) =~= w@.take(i as int));
    }
    assert(w@.take(i as int) =~= w@);
    true
}

/// The verb whose name is `v[..to]`, if any.
fn verb_named(v: &Vec<char>, to: usize) -> (r: Option<Verb>)
    requires
        to <= v.len(),
    ensures
        r matches Some(verb) ==> verb_name(verb) == v@.take(to as int),
        r is None ==> forall|verb: Verb| verb_name(verb) != v@.take(to as int),
{
    if same_chars(v, to, &verb_chars(Verb::GetDir)) {
        return Some(Verb::GetDir);
    }
    if same_chars(v, to, &verb_chars(Verb::GetFile)) {
        return Some(Verb::GetFile);
    }
    if same_chars(v, to, &verb_chars(Verb::FilterDir)) {
        return Some(Verb::FilterDir);
    }
    if same_chars(v, to, &verb_chars(Verb::CreateDir)) {
        return Some(Verb::CreateDir);
    }
    if same_chars(v, to, &verb_chars(Verb::RemoveDir)) {
        return Some(Verb::RemoveDir);
    }
    if same_chars(v, to, &verb_chars(Verb::CreateFile)) {
        return Some(Verb::CreateFile);
    }
    if same_chars(v, to, &verb_chars(Verb::RemoveFile)) {
        return Some(Verb::RemoveFile);
    }
    if same_chars(v, to, &verb_chars(Verb::SaveFile)) {
        return Some(Verb::SaveFile);
    }
    if same_chars(v, to, &verb_chars(Verb::MoveFile)) {
        return Some(Verb::MoveFile);
    }
    if same_chars(v, to, &verb_chars(Verb::RenameFile)) {
        return Some(Verb::RenameFile);
    }
    assert forall|verb: Verb| verb_name(verb) != v@.take(to as int) by {
        match verb {
            Verb::GetDir => {},
            Verb::GetFile => {},
            Verb::FilterDir => {},
            Verb::CreateDir => {},
            Verb::RemoveDir => {},
            Verb::CreateFile => {},
            Verb::RemoveFile => {},
            Verb::SaveFile => {},
            Verb::MoveFile => {},
            Verb::RenameFile => {},
        }
    }
    None
}

/// No well-formed request of verb `verb` has `args` for its arguments.
pub open spec fn no_args_match(verb: Verb, args: Seq<char>) -> bool {
    forall|m: RequestModel|
        verb_of(m) == verb && well_formed(m) ==> #[trigger] args_text(m) != args
}

/// Reads `<path>|<mode>`, split at the last bar.
fn parse_get_dir(v: &Vec<char>, start: usize) -> (r: Option<Request>)
    requires
        start <= v.len(),
    ensures
        r matches Some(q) ==> verb_of(q@) == Verb::GetDir && well_formed(q@) && args_text(q@)
            == v@.subrange(start as int, v.len() as int),
        r is None ==> no_args_match(Verb::GetDir, v@.subrange(start as int, v.len() as int)),
{
    let n = v.len();
    let ghost args = v@.subrange(start as int, n as int);
    if let Some(j) = find_last(v, '|', start, n) {
        if n - j == 2 {
            if let Some(mode) = mode_of_digit(v[j + 1]) {
                let path = string_of(v, start, j);
                let q = Request::GetDir { path, mode };
                assert(args_text(q@) =~= args);
                return Some(q);
            }
        }
    }
    assert forall|m: RequestModel|
        verb_of(m) == Verb::GetDir && well_formed(m) implies #[trigger] args_text(m) != args by {
        if let RequestModel::GetDir { path, mode } = m {
            if args_text(m) == args {
                assert(args =~= path + seq!['|', mode_char(mode)]);
                assert(args.len() == path.len() + 2);
                assert(v@[start + path.len()] == args[path.len() as int]);
                assert(v@[start + path.len() + 1] == args[path.len() as int + 1]);
            }
        }
    }
    None
}

/// Reads `<path>|<mode>|<keyword>`, split at the first bar.
fn parse_filter_dir(v: &Vec<char>, start: usize) -> (r: Option<Request>)
    requires
        start <= v.len(),
    ensures
        r matches Some(q) ==> verb_of(q@) == Verb::FilterDir && well_formed(q@) && args_text(q@)
            == v@.subrange(start as int, v.len() as int),
        r is None ==> no_args_match(Verb::FilterDir, v@.subrange(start as int, v.len() as int)),
{
    let n = v.len();
    let ghost args = v@.subrange(start as int, n as int);
    if let Some(j) = find_first(v, '|', start, n) {
        if n - j > 2 && v[j + 2] == '|' {
            if let Some(mode) = mode_of_digit(v[j + 1]) {
                let path = string_of(v, start, j);
                let keyword = string_of(v, j + 3, n);
                let q = Request::FilterDir { path, mode, keyword };
                assert(!path@.contains('|')) by {
                    if path@.contains('|') {
                        let k = choose|k: int| 0 <= k < path@.len() && path@[k] == '|';
                        assert(v@[start + k] == '|');
                    }
                }
                assert(args_text(q@) =~= args);
                return Some(q);
            }
        }
    }
    assert forall|m: RequestModel|
        verb_of(m) == Verb::FilterDir && well_formed(m) implies #[trigger] args_text(m) != args by {
        if let RequestModel::FilterDir { path, mode, keyword } = m {
            if args_text(m) == args {
                assert(args =~= path + seq!['|', mode_char(mode), '|'] + keyword);
                let p = path.len() as int;
                assert(v@[start + p] == args[p]);
                assert(v@[start + p + 1] == args[p + 1]);
                assert(v@[start + p + 2] == args[p + 2]);
                assert forall|k: int| start <= k < start + p implies v@[k] != '|' by {
                    assert(v@[k] == args[k - start]);
                    assert(path[k - start] == args[k - start]);
                }
            }
        }
    }
    None
}

/// Reads `<path>;<content>`, split at the first semicolon.
fn parse_save_file(v: &Vec<char>, start: usize) -> (r: Option<Request>)
    requires
        start <= v.len(),
    ensures
        r matches Some(q) ==> verb_of(q@) == Verb::SaveFile && well_formed(q@) && args_text(q@)
            == v@.subrange(start as int, v.len() as int),
        r is None ==> no_args_match(Verb::SaveFile, v@.subrange(start as int, v.len() as int)),
{
    let n = v.len();
    let ghost args = v@.subrange(start as int, n as int);
    if let Some(j) = find_first(v, ';', start, n) {
        let path = string_of(v, start, j);
        let content = string_of(v, j + 1, n);
        let q = Request::SaveFile { path, content };
        assert(!path@.contains(';')) by {
            if path@.contains(';') {
                let k = choose|k: int| 0 <= k < path@.len() && path@[k] == ';';
                assert(v@[start + k] == ';');
            }
        }
        assert(args_text(q@) =~= args);
        return Some(q);
    }
    assert forall|m: RequestModel|
        verb_of(m) == Verb::SaveFile && well_formed(m) implies #[trigger] args_text(m) != args by {
        if let RequestModel::SaveFile { path, content } = m {
            if args_text(m) == args {
                assert(args =~= path + seq![';'] + content);
                assert(v@[start + path.len()] == args[path.len() as int]);
            }
        }
    }
    None
}

/// Reads `<source>|<destination or new name>`, split at the last bar.
fn parse_source_and_name(verb: Verb, v: &Vec<char>, start: usize) -> (r: Option<Request>)
    requires
        start <= v.len(),
        verb == Verb::MoveFile || verb == Verb::RenameFile,
    ensures
        r matches Some(q) ==> verb_of(q@) == verb && well_formed(q@) && args_text(q@)
            == v@.subrange(start as int, v.len() as int),
        r is None ==> no_args_match(verb, v@.subrange(start as int, v.len() as int)),
{
    let n = v.len();
    let ghost args = v@.subrange(start as int, n as int);
    if let Some(j) = find_last(v, '|', start, n) {
        let source = string_of(v, start, j);
        let other = string_of(v, j + 1, n);
        assert(!other@.contains('|')) by {
            if other@.contains('|') {
                let k = choose|k: int| 0 <= k < other@.len() && other@[k] == '|';
                assert(v@[j + 1 + k] == '|');
            }
        }
        let q = match verb {
            Verb::MoveFile => Request::MoveFile { source, destination: other },
            _ => Request::RenameFile { source, new_name: other },
        };
        assert(args_text(q@) =~= args);
        return Some(q);
    }
    assert forall|m: RequestModel|
        verb_of(m) == verb && well_formed(m) implies #[trigger] args_text(m) != args by {
        match m {
            RequestModel::MoveFile { source, destination } => {
                if args_text(m) == args {
                    assert(args =~= source + seq!['|'] + destination);
                    assert(v@[start + source.len()] == args[source.len() as int]);
                }
            },
            RequestModel::RenameFile { source, new_name } => {
                if args_text(m) == args {
                    assert(args =~= source + seq!['|'] + new_name);
                    assert(v@[start + source.len()] == args[source.len() as int]);
                }
            },
            _ => {},
        }
    }
    None
}

/// Reads the arguments `v[start..]` of a request whose verb is `verb`.
fn parse_args(verb: Verb, v: &Vec<char>, start: usize) -> (r: Option<Request>)
    requires
        start <= v.len(),
    ensures
        r matches Some(q) ==> verb_of(q@) == verb && well_formed(q@) && args_text(q@)
            == v@.subrange(start as int, v.len() as int),
        r is None ==> no_args_match(verb, v@.subrange(start as int, v.len() as int)),
{
    let n = v.len();
    match verb {
        Verb::GetDir => parse_get_dir(v, start),
        Verb::FilterDir => parse_filter_dir(v, start),
        Verb::SaveFile => parse_save_file(v, start),
        Verb::MoveFile | Verb::RenameFile => parse_source_and_name(verb, v, start),
        _ => {
            let path = string_of(v, start, n);
            let q = match verb {
                Verb::GetFile => Request::GetFile { path },
                Verb::CreateDir => Request::CreateDir { path },
                Verb::RemoveDir => Request::RemoveDir { path },
                Verb::CreateFile => Request::CreateFile { path },
                _ => Request::RemoveFile { path },
            };
            Some(q)
        },
    }
}

/// Reads a request from its text. The result is the well-formed request
/// whose text this is; `None` when there is none.
pub fn parse_request(text: &str) -> (r: Option<Request>)
    ensures
        r matches Some(q) ==> well_formed(q@) && request_text(q@) == text@,
        r is None ==> forall|m: RequestModel|
            well_formed(m) ==> #[trigger] request_text(m) != text@,
{
    let v = chars_of(text);
    let n = v.len();
    let found = find_first(&v, ' ', 0, n);
    let i = match found {
        None => {
            assert forall|m: RequestModel| well_formed(m) implies #[trigger] request_text(m)
                != text@ by {
                if request_text(m) == text@ {
                    assert(v@[verb_name(verb_of(m)).len() as int] == ' ');
                }
            }
            return None;
        },
        Some(i) => i,
    };
    let verb = match verb_named(&v, i) {
        None => {
            assert forall|m: RequestModel| well_formed(m) implies #[trigger] request_text(m)
                != text@ by {
                if request_text(m) == text@ {
                    let w = verb_name(verb_of(m));
                    lemma_verb_has_no_space(verb_of(m));
                    assert(v@[w.len() as int] == ' ');
                    assert(v@[i as int] == request_text(m)[i as int]);
                    assert(v@.take(i as int) =~= w);
                }
            }
            return None;
        },
        Some(verb) => verb,
    };
    let r = parse_args(verb, &v, i + 1);
    proof {
        let w = verb_name(verb);
        assert(i == w.len());
        assert(text@ =~= w + seq![' '] + v@.subrange(i + 1, n as int));
        assert forall|m: RequestModel| well_formed(m) && #[trigger] request_text(m) == text@
            implies verb_of(m) == verb && args_text(m) == v@.subrange(i + 1, n as int) by {
            let u = verb_name(verb_of(m));
            lemma_verb_has_no_space(verb_of(m));
            assert(v@[u.len() as int] == ' ');
            assert(v@[i as int] == request_text(m)[i as int]);
            assert(v@.take(i as int) =~= u);
            lemma_verb_name_injective(verb_of(m), verb);
            assert(args_text(m) =~= v@.subrange(i + 1, n as int));
        }
    }
    if let Some(q) = &r {
        assert(request_text(q@) =~= text@);
    }
    r
}

/// The text of a well-formed request determines it. With the contract of
/// `parse_request`, reading back the text of a well-formed request gives
/// that very request.
pub proof fn request_text_is_injective(a: RequestModel, b: RequestModel)
    requires
        well_formed(a),
        well_formed(b),
        request_text(a) == request_text(b),
    ensures
        a == b,
{
    let ta = request_text(a);
    let wa = verb_name(verb_of(a));
    let wb = verb_name(verb_of(b));
    lemma_verb_has_no_space(verb_of(a));
    lemma_verb_has_no_space(verb_of(b));
    if wa.len() < wb.len() {
        assert(ta[wa.len() as int] == ' ');
    } else if wb.len() < wa.len() {
        assert(ta[wb.len() as int] == ' ');
    }
    assert(wa =~= ta.take(wa.len() as int));
    assert(wb =~= ta.take(wb.len() as int));
    lemma_verb_name_injective(verb_of(a), verb_of(b));
    let x = args_text(a);
    let y = args_text(b);
    assert(x =~= ta.subrange(wa.len() as int + 1, ta.len() as int));
    assert(y =~= ta.subrange(wa.len() as int + 1, ta.len() as int));
    lemma_args_injective(a, b);
}

proof fn lemma_args_injective(a: RequestModel, b: RequestModel)
    requires
        well_formed(a),
        well_formed(b),
        verb_of(a) == verb_of(b),
        args_text(a) == args_text(b),
    ensures
        a == b,
{
    let s = args_text(a);
    match (a, b) {
        (RequestModel::GetDir { path: p, mode: m }, RequestModel::GetDir { path: q, mode: n }) => {
            assert(p =~= s.take(s.len() - 2));
            assert(q =~= s.take(s.len() - 2));
            assert(mode_char(m) == s[s.len() - 1]);
        },
        (
            RequestModel::FilterDir { path: p, mode: m, keyword: k },
            RequestModel::FilterDir { path: q, mode: n, keyword: l },
        ) => {
            if p.len() < q.len() {
                assert(q[p.len() as int] == s[p.len() as int]);
            } else if q.len() < p.len() {
                assert(p[q.len() as int] == s[q.len() as int]);
            }
            assert(p =~= s.take(p.len() as int));
            assert(q =~= s.take(q.len() as int));
            assert(mode_char(m) == s[p.len() as int + 1]);
            assert(k =~= s.skip(p.len() as int + 3));
            assert(l =~= s.skip(q.len() as int + 3));
        },
        (
            RequestModel::SaveFile { path: p, content: k },
            RequestModel::SaveFile { path: q, content: l },
        ) => {
            if p.len() < q.len() {
                assert(q[p.len() as int] == s[p.len() as int]);
            } else if q.len() < p.len() {
                assert(p[q.len() as int] == s[q.len() as int]);
            }
            assert(p =~= s.take(p.len() as int));
            assert(q =~= s.take(q.len() as int));
            assert(k =~= s.skip(p.len() as int + 1));
            assert(l =~= s.skip(q.len() as int + 1));
        },
        (
            RequestModel::MoveFile { source: p, destination: k },
            RequestModel::MoveFile { source: q, destination: l },
        ) => {
            assert(s =~= p + seq!['|'] + k);
            assert(s =~= q + seq!['|'] + l);
            if p.len() < q.len() {
                assert(k[q.len() - p.len() - 1] == s[q.len() as int]);
            } else if q.len() < p.len() {
                assert(l[p.len() - q.len() - 1] == s[p.len() as int]);
            }
            assert(p =~= s.take(p.len() as int));
            assert(q =~= s.take(q.len() as int));
            assert(k =~= s.skip(p.len() as int + 1));
            assert(l =~= s.skip(q.len() as int + 1));
        },
        (
            RequestModel::RenameFile { source: p, new_name: k },
            RequestModel::RenameFile { source: q, new_name: l },
        ) => {
            assert(s =~= p + seq!['|'] + k);
            assert(s =~= q + seq!['|'] + l);
            if p.len() < q.len() {
                assert(k[q.len() - p.len() - 1] == s[q.len() as int]);
            } else if q.len() < p.len() {
                assert(l[p.len() - q.len() - 1] == s[p.len() as int]);
            }
            assert(p =~= s.take(p.len() as int));
            assert(q =~= s.take(q.len() as int));
            assert(k =~= s.skip(p.len() as int + 1));
            assert(l =~= s.skip(q.len() as int + 1));
        },
        _ => {},
    }
}

/// The bytes of a request on the wire: its text in UTF-8.
pub open spec fn request_bytes(r: RequestModel) -> Seq<u8> {
    encode_utf8(request_text(r))
}

/// Relies on `String::from_utf8`: it succeeds exactly on valid UTF-8, with
/// the characters that the bytes encode.
#[verifier::external_body]
pub(crate) fn utf8_text(bytes: Vec<u8>) -> (r: Option<String>)
    ensures
        r is Some <==> valid_utf8(bytes@),
        r matches Some(s) ==> s@ == decode_utf8(bytes@),
{
    String::from_utf8(bytes).ok()
}

/// The bytes that carry a request.
pub fn request_to_bytes(req: &Request) -> (r: Vec<u8>)
    ensures
        r@ == request_bytes(req@),
{
    let text = encode_request(req);
    text.as_str().as_bytes_vec()
}

/// Reads a request from the bytes of one message: the well-formed request
/// that they carry, or `None` when they carry none.
pub fn decode_request(bytes: Vec<u8>) -> (r: Option<Request>)
    ensures
        r matches Some(q) ==> well_formed(q@) && request_bytes(q@) == bytes@,
        r is None ==> forall|m: RequestModel|
            well_formed(m) ==> #[trigger] request_bytes(m) != bytes@,
{
    let ghost b = bytes@;
    broadcast use vstd::utf8::encode_utf8_valid_utf8, vstd::utf8::encode_utf8_decode_utf8,
        vstd::utf8::decode_utf8_encode_utf8;

    match utf8_text(bytes) {
        None => None,
        Some(text) => {
            let r = parse_request(text.as_str());
            assert forall|m: RequestModel| well_formed(m) && #[trigger] request_bytes(m) == b
                implies request_text(m) == text@ by {
                assert(decode_utf8(encode_utf8(request_text(m))) == request_text(m));
            }
            r
        },
    }
}

/// The reply to a request that changes the filesystem: `Ok` or `Error`.
pub open spec fn status_text(ok: bool) -> Seq<char> {
    if ok {
        seq!['O', 'k']
    } else {
        seq!['E', 'r', 'r', 'o', 'r']
    }
}

pub fn status_reply(ok: bool) -> (r: String)
    ensures
        r@ == status_text(ok),
{
    let mut r = String::new();
    if ok {
        push_char(&mut r, 'O');
        push_char(&mut r, 'k');
    } else {
        push_char(&mut r, 'E');
        push_char(&mut r, 'r');
        push_char(&mut r, 'r');
        push_char(&mut r, 'o');
        push_char(&mut r, 'r');
    }
    assert(r@ =~= status_text(ok));
    r
}

/// A status reply reports failure when it begins with `Error`.
pub open spec fn reports_failure(reply: Seq<char>) -> bool {
    reply.len() >= 5 && reply.take(5) == status_text(false)
}

/// Reads a status reply: `true` unless it reports failure.
pub fn status_ok(reply: &str) -> (r: bool)
    ensures
        r == !reports_failure(reply@),
{
    let v = chars_of(reply);
    let e = vec!['E', 'r', 'r', 'o', 'r'];
    if v.len() < 5 {
        return true;
    }
    let mut i: usize = 0;
    while i < 5
        invariant
            i <= 5 <= v.len(),
            v@ == reply@,
            e@ == status_text(false),
            v@.take(i as int) == e@.take(i as int),
        decreases 5 - i,
    {
        if v[i] != e[i] {
            assert(v@.take(5)[i as int] != e@[i as int]);
            assert(reply@.take(5) != status_text(false));
            return true;
        }
        i = i + 1;
        assert(v@.take(i as int) =~= e@.take(i as int));
    }
    assert(e@.take(5) =~= e@);
    false
}

/// `s` without the NUL characters at its end.
pub open spec fn trim_nul(s: Seq<char>) -> Seq<char>
    decreases s.len(),
{
    if s.len() > 0 && s.last() == '\0' {
        trim_nul(s.drop_last())
    } else {
        s
    }
}

/// A white-space character, as Unicode's `White_Space` property lists them.
pub open spec fn is_white(c: char) -> bool {
    let u = c as u32;
    ||| 0x09 <= u <= 0x0D
    ||| u == 0x20
    ||| u == 0x85
    ||| u == 0xA0
    ||| u == 0x1680
    ||| 0x2000 <= u <= 0x200A
    ||| u == 0x2028
    ||| u == 0x2029
    ||| u == 0x202F
    ||| u == 0x205F
    ||| u == 0x3000
}

fn white(c: char) -> (r: bool)
    ensures
        r == is_white(c),
{
    let u = c as u32;
    (0x09 <= u && u <= 0x0D) || u == 0x20 || u == 0x85 || u == 0xA0 || u == 0x1680 || (0x2000 <= u
        && u <= 0x200A) || u == 0x2028 || u == 0x2029 || u == 0x202F || u == 0x205F || u == 0x3000
}

/// `s` without the white space at its start.
pub open spec fn trim_start(s: Seq<char>) -> Seq<char>
    decreases s.len(),
{
    if s.len() > 0 && is_white(s[0]) {
        trim_start(s.drop_first())
    } else {
        s
    }
}

/// `s` without the white space at its end.
pub open spec fn trim_end(s: Seq<char>) -> Seq<char>
    decreases s.len(),
{
    if s.len() > 0 && is_white(s.last()) {
        trim_end(s.drop_last())
    } else {
        s
    }
}

/// `s` without the white space around it.
pub open spec fn trimmed(s: Seq<char>) -> Seq<char> {
    trim_end(trim_start(s))
}

/// The request, without the white space around it, begins with `prefix`.
pub open spec fn has_prefix(request: Seq<char>, prefix: Seq<char>) -> bool {
    let t = trimmed(request);
    prefix.len() <= t.len() && t.take(prefix.len() as int) == prefix
}

/// The text of `request`, without the white space around it, that follows
/// `prefix`, without the NUL characters that pad its end; `None` when the
/// trimmed request does not begin with the prefix.
pub fn parse_path(prefix: &str, request: &str) -> (r: Option<String>)
    ensures
        r matches Some(p) ==> has_prefix(request@, prefix@) && p@ == trim_nul(
            trimmed(request@).skip(prefix@.len() as int),
        ),
        r is None ==> !has_prefix(request@, prefix@),
{
    let v = chars_of(request);
    let w = chars_of(prefix);
    let n = v.len();
    let mut lo: usize = 0;
    assert(v@.subrange(0, n as int) =~= v@);
    while lo < n && white(v[lo])
        invariant
            lo <= n == v.len(),
            trim_start(v@) == trim_start(v@.subrange(lo as int, n as int)),
        decreases n - lo,
    {
        assert(v@.subrange(lo as int, n as int).drop_first() =~= v@.subrange(lo + 1, n as int));
        lo = lo + 1;
    }
    let mut hi: usize = n;
    while hi > lo && white(v[hi - 1])
        invariant
            lo <= hi <= n == v.len(),
            trim_start(v@) == v@.subrange(lo as int, n as int),
            trimmed(v@) == trim_end(v@.subrange(lo as int, hi as int)),
        decreases hi,
    {
        assert(v@.subrange(lo as int, hi as int).drop_last() =~= v@.subrange(lo as int, hi - 1));
        hi = hi - 1;
    }
    let ghost t = v@.subrange(lo as int, hi as int);
    assert(trimmed(request@) == t);
    if w.len() > hi - lo {
        return None;
    }
    let mut i: usize = 0;
    while i < w.len()
        invariant
            i <= w.len() <= hi - lo,
            lo <= hi <= v.len(),
            t == v@.subrange(lo as int, hi as int),
            trimmed(request@) == t,
            v@ == request@,
            w@ == prefix@,
            t.take(i as int) == w@.take(i as int),
        decreases w.len() - i,
    {
        if v[lo + i] != w[i] {
            assert(t.take(w.len() as int)[i as int] != w@[i as int]);
            return None;
        }
        i = i + 1;
        assert(t.take(i as int) =~= w@.take(i as int));
    }
    assert(w@.take(i as int) =~= w@);
    let start = lo + w.len();
    let mut end = hi;
    assert(v@.subrange(start as int, end as int) =~= t.skip(w.len() as int));
    while end > start && v[end - 1] == '\0'
        invariant
            start <= end <= hi <= v.len(),
            trim_nul(v@.subrange(start as int, end as int)) == trim_nul(t.skip(w.len() as int)),
        decreases end,
    {
        assert(v@.subrange(start as int, end as int).drop_last() =~= v@.subrange(
            start as int,
            end - 1,
        ));
        end = end - 1;
    }
    let r = string_of(&v, start, end);
    assert(trim_nul(r@) == r@);
    Some(r)
}

/// The JSON text of a listing: an array of rows, each an array of strings.
pub uninterp spec fn json_of_rows(rows: Seq<Seq<Seq<char>>>) -> Seq<char>;

/// Relies on `serde_json::to_string` on a `Vec<Vec<String>>`, which cannot
/// fail on such a value: the JSON text of the rows, each string written
/// with the escapes that `serde_json::from_str` reads back, so that reading
/// the text gives the same rows.
#[verifier::external_body]
pub(crate) fn rows_to_json(rows: &Vec<Vec<String>>) -> (r: String)
    ensures
        r@ == json_of_rows(rows.deep_view()),
        rows_in_json(r@) == Some(rows.deep_view()),
{
    serde_json::to_string(rows).unwrap_or_default()
}

/// The rows that a JSON text holds, when it is an array of arrays of strings.
pub uninterp spec fn rows_in_json(text: Seq<char>) -> Option<Seq<Seq<Seq<char>>>>;

/// Relies on `serde_json::from_str::<Vec<Vec<String>>>`: the rows of the
/// text, or an error when it is not an array of arrays of strings.
#[verifier::external_body]
pub(crate) fn rows_from_json(text: &str) -> (r: Option<Vec<Vec<String>>>)
    ensures
        r.deep_view() == rows_in_json(text@),
{
    serde_json::from_str::<Vec<Vec<String>>>(text).ok()
}

} // verus!
