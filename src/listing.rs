//! Directory listings: the row that describes each entry, and filtering of
//! rows by keyword.

use chrono::{Datelike, TimeZone, Timelike};
use vstd::prelude::*;
use crate::text::{
    copy_row, copy_rows, lower_of, lowercase, occurs_in, push_char, push_decimal,
    push_signed_decimal, push_two_digits, str_contains, decimal, signed_decimal, two_digits,
};

verus! {

/// Which column set a listing carries.
#[derive(Clone, Copy, Debug, PartialEq, Eq, Structural)]
pub enum AttributeMode {
    /// Name and last-modified time.
    Basic,
    /// Name, last-modified time, size, owner, group and permissions.
    Extended,
}

impl AttributeMode {
    /// Number of columns in every row of a listing made in this mode.
    pub open spec fn spec_columns(self) -> nat {
        match self {
            AttributeMode::Basic => 2,
            AttributeMode::Extended => 6,
        }
    }
}

/// What the filesystem reports of one directory entry, as plain values.
pub struct RawEntry {
    /// The entry's file name, without any directory part.
    pub name: String,
    pub is_dir: bool,
    /// Last modification, in seconds since the Unix epoch.
    pub modified: i64,
    /// Size in bytes.
    pub size: u64,
    pub uid: u32,
    pub gid: u32,
    /// POSIX mode bits.
    pub mode: u32,
}

/// A moment as read on a wall clock in some time zone.
#[derive(Clone, Copy, Debug, PartialEq, Eq, Structural)]
pub struct LocalTime {
    pub year: i32,
    pub month: u32,
    pub day: u32,
    pub hour: u32,
    pub minute: u32,
}

impl LocalTime {
    /// Each field lies in the range of a calendar date and a time of day.
    pub open spec fn valid(self) -> bool {
        &&& 1 <= self.month <= 12
        &&& 1 <= self.day <= 31
        &&& self.hour < 24
        &&& self.minute < 60
    }
}

/// The letter that grants permission `k % 3` (read, write, execute).
pub open spec fn permission_letter(k: int) -> char {
    if k % 3 == 0 {
        'r'
    } else if k % 3 == 1 {
        'w'
    } else {
        'x'
    }
}

/// The bit of the mode that governs position `k` of the permission string:
/// owner read for `k == 0` down to other execute for `k == 8`.
pub open spec fn permission_bit(k: int) -> u32 {
    (0o400u32 >> (k as u32))
}

/// The nine-character permission string of POSIX mode bits: owner, group and
/// other, each as `r`, `w`, `x` or `-`.
pub open spec fn permissions(mode: u32) -> Seq<char> {
    Seq::new(
        9,
        |k: int|
            if mode & permission_bit(k) != 0 {
                permission_letter(k)
            } else {
                '-'
            },
    )
}

/// Builds the permission string of `mode`.
pub fn convert_rwx_bits(mode: u32) -> (r: String)
    ensures
        r@ == permissions(mode),
{
    let mut r = String::new();
    let mut k: u32 = 0;
    while k < 9
        invariant
            k <= 9,
            r@ == permissions(mode).take(k as int),
        decreases 9 - k,
    {
        let bit: u32 = 0o400u32 >> k;
        let c = if mode & bit != 0 {
            if k % 3 == 0 {
                'r'
            } else if k % 3 == 1 {
                'w'
            } else {
                'x'
            }
        } else {
            '-'
        };
        push_char(&mut r, c);
        k = k + 1;
        assert(r@ =~= permissions(mode).take(k as int));
    }
    assert(r@ =~= permissions(mode));
    r
}

/// `DD/MM/YYYY HH:MM`, each field but the year padded with zeros to two
/// digits.
pub open spec fn timestamp_text(t: LocalTime) -> Seq<char> {
    two_digits(t.day as nat) + seq!['/'] + two_digits(t.month as nat) + seq!['/']
        + signed_decimal(t.year as int) + seq![' '] + two_digits(t.hour as nat) + seq![':']
        + two_digits(t.minute as nat)
}

/// Formats a local time as `DD/MM/YYYY HH:MM`.
pub fn format_timestamp(t: &LocalTime) -> (r: String)
    ensures
        r@ == timestamp_text(*t),
{
    let mut r = String::new();
    push_two_digits(&mut r, t.day as u64);
    push_char(&mut r, '/');
    push_two_digits(&mut r, t.month as u64);
    push_char(&mut r, '/');
    push_signed_decimal(&mut r, t.year as i64);
    push_char(&mut r, ' ');
    push_two_digits(&mut r, t.hour as u64);
    push_char(&mut r, ':');
    push_two_digits(&mut r, t.minute as u64);
    assert(r@ =~= timestamp_text(*t));
    r
}

/// The first column: the name, after a `/` when the entry is a directory.
pub open spec fn name_column(name: Seq<char>, is_dir: bool) -> Seq<char> {
    if is_dir {
        seq!['/'] + name
    } else {
        name
    }
}

/// An owner or group column: the resolved name, or `Unknown`.
pub open spec fn name_or_unknown(name: Option<Seq<char>>) -> Seq<char> {
    match name {
        Some(n) => n,
        None => "Unknown"@,
    }
}

/// The row that describes `e` in `mode`, given its modification time on the
/// local clock and the names of its owner and group, where they resolved.
pub open spec fn row_of(
    e: RawEntry,
    mode: AttributeMode,
    time: LocalTime,
    owner: Option<Seq<char>>,
    group: Option<Seq<char>>,
) -> Seq<Seq<char>> {
    let basic = seq![name_column(e.name@, e.is_dir), timestamp_text(time)];
    match mode {
        AttributeMode::Basic => basic,
        AttributeMode::Extended => basic + seq![
            decimal(e.size as nat),
            name_or_unknown(owner),
            name_or_unknown(group),
            permissions(e.mode),
        ],
    }
}

/// `row` describes `e` in `mode` for some valid local time and some outcome
/// of the owner and group lookups.
pub open spec fn describes(row: Seq<Seq<char>>, e: RawEntry, mode: AttributeMode) -> bool {
    exists|t: LocalTime, o: Option<Seq<char>>, g: Option<Seq<char>>|
        t.valid() && row == #[trigger] row_of(e, mode, t, o, g)
}

fn unknown_or(name: Option<String>) -> (r: String)
    ensures
        r@ == name_or_unknown(name.deep_view()),
{
    match name {
        Some(n) => n,
        None => String::from_str("Unknown"),
    }
}

/// Builds the row of one entry from what was resolved for it.
pub fn entry_row(
    entry: &RawEntry,
    mode: AttributeMode,
    time: &LocalTime,
    owner: Option<String>,
    group: Option<String>,
) -> (r: Vec<String>)
    ensures
        r.deep_view() == row_of(*entry, mode, *time, owner.deep_view(), group.deep_view()),
{
    let mut name = String::new();
    if entry.is_dir {
        push_char(&mut name, '/');
    }
    name.append(entry.name.as_str());
    assert(name@ =~= name_column(entry.name@, entry.is_dir));
    let mut r: Vec<String> = Vec::new();
    r.push(name);
    r.push(format_timestamp(time));
    match mode {
        AttributeMode::Basic => {},
        AttributeMode::Extended => {
            let mut size = String::new();
            push_decimal(&mut size, entry.size);
            r.push(size);
            r.push(unknown_or(owner));
            r.push(unknown_or(group));
            r.push(convert_rwx_bits(entry.mode));
        },
    }
    assert(r.deep_view() =~= row_of(*entry, mode, *time, owner.deep_view(), group.deep_view()));
    r
}

/// A Unix timestamp from the start of year 1 to the end of year 9999, UTC.
pub open spec fn in_calendar(secs: i64) -> bool {
    -62_135_596_800 <= secs <= 253_402_300_799
}

/// Relies on chrono's `TimeZone::timestamp_opt` for `Local`: the wall-clock
/// time of a Unix timestamp in the machine's time zone, read through
/// `Datelike` and `Timelike`. It is `None` only when
/// `DateTime::from_timestamp` finds the timestamp out of chrono's range,
/// which reaches far beyond years 1 to 9999; `Local` gives a single offset
/// for every instant. Months count from 1, days from 1, hours to 23 and
/// minutes to 59.
#[verifier::external_body]
fn local_time(secs: i64) -> (r: Option<LocalTime>)
    ensures
        r matches Some(t) ==> t.valid(),
        in_calendar(secs) ==> r is Some,
{
    match chrono::Local.timestamp_opt(secs, 0) {
        chrono::MappedLocalTime::Single(d) => Some(
            LocalTime {
                year: d.year(),
                month: d.month(),
                day: d.day(),
                hour: d.hour(),
                minute: d.minute(),
            },
        ),
        _ => None,
    }
}

/// Relies on `users::get_user_by_uid`: the name of a user account, when the
/// system knows the id.
#[verifier::external_body]
fn user_name(uid: u32) -> Option<String> {
    users::get_user_by_uid(uid).map(|u| u.name().to_string_lossy().into_owned())
}

/// Relies on `users::get_group_by_gid`: the name of a group, when the system
/// knows the id.
#[verifier::external_body]
fn group_name(gid: u32) -> Option<String> {
    users::get_group_by_gid(gid).map(|g| g.name().to_string_lossy().into_owned())
}

/// Describes one entry: its modification time on the local clock and, in
/// extended mode, the names of its owner and group. `None` when the time
/// lies outside the calendar's range.
pub fn describe_entry(entry: &RawEntry, mode: AttributeMode) -> (r: Option<Vec<String>>)
    ensures
        r matches Some(row) ==> describes(row.deep_view(), *entry, mode),
        in_calendar(entry.modified) ==> r is Some,
{
    match local_time(entry.modified) {
        None => None,
        Some(t) => {
            let (owner, group) = match mode {
                AttributeMode::Basic => (None, None),
                AttributeMode::Extended => (user_name(entry.uid), group_name(entry.gid)),
            };
            let row = entry_row(entry, mode, &t, owner, group);
            assert(row.deep_view() == row_of(
                *entry,
                mode,
                t,
                owner.deep_view(),
                group.deep_view(),
            ));
            Some(row)
        },
    }
}

/// Describes each entry of a directory in turn, in the order given. `None`
/// when some entry's time cannot be placed on the calendar.
pub fn listing_rows(entries: &Vec<RawEntry>, mode: AttributeMode) -> (r: Option<
    Vec<Vec<String>>,
>)
    ensures
        r matches Some(rows) ==> {
            &&& rows.len() == entries.len()
            &&& forall|i: int|
                0 <= i < rows.len() ==> describes(#[trigger] rows[i].deep_view(), entries[i], mode)
        },
        (forall|i: int| 0 <= i < entries.len() ==> in_calendar(#[trigger] entries[i].modified))
            ==> r is Some,
{
    let mut rows: Vec<Vec<String>> = Vec::new();
    let mut i: usize = 0;
    while i < entries.len()
        invariant
            i <= entries.len(),
            rows.len() == i,
            forall|k: int|
                0 <= k < i ==> describes(#[trigger] rows[k].deep_view(), entries[k], mode),
        decreases entries.len() - i,
    {
        match describe_entry(&entries[i], mode) {
            None => {
                assert(!in_calendar(entries[i as int].modified));
                return None;
            },
            Some(row) => {
                rows.push(row);
            },
        }
        i = i + 1;
    }
    Some(rows)
}

/// Every row that describes an entry has the width of its mode: two
/// columns in basic mode, six in extended mode, where the sixth is the
/// permission string of the entry's mode bits. The first column is the
/// entry's name, after a `/` for a directory.
pub proof fn described_rows_have_mode_width(row: Seq<Seq<char>>, e: RawEntry, mode: AttributeMode)
    requires
        describes(row, e, mode),
    ensures
        row.len() == mode.spec_columns(),
        row[0] == name_column(e.name@, e.is_dir),
        mode == AttributeMode::Extended ==> row[5] == permissions(e.mode),
        mode == AttributeMode::Extended ==> row[2] == decimal(e.size as nat),
{
}

/// Two listings made from the same entries in the same mode agree on all
/// that the entries alone decide: the number of rows, and in each row its
/// width, the name column and, in extended mode, the size and permission
/// columns. The time, owner and group columns go through the machine's
/// time zone and account databases, and are not compared here.
pub proof fn listings_of_same_entries_agree(
    a: Seq<Seq<Seq<char>>>,
    b: Seq<Seq<Seq<char>>>,
    entries: Seq<RawEntry>,
    mode: AttributeMode,
)
    requires
        a.len() == entries.len(),
        b.len() == entries.len(),
        forall|i: int| 0 <= i < a.len() ==> describes(#[trigger] a[i], entries[i], mode),
        forall|i: int| 0 <= i < b.len() ==> describes(#[trigger] b[i], entries[i], mode),
    ensures
        a.len() == b.len(),
        forall|i: int|
            0 <= i < a.len() ==> {
                &&& (#[trigger] a[i]).len() == b[i].len()
                &&& a[i][0] == b[i][0]
                &&& mode == AttributeMode::Extended ==> a[i][2] == b[i][2] && a[i][5] == b[i][5]
            },
{
    assert forall|i: int| 0 <= i < a.len() implies {
        &&& (#[trigger] a[i]).len() == b[i].len()
        &&& a[i][0] == b[i][0]
        &&& mode == AttributeMode::Extended ==> a[i][2] == b[i][2] && a[i][5] == b[i][5]
    } by {
        described_rows_have_mode_width(a[i], entries[i], mode);
        described_rows_have_mode_width(b[i], entries[i], mode);
    }
}

/// Some column of `row`, in lower case, holds `keyword_lower`.
pub open spec fn row_mentions(row: Seq<Seq<char>>, keyword_lower: Seq<char>) -> bool {
    exists|j: int| 0 <= j < row.len() && occurs_in(keyword_lower, #[trigger] lower_of(row[j]))
}

/// The rows that mention `keyword` in some column, ignoring case, in their
/// order; all rows when the keyword is empty.
pub open spec fn filtered(rows: Seq<Seq<Seq<char>>>, keyword: Seq<char>) -> Seq<Seq<Seq<char>>> {
    if keyword.len() == 0 {
        rows
    } else {
        rows.filter(|row: Seq<Seq<char>>| row_mentions(row, lower_of(keyword)))
    }
}

/// Some column of `folded` holds `keyword`.
pub open spec fn some_column_holds(folded: Seq<Seq<char>>, keyword: Seq<char>) -> bool {
    exists|j: int| 0 <= j < folded.len() && occurs_in(keyword, #[trigger] folded[j])
}

/// Whether some column of a row already in lower case holds a keyword
/// already in lower case.
pub fn matches_folded(folded: &Vec<String>, keyword: &str) -> (r: bool)
    ensures
        r == some_column_holds(folded.deep_view(), keyword@),
{
    let mut j: usize = 0;
    while j < folded.len()
        invariant
            j <= folded.len(),
            forall|k: int| 0 <= k < j ==> !occurs_in(keyword@, #[trigger] folded.deep_view()[k]),
        decreases folded.len() - j,
    {
        assert(folded.deep_view()[j as int] == folded[j as int]@);
        if str_contains(folded[j].as_str(), keyword) {
            return true;
        }
        j = j + 1;
    }
    false
}

fn mentions(row: &Vec<String>, keyword_lower: &str) -> (r: bool)
    ensures
        r == row_mentions(row.deep_view(), keyword_lower@),
{
    let mut folded: Vec<String> = Vec::new();
    let mut j: usize = 0;
    while j < row.len()
        invariant
            j <= row.len(),
            folded.len() == j,
            forall|k: int| 0 <= k < j ==> #[trigger] folded[k]@ == lower_of(row[k]@),
        decreases row.len() - j,
    {
        folded.push(lowercase(row[j].as_str()));
        j = j + 1;
    }
    let r = matches_folded(&folded, keyword_lower);
    assert(folded.deep_view() =~= row.deep_view().map_values(|c: Seq<char>| lower_of(c)));
    proof {
        if r {
            let k = choose|k: int|
                0 <= k < folded.deep_view().len() && occurs_in(
                    keyword_lower@,
                    #[trigger] folded.deep_view()[k],
                );
            assert(lower_of(row.deep_view()[k]) == folded.deep_view()[k]);
        } else {
            assert forall|k: int| 0 <= k < row.deep_view().len() implies !occurs_in(
                keyword_lower@,
                #[trigger] lower_of(row.deep_view()[k]),
            ) by {
                assert(lower_of(row.deep_view()[k]) == folded.deep_view()[k]);
            }
        }
    }
    r
}

/// Keeps the rows in which some column holds `keyword`, compared without
/// regard to case; an empty keyword keeps every row.
pub fn filter_dir(rows: &Vec<Vec<String>>, keyword: &str) -> (r: Vec<Vec<String>>)
    ensures
        r.deep_view() == filtered(rows.deep_view(), keyword@),
        keyword@.len() == 0 ==> r.deep_view() == rows.deep_view(),
{
    if keyword.is_empty() {
        return copy_rows(rows);
    }
    let keyword_lower = lowercase(keyword);
    let ghost pred = |row: Seq<Seq<char>>| row_mentions(row, lower_of(keyword@));
    let mut r: Vec<Vec<String>> = Vec::new();
    let mut i: usize = 0;
    while i < rows.len()
        invariant
            i <= rows.len(),
            keyword_lower@ == lower_of(keyword@),
            pred == (|row: Seq<Seq<char>>| row_mentions(row, lower_of(keyword@))),
            r.deep_view() == rows.deep_view().take(i as int).filter(pred),
        decreases rows.len() - i,
    {
        let ghost before = rows.deep_view().take(i as int);
        assert(rows.deep_view().take(i as int + 1) =~= before.push(rows.deep_view()[i as int]));
        proof {
            before.lemma_filter_push(rows.deep_view()[i as int], pred);
        }
        if mentions(&rows[i], keyword_lower.as_str()) {
            r.push(copy_row(&rows[i]));
            assert(r.deep_view() =~= before.filter(pred).push(rows.deep_view()[i as int]));
        }
        i = i + 1;
    }
    assert(rows.deep_view().take(i as int) =~= rows.deep_view());
    r
}

proof fn lemma_filter_keeps_all<A>(s: Seq<A>, pred: spec_fn(A) -> bool)
    requires
        forall|i: int| 0 <= i < s.len() ==> pred(#[trigger] s[i]),
    ensures
        s.filter(pred) == s,
    decreases s.len(),
{
    reveal(Seq::filter);
    if s.len() > 0 {
        lemma_filter_keeps_all(s.drop_last(), pred);
        assert(s.drop_last().push(s.last()) =~= s);
    }
}

/// Filtering rows with the empty keyword gives back the rows unchanged.
pub proof fn filter_empty_keyword_keeps_rows(rows: Seq<Seq<Seq<char>>>, keyword: Seq<char>)
    requires
        keyword.len() == 0,
    ensures
        filtered(rows, keyword) == rows,
{
}

/// Filtering is idempotent: filtering an already filtered result by the same
/// keyword gives the same rows.
pub proof fn filter_is_idempotent(rows: Seq<Seq<Seq<char>>>, keyword: Seq<char>)
    ensures
        filtered(filtered(rows, keyword), keyword) == filtered(rows, keyword),
{
    if keyword.len() > 0 {
        let pred = |row: Seq<Seq<char>>| row_mentions(row, lower_of(keyword));
        let once = rows.filter(pred);
        assert forall|i: int| 0 <= i < once.len() implies pred(#[trigger] once[i]) by {
            rows.lemma_filter_pred(pred, i);
        }
        lemma_filter_keeps_all(once, pred);
    }
}

} // verus!
