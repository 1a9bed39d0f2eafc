//! What is read off a capture's file name and added to its description when
//! a recording is processed.

use crate::pattern::{regex_captures, search_captures};
use crate::recording::{label_name, label_text, CaptureLabel, CaptureRequest};
use crate::text::{
    chars_of, decimal_text, is_digit, lemma_decimal_text_reads_back, parse_u64, push_chars,
    push_decimal, push_text, same_text, slice_of, string_of, texts_view, u64_value,
};
use vstd::prelude::*;
use vstd::string::StringExecFns;

verus! {

/// The highest number that an action folder can carry.
pub const LAST_ACTION_INDEX: u32 = 10000;

/// The name of the action folder with the number `index`.
pub open spec fn action_folder_text(index: u32) -> Seq<char> {
    "action_"@ + decimal_text(index as nat)
}

/// Names the action folder with the number `index`.
pub fn action_folder_name(index: u32) -> (r: String)
    ensures
        r@ == action_folder_text(index),
{
    let mut out: Vec<char> = Vec::new();
    push_text("action_", &mut out);
    push_decimal(index as u64, &mut out);
    text_of(&out)
}

/// What to do after looking whether an action folder is there.
#[derive(Clone, Copy, Debug, PartialEq, Eq, Structural)]
pub enum FolderProbe {
    /// The folder with this number is free: the recording takes it.
    Take(u32),
    /// Look at the folder with this number next.
    Probe(u32),
    /// Every number is taken.
    GiveUp,
}

/// The search for a free action folder, one look at a time: a number whose
/// folder is not there is taken, otherwise the next number is looked at,
/// and after the last number the search is given up.
pub open spec fn probed(index: u32, exists: bool) -> FolderProbe {
    if !exists {
        FolderProbe::Take(index)
    } else if index >= LAST_ACTION_INDEX {
        FolderProbe::GiveUp
    } else {
        FolderProbe::Probe((index + 1) as u32)
    }
}

/// Decides how the search for a free action folder goes on, given whether
/// the folder with the number `index` exists.
pub fn after_probe(index: u32, exists: bool) -> (r: FolderProbe)
    ensures
        r == probed(index, exists),
{
    if !exists {
        FolderProbe::Take(index)
    } else if index >= LAST_ACTION_INDEX {
        FolderProbe::GiveUp
    } else {
        FolderProbe::Probe(index + 1)
    }
}

/// The decimal text of `n`, with a minus sign when it is negative.
pub open spec fn signed_text(n: int) -> Seq<char> {
    if n < 0 {
        "-"@ + decimal_text((-n) as nat)
    } else {
        decimal_text(n as nat)
    }
}

/// The part of a capture's file name that tells where the pointer was.
pub open spec fn pointer_suffix(pointer: Option<(i32, i32)>) -> Seq<char> {
    match pointer {
        Some(p) => "_mouse_"@ + signed_text(p.0 as int) + "_"@ + signed_text(p.1 as int),
        None => Seq::empty(),
    }
}

/// The name of the file of a capture taken at `timestamp` (in seconds) for
/// the action recorded in `action_folder`.
pub open spec fn file_name_of(
    timestamp: u64,
    request: CaptureRequest,
    action_folder: Seq<char>,
) -> Seq<char> {
    "raw_"@ + decimal_text(timestamp as nat) + "_"@ + label_text(request.label) + "_folder_"@
        + action_folder + pointer_suffix(request.pointer) + ".png"@
}

fn push_signed(n: i32, out: &mut Vec<char>)
    ensures
        final(out)@ == old(out)@ + signed_text(n as int),
{
    if n < 0 {
        push_text("-", out);
        let magnitude: u64 = (0 - (n as i64)) as u64;
        push_decimal(magnitude, out);
        assert(final(out)@ =~= old(out)@ + signed_text(n as int));
    } else {
        push_decimal(n as u64, out);
    }
}

/// Names the file of a capture.
pub fn capture_file_name(timestamp: u64, request: CaptureRequest, action_folder: &str) -> (r: String)
    ensures
        r@ == file_name_of(timestamp, request, action_folder@),
{
    let mut out: Vec<char> = Vec::new();
    push_text("raw_", &mut out);
    push_decimal(timestamp, &mut out);
    push_text("_", &mut out);
    push_text(label_name(request.label), &mut out);
    push_text("_folder_", &mut out);
    push_text(action_folder, &mut out);
    match request.pointer {
        Some(p) => {
            push_text("_mouse_", &mut out);
            push_signed(p.0, &mut out);
            push_text("_", &mut out);
            push_signed(p.1, &mut out);
        },
        None => {},
    }
    push_text(".png", &mut out);
    assert(out@ =~= file_name_of(timestamp, request, action_folder@));
    text_of(&out)
}

/// The summary of the recording in `base_folder`.
pub fn summarize_recording_internal(base_folder: &str) -> (r: String)
    ensures
        r@ == "Summary for recording in "@ + base_folder@,
{
    let mut s = "Summary for recording in ".to_owned();
    s.append(base_folder);
    s
}

/// The pattern of a capture's file name, with the time of the capture in
/// seconds as its first group.
pub open spec fn timestamp_pattern() -> Seq<char> {
    "raw_(\\d+)_.*\\.png"@
}

/// The time that the capture groups of a search denote: group 1 read as a
/// decimal `u64`.
pub open spec fn timestamp_from(found: Option<Seq<Option<Seq<char>>>>) -> Option<u64> {
    match found {
        Some(groups) => if groups.len() >= 2 && groups[1] is Some {
            u64_value(groups[1]->0)
        } else {
            None
        },
        None => None,
    }
}

/// The time of capture that a file name carries.
pub open spec fn timestamp_of(name: Seq<char>) -> Option<u64> {
    match regex_captures(timestamp_pattern(), name) {
        Some(found) => timestamp_from(found),
        None => None,
    }
}

/// Reads the time of capture out of the capture groups of a search for the
/// file name pattern.
pub fn timestamp_from_captures(found: &Option<Vec<Option<String>>>) -> (r: Option<u64>)
    ensures
        r == timestamp_from(found.deep_view()),
{
    match found {
        None => None,
        Some(groups) => {
            if groups.len() < 2 {
                return None;
            }
            assert(groups.deep_view()[1] == groups@[1].deep_view());
            match &groups[1] {
                Some(digits) => parse_u64(&chars_of(digits.as_str())),
                None => None,
            }
        },
    }
}

/// The time of capture in the name of a capture's file.
pub fn extract_timestamp_from_filename(filename: &str) -> (r: Option<u64>)
    ensures
        r == timestamp_of(filename@),
{
    match search_captures("raw_(\\d+)_.*\\.png", filename) {
        Ok(found) => timestamp_from_captures(&found),
        Err(_) => None,
    }
}

/// The pieces of `s` between occurrences of `sep`, from index `i` on, where
/// the current piece began at `start`. A text without `sep` is one piece.
pub open spec fn pieces_from(s: Seq<char>, sep: char, start: int, i: int) -> Seq<Seq<char>>
    decreases s.len() - i,
{
    if !(0 <= start <= i < s.len()) {
        if 0 <= start <= s.len() {
            seq![s.subrange(start, s.len() as int)]
        } else {
            Seq::empty()
        }
    } else if s[i] == sep {
        seq![s.subrange(start, i)] + pieces_from(s, sep, i + 1, i + 1)
    } else {
        pieces_from(s, sep, start, i + 1)
    }
}

/// The pieces of `s` between occurrences of `sep`.
pub open spec fn pieces(s: Seq<char>, sep: char) -> Seq<Seq<char>> {
    pieces_from(s, sep, 0, 0)
}

/// Splits `text` at every `sep`.
pub fn split_on(text: &Vec<char>, sep: char) -> (r: Vec<Vec<char>>)
    ensures
        texts_view(r@) == pieces(text@, sep),
{
    let mut out: Vec<Vec<char>> = Vec::new();
    let mut start: usize = 0;
    let mut i: usize = 0;
    assert(texts_view(out@) + pieces_from(text@, sep, 0, 0) =~= pieces(text@, sep));
    while i < text.len()
        invariant
            start <= i <= text.len(),
            pieces(text@, sep) == texts_view(out@) + pieces_from(text@, sep, start as int, i as int),
        decreases text.len() - i,
    {
        let ghost before = texts_view(out@);
        if text[i] == sep {
            out.push(slice_of(text, start, i));
            assert(texts_view(out@) =~= before + seq![text@.subrange(start as int, i as int)]);
            assert(texts_view(out@) + pieces_from(text@, sep, i + 1, i + 1) =~= before + pieces_from(
                text@,
                sep,
                start as int,
                i as int,
            ));
            start = i + 1;
        }
        i += 1;
    }
    let ghost before = texts_view(out@);
    out.push(slice_of(text, start, text.len()));
    assert(texts_view(out@) =~= before + pieces_from(text@, sep, start as int, i as int));
    out
}

/// The lines of `s` from index `i` on, where the current line began at
/// `start`. A line ends at a line feed; a carriage return just before it is
/// not part of the line. What follows the last line feed is a line unless
/// it is empty.
pub open spec fn lines_from(s: Seq<char>, start: int, i: int) -> Seq<Seq<char>>
    decreases s.len() - i,
{
    if !(0 <= start <= i < s.len()) {
        if 0 <= start < s.len() {
            seq![s.subrange(start, s.len() as int)]
        } else {
            Seq::empty()
        }
    } else if s[i] == '\n' {
        seq![without_return(s.subrange(start, i))] + lines_from(s, i + 1, i + 1)
    } else {
        lines_from(s, start, i + 1)
    }
}

/// `line` without a carriage return at its end.
pub open spec fn without_return(line: Seq<char>) -> Seq<char> {
    if line.len() > 0 && line.last() == '\r' {
        line.drop_last()
    } else {
        line
    }
}

/// The lines of `s`.
pub open spec fn lines_of(s: Seq<char>) -> Seq<Seq<char>> {
    lines_from(s, 0, 0)
}

/// Splits `text` into its lines.
pub fn split_lines(text: &Vec<char>) -> (r: Vec<Vec<char>>)
    ensures
        texts_view(r@) == lines_of(text@),
{
    let mut out: Vec<Vec<char>> = Vec::new();
    let mut start: usize = 0;
    let mut i: usize = 0;
    assert(texts_view(out@) + lines_from(text@, 0, 0) =~= lines_of(text@));
    while i < text.len()
        invariant
            start <= i <= text.len(),
            lines_of(text@) == texts_view(out@) + lines_from(text@, start as int, i as int),
        decreases text.len() - i,
    {
        let ghost before = texts_view(out@);
        if text[i] == '\n' {
            let end: usize = if start < i && text[i - 1] == '\r' {
                i - 1
            } else {
                i
            };
            out.push(slice_of(text, start, end));
            assert(text@.subrange(start as int, end as int) =~= without_return(
                text@.subrange(start as int, i as int),
            ));
            assert(texts_view(out@) =~= before + seq![
                without_return(text@.subrange(start as int, i as int)),
            ]);
            assert(texts_view(out@) + lines_from(text@, i + 1, i + 1) =~= before + lines_from(
                text@,
                start as int,
                i as int,
            ));
            start = i + 1;
        }
        i += 1;
    }
    let ghost before = texts_view(out@);
    if start < text.len() {
        out.push(slice_of(text, start, text.len()));
        assert(texts_view(out@) =~= before + seq![text@.subrange(start as int, text@.len() as int)]);
    }
    assert(texts_view(out@) =~= before + lines_from(text@, start as int, i as int));
    out
}

/// What the name of a capture's file says of the capture.
#[derive(Clone, Debug, PartialEq, Eq)]
pub struct CaptureDetails {
    pub action: String,
    pub mouse_x: String,
    pub mouse_y: String,
}

/// The mathematical value of [`CaptureDetails`].
pub ghost struct DetailsModel {
    pub action: Seq<char>,
    pub mouse_x: Seq<char>,
    pub mouse_y: Seq<char>,
}

impl View for CaptureDetails {
    type V = DetailsModel;

    open spec fn view(&self) -> DetailsModel {
        DetailsModel { action: self.action@, mouse_x: self.mouse_x@, mouse_y: self.mouse_y@ }
    }
}

/// The index of the first piece at or after `i` that equals `word`.
pub open spec fn piece_index(parts: Seq<Seq<char>>, word: Seq<char>, i: int) -> Option<int>
    decreases parts.len() - i,
{
    if i < 0 || i >= parts.len() {
        None
    } else if parts[i] == word {
        Some(i)
    } else {
        piece_index(parts, word, i + 1)
    }
}

/// What a file stem says of the capture. The stem is split at `_`. The
/// third piece is the action, `Unknown` when there is none. The two pieces
/// after the first piece `mouse` are the pointer's coordinates, `0` and `0`
/// when they are not both there.
pub open spec fn details_of(stem: Seq<char>) -> DetailsModel {
    let parts = pieces(stem, '_');
    let action = if parts.len() >= 3 {
        parts[2]
    } else {
        "Unknown"@
    };
    match piece_index(parts, "mouse"@, 0) {
        Some(k) => if parts.len() > k + 2 {
            DetailsModel { action, mouse_x: parts[k + 1], mouse_y: parts[k + 2] }
        } else {
            DetailsModel { action, mouse_x: "0"@, mouse_y: "0"@ }
        },
        None => DetailsModel { action, mouse_x: "0"@, mouse_y: "0"@ },
    }
}

fn text_of(v: &Vec<char>) -> (s: String)
    ensures
        s@ == v@,
{
    let s = string_of(v, 0, v.len());
    assert(v@.subrange(0, v@.len() as int) =~= v@);
    s
}

/// Reads action and pointer coordinates off the stem of a capture's file
/// name.
pub fn capture_details(stem: &str) -> (r: CaptureDetails)
    ensures
        r@ == details_of(stem@),
{
    let parts = split_on(&chars_of(stem), '_');
    let ghost all = pieces(stem@, '_');
    assert(forall|j: int| 0 <= j < parts@.len() ==> parts@[j]@ == #[trigger] all[j]);
    let action = if parts.len() >= 3 {
        text_of(&parts[2])
    } else {
        "Unknown".to_owned()
    };
    let mut k: usize = 0;
    while k < parts.len() && !same_text(&parts[k], "mouse")
        invariant
            k <= parts.len(),
            all.len() == parts@.len(),
            forall|j: int| 0 <= j < parts@.len() ==> parts@[j]@ == #[trigger] all[j],
            piece_index(all, "mouse"@, 0) == piece_index(all, "mouse"@, k as int),
        decreases parts.len() - k,
    {
        assert(all[k as int] == parts@[k as int]@);
        k += 1;
    }
    if k < parts.len() {
        assert(all[k as int] == parts@[k as int]@);
    }
    if k < parts.len() && parts.len() - k > 2 {
        CaptureDetails { action, mouse_x: text_of(&parts[k + 1]), mouse_y: text_of(&parts[k + 2]) }
    } else {
        CaptureDetails { action, mouse_x: "0".to_owned(), mouse_y: "0".to_owned() }
    }
}

/// The heading of a description that has none of its own.
pub open spec fn fallback_header() -> Seq<char> {
    "type,bbox,interactivity,content,source,action,mouse_x,mouse_y,action_number"@
}

/// The names of the columns that are added to a description.
pub open spec fn added_columns() -> Seq<char> {
    ",action,mouse_x,mouse_y,action_number"@
}

/// The values of the added columns for one capture.
pub open spec fn added_values(details: DetailsModel, number: u64) -> Seq<char> {
    ","@ + details.action + ","@ + details.mouse_x + ","@ + details.mouse_y + ","@ + decimal_text(
        number as nat,
    )
}

/// The rows of a description from line `i` on, each after a line feed and
/// with the added values at its end.
pub open spec fn annotated_rows(
    lines: Seq<Seq<char>>,
    details: DetailsModel,
    number: u64,
    i: int,
) -> Seq<char>
    decreases lines.len() - i,
{
    if i < 0 || i >= lines.len() {
        Seq::empty()
    } else {
        "\n"@ + lines[i] + added_values(details, number) + annotated_rows(
            lines,
            details,
            number,
            i + 1,
        )
    }
}

/// The description of a capture with the added columns. The first line of
/// the description is its heading and gets the names of the columns, every
/// other line gets their values. A description without any line is the
/// fallback heading alone, and a missing description is the fallback
/// heading over one row that holds the added values only.
pub open spec fn annotated(parsed: Option<Seq<char>>, details: DetailsModel, number: u64) -> Seq<
    char,
> {
    match parsed {
        Some(content) => {
            let lines = lines_of(content);
            let header = if lines.len() > 0 {
                lines[0] + added_columns()
            } else {
                fallback_header()
            };
            header + annotated_rows(lines, details, number, 1)
        },
        None => fallback_header() + "\n,,,"@ + added_values(details, number),
    }
}

fn push_added_values(details: &CaptureDetails, number: u64, out: &mut Vec<char>)
    ensures
        final(out)@ == old(out)@ + added_values(details@, number),
{
    push_text(",", out);
    push_text(details.action.as_str(), out);
    push_text(",", out);
    push_text(details.mouse_x.as_str(), out);
    push_text(",", out);
    push_text(details.mouse_y.as_str(), out);
    push_text(",", out);
    push_decimal(number, out);
    assert(final(out)@ =~= old(out)@ + added_values(details@, number));
}

/// Adds the columns of one capture to its description.
pub fn annotate_description(parsed: Option<&str>, details: &CaptureDetails, number: u64) -> (r: String)
    ensures
        r@ == annotated(
            match parsed {
                Some(content) => Some(content@),
                None => None,
            },
            details@,
            number,
        ),
{
    let mut out: Vec<char> = Vec::new();
    match parsed {
        None => {
            push_text(
                "type,bbox,interactivity,content,source,action,mouse_x,mouse_y,action_number",
                &mut out,
            );
            push_text("\n,,,", &mut out);
            push_added_values(details, number, &mut out);
            assert(out@ =~= fallback_header() + "\n,,,"@ + added_values(details@, number));
        },
        Some(content) => {
            let lines = split_lines(&chars_of(content));
            let ghost all = lines_of(content@);
            assert(forall|j: int| 0 <= j < lines@.len() ==> lines@[j]@ == #[trigger] all[j]);
            if lines.len() > 0 {
                push_chars(&lines[0], &mut out);
                push_text(",action,mouse_x,mouse_y,action_number", &mut out);
                assert(out@ =~= all[0] + added_columns());
            } else {
                push_text(
                    "type,bbox,interactivity,content,source,action,mouse_x,mouse_y,action_number",
                    &mut out,
                );
                assert(out@ =~= fallback_header());
            }
            let ghost header = out@;
            let mut i: usize = 1;
            if lines.len() == 0 {
                assert(annotated_rows(all, details@, number, 1) =~= Seq::<char>::empty());
                assert(out@ + annotated_rows(all, details@, number, 1) =~= header);
            }
            while i < lines.len()
                invariant
                    1 <= i,
                    lines@.len() > 0 ==> i <= lines@.len(),
                    all.len() == lines@.len(),
                    forall|j: int| 0 <= j < lines@.len() ==> lines@[j]@ == #[trigger] all[j],
                    out@ + annotated_rows(all, details@, number, i as int) == header
                        + annotated_rows(all, details@, number, 1),
                decreases lines.len() - i,
            {
                let ghost before = out@;
                push_text("\n", &mut out);
                push_chars(&lines[i], &mut out);
                push_added_values(details, number, &mut out);
                assert(out@ + annotated_rows(all, details@, number, i + 1) =~= before
                    + annotated_rows(all, details@, number, i as int));
                i += 1;
            }
            assert(annotated_rows(all, details@, number, i as int) =~= Seq::<char>::empty());
            assert(out@ =~= header + annotated_rows(all, details@, number, 1));
        },
    }
    text_of(&out)
}

/// Whether capture `a` is processed before capture `b`: the earlier capture
/// first, and of two taken in the same second the one listed first.
pub open spec fn comes_before(stamps: Seq<u64>, a: int, b: int) -> bool {
    stamps[a] < stamps[b] || (stamps[a] == stamps[b] && a < b)
}

/// Whether `order` lists the positions of `stamps`, each once, so that every
/// capture stands before those that are processed after it.
pub open spec fn is_processing_order(stamps: Seq<u64>, order: Seq<usize>) -> bool {
    &&& order.len() == stamps.len()
    &&& forall|k: int| 0 <= k < order.len() ==> (#[trigger] order[k]) < stamps.len()
    &&& forall|j: int, k: int|
        0 <= j < k < order.len() ==> comes_before(
            stamps,
            (#[trigger] order[j]) as int,
            (#[trigger] order[k]) as int,
        )
}

/// The order in which captures are processed, given the time of each:
/// oldest first, and captures of the same second in the order given.
pub fn processing_order(stamps: &Vec<u64>) -> (order: Vec<usize>)
    ensures
        is_processing_order(stamps@, order@),
{
    let mut order: Vec<usize> = Vec::new();
    let mut i: usize = 0;
    while i < stamps.len()
        invariant
            i <= stamps.len(),
            order@.len() == i,
            forall|k: int| 0 <= k < order@.len() ==> (#[trigger] order@[k]) < i,
            forall|j: int, k: int|
                0 <= j < k < order@.len() ==> comes_before(
                    stamps@,
                    (#[trigger] order@[j]) as int,
                    (#[trigger] order@[k]) as int,
                ),
        decreases stamps.len() - i,
    {
        let mut p: usize = order.len();
        while p > 0 && stamps[order[p - 1]] > stamps[i]
            invariant
                p <= order@.len(),
                i < stamps.len(),
                order@.len() == i,
                forall|k: int| 0 <= k < order@.len() ==> (#[trigger] order@[k]) < i,
                forall|k: int| p <= k < order@.len() ==> stamps@[(#[trigger] order@[k]) as int] > stamps@[i as int],
            decreases p,
        {
            p -= 1;
        }
        let ghost before = order@;
        proof {
            assert forall|k: int| 0 <= k < p implies stamps@[(#[trigger] before[k]) as int] <= stamps@[i as int] by {
                if k < p - 1 {
                    assert(comes_before(stamps@, before[k] as int, before[p - 1] as int));
                }
            }
        }
        order.insert(p, i);
        proof {
            let after = order@;
            assert forall|j: int, k: int| 0 <= j < k < after.len() implies comes_before(
                stamps@,
                (#[trigger] after[j]) as int,
                (#[trigger] after[k]) as int,
            ) by {
                if k < p {
                    assert(after[j] == before[j] && after[k] == before[k]);
                } else if k == p {
                    assert(after[j] == before[j]);
                } else if j < p {
                    assert(after[j] == before[j] && after[k] == before[k - 1]);
                } else if j == p {
                    assert(after[k] == before[k - 1]);
                } else {
                    assert(after[j] == before[j - 1] && after[k] == before[k - 1]);
                }
            }
            assert forall|k: int| 0 <= k < after.len() implies (#[trigger] after[k]) < i + 1 by {
                if k < p {
                    assert(after[k] == before[k]);
                } else if k > p {
                    assert(after[k] == before[k - 1]);
                }
            }
        }
        i += 1;
    }
    order
}

/// In a processing order no position stands twice.
pub proof fn lemma_processing_order_has_no_duplicates(stamps: Seq<u64>, order: Seq<usize>)
    requires
        is_processing_order(stamps, order),
    ensures
        order.no_duplicates(),
{
    assert forall|j: int, k: int| 0 <= j < order.len() && 0 <= k < order.len() && j != k implies order[j]
        != order[k] by {
        if j < k {
            assert(comes_before(stamps, order[j] as int, order[k] as int));
        } else {
            assert(comes_before(stamps, order[k] as int, order[j] as int));
        }
    }
}

/// Whether `sep` occurs nowhere in `s`.
pub open spec fn free_of(s: Seq<char>, sep: char) -> bool {
    forall|i: int| 0 <= i < s.len() ==> #[trigger] s[i] != sep
}

/// The stem of a capture's file name: the name without its extension.
pub open spec fn file_stem_of(
    timestamp: u64,
    request: CaptureRequest,
    action_folder: Seq<char>,
) -> Seq<char> {
    "raw_"@ + decimal_text(timestamp as nat) + "_"@ + label_text(request.label) + "_folder_"@
        + action_folder + pointer_suffix(request.pointer)
}

proof fn lemma_pieces_shift(pre: Seq<char>, rest: Seq<char>, sep: char, start: int, i: int)
    requires
        0 <= start <= i <= rest.len(),
    ensures
        pieces_from(pre + rest, sep, pre.len() + start, pre.len() + i) == pieces_from(
            rest,
            sep,
            start,
            i,
        ),
    decreases rest.len() - i,
{
    let s = pre + rest;
    let n = pre.len() as int;
    assert(s.subrange(n + start, s.len() as int) =~= rest.subrange(start, rest.len() as int));
    if i < rest.len() {
        assert(s[n + i] == rest[i]);
        if rest[i] == sep {
            assert(s.subrange(n + start, n + i) =~= rest.subrange(start, i));
            lemma_pieces_shift(pre, rest, sep, i + 1, i + 1);
        } else {
            lemma_pieces_shift(pre, rest, sep, start, i + 1);
        }
    }
}

proof fn lemma_pieces_join(f: Seq<char>, r: Seq<char>, sep: char, start: int, i: int)
    requires
        0 <= start <= i <= f.len(),
    ensures
        pieces_from(f + seq![sep] + r, sep, start, i) == pieces_from(f, sep, start, i) + pieces(
            r,
            sep,
        ),
    decreases f.len() - i,
{
    let s = f + seq![sep] + r;
    if i < f.len() {
        assert(s[i] == f[i]);
        if f[i] == sep {
            assert(s.subrange(start, i) =~= f.subrange(start, i));
            lemma_pieces_join(f, r, sep, i + 1, i + 1);
            assert(seq![f.subrange(start, i)] + (pieces_from(f, sep, i + 1, i + 1) + pieces(r, sep))
                =~= (seq![f.subrange(start, i)] + pieces_from(f, sep, i + 1, i + 1)) + pieces(
                r,
                sep,
            ));
        } else {
            lemma_pieces_join(f, r, sep, start, i + 1);
        }
    } else {
        assert(s[i] == sep);
        assert(s.subrange(start, i) =~= f.subrange(start, f.len() as int));
        lemma_pieces_shift(f + seq![sep], r, sep, 0, 0);
        assert(pieces_from(f, sep, start, i) =~= seq![f.subrange(start, f.len() as int)]);
    }
}

/// Splitting a text that was joined with the separator gives the pieces of
/// both parts, in order.
pub proof fn lemma_pieces_of_joined(f: Seq<char>, r: Seq<char>, sep: char)
    ensures
        pieces(f + seq![sep] + r, sep) == pieces(f, sep) + pieces(r, sep),
{
    lemma_pieces_join(f, r, sep, 0, 0);
}

proof fn lemma_pieces_whole(a: Seq<char>, sep: char, i: int)
    requires
        free_of(a, sep),
        0 <= i <= a.len(),
    ensures
        pieces_from(a, sep, 0, i) == seq![a],
    decreases a.len() - i,
{
    if i < a.len() {
        lemma_pieces_whole(a, sep, i + 1);
    } else {
        assert(a.subrange(0, a.len() as int) =~= a);
    }
}

/// A text without the separator is one piece.
pub proof fn lemma_pieces_of_unbroken(a: Seq<char>, sep: char)
    requires
        free_of(a, sep),
    ensures
        pieces(a, sep) == seq![a],
{
    lemma_pieces_whole(a, sep, 0);
}

proof fn lemma_signed_text_is_unbroken(n: int)
    ensures
        free_of(signed_text(n), '_'),
        signed_text(n) != "mouse"@,
{
    reveal_strlit("-");
    reveal_strlit("mouse");
    if n < 0 {
        lemma_decimal_text_reads_back((-n) as nat);
        assert(signed_text(n)[0] == '-');
    } else {
        lemma_decimal_text_reads_back(n as nat);
        assert(is_digit(signed_text(n)[0]));
    }
}

proof fn lemma_label_text_is_unbroken(label: CaptureLabel)
    ensures
        free_of(label_text(label), '_'),
        label_text(label) != "mouse"@,
{
    reveal_strlit("mouse");
    reveal_strlit("Init");
    reveal_strlit("press");
    reveal_strlit("release");
    reveal_strlit("scroll");
    reveal_strlit("keypress");
    reveal_strlit("idle-detected");
    let s = label_text(label);
    assert(s.len() != 5 || s[0] != 'm');
}

proof fn lemma_piece_index_skips(parts: Seq<Seq<char>>, word: Seq<char>, i: int, k: int)
    requires
        0 <= i <= k <= parts.len(),
        forall|j: int| i <= j < k ==> #[trigger] parts[j] != word,
    ensures
        piece_index(parts, word, i) == piece_index(parts, word, k),
    decreases k - i,
{
    if i < k {
        lemma_piece_index_skips(parts, word, i + 1, k);
    }
}

/// The word `raw` that begins every capture's file name.
pub open spec fn raw_word() -> Seq<char> {
    seq!['r', 'a', 'w']
}

/// The word `folder` that stands before the action folder.
pub open spec fn folder_word() -> Seq<char> {
    seq!['f', 'o', 'l', 'd', 'e', 'r']
}

/// The word `mouse` that stands before the pointer's coordinates.
pub open spec fn mouse_word() -> Seq<char> {
    seq!['m', 'o', 'u', 's', 'e']
}

/// What follows the word `folder` in a stem, as text.
pub open spec fn stem_tail(request: CaptureRequest, action_folder: Seq<char>) -> Seq<char> {
    match request.pointer {
        Some(p) => action_folder + seq!['_'] + (mouse_word() + seq!['_'] + (signed_text(p.0 as int)
            + seq!['_'] + signed_text(p.1 as int))),
        None => action_folder,
    }
}

/// What follows the word `folder` in a stem, as pieces.
pub open spec fn stem_tail_pieces(request: CaptureRequest, action_folder: Seq<char>) -> Seq<
    Seq<char>,
> {
    match request.pointer {
        Some(p) => pieces(action_folder, '_') + seq![
            mouse_word(),
            signed_text(p.0 as int),
            signed_text(p.1 as int),
        ],
        None => pieces(action_folder, '_'),
    }
}

proof fn lemma_stem_spelled_out(timestamp: u64, request: CaptureRequest, action_folder: Seq<char>)
    ensures
        "mouse"@ == mouse_word(),
        file_stem_of(timestamp, request, action_folder) == raw_word() + seq!['_'] + (decimal_text(
            timestamp as nat,
        ) + seq!['_'] + (label_text(request.label) + seq!['_'] + (folder_word() + seq!['_']
            + stem_tail(request, action_folder)))),
        file_name_of(timestamp, request, action_folder) == file_stem_of(
            timestamp,
            request,
            action_folder,
        ) + ".png"@,
{
    reveal_strlit("raw_");
    reveal_strlit("_");
    reveal_strlit("_folder_");
    reveal_strlit("_mouse_");
    reveal_strlit("mouse");
    assert("mouse"@ =~= mouse_word());
    assert("raw_"@ =~= raw_word() + seq!['_']);
    assert("_"@ =~= seq!['_']);
    assert("_folder_"@ =~= seq!['_'] + folder_word() + seq!['_']);
    assert("_mouse_"@ =~= seq!['_'] + mouse_word() + seq!['_']);
    assert(pointer_suffix(request.pointer) =~= match request.pointer {
        Some(p) => seq!['_'] + (mouse_word() + seq!['_'] + (signed_text(p.0 as int) + seq!['_']
            + signed_text(p.1 as int))),
        None => Seq::<char>::empty(),
    });
    assert(action_folder + pointer_suffix(request.pointer) =~= stem_tail(request, action_folder));
    assert(file_stem_of(timestamp, request, action_folder) =~= raw_word() + seq!['_'] + (
    decimal_text(timestamp as nat) + seq!['_'] + (label_text(request.label) + seq!['_'] + (
    folder_word() + seq!['_'] + stem_tail(request, action_folder)))));
    assert(file_name_of(timestamp, request, action_folder) =~= file_stem_of(
        timestamp,
        request,
        action_folder,
    ) + ".png"@);
}

proof fn lemma_stem_tail_pieces(request: CaptureRequest, action_folder: Seq<char>)
    ensures
        pieces(stem_tail(request, action_folder), '_') == stem_tail_pieces(request, action_folder),
{
    match request.pointer {
        Some(p) => {
            let x = signed_text(p.0 as int);
            let y = signed_text(p.1 as int);
            lemma_signed_text_is_unbroken(p.0 as int);
            lemma_signed_text_is_unbroken(p.1 as int);
            lemma_pieces_of_unbroken(x, '_');
            lemma_pieces_of_unbroken(y, '_');
            lemma_pieces_of_unbroken(mouse_word(), '_');
            lemma_pieces_of_joined(x, y, '_');
            lemma_pieces_of_joined(mouse_word(), x + seq!['_'] + y, '_');
            lemma_pieces_of_joined(action_folder, mouse_word() + seq!['_'] + (x + seq!['_'] + y), '_');
            assert(pieces(stem_tail(request, action_folder), '_') =~= stem_tail_pieces(
                request,
                action_folder,
            ));
        },
        None => {},
    }
}

proof fn lemma_stem_pieces(timestamp: u64, request: CaptureRequest, action_folder: Seq<char>)
    ensures
        pieces(file_stem_of(timestamp, request, action_folder), '_') == seq![
            raw_word(),
            decimal_text(timestamp as nat),
            label_text(request.label),
            folder_word(),
        ] + stem_tail_pieces(request, action_folder),
{
    let ts = decimal_text(timestamp as nat);
    let label = label_text(request.label);
    let tail = stem_tail(request, action_folder);
    lemma_stem_spelled_out(timestamp, request, action_folder);
    lemma_stem_tail_pieces(request, action_folder);
    lemma_decimal_text_reads_back(timestamp as nat);
    lemma_label_text_is_unbroken(request.label);
    lemma_pieces_of_unbroken(raw_word(), '_');
    lemma_pieces_of_unbroken(ts, '_');
    lemma_pieces_of_unbroken(label, '_');
    lemma_pieces_of_unbroken(folder_word(), '_');
    let rest3 = folder_word() + seq!['_'] + tail;
    let rest2 = label + seq!['_'] + rest3;
    let rest1 = ts + seq!['_'] + rest2;
    lemma_pieces_of_joined(folder_word(), tail, '_');
    lemma_pieces_of_joined(label, rest3, '_');
    lemma_pieces_of_joined(ts, rest2, '_');
    lemma_pieces_of_joined(raw_word(), rest1, '_');
    assert(pieces(raw_word() + seq!['_'] + rest1, '_') =~= seq![raw_word(), ts, label, folder_word()]
        + stem_tail_pieces(request, action_folder));
}

/// What is written into the name of a capture's file is read back from it:
/// the action is the label's word, and the coordinates are those of the
/// pointer, `0` and `0` when there was none. This holds for an action folder
/// none of whose pieces is the word `mouse`.
pub proof fn lemma_file_name_is_read_back(
    timestamp: u64,
    request: CaptureRequest,
    action_folder: Seq<char>,
)
    requires
        forall|j: int|
            0 <= j < pieces(action_folder, '_').len() ==> #[trigger] pieces(action_folder, '_')[j]
                != mouse_word(),
    ensures
        file_name_of(timestamp, request, action_folder) == file_stem_of(
            timestamp,
            request,
            action_folder,
        ) + ".png"@,
        details_of(file_stem_of(timestamp, request, action_folder)) == match request.pointer {
            Some(p) => DetailsModel {
                action: label_text(request.label),
                mouse_x: signed_text(p.0 as int),
                mouse_y: signed_text(p.1 as int),
            },
            None => DetailsModel {
                action: label_text(request.label),
                mouse_x: "0"@,
                mouse_y: "0"@,
            },
        },
{
    let stem = file_stem_of(timestamp, request, action_folder);
    let parts = pieces(stem, '_');
    let ts = decimal_text(timestamp as nat);
    let folder_parts = pieces(action_folder, '_');
    let k: int = 4 + folder_parts.len() as int;
    lemma_stem_spelled_out(timestamp, request, action_folder);
    lemma_stem_pieces(timestamp, request, action_folder);
    lemma_decimal_text_reads_back(timestamp as nat);
    lemma_label_text_is_unbroken(request.label);
    assert(parts[0] == raw_word() && parts[1] == ts && parts[2] == label_text(request.label)
        && parts[3] == folder_word());
    assert(raw_word() != mouse_word()) by {
        assert(raw_word().len() != mouse_word().len());
    }
    assert(ts != mouse_word()) by {
        assert(is_digit(ts[0]));
    }
    assert(folder_word() != mouse_word()) by {
        assert(folder_word().len() != mouse_word().len());
    }
    assert forall|j: int| 0 <= j < k implies #[trigger] parts[j] != mouse_word() by {
        if j >= 4 {
            assert(parts[j] == folder_parts[j - 4]);
        }
    }
    lemma_piece_index_skips(parts, mouse_word(), 0, k);
    match request.pointer {
        Some(p) => {
            assert(parts[k] == mouse_word());
            assert(parts[k + 1] == signed_text(p.0 as int));
            assert(parts[k + 2] == signed_text(p.1 as int));
            assert(parts.len() == k + 3);
        },
        None => {
            assert(parts.len() == k);
        },
    }
}

} // verus!
