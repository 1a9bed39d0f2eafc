//! The history index: a list of records that map a query to the folder of a
//! recorded action. Generated queries are numbered, chosen ones replace
//! them, and the words of an instruction select the folders that go with it.

use crate::text::{
    begins_with, chars_of, contains_text, decimal_text, find, i32_value, is_digit, is_space,
    is_whitespace, lemma_decimal_text_reads_back, lowercase, parse_i32, push_decimal, push_text,
    same_chars, slice_of, string_of, texts_view, unicode_lowercase,
};
use vstd::prelude::*;

verus! {

/// One record of the index.
#[derive(Clone, Debug, PartialEq, Eq)]
pub struct HistoryRecord {
    pub query: String,
    pub location: String,
}

/// The mathematical value of a [`HistoryRecord`].
pub ghost struct RecordModel {
    pub query: Seq<char>,
    pub location: Seq<char>,
}

impl View for HistoryRecord {
    type V = RecordModel;

    open spec fn view(&self) -> RecordModel {
        RecordModel { query: self.query@, location: self.location@ }
    }
}

/// The values of a list of records.
pub open spec fn records_view(records: Seq<HistoryRecord>) -> Seq<RecordModel> {
    Seq::new(records.len(), |i: int| records[i]@)
}

/// The prefix of a generated query.
pub open spec fn generated_prefix() -> Seq<char> {
    "default_"@
}

/// `s` without any leading repetitions of `p`.
pub open spec fn prefix_stripped(s: Seq<char>, p: Seq<char>) -> Seq<char>
    decreases s.len(),
{
    if p.len() > 0 && p.is_prefix_of(s) {
        prefix_stripped(s.subrange(p.len() as int, s.len() as int), p)
    } else {
        s
    }
}

/// The number of a generated query: what follows its prefix, read as a
/// decimal `i32`. Other queries have none.
pub open spec fn default_index(query: Seq<char>) -> Option<i32> {
    if generated_prefix().is_prefix_of(query) {
        i32_value(prefix_stripped(query, generated_prefix()))
    } else {
        None
    }
}

/// The highest number among the generated queries of `queries`, and -1 when
/// there is none at or above 0.
pub open spec fn highest_default_index(queries: Seq<Seq<char>>) -> int
    decreases queries.len(),
{
    if queries.len() == 0 {
        -1
    } else {
        let rest = highest_default_index(queries.drop_last());
        match default_index(queries.last()) {
            Some(i) => if i > rest {
                i as int
            } else {
                rest
            },
            None => rest,
        }
    }
}

fn strip_prefix_all(s: Vec<char>, p: &Vec<char>) -> (r: Vec<char>)
    ensures
        r@ == prefix_stripped(s@, p@),
{
    let mut cur = s;
    while p.len() > 0 && begins_with(&cur, p)
        invariant
            prefix_stripped(s@, p@) == prefix_stripped(cur@, p@),
        decreases cur.len(),
    {
        cur = slice_of(&cur, p.len(), cur.len());
    }
    cur
}

/// The number of a generated query, if `query` is one.
pub fn parse_default_index(query: &str) -> (r: Option<i32>)
    ensures
        r == default_index(query@),
{
    let text = chars_of(query);
    let prefix = chars_of("default_");
    if !begins_with(&text, &prefix) {
        return None;
    }
    let rest = strip_prefix_all(text, &prefix);
    parse_i32(&rest)
}

/// The number for the next generated query: one more than the highest in
/// use, and 0 when none is in use.
pub fn next_default_index(queries: &Vec<String>) -> (r: i64)
    ensures
        r == highest_default_index(queries.deep_view()) + 1,
        0 <= r <= i32::MAX + 1,
{
    let mut highest: i64 = -1;
    let mut i: usize = 0;
    assert(queries.deep_view().take(0) =~= Seq::<Seq<char>>::empty());
    while i < queries.len()
        invariant
            i <= queries.len(),
            highest == highest_default_index(queries.deep_view().take(i as int)),
            -1 <= highest <= i32::MAX,
        decreases queries.len() - i,
    {
        proof {
            let all = queries.deep_view();
            assert(all.len() == queries.len());
            assert(all.take(i + 1).drop_last() =~= all.take(i as int));
            assert(all.take(i + 1).last() == queries@[i as int].deep_view());
        }
        match parse_default_index(queries[i].as_str()) {
            Some(n) => {
                if (n as i64) > highest {
                    highest = n as i64;
                }
            },
            None => {},
        }
        i += 1;
    }
    assert(queries.deep_view().take(queries.len() as int) =~= queries.deep_view());
    highest + 1
}

/// The generated query with the number `n`.
pub open spec fn generated_query(n: nat) -> Seq<char> {
    generated_prefix() + decimal_text(n)
}

/// The query for the next recording: the generated query whose number is
/// one more than the highest in use.
pub fn next_default_query(queries: &Vec<String>) -> (r: String)
    ensures
        r@ == generated_query((highest_default_index(queries.deep_view()) + 1) as nat),
{
    let index = next_default_index(queries);
    let mut out: Vec<char> = Vec::new();
    push_text("default_", &mut out);
    push_decimal(index as u64, &mut out);
    let r = string_of(&out, 0, out.len());
    assert(r@ =~= out@);
    r
}

/// A generated query carries its number: reading the query of number `n`
/// gives `n` back.
pub proof fn lemma_generated_query_carries_its_number(n: nat)
    requires
        n <= i32::MAX,
    ensures
        default_index(generated_query(n)) == Some(n as i32),
{
    reveal_strlit("default_");
    lemma_decimal_text_reads_back(n);
    let p = generated_prefix();
    let digits = decimal_text(n);
    let q = generated_query(n);
    assert(q.subrange(0, p.len() as int) =~= p);
    assert(q.subrange(p.len() as int, q.len() as int) =~= digits);
    assert(is_digit(digits[0]));
    assert(!p.is_prefix_of(digits)) by {
        if p.is_prefix_of(digits) {
            assert(digits.subrange(0, p.len() as int)[0] == p[0]);
        }
    }
    assert(prefix_stripped(digits, p) == digits);
    assert(prefix_stripped(q, p) == digits);
    assert(digits.subrange(0, digits.len() as int) =~= digits);
}

/// The highest number in use is at least -1, so that the next is at least 0.
pub proof fn lemma_highest_is_bounded_below(queries: Seq<Seq<char>>)
    ensures
        -1 <= highest_default_index(queries),
    decreases queries.len(),
{
    if queries.len() > 0 {
        lemma_highest_is_bounded_below(queries.drop_last());
    }
}

/// No query in use has a number above the highest.
pub proof fn lemma_highest_bounds_every_index(queries: Seq<Seq<char>>, i: int)
    requires
        0 <= i < queries.len(),
    ensures
        default_index(queries[i]) matches Some(n) ==> n <= highest_default_index(queries),
    decreases queries.len(),
{
    if i < queries.len() - 1 {
        lemma_highest_bounds_every_index(queries.drop_last(), i);
        assert(queries.drop_last()[i] == queries[i]);
    }
}

/// The next generated query is new: no query in use equals it.
pub proof fn lemma_next_query_is_new(queries: Seq<Seq<char>>, i: int)
    requires
        0 <= i < queries.len(),
        highest_default_index(queries) < i32::MAX,
    ensures
        queries[i] != generated_query((highest_default_index(queries) + 1) as nat),
{
    lemma_highest_is_bounded_below(queries);
    lemma_highest_bounds_every_index(queries, i);
    lemma_generated_query_carries_its_number((highest_default_index(queries) + 1) as nat);
}

/// The records after the action in `folder` was given the query `name`:
/// every record of that folder carries the new query, the others are kept.
pub open spec fn renamed(records: Seq<RecordModel>, folder: Seq<char>, name: Seq<char>) -> Seq<
    RecordModel,
> {
    Seq::new(
        records.len(),
        |i: int|
            if records[i].location == folder {
                RecordModel { query: name, location: records[i].location }
            } else {
                records[i]
            },
    )
}

/// Whether some record points to `folder`.
pub open spec fn has_location(records: Seq<RecordModel>, folder: Seq<char>) -> bool {
    exists|i: int| 0 <= i < records.len() && (#[trigger] records[i]).location == folder
}

/// Gives the action in `folder` the query `new_name`. Returns the new list
/// of records, or `None` when no record points to `folder` and the index is
/// to stay as it is.
pub fn rename_entry(records: &Vec<HistoryRecord>, folder: &str, new_name: &str) -> (r: Option<
    Vec<HistoryRecord>,
>)
    ensures
        match r {
            Some(updated) => has_location(records_view(records@), folder@) && records_view(
                updated@,
            ) == renamed(records_view(records@), folder@, new_name@),
            None => !has_location(records_view(records@), folder@),
        },
{
    let target = chars_of(folder);
    let mut out: Vec<HistoryRecord> = Vec::new();
    let mut found: bool = false;
    let mut i: usize = 0;
    while i < records.len()
        invariant
            i <= records.len(),
            target@ == folder@,
            out@.len() == i,
            forall|j: int|
                0 <= j < i ==> (#[trigger] out@[j])@ == renamed(
                    records_view(records@),
                    folder@,
                    new_name@,
                )[j],
            found == has_location(records_view(records@).take(i as int), folder@),
        decreases records.len() - i,
    {
        let record = &records[i];
        let here = same_chars(&chars_of(record.location.as_str()), &target);
        proof {
            let all = records_view(records@);
            let before = all.take(i as int);
            let after = all.take(i + 1);
            assert(after[i as int] == record@);
            if here {
                assert(after[i as int].location == folder@);
            }
            if has_location(before, folder@) {
                let k = choose|k: int| 0 <= k < before.len() && (#[trigger] before[k]).location == folder@;
                assert(after[k] == before[k]);
            }
            if has_location(after, folder@) && !here {
                let k = choose|k: int| 0 <= k < after.len() && (#[trigger] after[k]).location == folder@;
                assert(before[k] == after[k]);
            }
        }
        if here {
            found = true;
            out.push(HistoryRecord { query: new_name.to_owned(), location: record.location.clone() });
        } else {
            out.push(HistoryRecord { query: record.query.clone(), location: record.location.clone() });
        }
        i += 1;
    }
    assert(records_view(records@).take(records.len() as int) =~= records_view(records@));
    if found {
        assert(records_view(out@) =~= renamed(records_view(records@), folder@, new_name@));
        Some(out)
    } else {
        None
    }
}

/// Renaming changes no folder and keeps the number of records, and renaming
/// again with the same name changes nothing more.
pub proof fn lemma_rename_keeps_locations(
    records: Seq<RecordModel>,
    folder: Seq<char>,
    name: Seq<char>,
)
    ensures
        renamed(records, folder, name).len() == records.len(),
        forall|i: int|
            0 <= i < records.len() ==> (#[trigger] renamed(records, folder, name)[i]).location
                == records[i].location,
        renamed(renamed(records, folder, name), folder, name) == renamed(records, folder, name),
{
    assert(renamed(renamed(records, folder, name), folder, name) =~= renamed(
        records,
        folder,
        name,
    ));
}

/// The words of `s` from index `i` on, where `s[start..i]` is the part of the
/// current word read so far. A word is a longest run of characters that are
/// not white space.
pub open spec fn words_from(s: Seq<char>, start: int, i: int) -> Seq<Seq<char>>
    decreases s.len() - i,
{
    let pending = if 0 <= start < i <= s.len() {
        seq![s.subrange(start, i)]
    } else {
        Seq::empty()
    };
    if i < 0 || i >= s.len() {
        pending
    } else if is_space(s[i]) {
        pending + words_from(s, i + 1, i + 1)
    } else {
        words_from(s, start, i + 1)
    }
}

/// The words of `s`, in order.
pub open spec fn words_of(s: Seq<char>) -> Seq<Seq<char>> {
    words_from(s, 0, 0)
}

/// Splits `text` at white space.
pub fn split_words(text: &Vec<char>) -> (r: Vec<Vec<char>>)
    ensures
        texts_view(r@) == words_of(text@),
{
    let mut out: Vec<Vec<char>> = Vec::new();
    let mut start: usize = 0;
    let mut i: usize = 0;
    assert(texts_view(out@) + words_from(text@, 0, 0) =~= words_of(text@));
    while i < text.len()
        invariant
            start <= i <= text.len(),
            words_of(text@) == texts_view(out@) + words_from(text@, start as int, i as int),
        decreases text.len() - i,
    {
        let ghost before = texts_view(out@);
        if is_whitespace(text[i]) {
            if start < i {
                let word = slice_of(text, start, i);
                out.push(word);
                assert(texts_view(out@) =~= before + seq![text@.subrange(start as int, i as int)]);
            }
            assert(texts_view(out@) + words_from(text@, i + 1, i + 1) =~= before + words_from(
                text@,
                start as int,
                i as int,
            ));
            start = i + 1;
        }
        i += 1;
    }
    let ghost before = texts_view(out@);
    if start < i {
        let word = slice_of(text, start, i);
        out.push(word);
        assert(texts_view(out@) =~= before + seq![text@.subrange(start as int, i as int)]);
    }
    assert(texts_view(out@) =~= before + words_from(text@, start as int, i as int));
    out
}

/// Whether some word of `words` occurs in `query`, both taken in lower case.
pub open spec fn any_word_in(words: Seq<Seq<char>>, query: Seq<char>) -> bool {
    exists|k: int|
        0 <= k < words.len() && contains_text(
            unicode_lowercase(query),
            unicode_lowercase(#[trigger] words[k]),
        )
}

/// Whether a stored query goes with an instruction: at least one word of the
/// instruction occurs in the query, without regard to case.
pub open spec fn overlaps(instruction: Seq<char>, query: Seq<char>) -> bool {
    any_word_in(words_of(instruction), query)
}

/// The folders of the records whose query goes with `instruction`, in the
/// order of the records, each folder once.
pub open spec fn matching(records: Seq<RecordModel>, instruction: Seq<char>) -> Seq<Seq<char>>
    decreases records.len(),
{
    if records.len() == 0 {
        Seq::empty()
    } else {
        let rest = matching(records.drop_last(), instruction);
        let record = records.last();
        if overlaps(instruction, record.query) && !rest.contains(record.location) {
            rest.push(record.location)
        } else {
            rest
        }
    }
}

fn lowered_words(words: &Vec<Vec<char>>) -> (r: Vec<Vec<char>>)
    ensures
        r@.len() == words@.len(),
        forall|k: int| 0 <= k < words@.len() ==> (#[trigger] r@[k])@ == unicode_lowercase(words@[k]@),
{
    let mut out: Vec<Vec<char>> = Vec::new();
    let mut k: usize = 0;
    while k < words.len()
        invariant
            k <= words.len(),
            out@.len() == k,
            forall|j: int| 0 <= j < k ==> (#[trigger] out@[j])@ == unicode_lowercase(words@[j]@),
        decreases words.len() - k,
    {
        let word = string_of(&words[k], 0, words[k].len());
        assert(word@ =~= words@[k as int]@);
        out.push(chars_of(lowercase(word.as_str()).as_str()));
        k += 1;
    }
    out
}

fn query_has_word(query: &str, words: &Vec<Vec<char>>, lower: &Vec<Vec<char>>) -> (r: bool)
    requires
        lower@.len() == words@.len(),
        forall|k: int| 0 <= k < words@.len() ==> (#[trigger] lower@[k])@ == unicode_lowercase(words@[k]@),
    ensures
        r == any_word_in(texts_view(words@), query@),
{
    let text = chars_of(lowercase(query).as_str());
    let mut k: usize = 0;
    while k < lower.len()
        invariant
            k <= lower.len(),
            lower@.len() == words@.len(),
            text@ == unicode_lowercase(query@),
            forall|j: int| 0 <= j < words@.len() ==> (#[trigger] lower@[j])@ == unicode_lowercase(words@[j]@),
            forall|j: int|
                0 <= j < k ==> !contains_text(
                    unicode_lowercase(query@),
                    unicode_lowercase(#[trigger] texts_view(words@)[j]),
                ),
        decreases lower.len() - k,
    {
        assert(texts_view(words@)[k as int] == words@[k as int]@);
        if find(&text, &lower[k]).is_some() {
            return true;
        }
        k += 1;
    }
    false
}

fn holds_text(list: &Vec<String>, item: &Vec<char>) -> (r: bool)
    ensures
        r == list.deep_view().contains(item@),
{
    let mut j: usize = 0;
    while j < list.len()
        invariant
            j <= list.len(),
            forall|k: int| 0 <= k < j ==> list.deep_view()[k] != item@,
        decreases list.len() - j,
    {
        assert(list.deep_view()[j as int] == list@[j as int]@);
        if same_chars(&chars_of(list[j].as_str()), item) {
            return true;
        }
        j += 1;
    }
    false
}

/// Selects the folders whose stored query shares a word with `instruction`.
pub fn matching_locations(instruction: &str, records: &Vec<HistoryRecord>) -> (r: Vec<String>)
    ensures
        r.deep_view() == matching(records_view(records@), instruction@),
{
    let words = split_words(&chars_of(instruction));
    let lower = lowered_words(&words);
    let mut out: Vec<String> = Vec::new();
    let mut i: usize = 0;
    assert(records_view(records@).take(0) =~= Seq::<RecordModel>::empty());
    assert(out.deep_view() =~= Seq::<Seq<char>>::empty());
    while i < records.len()
        invariant
            i <= records.len(),
            texts_view(words@) == words_of(instruction@),
            lower@.len() == words@.len(),
            forall|k: int| 0 <= k < words@.len() ==> (#[trigger] lower@[k])@ == unicode_lowercase(words@[k]@),
            out.deep_view() == matching(records_view(records@).take(i as int), instruction@),
        decreases records.len() - i,
    {
        let record = &records[i];
        proof {
            let all = records_view(records@);
            assert(all.take(i + 1).drop_last() =~= all.take(i as int));
            assert(all.take(i + 1).last() == record@);
        }
        if query_has_word(record.query.as_str(), &words, &lower) {
            let location = chars_of(record.location.as_str());
            if !holds_text(&out, &location) {
                let ghost before = out.deep_view();
                out.push(record.location.clone());
                assert(out.deep_view() =~= before.push(record.location@));
            }
        }
        i += 1;
    }
    assert(records_view(records@).take(records.len() as int) =~= records_view(records@));
    out
}

/// No folder is selected twice, and every selected folder belongs to a
/// record whose query goes with the instruction.
pub proof fn lemma_matching_is_a_selection(records: Seq<RecordModel>, instruction: Seq<char>)
    ensures
        matching(records, instruction).no_duplicates(),
        forall|j: int|
            0 <= j < matching(records, instruction).len() ==> exists|i: int|
                0 <= i < records.len() && overlaps(instruction, (#[trigger] records[i]).query)
                    && records[i].location == #[trigger] matching(records, instruction)[j],
    decreases records.len(),
{
    if records.len() > 0 {
        let front = records.drop_last();
        lemma_matching_is_a_selection(front, instruction);
        let rest = matching(front, instruction);
        let all = matching(records, instruction);
        assert forall|j: int| 0 <= j < all.len() implies exists|i: int|
            0 <= i < records.len() && overlaps(instruction, (#[trigger] records[i]).query)
                && records[i].location == #[trigger] all[j] by {
            if j < rest.len() {
                let i = choose|i: int|
                    0 <= i < front.len() && overlaps(instruction, (#[trigger] front[i]).query)
                        && front[i].location == rest[j];
                assert(records[i] == front[i]);
            } else {
                assert(records[records.len() - 1] == records.last());
            }
        }
    }
}

} // verus!
