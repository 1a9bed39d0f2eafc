//! The bookkeeping of skills: which skills a bundle adds or takes away,
//! which bundles a search finds, and how far learning has come. Skills and
//! bundles are known here by their ids, names and tags.

use crate::text::{chars_of, contains_text, find, lowercase, same_chars, unicode_lowercase};
use vstd::prelude::*;

verus! {

/// How far the learning of one skill has come, in percent.
#[derive(Debug, Clone, PartialEq, Eq)]
pub struct SkillLearningProgress {
    pub skill_id: String,
    pub progress: u32,
    pub status: String,
    pub last_updated: u64,
}

/// The full progress.
pub const FULL_PROGRESS: u32 = 100;

/// What one processed video adds to the progress.
pub const PROGRESS_STEP: u32 = 10;

/// The progress after one more step: ten more, and never above a hundred.
pub open spec fn advanced(progress: u32) -> u32 {
    if progress + PROGRESS_STEP >= FULL_PROGRESS {
        FULL_PROGRESS
    } else {
        (progress + PROGRESS_STEP) as u32
    }
}

impl SkillLearningProgress {
    /// Counts one processed video, seen at `now_ms`.
    pub fn advance(&mut self, now_ms: u64)
        ensures
            final(self).progress == advanced(old(self).progress),
            final(self).last_updated == now_ms,
            final(self).skill_id == old(self).skill_id,
            final(self).status == old(self).status,
    {
        if self.progress >= FULL_PROGRESS - PROGRESS_STEP {
            self.progress = FULL_PROGRESS;
        } else {
            self.progress = self.progress + PROGRESS_STEP;
        }
        self.last_updated = now_ms;
    }
}

/// Progress never passes a hundred, and never falls while it is below.
pub proof fn lemma_progress_is_capped(progress: u32)
    ensures
        advanced(progress) <= FULL_PROGRESS,
        progress <= FULL_PROGRESS ==> progress <= advanced(progress),
        advanced(FULL_PROGRESS) == FULL_PROGRESS,
{
}

/// Whether `id` is among `ids`.
pub fn contains_id(ids: &Vec<String>, id: &str) -> (r: bool)
    ensures
        r == ids.deep_view().contains(id@),
{
    let wanted = chars_of(id);
    let mut j: usize = 0;
    while j < ids.len()
        invariant
            j <= ids.len(),
            wanted@ == id@,
            forall|k: int| 0 <= k < j ==> ids.deep_view()[k] != id@,
        decreases ids.len() - j,
    {
        assert(ids.deep_view()[j as int] == ids@[j as int]@);
        if same_chars(&chars_of(ids[j].as_str()), &wanted) {
            return true;
        }
        j += 1;
    }
    false
}

/// For every item, whether it is among `set`.
pub fn membership(items: &Vec<String>, set: &Vec<String>) -> (r: Vec<bool>)
    ensures
        r@.len() == items@.len(),
        forall|i: int|
            0 <= i < items@.len() ==> #[trigger] r@[i] == set.deep_view().contains(items@[i]@),
{
    let mut out: Vec<bool> = Vec::new();
    let mut i: usize = 0;
    while i < items.len()
        invariant
            i <= items.len(),
            out@.len() == i,
            forall|k: int| 0 <= k < i ==> #[trigger] out@[k] == set.deep_view().contains(items@[k]@),
        decreases items.len() - i,
    {
        out.push(contains_id(set, items[i].as_str()));
        i += 1;
    }
    out
}

/// Whether the skill at position `i` of a bundle is added when the bundle
/// is installed: its id is not installed yet and stands nowhere earlier in
/// the bundle.
pub open spec fn is_added(installed: Seq<Seq<char>>, bundle: Seq<Seq<char>>, i: int) -> bool {
    &&& 0 <= i < bundle.len()
    &&& !installed.contains(bundle[i])
    &&& forall|j: int| 0 <= j < i ==> bundle[j] != bundle[i]
}

/// The positions of the skills that installing a bundle adds, in the
/// bundle's order.
pub fn skills_to_install(installed: &Vec<String>, bundle: &Vec<String>) -> (r: Vec<usize>)
    ensures
        forall|a: int, b: int| 0 <= a < b < r@.len() ==> r@[a] < r@[b],
        forall|k: int|
            0 <= k < r@.len() ==> is_added(
                installed.deep_view(),
                bundle.deep_view(),
                (#[trigger] r@[k]) as int,
            ),
        forall|i: int|
            is_added(installed.deep_view(), bundle.deep_view(), i) ==> r@.contains(i as usize),
{
    let mut out: Vec<usize> = Vec::new();
    let mut i: usize = 0;
    while i < bundle.len()
        invariant
            i <= bundle.len(),
            bundle.deep_view().len() == bundle@.len(),
            forall|k: int| 0 <= k < out@.len() ==> (#[trigger] out@[k]) < i,
            forall|a: int, b: int| 0 <= a < b < out@.len() ==> out@[a] < out@[b],
            forall|k: int|
                0 <= k < out@.len() ==> is_added(
                    installed.deep_view(),
                    bundle.deep_view(),
                    (#[trigger] out@[k]) as int,
                ),
            forall|j: int|
                0 <= j < i && is_added(installed.deep_view(), bundle.deep_view(), j)
                    ==> out@.contains(j as usize),
        decreases bundle.len() - i,
    {
        let id = bundle[i].as_str();
        assert(bundle.deep_view()[i as int] == id@);
        let mut seen: bool = contains_id(installed, id);
        let mut j: usize = 0;
        let wanted = chars_of(id);
        while j < i && !seen
            invariant
                j <= i < bundle.len(),
                wanted@ == id@,
                bundle.deep_view()[i as int] == id@,
                bundle.deep_view().len() == bundle@.len(),
                !seen ==> !installed.deep_view().contains(id@),
                !seen ==> forall|k: int| 0 <= k < j ==> bundle.deep_view()[k] != id@,
                seen ==> !is_added(installed.deep_view(), bundle.deep_view(), i as int),
            decreases i - j + if seen { 0int } else { 1int },
        {
            assert(bundle.deep_view()[j as int] == bundle@[j as int]@);
            if same_chars(&chars_of(bundle[j].as_str()), &wanted) {
                seen = true;
            } else {
                j += 1;
            }
        }
        let ghost before = out@;
        if !seen {
            out.push(i);
            assert(forall|k: int| 0 <= k < before.len() ==> out@[k] == before[k]);
            assert(out@[before.len() as int] == i);
        }
        assert forall|j: int|
            0 <= j < i + 1 && is_added(installed.deep_view(), bundle.deep_view(), j) implies out@.contains(
            j as usize,
        ) by {
            if j < i {
                assert(before.contains(j as usize));
                let k = choose|k: int| 0 <= k < before.len() && before[k] == j as usize;
                assert(out@[k] == j as usize);
            } else {
                assert(out@[before.len() as int] == i);
            }
        }
        i += 1;
    }
    out
}

/// The window of a page of `limit` items in a list of `len` items, as the
/// positions from the first to just before the second. Pages count from 1.
pub open spec fn page_bounds(page: u32, limit: u32, len: usize) -> (usize, usize) {
    let start = (page - 1) * limit;
    let end = page * limit;
    (
        if start < len {
            start as usize
        } else {
            len
        },
        if end < len {
            end as usize
        } else {
            len
        },
    )
}

/// The window of page `page`.
pub fn page_window(page: u32, limit: u32, len: usize) -> (r: (usize, usize))
    requires
        page >= 1,
        page * limit <= u32::MAX,
    ensures
        r == page_bounds(page, limit, len),
        r.0 <= r.1 <= len,
{
    assert((page - 1) * limit <= page * limit) by (nonlinear_arith)
        requires
            page >= 1,
    ;
    let start: u32 = (page - 1) * limit;
    let end: u32 = page * limit;
    let lo: usize = if (start as u64) < (len as u64) {
        start as usize
    } else {
        len
    };
    let hi: usize = if (end as u64) < (len as u64) {
        end as usize
    } else {
        len
    };
    (lo, hi)
}

/// Whether `needle`, already in lower case, occurs in `text` taken in lower
/// case.
pub open spec fn mentions(text: Seq<char>, needle: Seq<char>) -> bool {
    contains_text(unicode_lowercase(text), needle)
}

/// Whether one of `tags` mentions the lower-case form of one of `filters`.
pub open spec fn tags_match(tags: Seq<Seq<char>>, filters: Seq<Seq<char>>) -> bool {
    exists|f: int, t: int|
        0 <= f < filters.len() && 0 <= t < tags.len() && mentions(
            #[trigger] tags[t],
            unicode_lowercase(#[trigger] filters[f]),
        )
}

/// Whether a search finds a bundle: the query, without regard to case,
/// occurs in its name or its description, and, where tags are asked for,
/// one of them occurs in one of the bundle's tags.
pub open spec fn bundle_found(
    name: Seq<char>,
    description: Seq<char>,
    tags: Seq<Seq<char>>,
    query: Seq<char>,
    filters: Option<Seq<Seq<char>>>,
) -> bool {
    (mentions(name, unicode_lowercase(query)) || mentions(description, unicode_lowercase(query)))
        && match filters {
        Some(wanted) => tags_match(tags, wanted),
        None => true,
    }
}

fn text_mentions(text: &str, needle: &Vec<char>) -> (r: bool)
    ensures
        r == mentions(text@, needle@),
{
    let lowered = chars_of(lowercase(text).as_str());
    find(&lowered, needle).is_some()
}

fn any_tag_mentions(tags: &Vec<String>, needle: &Vec<char>) -> (r: bool)
    ensures
        r == exists|t: int| 0 <= t < tags@.len() && mentions(#[trigger] tags.deep_view()[t], needle@),
{
    let mut t: usize = 0;
    while t < tags.len()
        invariant
            t <= tags.len(),
            tags.deep_view().len() == tags@.len(),
            forall|k: int| 0 <= k < t ==> !mentions(#[trigger] tags.deep_view()[k], needle@),
        decreases tags.len() - t,
    {
        assert(tags.deep_view()[t as int] == tags@[t as int]@);
        if text_mentions(tags[t].as_str(), needle) {
            return true;
        }
        t += 1;
    }
    false
}

/// The view of an optional list of texts.
pub open spec fn filters_view(filters: Option<&Vec<String>>) -> Option<Seq<Seq<char>>> {
    match filters {
        Some(list) => Some(list.deep_view()),
        None => None,
    }
}

/// Decides whether a search for `query`, narrowed to `filters`, finds the
/// bundle with this name, description and tags.
pub fn bundle_matches(
    name: &str,
    description: &str,
    tags: &Vec<String>,
    query: &str,
    filters: Option<&Vec<String>>,
) -> (r: bool)
    ensures
        r == bundle_found(name@, description@, tags.deep_view(), query@, filters_view(filters)),
{
    let needle = chars_of(lowercase(query).as_str());
    if !(text_mentions(name, &needle) || text_mentions(description, &needle)) {
        return false;
    }
    match filters {
        None => true,
        Some(wanted) => {
            let mut f: usize = 0;
            while f < wanted.len()
                invariant
                    f <= wanted.len(),
                    needle@ == unicode_lowercase(query@),
                    mentions(name@, needle@) || mentions(description@, needle@),
                    filters_view(filters) == Some(wanted.deep_view()),
                    wanted.deep_view().len() == wanted@.len(),
                    tags.deep_view().len() == tags@.len(),
                    forall|k: int, t: int|
                        0 <= k < f && 0 <= t < tags@.len() ==> !mentions(
                            #[trigger] tags.deep_view()[t],
                            unicode_lowercase(#[trigger] wanted.deep_view()[k]),
                        ),
                decreases wanted.len() - f,
            {
                assert(wanted.deep_view()[f as int] == wanted@[f as int]@);
                let tag = chars_of(lowercase(wanted[f].as_str()).as_str());
                if any_tag_mentions(tags, &tag) {
                    proof {
                        let t = choose|t: int|
                            0 <= t < tags@.len() && mentions(#[trigger] tags.deep_view()[t], tag@);
                        assert(mentions(
                            tags.deep_view()[t],
                            unicode_lowercase(wanted.deep_view()[f as int]),
                        ));
                        assert(tags_match(tags.deep_view(), wanted.deep_view()));
                    }
                    return true;
                }
                f += 1;
            }
            false
        },
    }
}

} // verus!
