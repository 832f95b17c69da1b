//! Bookkeeping for concurrent batch downloads.
//!
//! A batch downloads one result per descriptor under a concurrency limit:
//! at no point are more than `limit` items in flight, every item runs to a
//! terminal outcome, and the batch always yields exactly one result pair
//! per input, matched to its descriptor by position and never by
//! completion order.  The driver asks `next_to_start` for work while the
//! limit has room, records each outcome with `complete`, and reads the
//! batch out with `into_results` once everything finished.

use crate::descriptor::MrfFileInfo;
use crate::errors::{SourceError, SourceResult};
use crate::file_type::{file_type_label, MrfFileType};
use vstd::prelude::*;

verus! {

/// How many slots hold a recorded outcome.
pub open spec fn num_done<T>(s: Seq<Option<SourceResult<T>>>) -> int
    decreases s.len(),
{
    if s.len() == 0 {
        0
    } else {
        num_done(s.drop_last()) + if s.last() is Some {
            1int
        } else {
            0int
        }
    }
}

proof fn lemma_num_done_bounds<T>(s: Seq<Option<SourceResult<T>>>)
    ensures
        0 <= num_done(s) <= s.len(),
    decreases s.len(),
{
    if s.len() > 0 {
        lemma_num_done_bounds(s.drop_last());
    }
}

proof fn lemma_num_done_update<T>(s: Seq<Option<SourceResult<T>>>, i: int, v: SourceResult<T>)
    requires
        0 <= i < s.len(),
        s[i] is None,
    ensures
        num_done(s.update(i, Option::Some(v))) == num_done(s) + 1,
    decreases s.len(),
{
    let t = s.update(i, Option::Some(v));
    if i == s.len() - 1 {
        assert(t.drop_last() =~= s.drop_last());
    } else {
        assert(t.drop_last() =~= s.drop_last().update(i, Option::Some(v)));
        lemma_num_done_update(s.drop_last(), i, v);
        assert(t.last() == s.last());
    }
}

proof fn lemma_num_done_full<T>(s: Seq<Option<SourceResult<T>>>)
    requires
        num_done(s) == s.len(),
    ensures
        forall|i: int| 0 <= i < s.len() ==> s[i] is Some,
    decreases s.len(),
{
    if s.len() > 0 {
        lemma_num_done_bounds(s.drop_last());
        lemma_num_done_full(s.drop_last());
        assert(forall|i: int| 0 <= i < s.len() - 1 ==> s[i] == s.drop_last()[i]);
    }
}

proof fn lemma_num_done_all_none<T>(s: Seq<Option<SourceResult<T>>>)
    requires
        forall|i: int| 0 <= i < s.len() ==> s[i] is None,
    ensures
        num_done(s) == 0,
    decreases s.len(),
{
    if s.len() > 0 {
        assert(forall|i: int| 0 <= i < s.len() - 1 ==> s.drop_last()[i] == s[i]);
        lemma_num_done_all_none(s.drop_last());
    }
}

proof fn lemma_num_done_gap<T>(s: Seq<Option<SourceResult<T>>>, k: int, j: int)
    requires
        0 <= j < k <= s.len(),
        s[j] is None,
        forall|i: int| 0 <= i < s.len() && s[i] is Some ==> i < k,
    ensures
        num_done(s) <= k - 1,
    decreases s.len(),
{
    lemma_num_done_bounds(s.drop_last());
    if k <= s.len() - 1 {
        assert(s.last() is None);
        lemma_num_done_gap(s.drop_last(), k, j);
    } else {
        if j == s.len() - 1 {
            assert(s.last() is None);
        } else {
            lemma_num_done_gap(s.drop_last(), k - 1, j);
        }
    }
}

/// The state of one batch download under a concurrency limit.
pub struct FetchBatch<T> {
    /// The concurrency limit
    pub limit: usize,
    /// Number of items handed out to run so far
    pub started: usize,
    /// Number of items with a recorded outcome
    pub completed: usize,
    /// One slot per input, filled as outcomes arrive
    pub slots: Vec<Option<SourceResult<T>>>,
}

impl<T> FetchBatch<T> {
    /// Number of inputs in the batch.
    pub open spec fn spec_total(self) -> int {
        self.slots@.len() as int
    }

    /// The concurrency limit.
    pub open spec fn spec_limit(self) -> int {
        self.limit as int
    }

    /// Number of items handed out to run so far.
    pub open spec fn spec_started(self) -> int {
        self.started as int
    }

    /// Number of items with a recorded outcome.
    pub open spec fn spec_completed(self) -> int {
        num_done(self.slots@)
    }

    /// Number of items handed out and not yet completed.
    pub open spec fn spec_in_flight(self) -> int {
        self.spec_started() - self.spec_completed()
    }

    /// The outcome recorded for one input position.
    pub open spec fn spec_slot(self, i: int) -> Option<SourceResult<T>> {
        self.slots@[i]
    }

    /// The limiter's invariant: starts never outrun the inputs, completions
    /// never outrun starts, in-flight items never exceed the limit, and
    /// outcomes are recorded only for started items.
    pub open spec fn wf(self) -> bool {
        &&& self.spec_started() <= self.spec_total()
        &&& self.completed == num_done(self.slots@)
        &&& self.spec_completed() <= self.spec_started()
        &&& self.spec_in_flight() <= self.spec_limit()
        &&& forall|i: int|
            0 <= i < self.slots@.len() && self.slots@[i] is Some ==> i < self.spec_started()
    }

    /// A fresh batch over `total` inputs; an absent bound means the limit
    /// is the widest the machine can express.
    pub fn new(total: usize, max_concurrency: Option<usize>) -> (r: FetchBatch<T>)
        requires
            match max_concurrency {
                Option::Some(k) => k >= 1,
                Option::None => true,
            },
        ensures
            r.wf(),
            r.spec_total() == total,
            r.spec_started() == 0,
            r.spec_completed() == 0,
            r.spec_limit() == match max_concurrency {
                Option::Some(k) => k as int,
                Option::None => usize::MAX as int,
            },
            forall|i: int| 0 <= i < total ==> r.spec_slot(i) is None,
    {
        let limit = match max_concurrency {
            Option::Some(k) => k,
            Option::None => usize::MAX,
        };
        let mut slots: Vec<Option<SourceResult<T>>> = Vec::new();
        let mut i: usize = 0;
        while i < total
            invariant
                i <= total,
                slots@.len() == i,
                forall|j: int| 0 <= j < i ==> slots@[j] is None,
            decreases total - i,
        {
            slots.push(Option::None);
            i = i + 1;
        }
        proof {
            lemma_num_done_all_none(slots@);
        }
        FetchBatch { limit, started: 0, completed: 0, slots }
    }

    /// Whether the limiter admits starting one more item.
    pub fn can_start(&self) -> (r: bool)
        requires
            self.wf(),
        ensures
            r == (self.spec_started() < self.spec_total() && self.spec_in_flight()
                < self.spec_limit()),
    {
        proof {
            lemma_num_done_bounds(self.slots@);
        }
        self.started < self.slots.len() && self.started - self.completed < self.limit
    }

    /// Hand out the next input to run.  Items start in input order; what
    /// order they finish in is up to the driver.
    pub fn next_to_start(&mut self) -> (r: usize)
        requires
            old(self).wf(),
            old(self).spec_started() < old(self).spec_total(),
            old(self).spec_in_flight() < old(self).spec_limit(),
        ensures
            final(self).wf(),
            r == old(self).spec_started(),
            final(self).spec_started() == old(self).spec_started() + 1,
            final(self).spec_completed() == old(self).spec_completed(),
            final(self).spec_total() == old(self).spec_total(),
            final(self).spec_limit() == old(self).spec_limit(),
            final(self).slots@ == old(self).slots@,
            final(self).spec_in_flight() <= final(self).spec_limit(),
    {
        let total = self.slots.len();
        assert(self.started < total);
        let r = self.started;
        self.started = self.started + 1;
        r
    }

    /// Record the outcome of one started item.  Completions may arrive in
    /// any order; each is tied to its input position.
    pub fn complete(&mut self, index: usize, result: SourceResult<T>)
        requires
            old(self).wf(),
            index < old(self).spec_started(),
            old(self).spec_slot(index as int) is None,
        ensures
            final(self).wf(),
            final(self).slots@ == old(self).slots@.update(
                index as int,
                Option::Some(result),
            ),
            final(self).spec_completed() == old(self).spec_completed() + 1,
            final(self).spec_started() == old(self).spec_started(),
            final(self).spec_total() == old(self).spec_total(),
            final(self).spec_limit() == old(self).spec_limit(),
    {
        proof {
            lemma_num_done_update(self.slots@, index as int, result);
            lemma_num_done_bounds(self.slots@);
            lemma_num_done_gap(self.slots@, self.started as int, index as int);
        }
        self.slots.set(index, Option::Some(result));
        self.completed = self.completed + 1;
    }

    /// The progress pair reported after each completion.
    pub fn progress(&self) -> (r: (usize, usize))
        requires
            self.wf(),
        ensures
            r.0 == self.spec_completed(),
            r.1 == self.spec_total(),
    {
        (self.completed, self.slots.len())
    }

    /// Whether every input has a recorded outcome.
    pub fn is_done(&self) -> (r: bool)
        requires
            self.wf(),
        ensures
            r == (self.spec_completed() == self.spec_total()),
    {
        self.completed == self.slots.len()
    }

    /// Pair every input with its outcome, in input order: exactly one
    /// result per descriptor, whatever each outcome was.
    pub fn into_results(self, files: Vec<MrfFileInfo>) -> (r: Vec<(MrfFileInfo, SourceResult<T>)>)
        requires
            self.wf(),
            self.spec_completed() == self.spec_total(),
            files@.len() == self.spec_total(),
        ensures
            r@.len() == files@.len(),
            forall|i: int|
                0 <= i < r@.len() ==> r@[i].0 == files@[i] && Option::Some(r@[i].1)
                    == self.spec_slot(i),
    {
        proof {
            lemma_num_done_full(self.slots@);
        }
        let ghost orig_files = files@;
        let ghost orig_slots = self.slots@;
        let mut files = files;
        let mut slots = self.slots;
        let n = slots.len();
        let mut r: Vec<(MrfFileInfo, SourceResult<T>)> = Vec::new();
        let mut i: usize = 0;
        while i < n
            invariant
                i <= n,
                files@ =~= orig_files.skip(i as int),
                slots@ =~= orig_slots.skip(i as int),
                orig_files.len() == n,
                orig_slots.len() == n,
                r@.len() == i,
                forall|j: int| 0 <= j < n ==> orig_slots[j] is Some,
                forall|j: int|
                    0 <= j < i ==> r@[j].0 == orig_files[j] && Option::Some(r@[j].1)
                        == orig_slots[j],
            decreases n - i,
        {
            let f = files.remove(0);
            let s = slots.remove(0);
            match s {
                Option::Some(outcome) => {
                    r.push((f, outcome));
                },
                Option::None => {
                    proof {
                        assert(orig_slots[i as int] is Some);
                        assert(false);
                    }
                },
            }
            proof {
                assert(files@ =~= orig_files.skip(i + 1));
                assert(slots@ =~= orig_slots.skip(i + 1));
            }
            i = i + 1;
        }
        r
    }
}

/// The limiter never holds more than its bound in flight: the
/// first half of the batch guarantee, visible from the invariant alone.
pub proof fn lemma_in_flight_bound<T>(b: FetchBatch<T>)
    requires
        b.wf(),
    ensures
        b.spec_in_flight() <= b.spec_limit(),
{
}

/// The size guard: a download whose advertised Content-Length exceeds the
/// caller's limit is aborted, alone, before its body is read.
pub fn size_guard(content_length: Option<u64>, max_size: Option<u64>) -> (r: Option<SourceError>)
    ensures
        match r {
            Option::Some(e) => max_size matches Option::Some(limit) && content_length
                matches Option::Some(size) && size > limit && e == (SourceError::SizeExceeded {
                size,
                limit,
            }),
            Option::None => !(max_size matches Option::Some(limit) && content_length
                matches Option::Some(size) && size > limit),
        },
{
    match (max_size, content_length) {
        (Option::Some(limit), Option::Some(size)) => {
            if size > limit {
                Option::Some(SourceError::SizeExceeded { size, limit })
            } else {
                Option::None
            }
        },
        _ => Option::None,
    }
}

/// The characters after the last occurrence of `c`, or all of `s` when
/// `c` does not occur in it.
pub open spec fn after_last(s: Seq<char>, c: char) -> Seq<char>
    decreases s.len(),
{
    if s.len() == 0 {
        s
    } else if s.last() == c {
        Seq::empty()
    } else {
        after_last(s.drop_last(), c).push(s.last())
    }
}

proof fn lemma_after_last_none(s: Seq<char>, c: char)
    requires
        forall|k: int| 0 <= k < s.len() ==> s[k] != c,
    ensures
        after_last(s, c) == s,
    decreases s.len(),
{
    if s.len() > 0 {
        lemma_after_last_none(s.drop_last(), c);
        assert(s.drop_last().push(s.last()) =~= s);
    }
}

proof fn lemma_after_last_at(s: Seq<char>, c: char, i: int)
    requires
        0 <= i < s.len(),
        s[i] == c,
        forall|k: int| i < k < s.len() ==> s[k] != c,
    ensures
        after_last(s, c) == s.subrange(i + 1, s.len() as int),
    decreases s.len(),
{
    if i == s.len() - 1 {
        assert(after_last(s, c) =~= s.subrange(i + 1, s.len() as int));
    } else {
        lemma_after_last_at(s.drop_last(), c, i);
        assert(s.drop_last().subrange(i + 1, s.len() - 1).push(s.last()) =~= s.subrange(
            i + 1,
            s.len() as int,
        ));
    }
}

/// The suffix of `s` after the last occurrence of `c`, or all of `s`
/// when `c` does not occur in it.
fn suffix_after_last<'a>(s: &'a str, c: char) -> (r: &'a str)
    ensures
        r@ == after_last(s@, c),
{
    let n = s.unicode_len();
    let mut best: Option<usize> = Option::None;
    let mut i: usize = 0;
    while i < n
        invariant
            i <= n,
            n == s@.len(),
            match best {
                Option::Some(b) => b < i && s@[b as int] == c && forall|k: int|
                    b < k < i ==> s@[k] != c,
                Option::None => forall|k: int| 0 <= k < i ==> s@[k] != c,
            },
        decreases n - i,
    {
        if s.get_char(i) == c {
            best = Option::Some(i);
        }
        i = i + 1;
    }
    match best {
        Option::Some(b) => {
            proof {
                lemma_after_last_at(s@, c, b as int);
            }
            s.substring_char(b + 1, n)
        },
        Option::None => {
            proof {
                lemma_after_last_none(s@, c);
            }
            s
        },
    }
}

/// The file name a batch-to-disk download saves a descriptor under:
/// its type's label, its id, and the extension of its URL's trailing
/// path segment.
pub open spec fn output_filename_of(t: MrfFileType, id: Seq<char>, url: Seq<char>) -> Seq<char> {
    file_type_label(t) + "_"@ + id + "."@ + after_last(after_last(url, '/'), '.')
}

/// Build the output file name for one descriptor.
pub fn output_filename(file_type: MrfFileType, id: &str, url: &str) -> (r: String)
    ensures
        r@ == output_filename_of(file_type, id@, url@),
{
    let segment = suffix_after_last(url, '/');
    let extension = suffix_after_last(segment, '.');
    let mut r = String::from_str(file_type.as_str());
    r.append("_");
    r.append(id);
    r.append(".");
    r.append(extension);
    r
}

/// Every input of a batch fails with the same error: the outcome of a
/// batch whose output directory could not be created.
pub fn fail_all<T>(files: Vec<MrfFileInfo>, error: &SourceError) -> (r: Vec<
    (MrfFileInfo, SourceResult<T>),
>)
    ensures
        r@.len() == files@.len(),
        forall|i: int|
            0 <= i < r@.len() ==> r@[i].0 == files@[i] && r@[i].1 == Result::<
                T,
                SourceError,
            >::Err(*error),
{
    let ghost orig_files = files@;
    let mut files = files;
    let n = files.len();
    let mut r: Vec<(MrfFileInfo, SourceResult<T>)> = Vec::new();
    let mut i: usize = 0;
    while i < n
        invariant
            i <= n,
            files@ =~= orig_files.skip(i as int),
            orig_files.len() == n,
            r@.len() == i,
            forall|j: int|
                0 <= j < i ==> r@[j].0 == orig_files[j] && r@[j].1 == Result::<
                    T,
                    SourceError,
                >::Err(*error),
        decreases n - i,
    {
        let f = files.remove(0);
        r.push((f, Result::Err(error.dup())));
        proof {
            assert(files@ =~= orig_files.skip(i + 1));
        }
        i = i + 1;
    }
    r
}

} // verus!
