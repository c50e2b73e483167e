use vstd::prelude::*;

verus! {

/// Raw pages in a row after which the channel's history counts as exhausted.
pub const EXHAUSTED_AFTER_EMPTY_PAGES: u64 = 3;

/// Batches in a row without a message of the author after which the user is
/// asked again whether to go on.
pub const ASK_AFTER_ZERO_MATCH_BATCHES: u64 = 10;

/// Most messages that one listing request asks for.
pub const MESSAGES_PER_REQUEST: u64 = 100;

/// A message as listed: its id and the id of its author.
#[derive(Debug, Clone)]
pub struct Message {
    pub id: String,
    pub author_id: String,
}

/// Why the lister waits for the user's answer before it fetches again.
#[derive(Debug, Clone, Copy, PartialEq, Eq, Structural)]
pub enum Prompt {
    /// The very first batch held no message of the author.
    FirstBatch,
    /// Many batches in a row held no message of the author.
    RepeatedEmpty,
}

/// The ids that a sequence of strings spells.
pub open spec fn ids_of(v: Seq<String>) -> Seq<Seq<char>> {
    v.map_values(|s: String| s@)
}

/// The id that an optional string spells.
pub open spec fn optional_id(o: Option<String>) -> Option<Seq<char>> {
    match o {
        Some(s) => Some(s@),
        None => None,
    }
}

/// Whether some message of the page is by `author`.
pub open spec fn has_match(page: Seq<Message>, author: Seq<char>) -> bool {
    exists|i: int| 0 <= i < page.len() && (#[trigger] page[i]).author_id@ == author
}

/// The ids, in page order, of the messages by `author` that are neither in
/// `seen` nor earlier in the page: what one page hands to the deleter.
pub open spec fn forwarded_ids(page: Seq<Message>, author: Seq<char>, seen: Seq<Seq<char>>) -> Seq<
    Seq<char>,
>
    decreases page.len(),
{
    if page.len() == 0 {
        Seq::empty()
    } else {
        let prev = forwarded_ids(page.drop_last(), author, seen);
        let m = page.last();
        if m.author_id@ == author && !seen.contains(m.id@) && !prev.contains(m.id@) {
            prev.push(m.id@)
        } else {
            prev
        }
    }
}

/// The producer's state over one run: where it is in the channel's history,
/// what it has forwarded, and when it stops or asks the user.
#[derive(Debug)]
pub struct Lister {
    pub author_id: String,
    /// The "before" pointer of the next listing request.
    pub cursor: Option<String>,
    /// Every id forwarded to the deleter in this run, in order.
    pub seen: Vec<String>,
    pub total_batches: u64,
    /// Empty raw pages in a row.
    pub empty_pages: u64,
    /// Non-empty pages in a row without a message of the author.
    pub zero_match_batches: u64,
    /// The question awaiting an answer, if any.
    pub prompt: Option<Prompt>,
    pub done: bool,
}

/// The question, if any, after a non-empty page without a message of the
/// author: always after the very first batch, else once such pages have run
/// long enough.
pub open spec fn prompt_after_zero_match(batches_before: u64, zero_match_after: u64) -> Option<
    Prompt,
> {
    if batches_before == 0 {
        Some(Prompt::FirstBatch)
    } else if zero_match_after >= ASK_AFTER_ZERO_MATCH_BATCHES {
        Some(Prompt::RepeatedEmpty)
    } else {
        None
    }
}

/// How one fetched page moves the lister from `a` to `b`, forwarding `batch`.
pub open spec fn took_page(a: Lister, b: Lister, page: Seq<Message>, batch: Seq<Seq<char>>) -> bool {
    &&& b.author_id == a.author_id
    &&& b.total_batches == a.total_batches + 1 || (b.total_batches == a.total_batches
        && a.total_batches == u64::MAX)
    &&& batch == forwarded_ids(page, a.author_id@, a.seen_ids())
    &&& b.seen_ids() == a.seen_ids() + batch
    &&& page.len() == 0 ==> {
        &&& b.cursor == a.cursor
        &&& b.empty_pages == a.empty_pages + 1
        &&& b.done == (b.empty_pages >= EXHAUSTED_AFTER_EMPTY_PAGES)
        &&& b.zero_match_batches == a.zero_match_batches
        &&& b.prompt is None
    }
    &&& page.len() > 0 ==> {
        &&& b.cursor_id() == Some(page.last().id@)
        &&& b.empty_pages == 0
        &&& !b.done
    }
    &&& page.len() > 0 && has_match(page, a.author_id@) ==> {
        &&& b.zero_match_batches == 0
        &&& b.prompt is None
    }
    &&& page.len() > 0 && !has_match(page, a.author_id@) ==> {
        &&& b.zero_match_batches == a.zero_match_batches + 1
        &&& b.prompt == prompt_after_zero_match(a.total_batches, b.zero_match_batches)
    }
}

proof fn lemma_concat_contains(a: Seq<Seq<char>>, b: Seq<Seq<char>>, x: Seq<char>)
    ensures
        (a + b).contains(x) <==> a.contains(x) || b.contains(x),
{
    if a.contains(x) {
        let j = choose|j: int| 0 <= j < a.len() && a[j] == x;
        assert((a + b)[j] == x);
    }
    if b.contains(x) {
        let j = choose|j: int| 0 <= j < b.len() && b[j] == x;
        assert((a + b)[a.len() + j] == x);
    }
    if (a + b).contains(x) {
        let j = choose|j: int| 0 <= j < (a + b).len() && (a + b)[j] == x;
        if j < a.len() {
            assert(a[j] == x);
        } else {
            assert(b[j - a.len()] == x);
        }
    }
}

proof fn lemma_push_keeps_distinct(a: Seq<Seq<char>>, x: Seq<char>)
    requires
        a.no_duplicates(),
        !a.contains(x),
    ensures
        a.push(x).no_duplicates(),
{
    assert forall|i: int, j: int|
        0 <= i < a.push(x).len() && 0 <= j < a.push(x).len() && i != j implies a.push(x)[i]
        != a.push(x)[j] by {
        if i == a.len() {
            assert(a[j] == a.push(x)[j]);
        } else if j == a.len() {
            assert(a[i] == a.push(x)[i]);
        }
    }
}

/// Every id that a page forwards is new to the run and is forwarded once:
/// so no id ever reaches the deleter twice in a run.
pub proof fn forwarded_ids_are_new(page: Seq<Message>, author: Seq<char>, seen: Seq<Seq<char>>)
    requires
        seen.no_duplicates(),
    ensures
        (seen + forwarded_ids(page, author, seen)).no_duplicates(),
        forall|k: int|
            0 <= k < forwarded_ids(page, author, seen).len() ==> !seen.contains(
                #[trigger] forwarded_ids(page, author, seen)[k],
            ),
    decreases page.len(),
{
    let f = forwarded_ids(page, author, seen);
    if page.len() > 0 {
        let rest = page.drop_last();
        let prev = forwarded_ids(rest, author, seen);
        forwarded_ids_are_new(rest, author, seen);
        let m = page.last();
        if m.author_id@ == author && !seen.contains(m.id@) && !prev.contains(m.id@) {
            assert(f == prev.push(m.id@));
            assert(f[prev.len() as int] == page[page.len() - 1].id@);
            lemma_concat_contains(seen, prev, m.id@);
            lemma_push_keeps_distinct(seen + prev, m.id@);
            assert(seen + f =~= (seen + prev).push(m.id@));
        }
    } else {
        assert(seen + f =~= seen);
    }
}

/// After a page, every message of the author on it is in the seen-set: the
/// seen-set holds exactly the distinct messages of the author observed.
pub proof fn every_match_is_seen(page: Seq<Message>, author: Seq<char>, seen: Seq<Seq<char>>)
    ensures
        forall|i: int|
            0 <= i < page.len() && (#[trigger] page[i]).author_id@ == author ==> (seen
                + forwarded_ids(page, author, seen)).contains(page[i].id@),
    decreases page.len(),
{
    if page.len() > 0 {
        let rest = page.drop_last();
        let prev = forwarded_ids(rest, author, seen);
        let f = forwarded_ids(page, author, seen);
        every_match_is_seen(rest, author, seen);
        assert forall|i: int|
            0 <= i < page.len() && (#[trigger] page[i]).author_id@ == author implies (seen
                + f).contains(page[i].id@) by {
            let x = page[i].id@;
            if i < rest.len() {
                assert(rest[i] == page[i]);
                assert((seen + prev).contains(x));
            } else {
                if !prev.contains(x) && !seen.contains(x) {
                    assert(f == prev.push(x));
                    assert(f[prev.len() as int] == x);
                    assert((seen + f)[(seen.len() + prev.len()) as int] == x);
                }
            }
            lemma_concat_contains(seen, prev, x);
            lemma_concat_contains(seen, f, x);
            if prev.contains(x) {
                let j = choose|j: int| 0 <= j < prev.len() && prev[j] == x;
                assert(f.len() >= prev.len());
                assert(f[j] == prev[j]);
            }
        }
    }
}

/// Whether `x` is the id of a message of the page by `author`.
pub open spec fn is_match_id(page: Seq<Message>, author: Seq<char>, x: Seq<char>) -> bool {
    exists|i: int| 0 <= i < page.len() && page[i].author_id@ == author && page[i].id@ == x
}

/// Every id that a page forwards is that of a message of the author.
pub proof fn lemma_forwarded_are_matches(page: Seq<Message>, author: Seq<char>, seen: Seq<Seq<char>>)
    ensures
        forall|k: int|
            0 <= k < forwarded_ids(page, author, seen).len() ==> is_match_id(
                page,
                author,
                #[trigger] forwarded_ids(page, author, seen)[k],
            ),
    decreases page.len(),
{
    if page.len() > 0 {
        let rest = page.drop_last();
        let prev = forwarded_ids(rest, author, seen);
        let f = forwarded_ids(page, author, seen);
        lemma_forwarded_are_matches(rest, author, seen);
        assert forall|k: int| 0 <= k < f.len() implies is_match_id(page, author, #[trigger] f[k]) by {
            if k < prev.len() {
                assert(f[k] == prev[k]);
                assert(is_match_id(rest, author, prev[k]));
                let i = choose|i: int|
                    0 <= i < rest.len() && rest[i].author_id@ == author && rest[i].id@ == prev[k];
                assert(page[i] == rest[i]);
            } else {
                let i = page.len() - 1;
                assert(f[k] == page[i].id@);
                assert(page[i].author_id@ == author);
            }
        }
    }
}

/// A page that forwards something holds a message of the author.
pub proof fn lemma_forwarding_needs_match(page: Seq<Message>, author: Seq<char>, seen: Seq<Seq<char>>)
    requires
        forwarded_ids(page, author, seen).len() > 0,
    ensures
        has_match(page, author),
{
    lemma_forwarded_are_matches(page, author, seen);
    let x = forwarded_ids(page, author, seen)[0];
    assert(is_match_id(page, author, x));
    let i = choose|i: int| 0 <= i < page.len() && page[i].author_id@ == author && page[i].id@ == x;
    assert(page[i].author_id@ == author);
}

impl Lister {
    pub open spec fn seen_ids(&self) -> Seq<Seq<char>> {
        ids_of(self.seen@)
    }

    pub open spec fn cursor_id(&self) -> Option<Seq<char>> {
        optional_id(self.cursor)
    }

    pub open spec fn wf(&self) -> bool {
        &&& self.seen_ids().no_duplicates()
        &&& self.empty_pages <= EXHAUSTED_AFTER_EMPTY_PAGES
        &&& (!self.done ==> self.empty_pages < EXHAUSTED_AFTER_EMPTY_PAGES)
        &&& self.zero_match_batches <= ASK_AFTER_ZERO_MATCH_BATCHES
        &&& (self.prompt is Some ==> !self.done)
        &&& (self.prompt is None && !self.done ==> self.zero_match_batches
            < ASK_AFTER_ZERO_MATCH_BATCHES)
    }

    /// A lister at the most recent page of the channel.
    pub fn new(author_id: String) -> (r: Lister)
        ensures
            r.wf(),
            r.author_id == author_id,
            r.cursor is None,
            r.seen@.len() == 0,
            r.total_batches == 0,
            r.empty_pages == 0,
            r.zero_match_batches == 0,
            r.prompt is None,
            !r.done,
    {
        Lister {
            author_id,
            cursor: None,
            seen: Vec::new(),
            total_batches: 0,
            empty_pages: 0,
            zero_match_batches: 0,
            prompt: None,
            done: false,
        }
    }

    /// How many distinct messages of the author were found in this run.
    pub fn total_found(&self) -> (r: usize)
        ensures
            r == self.seen_ids().len(),
    {
        self.seen.len()
    }

    /// Whether `id` was forwarded before in this run.
    pub fn has_seen(&self, id: &String) -> (r: bool)
        ensures
            r == self.seen_ids().contains(id@),
    {
        let mut i: usize = 0;
        while i < self.seen.len()
            invariant
                i <= self.seen@.len(),
                forall|j: int| 0 <= j < i ==> self.seen@[j]@ != id@,
            decreases self.seen@.len() - i,
        {
            if self.seen[i] == *id {
                assert(self.seen_ids()[i as int] == id@);
                return true;
            }
            i = i + 1;
        }
        assert(!self.seen_ids().contains(id@)) by {
            if self.seen_ids().contains(id@) {
                let j = choose|j: int| 0 <= j < self.seen_ids().len() && self.seen_ids()[j] == id@;
                assert(self.seen@[j]@ == id@);
            }
        }
        false
    }

    /// Takes in one fetched page. The cursor moves to the page's last
    /// message, whether or not any message matched; the author's messages
    /// not forwarded before are marked seen and returned, in page order, for
    /// the deleter. Empty pages count toward exhaustion, pages without a
    /// match toward the next question to the user.
    pub fn on_page(&mut self, page: &Vec<Message>) -> (batch: Vec<String>)
        requires
            old(self).wf(),
            !old(self).done,
            old(self).prompt is None,
        ensures
            final(self).wf(),
            took_page(*old(self), *final(self), page@, ids_of(batch@)),
    {
        let ghost pre = *self;
        let first_batch = self.total_batches == 0;
        self.total_batches = self.total_batches.saturating_add(1);
        if page.len() == 0 {
            self.empty_pages = self.empty_pages + 1;
            if self.empty_pages >= EXHAUSTED_AFTER_EMPTY_PAGES {
                self.done = true;
            }
            let empty: Vec<String> = Vec::new();
            assert(ids_of(empty@) =~= Seq::<Seq<char>>::empty());
            assert(self.seen_ids() =~= pre.seen_ids() + ids_of(empty@));
            return empty;
        }
        self.empty_pages = 0;
        self.cursor = Some(page[page.len() - 1].id.clone());
        let mut batch: Vec<String> = Vec::new();
        let mut matched = false;
        let mut i: usize = 0;
        assert(ids_of(batch@) =~= Seq::<Seq<char>>::empty());
        assert(self.seen_ids() =~= pre.seen_ids() + ids_of(batch@));
        assert(page@.take(0) =~= Seq::<Message>::empty());
        while i < page.len()
            invariant
                i <= page@.len(),
                self.author_id == pre.author_id,
                self.cursor_id() == Some(page@.last().id@),
                self.total_batches == pre.total_batches + 1 || (self.total_batches
                    == pre.total_batches && pre.total_batches == u64::MAX),
                self.empty_pages == 0,
                self.zero_match_batches == pre.zero_match_batches,
                self.prompt == pre.prompt,
                self.done == pre.done,
                self.seen_ids().no_duplicates(),
                self.seen_ids() == pre.seen_ids() + ids_of(batch@),
                ids_of(batch@) == forwarded_ids(page@.take(i as int), pre.author_id@, pre.seen_ids()),
                matched == has_match(page@.take(i as int), pre.author_id@),
            decreases page@.len() - i,
        {
            let m = &page[i];
            let ghost prefix = page@.take(i as int);
            let ghost next = page@.take(i + 1);
            assert(next.drop_last() =~= prefix);
            assert(next.last() == page@[i as int]);
            let ghost prev = ids_of(batch@);
            if m.author_id == self.author_id {
                matched = true;
                assert(next[i as int] == page@[i as int]);
                let seen_before = self.has_seen(&m.id);
                proof {
                    lemma_concat_contains(pre.seen_ids(), prev, m.id@);
                }
                if !seen_before {
                    proof {
                        lemma_push_keeps_distinct(self.seen_ids(), m.id@);
                    }
                    self.seen.push(m.id.clone());
                    batch.push(m.id.clone());
                    assert(ids_of(batch@) =~= prev.push(m.id@));
                    assert(self.seen_ids() =~= pre.seen_ids() + ids_of(batch@));
                }
            } else {
                assert(has_match(next, pre.author_id@) == has_match(prefix, pre.author_id@)) by {
                    if has_match(next, pre.author_id@) {
                        let j = choose|j: int|
                            0 <= j < next.len() && (#[trigger] next[j]).author_id@
                                == pre.author_id@;
                        assert(prefix[j] == next[j]);
                    }
                    if has_match(prefix, pre.author_id@) {
                        let j = choose|j: int|
                            0 <= j < prefix.len() && (#[trigger] prefix[j]).author_id@
                                == pre.author_id@;
                        assert(prefix[j] == next[j]);
                    }
                }
            }
            assert(matched == has_match(next, pre.author_id@)) by {
                if matched && !has_match(prefix, pre.author_id@) {
                    assert(next[i as int].author_id@ == pre.author_id@);
                }
                if has_match(prefix, pre.author_id@) {
                    let j = choose|j: int|
                        0 <= j < prefix.len() && (#[trigger] prefix[j]).author_id@
                            == pre.author_id@;
                    assert(prefix[j] == next[j]);
                }
            }
            i = i + 1;
        }
        assert(page@.take(page@.len() as int) =~= page@);
        if matched {
            self.zero_match_batches = 0;
        } else {
            self.zero_match_batches = self.zero_match_batches + 1;
            if first_batch {
                self.prompt = Some(Prompt::FirstBatch);
            } else if self.zero_match_batches >= ASK_AFTER_ZERO_MATCH_BATCHES {
                self.prompt = Some(Prompt::RepeatedEmpty);
            }
        }
        batch
    }

    /// Takes the user's answer to the pending question: going on starts the
    /// count of empty batches over, stopping ends the run.
    pub fn on_answer(&mut self, keep_going: bool)
        requires
            old(self).wf(),
            old(self).prompt is Some,
        ensures
            final(self).wf(),
            final(self).prompt is None,
            final(self).author_id == old(self).author_id,
            final(self).cursor == old(self).cursor,
            final(self).seen == old(self).seen,
            final(self).total_batches == old(self).total_batches,
            final(self).empty_pages == old(self).empty_pages,
            keep_going ==> final(self).zero_match_batches == 0 && final(self).done == old(
                self,
            ).done,
            !keep_going ==> final(self).zero_match_batches == old(self).zero_match_batches
                && final(self).done,
    {
        self.prompt = None;
        if keep_going {
            self.zero_match_batches = 0;
        } else {
            self.done = true;
        }
    }
}

} // verus!
