//! The line buffer: a fixed-capacity, append-only ring of text lines.

use vstd::prelude::*;

use crate::COLS;
use crate::ROWS;

verus! {

/// The mathematical state of a console: every logical line ever written,
/// oldest first (the last entry is the line currently being filled), and
/// whether a line advance is pending from a trailing newline.
pub struct Model {
    pub hist: Seq<Seq<u8>>,
    pub pending: bool,
}

/// A model is well formed when at least one line exists (the line being
/// filled) and no line exceeds `COLS` bytes.
pub open spec fn wf_model(m: Model) -> bool {
    &&& m.hist.len() >= 1
    &&& forall|j: int| 0 <= j < m.hist.len() ==> m.hist[j].len() <= COLS
}

/// The lines currently visible: the newest `ROWS` logical lines (all of
/// them while fewer have been written), oldest first.
pub open spec fn visible(m: Model) -> Seq<Seq<u8>> {
    if m.hist.len() > ROWS {
        m.hist.skip(m.hist.len() - ROWS)
    } else {
        m.hist
    }
}

/// How appending one byte transforms the model:
/// a pending newline first opens a fresh line; `\n` (10) only marks the
/// advance as pending; `\t` (9) expands to four spaces; any other byte
/// lands on the current line, opening a fresh line first if that line is
/// already full (soft wrap).
pub open spec fn model_add(m: Model, c: u8) -> Model
    decreases (if c == 9 { 1int } else { 0int }),
{
    if c == 9 {
        model_add(model_add(model_add(model_add(m, 32), 32), 32), 32)
    } else {
        let hist = if m.pending {
            m.hist.push(Seq::empty())
        } else {
            m.hist
        };
        if c == 10 {
            Model { hist, pending: true }
        } else if hist.last().len() == COLS {
            Model { hist: hist.push(seq![c]), pending: false }
        } else {
            Model {
                hist: hist.update(hist.len() - 1, hist.last().push(c)),
                pending: false,
            }
        }
    }
}

/// `model_add`, folded over a whole sequence of bytes in order.
pub open spec fn model_add_seq(m: Model, s: Seq<u8>) -> Model
    decreases s.len(),
{
    if s.len() == 0 {
        m
    } else {
        model_add(model_add_seq(m, s.drop_last()), s.last())
    }
}

/// How the input boundary reduces a unicode scalar to a byte: values up
/// to 255 pass through, anything else becomes the sentinel byte 0.
pub open spec fn byte_of_char(c: char) -> u8 {
    if c as u32 <= 255 {
        (c as u32) as u8
    } else {
        0u8
    }
}

/// A whole string, reduced scalar by scalar to the bytes the buffer takes.
pub open spec fn reduce_chars(s: Seq<char>) -> Seq<u8> {
    s.map(|i: int, c: char| byte_of_char(c))
}

/// One line of text: a row of `COLS` character cells plus the count of
/// cells that are occupied. Unused cells hold the sentinel byte 0.
#[derive(Copy, Clone)]
pub struct Line {
    chars: [u8; COLS],
    len: usize,
}

impl Line {
    /// The occupied prefix of the line, as a sequence of bytes.
    pub closed spec fn view(&self) -> Seq<u8> {
        self.chars@.take(self.len as int)
    }

    /// A line is well formed when its logical length fits within `COLS`
    /// and every unused cell holds the sentinel byte 0.
    pub closed spec fn wf(&self) -> bool {
        &&& self.len <= COLS
        &&& forall|i: int| self.len <= i < COLS ==> self.chars@[i] == 0u8
    }

    /// An empty, well-formed line.
    pub fn new() -> (line: Line)
        ensures
            line.wf(),
            line@ == Seq::<u8>::empty(),
    {
        let line = Line { chars: [0u8; COLS], len: 0 };
        proof {
            assert(line@ =~= Seq::<u8>::empty());
        }
        line
    }

    /// The number of occupied cells.
    pub fn len(&self) -> (n: usize)
        requires
            self.wf(),
        ensures
            n == self@.len(),
    {
        self.len
    }

    /// The occupied cells, oldest first.
    pub fn text(&self) -> (bytes: Vec<u8>)
        requires
            self.wf(),
        ensures
            bytes@ == self@,
    {
        let mut bytes: Vec<u8> = Vec::new();
        let mut i: usize = 0;
        while i < self.len
            invariant
                self.wf(),
                i <= self.len,
                bytes@ == self@.take(i as int),
            decreases self.len - i,
        {
            bytes.push(self.chars[i]);
            i = i + 1;
            proof {
                assert(bytes@ =~= self@.take(i as int));
            }
        }
        proof {
            assert(self@.take(self.len as int) =~= self@);
        }
        bytes
    }
}

/// The line buffer: `ROWS` lines of storage reused in a ring, a
/// monotonically increasing count of line advances, and the
/// pending-newline flag. The ghost `history` carries every logical line
/// ever written; the storage holds the newest `min(history.len(), ROWS)`
/// of them, the entry for logical line `j` sitting in slot `j % ROWS`.
pub struct CharBuffer {
    lines: Vec<Line>,
    written: usize,
    advance_next: bool,
    history: Ghost<Seq<Seq<u8>>>,
}

impl CharBuffer {
    /// The abstract state of the buffer.
    pub closed spec fn model(&self) -> Model {
        Model { hist: self.history@, pending: self.advance_next }
    }

    /// Internal consistency: the storage is a ring image of the newest
    /// `ROWS` history entries, slots never yet reached are still empty,
    /// and the advance count is one less than the number of logical lines.
    pub closed spec fn wf(&self) -> bool {
        &&& wf_model(self.model())
        &&& self.lines@.len() == ROWS
        &&& forall|k: int| 0 <= k < ROWS ==> (#[trigger] self.lines@[k]).wf()
        &&& self.written + 1 == self.history@.len()
        &&& forall|j: int|
            hist_floor(self.history@.len() as int) <= j < self.history@.len()
                ==> #[trigger] self.history@[j] == self.lines@[j % (ROWS as int)]@
        &&& forall|k: int|
            self.written < k < ROWS ==> (#[trigger] self.lines@[k])@ == Seq::<u8>::empty()
    }

    /// A well-formed console has a well-formed model, tying the exec
    /// type to the model-level laws.
    pub proof fn lemma_wf_model(&self)
        requires
            self.wf(),
        ensures
            wf_model(self.model()),
    {
    }

    /// A new console: one empty line open, nothing pending.
    pub fn new() -> (buf: CharBuffer)
        ensures
            buf.wf(),
            buf.model() == (Model { hist: seq![Seq::<u8>::empty()], pending: false }),
    {
        let mut lines: Vec<Line> = Vec::new();
        let mut k: usize = 0;
        while k < ROWS
            invariant
                k <= ROWS,
                lines@.len() == k,
                forall|i: int|
                    0 <= i < k ==> (#[trigger] lines@[i]).wf() && lines@[i]@ == Seq::<u8>::empty(),
            decreases ROWS - k,
        {
            lines.push(Line::new());
            k = k + 1;
        }
        let ghost initial: Seq<Seq<u8>> = seq![Seq::<u8>::empty()];
        CharBuffer {
            lines,
            written: 0,
            advance_next: false,
            history: Ghost(initial),
        }
    }

    /// Open the next line: bump the advance count, and once the ring has
    /// wrapped (the count has reached `ROWS`), lazily clear the slot that
    /// is being revisited, so stale content survives exactly until its
    /// slot is reused.
    pub fn advance(&mut self)
        requires
            old(self).wf(),
            old(self).model().hist.len() <= usize::MAX,
        ensures
            final(self).wf(),
            final(self).model() == (Model {
                hist: old(self).model().hist.push(Seq::<u8>::empty()),
                pending: old(self).model().pending,
            }),
    {
        self.written = self.written + 1;
        self.history = Ghost(self.history@.push(Seq::empty()));
        if self.written >= ROWS {
            let idx = self.written % ROWS;
            self.lines[idx] = Line::new();
        }
    }

    /// The line that the next visible byte will land on. Leaving the line
    /// as it was keeps the buffer well formed.
    pub fn current_line(&mut self) -> (line: &mut Line)
        requires
            old(self).wf(),
        ensures
            (*line).wf(),
            (*line)@ == old(self).model().hist.last(),
            final(self).model() == old(self).model(),
            *final(line) == *line ==> final(self).wf(),
    {
        let idx = self.written % ROWS;
        &mut self.lines[idx]
    }

    /// Append one byte. A pending newline is honoured first; `\n` defers
    /// the advance, `\t` becomes four spaces, and any other byte is
    /// written to the current line, soft-wrapping when that line is full.
    pub fn add(&mut self, c: u8)
        requires
            old(self).wf(),
            old(self).model().hist.len() + (if c == 9 { 9int } else { 2int }) <= usize::MAX,
        ensures
            final(self).wf(),
            final(self).model() == model_add(old(self).model(), c),
            final(self).model().hist.len() <= old(self).model().hist.len() + (if c == 9 {
                9int
            } else {
                2int
            }),
        decreases (if c == 9 { 1int } else { 0int }),
    {
        let ghost m0 = self.model();
        if self.advance_next {
            self.advance_next = false;
            self.advance();
        }
        let ghost m1 = self.model();
        proof {
            assert(!m1.pending);
            assert(m1.hist == if m0.pending {
                m0.hist.push(Seq::<u8>::empty())
            } else {
                m0.hist
            });
        }
        if c == 10 {
            self.advance_next = true;
            proof {
                assert(self.model() == model_add(m0, c));
            }
        } else if c == 9 {
            self.add(32);
            self.add(32);
            self.add(32);
            self.add(32);
            proof {
                assert(model_add(m1, 32) == model_add(m0, 32));
                assert(self.model() == model_add(
                    model_add(model_add(model_add(m0, 32), 32), 32),
                    32,
                ));
                assert(self.model() == model_add(m0, c));
            }
        } else {
            let idx1 = self.written % ROWS;
            proof {
                self.lemma_current_slot();
            }
            let full = self.lines[idx1].len == COLS;
            if full {
                self.advance();
            }
            let ghost m2 = self.model();
            let ghost s2 = *self;
            let idx = self.written % ROWS;
            proof {
                self.lemma_current_slot();
            }
            let mut line = self.lines[idx];
            proof {
                assert(line@ == m2.hist.last());
                assert(line@.len() == line.len);
                if full {
                    assert(m2.hist.last() == Seq::<u8>::empty());
                } else {
                    assert(m2.hist.last().len() == line.len && line.len != COLS);
                }
                assert(line.len < COLS);
            }
            let ghost oldline = line;
            line.chars[line.len] = c;
            line.len = line.len + 1;
            self.lines[idx] = line;
            self.history = Ghost(
                self.history@.update(self.history@.len() - 1, self.history@.last().push(c)),
            );
            proof {
                let r = ROWS as int;
                let w = s2.written as int;
                let n = s2.history@.len() as int;
                let i = w % r;
                assert(line@ =~= oldline@.push(c));
                assert(line.wf());
                assert(self.history@ == s2.history@.update(n - 1, s2.history@.last().push(c)));
                assert forall|j: int| hist_floor(n) <= j < n implies #[trigger] self.history@[j]
                    == self.lines@[j % r]@ by {
                    vstd::arithmetic::div_mod::lemma_mod_bound(j, r);
                    if j == n - 1 {
                        assert(j % r == i);
                        assert(self.lines@[i] == line);
                        assert(self.history@[j] == oldline@.push(c));
                    } else {
                        lemma_distinct_slots(j, w);
                        assert(self.lines@[j % r] == s2.lines@[j % r]);
                        assert(self.history@[j] == s2.history@[j]);
                    }
                }
                assert forall|k: int| self.written < k < ROWS implies (#[trigger] self.lines@[k])@
                    == Seq::<u8>::empty() by {
                    if w < r {
                        vstd::arithmetic::div_mod::lemma_small_mod(w as nat, ROWS as nat);
                        assert(i == w);
                    }
                    assert(self.lines@[k] == s2.lines@[k]);
                }
                assert(self.wf());
                if full {
                    assert(m1.hist.last().len() == COLS);
                    assert(Seq::<u8>::empty().push(c) =~= seq![c]);
                    assert(self.history@ =~= m1.hist.push(seq![c]));
                } else {
                    assert(m1.hist.last().len() != COLS);
                    assert(self.history@ == m1.hist.update(
                        m1.hist.len() - 1,
                        m1.hist.last().push(c),
                    ));
                }
                assert(self.model() == model_add(m0, c));
            }
        }
    }

    /// The slot of the newest logical line is `written % ROWS`, and it
    /// holds exactly that line.
    proof fn lemma_current_slot(&self)
        requires
            self.wf(),
        ensures
            self.written as int % (ROWS as int) < ROWS,
            self.lines@[self.written as int % (ROWS as int)]@ == self.model().hist.last(),
            self.model().hist.last().len() == self.lines@[self.written as int % (
            ROWS as int)].len,
    {
        let w = self.written as int;
        let n = self.history@.len() as int;
        assert(n == w + 1);
        assert(hist_floor(n) <= w < n);
        assert(self.history@[w] == self.lines@[w % (ROWS as int)]@);
        vstd::arithmetic::div_mod::lemma_mod_bound(w, ROWS as int);
        let line = self.lines@[w % (ROWS as int)];
        assert(line.wf());
        assert(line@.len() == line.len);
    }

    /// How many line advances have happened: one less than the number
    /// of logical lines written so far.
    pub fn written(&self) -> (n: usize)
        requires
            self.wf(),
        ensures
            n + 1 == self.model().hist.len(),
    {
        self.written
    }

    /// Append a whole string: each unicode scalar is reduced to one byte
    /// (values above 255 become the sentinel 0) and appended in order.
    pub fn write_str(&mut self, s: &str)
        requires
            old(self).wf(),
            old(self).model().hist.len() + 9 * s@.len() <= usize::MAX,
        ensures
            final(self).wf(),
            final(self).model() == model_add_seq(old(self).model(), reduce_chars(s@)),
            final(self).model().hist.len() <= old(self).model().hist.len() + 9 * s@.len(),
    {
        let n = s.unicode_len();
        let mut i: usize = 0;
        while i < n
            invariant
                self.wf(),
                n == s@.len(),
                i <= n,
                old(self).model().hist.len() + 9 * s@.len() <= usize::MAX,
                self.model() == model_add_seq(old(self).model(), reduce_chars(s@.take(i as int))),
                self.model().hist.len() <= old(self).model().hist.len() + 9 * i,
            decreases n - i,
        {
            let ch = s.get_char(i);
            let b: u8 = if ch as u32 <= 255 {
                ch as u8
            } else {
                0
            };
            proof {
                assert(b == byte_of_char(s@[i as int]));
                assert(9 * i + 9 <= 9 * n) by (nonlinear_arith)
                    requires i < n,
                ;
                assert(self.model().hist.len() + 9 <= usize::MAX);
            }
            self.add(b);
            i = i + 1;
            proof {
                let t = reduce_chars(s@.take(i as int));
                assert(t.drop_last() =~= reduce_chars(s@.take(i - 1)));
                assert(t.last() == byte_of_char(s@[i - 1]));
                assert(self.model() == model_add_seq(old(self).model(), t));
            }
        }
        proof {
            assert(s@.take(n as int) =~= s@);
        }
    }

    /// The visible lines, oldest first: the newest `min(count, ROWS)`
    /// logical lines, copied out of the ring in chronological order.
    pub fn lines(&self) -> (out: Vec<Line>)
        requires
            self.wf(),
        ensures
            out@.len() == visible(self.model()).len(),
            forall|k: int|
                0 <= k < out@.len() ==> (#[trigger] out@[k]).wf() && out@[k]@ == visible(
                    self.model(),
                )[k],
    {
        let count = if self.written >= ROWS {
            ROWS
        } else {
            self.written + 1
        };
        let mut out: Vec<Line> = Vec::new();
        let mut pos: usize = 0;
        while pos < count
            invariant
                self.wf(),
                count == visible(self.model()).len(),
                count <= ROWS,
                count == if self.written >= ROWS { ROWS as int } else { self.written + 1 },
                pos <= count,
                out@.len() == pos,
                forall|k: int|
                    0 <= k < pos ==> (#[trigger] out@[k]).wf() && out@[k]@ == visible(
                        self.model(),
                    )[k],
            decreases count - pos,
        {
            let idx = if self.written >= ROWS {
                ((self.written % ROWS) + 1 + pos) % ROWS
            } else {
                pos
            };
            proof {
                let r = ROWS as int;
                let w = self.written as int;
                let n = self.history@.len() as int;
                if self.written >= ROWS {
                    let j = n - ROWS + pos;
                    vstd::arithmetic::div_mod::lemma_fundamental_div_mod(w, r);
                    let q0 = w / r;
                    let s = w % r + 1 + pos;
                    vstd::arithmetic::div_mod::lemma_mod_bound(w, r);
                    if s < r {
                        vstd::arithmetic::div_mod::lemma_small_mod(s as nat, ROWS as nat);
                        vstd::arithmetic::div_mod::lemma_fundamental_div_mod_converse_mod(
                            j,
                            r,
                            q0 - 1,
                            s,
                        );
                    } else {
                        vstd::arithmetic::div_mod::lemma_fundamental_div_mod_converse_mod(
                            s,
                            r,
                            1,
                            s - r,
                        );
                        vstd::arithmetic::div_mod::lemma_fundamental_div_mod_converse_mod(
                            j,
                            r,
                            q0,
                            s - r,
                        );
                    }
                    assert(idx == j % r);
                    assert(self.history@[j] == self.lines@[j % r]@);
                    assert(visible(self.model())[pos as int] == self.history@[j]);
                } else {
                    vstd::arithmetic::div_mod::lemma_small_mod(pos as nat, ROWS as nat);
                    assert(self.history@[pos as int] == self.lines@[pos as int % (ROWS as int)]@);
                    assert(visible(self.model())[pos as int] == self.history@[pos as int]);
                }
            }
            out.push(self.lines[idx]);
            pos = pos + 1;
        }
        out
    }
}

/// Where the visible window into the history starts.
pub open spec fn hist_floor(n: int) -> int {
    if n > ROWS {
        n - ROWS
    } else {
        0
    }
}

/// Appending one byte preserves model well-formedness: no line grows
/// past `COLS` and at least one line remains open.
pub proof fn lemma_model_add_wf(m: Model, c: u8)
    requires
        wf_model(m),
    ensures
        wf_model(model_add(m, c)),
    decreases (if c == 9 { 1int } else { 0int }),
{
    if c == 9 {
        lemma_model_add_wf(m, 32);
        lemma_model_add_wf(model_add(m, 32), 32);
        lemma_model_add_wf(model_add(model_add(m, 32), 32), 32);
        lemma_model_add_wf(model_add(model_add(model_add(m, 32), 32), 32), 32);
    }
}

/// Appending any sequence of bytes preserves model well-formedness.
pub proof fn lemma_model_add_seq_wf(m: Model, s: Seq<u8>)
    requires
        wf_model(m),
    ensures
        wf_model(model_add_seq(m, s)),
    decreases s.len(),
{
    if s.len() > 0 {
        lemma_model_add_seq_wf(m, s.drop_last());
        lemma_model_add_wf(model_add_seq(m, s.drop_last()), s.last());
    }
}

/// Capacity law: whatever byte sequence is appended to a well-formed
/// console, no visible line ever exceeds `COLS` bytes and no more than
/// `ROWS` lines are ever visible.
pub proof fn lemma_bounded_capacity(m: Model, s: Seq<u8>)
    requires
        wf_model(m),
    ensures
        visible(model_add_seq(m, s)).len() <= ROWS,
        forall|k: int|
            0 <= k < visible(model_add_seq(m, s)).len() ==> #[trigger] visible(
                model_add_seq(m, s),
            )[k].len() <= COLS,
{
    lemma_model_add_seq_wf(m, s);
    let m2 = model_add_seq(m, s);
    assert forall|k: int| 0 <= k < visible(m2).len() implies #[trigger] visible(m2)[k].len()
        <= COLS by {
        if m2.hist.len() > ROWS {
            assert(visible(m2)[k] == m2.hist[m2.hist.len() - ROWS + k]);
        }
    }
}

/// Wrap law: once more than `ROWS` logical lines exist, the visible
/// window is exactly the newest `ROWS` of them, oldest first — so after
/// `ROWS` completed lines and one more, the very first line has dropped
/// out and the rest appear in chronological order.
pub proof fn lemma_wrap_keeps_newest(m: Model)
    requires
        wf_model(m),
        m.hist.len() > ROWS,
    ensures
        visible(m).len() == ROWS,
        forall|k: int|
            0 <= k < ROWS ==> #[trigger] visible(m)[k] == m.hist[m.hist.len() - ROWS + k],
{
}

/// Deferred-newline law: with no advance already pending, a newline
/// changes no line at all — it only marks the advance as pending, so a
/// new visible line appears only once a further byte arrives.
pub proof fn lemma_newline_deferred(m: Model)
    requires
        !m.pending,
    ensures
        model_add(m, 10).hist == m.hist,
        model_add(m, 10).pending,
        visible(model_add(m, 10)) == visible(m),
{
}

/// Tab law: on the abstract state, appending a tab is exactly appending
/// four spaces in a row; rendered output therefore agrees as well, since
/// rendering depends only on the visible lines.
pub proof fn lemma_tab_is_four_spaces(m: Model)
    ensures
        model_add(m, 9) == model_add(model_add(model_add(model_add(m, 32), 32), 32), 32),
{
}

/// Two logical lines less than `ROWS` apart never share a ring slot.
proof fn lemma_distinct_slots(a: int, b: int)
    requires
        0 < b - a < ROWS,
    ensures
        a % (ROWS as int) != b % (ROWS as int),
{
    let r = ROWS as int;
    vstd::arithmetic::div_mod::lemma_mod_equivalence(a, b, r);
    vstd::arithmetic::div_mod::lemma_fundamental_div_mod_converse_mod(a - b, r, -1, r - (b - a));
}

} // verus!
