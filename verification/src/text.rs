//! The console's scrollback text area.
//!
//! Output is kept as byte lines, newest first.  Incoming text is split
//! into display-width chunks; the chunks are pushed onto the front (so the
//! tail of a long message sits on top, as the console renders it) and the
//! oldest lines beyond the window height fall off the end.

use vstd::prelude::*;

verus! {

/// Characters per display line.
pub const TEXT_WIDTH: usize = 38;

/// How many display-width chunks a text of `len` bytes splits into.
pub open spec fn chunk_count(len: nat, w: nat) -> nat
    recommends
        w > 0,
{
    (((len + w - 1) as int) / (w as int)) as nat
}

/// Chunk `k` of `s` when split into `w`-byte pieces: the last piece may be
/// short.
pub open spec fn chunk_at(s: Seq<u8>, w: nat, k: nat) -> Seq<u8>
    recommends
        w > 0,
{
    s.subrange((k * w) as int, if (k + 1) * w <= s.len() {
        ((k + 1) * w) as int
    } else {
        s.len() as int
    })
}

/// The lines a text adds, newest first: its chunks, reversed.
pub open spec fn added_lines(text: Seq<u8>, w: nat) -> Seq<Seq<u8>>
    recommends
        w > 0,
{
    Seq::new(
        chunk_count(text.len(), w),
        |m: int| chunk_at(text, w, (chunk_count(text.len(), w) - 1 - m) as nat),
    )
}

/// A scrolling window of the newest console lines.
pub struct TextArea {
    /// Lines kept, at most this many.
    pub height_lines: usize,
    /// The lines, newest first.
    pub lines: Vec<Vec<u8>>,
}

impl TextArea {
    /// The lines as mathematical byte sequences, newest first.
    pub open spec fn view_lines(&self) -> Seq<Seq<u8>> {
        self.lines@.map_values(|v: Vec<u8>| v@)
    }

    /// An empty area that keeps `lines` lines.
    pub fn new(lines: usize) -> (t: TextArea)
        ensures
            t.height_lines == lines,
            t.view_lines().len() == 0,
    {
        TextArea { height_lines: lines, lines: Vec::new() }
    }

    /// The window height, in lines.
    pub fn get_height(&self) -> (h: usize)
        ensures
            h == self.height_lines,
    {
        self.height_lines
    }

    /// The display width, in characters.
    pub fn get_width(&self) -> (w: usize)
        ensures
            w == TEXT_WIDTH,
    {
        TEXT_WIDTH
    }

    /// The stored line at position `line` (newest first), or an empty line
    /// when the position is outside the window or nothing is stored there.
    pub fn get_line(&self, line: usize) -> (l: Vec<u8>)
        ensures
            (line > self.height_lines || line >= self.view_lines().len()) ==> l@ == Seq::<
                u8,
            >::empty(),
            (line <= self.height_lines && line < self.view_lines().len()) ==> l@
                == self.view_lines()[line as int],
    {
        if line > self.height_lines {
            Vec::new()
        } else {
            if line < self.lines.len() {
                let l = self.lines[line].clone();
                proof {
                    assert(l@ =~= self.view_lines()[line as int]);
                }
                l
            } else {
                Vec::new()
            }
        }
    }

    /// Splits `text` into display-width chunks, pushes them onto the front
    /// newest-last-chunk-first, and drops the oldest lines beyond the
    /// window height.
    pub fn add_text(&mut self, text: &[u8])
        ensures
            final(self).height_lines == old(self).height_lines,
            ({
                let full = added_lines(text@, TEXT_WIDTH as nat) + old(self).view_lines();
                let keep = if full.len() <= old(self).height_lines {
                    full.len() as int
                } else {
                    old(self).height_lines as int
                };
                final(self).view_lines() == full.take(keep)
            }),
    {
        let n = text.len();
        let ghost w = TEXT_WIDTH as nat;
        let ghost total = chunk_count(text@.len(), w);
        let mut start: usize = 0;
        let ghost mut k: nat = 0nat;
        proof {
            assert(Seq::new(0nat, |m: int| chunk_at(text@, w, (0 - 1 - m) as nat)) + old(
                self,
            ).view_lines() =~= old(self).view_lines());
            if n == 0 {
                assert(chunk_count(0, w) == 0) by {
                    vstd::arithmetic::div_mod::lemma_basic_div(TEXT_WIDTH - 1, TEXT_WIDTH as int);
                }
            }
        }
        while start < n
            invariant
                n == text@.len(),
                start <= n,
                start < n ==> start == k * TEXT_WIDTH,
                k <= total,
                w == TEXT_WIDTH as nat,
                total == chunk_count(text@.len(), w),
                start < n ==> k < total,
                start >= n ==> k == total,
                self.height_lines == old(self).height_lines,
                self.view_lines() == Seq::new(
                    k as int as nat,
                    |m: int| chunk_at(text@, w, (k - 1 - m) as nat),
                ) + old(self).view_lines(),
            decreases n - start,
        {
            let end = if n - start > TEXT_WIDTH {
                start + TEXT_WIDTH
            } else {
                n
            };
            let mut line: Vec<u8> = Vec::new();
            let mut j = start;
            while j < end
                invariant
                    start <= j <= end <= n,
                    n == text@.len(),
                    line@ == text@.subrange(start as int, j as int),
                decreases end - j,
            {
                line.push(text[j]);
                proof {
                    assert(line@ =~= text@.subrange(start as int, j + 1));
                }
                j = j + 1;
            }
            let ghost prev = self.view_lines();
            self.lines.insert(0, line);
            proof {
                assert(line@ =~= chunk_at(text@, w, k));
                assert(self.view_lines() =~= seq![line@] + prev);
                let knew = (k + 1) as nat;
                assert forall|m: int| 0 <= m < knew implies (seq![line@] + prev)[m] == chunk_at(
                    text@,
                    w,
                    (knew - 1 - m) as nat,
                ) by {
                    if m > 0 {
                        assert(prev[m - 1] == chunk_at(text@, w, (k - 1 - (m - 1)) as nat));
                    }
                }
                assert(self.view_lines() =~= Seq::new(
                    knew,
                    |m: int| chunk_at(text@, w, (knew - 1 - m) as nat),
                ) + old(self).view_lines());
                vstd::arithmetic::div_mod::lemma_fundamental_div_mod(
                    (text@.len() + w - 1) as int,
                    w as int,
                );
                if end < n {
                    // more text remains: this was not the last chunk
                    assert(knew * w < text@.len());
                    assert(w * total >= text@.len());
                    assert(knew < total) by (nonlinear_arith)
                        requires
                            knew * w < text@.len(),
                            w * (total as int) >= text@.len(),
                            w > 0,
                    ;
                } else {
                    // this was the last chunk
                    let r = (text@.len() + w - 1) - (w * (k + 1));
                    assert(k * w < text@.len() <= (k + 1) * w) by (nonlinear_arith)
                        requires
                            start == k * w,
                            (start as int) < text@.len(),
                            text@.len() <= start + w,
                            w == 38,
                    ;
                    assert(0 <= r < w) by (nonlinear_arith)
                        requires
                            r == (text@.len() + w - 1) - (w * ((k + 1) as int)),
                            k * w < text@.len() <= (k + 1) * w,
                            w > 0,
                    ;
                    vstd::arithmetic::div_mod::lemma_div_multiples_vanish_fancy(
                        (k + 1) as int,
                        r as int,
                        w as int,
                    );
                    assert(knew == total);
                }
                k = knew;
            }
            start = end;
        }
        proof {
            assert(self.view_lines() =~= added_lines(text@, w) + old(self).view_lines());
        }

        let ghost full = added_lines(text@, w) + old(self).view_lines();
        proof {
            assert(self.view_lines() =~= full.take(self.view_lines().len() as int));
        }
        while self.lines.len() > self.height_lines
            invariant
                self.height_lines == old(self).height_lines,
                self.view_lines() == full.take(self.view_lines().len() as int),
                full.len() >= self.view_lines().len(),
                full.len() <= self.height_lines ==> self.view_lines().len() == full.len(),
                full.len() > self.height_lines ==> self.view_lines().len() >= self.height_lines,
            decreases self.lines@.len(),
        {
            self.lines.pop();
            proof {
                assert(self.view_lines() =~= full.take(self.view_lines().len() as int));
            }
        }
        proof {
            let keep = if full.len() <= old(self).height_lines {
                full.len() as int
            } else {
                old(self).height_lines as int
            };
            assert(self.view_lines() =~= full.take(keep));
        }
    }
}

} // verus!
