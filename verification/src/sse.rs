//! SSE line splitting.
//!
//! Provider streams arrive as arbitrarily sized byte chunks whose text forms
//! newline-terminated lines.  [`LineSplitter`] consumes chunks and yields the
//! complete, whitespace-trimmed lines, keeping any trailing partial line in
//! an internal carry buffer until the next chunk (or [`LineSplitter::finish`])
//! completes it.
//!
//! The model is a left-to-right scan: `lines_of(s, cur)` is the sequence of
//! trimmed lines produced by scanning `s` with a pending partial line `cur`,
//! and `carry_of(s, cur)` is the partial line left over.  The lemma
//! [`lemma_chunks_lines`] shows that feeding a stream in any chunking yields
//! exactly the lines of the whole stream: where the chunk boundaries fall
//! does not matter.

use vstd::prelude::*;

use crate::strutil::{trim_str, trimmed};

verus! {

/// The trimmed lines completed by scanning `s` with pending partial line `cur`.
pub open spec fn lines_of(s: Seq<char>, cur: Seq<char>) -> Seq<Seq<char>>
    decreases s.len(),
{
    if s.len() == 0 {
        Seq::empty()
    } else if s[0] == '\n' {
        seq![trimmed(cur)] + lines_of(s.drop_first(), Seq::empty())
    } else {
        lines_of(s.drop_first(), cur.push(s[0]))
    }
}

/// The partial line left over after scanning `s` with pending partial line `cur`.
pub open spec fn carry_of(s: Seq<char>, cur: Seq<char>) -> Seq<char>
    decreases s.len(),
{
    if s.len() == 0 {
        cur
    } else if s[0] == '\n' {
        carry_of(s.drop_first(), Seq::empty())
    } else {
        carry_of(s.drop_first(), cur.push(s[0]))
    }
}

/// Whether `s` contains a line break.
pub open spec fn has_newline(s: Seq<char>) -> bool {
    exists|i: int| 0 <= i < s.len() && s[i] == '\n'
}

/// Scanning one more character either completes the pending line (on a
/// newline) or extends it.
proof fn lemma_scan_push(s: Seq<char>, cur: Seq<char>, c: char)
    ensures
        c == '\n' ==> lines_of(s.push(c), cur) == lines_of(s, cur).push(
            trimmed(carry_of(s, cur)),
        ),
        c == '\n' ==> carry_of(s.push(c), cur) == Seq::<char>::empty(),
        c != '\n' ==> lines_of(s.push(c), cur) == lines_of(s, cur),
        c != '\n' ==> carry_of(s.push(c), cur) == carry_of(s, cur).push(c),
    decreases s.len(),
{
    if s.len() == 0 {
        let sc = s.push(c);
        assert(sc[0] == c);
        assert(sc.drop_first() =~= Seq::<char>::empty());
        assert(lines_of(Seq::<char>::empty(), Seq::<char>::empty())
            == Seq::<Seq<char>>::empty());
        assert(carry_of(Seq::<char>::empty(), Seq::<char>::empty()) == Seq::<char>::empty());
        assert(lines_of(Seq::<char>::empty(), cur.push(c)) == Seq::<Seq<char>>::empty());
        assert(carry_of(Seq::<char>::empty(), cur.push(c)) == cur.push(c));
        if c == '\n' {
            assert(lines_of(sc, cur) =~= lines_of(s, cur).push(trimmed(carry_of(s, cur))));
        }
    } else {
        let sc = s.push(c);
        assert(sc[0] == s[0]);
        assert(sc.drop_first() =~= s.drop_first().push(c));
        if s[0] == '\n' {
            lemma_scan_push(s.drop_first(), Seq::empty(), c);
            if c == '\n' {
                assert(lines_of(sc, cur) =~= lines_of(s, cur).push(trimmed(carry_of(s, cur))));
            } else {
                assert(lines_of(sc, cur) =~= lines_of(s, cur));
            }
        } else {
            lemma_scan_push(s.drop_first(), cur.push(s[0]), c);
            if c == '\n' {
                assert(lines_of(sc, cur) =~= lines_of(s, cur).push(trimmed(carry_of(s, cur))));
            }
        }
    }
}

/// Splitting distributes over concatenation: scanning `s + t` completes the
/// lines of `s` and then the lines of `t` started from the carry of `s`.
pub proof fn lemma_lines_concat(s: Seq<char>, t: Seq<char>, cur: Seq<char>)
    ensures
        lines_of(s + t, cur) == lines_of(s, cur) + lines_of(t, carry_of(s, cur)),
        carry_of(s + t, cur) == carry_of(t, carry_of(s, cur)),
    decreases s.len(),
{
    if s.len() == 0 {
        assert(s + t =~= t);
        assert(lines_of(s, cur) + lines_of(t, cur) =~= lines_of(t, cur));
    } else {
        assert((s + t)[0] == s[0]);
        assert((s + t).drop_first() =~= s.drop_first() + t);
        if s[0] == '\n' {
            lemma_lines_concat(s.drop_first(), t, Seq::empty());
            assert(lines_of(s + t, cur) =~= lines_of(s, cur) + lines_of(
                t,
                carry_of(s, cur),
            ));
        } else {
            lemma_lines_concat(s.drop_first(), t, cur.push(s[0]));
        }
    }
}

/// A carry never contains a line break.
proof fn lemma_carry_no_newline(s: Seq<char>, cur: Seq<char>)
    requires
        !has_newline(cur),
    ensures
        !has_newline(carry_of(s, cur)),
    decreases s.len(),
{
    if s.len() > 0 {
        if s[0] == '\n' {
            lemma_carry_no_newline(s.drop_first(), Seq::empty());
        } else {
            assert(!has_newline(cur.push(s[0]))) by {
                assert(forall|i: int|
                    0 <= i < cur.push(s[0]).len() - 1 ==> cur.push(s[0])[i] == cur[i]);
            }
            lemma_carry_no_newline(s.drop_first(), cur.push(s[0]));
        }
    }
}

/// A newline-free buffer prepended to the input acts exactly as a pending
/// partial line.
proof fn lemma_buffer_as_cur(buf: Seq<char>, t: Seq<char>, cur: Seq<char>)
    requires
        !has_newline(buf),
    ensures
        lines_of(buf + t, cur) == lines_of(t, cur + buf),
        carry_of(buf + t, cur) == carry_of(t, cur + buf),
    decreases buf.len(),
{
    if buf.len() == 0 {
        assert(buf + t =~= t);
        assert(cur + buf =~= cur);
    } else {
        assert(buf[0] != '\n');
        assert((buf + t)[0] == buf[0]);
        assert((buf + t).drop_first() =~= buf.drop_first() + t);
        assert(!has_newline(buf.drop_first())) by {
            assert(forall|i: int|
                0 <= i < buf.drop_first().len() ==> buf.drop_first()[i] == buf[i + 1]);
        }
        lemma_buffer_as_cur(buf.drop_first(), t, cur.push(buf[0]));
        assert(cur.push(buf[0]) + buf.drop_first() =~= cur + buf);
    }
}

/// The lines completed by feeding `chunks` one after another to a splitter
/// whose pending partial line is `cur`.
pub open spec fn chunks_lines(chunks: Seq<Seq<char>>, cur: Seq<char>) -> Seq<Seq<char>>
    decreases chunks.len(),
{
    if chunks.len() == 0 {
        Seq::empty()
    } else {
        lines_of(chunks.first(), cur) + chunks_lines(
            chunks.drop_first(),
            carry_of(chunks.first(), cur),
        )
    }
}

/// The partial line left over after feeding `chunks` one after another.
pub open spec fn chunks_carry(chunks: Seq<Seq<char>>, cur: Seq<char>) -> Seq<char>
    decreases chunks.len(),
{
    if chunks.len() == 0 {
        cur
    } else {
        chunks_carry(chunks.drop_first(), carry_of(chunks.first(), cur))
    }
}

/// Line-splitting correctness: feeding a stream chunk by chunk yields exactly
/// the lines of the whole stream, however the chunk boundaries fall, and
/// leaves the same partial line pending.
pub proof fn lemma_chunks_lines(chunks: Seq<Seq<char>>, cur: Seq<char>)
    ensures
        chunks_lines(chunks, cur) == lines_of(chunks.flatten(), cur),
        chunks_carry(chunks, cur) == carry_of(chunks.flatten(), cur),
    decreases chunks.len(),
{
    if chunks.len() == 0 {
        assert(chunks.flatten() =~= Seq::<char>::empty());
        assert(chunks_lines(chunks, cur) =~= lines_of(chunks.flatten(), cur));
    } else {
        lemma_chunks_lines(chunks.drop_first(), carry_of(chunks.first(), cur));
        lemma_lines_concat(chunks.first(), chunks.drop_first().flatten(), cur);
        assert(chunks.flatten() == chunks.first() + chunks.drop_first().flatten());
    }
}

/// Splits a chunked character stream into complete, trimmed lines, keeping
/// the trailing partial line across chunk boundaries.
pub struct LineSplitter {
    buf: String,
}

impl View for LineSplitter {
    type V = Seq<char>;

    /// The pending partial line.
    closed spec fn view(&self) -> Seq<char> {
        self.buf@
    }
}

impl LineSplitter {
    /// The pending partial line never contains a line break.
    #[verifier::type_invariant]
    spec fn inv(self) -> bool {
        !has_newline(self.buf@)
    }

    /// A splitter with an empty carry buffer.
    pub fn new() -> (r: Self)
        ensures
            r@ == Seq::<char>::empty(),
    {
        let buf = String::new();
        proof {
            assert(!has_newline(buf@));
        }
        LineSplitter { buf }
    }

    /// Appends `chunk` to the carry buffer and returns every line completed
    /// by it, trimmed, in stream order; the trailing partial line stays
    /// buffered.
    pub fn feed(&mut self, chunk: &str) -> (lines: Vec<String>)
        ensures
            lines@.map_values(|l: String| l@) == lines_of(chunk@, old(self)@),
            final(self)@ == carry_of(chunk@, old(self)@),
    {
        proof {
            use_type_invariant(&*self);
        }
        let ghost buf0 = self.buf@;
        let combined = self.buf.clone().concat(chunk);
        let n = combined.as_str().unicode_len();
        let mut lines: Vec<String> = Vec::new();
        let mut start: usize = 0;
        let mut i: usize = 0;
        while i < n
            invariant
                0 <= start <= i <= n,
                n == combined@.len(),
                lines@.map_values(|l: String| l@) == lines_of(combined@.take(i as int), Seq::<char>::empty()),
                carry_of(combined@.take(i as int), Seq::<char>::empty()) == combined@.subrange(
                    start as int,
                    i as int,
                ),
            decreases n - i,
        {
            let c = combined.as_str().get_char(i);
            proof {
                assert(combined@.take(i as int + 1) =~= combined@.take(i as int).push(c));
                lemma_scan_push(combined@.take(i as int), Seq::empty(), c);
            }
            if c == '\n' {
                let line = combined.as_str().substring_char(start, i);
                let t = trim_str(line);
                proof {
                    assert(line@ == combined@.subrange(start as int, i as int));
                }
                lines.push(t);
                proof {
                    assert(lines@.map_values(|l: String| l@) =~= lines_of(
                        combined@.take(i as int + 1),
                        Seq::<char>::empty(),
                    ));
                    assert(combined@.subrange(i as int + 1, i as int + 1)
                        =~= Seq::<char>::empty());
                }
                start = i + 1;
            } else {
                proof {
                    assert(combined@.subrange(start as int, i as int).push(c)
                        =~= combined@.subrange(start as int, i as int + 1));
                }
            }
            i += 1;
        }
        let rest = combined.as_str().substring_char(start, n);
        let rest_string = String::from_str(rest);
        proof {
            assert(combined@.take(n as int) =~= combined@);
            assert(combined@ == buf0 + chunk@);
            lemma_buffer_as_cur(buf0, chunk@, Seq::empty());
            assert(Seq::<char>::empty() + buf0 =~= buf0);
            assert(rest_string@ == carry_of(chunk@, buf0));
            lemma_carry_no_newline(chunk@, buf0);
        }
        self.buf = rest_string;
        proof {
            assert(lines_of(combined@, Seq::<char>::empty()) == lines_of(chunk@, buf0));
        }
        lines
    }

    /// Flushes the carry buffer at end of stream: provider streams are not
    /// guaranteed to end with a newline, so a non-blank leftover is handed
    /// out as one final trimmed line.
    pub fn finish(&mut self) -> (last: Option<String>)
        ensures
            final(self)@ == Seq::<char>::empty(),
            trimmed(old(self)@).len() > 0 ==> (last matches Some(l) && l@ == trimmed(old(self)@)),
            trimmed(old(self)@).len() == 0 ==> last is None,
    {
        let t = trim_str(self.buf.as_str());
        let empty = String::new();
        proof {
            assert(!has_newline(empty@));
        }
        self.buf = empty;
        if t.as_str().unicode_len() > 0 {
            Some(t)
        } else {
            None
        }
    }
}

} // verus!
