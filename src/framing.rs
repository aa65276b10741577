use vstd::prelude::*;
use vstd::string::StrSliceExecFns;
use vstd::string::StringSliceAdditionalSpecFns;

verus! {

/// The line terminator of the link protocol.
pub const NEWLINE: u8 = 10;

/// The bytes written to the link for one encoded command: the text followed
/// by one terminator.
pub fn frame_line(encoded: &str) -> (r: Vec<u8>)
    ensures
        r@ == encoded.spec_bytes().push(NEWLINE),
{
    let mut r = encoded.as_bytes_vec();
    r.push(NEWLINE);
    r
}

/// Whether a byte sequence holds the line terminator anywhere.
pub open spec fn has_terminator(bytes: Seq<u8>) -> bool {
    exists|i: int| 0 <= i < bytes.len() && bytes[i] == NEWLINE
}

/// A framed command is exactly one line: when its encoded text holds no
/// terminator, the frame ends with one and holds no other.
pub proof fn lemma_frame_is_one_line(encoded: &str)
    requires
        !has_terminator(encoded.spec_bytes()),
    ensures
        ({
            let f = encoded.spec_bytes().push(NEWLINE);
            &&& f.last() == NEWLINE
            &&& !has_terminator(f.drop_last())
        }),
{
    let f = encoded.spec_bytes().push(NEWLINE);
    assert(f.drop_last() =~= encoded.spec_bytes());
}

/// The number of bytes before the first terminator, or the whole length
/// where there is none.
pub open spec fn line_end(bytes: Seq<u8>) -> nat
    decreases bytes.len(),
{
    if bytes.len() == 0 || bytes[0] == NEWLINE {
        0
    } else {
        1 + line_end(bytes.drop_first())
    }
}

/// The complete lines that a byte stream holds, terminators removed; bytes
/// after the last terminator are not yet a line.
pub open spec fn split_lines(bytes: Seq<u8>) -> Seq<Seq<u8>>
    decreases bytes.len(),
{
    if line_end(bytes) < bytes.len() {
        seq![bytes.take(line_end(bytes) as int)].add(
            split_lines(bytes.skip(line_end(bytes) + 1int)),
        )
    } else {
        Seq::empty()
    }
}

/// The bytes on the link after writing each body as one framed line, in order.
pub open spec fn frames(bodies: Seq<Seq<u8>>) -> Seq<u8>
    decreases bodies.len(),
{
    if bodies.len() == 0 {
        Seq::empty()
    } else {
        bodies[0].push(NEWLINE) + frames(bodies.drop_first())
    }
}

proof fn lemma_line_end_concat(s: Seq<u8>, t: Seq<u8>)
    requires
        !has_terminator(s),
    ensures
        line_end(s + t) == s.len() + line_end(t),
    decreases s.len(),
{
    if s.len() > 0 {
        assert((s + t)[0] == s[0]);
        assert(!has_terminator(s.drop_first())) by {
            if has_terminator(s.drop_first()) {
                let i = choose|i: int| 0 <= i < s.drop_first().len() && s.drop_first()[i] == NEWLINE;
                assert(s[i + 1] == NEWLINE);
            }
        }
        assert((s + t).drop_first() =~= s.drop_first() + t);
        lemma_line_end_concat(s.drop_first(), t);
    } else {
        assert(s + t =~= t);
    }
}

/// Whole lines written one after another, in any order, read back as exactly
/// those lines: where no body holds a terminator, the stream of their frames
/// splits into the bodies themselves, none cut or merged with another.
pub proof fn lemma_framed_lines_stay_intact(bodies: Seq<Seq<u8>>)
    requires
        forall|i: int| 0 <= i < bodies.len() ==> !has_terminator(#[trigger] bodies[i]),
    ensures
        split_lines(frames(bodies)) == bodies,
    decreases bodies.len(),
{
    if bodies.len() == 0 {
        assert(split_lines(frames(bodies)) =~= bodies);
    } else {
        let b = bodies[0];
        let rest = frames(bodies.drop_first());
        let f = frames(bodies);
        assert(f =~= b + (seq![NEWLINE] + rest));
        lemma_line_end_concat(b, seq![NEWLINE] + rest);
        assert(line_end(seq![NEWLINE] + rest) == 0);
        assert(f.take(b.len() as int) =~= b);
        assert(f.skip(b.len() + 1int) =~= rest);
        assert forall|i: int| 0 <= i < bodies.drop_first().len() implies !has_terminator(
            #[trigger] bodies.drop_first()[i],
        ) by {
            assert(bodies.drop_first()[i] == bodies[i + 1]);
        }
        lemma_framed_lines_stay_intact(bodies.drop_first());
        assert(split_lines(f) =~= bodies);
    }
}

/// What is left of a byte stream after its complete lines: the start of a
/// line whose terminator has not come yet.
pub open spec fn rest_after_lines(bytes: Seq<u8>) -> Seq<u8>
    decreases bytes.len(),
{
    if line_end(bytes) < bytes.len() {
        rest_after_lines(bytes.skip(line_end(bytes) + 1int))
    } else {
        bytes
    }
}

proof fn lemma_no_terminator_no_lines(s: Seq<u8>)
    requires
        !has_terminator(s),
    ensures
        split_lines(s) == Seq::<Seq<u8>>::empty(),
        rest_after_lines(s) == s,
{
    lemma_line_end_concat(s, Seq::empty());
    assert(s + Seq::<u8>::empty() =~= s);
}

/// Gathers the bytes read from the link into complete lines.
pub struct LineBuffer {
    pending: Vec<u8>,
}

impl View for LineBuffer {
    type V = Seq<u8>;

    /// The bytes of the line that has begun but not ended.
    closed spec fn view(&self) -> Seq<u8> {
        self.pending@
    }
}

impl LineBuffer {
    /// Holds no unfinished line that already contains a terminator.
    pub open spec fn wf(&self) -> bool {
        !has_terminator(self@)
    }

    /// A buffer with nothing pending.
    pub fn new() -> (r: LineBuffer)
        ensures
            r@ == Seq::<u8>::empty(),
            r.wf(),
    {
        LineBuffer { pending: Vec::new() }
    }

    /// Adds the bytes of one read and returns the lines that they complete,
    /// in order and without their terminators; the rest stays pending.
    pub fn push(&mut self, bytes: &[u8]) -> (r: Vec<Vec<u8>>)
        requires
            old(self).wf(),
        ensures
            r@.map_values(|l: Vec<u8>| l@) == split_lines(old(self)@ + bytes@),
            final(self)@ == rest_after_lines(old(self)@ + bytes@),
            final(self).wf(),
    {
        let ghost all = self@ + bytes@;
        let mut lines: Vec<Vec<u8>> = Vec::new();
        let mut i: usize = 0;
        proof {
            assert(bytes@.skip(0) =~= bytes@);
        }
        while i < bytes.len()
            invariant
                i <= bytes@.len(),
                !has_terminator(self@),
                split_lines(all) == lines@.map_values(|l: Vec<u8>| l@) + split_lines(
                    self@ + bytes@.skip(i as int),
                ),
                rest_after_lines(all) == rest_after_lines(self@ + bytes@.skip(i as int)),
            decreases bytes@.len() - i,
        {
            let c = bytes[i];
            let ghost x = self@ + bytes@.skip(i as int);
            let ghost next = bytes@.skip(i + 1int);
            proof {
                assert(bytes@.skip(i as int) =~= seq![c] + next);
                assert(x =~= self@ + (seq![c] + next));
            }
            if c == NEWLINE {
                let ghost p = self@;
                proof {
                    lemma_line_end_concat(p, seq![c] + next);
                    assert(line_end(seq![c] + next) == 0);
                    assert(x.take(p.len() as int) =~= p);
                    assert(x.skip(p.len() + 1int) =~= next);
                }
                let ghost before = lines@;
                let mut line: Vec<u8> = Vec::new();
                std::mem::swap(&mut line, &mut self.pending);
                lines.push(line);
                proof {
                    assert(self@ + next =~= next);
                    assert(lines@.map_values(|l: Vec<u8>| l@) =~= before.map_values(
                        |l: Vec<u8>| l@,
                    ).push(p));
                }
            } else {
                self.pending.push(c);
                proof {
                    assert(self@ + next =~= x);
                    assert(!has_terminator(self@)) by {
                        if has_terminator(self@) {
                            let j = choose|j: int| 0 <= j < self@.len() && self@[j] == NEWLINE;
                            assert(j < self@.len() - 1);
                        }
                    }
                }
            }
            i = i + 1;
        }
        proof {
            assert(bytes@.skip(i as int) =~= Seq::<u8>::empty());
            assert(self@ + Seq::<u8>::empty() =~= self@);
            lemma_no_terminator_no_lines(self@);
            assert(lines@.map_values(|l: Vec<u8>| l@) + Seq::<Seq<u8>>::empty()
                =~= lines@.map_values(|l: Vec<u8>| l@));
        }
        lines
    }
}

} // verus!
