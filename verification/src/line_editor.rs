//! Line editing of the serial console: bytes arrive one at a time, are echoed,
//! and a carriage return hands the collected line on.
use vstd::prelude::*;

verus! {

/// Carriage return: ends a line.
pub const CARRIAGE_RETURN: u8 = 13;

/// Line feed: echoed, never stored.
pub const LINE_FEED: u8 = 10;

/// DEL, sent by the backspace key: removes the last stored byte.
pub const DELETE: u8 = 127;

/// A line that reaches this many bytes is dropped with an error.
pub const LINE_LIMIT: usize = 127;

/// What feeding one received byte produced.
pub struct Feed {
    /// Bytes to send back to the terminal.
    pub echo: Vec<u8>,
    /// The finished line, when the byte was a carriage return.
    pub line: Option<Vec<u8>>,
    /// The line grew to the limit and was dropped; an error is to be reported.
    pub overflow: bool,
}

/// The view of an optional line.
pub open spec fn line_view(line: Option<Vec<u8>>) -> Option<Seq<u8>> {
    match line {
        Some(l) => Some(l@),
        None => None,
    }
}

/// The effect of one received byte on the stored line `buf`: the new stored
/// line, the echo, the finished line and whether the line overflowed.
pub open spec fn spec_feed(buf: Seq<u8>, byte: u8) -> (Seq<u8>, Seq<u8>, Option<Seq<u8>>, bool) {
    if byte == CARRIAGE_RETURN {
        (Seq::empty(), seq![CARRIAGE_RETURN, LINE_FEED], Some(buf), false)
    } else if byte == LINE_FEED {
        (buf, seq![LINE_FEED], None, false)
    } else if byte == DELETE {
        if buf.len() > 0 {
            (buf.drop_last(), seq![DELETE], None, false)
        } else {
            (buf, Seq::empty(), None, false)
        }
    } else if buf.len() + 1 == LINE_LIMIT {
        (Seq::empty(), seq![byte], None, true)
    } else {
        (buf.push(byte), seq![byte], None, false)
    }
}

/// A byte that is stored as typed: not a carriage return, line feed or DEL.
pub open spec fn is_ordinary(byte: u8) -> bool {
    byte != CARRIAGE_RETURN && byte != LINE_FEED && byte != DELETE
}

/// The stored line after feeding `bytes` one after another, starting from `buf`.
pub open spec fn spec_feed_all(buf: Seq<u8>, bytes: Seq<u8>) -> Seq<u8>
    decreases bytes.len(),
{
    if bytes.len() == 0 {
        buf
    } else {
        spec_feed(spec_feed_all(buf, bytes.drop_last()), bytes.last()).0
    }
}

/// Typing ordinary bytes that keep the line below the limit appends them to
/// the line, and a carriage return then hands over exactly that line and
/// leaves the editor empty.
pub proof fn lemma_typed_line_is_returned(buf: Seq<u8>, bytes: Seq<u8>)
    requires
        buf.len() + bytes.len() < LINE_LIMIT,
        forall|i: int| 0 <= i < bytes.len() ==> is_ordinary(#[trigger] bytes[i]),
    ensures
        spec_feed_all(buf, bytes) == buf + bytes,
        spec_feed(spec_feed_all(buf, bytes), CARRIAGE_RETURN).2 == Some(buf + bytes),
        spec_feed(spec_feed_all(buf, bytes), CARRIAGE_RETURN).0 == Seq::<u8>::empty(),
    decreases bytes.len(),
{
    if bytes.len() > 0 {
        let init = bytes.drop_last();
        assert forall|i: int| 0 <= i < init.len() implies is_ordinary(#[trigger] init[i]) by {
            assert(init[i] == bytes[i]);
        }
        lemma_typed_line_is_returned(buf, init);
        assert(is_ordinary(bytes[bytes.len() - 1]));
        assert((buf + init).push(bytes.last()) =~= buf + bytes);
    } else {
        assert(buf + bytes =~= buf);
    }
}

/// DEL right after an ordinary byte that did not overflow the line undoes
/// that byte, echoing it and then DEL.
pub proof fn lemma_delete_undoes_byte(buf: Seq<u8>, byte: u8)
    requires
        is_ordinary(byte),
        buf.len() + 1 < LINE_LIMIT,
    ensures
        spec_feed(spec_feed(buf, byte).0, DELETE).0 == buf,
        spec_feed(buf, byte).1 + spec_feed(spec_feed(buf, byte).0, DELETE).1 == seq![byte, DELETE],
{
    assert(buf.push(byte).drop_last() =~= buf);
    assert(seq![byte] + seq![DELETE] =~= seq![byte, DELETE]);
}

/// Only a carriage return finishes a line, and it hands over exactly the
/// stored line; no other byte hands anything to the menu.
pub proof fn lemma_only_return_finishes_line(buf: Seq<u8>, byte: u8)
    ensures
        byte != 13 ==> spec_feed(buf, byte).2 is None,
        byte == 13 ==> spec_feed(buf, byte).2 == Some(buf),
        byte == 13 ==> spec_feed(buf, byte).0.len() == 0,
{
}

/// DEL removes the last stored byte when there is one and echoes DEL;
/// otherwise it changes nothing and echoes nothing.
pub proof fn lemma_delete_removes_last(buf: Seq<u8>)
    ensures
        buf.len() > 0 ==> spec_feed(buf, 127).0 == buf.subrange(0, buf.len() - 1),
        buf.len() > 0 ==> spec_feed(buf, 127).1 == seq![127u8],
        buf.len() == 0 ==> spec_feed(buf, 127).0 == buf,
        buf.len() == 0 ==> spec_feed(buf, 127).1.len() == 0,
        !spec_feed(buf, 127).3,
{
}

/// A line feed is echoed and changes nothing.
pub proof fn lemma_line_feed_keeps_line(buf: Seq<u8>)
    ensures
        spec_feed(buf, LINE_FEED).0 == buf,
        spec_feed(buf, LINE_FEED).2 is None,
        !spec_feed(buf, LINE_FEED).3,
{
}

/// The line being typed on the serial console.
pub struct LineEditor {
    buffer: Vec<u8>,
}

impl View for LineEditor {
    type V = Seq<u8>;

    closed spec fn view(&self) -> Seq<u8> {
        self.buffer@
    }
}

impl LineEditor {
    /// The stored line is always shorter than the limit.
    #[verifier::type_invariant]
    closed spec fn below_limit(&self) -> bool {
        self.buffer.len() < LINE_LIMIT
    }

    /// An editor with nothing typed yet.
    pub fn new() -> (e: LineEditor)
        ensures
            e@ == Seq::<u8>::empty(),
    {
        LineEditor { buffer: Vec::new() }
    }

    /// The number of bytes typed so far.
    pub fn len(&self) -> (n: usize)
        ensures
            n == self@.len(),
            n < LINE_LIMIT,
    {
        proof {
            use_type_invariant(self);
        }
        self.buffer.len()
    }

    /// Take one received byte: a carriage return finishes the line, a line
    /// feed is only echoed, DEL removes the last byte (echoing DEL when there
    /// was one), and any other byte is echoed and stored; a line that would
    /// reach the limit is dropped instead and reported as an overflow.
    pub fn feed(&mut self, byte: u8) -> (r: Feed)
        ensures
            final(self)@.len() < LINE_LIMIT,
            (final(self)@, r.echo@, line_view(r.line), r.overflow) == spec_feed(old(self)@, byte),
    {
        proof {
            use_type_invariant(&*self);
        }
        if byte == CARRIAGE_RETURN {
            let mut line: Vec<u8> = Vec::new();
            std::mem::swap(&mut line, &mut self.buffer);
            let echo: Vec<u8> = vec![CARRIAGE_RETURN, LINE_FEED];
            proof {
                use_type_invariant(&*self);
            }
            Feed { echo, line: Some(line), overflow: false }
        } else if byte == LINE_FEED {
            Feed { echo: vec![LINE_FEED], line: None, overflow: false }
        } else if byte == DELETE {
            if self.buffer.len() > 0 {
                let mut b: Vec<u8> = Vec::new();
                std::mem::swap(&mut b, &mut self.buffer);
                let _ = b.pop();
                self.buffer = b;
                proof {
                    use_type_invariant(&*self);
                }
                Feed { echo: vec![DELETE], line: None, overflow: false }
            } else {
                Feed { echo: Vec::new(), line: None, overflow: false }
            }
        } else if self.buffer.len() + 1 == LINE_LIMIT {
            self.buffer = Vec::new();
            proof {
                use_type_invariant(&*self);
            }
            Feed { echo: vec![byte], line: None, overflow: true }
        } else {
            let mut b: Vec<u8> = Vec::new();
            std::mem::swap(&mut b, &mut self.buffer);
            b.push(byte);
            self.buffer = b;
            proof {
                use_type_invariant(&*self);
            }
            Feed { echo: vec![byte], line: None, overflow: false }
        }
    }
}

} // verus!
