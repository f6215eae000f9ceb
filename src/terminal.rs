//! The two pseudo-files that stand for the guest's output streams: the
//! interactive terminal and the diagnostic log.
use vstd::prelude::*;

use crate::tty::TtyOptions;
use crate::utf8::{decode_lossy, decode_utf8, lossy_text, utf8_text, valid_utf8};

verus! {

/// How many bytes a pseudo-file reports itself ready to take.
pub const WRITE_READY_HINT: usize = 8192;

/// A command for the terminal renderer.
#[derive(Debug)]
pub enum TerminalCommandRx {
    Print(String),
    Cls,
}

/// The text that a command prints, if it prints any.
pub open spec fn printed(c: Option<TerminalCommandRx>) -> Option<Seq<char>> {
    match c {
        Some(TerminalCommandRx::Print(t)) => Some(t@),
        _ => None,
    }
}

/// Each line feed expanded to a carriage return and a line feed.
pub open spec fn crlf(s: Seq<u8>) -> Seq<u8>
    decreases s.len(),
{
    if s.len() == 0 {
        Seq::empty()
    } else {
        let rest = crlf(s.drop_last());
        if s.last() == 0x0A {
            rest + seq![0x0Du8, 0x0Au8]
        } else {
            rest.push(s.last())
        }
    }
}

/// No byte of `s` is a line feed.
pub open spec fn no_line_feed(s: Seq<u8>) -> bool {
    forall|i: int| 0 <= i < s.len() ==> s[i] != 0x0A
}

proof fn lemma_crlf_empty()
    ensures
        crlf(Seq::<u8>::empty()) == Seq::<u8>::empty(),
{
}

proof fn lemma_crlf_unit(x: u8)
    ensures
        crlf(seq![x]) == (if x == 0x0A {
            seq![0x0Du8, 0x0Au8]
        } else {
            seq![x]
        }),
{
    assert(seq![x].drop_last() =~= Seq::<u8>::empty());
    lemma_crlf_empty();
    assert(Seq::<u8>::empty() + seq![0x0Du8, 0x0Au8] =~= seq![0x0Du8, 0x0Au8]);
    assert(Seq::<u8>::empty().push(x) =~= seq![x]);
}

proof fn lemma_crlf_concat(a: Seq<u8>, b: Seq<u8>)
    ensures
        crlf(a + b) == crlf(a) + crlf(b),
    decreases b.len(),
{
    if b.len() == 0 {
        assert(a + b =~= a);
        lemma_crlf_empty();
        assert(crlf(a) + crlf(b) =~= crlf(a));
    } else {
        let ab = a + b;
        assert(ab.drop_last() =~= a + b.drop_last());
        assert(ab.last() == b.last());
        lemma_crlf_concat(a, b.drop_last());
        if b.last() == 0x0A {
            assert(crlf(a) + crlf(b.drop_last()) + seq![0x0Du8, 0x0Au8] =~= crlf(a) + (crlf(
                b.drop_last(),
            ) + seq![0x0Du8, 0x0Au8]));
        } else {
            assert((crlf(a) + crlf(b.drop_last())).push(b.last()) =~= crlf(a) + crlf(
                b.drop_last(),
            ).push(b.last()));
        }
    }
}

proof fn lemma_crlf_no_line_feed(s: Seq<u8>)
    requires
        no_line_feed(s),
    ensures
        crlf(s) == s,
    decreases s.len(),
{
    if s.len() > 0 {
        assert(no_line_feed(s.drop_last()));
        lemma_crlf_no_line_feed(s.drop_last());
        assert(s.drop_last().push(s.last()) =~= s);
    }
}

/// Expanding line feeds keeps well-formed UTF-8 well-formed, and ill-formed
/// bytes ill-formed: carriage return and line feed are single-byte
/// characters, and no multi-byte sequence holds either.
pub proof fn lemma_crlf_keeps_validity(s: Seq<u8>)
    ensures
        valid_utf8(crlf(s)) == valid_utf8(s),
    decreases s.len(),
{
    if s.len() > 0 {
        let b0 = s[0];
        let c = crlf(s);
        if b0 < 0x80 {
            let r = s.subrange(1, s.len() as int);
            assert(s =~= seq![b0] + r);
            lemma_crlf_concat(seq![b0], r);
            lemma_crlf_unit(b0);
            lemma_crlf_keeps_validity(r);
            assert(valid_utf8(s) == valid_utf8(r));
            if b0 == 0x0A {
                let t = seq![0x0Au8] + crlf(r);
                assert(c =~= seq![0x0Du8] + t);
                assert(c.subrange(1, c.len() as int) =~= t);
                assert(t.subrange(1, t.len() as int) =~= crlf(r));
                assert(valid_utf8(t) == valid_utf8(crlf(r)));
                assert(valid_utf8(c) == valid_utf8(t));
            } else {
                assert(c =~= seq![b0] + crlf(r));
                assert(c.subrange(1, c.len() as int) =~= crlf(r));
                assert(valid_utf8(c) == valid_utf8(crlf(r)));
            }
        } else {
            let k: int = if b0 <= 0xDF {
                2
            } else if b0 <= 0xEF {
                3
            } else {
                4
            };
            let n: int = if s.len() < k {
                s.len() as int
            } else {
                k
            };
            let p = s.subrange(0, n);
            let r = s.subrange(n, s.len() as int);
            assert(s =~= p + r);
            lemma_crlf_concat(p, r);
            if no_line_feed(p) {
                lemma_crlf_no_line_feed(p);
                lemma_crlf_keeps_validity(r);
                assert(c.subrange(n, c.len() as int) =~= crlf(r));
                assert(s.subrange(n, s.len() as int) =~= r);
                if n < k {
                    assert(r =~= Seq::<u8>::empty());
                    lemma_crlf_empty();
                }
            } else {
                let j: int = if p[1] == 0x0A {
                    1
                } else if p[2] == 0x0A {
                    2
                } else {
                    3
                };
                let q = p.subrange(0, j);
                let t = p.subrange(j + 1, n);
                assert(p =~= q + seq![0x0Au8] + t);
                assert(no_line_feed(q));
                lemma_crlf_concat(q + seq![0x0Au8], t);
                lemma_crlf_concat(q, seq![0x0Au8]);
                lemma_crlf_unit(0x0A);
                lemma_crlf_no_line_feed(q);
                assert(c[j] == 0x0D);
                assert(c.len() > j);
            }
        }
    }
}

/// The bytes that the terminal file forwards for a write.
pub open spec fn term_bytes(line_feeds: bool, data: Seq<u8>) -> Seq<u8> {
    if line_feeds {
        crlf(data)
    } else {
        data
    }
}

/// The text that the terminal file prints for a write: nothing when the
/// forwarded bytes are not well-formed UTF-8.
pub open spec fn term_output(line_feeds: bool, data: Seq<u8>) -> Option<Seq<char>> {
    let b = term_bytes(line_feeds, data);
    if valid_utf8(b) {
        Some(utf8_text(b))
    } else {
        None
    }
}

/// Expands every line feed of `data` into a carriage return and a line feed.
pub fn translate_line_feeds(data: &[u8]) -> (r: Vec<u8>)
    ensures
        r@ == crlf(data@),
{
    let mut out: Vec<u8> = Vec::new();
    let mut i: usize = 0;
    while i < data.len()
        invariant
            i <= data@.len(),
            out@ == crlf(data@.subrange(0, i as int)),
        decreases data@.len() - i,
    {
        let b = data[i];
        assert(data@.subrange(0, i + 1).drop_last() =~= data@.subrange(0, i as int));
        if b == 0x0A {
            out.push(0x0D);
            out.push(0x0A);
        } else {
            out.push(b);
        }
        i = i + 1;
        assert(out@ =~= crlf(data@.subrange(0, i as int)));
    }
    assert(data@.subrange(0, data@.len() as int) =~= data@);
    out
}

/// The interactive terminal file. Its writes go to the renderer as print
/// commands; nothing can ever be read from it.
#[derive(Debug, Clone, Copy)]
pub struct TermStdout {}

impl TermStdout {
    pub fn new() -> TermStdout {
        TermStdout {  }
    }

    /// The command that a write of `data` sends to the renderer under the
    /// configuration `tty`: the translated bytes as one print, or nothing
    /// where they are not well-formed text.
    pub fn term_write(&self, tty: &TtyOptions, data: &[u8]) -> (r: Option<TerminalCommandRx>)
        ensures
            printed(r) == term_output(tty.line_feeds, data@),
            r is Some ==> r->Some_0 is Print,
            r is None <==> !valid_utf8(data@),
    {
        proof {
            lemma_crlf_keeps_validity(data@);
        }
        let bytes = if tty.line_feeds {
            translate_line_feeds(data)
        } else {
            vstd::slice::slice_to_vec(data)
        };
        match decode_utf8(bytes) {
            Some(text) => Some(TerminalCommandRx::Print(text)),
            None => None,
        }
    }

    /// A write of `buf`: the whole of it is reported written, whether or
    /// not it could be printed.
    pub fn poll_write(&self, tty: &TtyOptions, buf: &[u8]) -> (r: (usize, Option<TerminalCommandRx>))
        ensures
            r.0 == buf@.len(),
            printed(r.1) == term_output(tty.line_feeds, buf@),
            r.1 is Some ==> r.1->Some_0 is Print,
            r.1 is None <==> !valid_utf8(buf@),
    {
        let cmd = self.term_write(tty, buf);
        (buf.len(), cmd)
    }

    /// Nothing is persisted: the time of last access is zero.
    pub fn last_accessed(&self) -> (r: u64)
        ensures
            r == 0,
    {
        0
    }

    /// Nothing is persisted: the time of last modification is zero.
    pub fn last_modified(&self) -> (r: u64)
        ensures
            r == 0,
    {
        0
    }

    /// Nothing is persisted: the creation time is zero.
    pub fn created_time(&self) -> (r: u64)
        ensures
            r == 0,
    {
        0
    }

    /// Nothing is persisted: the size is zero.
    pub fn size(&self) -> (r: u64)
        ensures
            r == 0,
    {
        0
    }

    /// Bytes that a read would find ready: never any, so a read is never
    /// promised to succeed.
    pub fn poll_read_ready(&self) -> (r: Option<usize>)
        ensures
            r is None,
    {
        None
    }

    /// Bytes that a write may hand over at once: always ready, with the
    /// usual hint.
    pub fn poll_write_ready(&self) -> (r: usize)
        ensures
            r == WRITE_READY_HINT,
    {
        WRITE_READY_HINT
    }
}

/// The diagnostic log file. Its writes go to the host's log as text, with
/// ill-formed bytes replaced rather than dropped.
#[derive(Debug, Clone, Copy)]
pub struct TermLog {}

impl TermLog {
    pub fn new() -> TermLog {
        TermLog {  }
    }

    /// The text that a write of `data` hands to the log.
    pub fn log_write(&self, data: &[u8]) -> (r: String)
        ensures
            r@ == lossy_text(data@),
            valid_utf8(data@) ==> r@ == utf8_text(data@),
            !valid_utf8(data@) ==> r@.contains('\u{FFFD}'),
    {
        decode_lossy(data)
    }

    /// A write of `buf`: the whole of it is reported written.
    pub fn poll_write(&self, buf: &[u8]) -> (r: (usize, String))
        ensures
            r.0 == buf@.len(),
            r.1@ == lossy_text(buf@),
            !valid_utf8(buf@) ==> r.1@.contains('\u{FFFD}'),
    {
        let text = self.log_write(buf);
        (buf.len(), text)
    }

    /// Nothing is persisted: the time of last access is zero.
    pub fn last_accessed(&self) -> (r: u64)
        ensures
            r == 0,
    {
        0
    }

    /// Nothing is persisted: the time of last modification is zero.
    pub fn last_modified(&self) -> (r: u64)
        ensures
            r == 0,
    {
        0
    }

    /// Nothing is persisted: the creation time is zero.
    pub fn created_time(&self) -> (r: u64)
        ensures
            r == 0,
    {
        0
    }

    /// Nothing is persisted: the size is zero.
    pub fn size(&self) -> (r: u64)
        ensures
            r == 0,
    {
        0
    }

    /// Bytes that a read would find ready: never any, so a read is never
    /// promised to succeed.
    pub fn poll_read_ready(&self) -> (r: Option<usize>)
        ensures
            r is None,
    {
        None
    }

    /// Bytes that a write may hand over at once: always ready, with the
    /// usual hint.
    pub fn poll_write_ready(&self) -> (r: usize)
        ensures
            r == WRITE_READY_HINT,
    {
        WRITE_READY_HINT
    }
}

} // verus!
