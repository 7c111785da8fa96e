use vstd::prelude::*;

verus! {

/// Which expectation of a decoder a key failed.
#[derive(Debug, Clone, Copy, PartialEq, Eq, Structural)]
pub enum KeyFault {
    /// The key does not have the exact length of its kind.
    Length,
    /// The key does not start with the prefix of its kind.
    Prefix,
    /// The suffix byte after the region id is not the expected one.
    Suffix,
}

/// A key that a decoder refused, kept whole for diagnostics.
#[derive(Debug, Clone)]
pub struct InvalidKey {
    pub key: Vec<u8>,
    pub fault: KeyFault,
}

/// The error for `key`, which failed on `fault`.
pub(crate) fn invalid_key(key: &[u8], fault: KeyFault) -> (e: InvalidKey)
    ensures
        e.key@ == key@,
        e.fault == fault,
{
    InvalidKey { key: vstd::slice::slice_to_vec(key), fault }
}

/// Whether `c` is printable ASCII, from space to tilde.
pub open spec fn is_printable(c: u8) -> bool {
    0x20 <= c < 0x7F
}

/// The printable form of one byte: a backslash escape for newline, carriage
/// return, tab, double quote and backslash; the byte itself if it is
/// printable; otherwise a backslash and three octal digits.
pub open spec fn escape_byte(c: u8) -> Seq<u8> {
    if c == 0x0A {
        seq![0x5Cu8, 0x6Eu8]
    } else if c == 0x0D {
        seq![0x5Cu8, 0x72u8]
    } else if c == 0x09 {
        seq![0x5Cu8, 0x74u8]
    } else if c == 0x22 {
        seq![0x5Cu8, 0x22u8]
    } else if c == 0x5C {
        seq![0x5Cu8, 0x5Cu8]
    } else if is_printable(c) {
        seq![c]
    } else {
        seq![0x5Cu8, (0x30 + c / 64) as u8, (0x30 + (c / 8) % 8) as u8, (0x30 + c % 8) as u8]
    }
}

/// The printable form of a byte string, byte by byte.
pub open spec fn spec_escape(s: Seq<u8>) -> Seq<u8>
    decreases s.len(),
{
    if s.len() == 0 {
        Seq::empty()
    } else {
        spec_escape(s.drop_last()) + escape_byte(s.last())
    }
}

/// Every byte of an escaped string is printable ASCII.
pub proof fn lemma_escape_printable(s: Seq<u8>)
    ensures
        forall|j: int| 0 <= j < spec_escape(s).len() ==> is_printable(#[trigger] spec_escape(s)[j]),
    decreases s.len(),
{
    if s.len() > 0 {
        lemma_escape_printable(s.drop_last());
        let a = spec_escape(s.drop_last());
        let b = escape_byte(s.last());
        assert forall|j: int| 0 <= j < b.len() implies is_printable(#[trigger] b[j]) by {}
        assert forall|j: int| 0 <= j < (a + b).len() implies is_printable(#[trigger] (a + b)[j]) by {
            if j >= a.len() {
                assert((a + b)[j] == b[j - a.len()]);
            }
        }
    }
}

fn push_escaped(out: &mut Vec<u8>, c: u8)
    ensures
        final(out)@ == old(out)@ + escape_byte(c),
{
    let ghost start = out@;
    if c == 0x0A {
        out.push(0x5C);
        out.push(0x6E);
    } else if c == 0x0D {
        out.push(0x5C);
        out.push(0x72);
    } else if c == 0x09 {
        out.push(0x5C);
        out.push(0x74);
    } else if c == 0x22 {
        out.push(0x5C);
        out.push(0x22);
    } else if c == 0x5C {
        out.push(0x5C);
        out.push(0x5C);
    } else if 0x20 <= c && c < 0x7F {
        out.push(c);
    } else {
        out.push(0x5C);
        out.push(0x30 + c / 64);
        out.push(0x30 + (c / 8) % 8);
        out.push(0x30 + c % 8);
    }
    assert(out@ =~= start + escape_byte(c));
}

/// `data` in printable form, for diagnostics.
pub fn escape(data: &[u8]) -> (r: Vec<u8>)
    ensures
        r@ == spec_escape(data@),
        forall|j: int| 0 <= j < r@.len() ==> is_printable(#[trigger] r@[j]),
{
    let mut out: Vec<u8> = Vec::new();
    let mut i: usize = 0;
    while i < data.len()
        invariant
            0 <= i <= data@.len(),
            out@ == spec_escape(data@.subrange(0, i as int)),
        decreases data@.len() - i,
    {
        let c = data[i];
        push_escaped(&mut out, c);
        assert(data@.subrange(0, i + 1).drop_last() =~= data@.subrange(0, i as int));
        i = i + 1;
    }
    assert(data@.subrange(0, data@.len() as int) =~= data@);
    proof {
        lemma_escape_printable(data@);
    }
    out
}

impl InvalidKey {
    /// The refused key in printable form.
    pub fn escaped_key(&self) -> (r: Vec<u8>)
        ensures
            r@ == spec_escape(self.key@),
    {
        escape(self.key.as_slice())
    }
}

} // verus!
