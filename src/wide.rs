use vstd::prelude::*;

verus! {

/// The UTF-16 code units of one character.
pub open spec fn utf16_of_char(c: char) -> Seq<u16> {
    let v = c as u32;
    if v < 0x10000 {
        seq![v as u16]
    } else {
        seq![(0xD800 + (v - 0x10000) / 0x400) as u16, (0xDC00 + (v - 0x10000) % 0x400) as u16]
    }
}

/// The UTF-16 encoding of a character sequence.
pub open spec fn utf16_of(s: Seq<char>) -> Seq<u16>
    decreases s.len(),
{
    if s.len() == 0 {
        Seq::empty()
    } else {
        utf16_of(s.drop_last()) + utf16_of_char(s.last())
    }
}

/// Text in the platform's native wide encoding: UTF-16 followed by a zero
/// terminator.
pub open spec fn wide_of(s: Seq<char>) -> Seq<u16> {
    utf16_of(s).push(0)
}

fn push_char_units(out: &mut Vec<u16>, c: char)
    ensures
        final(out)@ == old(out)@ + utf16_of_char(c),
{
    let v: u32 = c as u32;
    if v < 0x10000 {
        out.push(v as u16);
    } else {
        assert(v <= 0x10FFFF);
        let w: u32 = v - 0x10000;
        out.push((0xD800 + w / 0x400) as u16);
        out.push((0xDC00 + w % 0x400) as u16);
    }
    assert(final(out)@ =~= old(out)@ + utf16_of_char(c));
}

/// Encodes text as UTF-16 with a terminating zero unit, the form the
/// platform's wide-string calls take.
pub fn encode_wide(s: &str) -> (r: Vec<u16>)
    ensures
        r@ == wide_of(s@),
        r@.len() <= 2 * s@.len() + 1,
{
    let n: usize = s.unicode_len();
    let mut out: Vec<u16> = Vec::new();
    let mut i: usize = 0;
    while i < n
        invariant
            n == s@.len(),
            i <= n,
            out@ == utf16_of(s@.subrange(0, i as int)),
            out@.len() <= 2 * i,
        decreases n - i,
    {
        let c = s.get_char(i);
        push_char_units(&mut out, c);
        assert(s@.subrange(0, i as int + 1).drop_last() =~= s@.subrange(0, i as int));
        i = i + 1;
    }
    assert(s@.subrange(0, n as int) =~= s@);
    out.push(0);
    out
}

/// Text that can be handed to the platform's wide-string calls.
pub trait ToWide {
    /// The characters of the text.
    spec fn chars(&self) -> Seq<char>;

    /// The text as UTF-16 with a terminating zero unit.
    fn to_wide(&self) -> (r: Vec<u16>)
        ensures
            r@ == wide_of(self.chars()),
    ;
}

impl ToWide for str {
    open spec fn chars(&self) -> Seq<char> {
        self@
    }

    fn to_wide(&self) -> (r: Vec<u16>) {
        encode_wide(self)
    }
}

impl ToWide for String {
    open spec fn chars(&self) -> Seq<char> {
        self@
    }

    fn to_wide(&self) -> (r: Vec<u16>) {
        encode_wide(self.as_str())
    }
}

} // verus!
