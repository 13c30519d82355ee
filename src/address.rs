use vstd::prelude::*;

verus! {

/// Relies on `String::push`: the character is appended at the end.
pub assume_specification[ std::string::String::push ](s: &mut String, ch: char)
    ensures
        final(s)@ == old(s)@.push(ch),
;

/// A six-byte hardware address of a broadcasting device.
#[derive(Clone, Copy, Debug, PartialEq, Eq)]
pub struct DeviceAddress {
    pub bytes: [u8; 6],
}

/// Upper-case hexadecimal digit of a value below sixteen.
pub open spec fn hex_digit(n: u8) -> char {
    if n < 10 {
        (48 + n) as char
    } else {
        (55 + n) as char
    }
}

/// Text of an address: two upper-case hex digits per byte, the bytes separated
/// by `:` unless the colons are stripped.
pub open spec fn address_chars(b: Seq<u8>, keep_colons: bool) -> Seq<char>
    decreases b.len(),
{
    if b.len() == 0 {
        Seq::empty()
    } else {
        let prefix = address_chars(b.drop_last(), keep_colons);
        let sep = if b.len() > 1 && keep_colons { seq![':'] } else { Seq::empty() };
        prefix + sep + seq![hex_digit(b.last() / 16), hex_digit(b.last() % 16)]
    }
}

fn hex_char(n: u8) -> (c: char)
    requires
        n < 16,
    ensures
        c == hex_digit(n),
{
    if n < 10 {
        (48u8 + n) as char
    } else {
        (55u8 + n) as char
    }
}

impl DeviceAddress {
    /// The address as text, `AA:BB:CC:DD:EE:FF`, or `AABBCCDDEEFF` when the
    /// colons are stripped.
    pub fn normalized(&self, keep_colons: bool) -> (r: String)
        ensures
            r@ == address_chars(self.bytes@, keep_colons),
    {
        let mut s = String::new();
        let mut i: usize = 0;
        while i < 6
            invariant
                i <= 6,
                s@ == address_chars(self.bytes@.subrange(0, i as int), keep_colons),
            decreases 6 - i,
        {
            let b = self.bytes[i];
            let ghost prev = self.bytes@.subrange(0, i as int);
            let ghost next = self.bytes@.subrange(0, i + 1);
            assert(next.drop_last() =~= prev);
            if i > 0 && keep_colons {
                s.push(':');
            }
            s.push(hex_char(b / 16));
            s.push(hex_char(b % 16));
            assert(s@ =~= address_chars(next, keep_colons));
            i = i + 1;
        }
        assert(self.bytes@.subrange(0, 6) =~= self.bytes@);
        s
    }
}

/// `s` without its `:` characters.
pub open spec fn strip_colons(s: Seq<char>) -> Seq<char>
    decreases s.len(),
{
    if s.len() == 0 {
        Seq::empty()
    } else if s.last() == ':' {
        strip_colons(s.drop_last())
    } else {
        strip_colons(s.drop_last()).push(s.last())
    }
}

/// An address text normalized as device addresses are: unchanged when colons
/// are kept, else without its colons.
pub open spec fn normalized_text(s: Seq<char>, keep_colons: bool) -> Seq<char> {
    if keep_colons {
        s
    } else {
        strip_colons(s)
    }
}

/// Normalizes an address text as device addresses are normalized.
pub fn normalize_text(s: &str, keep_colons: bool) -> (r: String)
    ensures
        r@ == normalized_text(s@, keep_colons),
{
    if keep_colons {
        return String::from_str(s);
    }
    let n = s.unicode_len();
    let mut r = String::new();
    let mut i: usize = 0;
    while i < n
        invariant
            n == s@.len(),
            i <= n,
            r@ == strip_colons(s@.subrange(0, i as int)),
        decreases n - i,
    {
        let c = s.get_char(i);
        assert(s@.subrange(0, i + 1).drop_last() =~= s@.subrange(0, i as int));
        if c != ':' {
            r.push(c);
        }
        i = i + 1;
    }
    assert(s@.subrange(0, n as int) =~= s@);
    r
}

} // verus!
