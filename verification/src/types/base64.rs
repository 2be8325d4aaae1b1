//! Bytes that the schema shows as base64 text.

use vstd::prelude::*;

verus! {

/// The 64 symbols of base64, each at the place of the six bits it stands for.
pub const ALPHABET: &'static str =
    "ABCDEFGHIJKLMNOPQRSTUVWXYZabcdefghijklmnopqrstuvwxyz0123456789+/";

/// The symbol that stands for six bits.
pub open spec fn symbol(v: int) -> char
    recommends
        0 <= v < 64,
{
    ALPHABET@[v]
}

/// The base64 text of a sequence of bytes. Every three bytes give four
/// symbols; one or two bytes left over give two or three symbols, filled up
/// to four with `=`.
pub open spec fn base64_text(bytes: Seq<u8>) -> Seq<char>
    decreases bytes.len(),
{
    if bytes.len() == 0 {
        Seq::<char>::empty()
    } else if bytes.len() == 1 {
        let a = bytes[0] as int;
        seq![symbol(a / 4), symbol(a % 4 * 16), '=', '=']
    } else if bytes.len() == 2 {
        let a = bytes[0] as int;
        let b = bytes[1] as int;
        seq![symbol(a / 4), symbol(a % 4 * 16 + b / 16), symbol(b % 16 * 4), '=']
    } else {
        let a = bytes[0] as int;
        let b = bytes[1] as int;
        let c = bytes[2] as int;
        seq![
            symbol(a / 4),
            symbol(a % 4 * 16 + b / 16),
            symbol(b % 16 * 4 + c / 64),
            symbol(c % 64),
        ] + base64_text(bytes.skip(3))
    }
}

/// The text has four characters for every three bytes, and four more for
/// what is left over.
pub proof fn lemma_base64_text_len(bytes: Seq<u8>)
    ensures
        base64_text(bytes).len() == 4 * ((bytes.len() + 2) / 3),
    decreases bytes.len(),
{
    if bytes.len() >= 3 {
        lemma_base64_text_len(bytes.skip(3));
    }
}

/// Raw bytes, shown to the reader of the schema as base64 text.
#[derive(Clone, Debug, PartialEq, Eq)]
pub struct Base64 {
    pub bytes: Vec<u8>,
}

impl View for Base64 {
    type V = Seq<u8>;

    open spec fn view(&self) -> Seq<u8> {
        self.bytes@
    }
}

impl From<Vec<u8>> for Base64 {
    fn from(bytes: Vec<u8>) -> (b: Base64) {
        Base64 { bytes }
    }
}

impl vstd::std_specs::convert::FromSpecImpl<Vec<u8>> for Base64 {
    open spec fn obeys_from_spec() -> bool {
        true
    }

    open spec fn from_spec(bytes: Vec<u8>) -> Base64 {
        Base64 { bytes }
    }
}

/// Appends the symbol that stands for the six bits `v`.
fn push_symbol(out: &mut String, v: u8)
    requires
        v < 64,
    ensures
        final(out)@ == old(out)@.push(symbol(v as int)),
{
    proof {
        reveal_strlit("ABCDEFGHIJKLMNOPQRSTUVWXYZabcdefghijklmnopqrstuvwxyz0123456789+/");
    }
    let at: usize = v as usize;
    let one = ALPHABET.substring_ascii(at, at + 1);
    out.append(one);
}

/// Appends one `=`.
fn push_padding(out: &mut String)
    ensures
        final(out)@ == old(out)@.push('='),
{
    proof {
        reveal_strlit("=");
    }
    out.append("=");
}

impl Base64 {
    /// The bytes as base64 text.
    pub fn encode(&self) -> (s: String)
        ensures
            s@ == base64_text(self@),
    {
        let n = self.bytes.len();
        let mut out = String::new();
        let mut i: usize = 0;
        assert(self.bytes@.skip(0) =~= self.bytes@);
        while n - i >= 3
            invariant
                i <= n,
                n == self.bytes@.len(),
                base64_text(self.bytes@) == out@ + base64_text(self.bytes@.skip(i as int)),
            decreases n - i,
        {
            let a = self.bytes[i];
            let b = self.bytes[i + 1];
            let c = self.bytes[i + 2];
            push_symbol(&mut out, a / 4);
            push_symbol(&mut out, a % 4 * 16 + b / 16);
            push_symbol(&mut out, b % 16 * 4 + c / 64);
            push_symbol(&mut out, c % 64);
            assert(self.bytes@.skip(i as int).skip(3) =~= self.bytes@.skip(i + 3));
            i = i + 3;
        }
        if n - i == 1 {
            let a = self.bytes[i];
            push_symbol(&mut out, a / 4);
            push_symbol(&mut out, a % 4 * 16);
            push_padding(&mut out);
            push_padding(&mut out);
        } else if n - i == 2 {
            let a = self.bytes[i];
            let b = self.bytes[i + 1];
            push_symbol(&mut out, a / 4);
            push_symbol(&mut out, a % 4 * 16 + b / 16);
            push_symbol(&mut out, b % 16 * 4);
            push_padding(&mut out);
        }
        out
    }
}

} // verus!
