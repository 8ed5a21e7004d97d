//! A text-building helper: appends literal text, decimal and hexadecimal
//! renderings, and delimited sequences, accumulating into one `String`.
//!
//! It has no decoding responsibility of its own; the decoders hand it plain
//! values to render.

use vstd::prelude::*;
use vstd::string::StringExecFns;

verus! {

/// The single decimal digit `d` as text.
pub open spec fn spec_digit(d: u8) -> Seq<char> {
    if d == 0 {
        "0"@
    } else if d == 1 {
        "1"@
    } else if d == 2 {
        "2"@
    } else if d == 3 {
        "3"@
    } else if d == 4 {
        "4"@
    } else if d == 5 {
        "5"@
    } else if d == 6 {
        "6"@
    } else if d == 7 {
        "7"@
    } else if d == 8 {
        "8"@
    } else {
        "9"@
    }
}

/// The number `n` in decimal, most significant digit first, no leading
/// zeroes (a single `0` for zero).
pub open spec fn spec_udec(n: nat) -> Seq<char>
    decreases n,
{
    if n < 10 {
        spec_digit(n as u8)
    } else {
        spec_udec(n / 10) + spec_digit((n % 10) as u8)
    }
}

/// The single hexadecimal digit `d` as text, uppercase.
pub open spec fn spec_hex_digit(d: u8) -> Seq<char> {
    if d < 10 {
        spec_digit(d)
    } else if d == 10 {
        "A"@
    } else if d == 11 {
        "B"@
    } else if d == 12 {
        "C"@
    } else if d == 13 {
        "D"@
    } else if d == 14 {
        "E"@
    } else {
        "F"@
    }
}

/// The byte `b` as `0x` and two uppercase hexadecimal digits.
pub open spec fn spec_hex_byte(b: u8) -> Seq<char> {
    "0x"@ + spec_hex_digit(b / 16) + spec_hex_digit(b % 16)
}

/// The byte `b` as two uppercase hexadecimal digits, without a prefix.
pub open spec fn spec_hex_byte_bare(b: u8) -> Seq<char> {
    spec_hex_digit(b / 16) + spec_hex_digit(b % 16)
}

/// The word `w` as `0x` and four uppercase hexadecimal digits.
pub open spec fn spec_hex_word(w: u16) -> Seq<char> {
    "0x"@ + spec_hex_byte_bare((w / 256) as u8) + spec_hex_byte_bare((w % 256) as u8)
}

/// The texts of `items`, concatenated in order.
pub open spec fn spec_concat_all(items: Seq<Seq<char>>) -> Seq<char>
    decreases items.len(),
{
    if items.len() == 0 {
        Seq::empty()
    } else {
        spec_concat_all(items.drop_last()) + items.last()
    }
}

/// The texts of `items` joined with `delim` between neighbours.
pub open spec fn spec_delimited(delim: Seq<char>, items: Seq<Seq<char>>) -> Seq<char>
    decreases items.len(),
{
    if items.len() == 0 {
        Seq::empty()
    } else if items.len() == 1 {
        items[0]
    } else {
        spec_delimited(delim, items.drop_last()) + delim + items.last()
    }
}

/// The single decimal digit `d` as a string slice.
pub fn digit_str(d: u8) -> (r: &'static str)
    requires
        d < 10,
    ensures
        r@ == spec_digit(d),
{
    if d == 0 {
        "0"
    } else if d == 1 {
        "1"
    } else if d == 2 {
        "2"
    } else if d == 3 {
        "3"
    } else if d == 4 {
        "4"
    } else if d == 5 {
        "5"
    } else if d == 6 {
        "6"
    } else if d == 7 {
        "7"
    } else if d == 8 {
        "8"
    } else {
        "9"
    }
}

/// The single hexadecimal digit `d` as a string slice, uppercase.
pub fn hex_digit_str(d: u8) -> (r: &'static str)
    requires
        d < 16,
    ensures
        r@ == spec_hex_digit(d),
{
    if d < 10 {
        digit_str(d)
    } else if d == 10 {
        "A"
    } else if d == 11 {
        "B"
    } else if d == 12 {
        "C"
    } else if d == 13 {
        "D"
    } else if d == 14 {
        "E"
    } else {
        "F"
    }
}

/// Accumulates text; what has been appended is the builder's view.
pub struct TextBuilder {
    text: String,
}

impl View for TextBuilder {
    type V = Seq<char>;

    closed spec fn view(&self) -> Seq<char> {
        self.text@
    }
}

impl TextBuilder {
    /// A builder holding no text yet.
    pub fn new() -> (r: Self)
        ensures
            r@ == Seq::<char>::empty(),
    {
        TextBuilder { text: String::new() }
    }

    /// Appends `value` as it stands.
    pub fn append(&mut self, value: &str)
        ensures
            final(self)@ == old(self)@ + value@,
    {
        self.text.append(value);
    }

    /// Appends a line break.
    pub fn newline(&mut self)
        ensures
            final(self)@ == old(self)@ + "\n"@,
    {
        self.text.append("\n");
    }

    /// Appends `n` in decimal.
    pub fn append_udec(&mut self, n: u64)
        ensures
            final(self)@ == old(self)@ + spec_udec(n as nat),
        decreases n,
    {
        if n < 10 {
            self.append(digit_str(n as u8));
        } else {
            self.append_udec(n / 10);
            self.append(digit_str((n % 10) as u8));
            proof {
                assert(self@ =~= old(self)@ + spec_udec(n as nat));
            }
        }
    }

    /// Appends `b` as `0x` and two uppercase hexadecimal digits.
    pub fn append_hex_byte(&mut self, b: u8)
        ensures
            final(self)@ == old(self)@ + spec_hex_byte(b),
    {
        self.append("0x");
        self.append(hex_digit_str(b / 16));
        self.append(hex_digit_str(b % 16));
        proof {
            assert(self@ =~= old(self)@ + spec_hex_byte(b));
        }
    }

    /// Appends `w` as `0x` and four uppercase hexadecimal digits.
    pub fn append_hex_word(&mut self, w: u16)
        ensures
            final(self)@ == old(self)@ + spec_hex_word(w),
    {
        self.append("0x");
        self.append(hex_digit_str(((w / 256) / 16) as u8));
        self.append(hex_digit_str(((w / 256) % 16) as u8));
        self.append(hex_digit_str(((w % 256) / 16) as u8));
        self.append(hex_digit_str(((w % 256) % 16) as u8));
        proof {
            assert(self@ =~= old(self)@ + spec_hex_word(w));
        }
    }

    /// Appends every item, in order.
    pub fn enumerate(&mut self, items: &Vec<String>)
        ensures
            final(self)@ == old(self)@ + spec_concat_all(items@.map_values(|s: String| s@)),
    {
        let ghost texts = items@.map_values(|s: String| s@);
        let mut i: usize = 0;
        while i < items.len()
            invariant
                0 <= i <= items@.len(),
                texts == items@.map_values(|s: String| s@),
                self@ == old(self)@ + spec_concat_all(texts.subrange(0, i as int)),
            decreases items@.len() - i,
        {
            self.append(items[i].as_str());
            proof {
                let next = texts.subrange(0, i + 1 as int);
                assert(next.drop_last() =~= texts.subrange(0, i as int));
                assert(self@ =~= old(self)@ + spec_concat_all(next));
            }
            i = i + 1;
        }
        proof {
            assert(texts.subrange(0, texts.len() as int) =~= texts);
        }
    }

    /// Appends the items joined with `delim` between neighbours.
    pub fn delimit(&mut self, delim: &str, items: &Vec<String>)
        ensures
            final(self)@ == old(self)@ + spec_delimited(
                delim@,
                items@.map_values(|s: String| s@),
            ),
    {
        let ghost texts = items@.map_values(|s: String| s@);
        let mut i: usize = 0;
        while i < items.len()
            invariant
                0 <= i <= items@.len(),
                texts == items@.map_values(|s: String| s@),
                self@ == old(self)@ + spec_delimited(delim@, texts.subrange(0, i as int)),
            decreases items@.len() - i,
        {
            if i > 0 {
                self.append(delim);
            }
            self.append(items[i].as_str());
            proof {
                let prefix = texts.subrange(0, i as int);
                let next = texts.subrange(0, i + 1 as int);
                assert(next.drop_last() =~= prefix);
                assert(next.last() == texts[i as int]);
                if i == 0 {
                    assert(self@ =~= old(self)@ + spec_delimited(delim@, next));
                } else {
                    assert(self@ =~= old(self)@ + spec_delimited(delim@, next));
                }
            }
            i = i + 1;
        }
        proof {
            assert(texts.subrange(0, texts.len() as int) =~= texts);
        }
    }

    /// Hands the accumulated text out.
    pub fn build_string(self) -> (r: String)
        ensures
            r@ == self@,
    {
        self.text
    }
}

} // verus!
