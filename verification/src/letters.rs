use vstd::prelude::*;

verus! {

/// The code the generator starts at: ASCII `A`.
pub const START_CODE: u8 = 65;

/// The code the generator wraps back to: ASCII space.
pub const WRAP_CODE: u8 = 32;

/// One past the last code the generator hands out: ASCII `z`.
pub const LIMIT_CODE: u8 = 122;

/// How many codes one call of `generate_string` takes: a full grid row.
pub const ROW_TEXT_LEN: usize = 21;

/// The code that follows `c` in the generator's cycle.
pub open spec fn next_code(c: u8) -> u8 {
    if c + 1 >= LIMIT_CODE {
        WRAP_CODE
    } else {
        (c + 1) as u8
    }
}

/// The `n` codes the generator hands out starting at `c`.
pub open spec fn codes_from(c: u8, n: nat) -> Seq<u8>
    decreases n,
{
    if n == 0 {
        Seq::empty()
    } else {
        seq![c] + codes_from(next_code(c), (n - 1) as nat)
    }
}

/// The generator's code once it has handed out `n` codes starting at `c`.
pub open spec fn code_after(c: u8, n: nat) -> u8
    decreases n,
{
    if n == 0 {
        c
    } else {
        code_after(next_code(c), (n - 1) as nat)
    }
}

/// Handing out one more code appends the code reached so far.
proof fn lemma_codes_from_snoc(c: u8, n: nat)
    ensures
        codes_from(c, n + 1) == codes_from(c, n).push(code_after(c, n)),
    decreases n,
{
    if n == 0 {
        assert(codes_from(next_code(c), 0) =~= Seq::<u8>::empty());
        assert(codes_from(c, 1) =~= codes_from(c, 0).push(code_after(c, 0)));
    } else {
        lemma_codes_from_snoc(next_code(c), (n - 1) as nat);
        assert(codes_from(c, n + 1) =~= codes_from(c, n).push(code_after(c, n)));
    }
}

/// Stepping once more applies `next_code` to the code reached so far.
proof fn lemma_code_after_snoc(c: u8, n: nat)
    ensures
        code_after(c, n + 1) == next_code(code_after(c, n)),
    decreases n,
{
    if n == 0 {
        assert(code_after(next_code(c), 0) == next_code(c));
    } else {
        lemma_code_after_snoc(next_code(c), (n - 1) as nat);
    }
}

/// Hands out ASCII codes one after the other, wrapping from `y` back to
/// space: a simple way to feed ever-changing text to a display.
pub struct AsciiLetter {
    ascii_letter: u8,
}

impl AsciiLetter {
    /// The code the generator will hand out next.
    pub closed spec fn code(&self) -> u8 {
        self.ascii_letter
    }

    /// The generator stays within the wrap range, which the glyph table
    /// covers whole.
    pub open spec fn wf(&self) -> bool {
        WRAP_CODE <= self.code() < LIMIT_CODE
    }

    /// A generator starting at ASCII `A`.
    pub fn new() -> (r: AsciiLetter)
        ensures
            r.wf(),
            r.code() == START_CODE,
    {
        AsciiLetter { ascii_letter: START_CODE }
    }

    /// Returns the current code and steps to the next one.
    pub fn get_and_increment(&mut self) -> (r: u8)
        requires
            old(self).wf(),
        ensures
            final(self).wf(),
            r == old(self).code(),
            final(self).code() == next_code(old(self).code()),
    {
        let result = self.ascii_letter;
        self.ascii_letter += 1;
        if self.ascii_letter >= LIMIT_CODE {
            self.ascii_letter = WRAP_CODE;
        }
        result
    }
}

/// Relies on String::push: appends the one character at the end.
#[verifier::external_body]
fn push_char(s: &mut String, c: char)
    ensures
        final(s)@ == old(s)@.push(c),
{
    s.push(c);
}

/// A row's worth of text from the generator: the next 21 codes, one
/// one-byte character each.
pub fn generate_string(letter: &mut AsciiLetter) -> (s: String)
    requires
        old(letter).wf(),
    ensures
        final(letter).wf(),
        final(letter).code() == code_after(old(letter).code(), ROW_TEXT_LEN as nat),
        s@ == codes_from(old(letter).code(), ROW_TEXT_LEN as nat).map_values(|b: u8| b as char),
{
    let ghost start: u8 = letter.code();
    let mut s = String::new();
    let mut i: usize = 0;
    while i < ROW_TEXT_LEN
        invariant
            letter.wf(),
            i <= ROW_TEXT_LEN,
            letter.code() == code_after(start, i as nat),
            s@ == codes_from(start, i as nat).map_values(|b: u8| b as char),
        decreases ROW_TEXT_LEN - i,
    {
        let c = letter.get_and_increment();
        push_char(&mut s, c as char);
        proof {
            lemma_codes_from_snoc(start, i as nat);
            lemma_code_after_snoc(start, i as nat);
            assert(s@ =~= codes_from(start, i as nat + 1).map_values(|b: u8| b as char));
        }
        i = i + 1;
    }
    s
}

} // verus!
