use vstd::prelude::*;

verus! {

/// The decimal digit for `d`, which must be below ten.
pub open spec fn digit(d: nat) -> char {
    (('0' as nat) + d) as char
}

/// The decimal notation of `n`, without leading zeros.
pub open spec fn decimal(n: nat) -> Seq<char>
    decreases n,
{
    if n < 10 {
        seq![digit(n)]
    } else {
        decimal(n / 10).push(digit(n % 10))
    }
}

/// The ANSI sequence that selects color `code`: ESC, '[', the code in decimal, 'm'.
pub open spec fn color_set(code: u8) -> Seq<char> {
    seq!['\u{1b}', '['] + decimal(code as nat) + seq!['m']
}

/// The ANSI sequence that restores the default color: ESC, '[', '0', 'm'.
pub open spec fn color_reset() -> Seq<char> {
    seq!['\u{1b}', '[', '0', 'm']
}

/// `text` drawn in color `code`, with the default color restored after it.
pub open spec fn colored(code: u8, text: Seq<char>) -> Seq<char> {
    color_set(code) + text + color_reset()
}

/// The console: every character written to it, in the order written,
/// held until the platform takes it.
pub struct Console {
    out: Vec<char>,
}

impl View for Console {
    type V = Seq<char>;

    closed spec fn view(&self) -> Seq<char> {
        self.out@
    }
}

impl Console {
    /// A console on which nothing is written yet.
    pub fn new() -> (r: Console)
        ensures
            r@ == Seq::<char>::empty(),
    {
        Console { out: Vec::new() }
    }

    /// Writes one character.
    pub fn put_char(&mut self, c: char)
        ensures
            final(self)@ == old(self)@.push(c),
    {
        self.out.push(c);
    }

    /// Writes the characters of `s` one at a time, in order.
    pub fn write_str(&mut self, s: &str)
        ensures
            final(self)@ == old(self)@ + s@,
    {
        for c in it: s.chars()
            invariant
                it.seq() == s@,
                self@ == old(self)@ + s@.take(it.index() as int),
        {
            proof {
                assert(s@.take(it.index() + 1) == s@.take(it.index() as int).push(c));
            }
            self.put_char(c);
        }
        proof {
            assert(s@.take(s@.len() as int) == s@);
        }
    }

    /// Writes `n` in decimal.
    pub fn write_decimal(&mut self, n: u8)
        ensures
            final(self)@ == old(self)@ + decimal(n as nat),
    {
        proof {
            reveal_with_fuel(decimal, 3);
        }
        if n >= 100 {
            self.put_char(digit_char(n / 100));
            self.put_char(digit_char(n / 10 % 10));
            assert(decimal(n as nat / 10) == seq![digit(n as nat / 100), digit(n as nat / 10 % 10)]);
        } else if n >= 10 {
            self.put_char(digit_char(n / 10));
        }
        self.put_char(digit_char(n % 10));
    }

    /// Hands over everything written so far and leaves the console empty.
    pub fn take(&mut self) -> (r: Vec<char>)
        ensures
            r@ == old(self)@,
            final(self)@ == Seq::<char>::empty(),
    {
        let mut r: Vec<char> = Vec::new();
        std::mem::swap(&mut self.out, &mut r);
        r
    }
}

/// The digit character of `d`.
fn digit_char(d: u8) -> (c: char)
    requires
        d < 10,
    ensures
        c == digit(d as nat),
{
    let c = ('0' as u8 + d) as char;
    c
}

/// Writes `text` exactly as given: no color, no tag, no line terminator.
pub fn print(console: &mut Console, text: &str)
    ensures
        final(console)@ == old(console)@ + text@,
{
    console.write_str(text);
}

/// Writes `text` followed by a line terminator.
pub fn println(console: &mut Console, text: &str)
    ensures
        final(console)@ == old(console)@ + text@ + seq!['\n'],
{
    console.write_str(text);
    console.put_char('\n');
}

/// Writes `text` in color `color_code`, restoring the default color after it.
pub fn print_in_color(console: &mut Console, text: &str, color_code: u8)
    ensures
        final(console)@ == old(console)@ + colored(color_code, text@),
{
    console.put_char('\u{1b}');
    console.put_char('[');
    console.write_decimal(color_code);
    console.put_char('m');
    console.write_str(text);
    console.put_char('\u{1b}');
    console.put_char('[');
    console.put_char('0');
    console.put_char('m');
    proof {
        assert(console@ == old(console)@ + colored(color_code, text@));
    }
}

} // verus!
