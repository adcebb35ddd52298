use vstd::prelude::*;

use crate::console::{color_reset, color_set, colored, decimal, digit, print_in_color, Console};
use crate::level::{filter_of_config, level_to_color_code, Level, LevelFilter};

verus! {

/// Width of the field the level's name is right-aligned in.
pub const TAG_WIDTH: usize = 5;

/// The level tag: the level's name right-aligned in a field of five characters.
pub open spec fn tag(level: Level) -> Seq<char> {
    Seq::new((TAG_WIDTH - level.name().len()) as nat, |i: int| ' ') + level.name()
}

/// The text of a line before it is colored: '[', the tag, "] ", the message, a newline.
pub open spec fn line_body(level: Level, msg: Seq<char>) -> Seq<char> {
    seq!['['] + tag(level) + seq![']', ' '] + msg + seq!['\n']
}

/// The complete line for a record: its body in the level's color.
pub open spec fn line(level: Level, msg: Seq<char>) -> Seq<char> {
    colored(level.color(), line_body(level, msg))
}

/// A logger: the threshold that decides which records are emitted.
/// The threshold is fixed when the logger is made.
pub struct Logger {
    filter: LevelFilter,
}

impl Logger {
    /// The logger's threshold.
    pub closed spec fn threshold(&self) -> LevelFilter {
        self.filter
    }

    /// What logging `msg` at `level` writes: the record's line if the
    /// threshold admits it, nothing otherwise.
    pub open spec fn output(&self, level: Level, msg: Seq<char>) -> Seq<char> {
        if self.threshold().admits(level) {
            line(level, msg)
        } else {
            Seq::empty()
        }
    }

    /// A logger with threshold `filter`.
    pub fn new(filter: LevelFilter) -> (r: Logger)
        ensures
            r.threshold() == filter,
    {
        Logger { filter }
    }

    /// The logger's threshold.
    pub fn filter(&self) -> (r: LevelFilter)
        ensures
            r == self.threshold(),
    {
        self.filter
    }

    /// Whether a record of `level` is emitted.
    pub fn enabled(&self, level: Level) -> (r: bool)
        ensures
            r == self.threshold().admits(level),
    {
        self.filter.enabled(level)
    }

    /// Writes the line of a record of `level` with message `msg`, or nothing
    /// if the threshold filters the record out.
    pub fn log(&self, console: &mut Console, level: Level, msg: &str)
        ensures
            final(console)@ == old(console)@ + self.output(level, msg@),
    {
        if !self.enabled(level) {
            proof {
                assert(old(console)@ + Seq::<char>::empty() == old(console)@);
            }
            return;
        }
        let body = render_body(level, msg);
        print_in_color(console, body.as_str(), level_to_color_code(level));
    }
}

/// The uncolored text of a record's line.
fn render_body(level: Level, msg: &str) -> (r: String)
    ensures
        r@ == line_body(level, msg@),
{
    proof {
        reveal_strlit("[");
        reveal_strlit(" ");
        reveal_strlit("] ");
        reveal_strlit("\n");
    }
    let name = level.as_str();
    let mut body = String::from_str("[");
    let mut width: usize = name.unicode_len();
    let ghost pad: Seq<char> = Seq::empty();
    while width < TAG_WIDTH
        invariant
            name@ == level.name(),
            width <= TAG_WIDTH,
            name@.len() <= width,
            pad == Seq::new((width - name@.len()) as nat, |i: int| ' '),
            body@ == seq!['['] + pad,
        decreases TAG_WIDTH - width,
    {
        body.append(" ");
        proof {
            reveal_strlit(" ");
            pad = pad.push(' ');
        }
        width = width + 1;
        assert(pad =~= Seq::new((width - name@.len()) as nat, |i: int| ' '));
        assert(body@ =~= seq!['['] + pad);
    }
    body.append(name);
    body.append("] ");
    body.append(msg);
    body.append("\n");
    assert(body@ =~= line_body(level, msg@));
    body
}

/// The logger that the configuration value `config` selects: "ERROR",
/// "WARN", "INFO", "DEBUG" or "TRACE" set the threshold to that level;
/// anything else, or no value, sets it to `Info`.
pub fn init(config: Option<&str>) -> (r: Logger)
    ensures
        r.threshold() == filter_of_config(config),
{
    Logger::new(LevelFilter::from_config(config))
}

/// A record is emitted exactly when it is at least as urgent as the logger's
/// threshold, urgency going Error > Warn > Info > Debug > Trace; what is
/// emitted then is the record's line.
pub proof fn lemma_emitted_iff_urgent(logger: Logger, level: Level, msg: Seq<char>)
    ensures
        logger.output(level, msg).len() > 0 <==> level.rank() <= logger.threshold().rank(),
        logger.output(level, msg).len() > 0 ==> logger.output(level, msg) == line(level, msg),
{
}

/// With no configuration value the threshold is `Info`: records of `Error`,
/// `Warn` and `Info` are emitted, those of `Debug` and `Trace` are not.
pub proof fn lemma_default_threshold(level: Level)
    ensures
        filter_of_config(None) == LevelFilter::Info,
        filter_of_config(None).admits(level) <==> (level == Level::Error || level == Level::Warn
            || level == Level::Info),
{
}

/// A line starts with the sequence that selects its level's color (ESC, '[',
/// the code's two digits, 'm') and ends with the sequence that restores the
/// default color, so no color carries over to what is written after it.
pub proof fn lemma_line_colored(level: Level, msg: Seq<char>)
    ensures
        color_set(level.color()) == seq![
            '\u{1b}',
            '[',
            digit(level.color() as nat / 10),
            digit(level.color() as nat % 10),
            'm',
        ],
        line(level, msg).take(5) == color_set(level.color()),
        line(level, msg).skip(line(level, msg).len() - 4) == color_reset(),
{
    reveal_with_fuel(decimal, 2);
    let l = line(level, msg);
    assert(l.take(5) =~= color_set(level.color()));
    assert(l.skip(l.len() - 4) =~= color_reset());
}

/// The level tag is five characters wide: the level's name, right-aligned,
/// after as many spaces as the name is short of five.
pub proof fn lemma_tag_right_aligned(level: Level)
    ensures
        tag(level).len() == 5,
        4 <= level.name().len() <= 5,
        tag(level).skip(5 - level.name().len()) == level.name(),
        forall|i: int| 0 <= i < 5 - level.name().len() ==> tag(level)[i] == ' ',
{
    assert(tag(level).skip(5 - level.name().len()) =~= level.name());
}

} // verus!
