//! The multiline log format: each record is wrapped at the terminal's width
//! (at most 74 columns) and framed with box-drawing characters, so that it
//! is easy to tell where a long record begins and ends.
use vstd::prelude::*;

verus! {

/// What `textwrap::fill` returns for `text` wrapped at `width` columns, with
/// `initial_indent` before the first line and `subsequent_indent` before the
/// others.
pub uninterp spec fn textwrap_fill(
    text: Seq<char>,
    width: usize,
    initial_indent: Seq<char>,
    subsequent_indent: Seq<char>,
) -> Seq<char>;

/// What replacing the first match of the regular expression `pattern` in
/// `text` by `replacement` gives, with `$n` in `replacement` standing for
/// capture group `n`; `None` when `pattern` is not a valid expression.
pub uninterp spec fn regex_replace(pattern: Seq<char>, text: Seq<char>, replacement: Seq<char>) -> Option<
    Seq<char>,
>;

/// Calls `textwrap::fill` with `textwrap::Options::new(width)` and the two
/// indents. The contract claims only that the result is the one named by
/// [textwrap_fill], a function of the four arguments.
#[verifier::external_body]
fn fill(text: &str, width: usize, initial_indent: &str, subsequent_indent: &str) -> (r: String)
    ensures
        r@ == textwrap_fill(text@, width, initial_indent@, subsequent_indent@),
{
    let options = textwrap::Options::new(width).initial_indent(initial_indent).subsequent_indent(
        subsequent_indent,
    );
    textwrap::fill(text, options)
}

/// Compiles `pattern` with `regex::Regex::new` and, when that succeeds,
/// replaces its first match in `text` with `regex::Regex::replace`. The
/// contract claims only that the result is the one named by
/// [regex_replace], a function of the three arguments.
#[verifier::external_body]
fn replace_first(pattern: &str, text: &str, replacement: &str) -> (r: Option<String>)
    ensures
        r is Some <==> regex_replace(pattern@, text@, replacement@) is Some,
        r matches Some(s) ==> s@ == regex_replace(pattern@, text@, replacement@)->0,
{
    match regex::Regex::new(pattern) {
        Ok(re) => Some(re.replace(text, replacement).into_owned()),
        Err(_) => None,
    }
}

/// The character of decimal digit `d`.
pub open spec fn digit_char(d: nat) -> char {
    (48 + d) as char
}

/// The decimal representation of `n`, without leading zeros.
pub open spec fn decimal(n: nat) -> Seq<char>
    decreases n,
{
    if n < 10 {
        seq![digit_char(n)]
    } else {
        decimal(n / 10) + seq![digit_char(n % 10)]
    }
}

/// The one-character string of decimal digit `d`.
fn digit_str(d: u64) -> (r: &'static str)
    requires
        d < 10,
    ensures
        r@ == seq![digit_char(d as nat)],
{
    if d == 0 {
        proof {
            reveal_strlit("0");
        }
        "0"
    } else if d == 1 {
        proof {
            reveal_strlit("1");
        }
        "1"
    } else if d == 2 {
        proof {
            reveal_strlit("2");
        }
        "2"
    } else if d == 3 {
        proof {
            reveal_strlit("3");
        }
        "3"
    } else if d == 4 {
        proof {
            reveal_strlit("4");
        }
        "4"
    } else if d == 5 {
        proof {
            reveal_strlit("5");
        }
        "5"
    } else if d == 6 {
        proof {
            reveal_strlit("6");
        }
        "6"
    } else if d == 7 {
        proof {
            reveal_strlit("7");
        }
        "7"
    } else if d == 8 {
        proof {
            reveal_strlit("8");
        }
        "8"
    } else {
        proof {
            reveal_strlit("9");
        }
        "9"
    }
}

/// Formats `n` in decimal.
pub fn to_decimal(n: u64) -> (r: String)
    ensures
        r@ == decimal(n as nat),
    decreases n,
{
    if n < 10 {
        String::from_str(digit_str(n))
    } else {
        let mut r = to_decimal(n / 10);
        r.append(digit_str(n % 10));
        r
    }
}

/// The widest that a log record is wrapped.
pub const MAX_WIDTH: usize = 74;

/// The first line of a record, followed by a line break: its level, its
/// time, and the source file and line it came from (line 0 when unknown).
pub open spec fn header(level: Seq<char>, time: Seq<char>, file: Seq<char>, line: Option<u32>) -> Seq<
    char,
> {
    let line_number: nat = match line {
        Some(l) => l as nat,
        None => 0,
    };
    level + " ["@ + time + "] ["@ + file + ":"@ + decimal(line_number) + "]\n"@
}

/// The prefix of the first line of a record.
pub open spec fn first_line_prefix() -> Seq<char> {
    "\u{250f} "@
}

/// The prefix of the other lines of a record.
pub open spec fn next_line_prefix() -> Seq<char> {
    "\u{2503} "@
}

/// The expression that finds the prefix of the last line of a wrapped
/// record, and what replaces it: the closing corner, followed by the rest of
/// the line.
pub open spec fn last_line_pattern() -> (Seq<char>, Seq<char>) {
    ("(\u{2503})(.*)$"@, "\u{2517}$2"@)
}

/// A record wrapped at the smaller of `terminal_width` and [MAX_WIDTH]
/// columns, with the last line's prefix replaced by the closing corner.
pub open spec fn formatted_record(
    level: Seq<char>,
    time: Seq<char>,
    file: Seq<char>,
    line: Option<u32>,
    message: Seq<char>,
    terminal_width: usize,
) -> Seq<char> {
    let width = if terminal_width < MAX_WIDTH {
        terminal_width
    } else {
        MAX_WIDTH
    };
    let wrapped = textwrap_fill(
        header(level, time, file, line) + message,
        width,
        first_line_prefix(),
        next_line_prefix(),
    );
    match regex_replace(last_line_pattern().0, wrapped, last_line_pattern().1) {
        Some(s) => s,
        None => wrapped,
    }
}

/// Formats a log record for a terminal `terminal_width` columns wide.
pub fn multiline_format(
    level: &str,
    time: &str,
    file: &str,
    line: Option<u32>,
    message: &str,
    terminal_width: usize,
) -> (r: String)
    ensures
        r@ == formatted_record(level@, time@, file@, line, message@, terminal_width),
{
    let size = if terminal_width < MAX_WIDTH {
        terminal_width
    } else {
        MAX_WIDTH
    };
    let line_number: u64 = match line {
        Some(l) => l as u64,
        None => 0,
    };
    let mut full_line = String::from_str(level);
    full_line.append(" [");
    full_line.append(time);
    full_line.append("] [");
    full_line.append(file);
    full_line.append(":");
    let digits = to_decimal(line_number);
    full_line.append(digits.as_str());
    full_line.append("]\n");
    full_line.append(message);
    let wrapped = fill(full_line.as_str(), size, "\u{250f} ", "\u{2503} ");
    match replace_first("(\u{2503})(.*)$", wrapped.as_str(), "\u{2517}$2") {
        Some(formatted) => formatted,
        None => wrapped,
    }
}

/// A record is never wrapped wider than [MAX_WIDTH] columns: on any
/// terminal at least that wide it is the record formatted for a terminal
/// exactly [MAX_WIDTH] columns wide, and it is wrapped at the terminal's
/// width only when the terminal is narrower. The text handed to the wrapper
/// is the header followed by the message, framed by the opening corner on
/// the first line and the bar on the others.
pub proof fn lemma_wrap_width_is_capped(
    level: Seq<char>,
    time: Seq<char>,
    file: Seq<char>,
    line: Option<u32>,
    message: Seq<char>,
    terminal_width: usize,
)
    ensures
        terminal_width >= MAX_WIDTH ==> formatted_record(level, time, file, line, message, terminal_width)
            == formatted_record(level, time, file, line, message, MAX_WIDTH),
        ({
            let width: usize = if terminal_width < 74 {
                terminal_width
            } else {
                74
            };
            let wrapped = textwrap_fill(
                level + " ["@ + time + "] ["@ + file + ":"@ + decimal(
                    match line {
                        Some(l) => l as nat,
                        None => 0,
                    },
                ) + "]\n"@ + message,
                width,
                "\u{250f} "@,
                "\u{2503} "@,
            );
            formatted_record(level, time, file, line, message, terminal_width) == match regex_replace(
                "(\u{2503})(.*)$"@,
                wrapped,
                "\u{2517}$2"@,
            ) {
                Some(s) => s,
                None => wrapped,
            }
        }),
{
}

} // verus!
