//! The benchmark harness: its command line, the keyboard input it
//! synthesises to press a hotkey, and the brightness probe of a screen
//! pixel.

use vstd::prelude::*;
use crate::text::{str_eq, decimal, digit_char};

verus! {

/// The screenshot tool being measured.
#[derive(Debug, Clone, Copy, PartialEq, Eq, Structural)]
pub enum Tool {
    NanoSnipper,
    SnippingTool,
}

/// What kind of capture is measured.
#[derive(Debug, Clone, Copy, PartialEq, Eq, Structural)]
pub enum BenchMode {
    Fullscreen,
}

/// The benchmark's settings.
#[derive(Debug, Clone, Copy, PartialEq, Eq, Structural)]
pub struct Args {
    pub tool: Tool,
    pub mode: BenchMode,
    pub runs: u32,
    pub delay_secs: u32,
    pub json: bool,
}

/// What the command line asks for.
#[derive(Debug, Clone, Copy, PartialEq, Eq, Structural)]
pub enum Command {
    /// Run the benchmark with these settings.
    Run(Args),
    /// Print the usage text and stop.
    Help,
}

/// Why a number on the command line was refused, as `u32`'s `FromStr`
/// classifies it.
#[derive(Debug, Clone, Copy, PartialEq, Eq, Structural)]
pub enum NumberError {
    /// The text is empty.
    Empty,
    /// A character is not a decimal digit (a sign is allowed only as a
    /// leading `+` before at least one digit).
    InvalidDigit,
    /// The number does not fit in a `u32`.
    PosOverflow,
}

/// The options that take a number.
#[derive(Debug, Clone, Copy, PartialEq, Eq, Structural)]
pub enum NumberOption {
    Runs,
    Delay,
}

/// Why the command line was refused.
#[derive(Debug)]
pub enum ArgsError {
    /// `--tool` followed by something other than a known tool (or by
    /// nothing).
    UnknownTool(Option<String>),
    /// `--mode` followed by something other than a known mode.
    UnknownMode(Option<String>),
    /// A number option at the end of the line.
    MissingNumber(NumberOption),
    /// A number option followed by text that is not a `u32`.
    InvalidNumber(NumberError),
    /// An argument that is no option.
    UnknownArgument(String),
}

/// [`ArgsError`] with its texts as character sequences.
pub enum ArgsErrorView {
    UnknownTool(Option<Seq<char>>),
    UnknownMode(Option<Seq<char>>),
    MissingNumber(NumberOption),
    InvalidNumber(NumberError),
    UnknownArgument(Seq<char>),
}

/// An optional string as an optional character sequence.
pub open spec fn opt_view(o: Option<String>) -> Option<Seq<char>> {
    match o {
        Some(s) => Some(s@),
        None => None,
    }
}

impl View for ArgsError {
    type V = ArgsErrorView;

    open spec fn view(&self) -> ArgsErrorView {
        match self {
            ArgsError::UnknownTool(o) => ArgsErrorView::UnknownTool(opt_view(*o)),
            ArgsError::UnknownMode(o) => ArgsErrorView::UnknownMode(opt_view(*o)),
            ArgsError::MissingNumber(n) => ArgsErrorView::MissingNumber(*n),
            ArgsError::InvalidNumber(e) => ArgsErrorView::InvalidNumber(*e),
            ArgsError::UnknownArgument(s) => ArgsErrorView::UnknownArgument(s@),
        }
    }
}

/// Whether `c` is an ASCII decimal digit.
pub open spec fn is_digit(c: char) -> bool {
    '0' <= c && c <= '9'
}

/// The number that a string of decimal digits stands for.
pub open spec fn digits_value(s: Seq<char>) -> nat
    decreases s.len(),
{
    if s.len() == 0 {
        0
    } else {
        digits_value(s.drop_last()) * 10 + ((s.last() as nat) - ('0' as nat)) as nat
    }
}

/// The index of the first character at or after `i` that is no digit (the
/// length if there is none).
pub open spec fn digits_end(s: Seq<char>, i: int) -> int
    decreases s.len() - i,
{
    if i >= s.len() || !is_digit(s[i]) { i } else { digits_end(s, i + 1) }
}

/// `u32::from_str`: an optional `+`, then decimal digits. The characters
/// are read from the left, and the first fault met decides the error: a
/// character that is no digit, or a value past `u32::MAX`.
pub open spec fn spec_parse_u32(s: Seq<char>) -> Result<u32, NumberError> {
    if s.len() == 0 {
        Err(NumberError::Empty)
    } else {
        let d = if s[0] == '+' { s.subrange(1, s.len() as int) } else { s };
        let k = digits_end(d, 0);
        if d.len() == 0 {
            Err(NumberError::InvalidDigit)
        } else if digits_value(d.subrange(0, k)) > u32::MAX {
            Err(NumberError::PosOverflow)
        } else if k < d.len() {
            Err(NumberError::InvalidDigit)
        } else {
            Ok(digits_value(d) as u32)
        }
    }
}

/// A longer run of digits stands for at least as much.
proof fn lemma_digits_value_mono(s: Seq<char>, j: int, k: int)
    requires
        0 <= j <= k <= s.len(),
        forall|i: int| 0 <= i < k ==> is_digit(#[trigger] s[i]),
    ensures
        digits_value(s.subrange(0, j)) <= digits_value(s.subrange(0, k)),
    decreases k - j,
{
    if j < k {
        lemma_digits_value_mono(s, j, k - 1);
        assert(s.subrange(0, k).drop_last() =~= s.subrange(0, k - 1));
        assert(is_digit(s[k - 1]));
    }
}

/// `digits_end` does not move while digits are skipped.
proof fn lemma_digits_end_skip(s: Seq<char>, i: int)
    requires
        0 <= i,
        forall|j: int| 0 <= j < i ==> is_digit(#[trigger] s[j]),
        i <= s.len(),
    ensures
        digits_end(s, 0) == digits_end(s, i),
    decreases i,
{
    if i > 0 {
        lemma_digits_end_skip(s, i - 1);
        assert(is_digit(s[i - 1]));
    }
}

/// Parse a decimal `u32` as `u32::from_str` does.
pub fn parse_u32(s: &str) -> (r: Result<u32, NumberError>)
    ensures
        r == spec_parse_u32(s@),
{
    let n = s.unicode_len();
    if n == 0 {
        return Err(NumberError::Empty);
    }
    let start: usize = if s.get_char(0) == '+' { 1 } else { 0 };
    let ghost d = if s@[0] == '+' { s@.subrange(1, s@.len() as int) } else { s@ };
    if start == n {
        return Err(NumberError::InvalidDigit);
    }
    let mut v: u64 = 0;
    let mut i: usize = start;
    while i < n
        invariant
            n == s@.len(),
            start <= i <= n,
            start == 0 || start == 1,
            start < n,
            d =~= s@.subrange(start as int, n as int),
            d == (if s@[0] == '+' { s@.subrange(1, s@.len() as int) } else { s@ }),
            forall|j: int| 0 <= j < i - start ==> is_digit(#[trigger] d[j]),
            v == digits_value(d.subrange(0, i - start)),
            v <= u32::MAX,
        decreases n - i,
    {
        let c = s.get_char(i);
        let ghost j = i - start;
        assert(d[j] == c);
        if !('0' <= c && c <= '9') {
            proof {
                lemma_digits_end_skip(d, j);
                assert(digits_end(d, j) == j);
            }
            return Err(NumberError::InvalidDigit);
        }
        let digit = (c as u32 - '0' as u32) as u64;
        assert(d.subrange(0, j + 1).drop_last() =~= d.subrange(0, j));
        let next = v * 10 + digit;
        if next > 0xffff_ffff {
            proof {
                assert(forall|m: int| 0 <= m < j + 1 ==> is_digit(#[trigger] d[m]));
                lemma_digits_end_skip(d, j + 1);
                let k = digits_end(d, 0);
                assert(j + 1 <= k <= d.len()) by {
                    lemma_digits_end_bounds(d, j + 1);
                }
                lemma_digits_end_digits(d, j + 1);
                lemma_digits_value_mono(d, j + 1, k);
            }
            return Err(NumberError::PosOverflow);
        }
        v = next;
        i = i + 1;
    }
    proof {
        let k = d.len() as int;
        assert(forall|m: int| 0 <= m < k ==> is_digit(#[trigger] d[m]));
        lemma_digits_end_skip(d, k);
        assert(d.subrange(0, k) =~= d);
    }
    Ok(v as u32)
}

proof fn lemma_digits_end_bounds(s: Seq<char>, i: int)
    requires
        0 <= i <= s.len(),
    ensures
        i <= digits_end(s, i) <= s.len(),
    decreases s.len() - i,
{
    if i < s.len() && is_digit(s[i]) {
        lemma_digits_end_bounds(s, i + 1);
    }
}

proof fn lemma_digits_end_digits(s: Seq<char>, i: int)
    requires
        0 <= i <= s.len(),
        forall|j: int| 0 <= j < i ==> is_digit(#[trigger] s[j]),
    ensures
        forall|j: int| 0 <= j < digits_end(s, i) ==> is_digit(#[trigger] s[j]),
    decreases s.len() - i,
{
    if i < s.len() && is_digit(s[i]) {
        lemma_digits_end_digits(s, i + 1);
    }
}

/// The decimal text of a number is a run of digits that stands for it.
proof fn lemma_decimal_digits(n: nat)
    ensures
        decimal(n).len() > 0,
        forall|i: int| 0 <= i < decimal(n).len() ==> is_digit(#[trigger] decimal(n)[i]),
        digits_value(decimal(n)) == n,
    decreases n,
{
    let c = digit_char(n % 10);
    assert(c as nat == 48 + n % 10);
    if n >= 10 {
        lemma_decimal_digits(n / 10);
        let s = decimal(n / 10);
        assert(decimal(n) == s.push(c));
        assert(decimal(n).drop_last() =~= s);
        assert(decimal(n).last() == c);
        assert(digits_value(decimal(n)) == digits_value(s) * 10 + ((c as nat) - ('0' as nat)) as nat);
        assert(n == (n / 10) * 10 + n % 10);
    } else {
        assert(decimal(n) == seq![c]);
        assert(decimal(n).drop_last() =~= Seq::<char>::empty());
        assert(decimal(n).last() == c);
        assert(digits_value(decimal(n)) == digits_value(Seq::<char>::empty()) * 10 + ((c as nat) - ('0' as nat)) as nat);
    }
}

/// Reading back the decimal text of a `u32` gives the number.
pub proof fn lemma_parse_decimal(n: u32)
    ensures
        spec_parse_u32(decimal(n as nat)) == Ok::<u32, NumberError>(n),
{
    let d = decimal(n as nat);
    lemma_decimal_digits(n as nat);
    assert(d[0] != '+') by {
        assert(is_digit(d[0]));
    }
    lemma_digits_end_skip(d, d.len() as int);
    assert(d.subrange(0, d.len() as int) =~= d);
}

/// The settings when nothing is given: Nano Snipper, full screen, 10 runs,
/// 3 seconds apart, text output.
pub open spec fn default_args() -> Args {
    Args { tool: Tool::NanoSnipper, mode: BenchMode::Fullscreen, runs: 10, delay_secs: 3, json: false }
}

/// The argument after position `i`, if any.
pub open spec fn arg_after(args: Seq<Seq<char>>, i: int) -> Option<Seq<char>> {
    if i + 1 < args.len() { Some(args[i + 1]) } else { None }
}

/// The command that arguments `i..` give, with `a` the settings so far.
pub open spec fn parse_from(args: Seq<Seq<char>>, i: int, a: Args) -> Result<Command, ArgsErrorView>
    decreases args.len() - i,
{
    if i < 0 || i >= args.len() {
        Ok(Command::Run(a))
    } else {
        let arg = args[i];
        let next = arg_after(args, i);
        if arg == "--tool"@ {
            if next == Some("nano-snipper"@) {
                parse_from(args, i + 2, Args { tool: Tool::NanoSnipper, ..a })
            } else if next == Some("snipping-tool"@) {
                parse_from(args, i + 2, Args { tool: Tool::SnippingTool, ..a })
            } else {
                Err(ArgsErrorView::UnknownTool(next))
            }
        } else if arg == "--mode"@ {
            if next == Some("fullscreen"@) {
                parse_from(args, i + 2, Args { mode: BenchMode::Fullscreen, ..a })
            } else {
                Err(ArgsErrorView::UnknownMode(next))
            }
        } else if arg == "--runs"@ || arg == "--delay"@ {
            let opt = if arg == "--runs"@ { NumberOption::Runs } else { NumberOption::Delay };
            match next {
                None => Err(ArgsErrorView::MissingNumber(opt)),
                Some(text) => match spec_parse_u32(text) {
                    Err(e) => Err(ArgsErrorView::InvalidNumber(e)),
                    Ok(v) => if arg == "--runs"@ {
                        parse_from(args, i + 2, Args { runs: v, ..a })
                    } else {
                        parse_from(args, i + 2, Args { delay_secs: v, ..a })
                    },
                },
            }
        } else if arg == "--json"@ {
            parse_from(args, i + 1, Args { json: true, ..a })
        } else if arg == "--help"@ || arg == "-h"@ {
            Ok(Command::Help)
        } else {
            Err(ArgsErrorView::UnknownArgument(arg))
        }
    }
}

/// The views of a list of strings.
pub open spec fn strings_view(v: Seq<String>) -> Seq<Seq<char>> {
    v.map_values(|s: String| s@)
}

/// Read the command line (`args[0]` is the program's name). Options are
/// read from the left; the first fault stops the reading, and `--help` or
/// `-h` stops it with the request for the usage text.
pub fn parse_args(args: &Vec<String>) -> (r: Result<Command, ArgsError>)
    ensures
        match r {
            Ok(c) => parse_from(strings_view(args@), 1, default_args()) == Ok::<Command, ArgsErrorView>(c),
            Err(e) => parse_from(strings_view(args@), 1, default_args()) == Err::<Command, ArgsErrorView>(e@),
        },
{
    let ghost av = strings_view(args@);
    let mut a = Args { tool: Tool::NanoSnipper, mode: BenchMode::Fullscreen, runs: 10, delay_secs: 3, json: false };
    let mut i: usize = 1;
    proof {
        reveal_strlit("--tool");
        reveal_strlit("--mode");
        reveal_strlit("--runs");
        reveal_strlit("--delay");
        reveal_strlit("--json");
        reveal_strlit("--help");
        reveal_strlit("-h");
        reveal_strlit("nano-snipper");
        reveal_strlit("snipping-tool");
        reveal_strlit("fullscreen");
    }
    while i < args.len()
        invariant
            av == strings_view(args@),
            av.len() == args@.len(),
            1 <= i,
            parse_from(av, 1, default_args()) == parse_from(av, i as int, a),
        decreases args.len() - i,
    {
        let arg = args[i].as_str();
        assert(arg@ == av[i as int]);
        let has_next = i + 1 < args.len();
        proof {
            if has_next {
                assert(av[i + 1] == args@[i + 1]@);
            }
        }
        if str_eq(arg, "--tool") {
            if has_next && str_eq(args[i + 1].as_str(), "nano-snipper") {
                a = Args { tool: Tool::NanoSnipper, ..a };
                i = i + 2;
            } else if has_next && str_eq(args[i + 1].as_str(), "snipping-tool") {
                a = Args { tool: Tool::SnippingTool, ..a };
                i = i + 2;
            } else {
                let other = if has_next { Some(args[i + 1].clone()) } else { None };
                return Err(ArgsError::UnknownTool(other));
            }
        } else if str_eq(arg, "--mode") {
            if has_next && str_eq(args[i + 1].as_str(), "fullscreen") {
                a = Args { mode: BenchMode::Fullscreen, ..a };
                i = i + 2;
            } else {
                let other = if has_next { Some(args[i + 1].clone()) } else { None };
                return Err(ArgsError::UnknownMode(other));
            }
        } else if str_eq(arg, "--runs") || str_eq(arg, "--delay") {
            let is_runs = str_eq(arg, "--runs");
            if !has_next {
                let opt = if is_runs { NumberOption::Runs } else { NumberOption::Delay };
                return Err(ArgsError::MissingNumber(opt));
            }
            match parse_u32(args[i + 1].as_str()) {
                Err(e) => {
                    return Err(ArgsError::InvalidNumber(e));
                },
                Ok(v) => {
                    if is_runs {
                        a = Args { runs: v, ..a };
                    } else {
                        a = Args { delay_secs: v, ..a };
                    }
                    i = i + 2;
                },
            }
        } else if str_eq(arg, "--json") {
            a = Args { json: true, ..a };
            i = i + 1;
        } else if str_eq(arg, "--help") || str_eq(arg, "-h") {
            return Ok(Command::Help);
        } else {
            return Err(ArgsError::UnknownArgument(args[i].clone()));
        }
    }
    Ok(Command::Run(a))
}

/// `KEYEVENTF_EXTENDEDKEY`: the key is an extended key.
pub const KEYEVENTF_EXTENDEDKEY: u32 = 0x1;
/// `KEYEVENTF_KEYUP`: the key is being released.
pub const KEYEVENTF_KEYUP: u32 = 0x2;

/// One synthesised keyboard event.
#[derive(Debug, Clone, Copy, PartialEq, Eq, Structural)]
pub struct KeyEvent {
    pub vk: u16,
    pub flags: u32,
}

/// The flags of a key press (`up` false) or release of a key.
pub open spec fn key_flags(up: bool, extended: bool) -> u32 {
    ((if up { KEYEVENTF_KEYUP } else { 0u32 }) + (if extended { KEYEVENTF_EXTENDEDKEY } else { 0u32 })) as u32
}

/// The events that press a key combination: every key down in the given
/// order, then every key up in the reverse order. Each key comes with
/// whether it is an extended key.
pub fn key_combo_events(keys: &Vec<(u16, bool)>) -> (r: Vec<KeyEvent>)
    requires
        keys@.len() * 2 <= usize::MAX,
    ensures
        r@.len() == 2 * keys@.len(),
        forall|i: int| 0 <= i < keys@.len() ==> #[trigger] r@[i]
            == (KeyEvent { vk: keys@[i].0, flags: key_flags(false, keys@[i].1) }),
        forall|i: int| 0 <= i < keys@.len() ==> #[trigger] r@[keys@.len() + i]
            == (KeyEvent { vk: keys@[keys@.len() - 1 - i].0, flags: key_flags(true, keys@[keys@.len() - 1 - i].1) }),
{
    let n = keys.len();
    let mut events: Vec<KeyEvent> = Vec::with_capacity(2 * n);
    let mut i: usize = 0;
    while i < n
        invariant
            n == keys@.len(),
            i <= n,
            events@.len() == i,
            forall|j: int| 0 <= j < i ==> #[trigger] events@[j]
                == (KeyEvent { vk: keys@[j].0, flags: key_flags(false, keys@[j].1) }),
        decreases n - i,
    {
        let (vk, extended) = keys[i];
        let flags: u32 = if extended { KEYEVENTF_EXTENDEDKEY } else { 0 };
        events.push(KeyEvent { vk, flags });
        i = i + 1;
    }
    let mut j: usize = 0;
    while j < n
        invariant
            n == keys@.len(),
            j <= n,
            events@.len() == n + j,
            forall|m: int| 0 <= m < n ==> #[trigger] events@[m]
                == (KeyEvent { vk: keys@[m].0, flags: key_flags(false, keys@[m].1) }),
            forall|m: int| 0 <= m < j ==> #[trigger] events@[n + m]
                == (KeyEvent { vk: keys@[n - 1 - m].0, flags: key_flags(true, keys@[n - 1 - m].1) }),
        decreases n - j,
    {
        let (vk, extended) = keys[n - 1 - j];
        let flags: u32 = if extended { KEYEVENTF_KEYUP + KEYEVENTF_EXTENDEDKEY } else { KEYEVENTF_KEYUP };
        events.push(KeyEvent { vk, flags });
        j = j + 1;
    }
    events
}

/// `CLR_INVALID`: what reading a pixel returns when it fails.
pub const CLR_INVALID: u32 = 0xFFFF_FFFF;

/// The mean of the red, green and blue bytes of a `COLORREF`
/// (`0x00BBGGRR`), rounded down; 255 for `CLR_INVALID`.
pub open spec fn spec_brightness(color: u32) -> u32 {
    if color == CLR_INVALID {
        255
    } else {
        ((color % 256 + (color / 256) % 256 + (color / 65536) % 256) / 3) as u32
    }
}

/// The brightness of a sampled screen pixel.
pub fn colorref_brightness(color: u32) -> (r: u32)
    ensures
        r == spec_brightness(color),
{
    if color == CLR_INVALID {
        return 255;
    }
    let r = color & 0xFF;
    let g = (color >> 8) & 0xFF;
    let b = (color >> 16) & 0xFF;
    assert(r == color % 256 && g == (color / 256) % 256 && b == (color / 65536) % 256) by (bit_vector)
        requires r == color & 0xFF, g == (color >> 8) & 0xFF, b == (color >> 16) & 0xFF;
    (r + g + b) / 3
}

} // verus!
