//! The reporter: the text that is shown for a function that was flagged.
//!
//! Positions in source text are byte offsets into its UTF-8 encoding.

use vstd::prelude::*;
use vstd::string::{StrSliceExecFns, StringExecFns, StringSliceAdditionalSpecFns};
use vstd::utf8::{decode_utf8, is_char_boundary_start_end_of_seq};
use colored::{Color, Colorize};
use crate::text::{lemma_boundaries_at_ascii, slice, trim, without_space_around};

verus! {

/// The byte of a line feed.
pub const LINE_FEED: u8 = 0x0a;

/// The byte of `{`.
pub const OPENING_BRACE: u8 = 0x7b;

/// The byte of `=`.
pub const EQUALS_SIGN: u8 = 0x3d;

/// The byte of `>`.
pub const GREATER_THAN: u8 = 0x3e;

/// From this score on a function is of concern.
pub const CONCERN: usize = 3;

/// From this score on a function deserves a warning.
pub const WARNING: usize = 5;

/// From this score on a function is a danger.
pub const DANGER: usize = 7;

/// A colour of the terminal.
#[derive(Clone, Copy, Debug, PartialEq, Eq, Structural)]
pub enum Tone {
    Yellow,
    BrightRed,
    Red,
    Blue,
}

/// The colour that a score is shown in; none below `CONCERN`.
pub open spec fn tone_of(score: int) -> Option<Tone> {
    if score >= DANGER {
        Some(Tone::Red)
    } else if score >= WARNING {
        Some(Tone::BrightRed)
    } else if score >= CONCERN {
        Some(Tone::Yellow)
    } else {
        None
    }
}

/// The escape sequence that switches a colour on.
pub open spec fn escape_code(tone: Tone) -> Seq<char> {
    match tone {
        Tone::Yellow => "\u{1b}[33m"@,
        Tone::BrightRed => "\u{1b}[91m"@,
        Tone::Red => "\u{1b}[31m"@,
        Tone::Blue => "\u{1b}[34m"@,
    }
}

/// `text` as the terminal gets it: with or without the escape sequence of
/// the colour before it, and with or without the reset sequence after it.
pub open spec fn painted_as(text: Seq<char>, tone: Tone, on: bool, off: bool) -> Seq<char> {
    (if on {
        escape_code(tone)
    } else {
        Seq::empty()
    }) + text + (if off {
        "\u{1b}[0m"@
    } else {
        Seq::empty()
    })
}

/// Whether `colorized` is the label of `score` as the terminal gets it: in
/// the colour of its severity, and plain below `CONCERN`.
pub open spec fn is_colorized_score(colorized: Seq<char>, score: nat) -> bool {
    match tone_of(score as int) {
        Some(tone) => exists|on: bool, off: bool| colorized == #[trigger] painted_as(
            score_label(score),
            tone,
            on,
            off,
        ),
        None => colorized == score_label(score),
    }
}

/// The digit `d` as a character.
pub open spec fn digit_char(d: int) -> char {
    "0123456789"@[d]
}

/// A number in decimal notation.
pub open spec fn decimal_digits(n: nat) -> Seq<char>
    decreases n,
{
    if n < 10 {
        seq![digit_char(n as int)]
    } else {
        decimal_digits(n / 10).push(digit_char((n % 10) as int))
    }
}

/// The label of a score, before any colouring.
pub open spec fn score_label(score: nat) -> Seq<char> {
    "Complexity: "@ + decimal_digits(score) + "/10"@
}

/// The text of a report: the place, the score and the declaration, each on a
/// line of its own.
pub open spec fn report_text(
    file_name: Seq<char>,
    line: nat,
    col: nat,
    score: Seq<char>,
    heading: Seq<char>,
    declaration: Seq<char>,
) -> Seq<char> {
    file_name + ":"@ + decimal_digits(line) + ":"@ + decimal_digits(col) + "\n"@ + score + "\n"@
        + heading + ": "@ + declaration + "\n"@
}

/// Where the line begins that holds the offset `start`: after the last line
/// feed before `start`, or at the start of the text.
pub open spec fn line_start(source: Seq<u8>, start: int) -> int
    decreases start,
{
    if start <= 0 {
        0
    } else if source[start - 1] == LINE_FEED {
        start
    } else {
        line_start(source, start - 1)
    }
}

/// Whether a body opens at offset `i`: with `{`, or with `=>`.
pub open spec fn opens_body(source: Seq<u8>, i: int) -> bool {
    source[i] == OPENING_BRACE || (source[i] == EQUALS_SIGN && i + 1 < source.len() && source[i + 1]
        == GREATER_THAN)
}

/// The first offset from `from` on at which a body opens; the end of the
/// text if none does.
pub open spec fn body_start(source: Seq<u8>, from: int) -> int
    decreases source.len() - from,
{
    if from >= source.len() {
        source.len() as int
    } else if opens_body(source, from) {
        from
    } else {
        body_start(source, from + 1)
    }
}

/// The declaration of the function at offset `start`: the text from the
/// start of its line up to where its body opens, without white space around it.
pub open spec fn declaration_text(source: Seq<u8>, start: int) -> Seq<char> {
    without_space_around(
        decode_utf8(source.subrange(line_start(source, start), body_start(source, start))),
    )
}

/// The line of an offset begins at or before it, at the start of the text or
/// behind a line feed, and no line feed lies between the two.
pub proof fn lemma_line_start_is_nearest(source: Seq<u8>, start: int)
    requires
        0 <= start <= source.len(),
    ensures
        0 <= line_start(source, start) <= start,
        line_start(source, start) == 0 || source[line_start(source, start) - 1] == LINE_FEED,
        forall|k: int| line_start(source, start) <= k < start ==> source[k] != LINE_FEED,
    decreases start,
{
    if start > 0 && source[start - 1] != LINE_FEED {
        lemma_line_start_is_nearest(source, start - 1);
    }
}

/// The body opens at or behind the offset the search starts from, where a
/// body does open or at the end of the text, and none opens between the two.
pub proof fn lemma_body_start_is_first(source: Seq<u8>, from: int)
    requires
        0 <= from <= source.len(),
    ensures
        from <= body_start(source, from) <= source.len(),
        body_start(source, from) < source.len() ==> opens_body(source, body_start(source, from)),
        forall|k: int| from <= k < body_start(source, from) ==> !opens_body(source, k),
    decreases source.len() - from,
{
    if from < source.len() && !opens_body(source, from) {
        lemma_body_start_is_first(source, from + 1);
    }
}

fn find_line_start(bytes: &[u8], start: usize) -> (at: usize)
    requires
        start <= bytes@.len(),
    ensures
        at == line_start(bytes@, start as int),
        at <= start,
        at == 0 || bytes@[at - 1] == LINE_FEED,
{
    let mut i: usize = start;
    while i > 0 && bytes[i - 1] != LINE_FEED
        invariant
            i <= start <= bytes@.len(),
            line_start(bytes@, start as int) == line_start(bytes@, i as int),
        decreases i,
    {
        i -= 1;
    }
    i
}

fn find_body_start(bytes: &[u8], start: usize) -> (at: usize)
    requires
        start <= bytes@.len(),
    ensures
        at == body_start(bytes@, start as int),
        start <= at <= bytes@.len(),
        at == bytes@.len() || bytes@[at as int] == OPENING_BRACE || bytes@[at as int]
            == EQUALS_SIGN,
{
    let mut i: usize = start;
    while i < bytes.len() && !(bytes[i] == OPENING_BRACE || (bytes[i] == EQUALS_SIGN && i + 1
        < bytes.len() && bytes[i + 1] == GREATER_THAN))
        invariant
            start <= i <= bytes@.len(),
            body_start(bytes@, start as int) == body_start(bytes@, i as int),
        decreases bytes@.len() - i,
    {
        i += 1;
    }
    i
}

/// The declaration of the function that starts at the byte offset
/// `start_index` of `source_code`: the text from the start of its line up to
/// the first `{` or `=>`, without white space around it.
pub fn _extract_function_declaration(source_code: &str, start_index: usize) -> (signature: String)
    requires
        start_index <= source_code.spec_bytes().len(),
    ensures
        signature@ == declaration_text(source_code.spec_bytes(), start_index as int),
{
    broadcast use vstd::utf8::encode_utf8_valid_utf8;

    let bytes = source_code.as_bytes();
    let line_start = find_line_start(bytes, start_index);
    let body_start_index = find_body_start(bytes, start_index);
    proof {
        is_char_boundary_start_end_of_seq(bytes@);
        if line_start > 0 {
            lemma_boundaries_at_ascii(bytes@, line_start - 1);
        }
        if body_start_index < bytes@.len() {
            lemma_boundaries_at_ascii(bytes@, body_start_index as int);
        }
    }
    String::from_str(trim(slice(source_code, line_start, body_start_index)))
}

/// The colour that a score is shown in; none below `CONCERN`.
pub fn severity(score: usize) -> (tone: Option<Tone>)
    ensures
        tone == tone_of(score as int),
{
    if score >= DANGER {
        Some(Tone::Red)
    } else if score >= WARNING {
        Some(Tone::BrightRed)
    } else if score >= CONCERN {
        Some(Tone::Yellow)
    } else {
        None
    }
}

fn digit(d: usize) -> (text: &'static str)
    requires
        d < 10,
    ensures
        text@ == seq![digit_char(d as int)],
{
    proof {
        reveal_strlit("0123456789");
    }
    "0123456789".substring_ascii(d, d + 1)
}

/// A number in decimal notation.
pub fn decimal(n: usize) -> (text: String)
    ensures
        text@ == decimal_digits(n as nat),
    decreases n,
{
    if n < 10 {
        String::from_str(digit(n))
    } else {
        let mut text = decimal(n / 10);
        text.append(digit(n % 10));
        text
    }
}

/// Calls `colored::Colorize::color` on `text` and renders the result with
/// `to_string`. Whether escape sequences are added depends on the terminal
/// and on how the process was started, so the contract leaves that open: what
/// comes back is `text`, with or without the escape sequence of the colour
/// before it and the reset sequence after it. This is claimed of a text
/// without an escape character only: in any other the crate may change reset
/// sequences.
#[verifier::external_body]
fn paint(text: &str, tone: Tone) -> (painted: String)
    ensures
        !text@.contains('\u{1b}') ==> exists|on: bool, off: bool|
            painted@ == #[trigger] painted_as(text@, tone, on, off),
{
    let color = match tone {
        Tone::Yellow => Color::Yellow,
        Tone::BrightRed => Color::BrightRed,
        Tone::Red => Color::Red,
        Tone::Blue => Color::Blue,
    };
    text.color(color).to_string()
}

/// Decimal notation holds digits only.
proof fn lemma_decimal_digits_are_digits(n: nat)
    ensures
        forall|i: int|
            0 <= i < decimal_digits(n).len() ==> '0' <= #[trigger] decimal_digits(n)[i] <= '9',
    decreases n,
{
    reveal_strlit("0123456789");
    let digits = decimal_digits(n);
    if n < 10 {
        assert('0' <= digit_char(n as int) <= '9');
    } else {
        lemma_decimal_digits_are_digits(n / 10);
        assert('0' <= digit_char((n % 10) as int) <= '9');
        assert forall|i: int| 0 <= i < digits.len() implies '0' <= #[trigger] digits[i] <= '9' by {
            if i < decimal_digits(n / 10).len() {
                assert(digits[i] == decimal_digits(n / 10)[i]);
            }
        }
    }
}

/// The label of a score holds no escape character.
proof fn lemma_score_label_is_plain(score: nat)
    ensures
        !score_label(score).contains('\u{1b}'),
{
    reveal_strlit("Complexity: ");
    reveal_strlit("/10");
    lemma_decimal_digits_are_digits(score);
    let label = score_label(score);
    assert forall|i: int| 0 <= i < label.len() implies label[i] != '\u{1b}' by {
        if i < 12 {
            assert(label[i] == "Complexity: "@[i]);
        } else if i < 12 + decimal_digits(score).len() {
            assert(label[i] == decimal_digits(score)[i - 12]);
        } else {
            assert(label[i] == "/10"@[i - 12 - decimal_digits(score).len()]);
        }
    }
}

/// The label of a score, in the colour of its severity. Below `CONCERN` the
/// label is left plain.
pub fn _get_colorized_score(score: usize) -> (colorized: String)
    ensures
        is_colorized_score(colorized@, score as nat),
{
    let mut score_label = String::from_str("Complexity: ");
    score_label.append(decimal(score).as_str());
    score_label.append("/10");
    proof {
        lemma_score_label_is_plain(score as nat);
    }
    match severity(score) {
        Some(tone) => paint(score_label.as_str(), tone),
        None => score_label,
    }
}

/// What is shown in place of a file name that is empty.
pub open spec fn empty_file_name_message() -> Seq<char> {
    "Invalid or empty file name provided"@
}

/// What is shown in place of a file name where the working directory is not known.
pub open spec fn unknown_directory_message() -> Seq<char> {
    "Failed to get current directory"@
}

/// Calls `std::path::Path::strip_prefix` on `file` with `base` and renders
/// what is left with `Path::display`; nothing where `base` is no prefix of
/// `file`. Paths are read as the platform reads them, so nothing is claimed
/// of the text that comes back.
#[verifier::external_body]
fn strip_prefix(file: &str, base: &str) -> (rest: Option<String>) {
    match std::path::Path::new(file).strip_prefix(std::path::Path::new(base)) {
        Ok(relative_path) => Some(relative_path.display().to_string()),
        Err(_) => None,
    }
}

/// The file name to show, given what is left of it behind the working
/// directory: that, or the whole name where it does not lie under the
/// working directory.
pub fn relative_or_whole(file: &str, rest: Option<String>) -> (shown: String)
    ensures
        match rest {
            Some(relative_path) => shown@ == relative_path@,
            None => shown@ == file@,
        },
{
    match rest {
        Some(relative_path) => relative_path,
        None => String::from_str(file),
    }
}

/// The file name to show in a report: relative to the working directory
/// where the file lies under it, else as it is. An empty name and an unknown
/// working directory are shown as a message.
pub fn _get_relative_path(file: &str, current_dir: Option<&str>) -> (shown: String)
    ensures
        file@.len() == 0 ==> shown@ == empty_file_name_message(),
        file@.len() > 0 && current_dir is None ==> shown@ == unknown_directory_message(),
{
    if file.is_empty() {
        return String::from_str("Invalid or empty file name provided");
    }
    match current_dir {
        Some(current_dir) => relative_or_whole(file, strip_prefix(file, current_dir)),
        None => String::from_str("Failed to get current directory"),
    }
}

/// Puts a report together from its parts.
pub fn compose_report(
    file_name: &str,
    line: usize,
    col: usize,
    score: &str,
    heading: &str,
    declaration: &str,
) -> (text: String)
    ensures
        text@ == report_text(file_name@, line as nat, col as nat, score@, heading@, declaration@),
{
    let mut text = String::from_str(file_name);
    text.append(":");
    text.append(decimal(line).as_str());
    text.append(":");
    text.append(decimal(col).as_str());
    text.append("\n");
    text.append(score);
    text.append("\n");
    text.append(heading);
    text.append(": ");
    text.append(declaration);
    text.append("\n");
    text
}

/// The report for a flagged function: where it is, its score, and its
/// declaration. The score is coloured by its severity and the heading of the
/// declaration is blue, as far as the terminal allows.
pub fn report_function(
    file_name: &str,
    line: usize,
    col: usize,
    source_code: &str,
    start_index: usize,
    score: usize,
) -> (text: String)
    requires
        start_index <= source_code.spec_bytes().len(),
    ensures
        exists|label: Seq<char>, on: bool, off: bool|
            {
                &&& is_colorized_score(label, score as nat)
                &&& text@ == #[trigger] report_text(
                    file_name@,
                    line as nat,
                    col as nat,
                    label,
                    painted_as("Declaration"@, Tone::Blue, on, off),
                    declaration_text(source_code.spec_bytes(), start_index as int),
                )
            },
{
    let snippet = _extract_function_declaration(source_code, start_index);
    let label = _get_colorized_score(score);
    proof {
        reveal_strlit("Declaration");
    }
    let heading = paint("Declaration", Tone::Blue);
    let text = compose_report(
        file_name,
        line,
        col,
        label.as_str(),
        heading.as_str(),
        snippet.as_str(),
    );
    proof {
        let (on, off) = choose|on: bool, off: bool|
            heading@ == #[trigger] painted_as("Declaration"@, Tone::Blue, on, off);
        assert(text@ == report_text(
            file_name@,
            line as nat,
            col as nat,
            label@,
            painted_as("Declaration"@, Tone::Blue, on, off),
            declaration_text(source_code.spec_bytes(), start_index as int),
        ));
    }
    text
}

} // verus!
