//! The attack console: the lines that the guest printed, classified for
//! display, and the pace at which they are shown.

use vstd::prelude::*;

verus! {

/// Time between two lines of the narration, in milliseconds.
pub const LINE_INTERVAL_MS: u32 = 150;

/// Time from the last line to the end of the narration, in milliseconds.
pub const CLOSING_PAUSE_MS: u32 = 200;

/// The mark of a check that passed.
pub const PASS_MARK: char = '\u{2713}';

/// The mark of a check that failed.
pub const FAIL_MARK: char = '\u{2717}';

/// The mark of a warning.
pub const WARNING_MARK: char = '\u{26a0}';

/// Whether a character is white space in the sense of Unicode: the control
/// characters from tab to carriage return, the space, the next-line control,
/// the no-break spaces, the Ogham space mark, the spaces of fixed width from
/// en quad to hair space, the line and paragraph separators, the medium
/// mathematical space and the ideographic space.
pub open spec fn is_white_space(c: char) -> bool {
    let code = c as u32;
    ||| 0x09 <= code <= 0x0d
    ||| code == 0x20
    ||| code == 0x85
    ||| code == 0xa0
    ||| code == 0x1680
    ||| 0x2000 <= code <= 0x200a
    ||| code == 0x2028
    ||| code == 0x2029
    ||| code == 0x202f
    ||| code == 0x205f
    ||| code == 0x3000
}

/// `text` without the white space at its start.
pub open spec fn trimmed_start(text: Seq<char>) -> Seq<char>
    decreases text.len(),
{
    if text.len() > 0 && is_white_space(text.first()) {
        trimmed_start(text.drop_first())
    } else {
        text
    }
}

/// `text` without the white space at its end.
pub open spec fn trimmed_end(text: Seq<char>) -> Seq<char>
    decreases text.len(),
{
    if text.len() > 0 && is_white_space(text.last()) {
        trimmed_end(text.drop_last())
    } else {
        text
    }
}

/// `text` without the white space at its start and at its end.
pub open spec fn trimmed(text: Seq<char>) -> Seq<char> {
    trimmed_end(trimmed_start(text))
}

/// `text` with `prefix` taken from its start as often as it stands there.
pub open spec fn without_prefixes(text: Seq<char>, prefix: Seq<char>) -> Seq<char>
    decreases text.len(),
{
    if prefix.len() > 0 && prefix.is_prefix_of(text) {
        without_prefixes(text.skip(prefix.len() as int), prefix)
    } else {
        text
    }
}

/// The body of a tagged line: the line without its tag and the space after it,
/// and without white space around what is left.
pub open spec fn body_of(line: Seq<char>, tag_and_space: Seq<char>) -> Seq<char> {
    trimmed(without_prefixes(line, tag_and_space))
}

/// Level, source and message of a line of the guest, by its tag. A line of the
/// warden takes its level from the first of the three marks that it holds, in
/// the order pass, fail, warning; without a mark it is shown like a line
/// without a tag: whole, as plain information.
pub open spec fn guest_log_of(line: Seq<char>) -> (Seq<char>, Seq<char>, Seq<char>) {
    if "[DRIVER]"@.is_prefix_of(line) {
        ("info"@, "DRIVER"@, body_of(line, "[DRIVER] "@))
    } else if "[WARDEN]"@.is_prefix_of(line) && line.contains(PASS_MARK) {
        ("success"@, "WARDEN"@, body_of(line, "[WARDEN] "@))
    } else if "[WARDEN]"@.is_prefix_of(line) && line.contains(FAIL_MARK) {
        ("error"@, "WARDEN"@, body_of(line, "[WARDEN] "@))
    } else if "[WARDEN]"@.is_prefix_of(line) && line.contains(WARNING_MARK) {
        ("warn"@, "WARDEN"@, body_of(line, "[WARDEN] "@))
    } else if "[WASI]"@.is_prefix_of(line) {
        ("info"@, "WASI"@, body_of(line, "[WASI] "@))
    } else if "[DATA]"@.is_prefix_of(line) {
        ("success"@, "DATA"@, body_of(line, "[DATA] "@))
    } else if "[DIODE]"@.is_prefix_of(line) {
        ("diode"@, "DIODE"@, body_of(line, "[DIODE] "@))
    } else if "[BREACH]"@.is_prefix_of(line) {
        ("breach"@, "BREACH"@, body_of(line, "[BREACH] "@))
    } else {
        ("info"@, "LOG"@, line)
    }
}

/// Dropping `count` leading characters that are all white space does not
/// change what is left once the leading white space is gone.
pub proof fn lemma_trimmed_start_skip(text: Seq<char>, count: int)
    requires
        0 <= count <= text.len(),
        forall|i: int| 0 <= i < count ==> is_white_space(#[trigger] text[i]),
    ensures
        trimmed_start(text) == trimmed_start(text.subrange(count, text.len() as int)),
    decreases count,
{
    if count == 0 {
        assert(text.subrange(0, text.len() as int) =~= text);
    } else {
        let rest = text.drop_first();
        assert forall|i: int| 0 <= i < count - 1 implies is_white_space(#[trigger] rest[i]) by {
            assert(rest[i] == text[i + 1]);
        }
        lemma_trimmed_start_skip(rest, count - 1);
        assert(rest.subrange(count - 1, rest.len() as int) =~= text.subrange(
            count,
            text.len() as int,
        ));
    }
}

/// Dropping trailing characters that are all white space does not change
/// what is left once the trailing white space is gone.
pub proof fn lemma_trimmed_end_keep(text: Seq<char>, kept: int)
    requires
        0 <= kept <= text.len(),
        forall|i: int| kept <= i < text.len() ==> is_white_space(#[trigger] text[i]),
    ensures
        trimmed_end(text) == trimmed_end(text.subrange(0, kept)),
    decreases text.len() - kept,
{
    if kept == text.len() {
        assert(text.subrange(0, kept) =~= text);
    } else {
        let rest = text.drop_last();
        assert(is_white_space(text[text.len() - 1]));
        assert forall|i: int| kept <= i < rest.len() implies is_white_space(
            #[trigger] rest[i],
        ) by {
            assert(rest[i] == text[i]);
        }
        lemma_trimmed_end_keep(rest, kept);
        assert(rest.subrange(0, kept) =~= text.subrange(0, kept));
    }
}

/// Whether `c` is white space.
fn is_white_space_char(c: char) -> (white: bool)
    ensures
        white == is_white_space(c),
{
    let code: u32 = c as u32;
    (0x09 <= code && code <= 0x0d) || code == 0x20 || code == 0x85 || code == 0xa0 || code
        == 0x1680 || (0x2000 <= code && code <= 0x200a) || code == 0x2028 || code == 0x2029
        || code == 0x202f || code == 0x205f || code == 0x3000
}

/// Whether `prefix` is a prefix of `text`.
fn starts_with(text: &str, prefix: &str) -> (found: bool)
    ensures
        found == prefix@.is_prefix_of(text@),
{
    let wanted = prefix.unicode_len();
    if wanted > text.unicode_len() {
        return false;
    }
    let mut i: usize = 0;
    while i < wanted
        invariant
            i <= wanted,
            wanted == prefix@.len(),
            wanted <= text@.len(),
            forall|j: int| 0 <= j < i ==> prefix@[j] == text@[j],
        decreases wanted - i,
    {
        if prefix.get_char(i) != text.get_char(i) {
            proof {
                assert(text@.subrange(0, wanted as int)[i as int] == text@[i as int]);
            }
            return false;
        }
        i = i + 1;
    }
    proof {
        assert(prefix@ =~= text@.subrange(0, wanted as int));
    }
    true
}

/// `mark` stands at a position of `text` before `end`.
pub open spec fn occurs_before(text: Seq<char>, mark: char, end: int) -> bool {
    exists|j: int| 0 <= j < end && text[j] == mark
}

/// Whether `mark` occurs in `text`.
fn contains_mark(text: &str, mark: char) -> (found: bool)
    ensures
        found == text@.contains(mark),
{
    let mut found = false;
    for c in it: text.chars()
        invariant
            it.seq() == text@,
            found == occurs_before(text@, mark, it.index() as int),
    {
        if c == mark {
            found = true;
        }
    }
    found
}

/// `text` with `prefix` taken from its start as often as it stands there.
fn strip_prefixes<'a>(text: &'a str, prefix: &str) -> (rest: &'a str)
    requires
        prefix@.len() > 0,
    ensures
        rest@ == without_prefixes(text@, prefix@),
{
    let width = prefix.unicode_len();
    let mut rest = text;
    while starts_with(rest, prefix)
        invariant
            width == prefix@.len(),
            width > 0,
            without_prefixes(text@, prefix@) == without_prefixes(rest@, prefix@),
        decreases rest@.len(),
    {
        let length = rest.unicode_len();
        rest = rest.substring_char(width, length);
    }
    rest
}

/// `text` without the white space at its start and at its end.
fn trim<'a>(text: &'a str) -> (rest: &'a str)
    ensures
        rest@ == trimmed(text@),
{
    let length = text.unicode_len();
    let mut start: usize = 0;
    let mut leading = true;
    while leading && start < length
        invariant
            length == text@.len(),
            start <= length,
            forall|i: int| 0 <= i < start ==> is_white_space(#[trigger] text@[i]),
            !leading ==> start < length && !is_white_space(text@[start as int]),
        decreases length - start + if leading { 1int } else { 0int },
    {
        if is_white_space_char(text.get_char(start)) {
            start = start + 1;
        } else {
            leading = false;
        }
    }
    let mut end: usize = length;
    let mut trailing = true;
    while trailing && end > start
        invariant
            length == text@.len(),
            start <= end <= length,
            forall|i: int| end <= i < length ==> is_white_space(#[trigger] text@[i]),
            !trailing ==> end > start && !is_white_space(text@[end - 1]),
        decreases end - start + if trailing { 1int } else { 0int },
    {
        if is_white_space_char(text.get_char(end - 1)) {
            end = end - 1;
        } else {
            trailing = false;
        }
    }
    proof {
        let front = text@.subrange(start as int, length as int);
        lemma_trimmed_start_skip(text@, start as int);
        assert(trimmed_start(text@) == front);
        assert forall|i: int| end - start <= i < front.len() implies is_white_space(
            #[trigger] front[i],
        ) by {
            assert(front[i] == text@[i + start]);
        }
        lemma_trimmed_end_keep(front, end - start);
        assert(front.subrange(0, end - start) =~= text@.subrange(start as int, end as int));
    }
    text.substring_char(start, end)
}

/// The body of a tagged line.
fn body<'a>(line: &'a str, tag_and_space: &str) -> (body: &'a str)
    requires
        tag_and_space@.len() > 0,
    ensures
        body@ == body_of(line@, tag_and_space@),
{
    trim(strip_prefixes(line, tag_and_space))
}

/// Splits a line of the guest into level, source and message.
pub fn parse_guest_log(msg: &str) -> (parsed: (&str, &str, &str))
    ensures
        parsed.0@ == guest_log_of(msg@).0,
        parsed.1@ == guest_log_of(msg@).1,
        parsed.2@ == guest_log_of(msg@).2,
{
    proof {
        reveal_strlit("[DRIVER] ");
        reveal_strlit("[WARDEN] ");
        reveal_strlit("[WASI] ");
        reveal_strlit("[DATA] ");
        reveal_strlit("[DIODE] ");
        reveal_strlit("[BREACH] ");
    }
    if starts_with(msg, "[DRIVER]") {
        ("info", "DRIVER", body(msg, "[DRIVER] "))
    } else if starts_with(msg, "[WARDEN]") && contains_mark(msg, PASS_MARK) {
        ("success", "WARDEN", body(msg, "[WARDEN] "))
    } else if starts_with(msg, "[WARDEN]") && contains_mark(msg, FAIL_MARK) {
        ("error", "WARDEN", body(msg, "[WARDEN] "))
    } else if starts_with(msg, "[WARDEN]") && contains_mark(msg, WARNING_MARK) {
        ("warn", "WARDEN", body(msg, "[WARDEN] "))
    } else if starts_with(msg, "[WASI]") {
        ("info", "WASI", body(msg, "[WASI] "))
    } else if starts_with(msg, "[DATA]") {
        ("success", "DATA", body(msg, "[DATA] "))
    } else if starts_with(msg, "[DIODE]") {
        ("diode", "DIODE", body(msg, "[DIODE] "))
    } else if starts_with(msg, "[BREACH]") {
        ("breach", "BREACH", body(msg, "[BREACH] "))
    } else {
        ("info", "LOG", msg)
    }
}

/// The largest delay that a timer takes.
pub open spec fn capped(delay_ms: int) -> int {
    if delay_ms > u32::MAX {
        u32::MAX as int
    } else {
        delay_ms
    }
}

/// The time that `lines` lines take, uncapped.
fn lines_time_ms(lines: u32) -> (time_ms: u64)
    ensures
        time_ms == lines * LINE_INTERVAL_MS,
{
    assert(lines * LINE_INTERVAL_MS <= u32::MAX * LINE_INTERVAL_MS) by (nonlinear_arith);
    lines as u64 * LINE_INTERVAL_MS as u64
}

/// When line number `index` of the narration is due: one interval for each
/// line before it, capped at what a timer takes.
pub fn line_delay_ms(index: u32) -> (delay_ms: u32)
    ensures
        delay_ms == capped(index * LINE_INTERVAL_MS),
{
    let exact: u64 = lines_time_ms(index);
    if exact > u32::MAX as u64 {
        u32::MAX
    } else {
        exact as u32
    }
}

/// When the sensor readings appear in a narration of `line_count` lines:
/// halfway through the lines.
pub fn sensor_delay_ms(line_count: u32) -> (delay_ms: u32)
    ensures
        delay_ms == capped((line_count * LINE_INTERVAL_MS) / 2),
{
    let exact: u64 = lines_time_ms(line_count) / 2;
    if exact > u32::MAX as u64 {
        u32::MAX
    } else {
        exact as u32
    }
}

/// When a narration of `line_count` lines is over: a closing pause after the
/// time of all its lines.
pub fn closing_delay_ms(line_count: u32) -> (delay_ms: u32)
    ensures
        delay_ms == capped(line_count * LINE_INTERVAL_MS + CLOSING_PAUSE_MS),
        delay_ms >= line_delay_ms_of(line_count as int),
{
    let exact: u64 = lines_time_ms(line_count) + CLOSING_PAUSE_MS as u64;
    if exact > u32::MAX as u64 {
        u32::MAX
    } else {
        exact as u32
    }
}

/// The delay of line number `index`.
pub open spec fn line_delay_ms_of(index: int) -> int {
    capped(index * LINE_INTERVAL_MS)
}

/// Lines are due in their order, the readings appear no later than the last
/// line would, and the narration ends after everything else.
pub proof fn lemma_narration_order(earlier: u32, later: u32, line_count: u32)
    requires
        earlier <= later < line_count,
    ensures
        line_delay_ms_of(earlier as int) <= line_delay_ms_of(later as int),
        line_delay_ms_of(later as int) <= capped(line_count * LINE_INTERVAL_MS + CLOSING_PAUSE_MS),
        capped((line_count * LINE_INTERVAL_MS) / 2) <= capped(
            line_count * LINE_INTERVAL_MS + CLOSING_PAUSE_MS,
        ),
{
}

} // verus!
