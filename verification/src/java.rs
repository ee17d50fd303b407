//! Which Java runtime is good enough: reading what `java -version` prints.
use vstd::prelude::*;
use vstd::string::*;
use crate::text;

verus! {

/// The oldest major version of Java that LanguageTool runs on.
pub const MIN_JAVA_MAJOR: u32 = 17;

/// What a run of `java -version` wrote to its two output streams.
#[derive(Debug)]
pub struct JavaOutput {
    pub stderr: Vec<u8>,
    pub stdout: Vec<u8>,
}

/// The text between the first two double quotes of a line, if it has two.
pub open spec fn quoted(line: Seq<char>) -> Option<Seq<char>> {
    let start = text::first_index(line, '"');
    if start < line.len() {
        let rest = line.skip(start + 1);
        let end = text::first_index(rest, '"');
        if end < rest.len() {
            Some(rest.take(end))
        } else {
            None
        }
    } else {
        None
    }
}

/// The quoted text of the first line that has one. Lines end at a line feed.
pub open spec fn first_quoted(output: Seq<char>) -> Option<Seq<char>>
    decreases output.len(),
{
    let end = text::first_index(output, '\n');
    if 0 <= end < output.len() {
        match quoted(output.take(end)) {
            Some(version) => Some(version),
            None => first_quoted(output.skip(end + 1)),
        }
    } else {
        quoted(output)
    }
}

/// The major version that a version string names: its first number, or its second where the
/// first is 1 (`1.8.0` is Java 8).
pub open spec fn version_major(version: Seq<char>) -> Option<u32> {
    let dot = text::first_index(version, '.');
    match text::numeral_u32(version.take(dot)) {
        None => None,
        Some(major) => if major != 1 {
            Some(major)
        } else if dot < version.len() {
            let rest = version.skip(dot + 1);
            text::numeral_u32(rest.take(text::first_index(rest, '.')))
        } else {
            None
        },
    }
}

/// The major version that the output of `java -version` names.
pub open spec fn java_major(output: Seq<char>) -> Option<u32> {
    match first_quoted(output) {
        Some(version) => version_major(version),
        None => None,
    }
}

/// Reads the major version out of the version string in `chars[from..to]`.
fn parse_version(chars: &Vec<char>, from: usize, to: usize) -> (res: Option<u32>)
    requires
        from <= to <= chars@.len(),
    ensures
        res == version_major(chars@.subrange(from as int, to as int)),
{
    let ghost version = chars@.subrange(from as int, to as int);
    let dot: usize = text::find_char(chars, '.', from, to);
    assert(version.take(dot - from) =~= chars@.subrange(from as int, dot as int));
    match text::parse_u32(chars, from, dot) {
        None => None,
        Some(major) => {
            if major != 1 {
                Some(major)
            } else if dot < to {
                let ghost rest = version.skip(dot - from + 1);
                assert(rest =~= chars@.subrange(dot + 1, to as int));
                let end: usize = text::find_char(chars, '.', dot + 1, to);
                assert(rest.take(end - dot - 1) =~= chars@.subrange(dot + 1, end as int));
                text::parse_u32(chars, dot + 1, end)
            } else {
                None
            }
        },
    }
}

/// Finds the major version in the output of `java -version`.
///
/// The version is the quoted text of the first line that has one, as in
/// `openjdk version "17.0.13"` or the older `java version "1.8.0_362"`.
pub fn parse_java_major(output: &str) -> (res: Option<u32>)
    ensures
        res == java_major(output@),
{
    let chars: Vec<char> = text::to_chars(output);
    let len: usize = chars.len();
    let mut line: usize = 0;
    assert(chars@.skip(0) =~= output@);
    loop
        invariant
            line <= len,
            len == chars@.len(),
            chars@ == output@,
            first_quoted(output@) == first_quoted(chars@.skip(line as int)),
        decreases len - line,
    {
        let end: usize = text::find_char(&chars, '\n', line, len);
        let ghost left = chars@.skip(line as int);
        let ghost line_text = chars@.subrange(line as int, end as int);
        assert(left =~= chars@.subrange(line as int, len as int));
        assert(left.take(end - line) =~= line_text);
        let open: usize = text::find_char(&chars, '"', line, end);
        if open < end {
            let ghost rest = line_text.skip(open - line + 1);
            assert(rest =~= chars@.subrange(open + 1, end as int));
            let close: usize = text::find_char(&chars, '"', open + 1, end);
            if close < end {
                assert(rest.take(close - open - 1) =~= chars@.subrange(open + 1, close as int));
                proof {
                    if end == len {
                        assert(line_text =~= left);
                    }
                }
                return parse_version(&chars, open + 1, close);
            }
        }
        assert(quoted(line_text) is None);
        if end == len {
            assert(line_text =~= left);
            return None;
        }
        assert(left.skip(end - line + 1) =~= chars@.skip(end + 1));
        line = end + 1;
    }
}

/// The text that `String::from_utf8_lossy` makes of bytes.
pub uninterp spec fn lossy_text(bytes: Seq<u8>) -> Seq<char>;

/// Calls `String::from_utf8_lossy`, whose result depends on the bytes alone; bytes that are
/// valid UTF-8 come out as the characters that they encode. What stands for the bytes of
/// invalid sequences is left unsaid.
#[verifier::external_body]
fn utf8_lossy(bytes: &[u8]) -> (res: String)
    ensures
        res@ == lossy_text(bytes@),
        vstd::utf8::valid_utf8(bytes@) ==> res@ == vstd::utf8::decode_utf8(bytes@),
{
    String::from_utf8_lossy(bytes).into_owned()
}

/// The text of an output stream: the characters that its bytes encode, where they are valid UTF-8.
pub open spec fn stream_text(bytes: Seq<u8>) -> Seq<char> {
    if vstd::utf8::valid_utf8(bytes) {
        vstd::utf8::decode_utf8(bytes)
    } else {
        lossy_text(bytes)
    }
}

/// Everything that a run of `java -version` printed, standard error first.
pub open spec fn printed(output: JavaOutput) -> Seq<char> {
    stream_text(output.stderr@) + stream_text(output.stdout@)
}

/// The major version that a text names, or 0.
pub open spec fn major_or_zero(output: Seq<char>) -> u32 {
    match java_major(output) {
        Some(major) => major,
        None => 0,
    }
}

/// The major version that a probe of a Java binary found, or 0.
pub open spec fn probed_version(output: Option<JavaOutput>) -> u32 {
    match output {
        Some(out) => major_or_zero(printed(out)),
        None => 0,
    }
}

/// The major version that a run of `java -version` reported; 0 where it could not be run
/// or printed no version.
pub fn probe_java_version(output: &Option<JavaOutput>) -> (res: u32)
    ensures
        res == probed_version(*output),
        output matches Some(out) ==> (vstd::utf8::valid_utf8(out.stderr@)
            && vstd::utf8::valid_utf8(out.stdout@) ==> res == major_or_zero(
            vstd::utf8::decode_utf8(out.stderr@) + vstd::utf8::decode_utf8(out.stdout@),
        )),
{
    match output {
        Some(out) => {
            let mut combined: String = utf8_lossy(out.stderr.as_slice());
            combined.append(utf8_lossy(out.stdout.as_slice()).as_str());
            match parse_java_major(combined.as_str()) {
                Some(major) => major,
                None => 0,
            }
        },
        None => 0,
    }
}

/// A line without a double quote holds no quoted text.
proof fn lemma_no_quote(line: Seq<char>)
    requires
        !line.contains('"'),
    ensures
        quoted(line) is None,
{
    text::lemma_first_index(line, '"');
    let k = text::first_index(line, '"');
    if k < line.len() {
        assert(line[k] == '"');
    }
}

/// The first quoted text is found behind any number of lines without a double quote.
proof fn lemma_first_quoted(before: Seq<char>, version: Seq<char>, after: Seq<char>)
    requires
        !before.contains('"'),
        !version.contains('"'),
        !version.contains('\n'),
    ensures
        first_quoted(before + seq!['"'] + version + seq!['"'] + after) == Some(version),
    decreases before.len(),
{
    let output = before + seq!['"'] + version + seq!['"'] + after;
    let open = before.len() as int;
    let close = open + 1 + version.len();
    let end = text::first_index(output, '\n');
    text::lemma_first_index(output, '\n');
    assert(output[open] == '"' && output[close] == '"');
    if end < open {
        assert(output[end] == before[end]);
        assert forall|i: int| 0 <= i < end implies #[trigger] output.take(end)[i] != '"' by {
            assert(output[i] == before[i]);
            assert(before.contains(before[i]));
        }
        lemma_no_quote(output.take(end));
        let rest = before.skip(end + 1);
        assert(output.skip(end + 1) =~= rest + seq!['"'] + version + seq!['"'] + after);
        assert forall|i: int| 0 <= i < rest.len() implies #[trigger] rest[i] != '"' by {
            assert(rest[i] == before[end + 1 + i]);
            assert(before.contains(before[end + 1 + i]));
        }
        lemma_first_quoted(rest, version, after);
    } else {
        assert(close < end) by {
            if end <= close {
                if end != open && end != close {
                    assert(output[end] == version[end - open - 1]);
                    assert(version.contains(version[end - open - 1]));
                }
            }
        }
        let line = if end < output.len() { output.take(end) } else { output };
        assert forall|i: int| 0 <= i < open implies #[trigger] line[i] != '"' by {
            assert(line[i] == before[i]);
            assert(before.contains(before[i]));
        }
        assert(line[open] == '"');
        text::lemma_first_index_unique(line, '"', open);
        let rest = line.skip(open + 1);
        assert forall|i: int| 0 <= i < version.len() implies #[trigger] rest[i] != '"' by {
            assert(rest[i] == output[open + 1 + i]);
            assert(output[open + 1 + i] == version[i]);
            assert(version.contains(version[i]));
        }
        assert(rest[version.len() as int] == '"');
        text::lemma_first_index_unique(rest, '"', version.len() as int);
        assert(rest.take(version.len() as int) =~= version);
    }
}

/// A numeral followed by nothing or by a dot ends at that place.
proof fn lemma_numeral_field(n: u32, tail: Seq<char>)
    requires
        tail.len() == 0 || tail[0] == '.',
    ensures
        text::first_index(text::decimal(n as nat) + tail, '.') == text::decimal(n as nat).len(),
        (text::decimal(n as nat) + tail).take(text::decimal(n as nat).len() as int)
            == text::decimal(n as nat),
        text::numeral_u32(text::decimal(n as nat)) == Some(n),
{
    let number = text::decimal(n as nat);
    text::lemma_decimal_digits(n as nat);
    text::law_numeral_round_trip(n);
    assert forall|i: int| 0 <= i < number.len() implies #[trigger] (number + tail)[i] != '.' by {
        assert((number + tail)[i] == number[i]);
        assert(text::is_digit(number[i]));
    }
    text::lemma_first_index_unique(number + tail, '.', number.len() as int);
    assert((number + tail).take(number.len() as int) =~= number);
}

/// A numeral holds neither a double quote nor a line feed.
proof fn lemma_numeral_chars(n: u32, tail: Seq<char>)
    requires
        !tail.contains('"'),
        !tail.contains('\n'),
    ensures
        !(text::decimal(n as nat) + tail).contains('"'),
        !(text::decimal(n as nat) + tail).contains('\n'),
{
    let number = text::decimal(n as nat);
    let all = number + tail;
    text::lemma_decimal_digits(n as nat);
    assert forall|i: int| 0 <= i < all.len() implies #[trigger] all[i] != '"' && all[i] != '\n' by {
        if i < number.len() {
            assert(all[i] == number[i]);
            assert(text::is_digit(number[i]));
        } else {
            assert(all[i] == tail[i - number.len()]);
            assert(tail.contains(tail[i - number.len()]));
        }
    }
}

/// A quoted version that starts with a number other than 1, whatever follows that number behind
/// a dot, names that number as the major version: `"17.0.13"` is Java 17.
pub proof fn law_java_major_modern(before: Seq<char>, n: u32, tail: Seq<char>, after: Seq<char>)
    requires
        !before.contains('"'),
        n != 1,
        tail.len() == 0 || tail[0] == '.',
        !tail.contains('"'),
        !tail.contains('\n'),
    ensures
        java_major(
            before + seq!['"'] + (text::decimal(n as nat) + tail) + seq!['"'] + after,
        ) == Some(n),
{
    lemma_numeral_chars(n, tail);
    lemma_first_quoted(before, text::decimal(n as nat) + tail, after);
    lemma_numeral_field(n, tail);
}

/// A quoted version that starts with `1.` names the number behind it as the major version:
/// `"1.8.0_362"` is Java 8.
pub proof fn law_java_major_old_style(before: Seq<char>, n: u32, tail: Seq<char>, after: Seq<char>)
    requires
        !before.contains('"'),
        tail.len() == 0 || tail[0] == '.',
        !tail.contains('"'),
        !tail.contains('\n'),
    ensures
        java_major(
            before + seq!['"'] + (seq!['1', '.'] + (text::decimal(n as nat) + tail)) + seq!['"']
                + after,
        ) == Some(n),
{
    let number = text::decimal(n as nat) + tail;
    let version = seq!['1', '.'] + number;
    assert(text::decimal(1) =~= seq!['1']);
    let dotted = seq!['.'] + number;
    assert(version =~= text::decimal(1) + dotted);
    lemma_numeral_chars(n, tail);
    assert forall|i: int| 0 <= i < dotted.len() implies #[trigger] dotted[i] != '"' && dotted[i]
        != '\n' by {
        if i > 0 {
            assert(dotted[i] == number[i - 1]);
            assert(number.contains(number[i - 1]));
        }
    }
    lemma_numeral_chars(1, dotted);
    lemma_first_quoted(before, version, after);
    lemma_numeral_field(1, dotted);
    assert(version.skip(2) =~= number);
    lemma_numeral_field(n, tail);
}

/// Lines, each ended by a line feed, and then `rest`.
pub open spec fn with_lines(lines: Seq<Seq<char>>, rest: Seq<char>) -> Seq<char>
    decreases lines.len(),
{
    if lines.len() == 0 {
        rest
    } else {
        lines[0] + seq!['\n'] + with_lines(lines.skip(1), rest)
    }
}

/// Whether a text is one line that holds at most one double quote.
pub open spec fn is_unquoted_line(line: Seq<char>) -> bool {
    &&& !line.contains('\n')
    &&& forall|i: int, j: int|
        0 <= i < j < line.len() && #[trigger] line[i] == '"' ==> #[trigger] line[j] != '"'
}

/// A line that holds at most one double quote, before others, does not matter.
proof fn lemma_unquoted_line(line: Seq<char>, rest: Seq<char>)
    requires
        is_unquoted_line(line),
    ensures
        first_quoted(line + seq!['\n'] + rest) == first_quoted(rest),
{
    let output = line + seq!['\n'] + rest;
    let end = line.len() as int;
    assert forall|i: int| 0 <= i < end implies #[trigger] output[i] != '\n' by {
        assert(output[i] == line[i]);
        assert(line.contains(line[i]));
    }
    assert(output[end] == '\n');
    text::lemma_first_index_unique(output, '\n', end);
    assert(output.take(end) =~= line);
    assert(output.skip(end + 1) =~= rest);
    text::lemma_first_index(line, '"');
    let start = text::first_index(line, '"');
    if start < line.len() {
        let after = line.skip(start + 1);
        text::lemma_first_index(after, '"');
        let next = text::first_index(after, '"');
        if next < after.len() {
            assert(after[next] == line[start + 1 + next]);
            assert(line[start] == '"');
        }
    }
    assert(quoted(line) is None);
}

/// Lines that hold at most one double quote, before the line with the version, do not matter.
pub proof fn law_unquoted_lines_do_not_matter(lines: Seq<Seq<char>>, rest: Seq<char>)
    requires
        forall|i: int| 0 <= i < lines.len() ==> is_unquoted_line(#[trigger] lines[i]),
    ensures
        java_major(with_lines(lines, rest)) == java_major(rest),
    decreases lines.len(),
{
    if lines.len() > 0 {
        let left = lines.skip(1);
        assert forall|i: int| 0 <= i < left.len() implies is_unquoted_line(#[trigger] left[i]) by {
            assert(left[i] == lines[i + 1]);
        }
        law_unquoted_lines_do_not_matter(left, rest);
        lemma_unquoted_line(lines[0], with_lines(left, rest));
    }
}

/// Output without a double quote names no version.
pub proof fn law_java_major_needs_quotes(output: Seq<char>)
    requires
        !output.contains('"'),
    ensures
        java_major(output) is None,
    decreases output.len(),
{
    let end = text::first_index(output, '\n');
    text::lemma_first_index(output, '\n');
    if end < output.len() {
        let line = output.take(end);
        let rest = output.skip(end + 1);
        assert forall|i: int| 0 <= i < line.len() implies #[trigger] line[i] != '"' by {
            assert(output.contains(output[i]));
        }
        assert forall|i: int| 0 <= i < rest.len() implies #[trigger] rest[i] != '"' by {
            assert(output.contains(output[end + 1 + i]));
        }
        lemma_no_quote(line);
        law_java_major_needs_quotes(rest);
    } else {
        lemma_no_quote(output);
    }
}

/// A quoted version whose first number is none names no major version, whatever later lines say:
/// `"17-ea"` and `"abc"` do not.
pub proof fn law_java_major_not_a_number(
    before: Seq<char>,
    head: Seq<char>,
    tail: Seq<char>,
    after: Seq<char>,
    i: int,
)
    requires
        !before.contains('"'),
        !head.contains('.'),
        !(head + tail).contains('"'),
        !(head + tail).contains('\n'),
        tail.len() == 0 || tail[0] == '.',
        head.len() == 0 || (0 <= i < head.len() && !('0' <= head[i] <= '9') && head[i] != '+'),
    ensures
        java_major(before + seq!['"'] + (head + tail) + seq!['"'] + after) is None,
{
    let version = head + tail;
    lemma_first_quoted(before, version, after);
    assert forall|k: int| 0 <= k < head.len() implies #[trigger] version[k] != '.' by {
        assert(version[k] == head[k]);
        assert(head.contains(head[k]));
    }
    text::lemma_first_index_unique(version, '.', head.len() as int);
    assert(version.take(head.len() as int) =~= head);
    if text::numeral_u32(head) is Some {
        if head.len() == 0 {
            text::law_numeral_of_nothing();
            assert(head =~= Seq::<char>::empty());
        } else {
            text::law_numeral_is_digits(head, i);
        }
    }
}

/// A quoted version whose first number does not fit in 32 bits names no major version.
pub proof fn law_java_major_too_large(before: Seq<char>, n: nat, after: Seq<char>)
    requires
        !before.contains('"'),
        n > u32::MAX,
    ensures
        java_major(before + seq!['"'] + text::decimal(n) + seq!['"'] + after) is None,
{
    let version = text::decimal(n);
    text::lemma_decimal_digits(n);
    assert forall|k: int| 0 <= k < version.len() implies #[trigger] version[k] != '"' && version[k]
        != '\n' && version[k] != '.' by {
        assert(text::is_digit(version[k]));
    }
    lemma_first_quoted(before, version, after);
    text::lemma_first_index_unique(version, '.', version.len() as int);
    assert(version.take(version.len() as int) =~= version);
    assert(text::is_digit(version[0]));
}

/// The old style needs a second number: `"1"` names no major version.
pub proof fn law_java_major_one_alone(before: Seq<char>, after: Seq<char>)
    requires
        !before.contains('"'),
    ensures
        java_major(before + seq!['"'] + seq!['1'] + seq!['"'] + after) is None,
{
    let version = seq!['1'];
    lemma_first_quoted(before, version, after);
    text::lemma_first_index_unique(version, '.', 1);
    assert(version.take(1) =~= version);
    text::law_numeral_of_digit('1');
}

/// A last line with at most one double quote names no version.
pub proof fn law_java_major_unfinished_quote(line: Seq<char>)
    requires
        is_unquoted_line(line),
    ensures
        java_major(line) is None,
{
    text::lemma_first_index(line, '\n');
    let end = text::first_index(line, '\n');
    if end < line.len() {
        assert(line.contains(line[end]));
    }
    text::lemma_first_index(line, '"');
    let start = text::first_index(line, '"');
    if start < line.len() {
        let after = line.skip(start + 1);
        text::lemma_first_index(after, '"');
        let next = text::first_index(after, '"');
        if next < after.len() {
            assert(after[next] == line[start + 1 + next]);
            assert(line[start] == '"');
        }
    }
}

/// A probe finds the number that is quoted in what was printed, standard error before standard
/// output, and 0 where nothing was run or no version is named.
pub proof fn law_probe_finds_quoted_number(
    out: JavaOutput,
    before: Seq<char>,
    n: u32,
    tail: Seq<char>,
    after: Seq<char>,
)
    requires
        vstd::utf8::valid_utf8(out.stderr@),
        vstd::utf8::valid_utf8(out.stdout@),
        !before.contains('"'),
        n != 1,
        tail.len() == 0 || tail[0] == '.',
        !tail.contains('"'),
        !tail.contains('\n'),
    ensures
        vstd::utf8::decode_utf8(out.stderr@) + vstd::utf8::decode_utf8(out.stdout@) == before
            + seq!['"'] + (text::decimal(n as nat) + tail) + seq!['"'] + after
            ==> probed_version(Some(out)) == n,
        !(vstd::utf8::decode_utf8(out.stderr@) + vstd::utf8::decode_utf8(out.stdout@)).contains('"')
            ==> probed_version(Some(out)) == 0,
        probed_version(None) == 0,
{
    law_java_major_modern(before, n, tail, after);
    let all = vstd::utf8::decode_utf8(out.stderr@) + vstd::utf8::decode_utf8(out.stdout@);
    if !all.contains('"') {
        law_java_major_needs_quotes(all);
    }
}

/// The first number of the first quoted text decides, however it is written and whatever follows it
/// behind a dot: it is the major version, unless it is 1.
pub proof fn law_java_major_is_first_number(
    before: Seq<char>,
    head: Seq<char>,
    n: u32,
    tail: Seq<char>,
    after: Seq<char>,
)
    requires
        !before.contains('"'),
        text::numeral_u32(head) == Some(n),
        n != 1,
        tail.len() == 0 || tail[0] == '.',
        !tail.contains('"'),
        !tail.contains('\n'),
    ensures
        java_major(before + seq!['"'] + (head + tail) + seq!['"'] + after) == Some(n),
{
    lemma_written_number(head, tail);
    lemma_first_quoted(before, head + tail, after);
}

/// Where the first number is 1, the second one decides, and where there is none, no version is named.
pub proof fn law_java_major_is_second_number(
    before: Seq<char>,
    one: Seq<char>,
    head: Seq<char>,
    tail: Seq<char>,
    after: Seq<char>,
)
    requires
        !before.contains('"'),
        text::numeral_u32(one) == Some(1u32),
        !head.contains('.'),
        !head.contains('"'),
        !head.contains('\n'),
        tail.len() == 0 || tail[0] == '.',
        !tail.contains('"'),
        !tail.contains('\n'),
    ensures
        java_major(
            before + seq!['"'] + (one + (seq!['.'] + (head + tail))) + seq!['"'] + after,
        ) == text::numeral_u32(head),
        java_major(before + seq!['"'] + one + seq!['"'] + after) is None,
{
    let number = head + tail;
    let dotted = seq!['.'] + number;
    assert forall|i: int| 0 <= i < dotted.len() implies #[trigger] dotted[i] != '"' && dotted[i]
        != '\n' by {
        if i > 0 {
            if i - 1 < head.len() {
                assert(dotted[i] == head[i - 1]);
                assert(head.contains(head[i - 1]));
            } else {
                assert(dotted[i] == tail[i - 1 - head.len()]);
                assert(tail.contains(tail[i - 1 - head.len()]));
            }
        }
    }
    lemma_written_number(one, dotted);
    let version = one + dotted;
    lemma_first_quoted(before, version, after);
    let rest = version.skip(one.len() as int + 1);
    assert(rest =~= number);
    assert forall|i: int| 0 <= i < head.len() implies #[trigger] number[i] != '.' by {
        assert(number[i] == head[i]);
        assert(head.contains(head[i]));
    }
    text::lemma_first_index_unique(number, '.', head.len() as int);
    assert(number.take(head.len() as int) =~= head);
    let nothing = Seq::<char>::empty();
    lemma_written_number(one, nothing);
    assert(one + nothing =~= one);
    lemma_first_quoted(before, one, after);
}

/// A number and what follows it behind a dot can be told apart, and hold neither a double quote nor
/// a line feed.
proof fn lemma_written_number(head: Seq<char>, tail: Seq<char>)
    requires
        text::numeral_u32(head) is Some,
        tail.len() == 0 || tail[0] == '.',
        !tail.contains('"'),
        !tail.contains('\n'),
    ensures
        text::first_index(head + tail, '.') == head.len(),
        (head + tail).take(head.len() as int) == head,
        !(head + tail).contains('"'),
        !(head + tail).contains('\n'),
{
    let all = head + tail;
    assert forall|i: int| 0 <= i < all.len() implies #[trigger] all[i] != '"' && all[i] != '\n' && (
    i < head.len() ==> all[i] != '.') by {
        if i < head.len() {
            assert(all[i] == head[i]);
            text::law_numeral_is_digits(head, i);
        } else {
            assert(all[i] == tail[i - head.len()]);
            assert(tail.contains(tail[i - head.len()]));
        }
    }
    text::lemma_first_index_unique(all, '.', head.len() as int);
    assert(all.take(head.len() as int) =~= head);
}

/// A probe reads everything that was printed, standard error before standard output, each of them as
/// the characters that its bytes encode, or, where they are not valid, as far as they can be read.
pub proof fn law_probe_reads_everything(out: JavaOutput, err_text: Seq<char>, out_text: Seq<char>)
    requires
        vstd::utf8::valid_utf8(out.stderr@) ==> err_text == vstd::utf8::decode_utf8(out.stderr@),
        !vstd::utf8::valid_utf8(out.stderr@) ==> err_text == lossy_text(out.stderr@),
        vstd::utf8::valid_utf8(out.stdout@) ==> out_text == vstd::utf8::decode_utf8(out.stdout@),
        !vstd::utf8::valid_utf8(out.stdout@) ==> out_text == lossy_text(out.stdout@),
    ensures
        java_major(err_text + out_text) matches Some(n) ==> probed_version(Some(out)) == n,
        java_major(err_text + out_text) is None ==> probed_version(Some(out)) == 0,
{
}

} // verus!
