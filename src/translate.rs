use vstd::prelude::*;

verus! {

broadcast use vstd::string::axiom_spec_iter;

// ---------------------------------------------------------------------------
// The text model
// ---------------------------------------------------------------------------

/// The first index of `c` in `s`, or -1 when `s` does not hold `c`.
pub open spec fn index_of(s: Seq<char>, c: char) -> int
    decreases s.len(),
{
    if s.len() == 0 {
        -1
    } else if s[0] == c {
        0
    } else {
        let rest = index_of(s.drop_first(), c);
        if rest < 0 {
            -1
        } else {
            rest + 1
        }
    }
}

pub open spec fn is_digit(c: char) -> bool {
    '0' <= c && c <= '9'
}

pub open spec fn digit_value(c: char) -> nat {
    (c as u32 - '0' as u32) as nat
}

/// The number that a string of decimal digits spells.
pub open spec fn decimal_value(s: Seq<char>) -> nat
    decreases s.len(),
{
    if s.len() == 0 {
        0
    } else {
        decimal_value(s.drop_last()) * 10 + digit_value(s.last())
    }
}

/// A line-number field without its optional leading `+`.
pub open spec fn unsigned_part(s: Seq<char>) -> Seq<char> {
    if s.len() > 0 && s[0] == '+' {
        s.drop_first()
    } else {
        s
    }
}

/// What a line-number field reads as: an optional `+`, then one or more
/// decimal digits whose value fits in a `u32`.
pub open spec fn line_number_of(s: Seq<char>) -> Option<nat> {
    let d = unsigned_part(s);
    if d.len() > 0 && (forall|i: int| 0 <= i < d.len() ==> is_digit(#[trigger] d[i]))
        && decimal_value(d) <= u32::MAX {
        Some(decimal_value(d))
    } else {
        None
    }
}

/// The record that one line of captured text yields, as (one-based line,
/// message). A line yields one when it has at least three colon-delimited
/// fields and its second field is a positive line number; the message is
/// everything after the second colon, further colons included.
pub open spec fn record_of_line(line: Seq<char>) -> Option<(nat, Seq<char>)> {
    let first_colon = index_of(line, ':');
    let after = line.skip(first_colon + 1);
    let second_colon = index_of(after, ':');
    if first_colon < 0 || second_colon < 0 {
        None
    } else {
        let n = line_number_of(after.take(second_colon));
        if n is Some && n->0 > 0 {
            Some((n->0, after.skip(second_colon + 1)))
        } else {
            None
        }
    }
}

pub open spec fn records_of_line(line: Seq<char>) -> Seq<(nat, Seq<char>)> {
    match record_of_line(line) {
        Some(r) => seq![r],
        None => Seq::empty(),
    }
}

/// The records of captured text: the records of its lines, split on `\n`,
/// in order.
pub open spec fn records_of(text: Seq<char>) -> Seq<(nat, Seq<char>)>
    decreases text.len(),
{
    let i = index_of(text, '\n');
    if i < 0 || i >= text.len() {
        records_of_line(text)
    } else {
        records_of_line(text.take(i)) + records_of(text.skip(i + 1))
    }
}

/// The largest column a position can name: a range that ends there runs to
/// the end of its line.
pub const LINE_END: u32 = 0xffff_ffff;

// ---------------------------------------------------------------------------
// Lemmas
// ---------------------------------------------------------------------------

proof fn lemma_index_of(s: Seq<char>, c: char, p: int)
    requires
        0 <= p <= s.len(),
        forall|j: int| 0 <= j < p ==> s[j] != c,
        p < s.len() ==> s[p] == c,
    ensures
        index_of(s, c) == (if p < s.len() {
            p
        } else {
            -1
        }),
    decreases s.len(),
{
    if s.len() > 0 && p > 0 {
        assert forall|j: int| 0 <= j < p - 1 implies s.drop_first()[j] != c by {
            assert(s.drop_first()[j] == s[j + 1]);
        }
        lemma_index_of(s.drop_first(), c, p - 1);
    }
}

proof fn lemma_prefix_value_le(s: Seq<char>, k: int)
    requires
        0 <= k <= s.len(),
    ensures
        decimal_value(s.take(k)) <= decimal_value(s),
    decreases s.len(),
{
    if k < s.len() {
        lemma_prefix_value_le(s.drop_last(), k);
        assert(s.drop_last().take(k) =~= s.take(k));
    } else {
        assert(s.take(k) =~= s);
    }
}

/// Translation depends on the text alone: the same captured text always
/// yields the same records.
pub proof fn lemma_translate_deterministic(first: Seq<char>, second: Seq<char>)
    requires
        first == second,
    ensures
        records_of(first) == records_of(second),
{
}

/// A line shaped `<source>:<n>:<message>`, whose source field holds no
/// colon and whose line field is the decimal digits of a positive `n` that
/// fits in a `u32`, yields the record `(n, message)`.
pub proof fn lemma_diagnostic_line(source: Seq<char>, digits: Seq<char>, message: Seq<char>)
    requires
        forall|i: int| 0 <= i < source.len() ==> source[i] != ':',
        digits.len() > 0,
        forall|i: int| 0 <= i < digits.len() ==> is_digit(#[trigger] digits[i]),
        0 < decimal_value(digits) <= u32::MAX,
    ensures
        record_of_line(source + seq![':'] + digits + seq![':'] + message) == Some(
            (decimal_value(digits), message),
        ),
{
    let line = source + seq![':'] + digits + seq![':'] + message;
    lemma_index_of(line, ':', source.len() as int);
    let after = line.skip(source.len() as int + 1);
    assert(after =~= digits + seq![':'] + message);
    assert forall|j: int| 0 <= j < digits.len() implies after[j] != ':' by {
        assert(after[j] == digits[j]);
        assert(is_digit(digits[j]));
    }
    lemma_index_of(after, ':', digits.len() as int);
    assert(after.take(digits.len() as int) =~= digits);
    assert(after.skip(digits.len() as int + 1) =~= message);
    assert(is_digit(digits[0]));
    assert(unsigned_part(digits) == digits);
}

/// Translation goes line by line: the records of a line, then a line break,
/// then more text are the line's records followed by those of the rest.
pub proof fn lemma_records_by_line(line: Seq<char>, rest: Seq<char>)
    requires
        forall|i: int| 0 <= i < line.len() ==> line[i] != '\n',
    ensures
        records_of(line + seq!['\n'] + rest) == records_of(line) + records_of(rest),
{
    let text = line + seq!['\n'] + rest;
    lemma_index_of(text, '\n', line.len() as int);
    lemma_index_of(line, '\n', line.len() as int);
    assert(text.take(line.len() as int) =~= line);
    assert(text.skip(line.len() as int + 1) =~= rest);
}

// ---------------------------------------------------------------------------
// Records and positioned diagnostics
// ---------------------------------------------------------------------------

/// One diagnostic read from captured text: a one-based source line and a
/// free-text message.
#[derive(Clone, Debug, PartialEq, Eq)]
pub struct DiagnosticRecord {
    pub line: u32,
    pub message: String,
}

impl View for DiagnosticRecord {
    type V = (nat, Seq<char>);

    open spec fn view(&self) -> (nat, Seq<char>) {
        (self.line as nat, self.message@)
    }
}

/// A zero-based place in a document.
#[derive(Clone, Copy, PartialEq, Eq, Structural, Debug)]
pub struct Position {
    pub line: u32,
    pub character: u32,
}

#[derive(Clone, Copy, PartialEq, Eq, Structural, Debug)]
pub struct Range {
    pub start: Position,
    pub end: Position,
}

#[derive(Clone, Copy, PartialEq, Eq, Structural, Debug)]
pub enum Severity {
    Error,
    Warning,
    Information,
    Hint,
}

/// A diagnostic as the client sees it: a range of the document, a severity
/// and a message.
#[derive(Clone, Debug, PartialEq, Eq)]
pub struct PositionedDiagnostic {
    pub range: Range,
    pub severity: Severity,
    pub message: String,
}

/// The range that covers the whole of one-based source line `line`.
pub open spec fn line_range(line: nat) -> Range {
    Range {
        start: Position { line: (line - 1) as u32, character: 0 },
        end: Position { line: (line - 1) as u32, character: LINE_END },
    }
}

/// What a record becomes for the client: an error over its whole line.
pub open spec fn positioned(r: (nat, Seq<char>), d: PositionedDiagnostic) -> bool {
    &&& d.range == line_range(r.0)
    &&& d.severity == Severity::Error
    &&& d.message@ == r.1
}

impl DiagnosticRecord {
    /// Maps the record to an error that spans its whole (zero-based) line.
    pub fn to_diagnostic(&self) -> (d: PositionedDiagnostic)
        requires
            self.line >= 1,
        ensures
            positioned(self@, d),
    {
        let line = self.line - 1;
        PositionedDiagnostic {
            range: Range {
                start: Position { line, character: 0 },
                end: Position { line, character: LINE_END },
            },
            severity: Severity::Error,
            message: self.message.clone(),
        }
    }
}

// ---------------------------------------------------------------------------
// Executable translation
// ---------------------------------------------------------------------------

/// Copies the characters of `text` into a vector, in order.
fn chars_of(text: &str) -> (r: Vec<char>)
    ensures
        r@ == text@,
{
    let mut chars: Vec<char> = Vec::new();
    for c in iter: text.chars()
        invariant
            chars@ == iter.seq().take(iter.index() as int),
    {
        chars.push(c);
    }
    chars
}

/// The first index of `c` in `chars[from..to]`, or `to` when there is none.
fn find_char(chars: &Vec<char>, from: usize, to: usize, c: char) -> (r: usize)
    requires
        from <= to <= chars.len(),
    ensures
        from <= r <= to,
        index_of(chars@.subrange(from as int, to as int), c) == (if r < to {
            r - from
        } else {
            -1
        }),
{
    let mut i = from;
    while i < to
        invariant
            from <= i <= to <= chars.len(),
            forall|j: int| from <= j < i ==> chars@[j] != c,
        ensures
            from <= i <= to,
            forall|j: int| from <= j < i ==> chars@[j] != c,
            i < to ==> chars@[i as int] == c,
        decreases to - i,
    {
        if chars[i] == c {
            break;
        }
        i = i + 1;
    }
    proof {
        let sub = chars@.subrange(from as int, to as int);
        assert forall|j: int| 0 <= j < i - from implies sub[j] != c by {
            assert(sub[j] == chars@[from + j]);
        }
        if i < to {
            assert(sub[i - from] == chars@[i as int]);
        }
        lemma_index_of(sub, c, i - from);
    }
    i
}

/// Reads `chars[from..to]` as a line number, the way `u32`'s `from_str` does.
pub fn parse_line_number(chars: &Vec<char>, from: usize, to: usize) -> (r: Option<u32>)
    requires
        from <= to <= chars.len(),
    ensures
        r is Some <==> line_number_of(chars@.subrange(from as int, to as int)) is Some,
        r is Some ==> r->0 as nat == line_number_of(chars@.subrange(from as int, to as int))->0,
{
    let ghost field = chars@.subrange(from as int, to as int);
    let mut start = from;
    if start < to && chars[start] == '+' {
        start = start + 1;
    }
    let ghost digits = chars@.subrange(start as int, to as int);
    assert(unsigned_part(field) =~= digits);
    if start == to {
        return None;
    }
    let mut i = start;
    let mut value: u64 = 0;
    while i < to
        invariant
            from <= start <= i <= to <= chars.len(),
            start < to,
            digits == chars@.subrange(start as int, to as int),
            field == chars@.subrange(from as int, to as int),
            unsigned_part(field) == digits,
            value == decimal_value(chars@.subrange(start as int, i as int)),
            value <= u32::MAX,
            forall|j: int| start <= j < i ==> is_digit(#[trigger] chars@[j]),
        decreases to - i,
    {
        let c = chars[i];
        if !('0' <= c && c <= '9') {
            assert(digits[i - start] == c);
            assert(!is_digit(digits[i - start]));
            return None;
        }
        let ghost old_value = value;
        value = value * 10 + (c as u64 - '0' as u64);
        proof {
            let next = chars@.subrange(start as int, i + 1);
            assert(next.drop_last() =~= chars@.subrange(start as int, i as int));
            assert(next.last() == c);
            assert(decimal_value(next) == old_value * 10 + digit_value(c));
        }
        if value > 0xffff_ffff {
            proof {
                lemma_prefix_value_le(digits, i + 1 - start);
                assert(digits.take(i + 1 - start) =~= chars@.subrange(start as int, i + 1));
            }
            return None;
        }
        i = i + 1;
    }
    assert(chars@.subrange(start as int, i as int) =~= digits);
    assert forall|j: int| 0 <= j < digits.len() implies is_digit(#[trigger] digits[j]) by {
        assert(digits[j] == chars@[start + j]);
    }
    Some(value as u32)
}

/// The record of `chars[from..to]`, one line of captured text.
fn line_record(chars: &Vec<char>, text: &str, from: usize, to: usize) -> (r: Option<
    DiagnosticRecord,
>)
    requires
        from <= to <= chars.len(),
        chars@ == text@,
    ensures
        r matches Some(rec) ==> record_of_line(chars@.subrange(from as int, to as int)) == Some(
            rec@,
        ),
        r is None ==> record_of_line(chars@.subrange(from as int, to as int)) is None,
{
    let ghost line = chars@.subrange(from as int, to as int);
    let first_colon = find_char(chars, from, to, ':');
    if first_colon == to {
        return None;
    }
    let ghost after = line.skip(first_colon - from + 1);
    assert(after =~= chars@.subrange(first_colon + 1, to as int));
    let second_colon = find_char(chars, first_colon + 1, to, ':');
    if second_colon == to {
        return None;
    }
    assert(after.take(second_colon - first_colon - 1) =~= chars@.subrange(first_colon + 1, second_colon as int));
    assert(after.skip(second_colon - first_colon) =~= chars@.subrange(second_colon + 1, to as int));
    match parse_line_number(chars, first_colon + 1, second_colon) {
        Some(n) => {
            if n == 0 {
                None
            } else {
                let message = text.substring_char(second_colon + 1, to).to_owned();
                Some(DiagnosticRecord { line: n, message })
            }
        },
        None => None,
    }
}

/// Parses captured diagnostic text into records: one for each line shaped
/// `<anything>:<one-based line>:<message>`, in the order of the lines. Other
/// lines are skipped.
pub fn translate(text: &str) -> (r: Vec<DiagnosticRecord>)
    ensures
        r@.map_values(|d: DiagnosticRecord| d@) == records_of(text@),
        forall|i: int| 0 <= i < r.len() ==> r@[i].line >= 1,
{
    let chars = chars_of(text);
    let n = chars.len();
    let mut out: Vec<DiagnosticRecord> = Vec::new();
    let mut start: usize = 0;
    assert(chars@.skip(0) =~= chars@);
    assert(out@.map_values(|d: DiagnosticRecord| d@) =~= Seq::empty());
    loop
        invariant
            chars@ == text@,
            n == chars.len(),
            start <= n,
            out@.map_values(|d: DiagnosticRecord| d@) + records_of(chars@.skip(start as int))
                == records_of(text@),
            forall|i: int| 0 <= i < out.len() ==> out@[i].line >= 1,
        decreases n - start,
    {
        let ghost rest = chars@.skip(start as int);
        let end = find_char(&chars, start, n, '\n');
        assert(chars@.subrange(start as int, n as int) =~= rest);
        assert(chars@.subrange(start as int, end as int) =~= if end < n {
            rest.take(end - start)
        } else {
            rest
        });
        let rec = line_record(&chars, text, start, end);
        let ghost before = out@.map_values(|d: DiagnosticRecord| d@);
        match rec {
            Some(d) => {
                out.push(d);
                assert(out@.map_values(|d: DiagnosticRecord| d@) =~= before + records_of_line(
                    chars@.subrange(start as int, end as int),
                ));
            },
            None => {
                assert(out@.map_values(|d: DiagnosticRecord| d@) =~= before + records_of_line(
                    chars@.subrange(start as int, end as int),
                ));
            },
        }
        if end == n {
            assert(records_of(rest) == records_of_line(rest));
            assert(out@.map_values(|d: DiagnosticRecord| d@) =~= records_of(text@));
            return out;
        }
        assert(rest.skip(end - start + 1) =~= chars@.skip(end + 1));
        start = end + 1;
    }
}

/// Translates captured diagnostic text straight into positioned diagnostics,
/// one for each record of `translate`, in order.
pub fn translate_diagnostics(text: &str) -> (r: Vec<PositionedDiagnostic>)
    ensures
        r.len() == records_of(text@).len(),
        forall|i: int| 0 <= i < r.len() ==> positioned(records_of(text@)[i], #[trigger] r@[i]),
{
    let records = translate(text);
    let mut out: Vec<PositionedDiagnostic> = Vec::new();
    let mut i: usize = 0;
    while i < records.len()
        invariant
            i <= records.len(),
            out.len() == i,
            records@.map_values(|d: DiagnosticRecord| d@) == records_of(text@),
            forall|k: int| 0 <= k < records.len() ==> records@[k].line >= 1,
            forall|k: int| 0 <= k < i ==> positioned(records_of(text@)[k], #[trigger] out@[k]),
        decreases records.len() - i,
    {
        let d = records[i].to_diagnostic();
        assert(records@.map_values(|d: DiagnosticRecord| d@)[i as int] == records@[i as int]@);
        out.push(d);
        i = i + 1;
    }
    out
}

} // verus!
