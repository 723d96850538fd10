//! Splitting an input line into arguments, and the inverse escaping of one argument.
//!
//! The splitter follows the conventions of Windows command lines. A run of
//! spaces outside quotes separates two arguments, and stands for nothing at the
//! start and at the end of a line. Backslashes are literal unless they stand
//! before a double quote, where each pair gives one backslash and an odd one out
//! escapes the quote.

use vstd::prelude::*;
use crate::text::bound_char_count;

verus! {

/// A run of `n` backslashes.
pub open spec fn backslashes(n: nat) -> Seq<char> {
    Seq::new(n, |i: int| '\\')
}

/// What the splitter remembers between two characters of a line.
pub struct Scan {
    /// The arguments that a separating space has closed, in order.
    pub finished: Seq<Seq<char>>,
    /// The text of the argument that is still open.
    pub current: Seq<char>,
    /// Whether a double quote is open, so that spaces do not separate.
    pub in_quotes: bool,
    /// How many backslashes were read since the last other character.
    pub slashes: nat,
    /// Whether an argument is open: whether anything but separating spaces was
    /// read since the last argument was closed.
    pub open: bool,
}

/// The state of the splitter before the first character.
pub open spec fn scan_start() -> Scan {
    Scan {
        finished: Seq::empty(),
        current: Seq::empty(),
        in_quotes: false,
        slashes: 0,
        open: false,
    }
}

/// The state of the splitter after one more character. A space outside quotes
/// closes the argument that is open, and does nothing where none is open: so a
/// run of spaces separates once. Any other character opens an argument, a
/// double quote too, so that a pair of quotes is an empty argument.
pub open spec fn scan_step(st: Scan, c: char) -> Scan {
    if c == '\\' {
        Scan { slashes: st.slashes + 1, open: true, ..st }
    } else if c == '"' {
        let text = st.current + backslashes(st.slashes / 2);
        if st.slashes % 2 == 1 {
            Scan { current: text.push('"'), slashes: 0, open: true, ..st }
        } else {
            Scan { current: text, in_quotes: !st.in_quotes, slashes: 0, open: true, ..st }
        }
    } else if c == ' ' && !st.in_quotes {
        if st.open {
            Scan {
                finished: st.finished.push(st.current + backslashes(st.slashes)),
                current: Seq::empty(),
                slashes: 0,
                open: false,
                ..st
            }
        } else {
            st
        }
    } else {
        Scan {
            current: (st.current + backslashes(st.slashes)).push(c),
            slashes: 0,
            open: true,
            ..st
        }
    }
}

/// The state of the splitter after all of `line`.
pub open spec fn scan(line: Seq<char>) -> Scan
    decreases line.len(),
{
    if line.len() == 0 {
        scan_start()
    } else {
        scan_step(scan(line.drop_last()), line.last())
    }
}

/// The arguments that the splitter has when the line ends in state `st`: those
/// that a space closed, then the one that is still open, with the backslashes
/// that were still pending.
pub open spec fn closed(st: Scan) -> Seq<Seq<char>> {
    if st.open {
        st.finished.push(st.current + backslashes(st.slashes))
    } else {
        st.finished
    }
}

/// The arguments of `line`. A line without any argument, which is empty or made
/// of spaces only, gives one empty argument.
pub open spec fn tokens(line: Seq<char>) -> Seq<Seq<char>> {
    let args = closed(scan(line));
    if args.len() == 0 {
        seq![Seq::empty()]
    } else {
        args
    }
}

/// What the escaper remembers between two characters of an argument.
pub struct Pending {
    /// The text written so far, without an opening quote.
    pub text: Seq<char>,
    /// How many backslashes were read and are not written yet.
    pub slashes: nat,
}

/// The state of the escaper after one more character.
pub open spec fn escape_step(st: Pending, c: char) -> Pending {
    if c == '\\' {
        Pending { slashes: st.slashes + 1, ..st }
    } else if c == '"' {
        Pending { text: st.text + backslashes(2 * st.slashes) + seq!['\\', '"'], slashes: 0 }
    } else {
        Pending { text: (st.text + backslashes(st.slashes)).push(c), slashes: 0 }
    }
}

/// The state of the escaper after all of `token`.
pub open spec fn escape_scan(token: Seq<char>) -> Pending
    decreases token.len(),
{
    if token.len() == 0 {
        Pending { text: Seq::empty(), slashes: 0 }
    } else {
        escape_step(escape_scan(token.drop_last()), token.last())
    }
}

/// The escaped form of `token`. Every double quote gets a backslash, and the
/// backslashes before it are doubled. A token with a space is set in double
/// quotes, and the backslashes at its end are doubled as well.
pub open spec fn escaped(token: Seq<char>) -> Seq<char> {
    let st = escape_scan(token);
    if token.contains(' ') {
        seq!['"'] + st.text + backslashes(2 * st.slashes) + seq!['"']
    } else {
        st.text + backslashes(st.slashes)
    }
}

fn push_backslashes(text: &mut String, n: usize)
    ensures
        final(text)@ == old(text)@ + backslashes(n as nat),
{
    let mut i: usize = 0;
    while i < n
        invariant
            i <= n,
            text@ == old(text)@ + backslashes(i as nat),
        decreases n - i,
    {
        text.push('\\');
        i += 1;
    }
}

/// Splits `line` into its arguments, at each run of spaces outside quotes. The
/// result is never empty: a line that is empty or made of spaces only gives one
/// empty argument.
pub fn string_to_arguments(line: &str) -> (args: Vec<String>)
    ensures
        args.deep_view() == tokens(line@),
        args@.len() >= 1,
{
    bound_char_count(line);
    let mut args: Vec<String> = Vec::new();
    let mut current = String::new();
    let mut in_quotes = false;
    let mut slashes: usize = 0;
    let mut open = false;
    for c in it: line.chars()
        invariant
            it.seq() == line@,
            line@.len() <= usize::MAX,
            slashes <= it.index(),
            scan(line@.take(it.index() as int)).finished == args.deep_view(),
            scan(line@.take(it.index() as int)).current == current@,
            scan(line@.take(it.index() as int)).in_quotes == in_quotes,
            scan(line@.take(it.index() as int)).slashes == slashes,
            scan(line@.take(it.index() as int)).open == open,
    {
        proof {
            let seen = line@.take(it.index() + 1);
            assert(seen.drop_last() == line@.take(it.index() as int));
        }
        if c == '\\' {
            slashes += 1;
            open = true;
        } else if c == '"' {
            push_backslashes(&mut current, slashes / 2);
            if slashes % 2 == 1 {
                current.push(c);
            } else {
                in_quotes = !in_quotes;
            }
            slashes = 0;
            open = true;
        } else if c == ' ' && !in_quotes {
            if open {
                push_backslashes(&mut current, slashes);
                slashes = 0;
                args.push(current);
                current = String::new();
                open = false;
            }
        } else {
            push_backslashes(&mut current, slashes);
            slashes = 0;
            current.push(c);
            open = true;
        }
    }
    assert(line@.take(line@.len() as int) == line@);
    if open {
        push_backslashes(&mut current, slashes);
        args.push(current);
    }
    if args.len() == 0 {
        args.push(String::new());
    }
    args
}

fn has_space(text: &str) -> (found: bool)
    ensures
        found == text@.contains(' '),
{
    let mut found = false;
    for c in it: text.chars()
        invariant
            it.seq() == text@,
            found == text@.take(it.index() as int).contains(' '),
    {
        proof {
            let seen = text@.take(it.index() + 1);
            assert(seen.last() == c);
            assert(seen.drop_last() == text@.take(it.index() as int));
        }
        if c == ' ' {
            found = true;
        }
    }
    assert(text@.take(text@.len() as int) == text@);
    found
}

/// Writes `token` so that it reads back as one argument, equal to `token`.
pub fn escape_string(token: &str) -> (text: String)
    ensures
        text@ == escaped(token@),
{
    bound_char_count(token);
    let has_spaces = has_space(token);
    let mut text = String::new();
    let mut slashes: usize = 0;
    if has_spaces {
        text.push('"');
    }
    let ghost opening = text@;
    for c in it: token.chars()
        invariant
            it.seq() == token@,
            token@.len() <= usize::MAX,
            slashes <= it.index(),
            text@ == opening + escape_scan(token@.take(it.index() as int)).text,
            slashes == escape_scan(token@.take(it.index() as int)).slashes,
    {
        proof {
            let seen = token@.take(it.index() + 1);
            assert(seen.drop_last() == token@.take(it.index() as int));
        }
        if c == '\\' {
            slashes += 1;
        } else if c == '"' {
            push_backslashes(&mut text, slashes);
            push_backslashes(&mut text, slashes);
            slashes = 0;
            text.push('\\');
            text.push('"');
        } else {
            push_backslashes(&mut text, slashes);
            slashes = 0;
            text.push(c);
        }
    }
    assert(token@.take(token@.len() as int) == token@);
    if has_spaces {
        push_backslashes(&mut text, slashes);
        push_backslashes(&mut text, slashes);
        text.push('"');
    } else {
        push_backslashes(&mut text, slashes);
    }
    text
}

/// Reading one more character is one step of the splitter.
pub proof fn lemma_scan_push(line: Seq<char>, c: char)
    ensures
        scan(line.push(c)) == scan_step(scan(line), c),
{
    assert(line.push(c).drop_last() == line);
}

/// Backslashes at the end of a line are only counted, and open an argument.
pub proof fn lemma_scan_backslashes(line: Seq<char>, n: nat)
    ensures
        scan(line + backslashes(n)) == (Scan {
            slashes: scan(line).slashes + n,
            open: scan(line).open || n > 0,
            ..scan(line)
        }),
    decreases n,
{
    if n > 0 {
        let shorter = (n - 1) as nat;
        lemma_scan_backslashes(line, shorter);
        assert(line + backslashes(n) == (line + backslashes(shorter)).push('\\'));
        lemma_scan_push(line + backslashes(shorter), '\\');
    }
}

/// Escaping one more character is one step of the escaper.
pub proof fn lemma_escape_push(token: Seq<char>, c: char)
    ensures
        escape_scan(token.push(c)) == escape_step(escape_scan(token), c),
{
    assert(token.push(c).drop_last() == token);
}

/// The quote that opens the escaped form of a token with a space, or nothing.
pub open spec fn opening(quoted: bool) -> Seq<char> {
    if quoted {
        seq!['"']
    } else {
        Seq::empty()
    }
}

/// Whether the splitter that reads what the escaper has written of `token` holds
/// the token's text so far in one argument, short of the backslashes that the
/// escaper has not written yet.
pub open spec fn in_step(token: Seq<char>, quoted: bool) -> bool {
    let st = escape_scan(token);
    let sc = scan(opening(quoted) + st.text);
    &&& sc.finished == Seq::<Seq<char>>::empty()
    &&& sc.current + backslashes(st.slashes) == token
    &&& sc.in_quotes == quoted
    &&& sc.slashes == 0
    &&& sc.open == (quoted || st.text.len() > 0)
}

proof fn lemma_in_step_backslash(before: Seq<char>, quoted: bool)
    requires
        in_step(before, quoted),
    ensures
        in_step(before.push('\\'), quoted),
{
    lemma_escape_push(before, '\\');
    let st = escape_scan(before);
    let sc = scan(opening(quoted) + st.text);
    assert(sc.current + backslashes(st.slashes + 1) == (sc.current + backslashes(
        st.slashes,
    )).push('\\'));
}

proof fn lemma_in_step_quote(before: Seq<char>, quoted: bool)
    requires
        in_step(before, quoted),
    ensures
        in_step(before.push('"'), quoted),
{
    lemma_escape_push(before, '"');
    let st = escape_scan(before);
    let k = st.slashes;
    let base = opening(quoted) + st.text;
    let sc = scan(base);
    let written = base + backslashes(2 * k);
    lemma_scan_backslashes(base, 2 * k);
    lemma_scan_push(written, '\\');
    lemma_scan_push(written.push('\\'), '"');
    let after = escape_scan(before.push('"'));
    assert(opening(quoted) + after.text == written.push('\\').push('"'));
    assert((2 * k + 1) / 2 == k && (2 * k + 1) % 2 == 1);
    let read = scan(opening(quoted) + after.text);
    assert(read.current == (sc.current + backslashes(k)).push('"'));
    assert(read.current + backslashes(0) == before.push('"'));
}

proof fn lemma_in_step_other(before: Seq<char>, c: char, quoted: bool)
    requires
        in_step(before, quoted),
        c != '\\',
        c != '"',
        c == ' ' ==> quoted,
    ensures
        in_step(before.push(c), quoted),
{
    lemma_escape_push(before, c);
    let st = escape_scan(before);
    let k = st.slashes;
    let base = opening(quoted) + st.text;
    let sc = scan(base);
    let written = base + backslashes(k);
    lemma_scan_backslashes(base, k);
    lemma_scan_push(written, c);
    let after = escape_scan(before.push(c));
    assert(opening(quoted) + after.text == written.push(c));
    let read = scan(opening(quoted) + after.text);
    assert(read.current == (sc.current + backslashes(k)).push(c));
    assert(read.current + backslashes(0) == before.push(c));
}

/// While the escaper works through a token, the splitter that reads what it has
/// written stays in step with it.
proof fn lemma_escape_in_step(token: Seq<char>, quoted: bool)
    requires
        token.contains(' ') ==> quoted,
    ensures
        in_step(token, quoted),
    decreases token.len(),
{
    if token.len() == 0 {
        assert(opening(quoted) + Seq::<char>::empty() == opening(quoted));
        if quoted {
            assert(opening(quoted) == Seq::<char>::empty().push('"'));
            lemma_scan_push(Seq::empty(), '"');
        }
        assert(scan(opening(quoted)).current + backslashes(0) == token);
    } else {
        let before = token.drop_last();
        let c = token.last();
        assert(before.push(c) == token);
        assert(before.contains(' ') ==> token.contains(' ')) by {
            if before.contains(' ') {
                let at = choose|i: int| 0 <= i < before.len() && before[i] == ' ';
                assert(token[at] == ' ');
            }
        }
        lemma_escape_in_step(before, quoted);
        if c == '\\' {
            lemma_in_step_backslash(before, quoted);
        } else if c == '"' {
            lemma_in_step_quote(before, quoted);
        } else {
            assert(c == ' ' ==> quoted) by {
                assert(token[token.len() - 1] == c);
            }
            lemma_in_step_other(before, c, quoted);
        }
    }
}

/// An escaped token, read as a line of its own, gives the token back as the one
/// argument of that line.
pub proof fn lemma_escape_reads_back(token: Seq<char>)
    ensures
        tokens(escaped(token)) == seq![token],
{
    let quoted = token.contains(' ');
    lemma_escape_in_step(token, quoted);
    let st = escape_scan(token);
    let k = st.slashes;
    if quoted {
        let written = seq!['"'] + st.text + backslashes(2 * k);
        lemma_scan_backslashes(seq!['"'] + st.text, 2 * k);
        lemma_scan_push(written, '"');
        assert(escaped(token) == written.push('"'));
    } else {
        assert(Seq::<char>::empty() + st.text == st.text);
        lemma_scan_backslashes(st.text, k);
    }
}

/// While no argument is open, the splitter is outside quotes and holds no
/// text and no backslashes.
pub proof fn lemma_scan_between(line: Seq<char>)
    ensures
        !scan(line).open ==> !scan(line).in_quotes && scan(line).slashes == 0 && scan(
            line,
        ).current == Seq::<char>::empty(),
    decreases line.len(),
{
    if line.len() > 0 {
        lemma_scan_between(line.drop_last());
    }
}

/// A run of spaces outside quotes separates once: after one such space, a
/// second one changes nothing.
pub proof fn lemma_run_separates_once(line: Seq<char>)
    requires
        !scan(line).in_quotes,
    ensures
        scan(line.push(' ').push(' ')) == scan(line.push(' ')),
{
    lemma_scan_push(line, ' ');
    lemma_scan_push(line.push(' '), ' ');
}

/// A space outside quotes at the end of a line stands for no argument.
pub proof fn lemma_space_at_end(line: Seq<char>)
    requires
        !scan(line).in_quotes,
    ensures
        tokens(line.push(' ')) == tokens(line),
{
    lemma_scan_push(line, ' ');
}

/// A space at the start of a line stands for no argument.
pub proof fn lemma_space_at_start(line: Seq<char>)
    ensures
        scan(seq![' '] + line) == scan(line),
        tokens(seq![' '] + line) == tokens(line),
    decreases line.len(),
{
    if line.len() == 0 {
        assert(seq![' '] + line == Seq::<char>::empty().push(' '));
        lemma_scan_push(Seq::empty(), ' ');
    } else {
        lemma_space_at_start(line.drop_last());
        assert(seq![' '] + line == (seq![' '] + line.drop_last()).push(line.last()));
        lemma_scan_push(seq![' '] + line.drop_last(), line.last());
    }
}

/// A line of spaces only gives the one empty argument.
pub proof fn lemma_only_spaces(n: nat)
    ensures
        scan(Seq::new(n, |i: int| ' ')) == scan_start(),
        tokens(Seq::new(n, |i: int| ' ')) == seq![Seq::<char>::empty()],
    decreases n,
{
    if n > 0 {
        let shorter = Seq::new((n - 1) as nat, |i: int| ' ');
        lemma_only_spaces((n - 1) as nat);
        assert(Seq::new(n, |i: int| ' ') == shorter.push(' '));
        lemma_scan_push(shorter, ' ');
    }
}

/// A pair of quotes where no argument is open is an empty argument.
pub proof fn lemma_quotes_alone(line: Seq<char>)
    requires
        !scan(line).open,
    ensures
        tokens(line.push('"').push('"')) == scan(line).finished.push(Seq::<char>::empty()),
{
    lemma_scan_between(line);
    lemma_scan_push(line, '"');
    lemma_scan_push(line.push('"'), '"');
}

} // verus!
