//! Text primitives: decimal numerals, joined lists, escaping and line splitting.
//!
//! Every function here has an exact contract over `Seq<char>`, the view of strings.

use vstd::prelude::*;

verus! {

/// `String::push` appends one character at the end of the string and leaves what was there
/// unchanged.
pub assume_specification[ String::push ](s: &mut String, ch: char)
    ensures
        final(s)@ == old(s)@.push(ch),
;

/// The character of a decimal digit.
pub open spec fn digit(d: nat) -> char {
    ('0' as nat + d) as char
}

/// The decimal numeral of `n`: no sign, no leading zero, `0` for zero.
pub open spec fn decimal(n: nat) -> Seq<char>
    decreases n,
{
    if n < 10 {
        seq![digit(n)]
    } else {
        decimal(n / 10).push(digit(n % 10))
    }
}

/// The views of a list of strings.
pub open spec fn views(parts: Seq<String>) -> Seq<Seq<char>> {
    parts.map_values(|s: String| s@)
}

/// The parts in order, with `separator` between each two neighbours.
pub open spec fn joined(parts: Seq<Seq<char>>, separator: Seq<char>) -> Seq<char>
    decreases parts.len(),
{
    if parts.len() == 0 {
        Seq::empty()
    } else if parts.len() == 1 {
        parts[0]
    } else {
        joined(parts.drop_last(), separator) + separator + parts.last()
    }
}

/// `text` with each backslash doubled.
pub open spec fn escaped(text: Seq<char>) -> Seq<char>
    decreases text.len(),
{
    if text.len() == 0 {
        Seq::empty()
    } else if text.last() == '\\' {
        escaped(text.drop_last()).push('\\').push('\\')
    } else {
        escaped(text.drop_last()).push(text.last())
    }
}

/// `line` without one trailing carriage return, if it has any.
pub open spec fn without_carriage_return(line: Seq<char>) -> Seq<char> {
    if line.len() > 0 && line.last() == '\r' {
        line.drop_last()
    } else {
        line
    }
}

/// The stretches of `text` between line feeds: one more than there are line feeds.
pub open spec fn segments(text: Seq<char>) -> Seq<Seq<char>>
    decreases text.len(),
{
    if text.len() == 0 {
        seq![Seq::empty()]
    } else {
        let before = segments(text.drop_last());
        if text.last() == '\n' {
            before.push(Seq::empty())
        } else {
            before.drop_last().push(before.last().push(text.last()))
        }
    }
}

/// The lines of `text`. A line ends at a line feed, which is not part of it, nor is a carriage
/// return just before it. Text after the last line feed is a line of its own, kept as it is,
/// unless it is empty.
pub open spec fn lines(text: Seq<char>) -> Seq<Seq<char>> {
    let all = segments(text);
    let ended = all.drop_last().map_values(|line: Seq<char>| without_carriage_return(line));
    if all.last().len() == 0 {
        ended
    } else {
        ended.push(all.last())
    }
}

fn digit_char(d: u64) -> (c: char)
    requires
        d < 10,
    ensures
        c == digit(d as nat),
{
    ('0' as u8 + d as u8) as char
}

/// The decimal numeral of `n`.
pub fn decimal_string(n: u64) -> (numeral: String)
    ensures
        numeral@ == decimal(n as nat),
    decreases n,
{
    if n < 10 {
        let mut numeral = String::new();
        numeral.push(digit_char(n));
        assert(numeral@ =~= decimal(n as nat));
        numeral
    } else {
        let mut numeral = decimal_string(n / 10);
        numeral.push(digit_char(n % 10));
        numeral
    }
}

/// The parts in order, with `separator` between each two neighbours.
pub fn join(parts: &Vec<String>, separator: &str) -> (whole: String)
    ensures
        whole@ == joined(views(parts@), separator@),
{
    let mut whole = String::new();
    let mut i: usize = 0;
    while i < parts.len()
        invariant
            i <= parts.len(),
            whole@ == joined(views(parts@).take(i as int), separator@),
        decreases parts.len() - i,
    {
        if i > 0 {
            whole.append(separator);
        }
        whole.append(parts[i].as_str());
        i += 1;
        proof {
            let done = views(parts@).take(i as int);
            assert(done.drop_last() =~= views(parts@).take(i - 1));
            if i == 1 {
                assert(whole@ =~= done[0]);
            }
        }
    }
    assert(views(parts@).take(i as int) =~= views(parts@));
    whole
}

/// `text` with each backslash doubled.
pub fn escape_backslashes(text: &str) -> (result: String)
    ensures
        result@ == escaped(text@),
{
    let mut result = String::new();
    for c in it: text.chars()
        invariant
            it.seq() == text@,
            result@ == escaped(text@.take(it.index() as int)),
    {
        result.push(c);
        if c == '\\' {
            result.push('\\');
        }
        assert(text@.take(it.index() + 1).drop_last() =~= text@.take(it.index() as int));
    }
    assert(text@.take(text@.len() as int) =~= text@);
    result
}

/// The lines of `text`, as [`lines`] defines them.
pub fn split_lines(text: &str) -> (result: Vec<String>)
    ensures
        views(result@) == lines(text@),
{
    let mut result: Vec<String> = Vec::new();
    // The stretch since the last line feed is `current`, then a carriage return if `held`.
    let mut current = String::new();
    let mut held = false;
    assert(views(result@) =~= segments(text@.take(0)).drop_last().map_values(
        |line: Seq<char>| without_carriage_return(line),
    ));
    assert(text@.take(0) =~= Seq::empty());
    for c in it: text.chars()
        invariant
            it.seq() == text@,
            segments(text@.take(it.index() as int)).len() > 0,
            views(result@) == segments(text@.take(it.index() as int)).drop_last().map_values(
                |line: Seq<char>| without_carriage_return(line),
            ),
            segments(text@.take(it.index() as int)).last() == stretch(current@, held),
            !held ==> (current@.len() == 0 || current@.last() != '\r'),
    {
        let ghost before = segments(text@.take(it.index() as int));
        assert(text@.take(it.index() + 1).drop_last() =~= text@.take(it.index() as int));
        let ghost after = segments(text@.take(it.index() + 1));
        if c == '\n' {
            assert(after.drop_last() =~= before);
            assert(without_carriage_return(stretch(current@, held)) =~= current@);
            let ghost kept = views(result@);
            let ghost line = current@;
            result.push(current);
            current = String::new();
            held = false;
            assert(views(result@) =~= kept.push(line));
            assert(before =~= before.drop_last().push(before.last()));
            assert(views(result@) =~= after.drop_last().map_values(
                |line: Seq<char>| without_carriage_return(line),
            ));
        } else {
            assert(after.drop_last() =~= before.drop_last());
            if held {
                current.push('\r');
            }
            if c == '\r' {
                held = true;
            } else {
                current.push(c);
                held = false;
            }
        }
    }
    assert(text@.take(text@.len() as int) =~= text@);
    if held {
        current.push('\r');
    }
    if !current.as_str().is_empty() {
        let ghost kept = views(result@);
        let ghost line = current@;
        result.push(current);
        assert(views(result@) =~= kept.push(line));
    }
    result
}

spec fn stretch(current: Seq<char>, held: bool) -> Seq<char> {
    if held {
        current.push('\r')
    } else {
        current
    }
}

} // verus!
