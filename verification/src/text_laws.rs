//! What holds of all numerals, escaped names and warnings.

use crate::text::{decimal, digit, escaped, joined, lines, segments, without_carriage_return};
use crate::warning::warning_lines;
use vstd::prelude::*;

verus! {

/// Different numbers have different numerals.
pub proof fn decimal_is_injective(a: nat, b: nat)
    requires
        decimal(a) == decimal(b),
    ensures
        a == b,
    decreases a,
{
    decimal_has_digits(a / 10);
    decimal_has_digits(b / 10);
    assert(decimal(a).last() == digit(a % 10));
    assert(decimal(b).last() == digit(b % 10));
    assert(a % 10 == b % 10);
    if a >= 10 && b >= 10 {
        assert(decimal(a).drop_last() =~= decimal(a / 10));
        assert(decimal(b).drop_last() =~= decimal(b / 10));
        decimal_is_injective(a / 10, b / 10);
    }
}

/// A numeral has at least one character, and all of them are digits.
pub proof fn decimal_has_digits(n: nat)
    ensures
        decimal(n).len() > 0,
        forall|i: int| 0 <= i < decimal(n).len() ==> '0' <= #[trigger] decimal(n)[i] <= '9',
    decreases n,
{
    if n >= 10 {
        decimal_has_digits(n / 10);
    }
}

/// A file name can be told from its escaped form.
pub proof fn escaped_is_injective(a: Seq<char>, b: Seq<char>)
    requires
        escaped(a) == escaped(b),
    ensures
        a == b,
    decreases a.len(),
{
    if a.len() > 0 && b.len() > 0 {
        assert(escaped(a).last() == a.last());
        assert(escaped(b).last() == b.last());
        if a.last() == '\\' {
            assert(escaped(a).drop_last().drop_last() =~= escaped(a.drop_last()));
            assert(escaped(b).drop_last().drop_last() =~= escaped(b.drop_last()));
        } else {
            assert(escaped(a).drop_last() =~= escaped(a.drop_last()));
            assert(escaped(b).drop_last() =~= escaped(b.drop_last()));
        }
        escaped_is_injective(a.drop_last(), b.drop_last());
        assert(a =~= a.drop_last().push(a.last()));
        assert(b =~= b.drop_last().push(b.last()));
    } else {
        assert(a.len() > 0 ==> escaped(a).len() > 0);
        assert(b.len() > 0 ==> escaped(b).len() > 0);
        assert(a =~= b);
    }
}

proof fn segments_hold_no_line_feed(text: Seq<char>)
    ensures
        segments(text).len() > 0,
        forall|i: int|
            0 <= i < segments(text).len() ==> !(#[trigger] segments(text)[i]).contains('\n'),
    decreases text.len(),
{
    if text.len() > 0 {
        let before = segments(text.drop_last());
        segments_hold_no_line_feed(text.drop_last());
        assert forall|i: int| 0 <= i < segments(text).len() implies !(#[trigger] segments(
            text,
        )[i]).contains('\n') by {
            if text.last() != '\n' && i == before.len() - 1 {
                let old_last = before.last();
                assert(before[i] == old_last);
                let new_last = old_last.push(text.last());
                if new_last.contains('\n') {
                    let k = choose|k: int| 0 <= k < new_last.len() && new_last[k] == '\n';
                    assert(old_last[k] == '\n');
                }
            } else if i < before.len() {
                assert(segments(text)[i] == before[i]);
            }
        }
    }
}

/// Each line of a warning is one directive for cargo: it starts with the keyword, and no line feed
/// ends it early, whatever the message holds.
pub proof fn a_warning_is_whole_directives(message: Seq<char>)
    ensures
        forall|i: int|
            0 <= i < warning_lines(message).len() ==> {
                &&& "cargo:warning="@.is_prefix_of(#[trigger] warning_lines(message)[i])
                &&& !warning_lines(message)[i].contains('\n')
            },
{
    reveal_strlit("cargo:warning=");
    segments_hold_no_line_feed(message);
    let all = segments(message);
    assert forall|i: int| 0 <= i < warning_lines(message).len() implies {
        &&& "cargo:warning="@.is_prefix_of(#[trigger] warning_lines(message)[i])
        &&& !warning_lines(message)[i].contains('\n')
    } by {
        let line = lines(message)[i];
        assert(!all[i].contains('\n'));
        assert(line == all[i] || line == without_carriage_return(all[i]));
        let directive = warning_lines(message)[i];
        assert(directive == "cargo:warning="@ + line);
        assert(directive.subrange(0, "cargo:warning="@.len() as int) =~= "cargo:warning="@);
        if directive.contains('\n') {
            let k = choose|k: int| 0 <= k < directive.len() && directive[k] == '\n';
            let at = k - "cargo:warning="@.len();
            if at >= 0 {
                assert(line[at] == '\n');
                assert(all[i][at] == '\n');
            }
        }
    }
}

proof fn segments_of_one_line(text: Seq<char>)
    requires
        !text.contains('\n'),
    ensures
        segments(text) == seq![text],
    decreases text.len(),
{
    if text.len() > 0 {
        let before = text.drop_last();
        if before.contains('\n') {
            let k = choose|k: int| 0 <= k < before.len() && before[k] == '\n';
            assert(text[k] == '\n');
        }
        segments_of_one_line(before);
        assert(text.last() == text[text.len() - 1]);
        assert(text.last() != '\n');
        assert(before.push(text.last()) =~= text);
        assert(segments(text) =~= seq![text]);
    } else {
        assert(text =~= Seq::empty());
    }
}

/// A message of one line becomes one directive.
pub proof fn a_line_is_one_directive(message: Seq<char>)
    requires
        message.len() > 0,
        !message.contains('\n'),
    ensures
        warning_lines(message) == seq!["cargo:warning="@ + message],
{
    segments_of_one_line(message);
    assert(lines(message) =~= seq![message]);
    assert(warning_lines(message) =~= seq!["cargo:warning="@ + message]);
}

/// The number that a row of decimal digits stands for.
pub open spec fn value(digits: Seq<char>) -> int
    decreases digits.len(),
{
    if digits.len() == 0 {
        0
    } else {
        10 * value(digits.drop_last()) + (digits.last() as int - '0' as int)
    }
}

/// Whether `text` is how a number is written in C++: decimal digits, without a leading zero, that
/// stand for it.
pub open spec fn is_numeral(text: Seq<char>, n: nat) -> bool {
    &&& text.len() > 0
    &&& forall|i: int| 0 <= i < text.len() ==> '0' <= #[trigger] text[i] <= '9'
    &&& text.len() > 1 ==> text[0] != '0'
    &&& value(text) == n
}

/// A number can be read from its numeral.
pub proof fn a_numeral_reads_back(n: nat)
    ensures
        is_numeral(decimal(n), n),
    decreases n,
{
    decimal_has_digits(n);
    if n < 10 {
        assert(decimal(n).drop_last() =~= Seq::empty());
        assert(value(decimal(n).drop_last()) == 0);
    } else {
        a_numeral_reads_back(n / 10);
        assert(decimal(n).drop_last() =~= decimal(n / 10));
        assert(decimal(n)[0] == decimal(n / 10)[0]);
        if decimal(n / 10).len() == 1 {
            assert(decimal(n / 10).drop_last() =~= Seq::empty());
            assert(value(decimal(n / 10).drop_last()) == 0);
            assert(value(decimal(n / 10)) == decimal(n / 10)[0] as int - '0' as int);
        }
    }
}

/// Whether `text` holds the items in order, a separator after each but the last, and nothing else.
pub open spec fn lists(text: Seq<char>, items: Seq<Seq<char>>, separator: Seq<char>) -> bool {
    if items.len() == 0 {
        text.len() == 0
    } else {
        text + separator == items.map_values(|item: Seq<char>| item + separator).flatten()
    }
}

/// A joined list holds all its parts in order, with a separator between each two neighbours.
pub proof fn a_joined_list_holds_its_parts(parts: Seq<Seq<char>>, separator: Seq<char>)
    ensures
        lists(joined(parts, separator), parts, separator),
    decreases parts.len(),
{
    if parts.len() > 0 {
        let ended = parts.map_values(|item: Seq<char>| item + separator);
        let before = parts.drop_last();
        let ended_before = before.map_values(|item: Seq<char>| item + separator);
        a_joined_list_holds_its_parts(before, separator);
        assert(ended =~= ended_before.push(parts.last() + separator));
        ended_before.lemma_flatten_push(parts.last() + separator);
        if parts.len() == 1 {
            assert(ended_before =~= Seq::empty());
            assert(ended_before.flatten() =~= Seq::empty());
            assert(ended.flatten() =~= parts[0] + separator);
        } else {
            assert(joined(parts, separator) + separator =~= (joined(before, separator)
                + separator) + (parts.last() + separator));
        }
    }
}

/// What a C++ compiler reads where a string literal holds `text`, as far as backslashes go: two of
/// them stand for one. `None` if a backslash does not come with a second one.
pub open spec fn unescaped(text: Seq<char>) -> Option<Seq<char>>
    decreases text.len(),
{
    if text.len() == 0 {
        Some(Seq::empty())
    } else if text[0] != '\\' {
        match unescaped(text.skip(1)) {
            Some(rest) => Some(seq![text[0]] + rest),
            None => None,
        }
    } else if text.len() >= 2 && text[1] == '\\' {
        match unescaped(text.skip(2)) {
            Some(rest) => Some(seq!['\\'] + rest),
            None => None,
        }
    } else {
        None
    }
}

proof fn unescaped_pieces(a: Seq<char>, b: Seq<char>)
    requires
        unescaped(a) is Some,
        unescaped(b) is Some,
    ensures
        unescaped(a + b) == Some(unescaped(a)->0 + unescaped(b)->0),
    decreases a.len(),
{
    if a.len() == 0 {
        assert(a + b =~= b);
        assert(unescaped(a)->0 + unescaped(b)->0 =~= unescaped(b)->0);
    } else {
        let n: int = if a[0] != '\\' {
            1
        } else {
            2
        };
        let rest = unescaped(a.skip(n))->0;
        unescaped_pieces(a.skip(n), b);
        assert((a + b).skip(n) =~= a.skip(n) + b);
        assert((a + b)[0] == a[0]);
        assert(n == 2 ==> (a + b)[1] == a[1]);
        assert((seq![a[0]] + rest) + unescaped(b)->0 =~= seq![a[0]] + (rest + unescaped(b)->0));
    }
}

/// A file name can be read from its escaped form.
pub proof fn an_escaped_name_reads_back(text: Seq<char>)
    ensures
        unescaped(escaped(text)) == Some(text),
    decreases text.len(),
{
    if text.len() > 0 {
        let before = text.drop_last();
        an_escaped_name_reads_back(before);
        let last = if text.last() == '\\' {
            seq!['\\', '\\']
        } else {
            seq![text.last()]
        };
        assert(last.skip(last.len() as int) =~= Seq::empty());
        assert(unescaped(last.skip(last.len() as int)) == Some(Seq::<char>::empty()));
        assert(unescaped(last)->0 =~= seq![text.last()]);
        unescaped_pieces(escaped(before), last);
        assert(escaped(text) =~= escaped(before) + last);
        assert(text =~= before + seq![text.last()]);
    } else {
        assert(text =~= Seq::empty());
    }
}

proof fn segments_hold_the_text(text: Seq<char>)
    ensures
        segments(text).len() > 0,
        text.push('\n') == segments(text).map_values(|line: Seq<char>| line.push('\n')).flatten(),
    decreases text.len(),
{
    let all = segments(text);
    let ended = all.map_values(|line: Seq<char>| line.push('\n'));
    if text.len() == 0 {
        assert(ended =~= Seq::<Seq<char>>::empty().push(seq!['\n']));
        Seq::<Seq<char>>::empty().lemma_flatten_push(seq!['\n']);
        assert(text.push('\n') =~= seq!['\n']);
        assert(ended.flatten() =~= seq!['\n']);
    } else {
        let before = segments(text.drop_last());
        let ended_before = before.map_values(|line: Seq<char>| line.push('\n'));
        segments_hold_the_text(text.drop_last());
        let c = text.last();
        assert(text =~= text.drop_last().push(c));
        if c == '\n' {
            assert(ended =~= ended_before.push(seq!['\n']));
            ended_before.lemma_flatten_push(seq!['\n']);
            assert(text.push('\n') =~= text.drop_last().push('\n') + seq!['\n']);
        } else {
            let kept = ended_before.drop_last();
            assert(ended =~= kept.push(before.last().push(c).push('\n')));
            assert(ended_before =~= kept.push(before.last().push('\n')));
            kept.lemma_flatten_push(before.last().push(c).push('\n'));
            kept.lemma_flatten_push(before.last().push('\n'));
            let whole = kept.flatten() + before.last();
            assert(text.drop_last().push('\n') =~= whole.push('\n'));
            assert(text.drop_last() =~= text.drop_last().push('\n').drop_last());
            assert(whole =~= whole.push('\n').drop_last());
            assert(ended.flatten() =~= whole.push(c).push('\n'));
        }
    }
}

/// Whether `ending` may end `line`, the last one of a text or not. A carriage return before a line
/// feed belongs to the ending, and only the last line may go without any.
pub open spec fn is_line_ending(line: Seq<char>, ending: Seq<char>, last: bool) -> bool {
    ||| ending == seq!['\r', '\n']
    ||| ending == seq!['\n'] && !(line.len() > 0 && line.last() == '\r')
    ||| last && ending.len() == 0 && line.len() > 0
}

/// A text is its lines in order, each with its ending, and no line holds a line feed.
pub proof fn a_text_is_its_lines(text: Seq<char>) -> (endings: Seq<Seq<char>>)
    ensures
        endings.len() == lines(text).len(),
        text == Seq::new(
            endings.len(),
            |i: int| lines(text)[i] + endings[i],
        ).flatten(),
        forall|i: int|
            0 <= i < endings.len() ==> {
                &&& !(#[trigger] lines(text)[i]).contains('\n')
                &&& is_line_ending(lines(text)[i], endings[i], i == endings.len() - 1)
            },
{
    let all = segments(text);
    segments_hold_no_line_feed(text);
    segments_hold_the_text(text);
    let found = lines(text);
    let endings = Seq::new(
        found.len(),
        |i: int|
            if i == all.len() - 1 {
                Seq::<char>::empty()
            } else if all[i].len() > 0 && all[i].last() == '\r' {
                seq!['\r', '\n']
            } else {
                seq!['\n']
            },
    );
    let ended = all.map_values(|line: Seq<char>| line.push('\n'));
    let whole = Seq::new(endings.len(), |i: int| found[i] + endings[i]);
    let front = ended.drop_last();
    assert(ended =~= front.push(all.last().push('\n')));
    front.lemma_flatten_push(all.last().push('\n'));
    assert(text =~= text.push('\n').drop_last());
    assert(text =~= front.flatten() + all.last());
    assert forall|i: int| 0 <= i < front.len() implies found[i] + endings[i]
        == #[trigger] front[i] by {
        assert(found[i] == without_carriage_return(all[i]));
        assert(found[i] + endings[i] =~= all[i].push('\n'));
    }
    if all.last().len() == 0 {
        assert(whole =~= front);
        assert(front.flatten() + all.last() =~= front.flatten());
    } else {
        assert(whole.last() =~= all.last());
        assert(whole =~= front.push(all.last()));
        front.lemma_flatten_push(all.last());
    }
    assert forall|i: int| 0 <= i < endings.len() implies {
        &&& !(#[trigger] found[i]).contains('\n')
        &&& is_line_ending(found[i], endings[i], i == endings.len() - 1)
    } by {
        assert(!all[i].contains('\n'));
        if found[i].contains('\n') {
            let k = choose|k: int| 0 <= k < found[i].len() && found[i][k] == '\n';
            assert(all[i][k] == '\n');
        }
    }
    endings
}

/// A warning shows each line of its message, all of it, behind the keyword.
pub proof fn a_warning_shows_its_message(message: Seq<char>)
    ensures
        warning_lines(message).len() == lines(message).len(),
        forall|i: int|
            0 <= i < lines(message).len() ==> #[trigger] warning_lines(message)[i]
                == "cargo:warning="@ + lines(message)[i],
{
}

proof fn ended_items_are_unique(a: Seq<Seq<char>>, b: Seq<Seq<char>>)
    requires
        forall|i: int| 0 <= i < a.len() ==> !(#[trigger] a[i]).contains(','),
        forall|i: int| 0 <= i < b.len() ==> !(#[trigger] b[i]).contains(','),
        a.map_values(|item: Seq<char>| item + ", "@).flatten() == b.map_values(
            |item: Seq<char>| item + ", "@,
        ).flatten(),
    ensures
        a == b,
    decreases a.len(),
{
    reveal_strlit(", ");
    let ended_a = a.map_values(|item: Seq<char>| item + ", "@);
    let ended_b = b.map_values(|item: Seq<char>| item + ", "@);
    if a.len() == 0 || b.len() == 0 {
        if a.len() > 0 {
            assert(ended_a.flatten().len() >= ended_a.first().len());
        }
        if b.len() > 0 {
            assert(ended_b.flatten().len() >= ended_b.first().len());
        }
        assert(a =~= b);
    } else {
        let text = ended_a.flatten();
        let rest_a = ended_a.drop_first().flatten();
        let rest_b = ended_b.drop_first().flatten();
        let x = a[0];
        let y = b[0];
        assert(text == (x + ", "@) + rest_a);
        assert(text == (y + ", "@) + rest_b);
        assert(text[x.len() as int] == ',');
        assert(text[y.len() as int] == ',');
        assert(!a[0].contains(',') && !b[0].contains(','));
        if x.len() < y.len() {
            assert(y[x.len() as int] == text[x.len() as int]);
            assert(y.contains(','));
        }
        if y.len() < x.len() {
            assert(x[y.len() as int] == text[y.len() as int]);
            assert(x.contains(','));
        }
        assert(x =~= text.take(x.len() as int));
        assert(y =~= text.take(x.len() as int));
        assert(rest_a =~= text.skip(x.len() as int + 2));
        assert(rest_b =~= text.skip(x.len() as int + 2));
        assert(ended_a.drop_first() =~= a.drop_first().map_values(
            |item: Seq<char>| item + ", "@,
        ));
        assert(ended_b.drop_first() =~= b.drop_first().map_values(
            |item: Seq<char>| item + ", "@,
        ));
        assert forall|i: int| 0 <= i < a.drop_first().len() implies !(
        #[trigger] a.drop_first()[i]).contains(',') by {
            assert(a.drop_first()[i] == a[i + 1]);
        }
        assert forall|i: int| 0 <= i < b.drop_first().len() implies !(
        #[trigger] b.drop_first()[i]).contains(',') by {
            assert(b.drop_first()[i] == b[i + 1]);
        }
        ended_items_are_unique(a.drop_first(), b.drop_first());
        assert(a =~= seq![x] + a.drop_first());
        assert(b =~= seq![y] + b.drop_first());
    }
}

/// A list of nonempty items without commas can be read in one way only.
pub proof fn a_list_reads_one_way(text: Seq<char>, a: Seq<Seq<char>>, b: Seq<Seq<char>>)
    requires
        lists(text, a, ", "@),
        lists(text, b, ", "@),
        forall|i: int|
            0 <= i < a.len() ==> (#[trigger] a[i]).len() > 0 && !a[i].contains(','),
        forall|i: int|
            0 <= i < b.len() ==> (#[trigger] b[i]).len() > 0 && !b[i].contains(','),
    ensures
        a == b,
{
    if a.len() > 0 && b.len() > 0 {
        ended_items_are_unique(a, b);
    } else {
        reveal_strlit(", ");
        let ended_a = a.map_values(|item: Seq<char>| item + ", "@);
        let ended_b = b.map_values(|item: Seq<char>| item + ", "@);
        if a.len() > 0 {
            assert(a[0].len() > 0);
            assert(ended_a.flatten().len() >= ended_a.first().len());
        }
        if b.len() > 0 {
            assert(b[0].len() > 0);
            assert(ended_b.flatten().len() >= ended_b.first().len());
        }
        assert(a =~= b);
    }
}

} // verus!
