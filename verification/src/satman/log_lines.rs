//! Lines of a text.

use vstd::prelude::*;

verus! {

/// The place of the first line feed from an index on, or the length.
pub open spec fn line_end(text: Seq<char>, index: nat) -> nat
    decreases text.len() - index,
{
    if index < text.len() && text[index as int] != '\n' {
        line_end(text, index + 1)
    } else {
        index
    }
}

/// A line without the carriage return that its line feed followed.
pub open spec fn without_return(line: Seq<char>) -> Seq<char> {
    if line.len() > 0 && line.last() == '\r' {
        line.drop_last()
    } else {
        line
    }
}

/// The lines of a text. Each ends with a line feed, which may follow a carriage
/// return; the last may lack it. Neither is part of the line.
pub open spec fn lines_of(text: Seq<char>) -> Seq<Seq<char>>
    decreases text.len(),
{
    if text.len() == 0 {
        seq![]
    } else if line_end(text, 0) < text.len() {
        seq![without_return(text.take(line_end(text, 0) as int))] + lines_of(
            text.skip(line_end(text, 0) as int + 1),
        )
    } else {
        seq![text]
    }
}

/// Searching a text from an index on is searching what follows the index.
proof fn lemma_line_end_of_rest(text: Seq<char>, start: nat, index: nat)
    requires
        start + index <= text.len(),
    ensures
        line_end(text.skip(start as int), index) + start == line_end(text, start + index),
    decreases text.len() - start - index,
{
    let rest = text.skip(start as int);
    if index < rest.len() {
        assert(rest[index as int] == text[start as int + index as int]);
        if rest[index as int] != '\n' {
            lemma_line_end_of_rest(text, start, index + 1);
        }
    }
}

/// Splits a text into its lines.
pub fn split_lines(text: &str) -> (lines: Vec<String>)
    ensures
        lines.deep_view() == lines_of(text@),
{
    let n: usize = text.unicode_len();
    let mut lines: Vec<String> = Vec::new();
    let mut start: usize = 0;
    assert(text@.skip(0) =~= text@);
    assert(lines.deep_view() =~= Seq::<Seq<char>>::empty());
    while start < n
        invariant
            n == text@.len(),
            start <= n,
            lines.deep_view() + lines_of(text@.skip(start as int)) == lines_of(text@),
        decreases n - start,
    {
        let mut end: usize = start;
        while end < n && text.get_char(end) != '\n'
            invariant
                n == text@.len(),
                start <= end <= n,
                line_end(text@, start as nat) == line_end(text@, end as nat),
            decreases n - end,
        {
            end = end + 1;
        }
        let ghost rest = text@.skip(start as int);
        let ghost before = lines.deep_view();
        proof {
            lemma_line_end_of_rest(text@, start as nat, 0);
            assert(line_end(rest, 0) + start == end);
        }
        if end < n {
            let stop: usize = if start < end && text.get_char(end - 1) == '\r' {
                end - 1
            } else {
                end
            };
            let line: String = text.substring_char(start, stop).to_owned();
            lines.push(line);
            proof {
                let whole = rest.take(end - start);
                assert(whole =~= text@.subrange(start as int, end as int));
                if start < end {
                    assert(whole.last() == text@[end - 1]);
                }
                assert(line@ =~= without_return(whole));
                assert(rest.skip(end - start + 1) =~= text@.skip(end + 1));
                assert(lines.deep_view() =~= before.push(line@));
                assert(lines.deep_view() + lines_of(text@.skip(end + 1)) =~= before + lines_of(
                    rest,
                ));
            }
            start = end + 1;
        } else {
            let line: String = text.substring_char(start, end).to_owned();
            lines.push(line);
            proof {
                assert(line@ =~= rest);
                assert(lines.deep_view() =~= before.push(line@));
                assert(text@.skip(end as int) =~= Seq::<char>::empty());
                assert(lines.deep_view() + lines_of(text@.skip(end as int)) =~= before + lines_of(
                    rest,
                ));
            }
            start = end;
        }
    }
    assert(text@.skip(start as int) =~= Seq::<char>::empty());
    assert(lines.deep_view() + Seq::<Seq<char>>::empty() =~= lines.deep_view());
    lines
}

/// The lines of a text that goes on after a line feed are those up to it and
/// those of what follows.
pub proof fn law_lines_add_up(first: Seq<char>, second: Seq<char>)
    requires
        first.len() > 0 ==> first.last() == '\n',
    ensures
        lines_of(first + second) == lines_of(first) + lines_of(second),
    decreases first.len(),
{
    if first.len() == 0 {
        assert(first + second =~= second);
        assert(lines_of(first) + lines_of(second) =~= lines_of(second));
    } else {
        lemma_line_end_of_start(first, second, 0);
        let end = line_end(first, 0);
        let rest = first.skip(end as int + 1);
        assert((first + second).take(end as int) =~= first.take(end as int));
        assert((first + second).skip(end as int + 1) =~= rest + second);
        if rest.len() > 0 {
            assert(rest.last() == first.last());
        }
        law_lines_add_up(rest, second);
        let line = seq![without_return(first.take(end as int))];
        assert(line + (lines_of(rest) + lines_of(second)) =~= line + lines_of(rest) + lines_of(
            second,
        ));
    }
}

/// A text that ends with a line feed holds the first line feed of whatever it
/// is the start of.
proof fn lemma_line_end_of_start(first: Seq<char>, second: Seq<char>, index: nat)
    requires
        index < first.len(),
        first.last() == '\n',
    ensures
        line_end(first, index) == line_end(first + second, index),
        line_end(first, index) < first.len(),
    decreases first.len() - index,
{
    assert((first + second)[index as int] == first[index as int]);
    if first[index as int] != '\n' {
        lemma_line_end_of_start(first, second, index + 1);
    }
}

/// A text without a line feed is a line of its own, unless it is empty.
pub proof fn law_a_text_without_line_feed_is_one_line(text: Seq<char>)
    requires
        !text.contains('\n'),
    ensures
        text.len() == 0 ==> lines_of(text).len() == 0,
        text.len() > 0 ==> lines_of(text) == seq![text],
{
    lemma_no_line_end(text, 0);
}

/// What stands before the first line feed is the first line, less one carriage
/// return at its end, and what follows the line feed has the other lines.
pub proof fn law_a_line_feed_ends_a_line(line: Seq<char>, rest: Seq<char>)
    requires
        !line.contains('\n'),
    ensures
        lines_of(line + seq!['\n'] + rest).len() == 1 + lines_of(rest).len(),
        lines_of(line + seq!['\n'] + rest).drop_first() == lines_of(rest),
        line.len() > 0 && line.last() == '\r' ==> lines_of(line + seq!['\n'] + rest)[0] + seq![
            '\r',
        ] == line,
        line.len() == 0 || line.last() != '\r' ==> lines_of(line + seq!['\n'] + rest)[0] == line,
{
    let text = line + seq!['\n'] + rest;
    lemma_line_end_after(line, rest, 0);
    assert(text.take(line.len() as int) =~= line);
    assert(text.skip(line.len() as int + 1) =~= rest);
    assert(lines_of(text).drop_first() =~= lines_of(rest));
    if line.len() > 0 && line.last() == '\r' {
        assert(line.drop_last() + seq!['\r'] =~= line);
    }
}

proof fn lemma_no_line_end(text: Seq<char>, index: nat)
    requires
        !text.contains('\n'),
        index <= text.len(),
    ensures
        line_end(text, index) == text.len(),
    decreases text.len() - index,
{
    if index < text.len() {
        assert(text.contains(text[index as int]));
        lemma_no_line_end(text, index + 1);
    }
}

proof fn lemma_line_end_after(line: Seq<char>, rest: Seq<char>, index: nat)
    requires
        !line.contains('\n'),
        index <= line.len(),
    ensures
        line_end(line + seq!['\n'] + rest, index) == line.len(),
    decreases line.len() - index,
{
    if index < line.len() {
        assert(line.contains(line[index as int]));
        assert((line + seq!['\n'] + rest)[index as int] == line[index as int]);
        lemma_line_end_after(line, rest, index + 1);
    }
}

} // verus!
