use vstd::prelude::*;
use vstd::string::*;

verus! {

/// A line without the carriage return that ends it, if any.
pub open spec fn strip_cr(l: Seq<char>) -> Seq<char> {
    if l.len() > 0 && l.last() == '\r' {
        l.drop_last()
    } else {
        l
    }
}

/// Index of the first line feed in `s`, or the length of `s` when there is none.
pub open spec fn line_end(s: Seq<char>) -> nat
    decreases s.len(),
{
    if s.len() == 0 {
        0
    } else if s[0] == '\n' {
        0
    } else {
        1 + line_end(s.drop_first())
    }
}

/// The lines of a text, as `str::lines` yields them: the text is split at each line feed,
/// a carriage return just before a line feed is dropped, and a final line feed does not
/// open an empty last line.
pub open spec fn lines_of(s: Seq<char>) -> Seq<Seq<char>>
    decreases s.len(),
{
    if s.len() == 0 {
        seq![]
    } else {
        let e = line_end(s);
        if e >= s.len() {
            seq![s]
        } else {
            seq![strip_cr(s.take(e as int))] + lines_of(s.skip(e + 1 as int))
        }
    }
}

proof fn lemma_line_end_bounded(s: Seq<char>)
    ensures
        line_end(s) <= s.len(),
        line_end(s) < s.len() ==> s[line_end(s) as int] == '\n',
        forall|j: int| 0 <= j < line_end(s) ==> s[j] != '\n',
    decreases s.len(),
{
    if s.len() > 0 && s[0] != '\n' {
        lemma_line_end_bounded(s.drop_first());
        assert forall|j: int| 0 <= j < line_end(s) implies s[j] != '\n' by {
            if j > 0 {
                assert(s[j] == s.drop_first()[j - 1]);
            }
        }
    }
}

proof fn lemma_line_end_at(s: Seq<char>, k: int)
    requires
        0 <= k <= s.len(),
        k < s.len() ==> s[k] == '\n',
        forall|j: int| 0 <= j < k ==> s[j] != '\n',
    ensures
        line_end(s) == k,
    decreases s.len(),
{
    if s.len() > 0 && k > 0 {
        assert(s[0] != '\n');
        let t = s.drop_first();
        assert forall|j: int| 0 <= j < k - 1 implies t[j] != '\n' by {
            assert(t[j] == s[j + 1]);
        }
        if k < s.len() {
            assert(t[k - 1] == s[k]);
        }
        lemma_line_end_at(t, k - 1);
    }
}

/// Splits a text into its lines, as `str::lines` does.
pub fn text_lines(text: &str) -> (lines: Vec<String>)
    ensures
        lines.deep_view() == lines_of(text@),
{
    let n = text.unicode_len();
    let ghost s = text@;
    let mut lines: Vec<String> = Vec::new();
    let mut start: usize = 0;
    let mut i: usize = 0;
    assert(s.skip(0) =~= s);
    while i < n
        invariant
            n == s.len(),
            s == text@,
            start <= i <= n,
            forall|j: int| start <= j < i ==> s[j] != '\n',
            lines.deep_view() + lines_of(s.skip(start as int)) == lines_of(s),
        decreases n - i,
    {
        let c = text.get_char(i);
        if c == '\n' {
            let ghost t = s.skip(start as int);
            proof {
                assert forall|j: int| 0 <= j < i - start implies t[j] != '\n' by {
                    assert(t[j] == s[start + j]);
                }
                assert(t[i - start] == s[i as int]);
                lemma_line_end_at(t, i - start);
                assert(t.skip(i - start + 1) =~= s.skip(i + 1));
                assert(t.take(i - start) =~= s.subrange(start as int, i as int));
            }
            let mut end = i;
            if i > start {
                let last = text.get_char(i - 1);
                if last == '\r' {
                    end = i - 1;
                }
            }
            let piece = text.substring_char(start, end);
            let line = String::from_str(piece);
            proof {
                assert(line@ == strip_cr(s.subrange(start as int, i as int)));
            }
            let ghost before = lines.deep_view();
            lines.push(line);
            proof {
                assert(lines.deep_view() =~= before.push(line@));
                assert(lines_of(t) =~= seq![line@] + lines_of(s.skip(i + 1)));
                assert(lines.deep_view() + lines_of(s.skip(i + 1)) =~= before + lines_of(t));
            }
            start = i + 1;
        }
        i = i + 1;
    }
    if start < n {
        let ghost t = s.skip(start as int);
        proof {
            assert forall|j: int| 0 <= j < t.len() implies t[j] != '\n' by {
                assert(t[j] == s[start + j]);
            }
            lemma_line_end_at(t, t.len() as int);
            assert(lines_of(t) == seq![t]);
        }
        let piece = text.substring_char(start, n);
        let line = String::from_str(piece);
        let ghost before = lines.deep_view();
        lines.push(line);
        proof {
            assert(line@ =~= t);
            assert(lines.deep_view() =~= before.push(line@));
            assert(lines.deep_view() =~= before + lines_of(t));
        }
    } else {
        proof {
            assert(s.skip(start as int).len() == 0);
            assert(lines.deep_view() =~= lines.deep_view() + lines_of(s.skip(start as int)));
        }
    }
    lines
}

} // verus!

verus! {

/// A text whose only line feed is its last character, followed by more text, yields the
/// first line and then the lines of the rest.
pub proof fn lemma_lines_of_first_line(x: Seq<char>, y: Seq<char>)
    requires
        x.len() > 0,
        x.last() == '\n',
        forall|j: int| 0 <= j < x.len() - 1 ==> x[j] != '\n',
    ensures
        lines_of(x + y) == seq![strip_cr(x.drop_last())] + lines_of(y),
{
    let s = x + y;
    assert forall|j: int| 0 <= j < x.len() - 1 implies s[j] != '\n' by {
        assert(s[j] == x[j]);
    }
    assert(s[x.len() - 1] == x.last());
    lemma_line_end_at(s, x.len() - 1);
    assert(s.take(x.len() - 1) =~= x.drop_last());
    assert(s.skip(x.len() as int) =~= y);
}

/// A non-empty text without line feeds is a single line.
pub proof fn lemma_lines_of_last_line(x: Seq<char>)
    requires
        x.len() > 0,
        forall|j: int| 0 <= j < x.len() ==> x[j] != '\n',
    ensures
        lines_of(x) == seq![x],
{
    lemma_line_end_at(x, x.len() as int);
}

} // verus!
