//! Text helpers over characters: splitting into lines and finding a pattern.
use vstd::prelude::*;

verus! {

broadcast use vstd::string::group_string_axioms;

/// The characters of a string, in order.
pub fn chars_of(s: &str) -> (chars: Vec<char>)
    ensures
        chars@ == s@,
{
    let mut chars: Vec<char> = Vec::new();
    for c in it: s.chars()
        invariant
            chars@ == it.seq().subrange(0, it.index() as int),
    {
        chars.push(c);
    }
    chars
}

/// Whether `pat` occurs in `hay` as a contiguous run of characters.
pub open spec fn contains_seq(hay: Seq<char>, pat: Seq<char>) -> bool {
    exists|k: int| 0 <= k && k + pat.len() <= hay.len() && #[trigger] hay.subrange(k, k + pat.len()) == pat
}

/// Whether `pat` occurs in `chars[from..to]`.
pub fn contains_in(chars: &Vec<char>, from: usize, to: usize, pat: &Vec<char>) -> (found: bool)
    requires
        from <= to <= chars.len(),
    ensures
        found == contains_seq(chars@.subrange(from as int, to as int), pat@),
{
    let ghost hay = chars@.subrange(from as int, to as int);
    if pat.len() > to - from {
        assert forall|k: int| 0 <= k && k + pat@.len() <= hay.len() implies #[trigger] hay.subrange(
            k,
            k + pat@.len(),
        ) != pat@ by {}
        return false;
    }
    let last = to - from - pat.len();
    let mut k: usize = 0;
    while k <= last
        invariant
            from <= to <= chars.len(),
            pat.len() <= to - from,
            last == to - from - pat.len(),
            hay == chars@.subrange(from as int, to as int),
            forall|m: int| 0 <= m < k ==> #[trigger] hay.subrange(m, m + pat@.len()) != pat@,
        decreases last + 1 - k,
    {
        let mut j: usize = 0;
        let mut same = true;
        while j < pat.len()
            invariant
                from <= to <= chars.len(),
                k <= last,
                last == to - from - pat.len(),
                j <= pat.len(),
                hay == chars@.subrange(from as int, to as int),
                same == forall|t: int| 0 <= t < j ==> hay[k + t] == pat@[t],
            decreases pat.len() - j,
        {
            if chars[from + k + j] != pat[j] {
                same = false;
            }
            j = j + 1;
        }
        if same {
            assert(hay.subrange(k as int, k + pat@.len()) =~= pat@);
            return true;
        }
        assert(hay.subrange(k as int, k + pat@.len()) != pat@) by {
            let t = choose|t: int| 0 <= t < pat.len() && hay[k + t] != pat@[t];
            assert(hay.subrange(k as int, k + pat@.len())[t] != pat@[t]);
        }
        if k == last {
            assert forall|m: int| 0 <= m && m + pat@.len() <= hay.len() implies #[trigger] hay.subrange(
                m,
                m + pat@.len(),
            ) != pat@ by {
                assert(m <= k);
            }
            return false;
        }
        k = k + 1;
    }
    false
}

/// A line without the carriage return of a `\r\n` line ending.
pub open spec fn strip_cr(line: Seq<char>) -> Seq<char> {
    if line.len() > 0 && line.last() == '\r' {
        line.drop_last()
    } else {
        line
    }
}

/// Scanning the first `n` characters: the lines ended so far (each ended by a
/// `\n`, with a `\r` before it dropped) and the line begun since.
pub open spec fn lines_scan(s: Seq<char>, n: int) -> (Seq<Seq<char>>, Seq<char>)
    decreases n,
{
    if n <= 0 {
        (Seq::<Seq<char>>::empty(), Seq::<char>::empty())
    } else {
        let (ended, current) = lines_scan(s, n - 1);
        if s[n - 1] == '\n' {
            (ended.push(strip_cr(current)), Seq::<char>::empty())
        } else {
            (ended, current.push(s[n - 1]))
        }
    }
}

/// The lines of a text, as `str::lines` gives them: split at `\n` or `\r\n`,
/// without the line endings, the last line ending being optional.
pub open spec fn text_lines(s: Seq<char>) -> Seq<Seq<char>> {
    let (ended, current) = lines_scan(s, s.len() as int);
    if current.len() > 0 {
        ended.push(current)
    } else {
        ended
    }
}

} // verus!
