//! Verified text helpers: trimming captured output, rendering exit codes
//! in decimal, and joining a program with its arguments into the quoted
//! invocation string that diagnostics show.

use vstd::prelude::*;

verus! {

/// The characters that trimming strips: the whitespace set of Unicode,
/// which is what `str::trim` goes by.
pub open spec fn is_wspace(c: char) -> bool {
    c == ' ' || c == '\t' || c == '\n' || c == '\r' || c == '\u{000B}' || c == '\u{000C}'
        || c == '\u{0085}' || c == '\u{00A0}' || c == '\u{1680}'
        || ('\u{2000}' <= c && c <= '\u{200A}')
        || c == '\u{2028}' || c == '\u{2029}' || c == '\u{202F}' || c == '\u{205F}'
        || c == '\u{3000}'
}

fn is_wspace_char(c: char) -> (b: bool)
    ensures
        b == is_wspace(c),
{
    c == ' ' || c == '\t' || c == '\n' || c == '\r' || c == '\u{000B}' || c == '\u{000C}'
        || c == '\u{0085}' || c == '\u{00A0}' || c == '\u{1680}'
        || ('\u{2000}' <= c && c <= '\u{200A}')
        || c == '\u{2028}' || c == '\u{2029}' || c == '\u{202F}' || c == '\u{205F}'
        || c == '\u{3000}'
}

/// What is left of `s` once every leading whitespace character is gone.
pub open spec fn trim_start_spec(s: Seq<char>) -> Seq<char>
    decreases s.len(),
{
    if s.len() > 0 && is_wspace(s[0]) {
        trim_start_spec(s.subrange(1, s.len() as int))
    } else {
        s
    }
}

/// What is left of `s` once every trailing whitespace character is gone.
pub open spec fn trim_end_spec(s: Seq<char>) -> Seq<char>
    decreases s.len(),
{
    if s.len() > 0 && is_wspace(s[s.len() - 1]) {
        trim_end_spec(s.subrange(0, s.len() - 1))
    } else {
        s
    }
}

/// What is left of `s` once whitespace is gone from both ends.
pub open spec fn trim_spec(s: Seq<char>) -> Seq<char> {
    trim_end_spec(trim_start_spec(s))
}

proof fn lemma_trim_start_at(s: Seq<char>, i: int)
    requires
        0 <= i <= s.len(),
        forall|k: int| 0 <= k < i ==> is_wspace(s[k]),
        i == s.len() || !is_wspace(s[i]),
    ensures
        trim_start_spec(s) == s.subrange(i, s.len() as int),
    decreases i,
{
    if i == 0 {
        assert(s.subrange(0, s.len() as int) =~= s);
    } else {
        let tail = s.subrange(1, s.len() as int);
        lemma_trim_start_at(tail, i - 1);
        assert(tail.subrange(i - 1, tail.len() as int) =~= s.subrange(i, s.len() as int));
    }
}

proof fn lemma_trim_end_at(s: Seq<char>, j: int)
    requires
        0 <= j <= s.len(),
        forall|k: int| j <= k < s.len() ==> is_wspace(s[k]),
        j == 0 || !is_wspace(s[j - 1]),
    ensures
        trim_end_spec(s) == s.subrange(0, j),
    decreases s.len() - j,
{
    if j == s.len() {
        assert(s.subrange(0, s.len() as int) =~= s);
    } else {
        let head = s.subrange(0, s.len() - 1);
        lemma_trim_end_at(head, j);
        assert(head.subrange(0, j) =~= s.subrange(0, j));
    }
}

/// Strip whitespace from both ends of `s`, as `str::trim` does.
pub fn trim(s: &str) -> (r: String)
    ensures
        r@ == trim_spec(s@),
{
    let len: usize = s.unicode_len();
    let mut start: usize = 0;
    while start < len && is_wspace_char(s.get_char(start))
        invariant
            0 <= start <= len,
            len == s@.len(),
            forall|k: int| 0 <= k < start ==> is_wspace(s@[k]),
        decreases len - start,
    {
        start = start + 1;
    }
    let mut end: usize = len;
    while end > start && is_wspace_char(s.get_char(end - 1))
        invariant
            start <= end <= len,
            len == s@.len(),
            forall|k: int| end <= k < len ==> is_wspace(s@[k]),
        decreases end,
    {
        end = end - 1;
    }
    proof {
        lemma_trim_start_at(s@, start as int);
        let t = s@.subrange(start as int, len as int);
        lemma_trim_end_at(t, end - start);
        assert(t.subrange(0, end - start) =~= s@.subrange(start as int, end as int));
    }
    let sub = s.substring_char(start, end);
    String::from_str(sub)
}

/// The character for one decimal digit.
pub open spec fn digit_char(d: nat) -> char {
    if d == 0 {
        '0'
    } else if d == 1 {
        '1'
    } else if d == 2 {
        '2'
    } else if d == 3 {
        '3'
    } else if d == 4 {
        '4'
    } else if d == 5 {
        '5'
    } else if d == 6 {
        '6'
    } else if d == 7 {
        '7'
    } else if d == 8 {
        '8'
    } else {
        '9'
    }
}

/// The decimal digits of `n`, most significant first, with no sign and no
/// leading zero (except for `n == 0` itself).
pub open spec fn dec_str(n: nat) -> Seq<char>
    decreases n,
{
    if n < 10 {
        seq![digit_char(n)]
    } else {
        dec_str(n / 10) + seq![digit_char(n % 10)]
    }
}

/// The decimal rendering of `i`, with a leading minus sign when negative.
pub open spec fn int_str(i: int) -> Seq<char> {
    if i < 0 {
        seq!['-'] + dec_str((-i) as nat)
    } else {
        dec_str(i as nat)
    }
}

fn append_dec_u64(n: u64, out: &mut String)
    ensures
        final(out)@ == old(out)@ + dec_str(n as nat),
    decreases n,
{
    if n >= 10 {
        append_dec_u64(n / 10, out);
    }
    let d: u64 = n % 10;
    let ds: &str = if d == 0 {
        "0"
    } else if d == 1 {
        "1"
    } else if d == 2 {
        "2"
    } else if d == 3 {
        "3"
    } else if d == 4 {
        "4"
    } else if d == 5 {
        "5"
    } else if d == 6 {
        "6"
    } else if d == 7 {
        "7"
    } else if d == 8 {
        "8"
    } else {
        "9"
    };
    proof {
        reveal_strlit("0");
        reveal_strlit("1");
        reveal_strlit("2");
        reveal_strlit("3");
        reveal_strlit("4");
        reveal_strlit("5");
        reveal_strlit("6");
        reveal_strlit("7");
        reveal_strlit("8");
        reveal_strlit("9");
        assert(ds@ =~= seq![digit_char((n % 10) as nat)]);
    }
    out.append(ds);
}

/// Render `i` in decimal, matching [`int_str`].
pub fn render_i64(i: i64) -> (r: String)
    ensures
        r@ == int_str(i as int),
{
    let mut out = String::new();
    if i < 0 {
        out.append("-");
        proof {
            reveal_strlit("-");
            assert(out@ =~= seq!['-']);
        }
        let m: u64 = (-(i as i128)) as u64;
        append_dec_u64(m, &mut out);
    } else {
        append_dec_u64(i as u64, &mut out);
    }
    proof {
        assert(Seq::<char>::empty() + dec_str(i as nat) =~= dec_str(i as nat));
    }
    out
}

/// All the items of `items` one after another, a single space between
/// each neighbouring pair.
pub open spec fn joined_with_spaces(items: Seq<Seq<char>>) -> Seq<char>
    decreases items.len(),
{
    if items.len() == 0 {
        Seq::empty()
    } else if items.len() == 1 {
        items[0]
    } else {
        joined_with_spaces(items.drop_last()) + seq![' '] + items.last()
    }
}

/// Join the items with single spaces, matching [`joined_with_spaces`].
pub fn join_with_spaces(items: &Vec<String>) -> (r: String)
    ensures
        r@ == joined_with_spaces(items.deep_view()),
{
    let ghost all = items.deep_view();
    let mut out = String::new();
    let mut i: usize = 0;
    while i < items.len()
        invariant
            0 <= i <= items.len(),
            all == items.deep_view(),
            all.len() == items.len(),
            forall|k: int| 0 <= k < items.len() ==> all[k] == items[k]@,
            out@ == joined_with_spaces(all.take(i as int)),
        decreases items.len() - i,
    {
        if i > 0 {
            out.append(" ");
            proof {
                reveal_strlit(" ");
            }
        }
        out.append(items[i].as_str());
        proof {
            let prefix = all.take(i as int);
            let grown = all.take(i + 1);
            assert(grown.drop_last() =~= prefix);
            assert(grown.last() == all[i as int]);
            if i == 0 {
                assert(out@ =~= joined_with_spaces(grown));
            } else {
                assert(out@ =~= joined_with_spaces(prefix) + seq![' '] + all[i as int]);
            }
        }
        i = i + 1;
    }
    proof {
        assert(all.take(items.len() as int) =~= all);
    }
    out
}

/// `needle` occurs somewhere in `hay` as a contiguous run.
pub open spec fn contains_seq(hay: Seq<char>, needle: Seq<char>) -> bool {
    exists|i: int|
        0 <= i && i + needle.len() <= hay.len() && #[trigger] hay.subrange(i, i + needle.len())
            == needle
}

/// Whatever stands between two other pieces is contained in their
/// concatenation.
pub proof fn lemma_contains_middle(before: Seq<char>, needle: Seq<char>, after: Seq<char>)
    ensures
        contains_seq(before + needle + after, needle),
{
    let hay = before + needle + after;
    let i = before.len() as int;
    assert(hay.subrange(i, i + needle.len()) =~= needle);
}

/// The one-line rendering of a program and its arguments, as diagnostics
/// quote it: the program, a space, then the arguments space-separated.
pub open spec fn invocation_text_spec(program: Seq<char>, args: Seq<Seq<char>>) -> Seq<char> {
    program + seq![' '] + joined_with_spaces(args)
}

/// Render a program and its arguments as one quoted invocation line,
/// matching [`invocation_text_spec`].
pub fn invocation_text(program: &String, args: &Vec<String>) -> (r: String)
    ensures
        r@ == invocation_text_spec(program@, args.deep_view()),
{
    let mut out = program.clone();
    out.append(" ");
    proof {
        reveal_strlit(" ");
        assert(program@ + " "@ =~= program@ + seq![' ']);
    }
    let joined = join_with_spaces(args);
    out.append(joined.as_str());
    out
}

} // verus!
