//! Character-level string helpers: substring search, splitting on a separator,
//! the first whitespace-delimited word, and equality, all stated over `Seq<char>`.
use vstd::prelude::*;
use vstd::utf8::is_ascii_chars;

verus! {

/// What `str::to_lowercase` gives for a string (the full Unicode lowercase mapping).
pub uninterp spec fn lower(s: Seq<char>) -> Seq<char>;

/// The character has the Unicode `White_Space` property (what `char::is_whitespace`
/// decides): tab through carriage return, space, next line, no-break space, ogham space mark,
/// the spaces U+2000 to U+200A, line and paragraph separators, narrow no-break space,
/// medium mathematical space and ideographic space.
pub open spec fn white_space(c: char) -> bool {
    let u = c as u32;
    ||| 0x09 <= u <= 0x0D
    ||| u == 0x20
    ||| u == 0x85
    ||| u == 0xA0
    ||| u == 0x1680
    ||| 0x2000 <= u <= 0x200A
    ||| u == 0x2028
    ||| u == 0x2029
    ||| u == 0x202F
    ||| u == 0x205F
    ||| u == 0x3000
}

/// The character lowercased in ASCII: `A` to `Z` become `a` to `z`, every other character
/// stays as it is.
pub open spec fn ascii_lower_char(c: char) -> char {
    if 'A' <= c <= 'Z' {
        ((c as u32) + 32) as char
    } else {
        c
    }
}

/// `s` with each character lowercased in ASCII.
pub open spec fn ascii_lower(s: Seq<char>) -> Seq<char> {
    s.map_values(|c: char| ascii_lower_char(c))
}

/// `str::to_lowercase`: the result's characters are `lower` of the argument's characters.
/// Each character goes to its Unicode lowercase mapping, and a character without one is kept
/// (std's `char::to_lowercase`); among ASCII characters only `A` to `Z` have a mapping, to
/// `a` to `z`, and the one context rule (final sigma) concerns a non-ASCII letter. So for
/// all-ASCII text the result is `ascii_lower` of the argument; beyond ASCII only the name
/// `lower` is claimed.
#[verifier::external_body]
pub(crate) fn to_lower(s: &str) -> (r: String)
    ensures
        r@ == lower(s@),
        is_ascii_chars(s@) ==> r@ == ascii_lower(s@),
{
    s.to_lowercase()
}

/// Whether the character is Unicode white space.
pub fn is_white_space(c: char) -> (b: bool)
    ensures
        b == white_space(c),
{
    let u = c as u32;
    (0x09 <= u && u <= 0x0D) || u == 0x20 || u == 0x85 || u == 0xA0 || u == 0x1680 || (0x2000 <= u
        && u <= 0x200A) || u == 0x2028 || u == 0x2029 || u == 0x202F || u == 0x205F || u == 0x3000
}

/// `needle` occurs in `hay` starting at index `i`.
pub open spec fn occurs_at(hay: Seq<char>, needle: Seq<char>, i: int) -> bool {
    &&& 0 <= i
    &&& i + needle.len() <= hay.len()
    &&& hay.subrange(i, i + needle.len()) == needle
}

/// `needle` is a substring of `hay` (what `str::contains` with a string pattern decides).
pub open spec fn has_sub(hay: Seq<char>, needle: Seq<char>) -> bool {
    exists|i: int| occurs_at(hay, needle, i)
}

/// `s` with its leading whitespace removed.
pub open spec fn trim_start(s: Seq<char>) -> Seq<char>
    decreases s.len(),
{
    if s.len() > 0 && white_space(s[0]) {
        trim_start(s.drop_first())
    } else {
        s
    }
}

/// `s` with its trailing whitespace removed.
pub open spec fn trim_end(s: Seq<char>) -> Seq<char>
    decreases s.len(),
{
    if s.len() > 0 && white_space(s.last()) {
        trim_end(s.drop_last())
    } else {
        s
    }
}

/// `s` without leading and trailing whitespace (what `str::trim` gives).
pub open spec fn trim(s: Seq<char>) -> Seq<char> {
    trim_end(trim_start(s))
}

/// The characters of `s` before its first whitespace character.
pub open spec fn leading_word(s: Seq<char>) -> Seq<char>
    decreases s.len(),
{
    if s.len() == 0 || white_space(s[0]) {
        Seq::empty()
    } else {
        seq![s[0]] + leading_word(s.drop_first())
    }
}

/// The first whitespace-separated word of `s`, or the empty sequence when there is none
/// (what `s.split_whitespace().next().unwrap_or("")` gives).
pub open spec fn first_word(s: Seq<char>) -> Seq<char> {
    leading_word(trim_start(s))
}

/// The pieces of `s` between occurrences of `sep`, in order (what `str::split` with a
/// character pattern yields): there is always at least one piece, and an empty `s`
/// gives one empty piece.
pub open spec fn split_on(s: Seq<char>, sep: char) -> Seq<Seq<char>>
    decreases s.len(),
{
    if s.len() == 0 {
        seq![Seq::<char>::empty()]
    } else {
        let pieces = split_on(s.drop_last(), sep);
        if s.last() == sep {
            pieces.push(Seq::<char>::empty())
        } else {
            pieces.update(pieces.len() - 1, pieces.last().push(s.last()))
        }
    }
}

/// Text without the separator is a single piece.
pub proof fn lemma_split_without_sep(s: Seq<char>, sep: char)
    requires
        !s.contains(sep),
    ensures
        split_on(s, sep) == seq![s],
    decreases s.len(),
{
    if s.len() > 0 {
        assert(!s.drop_last().contains(sep)) by {
            if s.drop_last().contains(sep) {
                let k = choose|k: int| 0 <= k < s.drop_last().len() && s.drop_last()[k] == sep;
                assert(s[k] == sep);
            }
        }
        lemma_split_without_sep(s.drop_last(), sep);
        assert(s.last() != sep) by {
            assert(s[s.len() - 1] == s.last());
        }
        assert(s.drop_last().push(s.last()) =~= s);
        assert(split_on(s, sep) =~= seq![s]);
    } else {
        assert(s =~= Seq::<char>::empty());
    }
}

/// Text followed by the separator and a piece without it splits into the pieces of the
/// text and then that piece.
pub proof fn lemma_split_then_piece(a: Seq<char>, sep: char, b: Seq<char>)
    requires
        !b.contains(sep),
    ensures
        split_on(a + seq![sep] + b, sep) == split_on(a, sep).push(b),
    decreases b.len(),
{
    let s = a + seq![sep] + b;
    if b.len() == 0 {
        assert(s.drop_last() =~= a);
        assert(s.last() == sep);
        assert(b =~= Seq::<char>::empty());
        assert(split_on(s, sep) == split_on(s.drop_last(), sep).push(Seq::<char>::empty()));
    } else {
        assert(!b.drop_last().contains(sep)) by {
            if b.drop_last().contains(sep) {
                let k = choose|k: int| 0 <= k < b.drop_last().len() && b.drop_last()[k] == sep;
                assert(b[k] == sep);
            }
        }
        lemma_split_then_piece(a, sep, b.drop_last());
        assert(s.drop_last() =~= a + seq![sep] + b.drop_last());
        assert(s.last() == b.last());
        assert(b.last() != sep) by {
            assert(b[b.len() - 1] == b.last());
        }
        assert(b.drop_last().push(b.last()) =~= b);
        assert(split_on(s, sep) =~= split_on(a, sep).push(b));
    }
}

/// The characters of `s`, in order.
pub fn char_vec(s: &str) -> (v: Vec<char>)
    ensures
        v@ == s@,
{
    let mut v: Vec<char> = Vec::new();
    for c in it: s.chars()
        invariant
            v@ == it.seq().take(it.index() as int),
    {
        v.push(c);
    }
    v
}

/// Whether `needle` occurs in `hay`.
pub fn contains_chars(hay: &Vec<char>, needle: &Vec<char>) -> (r: bool)
    ensures
        r == has_sub(hay@, needle@),
{
    let n = needle.len();
    if n == 0 {
        assert(hay@.subrange(0, 0) =~= needle@);
        assert(occurs_at(hay@, needle@, 0));
        return true;
    }
    if n > hay.len() {
        return false;
    }
    let last = hay.len() - n;
    let mut i: usize = 0;
    while i <= last
        invariant
            0 < n == needle@.len(),
            last + n == hay@.len(),
            hay@.len() <= usize::MAX,
            i <= last + 1,
            forall|k: int| 0 <= k < i ==> !occurs_at(hay@, needle@, k),
        decreases last + 1 - i,
    {
        let mut j: usize = 0;
        let mut matched = true;
        while j < n
            invariant
                0 < n == needle@.len(),
                last + n == hay@.len(),
                hay@.len() <= usize::MAX,
                i <= last,
                j <= n,
                matched ==> forall|t: int| 0 <= t < j ==> hay@[i + t] == needle@[t],
                !matched ==> exists|t: int| 0 <= t < n && hay@[i + t] != needle@[t],
            decreases n - j,
        {
            if hay[i + j] != needle[j] {
                matched = false;
                assert(hay@[i + j as int] != needle@[j as int]);
            }
            j = j + 1;
        }
        if matched {
            assert(hay@.subrange(i as int, i + n) =~= needle@);
            assert(occurs_at(hay@, needle@, i as int));
            return true;
        }
        proof {
            let t = choose|t: int| 0 <= t < n && hay@[i + t] != needle@[t];
            assert(hay@.subrange(i as int, i + n)[t] != needle@[t]);
        }
        i = i + 1;
    }
    proof {
        assert forall|k: int| !occurs_at(hay@, needle@, k) by {
            if 0 <= k && k + n <= hay@.len() {
                assert(k < i);
            }
        }
    }
    false
}

/// Whether the string `needle` occurs in the string `hay`.
pub fn contains_str(hay: &str, needle: &str) -> (r: bool)
    ensures
        r == has_sub(hay@, needle@),
{
    contains_chars(&char_vec(hay), &char_vec(needle))
}

/// Whether two character sequences are equal.
pub fn chars_eq(a: &Vec<char>, b: &Vec<char>) -> (r: bool)
    ensures
        r == (a@ == b@),
{
    if a.len() != b.len() {
        return false;
    }
    let mut i: usize = 0;
    while i < a.len()
        invariant
            a@.len() == b@.len(),
            i <= a@.len(),
            forall|k: int| 0 <= k < i ==> a@[k] == b@[k],
        decreases a.len() - i,
    {
        if a[i] != b[i] {
            assert(a@[i as int] != b@[i as int]);
            return false;
        }
        i = i + 1;
    }
    assert(a@ =~= b@);
    true
}

/// Whether two strings hold the same characters.
pub fn str_eq(a: &str, b: &str) -> (r: bool)
    ensures
        r == (a@ == b@),
{
    chars_eq(&char_vec(a), &char_vec(b))
}

proof fn lemma_trim_start_step(s: Seq<char>, i: int)
    requires
        0 <= i < s.len(),
        white_space(s[i]),
    ensures
        trim_start(s.skip(i)) == trim_start(s.skip(i + 1)),
{
    assert(s.skip(i).drop_first() =~= s.skip(i + 1));
}

proof fn lemma_leading_word_step(s: Seq<char>, start: int, j: int)
    requires
        0 <= start <= j < s.len(),
        !white_space(s[j]),
        s.skip(start).subrange(0, j - start) + leading_word(s.skip(j)) == leading_word(s.skip(start)),
    ensures
        s.skip(start).subrange(0, j + 1 - start) + leading_word(s.skip(j + 1)) == leading_word(
            s.skip(start),
        ),
{
    assert(s.skip(j).drop_first() =~= s.skip(j + 1));
    assert(leading_word(s.skip(j)) == seq![s[j]] + leading_word(s.skip(j + 1)));
    assert(s.skip(start).subrange(0, j + 1 - start) =~= s.skip(start).subrange(0, j - start).push(
        s[j],
    ));
    assert(s.skip(start).subrange(0, j - start) + (seq![s[j]] + leading_word(s.skip(j + 1)))
        =~= s.skip(start).subrange(0, j + 1 - start) + leading_word(s.skip(j + 1)));
}

/// The first whitespace-separated word of `s`.
pub fn first_word_of(s: &Vec<char>) -> (w: Vec<char>)
    ensures
        w@ == first_word(s@),
{
    let mut i: usize = 0;
    assert(s@.skip(0) =~= s@);
    while i < s.len() && is_white_space(s[i])
        invariant
            i <= s@.len(),
            trim_start(s@) == trim_start(s@.skip(i as int)),
        decreases s.len() - i,
    {
        proof {
            lemma_trim_start_step(s@, i as int);
        }
        i = i + 1;
    }
    assert(trim_start(s@.skip(i as int)) == s@.skip(i as int));
    let start = i;
    let mut w: Vec<char> = Vec::new();
    assert(s@.skip(start as int).subrange(0, 0) =~= Seq::<char>::empty());
    assert(Seq::<char>::empty() + leading_word(s@.skip(start as int)) =~= leading_word(
        s@.skip(start as int),
    ));
    while i < s.len() && !is_white_space(s[i])
        invariant
            start <= i <= s@.len(),
            w@ == s@.skip(start as int).subrange(0, i - start),
            w@ + leading_word(s@.skip(i as int)) == leading_word(s@.skip(start as int)),
            trim_start(s@) == s@.skip(start as int),
        decreases s.len() - i,
    {
        proof {
            lemma_leading_word_step(s@, start as int, i as int);
        }
        w.push(s[i]);
        proof {
            assert(w@ =~= s@.skip(start as int).subrange(0, i + 1 - start));
        }
        i = i + 1;
    }
    assert(leading_word(s@.skip(i as int)) =~= Seq::<char>::empty());
    assert(w@ + Seq::<char>::empty() =~= w@);
    w
}

/// The pieces of `s` between occurrences of `sep`.
pub fn split_chars(s: &Vec<char>, sep: char) -> (pieces: Vec<Vec<char>>)
    ensures
        pieces@.len() == split_on(s@, sep).len(),
        forall|k: int| 0 <= k < pieces@.len() ==> #[trigger] pieces@[k]@ == split_on(s@, sep)[k],
{
    let mut done: Vec<Vec<char>> = Vec::new();
    let mut cur: Vec<char> = Vec::new();
    let ghost mut model: Seq<Seq<char>> = Seq::empty();
    let mut i: usize = 0;
    assert(s@.take(0) =~= Seq::<char>::empty());
    assert(model.push(cur@) =~= split_on(s@.take(0), sep));
    while i < s.len()
        invariant
            i <= s@.len(),
            done@.len() == model.len(),
            forall|k: int| 0 <= k < done@.len() ==> #[trigger] done@[k]@ == model[k],
            model.push(cur@) == split_on(s@.take(i as int), sep),
        decreases s.len() - i,
    {
        let c = s[i];
        let ghost before = model.push(cur@);
        assert(s@.take(i + 1).drop_last() =~= s@.take(i as int));
        assert(s@.take(i + 1).last() == c);
        if c == sep {
            let finished = cur;
            proof {
                model = model.push(finished@);
            }
            done.push(finished);
            cur = Vec::new();
            assert(model.push(cur@) =~= before.push(Seq::<char>::empty()));
        } else {
            cur.push(c);
            assert(model.push(cur@) =~= before.update(before.len() - 1, before.last().push(c)));
        }
        i = i + 1;
    }
    assert(s@.take(s@.len() as int) =~= s@);
    proof {
        model = model.push(cur@);
    }
    done.push(cur);
    done
}

/// The decimal digit character for `d` (for `d < 10`).
pub open spec fn digit_char(d: int) -> char {
    if d == 0 {
        '0'
    } else if d == 1 {
        '1'
    } else if d == 2 {
        '2'
    } else if d == 3 {
        '3'
    } else if d == 4 {
        '4'
    } else if d == 5 {
        '5'
    } else if d == 6 {
        '6'
    } else if d == 7 {
        '7'
    } else if d == 8 {
        '8'
    } else {
        '9'
    }
}

/// The decimal numeral of `n`, without leading zeros (what `format!("{}", n)` writes).
pub open spec fn decimal(n: nat) -> Seq<char>
    decreases n,
{
    if n < 10 {
        seq![digit_char(n as int)]
    } else {
        decimal(n / 10).push(digit_char((n % 10) as int))
    }
}

/// The one-character string for the digit `d`.
fn digit_str(d: u32) -> (s: &'static str)
    requires
        d < 10,
    ensures
        s@ == seq![digit_char(d as int)],
{
    proof {
        reveal_strlit("0");
        reveal_strlit("1");
        reveal_strlit("2");
        reveal_strlit("3");
        reveal_strlit("4");
        reveal_strlit("5");
        reveal_strlit("6");
        reveal_strlit("7");
        reveal_strlit("8");
        reveal_strlit("9");
    }
    let s = if d == 0 {
        "0"
    } else if d == 1 {
        "1"
    } else if d == 2 {
        "2"
    } else if d == 3 {
        "3"
    } else if d == 4 {
        "4"
    } else if d == 5 {
        "5"
    } else if d == 6 {
        "6"
    } else if d == 7 {
        "7"
    } else if d == 8 {
        "8"
    } else {
        "9"
    };
    assert(s@ =~= seq![digit_char(d as int)]);
    s
}

/// Appends the decimal numeral of `n` to `out`.
pub fn push_decimal(out: &mut String, n: u64)
    ensures
        final(out)@ == old(out)@ + decimal(n as nat),
    decreases n,
{
    if n >= 10 {
        push_decimal(out, n / 10);
    }
    let d = digit_str((n % 10) as u32);
    out.append(d);
    proof {
        if n >= 10 {
            assert(decimal(n as nat) == decimal((n / 10) as nat).push(digit_char((n % 10) as int)));
        }
    }
    assert(out@ =~= old(out)@ + decimal(n as nat));
}

proof fn lemma_trim_end_step(s: Seq<char>, start: int, end: int)
    requires
        0 <= start < end <= s.len(),
        white_space(s[end - 1]),
    ensures
        trim_end(s.subrange(start, end)) == trim_end(s.subrange(start, end - 1)),
{
    assert(s.subrange(start, end).drop_last() =~= s.subrange(start, end - 1));
}

/// `line` without surrounding whitespace, or `None` when nothing else is left.
pub fn trimmed_line(line: &str) -> (r: Option<String>)
    ensures
        r matches Some(t) ==> t@ == trim(line@) && t@.len() > 0,
        r is None <==> trim(line@).len() == 0,
{
    let s = char_vec(line);
    let mut start: usize = 0;
    assert(s@.skip(0) =~= s@);
    while start < s.len() && is_white_space(s[start])
        invariant
            s@ == line@,
            start <= s@.len(),
            trim_start(s@) == trim_start(s@.skip(start as int)),
        decreases s.len() - start,
    {
        proof {
            lemma_trim_start_step(s@, start as int);
        }
        start = start + 1;
    }
    assert(trim_start(s@.skip(start as int)) == s@.skip(start as int));
    assert(s@.skip(start as int) =~= s@.subrange(start as int, s@.len() as int));
    let mut end: usize = s.len();
    while end > start && is_white_space(s[end - 1])
        invariant
            s@ == line@,
            start <= end <= s@.len(),
            trim(s@) == trim_end(s@.subrange(start as int, end as int)),
        decreases end,
    {
        proof {
            lemma_trim_end_step(s@, start as int, end as int);
        }
        end = end - 1;
    }
    assert(trim_end(s@.subrange(start as int, end as int)) == s@.subrange(start as int, end as int));
    if start == end {
        return None;
    }
    let piece = line.substring_char(start, end);
    Some(String::from_str(piece))
}

} // verus!
