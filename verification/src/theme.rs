//! Telling the desktop's appearance from what the system says of it.

use vstd::prelude::*;

verus! {

/// Whether a character is white space: the code points that carry Unicode's
/// property `White_Space`. These are the tab, the line feed, the vertical
/// tab, the form feed and the carriage return, the space, the next line, the
/// no-break space, the Ogham space mark, the spaces from the en quad to the
/// hair space, the line and the paragraph separator, the narrow no-break
/// space, the medium mathematical space and the ideographic space.
pub open spec fn is_whitespace(c: char) -> bool {
    let code = c as u32;
    ||| 0x0009 <= code <= 0x000d
    ||| code == 0x0020
    ||| code == 0x0085
    ||| code == 0x00a0
    ||| code == 0x1680
    ||| 0x2000 <= code <= 0x200a
    ||| code == 0x2028
    ||| code == 0x2029
    ||| code == 0x202f
    ||| code == 0x205f
    ||| code == 0x3000
}

/// Whether a character is white space.
pub fn char_is_whitespace(c: char) -> (r: bool)
    ensures
        r == is_whitespace(c),
{
    let code: u32 = c as u32;
    if code < 0x0080 {
        (0x0009 <= code && code <= 0x000d) || code == 0x0020
    } else if code < 0x2000 {
        code == 0x0085 || code == 0x00a0 || code == 0x1680
    } else if code <= 0x200a {
        true
    } else {
        code == 0x2028 || code == 0x2029 || code == 0x202f || code == 0x205f || code == 0x3000
    }
}

/// How many characters of white space a text begins with.
pub open spec fn leading_whitespace(s: Seq<char>) -> nat
    decreases s.len(),
{
    if s.len() > 0 && is_whitespace(s[0]) {
        1 + leading_whitespace(s.drop_first())
    } else {
        0
    }
}

/// How many characters of white space a text ends with.
pub open spec fn trailing_whitespace(s: Seq<char>) -> nat
    decreases s.len(),
{
    if s.len() > 0 && is_whitespace(s.last()) {
        1 + trailing_whitespace(s.drop_last())
    } else {
        0
    }
}

/// A text without the white space at its two ends.
pub open spec fn trimmed(s: Seq<char>) -> Seq<char> {
    if leading_whitespace(s) >= s.len() {
        Seq::<char>::empty()
    } else {
        s.subrange(leading_whitespace(s) as int, s.len() - trailing_whitespace(s))
    }
}

/// Whether a text is white space throughout.
pub open spec fn all_whitespace(s: Seq<char>) -> bool {
    forall|i: int| 0 <= i < s.len() ==> is_whitespace(#[trigger] s[i])
}

/// White space in front of a text is counted in full before the text's own.
proof fn lemma_leading_of_padded(before: Seq<char>, rest: Seq<char>)
    requires
        all_whitespace(before),
    ensures
        leading_whitespace(before + rest) == before.len() + leading_whitespace(rest),
    decreases before.len(),
{
    if before.len() == 0 {
        assert(before + rest =~= rest);
    } else {
        assert(is_whitespace(before[0]));
        assert((before + rest).drop_first() =~= before.drop_first() + rest);
        lemma_leading_of_padded(before.drop_first(), rest);
    }
}

/// White space behind a text is counted in full before the text's own.
proof fn lemma_trailing_of_padded(rest: Seq<char>, after: Seq<char>)
    requires
        all_whitespace(after),
    ensures
        trailing_whitespace(rest + after) == after.len() + trailing_whitespace(rest),
    decreases after.len(),
{
    if after.len() == 0 {
        assert(rest + after =~= rest);
    } else {
        assert(is_whitespace(after.last()));
        assert((rest + after).drop_last() =~= rest + after.drop_last());
        lemma_trailing_of_padded(rest, after.drop_last());
    }
}

/// Trimming takes away exactly the white space at the two ends: a word that
/// neither begins nor ends with white space comes back as it is, whatever
/// white space stands before and behind it.
pub proof fn law_trimmed_of_padded(before: Seq<char>, word: Seq<char>, after: Seq<char>)
    requires
        all_whitespace(before),
        all_whitespace(after),
        word.len() > 0 ==> !is_whitespace(word.first()) && !is_whitespace(word.last()),
    ensures
        trimmed(before + word + after) == word,
{
    let s = before + word + after;
    assert(s =~= before + (word + after));
    lemma_leading_of_padded(before, word + after);
    lemma_trailing_of_padded(before + word, after);
    if word.len() == 0 {
        assert(word + after =~= after);
        assert(after + Seq::<char>::empty() =~= after);
        lemma_leading_of_padded(after, Seq::<char>::empty());
        assert(trimmed(s) =~= word);
    } else {
        assert((word + after)[0] == word.first());
        assert((before + word).last() == word.last());
        assert(trimmed(s) =~= word);
    }
}

/// The characters of a string, one by one.
pub fn chars_of(s: &str) -> (r: Vec<char>)
    ensures
        r@ == s@,
{
    let mut out: Vec<char> = Vec::new();
    for c in it: s.chars()
        invariant
            it.seq() == s@,
            out@ == it.seq().take(it.index() as int),
    {
        out.push(c);
    }
    out
}

/// Where the trimmed text lies in `s`: from the first index to before the
/// second.
pub fn trim_bounds(s: &Vec<char>) -> (r: (usize, usize))
    ensures
        r.0 <= r.1 <= s@.len(),
        s@.subrange(r.0 as int, r.1 as int) == trimmed(s@),
        r.0 == leading_whitespace(s@),
        r.0 < s@.len() ==> r.1 == s@.len() - trailing_whitespace(s@),
{
    let n: usize = s.len();
    let mut start: usize = 0;
    assert(s@.skip(0) =~= s@);
    while start < n && char_is_whitespace(s[start])
        invariant
            n == s@.len(),
            start <= n,
            leading_whitespace(s@) == start + leading_whitespace(s@.skip(start as int)),
        decreases n - start,
    {
        assert(s@.skip(start as int).drop_first() =~= s@.skip(start + 1));
        start = start + 1;
    }
    if start == n {
        return (n, n);
    }
    let mut end: usize = n;
    while char_is_whitespace(s[end - 1])
        invariant
            n == s@.len(),
            start < end <= n,
            !is_whitespace(s@[start as int]),
            trailing_whitespace(s@) == (n - end) + trailing_whitespace(s@.take(end as int)),
        decreases end,
    {
        assert(s@.take(end as int).drop_last() =~= s@.take(end - 1));
        end = end - 1;
    }
    (start, end)
}

/// Whether `s`, without the white space at its two ends, is `word`.
pub fn trimmed_equals(s: &str, word: &str) -> (r: bool)
    ensures
        r == (trimmed(s@) =~= word@),
{
    let text = chars_of(s);
    let wanted = chars_of(word);
    let (start, end) = trim_bounds(&text);
    if end - start != wanted.len() {
        return false;
    }
    let mut i: usize = 0;
    while i < wanted.len()
        invariant
            start <= end <= text@.len(),
            end - start == wanted@.len(),
            i <= wanted@.len(),
            wanted@ == word@,
            text@.subrange(start as int, end as int) == trimmed(s@),
            forall|k: int| 0 <= k < i ==> text@[start + k] == wanted@[k],
        decreases wanted@.len() - i,
    {
        if text[start + i] != wanted[i] {
            return false;
        }
        i = i + 1;
    }
    assert(text@.subrange(start as int, end as int) =~= wanted@);
    true
}

/// How the system is asked for its appearance.
#[derive(Debug, PartialEq, Eq)]
pub struct AppearanceQuery {
    pub program: &'static str,
    pub args: Vec<&'static str>,
}

/// The query for the interface style: `defaults read -g AppleInterfaceStyle`.
pub fn appearance_query() -> (r: AppearanceQuery)
    ensures
        r.program@ == "defaults"@,
        r.args@.len() == 3,
        r.args@[0]@ == "read"@,
        r.args@[1]@ == "-g"@,
        r.args@[2]@ == "AppleInterfaceStyle"@,
{
    let mut args: Vec<&'static str> = Vec::new();
    args.push("read");
    args.push("-g");
    args.push("AppleInterfaceStyle");
    AppearanceQuery { program: "defaults", args }
}

/// Whether what the system printed for its interface style means dark.
pub open spec fn says_dark(style: Seq<char>) -> bool {
    trimmed(style) =~= "Dark"@
}

/// Whether the desktop is dark. Only macOS is asked: `style` is what the
/// appearance query printed, or `None` if it could not be run. Everywhere
/// else, and where the query could not be run, the desktop counts as light.
pub fn is_dark_mode(macos: bool, style: Option<&str>) -> (r: bool)
    ensures
        r == (macos && match style {
            Some(printed) => says_dark(printed@),
            None => false,
        }),
{
    if !macos {
        return false;
    }
    match style {
        Some(printed) => trimmed_equals(printed, "Dark"),
        None => false,
    }
}

} // verus!
