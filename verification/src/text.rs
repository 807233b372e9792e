//! Character-level text operations used to derive names from a project name.

use vstd::prelude::*;
use vstd::utf8::is_ascii_chars;

verus! {

/// Whether `a` and `b` hold the same text.
pub fn same_text(a: &str, b: &str) -> (res: bool)
    ensures
        res == (a@ == b@),
{
    let n = a.unicode_len();
    let m = b.unicode_len();
    if n != m {
        return false;
    }
    let mut i: usize = 0;
    while i < n
        invariant
            i <= n,
            n == a@.len(),
            m == b@.len(),
            n == m,
            forall|j: int| 0 <= j < i ==> a@[j] == b@[j],
        decreases n - i,
    {
        if a.get_char(i) != b.get_char(i) {
            return false;
        }
        i = i + 1;
    }
    assert(a@ =~= b@);
    true
}

/// `s` with every `-` replaced by `_` (the crate name Cargo derives from a
/// package name).
pub open spec fn snake(s: Seq<char>) -> Seq<char> {
    s.map_values(|c: char| if c == '-' { '_' } else { c })
}

/// Replaces every `-` of `name` by `_`.
pub fn snake_name(name: &str) -> (res: String)
    ensures
        res@ == snake(name@),
{
    let n = name.unicode_len();
    let mut res = String::new();
    let mut i: usize = 0;
    proof {
        reveal_strlit("_");
    }
    while i < n
        invariant
            i <= n,
            n == name@.len(),
            res@ == snake(name@.take(i as int)),
            "_"@ == seq!['_'],
        decreases n - i,
    {
        let c = name.get_char(i);
        if c == '-' {
            res.append("_");
        } else {
            res.append(name.substring_char(i, i + 1));
        }
        assert(name@.take(i + 1) =~= name@.take(i as int).push(c));
        assert(snake(name@.take(i + 1)) =~= snake(name@.take(i as int)).push(
            if c == '-' { '_' } else { c },
        ));
        i = i + 1;
    }
    assert(name@.take(n as int) =~= name@);
    res
}

/// The characters that separate the words of a project name.
pub open spec fn is_word_separator(c: char) -> bool {
    c == '-' || c == '_' || c == ' '
}

/// What `char::to_uppercase` yields for `c`, collected into text.
pub uninterp spec fn uppercase_of(c: char) -> Seq<char>;

/// The ASCII upper-case letter of an ASCII lower-case letter.
pub open spec fn ascii_upper(c: char) -> char {
    ((c as u32) - 32) as char
}

/// Calls `char::to_uppercase` and collects the characters it yields.
/// Its result is named `uppercase_of(c)`; for ASCII input the standard
/// library documents it as `to_ascii_uppercase`, which maps `a`..=`z` to
/// `A`..=`Z` and keeps every other ASCII character. Outside ASCII nothing
/// more is stated than the name (the Unicode case tables decide).
#[verifier::external_body]
fn char_uppercase(c: char) -> (res: String)
    ensures
        res@ == uppercase_of(c),
        'a' <= c <= 'z' ==> res@ == seq![ascii_upper(c)],
        (c as u32) < 128 && !('a' <= c <= 'z') ==> res@ == seq![c],
{
    c.to_uppercase().collect::<String>()
}

/// The tail `s` of a name turned to PascalCase, `at_word_start` telling
/// whether a word begins at its first character: every separator is
/// dropped, the first character of each word is replaced by its upper
/// case, and every other character is kept.
pub open spec fn pascal_from(s: Seq<char>, at_word_start: bool) -> Seq<char>
    decreases s.len(),
{
    if s.len() == 0 {
        seq![]
    } else if is_word_separator(s[0]) {
        pascal_from(s.drop_first(), true)
    } else if at_word_start {
        uppercase_of(s[0]) + pascal_from(s.drop_first(), false)
    } else {
        seq![s[0]] + pascal_from(s.drop_first(), false)
    }
}

/// A name in PascalCase: the words between `-`, `_` and ` ` joined, each
/// with its first character in upper case.
pub open spec fn pascal_case(s: Seq<char>) -> Seq<char> {
    pascal_from(s, true)
}

/// The upper case of an ASCII character: `a`..=`z` become `A`..=`Z`,
/// every other character stays.
pub open spec fn upper_ascii(c: char) -> char {
    if 'a' <= c <= 'z' {
        ascii_upper(c)
    } else {
        c
    }
}

/// `pascal_from` for ASCII text, where the upper case of each character is
/// known: the same rules with `upper_ascii` for the first character of a
/// word.
pub open spec fn ascii_pascal_from(s: Seq<char>, at_word_start: bool) -> Seq<char>
    decreases s.len(),
{
    if s.len() == 0 {
        seq![]
    } else if is_word_separator(s[0]) {
        ascii_pascal_from(s.drop_first(), true)
    } else if at_word_start {
        seq![upper_ascii(s[0])] + ascii_pascal_from(s.drop_first(), false)
    } else {
        seq![s[0]] + ascii_pascal_from(s.drop_first(), false)
    }
}

/// The PascalCase of an ASCII name.
pub open spec fn ascii_pascal(s: Seq<char>) -> Seq<char> {
    ascii_pascal_from(s, true)
}

/// Turns a project name such as `my-token` into the type name `MyToken`.
pub fn to_pascal(s: &str) -> (res: String)
    ensures
        res@ == pascal_case(s@),
        is_ascii_chars(s@) ==> res@ == ascii_pascal(s@),
{
    let n = s.unicode_len();
    let mut res = String::new();
    let mut at_start = true;
    let mut i: usize = 0;
    assert(s@.skip(0) =~= s@);
    while i < n
        invariant
            i <= n,
            n == s@.len(),
            res@ + pascal_from(s@.skip(i as int), at_start) == pascal_case(s@),
            is_ascii_chars(s@) ==> res@ + ascii_pascal_from(s@.skip(i as int), at_start)
                == ascii_pascal(s@),
        decreases n - i,
    {
        let c = s.get_char(i);
        let ghost rest = s@.skip(i as int);
        assert(rest[0] == c);
        assert(rest.drop_first() =~= s@.skip(i + 1));
        let ghost before = res@;
        if c == '-' || c == '_' || c == ' ' {
            at_start = true;
        } else if at_start {
            let u = char_uppercase(c);
            res.append(u.as_str());
            at_start = false;
            assert(before + pascal_from(rest, true) =~= res@ + pascal_from(
                s@.skip(i + 1),
                false,
            ));
            proof {
                if is_ascii_chars(s@) {
                    assert(s@[i as int] == c);
                    assert(u@ == seq![upper_ascii(c)]);
                    assert(before + ascii_pascal_from(rest, true) =~= res@ + ascii_pascal_from(
                        s@.skip(i + 1),
                        false,
                    ));
                }
            }
        } else {
            res.append(s.substring_char(i, i + 1));
            assert(before + pascal_from(rest, false) =~= res@ + pascal_from(
                s@.skip(i + 1),
                false,
            ));
            assert(before + ascii_pascal_from(rest, false) =~= res@ + ascii_pascal_from(
                s@.skip(i + 1),
                false,
            ));
        }
        i = i + 1;
    }
    assert(s@.skip(n as int) =~= Seq::<char>::empty());
    assert(res@ + pascal_from(Seq::<char>::empty(), at_start) =~= res@);
    assert(res@ + ascii_pascal_from(Seq::<char>::empty(), at_start) =~= res@);
    res
}

/// Renaming to the crate name keeps the length, leaves no `-`, and
/// changes no character other than `-`.
pub proof fn lemma_snake_shape(s: Seq<char>)
    ensures
        snake(s).len() == s.len(),
        !snake(s).contains('-'),
        forall|i: int| 0 <= i < s.len() && s[i] != '-' ==> snake(s)[i] == s[i],
{
}

/// Renaming to the crate name twice is renaming once.
pub proof fn lemma_snake_idempotent(s: Seq<char>)
    ensures
        snake(snake(s)) == snake(s),
{
    assert(snake(snake(s)) =~= snake(s));
}

/// A separator ends the word before it: what follows is turned to
/// PascalCase as a name of its own.
proof fn lemma_pascal_from_split(a: Seq<char>, c: char, b: Seq<char>, at_word_start: bool)
    requires
        is_word_separator(c),
    ensures
        pascal_from(a + seq![c] + b, at_word_start) == pascal_from(a, at_word_start)
            + pascal_case(b),
    decreases a.len(),
{
    let whole = a + seq![c] + b;
    if a.len() == 0 {
        assert(whole.drop_first() =~= b);
        assert(pascal_from(a, at_word_start) =~= Seq::<char>::empty());
        assert(pascal_from(a, at_word_start) + pascal_case(b) =~= pascal_case(b));
    } else {
        assert(whole.drop_first() =~= a.drop_first() + seq![c] + b);
        assert(whole[0] == a[0]);
        if is_word_separator(a[0]) {
            lemma_pascal_from_split(a.drop_first(), c, b, true);
        } else {
            lemma_pascal_from_split(a.drop_first(), c, b, false);
            if at_word_start {
                assert(uppercase_of(a[0]) + (pascal_from(a.drop_first(), false) + pascal_case(b))
                    =~= uppercase_of(a[0]) + pascal_from(a.drop_first(), false) + pascal_case(b));
            } else {
                assert(seq![a[0]] + (pascal_from(a.drop_first(), false) + pascal_case(b))
                    =~= seq![a[0]] + pascal_from(a.drop_first(), false) + pascal_case(b));
            }
        }
    }
}

/// The words of a name are turned to PascalCase each on its own: the
/// PascalCase of two names joined by a separator is the PascalCase of the
/// first followed by that of the second.
pub proof fn lemma_pascal_words(a: Seq<char>, c: char, b: Seq<char>)
    requires
        is_word_separator(c),
    ensures
        pascal_case(a + seq![c] + b) == pascal_case(a) + pascal_case(b),
{
    lemma_pascal_from_split(a, c, b, true);
}

/// Whether no character of `s` separates words.
pub open spec fn no_separator(s: Seq<char>) -> bool {
    forall|i: int| 0 <= i < s.len() ==> !is_word_separator(#[trigger] s[i])
}

/// The ASCII PascalCase of ASCII text is ASCII text without separators,
/// and a word's first character in it is already upper case.
proof fn lemma_ascii_pascal_shape(s: Seq<char>, at_word_start: bool)
    requires
        is_ascii_chars(s),
    ensures
        is_ascii_chars(ascii_pascal_from(s, at_word_start)),
        no_separator(ascii_pascal_from(s, at_word_start)),
        at_word_start && ascii_pascal_from(s, at_word_start).len() > 0 ==> upper_ascii(
            ascii_pascal_from(s, at_word_start)[0],
        ) == ascii_pascal_from(s, at_word_start)[0],
    decreases s.len(),
{
    if s.len() > 0 {
        assert(is_ascii_chars(s.drop_first()));
        assert('\0' <= s[0] <= '\u{7f}');
        if is_word_separator(s[0]) {
            lemma_ascii_pascal_shape(s.drop_first(), true);
        } else {
            lemma_ascii_pascal_shape(s.drop_first(), false);
            let first = if at_word_start { upper_ascii(s[0]) } else { s[0] };
            let rest = ascii_pascal_from(s.drop_first(), false);
            assert(ascii_pascal_from(s, at_word_start) == seq![first] + rest);
            assert(!is_word_separator(first));
            assert('\0' <= first <= '\u{7f}');
            assert(ascii_pascal_from(s, at_word_start)[0] == first);
            assert forall|i: int| 0 <= i < ascii_pascal_from(s, at_word_start).len() implies '\0'
                <= #[trigger] ascii_pascal_from(s, at_word_start)[i] <= '\u{7f}' && !is_word_separator(
                ascii_pascal_from(s, at_word_start)[i],
            ) by {
                if i > 0 {
                    assert(ascii_pascal_from(s, at_word_start)[i] == rest[i - 1]);
                }
            }
        }
    }
}

/// Inside a word, text without separators is kept as it is.
proof fn lemma_ascii_pascal_keeps(x: Seq<char>)
    requires
        no_separator(x),
    ensures
        ascii_pascal_from(x, false) == x,
    decreases x.len(),
{
    if x.len() > 0 {
        assert(!is_word_separator(x[0]));
        assert(no_separator(x.drop_first()));
        lemma_ascii_pascal_keeps(x.drop_first());
        assert(seq![x[0]] + x.drop_first() =~= x);
    }
}

/// Turning an ASCII name to PascalCase twice is turning it once, and the
/// result is ASCII again (so `to_pascal` applies to it with the same
/// contract).
pub proof fn lemma_pascal_idempotent_ascii(s: Seq<char>)
    requires
        is_ascii_chars(s),
    ensures
        is_ascii_chars(ascii_pascal(s)),
        ascii_pascal(ascii_pascal(s)) == ascii_pascal(s),
{
    let x = ascii_pascal(s);
    lemma_ascii_pascal_shape(s, true);
    if x.len() > 0 {
        assert(!is_word_separator(x[0]));
        assert(no_separator(x.drop_first()));
        lemma_ascii_pascal_keeps(x.drop_first());
        assert(ascii_pascal(x) == seq![upper_ascii(x[0])] + ascii_pascal_from(x.drop_first(), false));
        assert(seq![x[0]] + x.drop_first() =~= x);
    }
}

} // verus!
