use vstd::prelude::*;
use vstd::utf8::is_ascii_chars;

verus! {

/// The uppercase mapping of a character, as the standard library computes it
/// with `char::to_uppercase` (the Unicode uppercase mapping, one or more characters).
pub uninterp spec fn uppercase_mapping(c: char) -> Seq<char>;

/// The uppercase mapping of `c` as a string (`char::to_uppercase`, written out
/// through its `Display` impl).
///
/// Trusted: the standard library documents that `to_uppercase` yields one or more
/// characters, that a character without an uppercase mapping yields itself, and the
/// Unicode tables give the ASCII letters `a`..`z` the uppercase letters `A`..`Z`.
/// Nothing is claimed of non-ASCII characters beyond the name `uppercase_mapping`.
#[verifier::external_body]
fn uppercase_of(c: char) -> (res: String)
    ensures
        res@ == uppercase_mapping(c),
        res@.len() >= 1,
        ('a' <= c && c <= 'z') ==> res@ == seq![((c as u32) - 32) as char],
        (c <= '\u{7f}' && !('a' <= c && c <= 'z')) ==> res@ == seq![c],
{
    format!("{}", c.to_uppercase())
}

/// Appends one character to `out` (`String::push`).
#[verifier::external_body]
fn push_char(out: &mut String, c: char)
    ensures
        final(out)@ == old(out)@.push(c),
{
    out.push(c);
}

/// PascalCase rendering of `s`, reading it from left to right: underscores are
/// dropped, the first character of every underscore-separated word is replaced
/// by its uppercase mapping, and every other character is kept.
/// `at_word_start` says whether the next non-underscore character begins a word.
pub open spec fn pascal_from(s: Seq<char>, at_word_start: bool) -> Seq<char>
    decreases s.len(),
{
    if s.len() == 0 {
        seq![]
    } else if s[0] == '_' {
        pascal_from(s.drop_first(), true)
    } else if at_word_start {
        uppercase_mapping(s[0]) + pascal_from(s.drop_first(), false)
    } else {
        seq![s[0]] + pascal_from(s.drop_first(), false)
    }
}

/// The PascalCase form of a snake_case identifier.
pub open spec fn pascal_case(s: Seq<char>) -> Seq<char> {
    pascal_from(s, true)
}

/// The ASCII uppercase of a character: `a`..`z` become `A`..`Z`, every other
/// character is unchanged.
pub open spec fn ascii_uppercase(c: char) -> char {
    if 'a' <= c && c <= 'z' {
        ((c as u32) - 32) as char
    } else {
        c
    }
}

/// `pascal_from` for ASCII text, where the uppercase mapping is the ASCII one.
pub open spec fn ascii_pascal_from(s: Seq<char>, at_word_start: bool) -> Seq<char>
    decreases s.len(),
{
    if s.len() == 0 {
        seq![]
    } else if s[0] == '_' {
        ascii_pascal_from(s.drop_first(), true)
    } else if at_word_start {
        seq![ascii_uppercase(s[0])] + ascii_pascal_from(s.drop_first(), false)
    } else {
        seq![s[0]] + ascii_pascal_from(s.drop_first(), false)
    }
}

/// The PascalCase form of an ASCII snake_case identifier.
pub open spec fn ascii_pascal_case(s: Seq<char>) -> Seq<char> {
    ascii_pascal_from(s, true)
}

/// Converts a snake_case name into PascalCase: the name is split at every `_`,
/// empty pieces are skipped, and each piece is emitted with its first character
/// uppercased.
pub fn to_pascal(s: &str) -> (res: String)
    ensures
        res@ == pascal_case(s@),
        is_ascii_chars(s@) ==> res@ == ascii_pascal_case(s@),
        res@.len() >= non_underscore_count(s@),
        res@.len() == 0 <==> non_underscore_count(s@) == 0,
{
    let mut out = String::new();
    let mut at_word_start = true;
    let ghost full = s@;
    broadcast use vstd::string::axiom_spec_iter;
    assert(full.skip(0) =~= full);
    assert(out@ + pascal_from(full, true) =~= pascal_case(full));
    assert(out@ + ascii_pascal_from(full, true) =~= ascii_pascal_case(full));
    for c in it: s.chars()
        invariant
            it.seq() == full,
            out@ + pascal_from(full.skip(it.index() as int), at_word_start) == pascal_case(full),
            is_ascii_chars(full) ==> out@ + ascii_pascal_from(full.skip(it.index() as int), at_word_start)
                == ascii_pascal_case(full),
            out@.len() + non_underscore_count(full.skip(it.index() as int)) >= non_underscore_count(full),
    {
        let ghost i = it.index();
        assert(full.skip(i as int).drop_first() =~= full.skip(i + 1));
        if c == '_' {
            at_word_start = true;
        } else if at_word_start {
            let upper = uppercase_of(c);
            out.append(upper.as_str());
            at_word_start = false;
            assert(out@ + pascal_from(full.skip(i + 1), at_word_start) =~= pascal_case(full));
            proof {
                if is_ascii_chars(full) {
                    assert(full[i as int] <= '\u{7f}');
                    assert(out@ + ascii_pascal_from(full.skip(i + 1), at_word_start)
                        =~= ascii_pascal_case(full));
                }
            }
        } else {
            push_char(&mut out, c);
            assert(out@ + pascal_from(full.skip(i + 1), at_word_start) =~= pascal_case(full));
            assert(is_ascii_chars(full) ==> out@ + ascii_pascal_from(full.skip(i + 1), at_word_start)
                =~= ascii_pascal_case(full));
        }
    }
    assert(full.skip(full.len() as int) =~= Seq::<char>::empty());
    proof {
        lemma_pascal_from_empty_without_words(full, true);
    }
    out
}

/// The number of characters of `s` that are not `_`.
pub open spec fn non_underscore_count(s: Seq<char>) -> nat
    decreases s.len(),
{
    if s.len() == 0 {
        0
    } else if s[0] == '_' {
        non_underscore_count(s.drop_first())
    } else {
        1 + non_underscore_count(s.drop_first())
    }
}

/// Text without any character other than `_` has an empty PascalCase form.
proof fn lemma_pascal_from_empty_without_words(s: Seq<char>, at_word_start: bool)
    ensures
        non_underscore_count(s) == 0 ==> pascal_from(s, at_word_start).len() == 0,
    decreases s.len(),
{
    if s.len() > 0 {
        lemma_pascal_from_empty_without_words(s.drop_first(), true);
    }
}

/// An underscore separates words completely: the PascalCase form of
/// `left ++ "_" ++ right` is the PascalCase form of `left` followed by that of
/// `right`. In particular leading, trailing and repeated underscores change nothing.
pub proof fn lemma_pascal_case_splits_at_underscore(left: Seq<char>, right: Seq<char>)
    ensures
        pascal_case(left + seq!['_'] + right) == pascal_case(left) + pascal_case(right),
{
    lemma_pascal_from_splits_at_underscore(left, right, true);
}

proof fn lemma_pascal_from_splits_at_underscore(left: Seq<char>, right: Seq<char>, at_word_start: bool)
    ensures
        pascal_from(left + seq!['_'] + right, at_word_start)
            == pascal_from(left, at_word_start) + pascal_from(right, true),
    decreases left.len(),
{
    let whole = left + seq!['_'] + right;
    if left.len() == 0 {
        assert(whole.drop_first() =~= right);
        assert(pascal_from(left, at_word_start) =~= Seq::<char>::empty());
        assert(pascal_from(whole, at_word_start) =~= pascal_from(left, at_word_start) + pascal_from(right, true));
    } else {
        assert(whole.drop_first() =~= left.drop_first() + seq!['_'] + right);
        assert(whole[0] == left[0]);
        if left[0] == '_' {
            lemma_pascal_from_splits_at_underscore(left.drop_first(), right, true);
        } else {
            lemma_pascal_from_splits_at_underscore(left.drop_first(), right, false);
            assert(pascal_from(whole, at_word_start) =~= pascal_from(left, at_word_start) + pascal_from(right, true));
        }
    }
}

/// On ASCII input the PascalCase form holds no underscore, is ASCII again, and
/// has exactly one character for every character of the input that is not `_`.
pub proof fn lemma_ascii_pascal_case_shape(s: Seq<char>)
    requires
        is_ascii_chars(s),
    ensures
        !ascii_pascal_case(s).contains('_'),
        is_ascii_chars(ascii_pascal_case(s)),
        ascii_pascal_case(s).len() == non_underscore_count(s),
{
    lemma_ascii_pascal_from_shape(s, true);
}

proof fn lemma_ascii_pascal_from_shape(s: Seq<char>, at_word_start: bool)
    requires
        is_ascii_chars(s),
    ensures
        !ascii_pascal_from(s, at_word_start).contains('_'),
        is_ascii_chars(ascii_pascal_from(s, at_word_start)),
        ascii_pascal_from(s, at_word_start).len() == non_underscore_count(s),
    decreases s.len(),
{
    if s.len() > 0 {
        let rest = s.drop_first();
        assert(is_ascii_chars(rest)) by {
            assert forall|i: int| 0 <= i < rest.len() implies '\0' <= #[trigger] rest[i] <= '\u{7f}' by {
                assert(rest[i] == s[i + 1]);
            }
        }
        assert(s[0] <= '\u{7f}');
        let next = s[0] == '_';
        lemma_ascii_pascal_from_shape(rest, next);
        let t = ascii_pascal_from(s, at_word_start);
        let tail = ascii_pascal_from(rest, next);
        if s[0] != '_' {
            let head = if at_word_start { ascii_uppercase(s[0]) } else { s[0] };
            assert(t =~= seq![head] + tail);
            assert(head != '_');
            assert(head <= '\u{7f}');
            assert forall|i: int| 0 <= i < t.len() implies '\0' <= #[trigger] t[i] <= '\u{7f}' by {
                if i > 0 {
                    assert(t[i] == tail[i - 1]);
                }
            }
            if t.contains('_') {
                let k = choose|k: int| 0 <= k < t.len() && t[k] == '_';
                assert(k > 0);
                assert(tail[k - 1] == '_');
                assert(tail.contains('_'));
            }
        }
    }
}

/// PascalCase is idempotent on ASCII names: converting an already converted
/// name gives it back unchanged.
pub proof fn lemma_ascii_pascal_case_idempotent(s: Seq<char>)
    requires
        is_ascii_chars(s),
    ensures
        ascii_pascal_case(ascii_pascal_case(s)) == ascii_pascal_case(s),
{
    let t = ascii_pascal_case(s);
    lemma_ascii_pascal_from_shape(s, true);
    lemma_ascii_pascal_from_starts_upper(s);
    if t.len() > 0 {
        assert(t[0] != '_') by {
            assert(t.contains(t[0]));
        }
        let rest = t.drop_first();
        assert(!rest.contains('_')) by {
            if rest.contains('_') {
                let k = choose|k: int| 0 <= k < rest.len() && rest[k] == '_';
                assert(t[k + 1] == '_');
                assert(t.contains('_'));
            }
        }
        lemma_ascii_pascal_from_keeps_word(rest);
        assert(ascii_pascal_from(t, true) =~= seq![ascii_uppercase(t[0])] + rest);
        assert(t =~= seq![t[0]] + rest);
    } else {
        assert(ascii_pascal_from(t, true) =~= t);
    }
}

/// Away from the start of a word, text without underscores is kept as it is.
proof fn lemma_ascii_pascal_from_keeps_word(s: Seq<char>)
    requires
        !s.contains('_'),
    ensures
        ascii_pascal_from(s, false) == s,
    decreases s.len(),
{
    if s.len() > 0 {
        let rest = s.drop_first();
        assert(s.contains(s[0]));
        assert(!rest.contains('_')) by {
            if rest.contains('_') {
                let k = choose|k: int| 0 <= k < rest.len() && rest[k] == '_';
                assert(s[k + 1] == '_');
                assert(s.contains('_'));
            }
        }
        lemma_ascii_pascal_from_keeps_word(rest);
        assert(ascii_pascal_from(s, false) =~= seq![s[0]] + rest);
        assert(s =~= seq![s[0]] + rest);
    }
}

/// The first character of an ASCII PascalCase form is already uppercase.
proof fn lemma_ascii_pascal_from_starts_upper(s: Seq<char>)
    requires
        is_ascii_chars(s),
    ensures
        ascii_pascal_case(s).len() > 0 ==> ascii_uppercase(ascii_pascal_case(s)[0]) == ascii_pascal_case(s)[0],
    decreases s.len(),
{
    if s.len() > 0 {
        let rest = s.drop_first();
        assert(is_ascii_chars(rest)) by {
            assert forall|i: int| 0 <= i < rest.len() implies '\0' <= #[trigger] rest[i] <= '\u{7f}' by {
                assert(rest[i] == s[i + 1]);
            }
        }
        if s[0] == '_' {
            lemma_ascii_pascal_from_starts_upper(rest);
        } else {
            assert(s[0] <= '\u{7f}');
            assert(ascii_pascal_case(s)[0] == ascii_uppercase(s[0]));
        }
    }
}

/// The ASCII form splits at an underscore as well: the form of `left_right` is
/// the form of `left` followed by the form of `right`.
pub proof fn lemma_ascii_pascal_case_splits_at_underscore(left: Seq<char>, right: Seq<char>)
    ensures
        ascii_pascal_case(left + seq!['_'] + right) == ascii_pascal_case(left) + ascii_pascal_case(right),
{
    lemma_ascii_pascal_from_splits_at_underscore(left, right, true);
}

proof fn lemma_ascii_pascal_from_splits_at_underscore(left: Seq<char>, right: Seq<char>, at_word_start: bool)
    ensures
        ascii_pascal_from(left + seq!['_'] + right, at_word_start)
            == ascii_pascal_from(left, at_word_start) + ascii_pascal_from(right, true),
    decreases left.len(),
{
    let whole = left + seq!['_'] + right;
    if left.len() == 0 {
        assert(whole.drop_first() =~= right);
        assert(ascii_pascal_from(left, at_word_start) =~= Seq::<char>::empty());
        assert(ascii_pascal_from(whole, at_word_start) =~= ascii_pascal_from(left, at_word_start)
            + ascii_pascal_from(right, true));
    } else {
        assert(whole.drop_first() =~= left.drop_first() + seq!['_'] + right);
        assert(whole[0] == left[0]);
        if left[0] == '_' {
            lemma_ascii_pascal_from_splits_at_underscore(left.drop_first(), right, true);
        } else {
            lemma_ascii_pascal_from_splits_at_underscore(left.drop_first(), right, false);
            assert(ascii_pascal_from(whole, at_word_start) =~= ascii_pascal_from(left, at_word_start)
                + ascii_pascal_from(right, true));
        }
    }
}

/// A single ASCII word (no underscore) keeps every character but its first, and
/// its first character becomes the uppercase letter when it is one of `a`..`z`
/// and stays as it is otherwise.
pub proof fn lemma_ascii_pascal_case_of_word(s: Seq<char>)
    requires
        s.len() > 0,
        !s.contains('_'),
    ensures
        ascii_pascal_case(s) == seq![
            if 'a' <= s[0] && s[0] <= 'z' { ((s[0] as u32) - 32) as char } else { s[0] }
        ] + s.drop_first(),
        ascii_pascal_case(s).len() == s.len(),
        !('a' <= ascii_pascal_case(s)[0] && ascii_pascal_case(s)[0] <= 'z'),
{
    let rest = s.drop_first();
    assert(s.contains(s[0]));
    assert(!rest.contains('_')) by {
        if rest.contains('_') {
            let k = choose|k: int| 0 <= k < rest.len() && rest[k] == '_';
            assert(s[k + 1] == '_');
            assert(s.contains('_'));
        }
    }
    lemma_ascii_pascal_from_keeps_word(rest);
    assert(ascii_pascal_case(s) =~= seq![ascii_uppercase(s[0])] + rest);
}

} // verus!