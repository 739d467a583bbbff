//! Model names as identifiers.

use vstd::prelude::*;

use crate::text;

verus! {

/// Whether a character is an ASCII letter or digit.
pub open spec fn is_word(c: char) -> bool {
    ('a' <= c && c <= 'z') || ('A' <= c && c <= 'Z') || ('0' <= c && c <= '9')
}

/// A name's letters and digits in lower case, with one underscore for every
/// run of other characters that follows some.
pub open spec fn joined(name: Seq<char>) -> Seq<char>
    decreases name.len(),
{
    if name.len() == 0 {
        Seq::empty()
    } else {
        let head = joined(name.drop_last());
        let c = name.last();
        if is_word(c) {
            head.push(text::lower(c))
        } else if head.len() > 0 && head.last() != '_' {
            head.push('_')
        } else {
            head
        }
    }
}

/// A text without the underscores at its end.
pub open spec fn trimmed(s: Seq<char>) -> Seq<char>
    decreases s.len(),
{
    if s.len() > 0 && s.last() == '_' {
        trimmed(s.drop_last())
    } else {
        s
    }
}

/// Lower-case `[a-z0-9]` runs joined by `_`.
pub open spec fn slug_of(name: Seq<char>) -> Seq<char> {
    trimmed(joined(name))
}

/// Lower-case `[a-z0-9]` runs joined by `_`: the form the fixed buckets use
/// for their model (`"opus"`, `"sonnet"`), so `"Fable"` lands as `"fable"`.
pub fn model_slug(display_name: &str) -> (r: String)
    ensures
        r@ == slug_of(display_name@),
{
    let name = text::chars_of(display_name);
    let mut slug: Vec<char> = Vec::new();
    let mut i: usize = 0;
    assert(name@.take(0) =~= Seq::empty());
    while i < name.len()
        invariant
            i <= name@.len(),
            name@ == display_name@,
            slug@ == joined(name@.take(i as int)),
        decreases name@.len() - i,
    {
        let c = name[i];
        proof {
            assert(name@.take(i + 1).drop_last() =~= name@.take(i as int));
            assert(name@.take(i + 1).last() == c);
        }
        if ('a' <= c && c <= 'z') || ('A' <= c && c <= 'Z') || ('0' <= c && c <= '9') {
            slug.push(text::to_lower(c));
        } else if slug.len() > 0 && slug[slug.len() - 1] != '_' {
            slug.push('_');
        }
        i += 1;
    }
    assert(name@.take(i as int) =~= name@);
    while slug.len() > 0 && slug[slug.len() - 1] == '_'
        invariant
            trimmed(slug@) == slug_of(display_name@),
        decreases slug@.len(),
    {
        let _last = slug.pop();
    }
    text::string_of(slug.as_slice())
}

/// Whether a text is a slug: lower-case letters and digits, with single
/// underscores between them.
pub open spec fn is_slug(s: Seq<char>) -> bool {
    &&& forall|i: int|
        0 <= i < s.len() ==> (#[trigger] s[i] == '_' || is_word(s[i]) && text::lower(s[i]) == s[i])
    &&& forall|i: int| 0 < i < s.len() && #[trigger] s[i] == '_' ==> s[i - 1] != '_'
    &&& s.len() > 0 ==> s[0] != '_' && s.last() != '_'
}

/// A text that is a slug but for an underscore at its end.
spec fn is_stem(s: Seq<char>) -> bool {
    &&& forall|i: int|
        0 <= i < s.len() ==> (#[trigger] s[i] == '_' || is_word(s[i]) && text::lower(s[i]) == s[i])
    &&& forall|i: int| 0 < i < s.len() && #[trigger] s[i] == '_' ==> s[i - 1] != '_'
    &&& s.len() > 0 ==> s[0] != '_'
}

proof fn joined_is_a_stem(name: Seq<char>)
    ensures
        is_stem(joined(name)),
    decreases name.len(),
{
    if name.len() > 0 {
        joined_is_a_stem(name.drop_last());
    }
}

/// Whatever the name, its slug is made of lower-case letters and digits with
/// single underscores between them.
pub proof fn slugs_are_slugs(name: Seq<char>)
    ensures
        is_slug(slug_of(name)),
{
    joined_is_a_stem(name);
    let s = joined(name);
    if s.len() > 0 && s.last() == '_' {
        assert(s[s.len() - 1] == '_');
        let t = s.drop_last();
        assert(t.last() != '_');
        assert(trimmed(t) == t);
        assert(trimmed(s) == trimmed(t));
        assert forall|i: int| 0 < i < t.len() && #[trigger] t[i] == '_' implies t[i - 1]
            != '_' by {
            assert(s[i] == '_');
        }
    }
}

/// A slug is its own slug, so deriving one twice changes nothing.
pub proof fn slugging_is_idempotent(name: Seq<char>)
    ensures
        slug_of(slug_of(name)) == slug_of(name),
{
    slugs_are_slugs(name);
    joined_keeps_slugs(slug_of(name), slug_of(name).len() as int);
    assert(slug_of(name).take(slug_of(name).len() as int) =~= slug_of(name));
}

proof fn joined_keeps_slugs(s: Seq<char>, n: int)
    requires
        is_slug(s),
        0 <= n <= s.len(),
    ensures
        joined(s.take(n)) == s.take(n),
    decreases n,
{
    if n > 0 {
        joined_keeps_slugs(s, n - 1);
        let head = s.take(n - 1);
        assert(s.take(n).drop_last() =~= head);
        let c = s[n - 1];
        assert(s.take(n).last() == c);
        if c == '_' {
            assert(n - 1 > 0);
            assert(s[n - 2] != '_');
            assert(head.last() == s[n - 2]);
        }
        assert(joined(s.take(n)) =~= s.take(n));
    } else {
        assert(s.take(0) =~= Seq::empty());
    }
}

/// How a slug grows with its name, one character at a time: a letter or digit
/// joins it in lower case, after an underscore where something else stood
/// between it and the letters and digits before; anything else does not change
/// it. Nothing has no slug.
pub proof fn a_slug_grows_with_its_name(name: Seq<char>, c: char)
    ensures
        slug_of(Seq::empty()) == Seq::<char>::empty(),
        'a' <= c <= 'z' || '0' <= c <= '9' || 'A' <= c <= 'Z' ==> ({
            let small = if 'A' <= c && c <= 'Z' {
                (c as int + 32) as char
            } else {
                c
            };
            let last = name.last();
            let apart = slug_of(name).len() > 0 && !('a' <= last <= 'z' || '0' <= last <= '9' || 'A'
                <= last <= 'Z');
            slug_of(name.push(c)) == if apart {
                slug_of(name).push('_').push(small)
            } else {
                slug_of(name).push(small)
            }
        }),
        !('a' <= c <= 'z' || '0' <= c <= '9' || 'A' <= c <= 'Z') ==> slug_of(name.push(c))
            == slug_of(name),
{
    let head = joined(name);
    let all = joined(name.push(c));
    assert(name.push(c).drop_last() =~= name);
    joined_is_a_stem(name);
    stems_end_as_names_do(name);
    if is_word(c) {
        assert(all == head.push(text::lower(c)));
        assert(all.last() != '_');
        assert(trimmed(all) == all);
        if head.len() > 0 && head.last() == '_' {
            let t = head.drop_last();
            assert(head[head.len() - 1] == '_');
            assert(t.len() > 0 && t.last() != '_');
            assert(trimmed(t) == t);
            assert(trimmed(head) == t);
            assert(all =~= t.push('_').push(text::lower(c)));
        } else {
            assert(trimmed(head) == head);
        }
    } else if head.len() > 0 && head.last() != '_' {
        assert(all.drop_last() =~= head);
    }
}

proof fn stems_end_as_names_do(name: Seq<char>)
    ensures
        joined(name).len() > 0 ==> (joined(name).last() == '_' <==> !is_word(name.last())),
        joined(name).len() > 0 ==> name.len() > 0 && trimmed(joined(name)).len() > 0,
    decreases name.len(),
{
    if name.len() > 0 {
        stems_end_as_names_do(name.drop_last());
        joined_is_a_stem(name);
        let s = joined(name);
        if s.len() > 0 && s.last() == '_' {
            let t = s.drop_last();
            assert(s[s.len() - 1] == '_');
            assert(s[0] != '_');
            assert(t.len() > 0);
            assert(t.last() == s[s.len() - 2]);
            assert(trimmed(t) == t);
        }
    }
}

} // verus!
