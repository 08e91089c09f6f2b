//! Text helpers shared by the sink's modules: joining, scanning and the
//! character views of string lists.

use vstd::prelude::*;
use vstd::string::*;

verus! {

broadcast use vstd::string::group_string_axioms;

/// `String::push` of std: appends the character to the end of the string.
#[verifier::external_body]
pub(crate) fn push_char(text: &mut String, c: char)
    ensures
        final(text)@ == old(text)@.push(c),
{
    text.push(c)
}

/// The character sequences of a list of strings, in order.
pub open spec fn texts(items: Seq<String>) -> Seq<Seq<char>> {
    items.map_values(|s: String| s@)
}

/// `parts` concatenated with `sep` between each two neighbours.
pub open spec fn joined(parts: Seq<Seq<char>>, sep: Seq<char>) -> Seq<char>
    decreases parts.len(),
{
    if parts.len() == 0 {
        Seq::empty()
    } else if parts.len() == 1 {
        parts[0]
    } else {
        joined(parts.drop_last(), sep) + sep + parts.last()
    }
}

/// Joining one more part appends the separator, unless the part is the
/// first, and then the part.
pub proof fn lemma_joined_push(parts: Seq<Seq<char>>, next: Seq<char>, sep: Seq<char>)
    ensures
        joined(parts.push(next), sep) == if parts.len() == 0 {
            next
        } else {
            joined(parts, sep) + sep + next
        },
{
    let all = parts.push(next);
    assert(all.drop_last() == parts);
    assert(all.last() == next);
    if parts.len() == 0 {
        assert(all[0] == next);
    }
}

/// Every character of a part occurs in the joined text.
pub proof fn lemma_joined_contains(parts: Seq<Seq<char>>, sep: Seq<char>, i: int, c: char)
    requires
        0 <= i < parts.len(),
        parts[i].contains(c),
    ensures
        joined(parts, sep).contains(c),
    decreases parts.len(),
{
    if parts.len() > 1 {
        let head = joined(parts.drop_last(), sep) + sep;
        let whole = head + parts.last();
        if i == parts.len() - 1 {
            let k = choose|k: int| 0 <= k < parts[i].len() && parts[i][k] == c;
            assert(whole[head.len() + k] == c);
        } else {
            lemma_joined_contains(parts.drop_last(), sep, i, c);
            let front = joined(parts.drop_last(), sep);
            let k = choose|k: int| 0 <= k < front.len() && front[k] == c;
            assert(whole[k] == c);
        }
    }
}

/// Joins `parts` with `sep` between each two neighbours.
pub fn join(parts: &[String], sep: &str) -> (out: String)
    ensures
        out@ == joined(texts(parts@), sep@),
{
    let mut out = String::new();
    let mut i: usize = 0;
    while i < parts.len()
        invariant
            i <= parts.len(),
            out@ == joined(texts(parts@).take(i as int), sep@),
        decreases parts.len() - i,
    {
        if i > 0 {
            out.append(sep);
        }
        out.append(parts[i].as_str());
        proof {
            let all = texts(parts@);
            assert(all.take(i + 1) == all.take(i as int).push(parts[i as int]@));
            lemma_joined_push(all.take(i as int), parts[i as int]@, sep@);
        }
        i += 1;
    }
    proof {
        assert(texts(parts@).take(parts.len() as int) == texts(parts@));
    }
    out
}

/// Whether `s` holds a NUL character.
pub fn has_nul(s: &str) -> (found: bool)
    ensures
        found == s@.contains('\0'),
{
    let mut found = false;
    for c in it: s.chars()
        invariant
            it.seq() == s@,
            found == s@.take(it.index()).contains('\0'),
    {
        proof {
            let i = it.index();
            let before = s@.take(i);
            let after = s@.take(i + 1);
            assert(after == before.push(s@[i]));
            if before.contains('\0') {
                let j = choose|j: int| 0 <= j < before.len() && before[j] == '\0';
                assert(after[j] == '\0');
            }
            if s@[i] == '\0' {
                assert(after[i] == '\0');
            }
        }
        if c == '\0' {
            found = true;
        }
    }
    proof {
        assert(s@.take(s@.len() as int) == s@);
    }
    found
}

} // verus!
