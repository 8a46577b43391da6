use vstd::prelude::*;
use vstd::std_specs::iter::IteratorSpec;

verus! {

/// Relies on `String::push`: appends one character at the end.
#[verifier::external_body]
pub(crate) fn push_char(s: &mut String, c: char)
    ensures
        final(s)@ == old(s)@.push(c),
{
    s.push(c);
}

/// The characters of `s`, in order.
pub fn chars_of(s: &str) -> (r: Vec<char>)
    ensures
        r@ == s@,
{
    broadcast use vstd::string::group_string_axioms;
    let mut out: Vec<char> = Vec::new();
    let mut it = s.chars();
    loop
        invariant
            out@ + it.remaining() == s@,
            it.obeys_prophetic_iter_laws(),
            it.decrease() is Some,
        ensures
            out@ == s@,
        decreases it.decrease()->0,
    {
        match it.next() {
            Some(c) => {
                proof {
                    assert(out@.push(c) + it.remaining() =~= s@);
                }
                out.push(c);
            },
            None => {
                assert(out@ =~= s@);
                break;
            },
        }
    }
    out
}

/// Appends the characters `cs` to `out`.
pub fn push_chars(out: &mut String, cs: &Vec<char>)
    ensures
        final(out)@ == old(out)@ + cs@,
{
    let mut i: usize = 0;
    while i < cs.len()
        invariant
            0 <= i <= cs@.len(),
            out@ == old(out)@ + cs@.subrange(0, i as int),
        decreases cs@.len() - i,
    {
        push_char(out, cs[i]);
        i = i + 1;
        assert(cs@.subrange(0, i as int) =~= cs@.subrange(0, i - 1).push(cs@[i - 1]));
    }
    assert(cs@.subrange(0, cs@.len() as int) =~= cs@);
}

/// The string made of the characters `cs`.
pub fn string_of(cs: &Vec<char>) -> (r: String)
    ensures
        r@ == cs@,
{
    let mut r = String::new();
    push_chars(&mut r, cs);
    assert(Seq::<char>::empty() + cs@ =~= cs@);
    r
}

/// `s` with its characters in reverse order.
pub open spec fn reversed(s: Seq<char>) -> Seq<char> {
    Seq::new(s.len(), |i: int| s[s.len() - 1 - i])
}

/// The number of non-overlapping occurrences of `needle` in `hay`, found from
/// left to right; an empty needle occurs nowhere.
pub open spec fn occurrences(hay: Seq<char>, needle: Seq<char>) -> nat
    decreases hay.len(),
{
    if needle.len() == 0 || hay.len() < needle.len() {
        0
    } else if hay.take(needle.len() as int) == needle {
        1 + occurrences(hay.skip(needle.len() as int), needle)
    } else {
        occurrences(hay.skip(1), needle)
    }
}

/// Reversing twice gives back the text.
pub proof fn lemma_reversed_twice(s: Seq<char>)
    ensures
        reversed(reversed(s)) == s,
{
    assert(reversed(reversed(s)) =~= s);
}

/// There are never more occurrences than characters.
pub proof fn lemma_occurrences_bounded(hay: Seq<char>, needle: Seq<char>)
    ensures
        occurrences(hay, needle) <= hay.len(),
    decreases hay.len(),
{
    if needle.len() == 0 || hay.len() < needle.len() {
    } else if hay.take(needle.len() as int) == needle {
        lemma_occurrences_bounded(hay.skip(needle.len() as int), needle);
    } else {
        lemma_occurrences_bounded(hay.skip(1), needle);
    }
}

/// The characters of `s` in reverse order, reversed one Unicode scalar
/// value at a time.
pub fn reverse_text(s: &str) -> (r: String)
    ensures
        r@ == reversed(s@),
{
    let cs = chars_of(s);
    let mut out: Vec<char> = Vec::new();
    let mut i: usize = cs.len();
    while i > 0
        invariant
            i <= cs@.len(),
            cs@ == s@,
            out@ == reversed(cs@).subrange(0, cs@.len() - i),
        decreases i,
    {
        i = i - 1;
        out.push(cs[i]);
        assert(out@ =~= reversed(cs@).subrange(0, cs@.len() - i));
    }
    assert(out@ =~= reversed(cs@));
    string_of(&out)
}

/// Whether `needle` occurs in `hay` at position `at`.
fn occurs_at(hay: &Vec<char>, needle: &Vec<char>, at: usize) -> (r: bool)
    requires
        at + needle@.len() <= hay@.len(),
    ensures
        r == (hay@.subrange(at as int, at + needle@.len()) == needle@),
{
    let hay_len = hay.len();
    let mut j: usize = 0;
    while j < needle.len()
        invariant
            j <= needle@.len(),
            at + needle@.len() <= hay@.len(),
            hay_len == hay@.len(),
            hay@.subrange(at as int, at + j) == needle@.subrange(0, j as int),
        decreases needle@.len() - j,
    {
        if hay[at + j] != needle[j] {
            assert(hay@.subrange(at as int, at + needle@.len())[j as int] != needle@[j as int]);
            return false;
        }
        j = j + 1;
        assert(hay@.subrange(at as int, at + j) =~= needle@.subrange(0, j as int));
    }
    assert(needle@.subrange(0, j as int) =~= needle@);
    true
}

/// Counts the non-overlapping occurrences of `needle` in `hay`, case-sensitively,
/// scanning from the left.
pub fn count_occurrences(hay: &str, needle: &str) -> (r: usize)
    ensures
        r == occurrences(hay@, needle@),
{
    let h = chars_of(hay);
    let n = chars_of(needle);
    if n.len() == 0 {
        return 0;
    }
    proof {
        lemma_occurrences_bounded(h@, n@);
    }
    let mut count: usize = 0;
    let mut i: usize = 0;
    assert(h@.skip(0) =~= h@);
    while n.len() <= h.len() - i
        invariant
            i <= h@.len(),
            n@.len() > 0,
            h@ == hay@,
            n@ == needle@,
            occurrences(h@, n@) <= h@.len(),
            count + occurrences(h@.skip(i as int), n@) == occurrences(h@, n@),
        decreases h@.len() - i,
    {
        let rest = Ghost(h@.skip(i as int));
        assert(rest@.take(n@.len() as int) =~= h@.subrange(i as int, i + n@.len()));
        if occurs_at(&h, &n, i) {
            assert(rest@.skip(n@.len() as int) =~= h@.skip(i + n@.len()));
            count = count + 1;
            i = i + n.len();
        } else {
            assert(rest@.skip(1) =~= h@.skip(i + 1));
            i = i + 1;
        }
    }
    count
}

/// The greeting for `name`: `"hello "` followed by the name.
pub fn say(name: &str) -> (r: String)
    ensures
        r@ == "hello "@ + name@,
{
    let mut r = String::from_str("hello ");
    r.append(name);
    r
}

} // verus!
