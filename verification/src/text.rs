//! Sequences of characters: how texts are put together, and the one place
//! where they are joined.

use vstd::prelude::*;

verus! {

/// The characters of each string of a list.
pub open spec fn texts(parts: Seq<String>) -> Seq<Seq<char>> {
    parts.map_values(|s: String| s@)
}

/// The parts written one after another.
pub open spec fn concat_all(parts: Seq<Seq<char>>) -> Seq<char>
    decreases parts.len(),
{
    if parts.len() == 0 {
        Seq::empty()
    } else {
        concat_all(parts.drop_last()) + parts.last()
    }
}

/// The parts written one after another with `sep` between each two
/// neighbours: nothing before the first, nothing after the last.
pub open spec fn joined(parts: Seq<Seq<char>>, sep: Seq<char>) -> Seq<char>
    decreases parts.len(),
{
    if parts.len() == 0 {
        Seq::empty()
    } else if parts.len() == 1 {
        parts[0]
    } else {
        joined(parts.drop_last(), sep) + sep + parts.last()
    }
}

/// The list in which `sep` stands between each two neighbours of `parts`:
/// the parts at the even places, `sep` at the odd ones.
pub open spec fn interspersed(parts: Seq<Seq<char>>, sep: Seq<char>) -> Seq<Seq<char>> {
    Seq::new(
        if parts.len() == 0 {
            0
        } else {
            (2 * parts.len() - 1) as nat
        },
        |i: int|
            if i % 2 == 0 {
                parts[i / 2]
            } else {
                sep
            },
    )
}

/// `needle` stands in `hay` from place `at` on.
pub open spec fn occurs_at(hay: Seq<char>, needle: Seq<char>, at: int) -> bool {
    &&& 0 <= at
    &&& at + needle.len() <= hay.len()
    &&& hay.subrange(at, at + needle.len()) == needle
}

/// `needle` stands somewhere in `hay`.
pub open spec fn occurs_in(hay: Seq<char>, needle: Seq<char>) -> bool {
    exists|at: int| occurs_at(hay, needle, at)
}

/// Writing the interspersed list out gives the joined text.
pub proof fn lemma_interspersed_concat(parts: Seq<Seq<char>>, sep: Seq<char>)
    ensures
        concat_all(interspersed(parts, sep)) == joined(parts, sep),
    decreases parts.len(),
{
    let spaced = interspersed(parts, sep);
    if parts.len() == 0 {
    } else if parts.len() == 1 {
        assert(spaced.drop_last() =~= Seq::<Seq<char>>::empty());
        assert(concat_all(spaced.drop_last()) =~= Seq::<char>::empty());
        assert(concat_all(spaced) =~= parts[0]);
    } else {
        let shorter = parts.drop_last();
        lemma_interspersed_concat(shorter, sep);
        let n = parts.len() as int;
        assert(spaced.len() == 2 * n - 1);
        assert(spaced.last() == parts.last());
        assert(spaced.drop_last().last() == sep);
        assert(spaced.drop_last().drop_last() =~= interspersed(shorter, sep));
        assert(concat_all(spaced) == concat_all(spaced.drop_last()) + parts.last());
        assert(concat_all(spaced.drop_last()) == concat_all(interspersed(shorter, sep)) + sep);
    }
}

/// Each part stands in the joined text, whole and as it was handed in.
pub proof fn joined_holds_each_part(parts: Seq<Seq<char>>, sep: Seq<char>, i: int)
    requires
        0 <= i < parts.len(),
    ensures
        occurs_in(joined(parts, sep), parts[i]),
    decreases parts.len(),
{
    let whole = joined(parts, sep);
    if parts.len() == 1 {
        assert(whole.subrange(0, whole.len() as int) =~= whole);
        assert(occurs_at(whole, parts[i], 0));
    } else {
        let shorter = parts.drop_last();
        let head = joined(shorter, sep) + sep;
        if i == parts.len() - 1 {
            let at = head.len() as int;
            assert(whole.subrange(at, at + parts[i].len()) =~= parts[i]);
            assert(occurs_at(whole, parts[i], at));
        } else {
            joined_holds_each_part(shorter, sep, i);
            let at = choose|at: int| occurs_at(joined(shorter, sep), shorter[i], at);
            assert(whole.subrange(at, at + parts[i].len()) =~= joined(shorter, sep).subrange(
                at,
                at + parts[i].len(),
            ));
            assert(occurs_at(whole, parts[i], at));
        }
    }
}

/// Two parts joined are the first, the separator and the second.
pub proof fn joined_pair(first: Seq<char>, second: Seq<char>, sep: Seq<char>)
    ensures
        joined(seq![first, second], sep) == first + sep + second,
{
    let parts = seq![first, second];
    assert(parts.drop_last() =~= seq![first]);
    assert(joined(seq![first], sep) == first);
}

/// `Itertools::intersperse` over the strings of `parts`, with a copy of `sep`
/// as the element that is put in: the strings come back in their order, each
/// two neighbours parted by one `sep`, with none before the first or after
/// the last. An empty list gives an empty list.
#[verifier::external_body]
fn intersperse(parts: Vec<String>, sep: &str) -> (out: Vec<String>)
    ensures
        texts(out@) == interspersed(texts(parts@), sep@),
{
    itertools::Itertools::intersperse(parts.into_iter(), sep.to_string()).collect()
}

/// The strings of `parts` written one after another.
pub fn concat_parts(parts: &Vec<String>) -> (out: String)
    ensures
        out@ == concat_all(texts(parts@)),
{
    let mut out = String::new();
    let mut i: usize = 0;
    while i < parts.len()
        invariant
            i <= parts.len(),
            out@ == concat_all(texts(parts@).take(i as int)),
        decreases parts.len() - i,
    {
        out.append(parts[i].as_str());
        proof {
            let upto = texts(parts@).take(i as int + 1);
            assert(upto.drop_last() =~= texts(parts@).take(i as int));
            assert(upto.last() == parts@[i as int]@);
        }
        i += 1;
    }
    proof {
        assert(texts(parts@).take(parts.len() as int) =~= texts(parts@));
    }
    out
}

/// The strings of `parts` with `sep` between each two neighbours.
pub fn join(parts: Vec<String>, sep: &str) -> (out: String)
    ensures
        out@ == joined(texts(parts@), sep@),
{
    let spaced = intersperse(parts, sep);
    proof {
        lemma_interspersed_concat(texts(parts@), sep@);
    }
    concat_parts(&spaced)
}

} // verus!
