use vstd::prelude::*;
use vstd::string::StrSliceExecFns;
use vstd::string::StringExecFns;

verus! {

/// The character of a decimal digit `d < 10`.
pub open spec fn digit_char(d: nat) -> char {
    (48 + d) as char
}

/// The decimal representation of `n`, without sign or leading zeros.
pub open spec fn decimal(n: nat) -> Seq<char>
    decreases n,
{
    if n < 10 {
        seq![digit_char(n)]
    } else {
        decimal(n / 10).push(digit_char(n % 10))
    }
}

/// The pieces of `s` between occurrences of `sep`, as `str::split` with a
/// one-character pattern gives them: there is always at least one piece, and
/// two adjacent separators give an empty piece.
pub open spec fn split(s: Seq<char>, sep: char) -> Seq<Seq<char>>
    decreases s.len(),
{
    if s.len() == 0 {
        seq![Seq::<char>::empty()]
    } else {
        let pieces = split(s.drop_last(), sep);
        if s.last() == sep {
            pieces.push(Seq::<char>::empty())
        } else if pieces.len() == 0 {
            seq![seq![s.last()]]
        } else {
            pieces.update(pieces.len() - 1, pieces.last().push(s.last()))
        }
    }
}

/// The pieces glued back together with `sep` between each two of them.
pub open spec fn join(pieces: Seq<Seq<char>>, sep: char) -> Seq<char>
    decreases pieces.len(),
{
    if pieces.len() == 0 {
        Seq::<char>::empty()
    } else if pieces.len() == 1 {
        pieces[0]
    } else {
        join(pieces.drop_last(), sep).push(sep) + pieces.last()
    }
}

/// The character sequences of a sequence of string slices.
pub open spec fn strs_view(v: Seq<&str>) -> Seq<Seq<char>> {
    v.map_values(|w: &str| w@)
}

pub proof fn lemma_split_nonempty(s: Seq<char>, sep: char)
    ensures
        split(s, sep).len() >= 1,
    decreases s.len(),
{
    if s.len() > 0 {
        lemma_split_nonempty(s.drop_last(), sep);
    }
}

proof fn lemma_join_extend_last(pieces: Seq<Seq<char>>, sep: char, c: char)
    requires
        pieces.len() >= 1,
    ensures
        join(pieces.update(pieces.len() - 1, pieces.last().push(c)), sep) == join(pieces, sep).push(c),
{
    let p2 = pieces.update(pieces.len() - 1, pieces.last().push(c));
    if pieces.len() > 1 {
        assert(p2.drop_last() =~= pieces.drop_last());
        assert(join(p2, sep) =~= join(pieces, sep).push(c));
    }
}

/// Splitting a text on a separator and joining the pieces with the same
/// separator gives the text back.
pub proof fn lemma_join_split(s: Seq<char>, sep: char)
    ensures
        join(split(s, sep), sep) == s,
    decreases s.len(),
{
    if s.len() > 0 {
        let t = s.drop_last();
        lemma_join_split(t, sep);
        lemma_split_nonempty(t, sep);
        let pieces = split(t, sep);
        if s.last() == sep {
            let p2 = pieces.push(Seq::<char>::empty());
            assert(p2.drop_last() =~= pieces);
            assert(join(p2, sep) =~= t.push(sep));
        } else {
            lemma_join_extend_last(pieces, sep, s.last());
        }
        assert(t.push(s.last()) =~= s);
    }
}

/// A text without separator is a single piece.
pub proof fn lemma_split_no_sep(a: Seq<char>, sep: char)
    requires
        !a.contains(sep),
    ensures
        split(a, sep) == seq![a],
    decreases a.len(),
{
    if a.len() > 0 {
        let t = a.drop_last();
        assert(!t.contains(sep)) by {
            if t.contains(sep) {
                let k = choose|k: int| 0 <= k < t.len() && t[k] == sep;
                assert(a[k] == sep);
            }
        }
        lemma_split_no_sep(t, sep);
        assert(a[a.len() - 1] != sep);
        assert(t.push(a.last()) =~= a);
        let pieces = split(t, sep);
        assert(pieces == seq![t]);
        assert(pieces.update(0, pieces.last().push(a.last())) =~= seq![a]);
    } else {
        assert(a =~= Seq::<char>::empty());
    }
}

/// Splitting `a ++ sep ++ b`, where `a` holds no separator, gives `a` followed
/// by the pieces of `b`.
pub proof fn lemma_split_first(a: Seq<char>, b: Seq<char>, sep: char)
    requires
        !a.contains(sep),
    ensures
        split(a.push(sep) + b, sep) == seq![a] + split(b, sep),
    decreases b.len(),
{
    if b.len() == 0 {
        lemma_split_no_sep(a, sep);
        assert(a.push(sep) + b =~= a.push(sep));
        assert(a.push(sep).drop_last() =~= a);
        assert(split(b, sep) =~= seq![Seq::<char>::empty()]);
        assert(split(a.push(sep), sep) =~= seq![a] + split(b, sep));
    } else {
        let b2 = b.drop_last();
        let c = b.last();
        lemma_split_first(a, b2, sep);
        lemma_split_nonempty(b2, sep);
        let s = a.push(sep) + b;
        assert(s.drop_last() =~= a.push(sep) + b2);
        assert(s.last() == c);
        let pb = split(b2, sep);
        if c == sep {
            assert((seq![a] + pb).push(Seq::<char>::empty()) =~= seq![a] + pb.push(Seq::<char>::empty()));
        } else {
            let q = seq![a] + pb;
            assert(q.update(q.len() - 1, q.last().push(c)) =~= seq![a] + pb.update(pb.len() - 1, pb.last().push(c)));
        }
    }
}

/// Appends one character to a string.
#[verifier::external_body]
pub(crate) fn push_char(s: &mut String, c: char)
    ensures
        final(s)@ == old(s)@.push(c),
{
    s.push(c)
}

/// Appends the decimal representation of `n`.
pub fn push_decimal(s: &mut String, n: u64)
    ensures
        final(s)@ == old(s)@ + decimal(n as nat),
    decreases n,
{
    if n >= 10 {
        push_decimal(s, n / 10);
    }
    let d: u8 = (n % 10) as u8;
    let c: char = (48u8 + d) as char;
    assert(c == digit_char((n % 10) as nat));
    push_char(s, c);
}

/// The decimal representation of `n` as a new string.
pub fn decimal_string(n: u64) -> (r: String)
    ensures
        r@ == decimal(n as nat),
{
    let mut s = String::new();
    push_decimal(&mut s, n);
    assert(s@ =~= decimal(n as nat));
    s
}

/// Splits `s` on each occurrence of `sep`, as `s.split(sep)` does.
pub fn split_on<'a>(s: &'a str, sep: char) -> (r: Vec<&'a str>)
    ensures
        strs_view(r@) == split(s@, sep),
{
    let n = s.unicode_len();
    let mut pieces: Vec<&'a str> = Vec::new();
    let mut start: usize = 0;
    let mut i: usize = 0;
    assert(s@.take(0) =~= Seq::<char>::empty());
    assert(s@.subrange(0, 0) =~= Seq::<char>::empty());
    assert(strs_view(pieces@).push(s@.subrange(0, 0)) =~= split(s@.take(0), sep));
    while i < n
        invariant
            n == s@.len(),
            start <= i <= n,
            strs_view(pieces@).push(s@.subrange(start as int, i as int)) == split(s@.take(i as int), sep),
        decreases n - i,
    {
        let c = s.get_char(i);
        let ghost before = split(s@.take(i as int), sep);
        let ghost old_pieces = strs_view(pieces@);
        let ghost cur = s@.subrange(start as int, i as int);
        assert(s@.take(i as int + 1).drop_last() =~= s@.take(i as int));
        assert(s@.take(i as int + 1).last() == c);
        proof { lemma_split_nonempty(s@.take(i as int), sep); }
        assert(before == old_pieces.push(cur));
        if c == sep {
            let piece = s.substring_char(start, i);
            pieces.push(piece);
            start = i + 1;
            assert(strs_view(pieces@) =~= old_pieces.push(cur));
            assert(split(s@.take(i + 1), sep) == before.push(Seq::<char>::empty()));
            assert(s@.subrange(start as int, i + 1) =~= Seq::<char>::empty());
            assert(strs_view(pieces@).push(s@.subrange(start as int, i + 1)) =~= split(s@.take(i + 1), sep));
        } else {
            assert(split(s@.take(i + 1), sep) == before.update(before.len() - 1, before.last().push(c)));
            assert(s@.subrange(start as int, i + 1) =~= cur.push(c));
            assert(old_pieces.push(cur.push(c)) =~= before.update(before.len() - 1, before.last().push(c)));
        }
        i = i + 1;
    }
    let last = s.substring_char(start, n);
    pieces.push(last);
    assert(s@.take(n as int) =~= s@);
    assert(strs_view(pieces@) =~= split(s@, sep));
    pieces
}

/// Joins `pieces` with `sep` between each two of them.
pub fn join_with(pieces: &[&str], sep: &str) -> (r: String)
    requires
        sep@.len() == 1,
    ensures
        r@ == join(strs_view(pieces@), sep@[0]),
{
    let mut res = String::new();
    let n = pieces.len();
    let ghost v = strs_view(pieces@);
    let mut i: usize = 0;
    while i < n
        invariant
            n == pieces@.len(),
            v == strs_view(pieces@),
            sep@.len() == 1,
            i <= n,
            res@ == join(v.take(i as int), sep@[0]),
        decreases n - i,
    {
        if i > 0 {
            res.append(sep);
        }
        res.append(pieces[i]);
        assert(v.take(i + 1).drop_last() =~= v.take(i as int));
        assert(sep@ =~= seq![sep@[0]]);
        assert(res@ =~= join(v.take(i + 1), sep@[0]));
        i = i + 1;
    }
    assert(v.take(n as int) =~= v);
    res
}

/// Whether two strings hold the same characters.
pub fn str_eq(a: &str, b: &str) -> (r: bool)
    ensures
        r == (a@ == b@),
{
    let n = a.unicode_len();
    let m = b.unicode_len();
    if n != m {
        return false;
    }
    let mut i: usize = 0;
    while i < n
        invariant
            n == a@.len(),
            m == b@.len(),
            n == m,
            i <= n,
            forall|j: int| 0 <= j < i ==> a@[j] == b@[j],
        decreases n - i,
    {
        if a.get_char(i) != b.get_char(i) {
            return false;
        }
        i = i + 1;
    }
    assert(a@ =~= b@);
    true
}

} // verus!
