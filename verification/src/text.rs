//! Text primitives the configuration parsers are built from: Unicode
//! whitespace, trimming, exact comparison, splitting on a separator, and the
//! standard library's Unicode case mappings.
use vstd::prelude::*;

verus! {

/// The Unicode `White_Space` property, which `char::is_whitespace` and
/// `str::trim` use.
pub open spec fn is_white_space(c: char) -> bool {
    let v = c as u32;
    ||| 0x09 <= v <= 0x0D
    ||| v == 0x20
    ||| v == 0x85
    ||| v == 0xA0
    ||| v == 0x1680
    ||| 0x2000 <= v <= 0x200A
    ||| v == 0x2028
    ||| v == 0x2029
    ||| v == 0x202F
    ||| v == 0x205F
    ||| v == 0x3000
}

/// `s` without its leading whitespace.
pub open spec fn trim_start_seq(s: Seq<char>) -> Seq<char>
    decreases s.len(),
{
    if s.len() > 0 && is_white_space(s[0]) {
        trim_start_seq(s.drop_first())
    } else {
        s
    }
}

/// `s` without its trailing whitespace.
pub open spec fn trim_end_seq(s: Seq<char>) -> Seq<char>
    decreases s.len(),
{
    if s.len() > 0 && is_white_space(s.last()) {
        trim_end_seq(s.drop_last())
    } else {
        s
    }
}

/// `s` without leading and trailing whitespace, as `str::trim` returns it.
pub open spec fn trimmed(s: Seq<char>) -> Seq<char> {
    trim_end_seq(trim_start_seq(s))
}

/// The pieces `str::split` yields for a single-character separator: the
/// maximal runs between separators, empty ones included, in order.
pub open spec fn split_pieces(s: Seq<char>, sep: char) -> Seq<Seq<char>>
    decreases s.len(),
{
    if s.len() == 0 {
        seq![Seq::<char>::empty()]
    } else {
        let p = split_pieces(s.drop_last(), sep);
        if s.last() == sep {
            p.push(Seq::<char>::empty())
        } else {
            p.update(p.len() - 1, p.last().push(s.last()))
        }
    }
}

/// The full Unicode upper-case mapping of a string, as `str::to_uppercase` returns it.
pub uninterp spec fn unicode_uppercase(s: Seq<char>) -> Seq<char>;

/// The full Unicode lower-case mapping of a string, as `str::to_lowercase` returns it.
pub uninterp spec fn unicode_lowercase(s: Seq<char>) -> Seq<char>;

/// Calls `str::to_uppercase`. The contract claims only that the result is a
/// function of the characters of `s`, named `unicode_uppercase`; the Unicode
/// case tables it applies are not stated.
#[verifier::external_body]
pub(crate) fn to_uppercase(s: &str) -> (r: String)
    ensures
        r@ == unicode_uppercase(s@),
{
    s.to_uppercase()
}

/// Calls `str::to_lowercase`. The contract claims only that the result is a
/// function of the characters of `s`, named `unicode_lowercase`; the Unicode
/// case tables it applies are not stated.
#[verifier::external_body]
pub(crate) fn to_lowercase(s: &str) -> (r: String)
    ensures
        r@ == unicode_lowercase(s@),
{
    s.to_lowercase()
}

/// Whether `c` has the Unicode `White_Space` property.
pub fn is_whitespace(c: char) -> (r: bool)
    ensures
        r == is_white_space(c),
{
    let v = c as u32;
    (0x09 <= v && v <= 0x0D) || v == 0x20 || v == 0x85 || v == 0xA0 || v == 0x1680 || (0x2000 <= v
        && v <= 0x200A) || v == 0x2028 || v == 0x2029 || v == 0x202F || v == 0x205F || v == 0x3000
}

proof fn lemma_trim_start_skip(s: Seq<char>, i: int)
    requires
        0 <= i < s.len(),
        is_white_space(s[i]),
    ensures
        trim_start_seq(s.subrange(i, s.len() as int)) == trim_start_seq(
            s.subrange(i + 1, s.len() as int),
        ),
{
    assert(s.subrange(i, s.len() as int).drop_first() =~= s.subrange(i + 1, s.len() as int));
}

proof fn lemma_trim_end_skip(s: Seq<char>, i: int, j: int)
    requires
        0 <= i < j <= s.len(),
        is_white_space(s[j - 1]),
    ensures
        trim_end_seq(s.subrange(i, j)) == trim_end_seq(s.subrange(i, j - 1)),
{
    assert(s.subrange(i, j).drop_last() =~= s.subrange(i, j - 1));
}

/// Removes leading and trailing Unicode whitespace, as `str::trim` does.
pub fn trim(s: &str) -> (r: &str)
    ensures
        r@ == trimmed(s@),
{
    let n = s.unicode_len();
    let mut i: usize = 0;
    assert(s@.subrange(0, n as int) =~= s@);
    while i < n && is_whitespace(s.get_char(i))
        invariant
            n == s@.len(),
            i <= n,
            trim_start_seq(s@) == trim_start_seq(s@.subrange(i as int, n as int)),
        decreases n - i,
    {
        proof {
            lemma_trim_start_skip(s@, i as int);
        }
        i = i + 1;
    }
    assert(trim_start_seq(s@) == s@.subrange(i as int, n as int));
    let mut j: usize = n;
    while j > i && is_whitespace(s.get_char(j - 1))
        invariant
            n == s@.len(),
            i <= j <= n,
            trim_start_seq(s@) == s@.subrange(i as int, n as int),
            trimmed(s@) == trim_end_seq(s@.subrange(i as int, j as int)),
        decreases j - i,
    {
        proof {
            lemma_trim_end_skip(s@, i as int, j as int);
        }
        j = j - 1;
    }
    s.substring_char(i, j)
}

/// Whether two strings hold the same characters.
pub fn same_text(a: &str, b: &str) -> (r: bool)
    ensures
        r == (a@ == b@),
{
    let n = a.unicode_len();
    let m = b.unicode_len();
    if n != m {
        return false;
    }
    let mut k: usize = 0;
    while k < n
        invariant
            n == a@.len(),
            m == b@.len(),
            n == m,
            k <= n,
            forall|t: int| 0 <= t < k ==> a@[t] == b@[t],
        decreases n - k,
    {
        if a.get_char(k) != b.get_char(k) {
            return false;
        }
        k = k + 1;
    }
    assert(a@ =~= b@);
    true
}

/// The split of a prefix `s[..k+1]` extends the split of `s[..k]` by its last character.
proof fn lemma_split_step(s: Seq<char>, sep: char, k: int)
    requires
        0 <= k < s.len(),
    ensures
        split_pieces(s.take(k + 1), sep) == (if s[k] == sep {
            split_pieces(s.take(k), sep).push(Seq::<char>::empty())
        } else {
            let p = split_pieces(s.take(k), sep);
            p.update(p.len() - 1, p.last().push(s[k]))
        }),
{
    assert(s.take(k + 1).drop_last() =~= s.take(k));
}

/// Splits `s` at every occurrence of `sep`, as `str::split` with a character
/// pattern does, and returns the pieces.
pub fn split_on<'a>(s: &'a str, sep: char) -> (r: Vec<&'a str>)
    ensures
        r@.len() == split_pieces(s@, sep).len(),
        forall|i: int| 0 <= i < r@.len() ==> #[trigger] r@[i]@ == split_pieces(s@, sep)[i],
{
    let n = s.unicode_len();
    let mut pieces: Vec<&'a str> = Vec::new();
    let mut start: usize = 0;
    let mut k: usize = 0;
    assert(s@.take(0) =~= Seq::<char>::empty());
    while k < n
        invariant
            n == s@.len(),
            start <= k <= n,
            split_pieces(s@.take(k as int), sep).len() == pieces@.len() + 1,
            forall|i: int|
                0 <= i < pieces@.len() ==> #[trigger] pieces@[i]@ == split_pieces(
                    s@.take(k as int),
                    sep,
                )[i],
            split_pieces(s@.take(k as int), sep).last() == s@.subrange(start as int, k as int),
        decreases n - k,
    {
        proof {
            lemma_split_step(s@, sep, k as int);
        }
        let c = s.get_char(k);
        if c == sep {
            let piece = s.substring_char(start, k);
            pieces.push(piece);
            start = k + 1;
            assert(s@.subrange(start as int, (k + 1) as int) =~= Seq::<char>::empty());
        } else {
            assert(s@.subrange(start as int, (k + 1) as int) =~= s@.subrange(
                start as int,
                k as int,
            ).push(c));
        }
        k = k + 1;
    }
    assert(s@.take(n as int) =~= s@);
    let last = s.substring_char(start, n);
    pieces.push(last);
    pieces
}

proof fn lemma_trim_start_index(s: Seq<char>) -> (i: int)
    ensures
        0 <= i <= s.len(),
        trim_start_seq(s) == s.subrange(i, s.len() as int),
        forall|k: int| 0 <= k < i ==> is_white_space(#[trigger] s[k]),
        i < s.len() ==> !is_white_space(s[i]),
    decreases s.len(),
{
    if s.len() > 0 && is_white_space(s[0]) {
        let i1 = lemma_trim_start_index(s.drop_first());
        assert(s.drop_first().subrange(i1, s.len() - 1) =~= s.subrange(i1 + 1, s.len() as int));
        assert forall|k: int| 0 <= k < i1 + 1 implies is_white_space(#[trigger] s[k]) by {
            if k > 0 {
                assert(s[k] == s.drop_first()[k - 1]);
            }
        }
        i1 + 1
    } else {
        assert(s.subrange(0, s.len() as int) =~= s);
        0
    }
}

proof fn lemma_trim_end_index(s: Seq<char>) -> (j: int)
    ensures
        0 <= j <= s.len(),
        trim_end_seq(s) == s.subrange(0, j),
        forall|k: int| j <= k < s.len() ==> is_white_space(#[trigger] s[k]),
        j > 0 ==> !is_white_space(s[j - 1]),
    decreases s.len(),
{
    if s.len() > 0 && is_white_space(s.last()) {
        let j1 = lemma_trim_end_index(s.drop_last());
        assert(s.drop_last().subrange(0, j1) =~= s.subrange(0, j1));
        assert forall|k: int| j1 <= k < s.len() implies is_white_space(#[trigger] s[k]) by {
            if k < s.len() - 1 {
                assert(s[k] == s.drop_last()[k]);
            }
        }
        j1
    } else {
        assert(s.subrange(0, s.len() as int) =~= s);
        s.len() as int
    }
}

/// Trimming keeps exactly the part of a text between its first and last
/// non-whitespace characters: everything removed is whitespace, and what
/// is kept neither starts nor ends with whitespace (it is empty when the
/// text is all whitespace).
pub proof fn law_trim_removes_only_outer_whitespace(s: Seq<char>)
    ensures
        exists|i: int, j: int|
            0 <= i <= j <= s.len() && trimmed(s) == s.subrange(i, j) && (forall|k: int|
                (0 <= k < i || j <= k < s.len()) ==> is_white_space(#[trigger] s[k])) && (i < j
                ==> !is_white_space(s[i]) && !is_white_space(s[j - 1])),
{
    let i = lemma_trim_start_index(s);
    let t = s.subrange(i, s.len() as int);
    let j1 = lemma_trim_end_index(t);
    let j = i + j1;
    assert(t.subrange(0, j1) =~= s.subrange(i, j));
    assert forall|k: int| (0 <= k < i || j <= k < s.len()) implies is_white_space(
        #[trigger] s[k],
    ) by {
        if j <= k < s.len() {
            assert(s[k] == t[k - i]);
        }
    }
    if i < j {
        assert(s[j - 1] == t[j1 - 1]);
    } else {
        assert forall|k: int| (0 <= k < i || j <= k < s.len()) implies is_white_space(
            #[trigger] s[k],
        ) by {
            if j <= k < s.len() {
                assert(s[k] == t[k - i]);
            }
        }
    }
}

/// The pieces joined back together with the separator between them.
pub open spec fn joined(p: Seq<Seq<char>>, sep: char) -> Seq<char>
    decreases p.len(),
{
    if p.len() == 0 {
        Seq::<char>::empty()
    } else if p.len() == 1 {
        p[0]
    } else {
        joined(p.drop_last(), sep) + seq![sep] + p.last()
    }
}

/// Splitting on a separator loses nothing and cuts at every separator:
/// there is at least one piece, no piece contains the separator, and the
/// pieces joined with the separator give back the text.
pub proof fn law_split_rejoins(s: Seq<char>, sep: char)
    ensures
        split_pieces(s, sep).len() >= 1,
        forall|i: int|
            0 <= i < split_pieces(s, sep).len() ==> !(#[trigger] split_pieces(s, sep)[i]).contains(
                sep,
            ),
        joined(split_pieces(s, sep), sep) == s,
    decreases s.len(),
{
    if s.len() == 0 {
        assert(joined(split_pieces(s, sep), sep) =~= s);
    } else {
        let p = split_pieces(s.drop_last(), sep);
        law_split_rejoins(s.drop_last(), sep);
        let c = s.last();
        let n = split_pieces(s, sep);
        if c == sep {
            assert(n == p.push(Seq::<char>::empty()));
            assert(n.drop_last() =~= p);
            assert forall|i: int| 0 <= i < n.len() implies !(#[trigger] n[i]).contains(sep) by {
                if i < p.len() {
                    assert(n[i] == p[i]);
                }
            }
            assert(joined(n, sep) =~= s);
        } else {
            assert(n == p.update(p.len() - 1, p.last().push(c)));
            assert forall|i: int| 0 <= i < n.len() implies !(#[trigger] n[i]).contains(sep) by {
                if i < p.len() - 1 {
                    assert(n[i] == p[i]);
                } else {
                    assert(!p[i].contains(sep));
                    if n[i].contains(sep) {
                        let k = choose|k: int| 0 <= k < n[i].len() && n[i][k] == sep;
                        if k < p[i].len() {
                            assert(p[i][k] == sep);
                        }
                    }
                }
            }
            if p.len() == 1 {
                assert(joined(n, sep) =~= s);
            } else {
                assert(n.drop_last() =~= p.drop_last());
                assert(n.last() == p.last().push(c));
                assert(joined(n, sep) == joined(p.drop_last(), sep) + seq![sep] + p.last().push(c));
                assert(joined(p, sep) == joined(p.drop_last(), sep) + seq![sep] + p.last());
                assert(joined(p.drop_last(), sep) + seq![sep] + p.last().push(c) =~= (joined(
                    p.drop_last(),
                    sep,
                ) + seq![sep] + p.last()).push(c));
                assert(s.drop_last().push(c) =~= s);
                assert(joined(n, sep) =~= s);
            }
        }
    }
}

} // verus!
