//! Text helpers: string equality, Unicode white space, trimming, and the
//! splitting of the bind-address list.
use vstd::prelude::*;
use vstd::string::StrSliceExecFns;
use vstd::string::StringExecFns;

verus! {

/// `==` on string slices: true exactly when both hold the same characters.
pub fn str_equal(a: &str, b: &str) -> (r: bool)
    ensures
        r == (a@ == b@),
{
    let n = a.unicode_len();
    if n != b.unicode_len() {
        return false;
    }
    let mut i: usize = 0;
    while i < n
        invariant
            n == a@.len(),
            n == b@.len(),
            i <= n,
            forall|j: int| 0 <= j < i ==> a@[j] == b@[j],
        decreases n - i,
    {
        if a.get_char(i) != b.get_char(i) {
            return false;
        }
        i = i + 1;
    }
    assert(a@ =~= b@);
    true
}

/// The characters with the Unicode property White_Space, which is what
/// `char::is_whitespace` and `str::trim` go by.
pub open spec fn is_white_space(c: char) -> bool {
    let n = c as u32;
    ||| 0x9 <= n <= 0xD
    ||| n == 0x20
    ||| n == 0x85
    ||| n == 0xA0
    ||| n == 0x1680
    ||| 0x2000 <= n <= 0x200A
    ||| n == 0x2028
    ||| n == 0x2029
    ||| n == 0x202F
    ||| n == 0x205F
    ||| n == 0x3000
}

pub fn white_space(c: char) -> (r: bool)
    ensures
        r == is_white_space(c),
{
    let n = c as u32;
    (0x9 <= n && n <= 0xD) || n == 0x20 || n == 0x85 || n == 0xA0 || n == 0x1680 || (0x2000 <= n
        && n <= 0x200A) || n == 0x2028 || n == 0x2029 || n == 0x202F || n == 0x205F || n == 0x3000
}

/// `s` without its leading white space.
pub open spec fn trim_start(s: Seq<char>) -> Seq<char>
    decreases s.len(),
{
    if s.len() > 0 && is_white_space(s[0]) {
        trim_start(s.drop_first())
    } else {
        s
    }
}

/// `s` without its trailing white space.
pub open spec fn trim_end(s: Seq<char>) -> Seq<char>
    decreases s.len(),
{
    if s.len() > 0 && is_white_space(s.last()) {
        trim_end(s.drop_last())
    } else {
        s
    }
}

/// `s` without leading and trailing white space (`str::trim`).
pub open spec fn trim_chars(s: Seq<char>) -> Seq<char> {
    trim_end(trim_start(s))
}

/// `str::trim`: the slice of `s` without leading and trailing white space.
pub fn trim(s: &str) -> (r: &str)
    ensures
        r@ == trim_chars(s@),
{
    let n = s.unicode_len();
    let mut a: usize = 0;
    assert(s@.subrange(0, n as int) =~= s@);
    while a < n && white_space(s.get_char(a))
        invariant
            n == s@.len(),
            a <= n,
            trim_start(s@) == trim_start(s@.subrange(a as int, n as int)),
        decreases n - a,
    {
        assert(s@.subrange(a as int, n as int).drop_first() =~= s@.subrange(a + 1, n as int));
        a = a + 1;
    }
    assert(trim_start(s@) == s@.subrange(a as int, n as int));
    let mut b: usize = n;
    while b > a && white_space(s.get_char(b - 1))
        invariant
            n == s@.len(),
            a <= b <= n,
            trim_start(s@) == s@.subrange(a as int, n as int),
            trim_end(s@.subrange(a as int, n as int)) == trim_end(s@.subrange(a as int, b as int)),
        decreases b - a,
    {
        assert(s@.subrange(a as int, b as int).drop_last() =~= s@.subrange(a as int, b - 1));
        b = b - 1;
    }
    s.substring_char(a, b)
}

/// True when `s` holds nothing but white space.
pub fn is_blank(s: &str) -> (r: bool)
    ensures
        r == (trim_chars(s@).len() == 0),
{
    trim(s).unicode_len() == 0
}

/// The characters that separate entries of a bind-address list.
pub open spec fn is_bind_separator(c: char) -> bool {
    c == ',' || c == ';' || c == ' '
}

/// The pieces of `s` between separators, in order (`str::split` on
/// `[',', ';', ' ']`): a separator closes the current piece and opens an empty
/// one, any other character extends the current piece.
pub open spec fn split_segments(s: Seq<char>) -> Seq<Seq<char>>
    decreases s.len(),
{
    if s.len() == 0 {
        seq![Seq::empty()]
    } else {
        let prev = split_segments(s.drop_last());
        if is_bind_separator(s.last()) {
            prev.push(Seq::empty())
        } else {
            prev.update(prev.len() - 1, prev.last().push(s.last()))
        }
    }
}

/// The trimmed pieces that are not blank, in order.
pub open spec fn nonblank_trimmed(pieces: Seq<Seq<char>>) -> Seq<Seq<char>>
    decreases pieces.len(),
{
    if pieces.len() == 0 {
        Seq::empty()
    } else {
        let rest = nonblank_trimmed(pieces.drop_last());
        let t = trim_chars(pieces.last());
        if t.len() == 0 {
            rest
        } else {
            rest.push(t)
        }
    }
}

/// The addresses a bind-address list names, as text.
pub open spec fn bind_parts(s: Seq<char>) -> Seq<Seq<char>> {
    nonblank_trimmed(split_segments(s))
}

proof fn lemma_split_segments_nonempty(s: Seq<char>)
    ensures
        split_segments(s).len() >= 1,
    decreases s.len(),
{
    if s.len() > 0 {
        lemma_split_segments_nonempty(s.drop_last());
    }
}

pub open spec fn texts(v: Seq<String>) -> Seq<Seq<char>> {
    v.map_values(|p: String| p@)
}

/// Splits a bind-address list at `,`, `;` and spaces, trims each piece and
/// keeps the pieces that are not blank.
pub fn bind_address_parts(bind: &str) -> (r: Vec<String>)
    ensures
        texts(r@) == bind_parts(bind@),
{
    let n = bind.unicode_len();
    let mut out: Vec<String> = Vec::new();
    let mut start: usize = 0;
    let mut i: usize = 0;
    let ghost mut closed: Seq<Seq<char>> = Seq::empty();
    assert(bind@.take(0) =~= Seq::<char>::empty());
    assert(bind@.subrange(0, 0) =~= Seq::<char>::empty());
    assert(split_segments(bind@.take(0)) =~= closed.push(bind@.subrange(0, 0)));
    while i < n
        invariant
            n == bind@.len(),
            start <= i <= n,
            split_segments(bind@.take(i as int)) == closed.push(bind@.subrange(start as int, i as int)),
            texts(out@) == nonblank_trimmed(closed),
        decreases n - i,
    {
        let c = bind.get_char(i);
        assert(bind@.take(i + 1).drop_last() =~= bind@.take(i as int));
        assert(bind@.take(i + 1).last() == c);
        let ghost seg = bind@.subrange(start as int, i as int);
        if c == ',' || c == ';' || c == ' ' {
            let piece = trim(bind.substring_char(start, i));
            proof {
                assert(closed.push(seg).drop_last() =~= closed);
            }
            if piece.unicode_len() > 0 {
                let ghost before = out@;
                out.push(String::from_str(piece));
                assert(texts(out@) =~= texts(before).push(piece@));
            }
            proof {
                closed = closed.push(seg);
                assert(bind@.subrange(i + 1, i + 1) =~= Seq::<char>::empty());
                assert(split_segments(bind@.take(i + 1)) =~= closed.push(
                    bind@.subrange(i + 1, i + 1),
                ));
            }
            start = i + 1;
        } else {
            proof {
                assert(seg.push(c) =~= bind@.subrange(start as int, i + 1));
                assert(closed.push(seg).update(closed.len() as int, seg.push(c)) =~= closed.push(
                    seg.push(c),
                ));
            }
        }
        i = i + 1;
    }
    assert(bind@.take(n as int) =~= bind@);
    let ghost seg = bind@.subrange(start as int, n as int);
    let piece = trim(bind.substring_char(start, n));
    proof {
        assert(closed.push(seg).drop_last() =~= closed);
    }
    if piece.unicode_len() > 0 {
        let ghost before = out@;
        out.push(String::from_str(piece));
        assert(texts(out@) =~= texts(before).push(piece@));
    }
    out
}


proof fn lemma_trim_start_shape(s: Seq<char>) -> (k: int)
    ensures
        0 <= k <= s.len(),
        trim_start(s) == s.subrange(k, s.len() as int),
        trim_start(s).len() > 0 ==> !is_white_space(trim_start(s)[0]),
    decreases s.len(),
{
    if s.len() > 0 && is_white_space(s[0]) {
        let k = lemma_trim_start_shape(s.drop_first());
        assert(s.drop_first().subrange(k, s.drop_first().len() as int) =~= s.subrange(
            k + 1,
            s.len() as int,
        ));
        k + 1
    } else {
        assert(s.subrange(0, s.len() as int) =~= s);
        0
    }
}

proof fn lemma_trim_end_shape(s: Seq<char>) -> (k: int)
    ensures
        0 <= k <= s.len(),
        trim_end(s) == s.subrange(0, k),
        trim_end(s).len() > 0 ==> !is_white_space(trim_end(s).last()),
    decreases s.len(),
{
    if s.len() > 0 && is_white_space(s.last()) {
        let k = lemma_trim_end_shape(s.drop_last());
        assert(s.drop_last().subrange(0, k) =~= s.subrange(0, k));
        k
    } else {
        assert(s.subrange(0, s.len() as int) =~= s);
        s.len() as int
    }
}

/// `trim_chars(s)` is a piece of `s`: `s` from `k` to `m`.
proof fn lemma_trim_shape(s: Seq<char>) -> (km: (int, int))
    ensures
        0 <= km.0 <= km.1 <= s.len(),
        trim_chars(s) == s.subrange(km.0, km.1),
        trim_chars(s).len() > 0 ==> !is_white_space(trim_chars(s)[0]) && !is_white_space(
            trim_chars(s).last(),
        ),
{
    let k = lemma_trim_start_shape(s);
    let t = trim_start(s);
    let m = lemma_trim_end_shape(t);
    assert(t.subrange(0, m) =~= s.subrange(k, k + m));
    if trim_chars(s).len() > 0 {
        assert(trim_chars(s)[0] == t[0]);
    }
    (k, k + m)
}

/// Text with no white space at either end is its own trim.
proof fn lemma_trim_of_trimmed(s: Seq<char>)
    requires
        s.len() > 0 ==> !is_white_space(s[0]) && !is_white_space(s.last()),
    ensures
        trim_chars(s) == s,
{
    assert(trim_start(s) == s);
    assert(trim_end(s) == s);
}

/// Trimming twice trims no more than once.
pub proof fn lemma_trim_idempotent(s: Seq<char>)
    ensures
        trim_chars(trim_chars(s)) == trim_chars(s),
{
    lemma_trim_shape(s);
    lemma_trim_of_trimmed(trim_chars(s));
}

proof fn lemma_split_segments_have_no_separator(s: Seq<char>)
    ensures
        forall|i: int, j: int|
            0 <= i < split_segments(s).len() && 0 <= j < split_segments(s)[i].len()
                ==> !is_bind_separator(#[trigger] split_segments(s)[i][j]),
    decreases s.len(),
{
    lemma_split_segments_nonempty(s);
    if s.len() > 0 {
        lemma_split_segments_have_no_separator(s.drop_last());
        lemma_split_segments_nonempty(s.drop_last());
        let prev = split_segments(s.drop_last());
        if !is_bind_separator(s.last()) {
            let last = prev.last().push(s.last());
            assert forall|i: int, j: int|
                0 <= i < split_segments(s).len() && 0 <= j < split_segments(s)[i].len()
                    implies !is_bind_separator(#[trigger] split_segments(s)[i][j]) by {
                if i == prev.len() - 1 {
                    if j < prev.last().len() {
                        assert(split_segments(s)[i][j] == prev[i][j]);
                    }
                } else {
                    assert(split_segments(s)[i] == prev[i]);
                }
            }
        } else {
            assert forall|i: int, j: int|
                0 <= i < split_segments(s).len() && 0 <= j < split_segments(s)[i].len()
                    implies !is_bind_separator(#[trigger] split_segments(s)[i][j]) by {
                if i < prev.len() {
                    assert(split_segments(s)[i] == prev[i]);
                }
            }
        }
    }
}

/// A piece is clean: not blank, trimmed, and free of separators.
pub open spec fn clean_part(p: Seq<char>) -> bool {
    &&& p.len() > 0
    &&& trim_chars(p) == p
    &&& forall|j: int| 0 <= j < p.len() ==> !is_bind_separator(#[trigger] p[j])
}

proof fn lemma_nonblank_trimmed_clean(pieces: Seq<Seq<char>>)
    requires
        forall|i: int, j: int|
            0 <= i < pieces.len() && 0 <= j < pieces[i].len() ==> !is_bind_separator(
                #[trigger] pieces[i][j],
            ),
    ensures
        forall|i: int|
            0 <= i < nonblank_trimmed(pieces).len() ==> clean_part(
                #[trigger] nonblank_trimmed(pieces)[i],
            ),
    decreases pieces.len(),
{
    if pieces.len() > 0 {
        let front = pieces.drop_last();
        assert forall|i: int, j: int|
            0 <= i < front.len() && 0 <= j < front[i].len() implies !is_bind_separator(
                #[trigger] front[i][j],
            ) by {
            assert(front[i] == pieces[i]);
        }
        lemma_nonblank_trimmed_clean(front);
        let last = pieces.last();
        let t = trim_chars(last);
        if t.len() > 0 {
            let km = lemma_trim_shape(last);
            lemma_trim_idempotent(last);
            assert forall|j: int| 0 <= j < t.len() implies !is_bind_separator(#[trigger] t[j]) by {
                assert(t[j] == last[km.0 + j]);
                assert(pieces[pieces.len() - 1][km.0 + j] == last[km.0 + j]);
            }
            assert(clean_part(t));
        }
        let rest = nonblank_trimmed(front);
        assert forall|i: int|
            0 <= i < nonblank_trimmed(pieces).len() implies clean_part(
                #[trigger] nonblank_trimmed(pieces)[i],
            ) by {
            if i < rest.len() {
                assert(nonblank_trimmed(pieces)[i] == rest[i]);
            }
        }
    }
}

/// Every address taken from a bind-address list is non-empty, has no white
/// space at either end, and holds no separator.
pub proof fn lemma_bind_parts_are_clean(s: Seq<char>)
    ensures
        forall|i: int| 0 <= i < bind_parts(s).len() ==> clean_part(#[trigger] bind_parts(s)[i]),
{
    lemma_split_segments_have_no_separator(s);
    lemma_nonblank_trimmed_clean(split_segments(s));
}

} // verus!
