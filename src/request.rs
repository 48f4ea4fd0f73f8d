use vstd::prelude::*;
use vstd::string::StrSliceExecFns;

verus! {

/// Position of the first character of `s` that satisfies `f`, or `s.len()` when none does.
pub open spec fn first_where(s: Seq<char>, f: spec_fn(char) -> bool) -> nat
    decreases s.len(),
{
    if s.len() == 0 {
        0
    } else if f(s[0]) {
        0
    } else {
        1 + first_where(s.drop_first(), f)
    }
}

proof fn lemma_first_where(s: Seq<char>, f: spec_fn(char) -> bool, i: int)
    requires
        0 <= i <= s.len(),
        forall|j: int| 0 <= j < i ==> !f(#[trigger] s[j]),
        i == s.len() || f(s[i]),
    ensures
        first_where(s, f) == i,
    decreases s.len(),
{
    if s.len() > 0 && i > 0 {
        assert forall|j: int| 0 <= j < i - 1 implies !f(#[trigger] s.drop_first()[j]) by {
            assert(s.drop_first()[j] == s[j + 1]);
        }
        lemma_first_where(s.drop_first(), f, i - 1);
    }
}

pub open spec fn is_sep(sep: char) -> spec_fn(char) -> bool {
    |c: char| c == sep
}

/// White space as `char::is_whitespace` defines it (the Unicode `White_Space` property).
pub open spec fn is_white(c: char) -> bool {
    let u = c as u32;
    (0x09 <= u <= 0x0D) || u == 0x20 || u == 0x85 || u == 0xA0 || u == 0x1680
        || (0x2000 <= u <= 0x200A) || u == 0x2028 || u == 0x2029 || u == 0x202F
        || u == 0x205F || u == 0x3000
}

pub open spec fn white() -> spec_fn(char) -> bool {
    |c: char| is_white(c)
}

/// The `n`-th piece (from 0) of `s` split at each `sep`; empty when `s` has fewer pieces.
pub open spec fn nth_piece(s: Seq<char>, sep: char, n: nat) -> Seq<char>
    decreases n,
{
    let k = first_where(s, is_sep(sep));
    if n == 0 {
        s.take(k as int)
    } else if k >= s.len() {
        Seq::empty()
    } else {
        nth_piece(s.skip(k + 1 as int), sep, (n - 1) as nat)
    }
}

/// The path of a request: the text between its first and second space.
pub open spec fn path_of(request: Seq<char>) -> Seq<char> {
    nth_piece(request, ' ', 1)
}

/// The resource id of a request: the fifth `/`-separated segment of its path, up to
/// the first white space; empty when the path has fewer segments.
pub open spec fn resource_id(request: Seq<char>) -> Seq<char> {
    let segment = nth_piece(path_of(request), '/', 4);
    segment.take(first_where(segment, white()) as int)
}

/// The blank line that ends the head of a request.
pub open spec fn head_end() -> Seq<char> {
    seq!['\r', '\n', '\r', '\n']
}

pub open spec fn blank_line_at(s: Seq<char>, i: int) -> bool {
    0 <= i && i + 4 <= s.len() && s.subrange(i, i + 4) == head_end()
}

/// Position of the first blank line in `s`, or `s.len()` when there is none.
pub open spec fn first_blank_line(s: Seq<char>) -> nat
    decreases s.len(),
{
    if s.len() == 0 {
        0
    } else if blank_line_at(s, 0) {
        0
    } else {
        1 + first_blank_line(s.drop_first())
    }
}

/// The body of a request: what follows its first blank line, or empty when it has none.
pub open spec fn body_of(request: Seq<char>) -> Seq<char> {
    let k = first_blank_line(request);
    if k < request.len() {
        request.skip(k + 4 as int)
    } else {
        Seq::empty()
    }
}

proof fn lemma_first_blank_line(s: Seq<char>, i: int)
    requires
        0 <= i <= s.len(),
        forall|j: int| 0 <= j < i ==> !#[trigger] blank_line_at(s, j),
        i == s.len() || blank_line_at(s, i),
    ensures
        first_blank_line(s) == i,
    decreases s.len(),
{
    if s.len() > 0 && i > 0 {
        let t = s.drop_first();
        assert forall|j: int| 0 <= j < i - 1 implies !#[trigger] blank_line_at(t, j) by {
            if blank_line_at(t, j) {
                assert(s.subrange(j + 1, j + 5) =~= t.subrange(j, j + 4));
                assert(blank_line_at(s, j + 1));
            }
        }
        if i < s.len() {
            assert(s.subrange(i, i + 4) =~= t.subrange(i - 1, i + 3));
        }
        lemma_first_blank_line(t, i - 1);
    }
}

proof fn lemma_blank_line_found(s: Seq<char>)
    ensures
        first_blank_line(s) <= s.len(),
        first_blank_line(s) < s.len() ==> blank_line_at(s, first_blank_line(s) as int),
    decreases s.len(),
{
    if s.len() > 0 && !blank_line_at(s, 0) {
        let t = s.drop_first();
        lemma_blank_line_found(t);
        let k = first_blank_line(t) as int;
        if k < t.len() {
            assert(s.subrange(k + 1, k + 5) =~= t.subrange(k, k + 4));
        }
    }
}

/// The characters of `s`, in order.
pub fn chars_of(s: &str) -> (r: Vec<char>)
    ensures
        r@ == s@,
{
    broadcast use vstd::string::group_string_axioms;

    let mut r: Vec<char> = Vec::new();
    for c in it: s.chars()
        invariant
            r@ == it.history@,
    {
        r.push(c);
    }
    r
}

/// White space as `char::is_whitespace` defines it.
pub fn is_whitespace(c: char) -> (r: bool)
    ensures
        r == is_white(c),
{
    let u = c as u32;
    (0x09 <= u && u <= 0x0D) || u == 0x20 || u == 0x85 || u == 0xA0 || u == 0x1680 || (0x2000
        <= u && u <= 0x200A) || u == 0x2028 || u == 0x2029 || u == 0x202F || u == 0x205F || u
        == 0x3000
}

/// First position in `from..to` that holds `sep`, or `to`.
fn find_sep(s: &Vec<char>, sep: char, from: usize, to: usize) -> (r: usize)
    requires
        from <= to <= s@.len(),
    ensures
        r == from + first_where(s@.subrange(from as int, to as int), is_sep(sep)),
        from <= r <= to,
{
    let ghost t = s@.subrange(from as int, to as int);
    let mut i = from;
    while i < to && s[i] != sep
        invariant
            from <= i <= to <= s@.len(),
            t == s@.subrange(from as int, to as int),
            forall|j: int| 0 <= j < i - from ==> !(is_sep(sep))(#[trigger] t[j]),
        decreases to - i,
    {
        i = i + 1;
    }
    proof {
        lemma_first_where(t, is_sep(sep), i - from);
    }
    i
}

/// First position in `from..to` that holds white space, or `to`.
fn find_white(s: &Vec<char>, from: usize, to: usize) -> (r: usize)
    requires
        from <= to <= s@.len(),
    ensures
        r == from + first_where(s@.subrange(from as int, to as int), white()),
        from <= r <= to,
{
    let ghost t = s@.subrange(from as int, to as int);
    let mut i = from;
    while i < to && !is_whitespace(s[i])
        invariant
            from <= i <= to <= s@.len(),
            t == s@.subrange(from as int, to as int),
            forall|j: int| 0 <= j < i - from ==> !(white())(#[trigger] t[j]),
        decreases to - i,
    {
        i = i + 1;
    }
    proof {
        lemma_first_where(t, white(), i - from);
    }
    i
}

/// The bounds in `s` of the `n`-th piece of `s[lo..hi]` split at each `sep`; an empty
/// range when there are fewer pieces.
fn piece_bounds(s: &Vec<char>, sep: char, n: usize, lo: usize, hi: usize) -> (r: (usize, usize))
    requires
        lo <= hi <= s@.len(),
    ensures
        lo <= r.0 <= r.1 <= hi,
        s@.subrange(r.0 as int, r.1 as int) == nth_piece(s@.subrange(lo as int, hi as int), sep, n as nat),
{
    let ghost whole = s@.subrange(lo as int, hi as int);
    let mut start = lo;
    let mut k: usize = 0;
    while k < n
        invariant
            lo <= start <= hi <= s@.len(),
            k <= n,
            whole == s@.subrange(lo as int, hi as int),
            nth_piece(whole, sep, n as nat) == nth_piece(
                s@.subrange(start as int, hi as int),
                sep,
                (n - k) as nat,
            ),
        decreases n - k,
    {
        let p = find_sep(s, sep, start, hi);
        if p == hi {
            assert(s@.subrange(lo as int, lo as int) =~= Seq::<char>::empty());
            return (lo, lo);
        }
        assert(s@.subrange(start as int, hi as int).skip(p - start + 1) =~= s@.subrange(
            p + 1,
            hi as int,
        ));
        start = p + 1;
        k = k + 1;
    }
    let end = find_sep(s, sep, start, hi);
    assert(s@.subrange(start as int, hi as int).take(end - start) =~= s@.subrange(
        start as int,
        end as int,
    ));
    (start, end)
}

/// The resource id of a request: the fifth `/`-separated segment of its path (the text
/// between the first and second space, as in `/api/rust/users/{id}`), up to the first
/// white space; empty when the path has fewer segments.
pub fn get_id(request: &str) -> (r: &str)
    ensures
        r@ == resource_id(request@),
{
    let s = chars_of(request);
    let len = s.len();
    assert(s@.subrange(0, len as int) =~= s@);
    let (ps, pe) = piece_bounds(&s, ' ', 1, 0, len);
    let (a, e) = piece_bounds(&s, '/', 4, ps, pe);
    let b = find_white(&s, a, e);
    proof {
        let segment = s@.subrange(a as int, e as int);
        assert(segment.take(b - a) =~= s@.subrange(a as int, b as int));
    }
    request.substring_char(a, b)
}

/// First position at or after `from` where a blank line starts, or `s.len()`.
fn find_blank_line(s: &Vec<char>, from: usize) -> (r: usize)
    requires
        from <= s@.len(),
    ensures
        r == from + first_blank_line(s@.skip(from as int)),
        from <= r <= s@.len(),
{
    let ghost t = s@.skip(from as int);
    let len = s.len();
    let mut i = from;
    while i < len && !(len - i >= 4 && s[i] == '\r' && s[i + 1] == '\n' && s[i + 2] == '\r'
        && s[i + 3] == '\n')
        invariant
            from <= i <= len,
            len == s@.len(),
            t == s@.skip(from as int),
            forall|j: int| 0 <= j < i - from ==> !#[trigger] blank_line_at(t, j),
        decreases len - i,
    {
        assert(!blank_line_at(t, i - from)) by {
            if blank_line_at(t, i - from) {
                assert(t.subrange(i - from, i - from + 4)[0] == s@[i as int]);
                assert(t.subrange(i - from, i - from + 4)[1] == s@[i + 1]);
                assert(t.subrange(i - from, i - from + 4)[2] == s@[i + 2]);
                assert(t.subrange(i - from, i - from + 4)[3] == s@[i + 3]);
            }
        }
        i = i + 1;
    }
    if i < len {
        assert(t.subrange(i - from, i - from + 4) =~= head_end());
    }
    proof {
        lemma_first_blank_line(t, i - from);
    }
    i
}

/// The body of a request: what follows its first `\r\n\r\n`, or empty when it holds
/// none.
pub fn get_body(request: &str) -> (r: &str)
    ensures
        r@ == body_of(request@),
{
    let s = chars_of(request);
    let len = s.len();
    let p = find_blank_line(&s, 0);
    assert(s@.skip(0) =~= s@);
    proof {
        lemma_blank_line_found(s@);
    }
    if p < len {
        request.substring_char(p + 4, len)
    } else {
        request.substring_char(len, len)
    }
}

} // verus!
