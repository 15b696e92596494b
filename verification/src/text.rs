//! Character-level helpers on strings: equality, prefixes, substrings,
//! concatenation and decimal rendering, each with its meaning over `Seq<char>`.

use vstd::prelude::*;

verus! {

/// `String::push` appends one character to the end of the string (its
/// documentation: "Appends the given char to the end of this String").
pub assume_specification[ String::push ](s: &mut String, ch: char)
    ensures
        final(s)@ == old(s)@.push(ch),
;

/// `s` begins with `p`.
pub open spec fn seq_starts_with(s: Seq<char>, p: Seq<char>) -> bool {
    p.len() <= s.len() && s.subrange(0, p.len() as int) == p
}

/// `p` occurs in `s` starting at position `i`.
pub open spec fn occurs_at(s: Seq<char>, p: Seq<char>, i: int) -> bool {
    0 <= i && i + p.len() <= s.len() && s.subrange(i, i + p.len()) == p
}

/// `p` occurs somewhere in `s` (the empty sequence occurs in every `s`).
pub open spec fn seq_contains(s: Seq<char>, p: Seq<char>) -> bool {
    exists|i: int| occurs_at(s, p, i)
}

/// The decimal digit character for `d < 10`.
pub open spec fn digit_char(d: nat) -> char {
    if d == 0 { '0' } else if d == 1 { '1' } else if d == 2 { '2' } else if d == 3 { '3' }
    else if d == 4 { '4' } else if d == 5 { '5' } else if d == 6 { '6' } else if d == 7 { '7' }
    else if d == 8 { '8' } else { '9' }
}

/// The decimal rendering of `n`, without sign or leading zeros.
pub open spec fn decimal(n: nat) -> Seq<char>
    decreases n,
{
    if n < 10 {
        seq![digit_char(n)]
    } else {
        decimal(n / 10).push(digit_char(n % 10))
    }
}

/// The characters of `s`, one per element.
pub fn chars_of(s: &str) -> (v: Vec<char>)
    ensures
        v@ == s@,
{
    let mut v: Vec<char> = Vec::new();
    for c in it: s.chars()
        invariant
            v@ == it.seq().subrange(0, it.index() as int),
    {
        v.push(c);
    }
    v
}

/// Character-wise equality of two strings.
pub fn str_eq(a: &str, b: &str) -> (r: bool)
    ensures
        r == (a@ == b@),
{
    let x = chars_of(a);
    let y = chars_of(b);
    if x.len() != y.len() {
        return false;
    }
    let mut i: usize = 0;
    while i < x.len()
        invariant
            x@ == a@,
            y@ == b@,
            x.len() == y.len(),
            i <= x.len(),
            forall|j: int| 0 <= j < i ==> x@[j] == y@[j],
        decreases x.len() - i,
    {
        if x[i] != y[i] {
            return false;
        }
        i = i + 1;
    }
    assert(x@ =~= y@);
    true
}


/// `s` begins with `p`.
pub fn has_prefix(s: &str, p: &str) -> (r: bool)
    ensures
        r == seq_starts_with(s@, p@),
{
    let x = chars_of(s);
    let y = chars_of(p);
    if y.len() > x.len() {
        return false;
    }
    let mut i: usize = 0;
    while i < y.len()
        invariant
            x@ == s@,
            y@ == p@,
            y.len() <= x.len(),
            i <= y.len(),
            forall|j: int| 0 <= j < i ==> x@[j] == y@[j],
        decreases y.len() - i,
    {
        if x[i] != y[i] {
            assert(s@.subrange(0, p@.len() as int)[i as int] != p@[i as int]);
            return false;
        }
        i = i + 1;
    }
    assert(s@.subrange(0, p@.len() as int) =~= p@);
    true
}

/// Does `y` occur in `x` at position `i`? (on character vectors)
fn occurs_in_at(x: &Vec<char>, y: &Vec<char>, i: usize) -> (r: bool)
    requires
        i + y.len() <= x.len(),
    ensures
        r == occurs_at(x@, y@, i as int),
{
    let mut j: usize = 0;
    while j < y.len()
        invariant
            i + y.len() <= x.len(),
            j <= y.len(),
            forall|k: int| 0 <= k < j ==> x@[i + k] == y@[k],
        decreases y.len() - j,
    {
        if x[i + j] != y[j] {
            assert(x@.subrange(i as int, i + y@.len())[j as int] != y@[j as int]);
            return false;
        }
        j = j + 1;
    }
    assert(x@.subrange(i as int, i + y@.len()) =~= y@);
    true
}

/// `p` occurs somewhere in `s`.
pub fn has_substring(s: &str, p: &str) -> (r: bool)
    ensures
        r == seq_contains(s@, p@),
{
    let x = chars_of(s);
    let y = chars_of(p);
    if y.len() > x.len() {
        return false;
    }
    let last = x.len() - y.len();
    let mut i: usize = 0;
    loop
        invariant
            x@ == s@,
            y@ == p@,
            last == x.len() - y.len(),
            i <= last,
            forall|k: int| 0 <= k < i ==> !occurs_at(s@, p@, k),
        decreases last - i,
    {
        if occurs_in_at(&x, &y, i) {
            return true;
        }
        if i == last {
            return false;
        }
        i = i + 1;
    }
}

/// A string holding exactly the characters of `a` followed by those of `b`.
pub fn concat(a: &str, b: &str) -> (r: String)
    ensures
        r@ == a@ + b@,
{
    let mut r = String::from_str(a);
    r.append(b);
    r
}

/// The one-character string of the decimal digit `d`.
fn digit_str(d: u64) -> (s: &'static str)
    requires
        d < 10,
    ensures
        s@ == seq![digit_char(d as nat)],
{
    if d == 0 { proof { reveal_strlit("0"); } "0" }
    else if d == 1 { proof { reveal_strlit("1"); } "1" }
    else if d == 2 { proof { reveal_strlit("2"); } "2" }
    else if d == 3 { proof { reveal_strlit("3"); } "3" }
    else if d == 4 { proof { reveal_strlit("4"); } "4" }
    else if d == 5 { proof { reveal_strlit("5"); } "5" }
    else if d == 6 { proof { reveal_strlit("6"); } "6" }
    else if d == 7 { proof { reveal_strlit("7"); } "7" }
    else if d == 8 { proof { reveal_strlit("8"); } "8" }
    else { proof { reveal_strlit("9"); } "9" }
}

/// The decimal rendering of `n`.
pub fn decimal_string(n: u64) -> (r: String)
    ensures
        r@ == decimal(n as nat),
    decreases n,
{
    if n < 10 {
        String::from_str(digit_str(n))
    } else {
        let mut r = decimal_string(n / 10);
        r.append(digit_str(n % 10));
        r
    }
}


/// The character sequences of a list of string slices.
pub open spec fn str_views(l: Seq<&str>) -> Seq<Seq<char>> {
    l.map_values(|x: &str| x@)
}

/// The character sequences of a list of strings.
pub open spec fn string_views(l: Seq<String>) -> Seq<Seq<char>> {
    l.map_values(|x: String| x@)
}

/// Is `s` one of the entries of `list`?
pub fn slice_has(list: &[&str], s: &str) -> (r: bool)
    ensures
        r == str_views(list@).contains(s@),
{
    let mut i: usize = 0;
    while i < list.len()
        invariant
            i <= list@.len(),
            forall|j: int| 0 <= j < i ==> list@[j]@ != s@,
        decreases list@.len() - i,
    {
        if str_eq(list[i], s) {
            assert(str_views(list@)[i as int] == s@);
            return true;
        }
        i = i + 1;
    }
    assert forall|j: int| 0 <= j < str_views(list@).len() implies str_views(list@)[j] != s@ by {
        assert(str_views(list@)[j] == list@[j]@);
    }
    false
}

/// Is `s` one of the entries of `list`?
pub fn vec_has(list: &Vec<String>, s: &str) -> (r: bool)
    ensures
        r == string_views(list@).contains(s@),
{
    let mut i: usize = 0;
    while i < list.len()
        invariant
            i <= list@.len(),
            forall|j: int| 0 <= j < i ==> list@[j]@ != s@,
        decreases list@.len() - i,
    {
        if str_eq(list[i].as_str(), s) {
            assert(string_views(list@)[i as int] == s@);
            return true;
        }
        i = i + 1;
    }
    assert forall|j: int| 0 <= j < string_views(list@).len() implies string_views(list@)[j] != s@ by {
        assert(string_views(list@)[j] == list@[j]@);
    }
    false
}


/// The decimal renderings of `xs`, separated by `sep`.
pub open spec fn joined_decimals(xs: Seq<u32>, sep: Seq<char>) -> Seq<char>
    decreases xs.len(),
{
    if xs.len() == 0 {
        seq![]
    } else if xs.len() == 1 {
        decimal(xs[0] as nat)
    } else {
        joined_decimals(xs.drop_last(), sep) + sep + decimal(xs.last() as nat)
    }
}

/// The entries of `xs`, separated by `sep`.
pub open spec fn joined(xs: Seq<Seq<char>>, sep: Seq<char>) -> Seq<char>
    decreases xs.len(),
{
    if xs.len() == 0 {
        seq![]
    } else if xs.len() == 1 {
        xs[0]
    } else {
        joined(xs.drop_last(), sep) + sep + xs.last()
    }
}

/// The numbers of `xs` in decimal, separated by `sep`.
pub fn join_decimals(xs: &Vec<u32>, sep: &str) -> (r: String)
    ensures
        r@ == joined_decimals(xs@, sep@),
{
    let mut r = String::new();
    let mut i: usize = 0;
    while i < xs.len()
        invariant
            i <= xs@.len(),
            r@ == joined_decimals(xs@.subrange(0, i as int), sep@),
        decreases xs@.len() - i,
    {
        assert(xs@.subrange(0, i + 1).drop_last() =~= xs@.subrange(0, i as int));
        let d = decimal_string(xs[i] as u64);
        if i > 0 {
            r.append(sep);
        } else {
            assert(r@ =~= seq![]);
        }
        r.append(d.as_str());
        i = i + 1;
    }
    assert(xs@.subrange(0, xs@.len() as int) =~= xs@);
    r
}

/// The strings of `xs`, separated by `sep`.
pub fn join_strings(xs: &Vec<String>, sep: &str) -> (r: String)
    ensures
        r@ == joined(string_views(xs@), sep@),
{
    let mut r = String::new();
    let mut i: usize = 0;
    while i < xs.len()
        invariant
            i <= xs@.len(),
            r@ == joined(string_views(xs@.subrange(0, i as int)), sep@),
        decreases xs@.len() - i,
    {
        assert(string_views(xs@.subrange(0, i + 1)).drop_last() =~= string_views(xs@.subrange(0, i as int)));
        if i > 0 {
            r.append(sep);
        } else {
            assert(r@ =~= seq![]);
        }
        r.append(xs[i].as_str());
        i = i + 1;
    }
    assert(xs@.subrange(0, xs@.len() as int) =~= xs@);
    r
}

/// The strings of `xs`, separated by `sep`.
pub fn join_strs(xs: &[&str], sep: &str) -> (r: String)
    ensures
        r@ == joined(str_views(xs@), sep@),
{
    let mut r = String::new();
    let mut i: usize = 0;
    while i < xs.len()
        invariant
            i <= xs@.len(),
            r@ == joined(str_views(xs@.subrange(0, i as int)), sep@),
        decreases xs@.len() - i,
    {
        assert(str_views(xs@.subrange(0, i + 1)).drop_last() =~= str_views(xs@.subrange(0, i as int)));
        if i > 0 {
            r.append(sep);
        } else {
            assert(r@ =~= seq![]);
        }
        r.append(xs[i]);
        i = i + 1;
    }
    assert(xs@.subrange(0, xs@.len() as int) =~= xs@);
    r
}


/// Unicode `White_Space`: the characters `char::is_whitespace` accepts.
pub open spec fn is_white_space(c: char) -> bool {
    let u = c as u32;
    (0x9 <= u && u <= 0xD) || u == 0x20 || u == 0x85 || u == 0xA0 || u == 0x1680 || (0x2000 <= u && u
        <= 0x200A) || u == 0x2028 || u == 0x2029 || u == 0x202F || u == 0x205F || u == 0x3000
}

/// Is `c` white space?
pub fn white_space(c: char) -> (r: bool)
    ensures
        r == is_white_space(c),
{
    let u = c as u32;
    (0x9 <= u && u <= 0xD) || u == 0x20 || u == 0x85 || u == 0xA0 || u == 0x1680 || (0x2000 <= u && u
        <= 0x200A) || u == 0x2028 || u == 0x2029 || u == 0x202F || u == 0x205F || u == 0x3000
}

/// `s` without leading white space.
pub open spec fn trim_start_spec(s: Seq<char>) -> Seq<char>
    decreases s.len(),
{
    if s.len() > 0 && is_white_space(s[0]) {
        trim_start_spec(s.drop_first())
    } else {
        s
    }
}

/// `s` without trailing white space.
pub open spec fn trim_end_spec(s: Seq<char>) -> Seq<char>
    decreases s.len(),
{
    if s.len() > 0 && is_white_space(s.last()) {
        trim_end_spec(s.drop_last())
    } else {
        s
    }
}

/// `s` without leading and trailing white space.
pub open spec fn trim_spec(s: Seq<char>) -> Seq<char> {
    trim_end_spec(trim_start_spec(s))
}

/// The characters of `s` without leading and trailing white space.
pub fn trim_chars(s: &Vec<char>) -> (r: Vec<char>)
    ensures
        r@ == trim_spec(s@),
{
    let n = s.len();
    let mut a: usize = 0;
    assert(s@.subrange(0, n as int) =~= s@);
    while a < n && white_space(s[a])
        invariant
            n == s@.len(),
            a <= n,
            trim_start_spec(s@) == trim_start_spec(s@.subrange(a as int, n as int)),
        decreases n - a,
    {
        assert(s@.subrange(a as int, n as int).drop_first() =~= s@.subrange(a + 1, n as int));
        a = a + 1;
    }
    let ghost mid = s@.subrange(a as int, n as int);
    assert(trim_start_spec(mid) == mid);
    let mut b: usize = n;
    while b > a && white_space(s[b - 1])
        invariant
            n == s@.len(),
            a <= b <= n,
            mid == s@.subrange(a as int, n as int),
            trim_end_spec(mid) == trim_end_spec(s@.subrange(a as int, b as int)),
        decreases b - a,
    {
        assert(s@.subrange(a as int, b as int).drop_last() =~= s@.subrange(a as int, b - 1));
        b = b - 1;
    }
    assert(trim_end_spec(s@.subrange(a as int, b as int)) == s@.subrange(a as int, b as int));
    let mut r: Vec<char> = Vec::new();
    let mut i: usize = a;
    while i < b
        invariant
            a <= i <= b <= n,
            n == s@.len(),
            r@ == s@.subrange(a as int, i as int),
        decreases b - i,
    {
        r.push(s[i]);
        i = i + 1;
    }
    r
}

/// The string of the characters `v`.
pub fn string_of(v: &Vec<char>) -> (r: String)
    ensures
        r@ == v@,
{
    let mut r = String::new();
    let mut i: usize = 0;
    while i < v.len()
        invariant
            i <= v@.len(),
            r@ == v@.subrange(0, i as int),
        decreases v@.len() - i,
    {
        r.push(v[i]);
        assert(r@ =~= v@.subrange(0, i + 1));
        i = i + 1;
    }
    r
}


/// The first position at or after `i` where `t` holds `c` (`t.len()` if none).
pub open spec fn first_of(t: Seq<char>, c: char, i: int) -> int
    decreases t.len() - i,
{
    if i < 0 || i >= t.len() {
        t.len() as int
    } else if t[i] == c {
        i
    } else {
        first_of(t, c, i + 1)
    }
}

/// A position `e` with no `c` in `[i, e)` and `c` at `e` (or `e` at the end)
/// is the first occurrence.
proof fn first_of_is(t: Seq<char>, c: char, i: int, e: int)
    requires
        0 <= i <= e <= t.len(),
        forall|j: int| i <= j < e ==> t[j] != c,
        e < t.len() ==> t[e] == c,
    ensures
        first_of(t, c, i) == e,
    decreases e - i,
{
    if i < e {
        first_of_is(t, c, i + 1, e);
    }
}

/// The pieces of `t` between occurrences of `c`, as `str::split` yields them
/// (an empty `t` gives one empty piece).
pub open spec fn split_spec(t: Seq<char>, c: char) -> Seq<Seq<char>>
    decreases t.len(),
{
    let e = first_of(t, c, 0);
    if e >= t.len() || e < 0 {
        seq![t]
    } else {
        seq![t.subrange(0, e)] + split_spec(t.subrange(e + 1, t.len() as int), c)
    }
}

/// `l` without one trailing carriage return.
pub open spec fn strip_cr(l: Seq<char>) -> Seq<char> {
    if l.len() > 0 && l.last() == '\r' {
        l.drop_last()
    } else {
        l
    }
}

/// The lines of `t`, as `str::lines` yields them: split at `\n`, each
/// terminated line losing one trailing `\r`; a final line ending adds no
/// empty line.
pub open spec fn lines_spec(t: Seq<char>) -> Seq<Seq<char>>
    decreases t.len(),
{
    if t.len() == 0 {
        seq![]
    } else {
        let e = first_of(t, '\n', 0);
        if e >= t.len() || e < 0 {
            seq![t]
        } else {
            seq![strip_cr(t.subrange(0, e))] + lines_spec(t.subrange(e + 1, t.len() as int))
        }
    }
}

/// The character sequences of a list of character vectors.
pub open spec fn vec_views(l: Seq<Vec<char>>) -> Seq<Seq<char>> {
    l.map_values(|v: Vec<char>| v@)
}

/// Position of the first `c` at or after `k` in `t`.
fn find_char(t: &Vec<char>, c: char, k: usize) -> (e: usize)
    requires
        k <= t@.len(),
    ensures
        e == first_of(t@, c, k as int),
        k <= e <= t@.len(),
{
    let mut e = k;
    while e < t.len() && t[e] != c
        invariant
            k <= e <= t@.len(),
            forall|j: int| k <= j < e ==> t@[j] != c,
        decreases t@.len() - e,
    {
        e = e + 1;
    }
    proof { first_of_is(t@, c, k as int, e as int); }
    e
}

fn copy_range(t: &Vec<char>, a: usize, b: usize) -> (r: Vec<char>)
    requires
        a <= b <= t@.len(),
    ensures
        r@ == t@.subrange(a as int, b as int),
{
    let mut r: Vec<char> = Vec::new();
    let mut i = a;
    while i < b
        invariant
            a <= i <= b <= t@.len(),
            r@ == t@.subrange(a as int, i as int),
        decreases b - i,
    {
        r.push(t[i]);
        i = i + 1;
    }
    r
}

/// Shifting a search into a suffix.
proof fn first_of_suffix(t: Seq<char>, c: char, k: int, j: int)
    requires
        0 <= k <= t.len(),
        0 <= j <= t.len() - k,
    ensures
        first_of(t.subrange(k, t.len() as int), c, j) == first_of(t, c, j + k) - k,
    decreases t.len() - k - j,
{
    if j < t.len() - k && t[j + k] != c {
        first_of_suffix(t, c, k, j + 1);
    }
}

/// The pieces of `t` between occurrences of `c`; see [`split_spec`].
pub fn split_chars(t: &Vec<char>, c: char) -> (r: Vec<Vec<char>>)
    ensures
        vec_views(r@) == split_spec(t@, c),
{
    let n = t.len();
    let mut r: Vec<Vec<char>> = Vec::new();
    let mut k: usize = 0;
    assert(t@.subrange(0, n as int) =~= t@);
    loop
        invariant
            n == t@.len(),
            k <= n,
            vec_views(r@) + split_spec(t@.subrange(k as int, n as int), c) == split_spec(t@, c),
        decreases n - k,
    {
        let e = find_char(t, c, k);
        let piece = copy_range(t, k, e);
        let ghost sub = t@.subrange(k as int, n as int);
        proof {
            first_of_suffix(t@, c, k as int, 0);
            assert(sub.subrange(0, e - k) =~= piece@);
        }
        let ghost before = r@;
        r.push(piece);
        assert(vec_views(r@) =~= vec_views(before).push(piece@));
        if e == n {
            assert(split_spec(sub, c) == seq![sub]);
            assert(sub =~= piece@);
            assert(vec_views(r@) =~= vec_views(before) + split_spec(sub, c));
            return r;
        }
        proof {
            assert(sub.subrange(e - k + 1, sub.len() as int) =~= t@.subrange(e + 1, n as int));
            assert(vec_views(r@) + split_spec(t@.subrange(e + 1, n as int), c) =~= vec_views(before)
                + split_spec(sub, c));
        }
        k = e + 1;
    }
}

/// The lines of `t`; see [`lines_spec`].
pub fn lines_chars(t: &Vec<char>) -> (r: Vec<Vec<char>>)
    ensures
        vec_views(r@) == lines_spec(t@),
{
    let n = t.len();
    let mut r: Vec<Vec<char>> = Vec::new();
    let mut k: usize = 0;
    assert(t@.subrange(0, n as int) =~= t@);
    while k < n
        invariant
            n == t@.len(),
            k <= n,
            vec_views(r@) + lines_spec(t@.subrange(k as int, n as int)) == lines_spec(t@),
        decreases n - k,
    {
        let e = find_char(t, '\n', k);
        let ghost sub = t@.subrange(k as int, n as int);
        proof {
            first_of_suffix(t@, '\n', k as int, 0);
        }
        let ghost before = r@;
        if e == n {
            let piece = copy_range(t, k, e);
            assert(sub =~= piece@);
            r.push(piece);
            assert(vec_views(r@) =~= vec_views(before).push(piece@));
            assert(t@.subrange(n as int, n as int) =~= seq![]);
            assert(vec_views(r@) + lines_spec(t@.subrange(n as int, n as int)) =~= vec_views(before) + lines_spec(sub));
            k = n;
        } else {
            let end = if e > k && t[e - 1] == '\r' { e - 1 } else { e };
            let piece = copy_range(t, k, end);
            assert(strip_cr(sub.subrange(0, e - k)) =~= piece@);
            r.push(piece);
            assert(vec_views(r@) =~= vec_views(before).push(piece@));
            proof {
                assert(sub.subrange(e - k + 1, sub.len() as int) =~= t@.subrange(e + 1, n as int));
                assert(vec_views(r@) + lines_spec(t@.subrange(e + 1, n as int)) =~= vec_views(before)
                    + lines_spec(sub));
            }
            k = e + 1;
        }
    }
    assert(t@.subrange(n as int, n as int) =~= seq![]);
    assert(vec_views(r@) + lines_spec(seq![]) =~= vec_views(r@));
    r
}


/// Equality of two character vectors.
pub fn chars_eq(x: &Vec<char>, y: &Vec<char>) -> (r: bool)
    ensures
        r == (x@ == y@),
{
    if x.len() != y.len() {
        return false;
    }
    let mut i: usize = 0;
    while i < x.len()
        invariant
            x.len() == y.len(),
            i <= x.len(),
            forall|j: int| 0 <= j < i ==> x@[j] == y@[j],
        decreases x.len() - i,
    {
        if x[i] != y[i] {
            return false;
        }
        i = i + 1;
    }
    assert(x@ =~= y@);
    true
}

/// Does `y` occur in `x`?
pub fn chars_contain(x: &Vec<char>, y: &Vec<char>) -> (r: bool)
    ensures
        r == seq_contains(x@, y@),
{
    if y.len() > x.len() {
        return false;
    }
    let last = x.len() - y.len();
    let mut i: usize = 0;
    loop
        invariant
            last == x.len() - y.len(),
            i <= last,
            forall|k: int| 0 <= k < i ==> !occurs_at(x@, y@, k),
        decreases last - i,
    {
        if occurs_in_at(x, y, i) {
            return true;
        }
        if i == last {
            return false;
        }
        i = i + 1;
    }
}

} // verus!
