//! Text as sequences of characters: searching, cutting, trimming, splitting
//! and rendering, each with an executable function proved against its
//! mathematical counterpart.

use vstd::prelude::*;

verus! {

/// `p` is the position at which `c` first occurs in `s`, or `s.len()` where
/// `c` does not occur.
pub open spec fn first_at(s: Seq<char>, c: char, p: int) -> bool {
    &&& 0 <= p <= s.len()
    &&& forall|j: int| 0 <= j < p ==> s[j] != c
    &&& p < s.len() ==> s[p] == c
}

/// The position of the first `c` in `s`; `s.len()` if there is none.
pub open spec fn first_pos(s: Seq<char>, c: char) -> int {
    choose|p: int| first_at(s, c, p)
}

/// The part of `s` in front of the first `c`; all of `s` if there is none.
pub open spec fn before(s: Seq<char>, c: char) -> Seq<char> {
    s.take(first_pos(s, c))
}

/// The part of `s` behind the first `c`; empty if there is none.
pub open spec fn after(s: Seq<char>, c: char) -> Seq<char> {
    if first_pos(s, c) < s.len() {
        s.skip(first_pos(s, c) + 1)
    } else {
        Seq::empty()
    }
}

/// `p` is the position at which `c` last occurs in `s`, or `-1` where `c`
/// does not occur.
pub open spec fn last_at(s: Seq<char>, c: char, p: int) -> bool {
    &&& -1 <= p < s.len()
    &&& forall|j: int| p < j < s.len() ==> s[j] != c
    &&& 0 <= p ==> s[p] == c
}

/// The position of the last `c` in `s`; `-1` if there is none.
pub open spec fn last_pos(s: Seq<char>, c: char) -> int {
    choose|p: int| last_at(s, c, p)
}

/// The part of `s` behind the last `c`; all of `s` if there is none.
pub open spec fn after_last(s: Seq<char>, c: char) -> Seq<char> {
    s.skip(last_pos(s, c) + 1)
}

/// `pat` stands in `s` at position `i`.
pub open spec fn occurs_at(s: Seq<char>, pat: Seq<char>, i: int) -> bool {
    &&& 0 <= i
    &&& i + pat.len() <= s.len()
    &&& s.subrange(i, i + pat.len()) == pat
}

/// `pat` stands somewhere in `s`.
pub open spec fn contains_sub(s: Seq<char>, pat: Seq<char>) -> bool {
    exists|i: int| occurs_at(s, pat, i)
}

/// `p` is the first position at which `pat` stands in `s`, or `s.len()`
/// where it stands nowhere.
pub open spec fn sub_at(s: Seq<char>, pat: Seq<char>, p: int) -> bool {
    &&& 0 <= p <= s.len()
    &&& forall|j: int| 0 <= j < p ==> !occurs_at(s, pat, j)
    &&& if occurs_at(s, pat, p) {
        true
    } else {
        p == s.len() && !contains_sub(s, pat)
    }
}

/// The first position at which `pat` stands in `s`; `s.len()` if it stands
/// nowhere.
pub open spec fn sub_pos(s: Seq<char>, pat: Seq<char>) -> int {
    choose|p: int| sub_at(s, pat, p)
}

/// There is only one first occurrence.
pub proof fn lemma_first_pos(s: Seq<char>, c: char, p: int)
    requires
        first_at(s, c, p),
    ensures
        first_pos(s, c) == p,
{
    let q = first_pos(s, c);
    assert(first_at(s, c, q));
    if q < p {
        assert(s[q] != c);
    } else if p < q {
        assert(s[p] != c);
    }
}

/// There is only one last occurrence.
pub proof fn lemma_last_pos(s: Seq<char>, c: char, p: int)
    requires
        last_at(s, c, p),
    ensures
        last_pos(s, c) == p,
{
    let q = last_pos(s, c);
    assert(last_at(s, c, q));
    if q < p {
        assert(s[p] != c);
    } else if p < q {
        assert(s[q] != c);
    }
}

/// There is only one first occurrence of a pattern.
pub proof fn lemma_sub_pos(s: Seq<char>, pat: Seq<char>, p: int)
    requires
        sub_at(s, pat, p),
    ensures
        sub_pos(s, pat) == p,
{
    let q = sub_pos(s, pat);
    assert(sub_at(s, pat, q));
    if q < p {
        assert(!occurs_at(s, pat, q));
    } else if p < q {
        assert(!occurs_at(s, pat, p));
    }
}

/// The characters of `s`, in order.
pub fn to_chars(s: &str) -> (v: Vec<char>)
    ensures
        v@ == s@,
{
    let mut v: Vec<char> = Vec::new();
    for c in it: s.chars()
        invariant
            v@ == it.seq().take(it.index() as int),
            it.seq() == s@,
    {
        v.push(c);
    }
    v
}

/// `String::push`: the string is afterwards what it was, with `c` as one
/// more character at its end.
#[verifier::external_body]
fn push_char(s: &mut String, c: char)
    ensures
        final(s)@ == old(s)@.push(c),
{
    s.push(c)
}

/// The string made of the characters `v[lo..hi]`.
pub fn from_chars(v: &Vec<char>, lo: usize, hi: usize) -> (s: String)
    requires
        lo <= hi <= v.len(),
    ensures
        s@ == v@.subrange(lo as int, hi as int),
{
    let mut s = String::new();
    let mut i: usize = lo;
    while i < hi
        invariant
            lo <= i <= hi <= v.len(),
            s@ == v@.subrange(lo as int, i as int),
        decreases hi - i,
    {
        push_char(&mut s, v[i]);
        i += 1;
    }
    s
}

/// The characters `v[lo..hi]`.
pub fn sub_chars(v: &Vec<char>, lo: usize, hi: usize) -> (r: Vec<char>)
    requires
        lo <= hi <= v.len(),
    ensures
        r@ == v@.subrange(lo as int, hi as int),
{
    let mut r: Vec<char> = Vec::new();
    let mut i: usize = lo;
    while i < hi
        invariant
            lo <= i <= hi <= v.len(),
            r@ == v@.subrange(lo as int, i as int),
        decreases hi - i,
    {
        r.push(v[i]);
        i += 1;
    }
    r
}

/// Whether two texts hold the same characters.
pub fn same_text(a: &str, b: &str) -> (r: bool)
    ensures
        r == (a@ == b@),
{
    a.to_owned() == b.to_owned()
}

/// The position of the first `c` in `v`; `v.len()` if there is none.
pub fn find_char(v: &Vec<char>, c: char) -> (p: usize)
    ensures
        p == first_pos(v@, c),
        p <= v.len(),
{
    let mut i: usize = 0;
    while i < v.len() && v[i] != c
        invariant
            i <= v.len(),
            forall|j: int| 0 <= j < i ==> v@[j] != c,
        decreases v.len() - i,
    {
        i += 1;
    }
    proof {
        lemma_first_pos(v@, c, i as int);
    }
    i
}

/// One more than the position of the last `c` in `v`; `0` if there is none.
pub fn find_last_char(v: &Vec<char>, c: char) -> (p: usize)
    ensures
        p == last_pos(v@, c) + 1,
        p <= v.len(),
{
    let mut i: usize = v.len();
    while i > 0 && v[i - 1] != c
        invariant
            i <= v.len(),
            forall|j: int| i <= j < v.len() ==> v@[j] != c,
        decreases i,
    {
        i -= 1;
    }
    proof {
        lemma_last_pos(v@, c, i as int - 1);
    }
    i
}

/// Whether `pat` stands in `v` at position `i`.
pub fn matches_at(v: &Vec<char>, pat: &Vec<char>, i: usize) -> (r: bool)
    ensures
        r == occurs_at(v@, pat@, i as int),
{
    if pat.len() > v.len() || i > v.len() - pat.len() {
        return false;
    }
    let mut k: usize = 0;
    while k < pat.len()
        invariant
            k <= pat.len(),
            i + pat.len() <= v.len(),
            forall|j: int| 0 <= j < k ==> v@[i + j] == pat@[j],
        decreases pat.len() - k,
    {
        if v[i + k] != pat[k] {
            return false;
        }
        k += 1;
    }
    assert(v@.subrange(i as int, i + pat.len()) =~= pat@);
    true
}

/// The first position at which `pat` stands in `v`; `v.len()` if it stands
/// nowhere, which for an empty `v` is also where an empty `pat` stands.
pub fn find_sub(v: &Vec<char>, pat: &Vec<char>) -> (p: usize)
    ensures
        p == sub_pos(v@, pat@),
        contains_sub(v@, pat@) == occurs_at(v@, pat@, p as int),
{
    let mut i: usize = 0;
    while i < v.len()
        invariant
            i <= v.len(),
            forall|j: int| 0 <= j < i ==> !occurs_at(v@, pat@, j),
        decreases v.len() - i,
    {
        if matches_at(v, pat, i) {
            proof {
                lemma_sub_pos(v@, pat@, i as int);
            }
            return i;
        }
        i += 1;
    }
    proof {
        lemma_sub_pos(v@, pat@, i as int);
    }
    i
}

/// Whether `pat` stands somewhere in `s`.
pub fn contains(s: &str, pat: &str) -> (r: bool)
    ensures
        r == contains_sub(s@, pat@),
{
    let v = to_chars(s);
    let p = to_chars(pat);
    let at = find_sub(&v, &p);
    matches_at(&v, &p, at)
}

/// The first occurrence exists: `first_pos` is where `c` first stands.
pub proof fn lemma_first_is_first(s: Seq<char>, c: char)
    ensures
        first_at(s, c, first_pos(s, c)),
    decreases s.len(),
{
    if s.len() == 0 {
        assert(first_at(s, c, 0));
    } else {
        let t = s.drop_last();
        lemma_first_is_first(t, c);
        let q = first_pos(t, c);
        if q < t.len() {
            assert(first_at(s, c, q)) by {
                assert(s[q] == t[q]);
                assert forall|j: int| 0 <= j < q implies s[j] != c by {
                    assert(s[j] == t[j]);
                }
            }
        } else if s.last() == c {
            assert(first_at(s, c, s.len() - 1)) by {
                assert forall|j: int| 0 <= j < s.len() - 1 implies s[j] != c by {
                    assert(s[j] == t[j]);
                }
            }
        } else {
            assert(first_at(s, c, s.len() as int)) by {
                assert forall|j: int| 0 <= j < s.len() implies s[j] != c by {
                    if j < s.len() - 1 {
                        assert(s[j] == t[j]);
                    }
                }
            }
        }
    }
}


/// Whether `c` is whitespace: one of the twenty-five characters that have
/// the Unicode property `White_Space`. These are the tab, the line feed,
/// the vertical tab, the form feed and the carriage return, the space,
/// the next line, the no-break space, the ogham space mark, the spaces
/// from the en quad to the hair space, the line and the paragraph
/// separator, the narrow no-break space, the medium mathematical space
/// and the ideographic space.
pub open spec fn whitespace(c: char) -> bool {
    let n = c as u32;
    ||| 0x09 <= n <= 0x0D
    ||| n == 0x20
    ||| n == 0x85
    ||| n == 0xA0
    ||| n == 0x1680
    ||| 0x2000 <= n <= 0x200A
    ||| n == 0x2028
    ||| n == 0x2029
    ||| n == 0x202F
    ||| n == 0x205F
    ||| n == 0x3000
}

/// Whether `c` is whitespace.
pub fn is_whitespace(c: char) -> (b: bool)
    ensures
        b == whitespace(c),
{
    let n: u32 = c as u32;
    (0x09 <= n && n <= 0x0D) || n == 0x20 || n == 0x85 || n == 0xA0 || n == 0x1680 || (0x2000 <= n
        && n <= 0x200A) || n == 0x2028 || n == 0x2029 || n == 0x202F || n == 0x205F || n == 0x3000
}

/// The lowercase form of `s`, as `str::to_lowercase` gives it.
pub uninterp spec fn lowercase(s: Seq<char>) -> Seq<char>;

/// `str::to_lowercase`: the lowercase equivalent of `s` as a new string.
#[verifier::external_body]
pub(crate) fn to_lowercase(s: &str) -> (r: String)
    ensures
        r@ == lowercase(s@),
{
    s.to_lowercase()
}

/// `p` is where the leading whitespace of `s` ends.
pub open spec fn lead_at(s: Seq<char>, p: int) -> bool {
    &&& 0 <= p <= s.len()
    &&& forall|j: int| 0 <= j < p ==> whitespace(s[j])
    &&& p < s.len() ==> !whitespace(s[p])
}

/// The number of whitespace characters at the start of `s`.
pub open spec fn lead(s: Seq<char>) -> int {
    choose|p: int| lead_at(s, p)
}

/// `p` is where the trailing whitespace of `s` begins.
pub open spec fn trail_at(s: Seq<char>, p: int) -> bool {
    &&& 0 <= p <= s.len()
    &&& forall|j: int| p <= j < s.len() ==> whitespace(s[j])
    &&& 0 < p ==> !whitespace(s[p - 1])
}

/// The position at which the trailing whitespace of `s` begins.
pub open spec fn trail(s: Seq<char>) -> int {
    choose|p: int| trail_at(s, p)
}

/// `s` without its leading and trailing whitespace.
pub open spec fn trim(s: Seq<char>) -> Seq<char> {
    if lead(s) < trail(s) {
        s.subrange(lead(s), trail(s))
    } else {
        Seq::empty()
    }
}

/// The leading whitespace ends in one place only.
pub proof fn lemma_lead(s: Seq<char>, p: int)
    requires
        lead_at(s, p),
    ensures
        lead(s) == p,
{
    let q = lead(s);
    assert(lead_at(s, q));
    if q < p {
        assert(whitespace(s[q]));
    } else if p < q {
        assert(whitespace(s[p]));
    }
}

/// The trailing whitespace begins in one place only.
pub proof fn lemma_trail(s: Seq<char>, p: int)
    requires
        trail_at(s, p),
    ensures
        trail(s) == p,
{
    let q = trail(s);
    assert(trail_at(s, q));
    if q < p {
        assert(whitespace(s[p - 1]));
    } else if p < q {
        assert(whitespace(s[q - 1]));
    }
}

/// Whether `s` has no whitespace at its start or at its end.
pub open spec fn is_trimmed(s: Seq<char>) -> bool {
    s.len() > 0 ==> !whitespace(s[0]) && !whitespace(s.last())
}

/// The leading whitespace ends somewhere and the trailing whitespace
/// begins somewhere: `lead` and `trail` are these places.
pub proof fn lemma_lead_trail(s: Seq<char>)
    ensures
        lead_at(s, lead(s)),
        trail_at(s, trail(s)),
    decreases s.len(),
{
    if s.len() == 0 {
        assert(lead_at(s, 0));
        assert(trail_at(s, 0));
    } else {
        let t = s.drop_last();
        lemma_lead_trail(t);
        let a = lead(t);
        let b = trail(t);
        assert forall|j: int| 0 <= j < t.len() implies t[j] == s[j] by {}
        if a < t.len() {
            assert(lead_at(s, a));
        } else if whitespace(s.last()) {
            assert(lead_at(s, s.len() as int));
        } else {
            assert(lead_at(s, s.len() - 1));
        }
        if whitespace(s.last()) {
            assert(trail_at(s, b)) by {
                if b > 0 {
                    assert(s[b - 1] == t[b - 1]);
                }
            }
        } else {
            assert(trail_at(s, s.len() as int));
        }
    }
}

/// What `trim` gives is a part of the text, with no whitespace at its start
/// or at its end; and a text that holds a character that is no whitespace
/// keeps something.
pub proof fn lemma_trim_is_trimmed(s: Seq<char>)
    ensures
        is_trimmed(trim(s)),
        trim(s).len() <= s.len(),
        trim(s).len() > 0 <==> exists|i: int| 0 <= i < s.len() && !whitespace(s[i]),
{
    lemma_lead_trail(s);
    let a = lead(s);
    let b = trail(s);
    if a < b {
        assert(trim(s)[0] == s[a]);
        assert(trim(s).last() == s[b - 1]);
        assert(!whitespace(s[a]));
    } else {
        assert forall|i: int| 0 <= i < s.len() implies whitespace(s[i]) by {
            if i < a {
            } else {
                assert(b <= i);
            }
        }
    }
}

/// The bounds `(lead, trail)` of what `trim` keeps of `v`.
pub fn trim_bounds(v: &Vec<char>) -> (r: (usize, usize))
    ensures
        r.0 == lead(v@),
        r.1 == trail(v@),
        r.0 <= v.len(),
        r.1 <= v.len(),
{
    let mut a: usize = 0;
    while a < v.len() && is_whitespace(v[a])
        invariant
            a <= v.len(),
            forall|j: int| 0 <= j < a ==> whitespace(v@[j]),
        decreases v.len() - a,
    {
        a += 1;
    }
    let mut b: usize = v.len();
    while b > 0 && is_whitespace(v[b - 1])
        invariant
            b <= v.len(),
            forall|j: int| b <= j < v.len() ==> whitespace(v@[j]),
        decreases b,
    {
        b -= 1;
    }
    proof {
        lemma_lead(v@, a as int);
        lemma_trail(v@, b as int);
    }
    (a, b)
}

/// `v` without its leading and trailing whitespace.
pub fn trim_chars(v: &Vec<char>) -> (s: String)
    ensures
        s@ == trim(v@),
{
    let (a, b) = trim_bounds(v);
    if a < b {
        from_chars(v, a, b)
    } else {
        String::new()
    }
}

/// `s` without its leading and trailing whitespace.
pub fn trimmed(s: &str) -> (r: String)
    ensures
        r@ == trim(s@),
{
    let v = to_chars(s);
    trim_chars(&v)
}

/// Whether `s` holds nothing but whitespace.
pub fn is_blank(s: &str) -> (r: bool)
    ensures
        r == (trim(s@).len() == 0),
{
    let v = to_chars(s);
    let (a, b) = trim_bounds(&v);
    !(a < b)
}

/// The pieces of `s` between the occurrences of `c`, in order: one more
/// piece than `c` occurs, so a single empty piece for an empty `s`.
pub open spec fn split(s: Seq<char>, c: char) -> Seq<Seq<char>>
    decreases s.len(),
{
    if s.len() == 0 {
        seq![Seq::empty()]
    } else {
        let head = split(s.drop_last(), c);
        if s.last() == c {
            head.push(Seq::empty())
        } else {
            head.update(head.len() - 1, head.last().push(s.last()))
        }
    }
}

/// The pieces of `s` between the occurrences of `c`.
pub fn split_on(s: &str, c: char) -> (parts: Vec<String>)
    ensures
        parts.deep_view() == split(s@, c),
{
    let v = to_chars(s);
    let mut done: Vec<String> = Vec::new();
    let mut cur: Vec<char> = Vec::new();
    let mut i: usize = 0;
    while i < v.len()
        invariant
            i <= v.len(),
            done.deep_view().push(cur@) == split(v@.take(i as int), c),
        decreases v.len() - i,
    {
        let ghost pre = v@.take(i as int);
        let ghost now = v@.take(i + 1);
        let ghost head = done.deep_view();
        let ghost old_cur = cur@;
        proof {
            assert(now.drop_last() =~= pre);
        }
        if v[i] == c {
            let piece = from_chars(&cur, 0, cur.len());
            assert(piece@ =~= old_cur);
            done.push(piece);
            cur = Vec::new();
        } else {
            cur.push(v[i]);
            proof {
                assert(done.deep_view().push(cur@) =~= head.push(old_cur).update(
                    head.push(old_cur).len() - 1,
                    old_cur.push(v@[i as int]),
                ));
            }
        }
        i += 1;
    }
    proof {
        assert(v@.take(v.len() as int) =~= v@);
    }
    let piece = from_chars(&cur, 0, cur.len());
    assert(piece@ =~= cur@);
    done.push(piece);
    done
}

/// The pieces of `parts` in a row, with `sep` between each two.
pub open spec fn join(parts: Seq<Seq<char>>, sep: Seq<char>) -> Seq<char>
    decreases parts.len(),
{
    if parts.len() == 0 {
        Seq::empty()
    } else if parts.len() == 1 {
        parts[0]
    } else {
        join(parts.drop_last(), sep) + sep + parts.last()
    }
}

/// The strings of `parts` in a row, with `sep` between each two.
pub fn join_with(parts: &Vec<String>, sep: &str) -> (r: String)
    ensures
        r@ == join(parts.deep_view(), sep@),
{
    let mut r = String::new();
    let mut i: usize = 0;
    while i < parts.len()
        invariant
            i <= parts.len(),
            r@ == join(parts.deep_view().take(i as int), sep@),
        decreases parts.len() - i,
    {
        let ghost now = parts.deep_view().take(i + 1);
        proof {
            assert(now.drop_last() =~= parts.deep_view().take(i as int));
        }
        if i > 0 {
            r.append(sep);
        }
        r.append(parts[i].as_str());
        i += 1;
    }
    proof {
        assert(parts.deep_view().take(parts.len() as int) =~= parts.deep_view());
    }
    r
}

/// The decimal digit that stands for `d`, for `d` below ten.
pub open spec fn digit(d: nat) -> char {
    if d == 0 {
        '0'
    } else if d == 1 {
        '1'
    } else if d == 2 {
        '2'
    } else if d == 3 {
        '3'
    } else if d == 4 {
        '4'
    } else if d == 5 {
        '5'
    } else if d == 6 {
        '6'
    } else if d == 7 {
        '7'
    } else if d == 8 {
        '8'
    } else {
        '9'
    }
}

/// `n` written in decimal digits, without leading zeros.
pub open spec fn decimal(n: nat) -> Seq<char>
    decreases n,
{
    if n < 10 {
        seq![digit(n)]
    } else {
        decimal(n / 10).push(digit(n % 10))
    }
}

fn digit_char(d: usize) -> (c: char)
    requires
        d < 10,
    ensures
        c == digit(d as nat),
{
    if d == 0 {
        '0'
    } else if d == 1 {
        '1'
    } else if d == 2 {
        '2'
    } else if d == 3 {
        '3'
    } else if d == 4 {
        '4'
    } else if d == 5 {
        '5'
    } else if d == 6 {
        '6'
    } else if d == 7 {
        '7'
    } else if d == 8 {
        '8'
    } else {
        '9'
    }
}

/// `n` written in decimal digits, without leading zeros.
pub fn decimal_string(n: usize) -> (r: String)
    ensures
        r@ == decimal(n as nat),
    decreases n,
{
    if n < 10 {
        let mut r = String::new();
        push_char(&mut r, digit_char(n));
        r
    } else {
        let mut r = decimal_string(n / 10);
        push_char(&mut r, digit_char(n % 10));
        r
    }
}

/// `s`, filled up with spaces at its end to `width` characters; `s` itself
/// where it is that long already.
pub open spec fn pad_right(s: Seq<char>, width: nat) -> Seq<char> {
    if s.len() < width {
        s + Seq::new((width - s.len()) as nat, |i: int| ' ')
    } else {
        s
    }
}

/// `s`, filled up with spaces at its end to `width` characters.
pub fn padded(s: &str, width: usize) -> (r: String)
    ensures
        r@ == pad_right(s@, width as nat),
{
    let mut r = s.to_owned();
    let n = s.unicode_len();
    let mut i: usize = n;
    while i < width
        invariant
            n == s@.len(),
            n <= i,
            n < width ==> i <= width,
            n >= width ==> i == n,
            r@ == s@ + Seq::new((i - n) as nat, |i: int| ' '),
        decreases width - i,
    {
        push_char(&mut r, ' ');
        i += 1;
    }
    r
}

/// `a` followed by `b`.
pub fn text2(a: &str, b: &str) -> (r: String)
    ensures
        r@ == a@ + b@,
{
    let mut r = a.to_owned();
    r.append(b);
    r
}

/// The three texts in a row.
pub fn text3(a: &str, b: &str, c: &str) -> (r: String)
    ensures
        r@ == a@ + b@ + c@,
{
    let mut r = text2(a, b);
    r.append(c);
    r
}

/// The four texts in a row.
pub fn text4(a: &str, b: &str, c: &str, d: &str) -> (r: String)
    ensures
        r@ == a@ + b@ + c@ + d@,
{
    let mut r = text3(a, b, c);
    r.append(d);
    r
}

/// The five texts in a row.
pub fn text5(a: &str, b: &str, c: &str, d: &str, e: &str) -> (r: String)
    ensures
        r@ == a@ + b@ + c@ + d@ + e@,
{
    let mut r = text3(a, b, c);
    r.append(d);
    r.append(e);
    r
}

/// The six texts in a row.
pub fn text6(a: &str, b: &str, c: &str, d: &str, e: &str, f: &str) -> (r: String)
    ensures
        r@ == a@ + b@ + c@ + d@ + e@ + f@,
{
    let mut r = text5(a, b, c, d, e);
    r.append(f);
    r
}

/// The seven texts in a row.
pub fn text7(a: &str, b: &str, c: &str, d: &str, e: &str, f: &str, g: &str) -> (r: String)
    ensures
        r@ == a@ + b@ + c@ + d@ + e@ + f@ + g@,
{
    let mut r = text5(a, b, c, d, e);
    r.append(f);
    r.append(g);
    r
}

/// The position of the first of `names` that is `name`; the number of
/// names if none is.
pub open spec fn name_pos(names: Seq<Seq<char>>, name: Seq<char>) -> int
    decreases names.len(),
{
    if names.len() == 0 {
        0
    } else if name_pos(names.drop_last(), name) < names.len() - 1 {
        name_pos(names.drop_last(), name)
    } else if names.last() == name {
        names.len() - 1
    } else {
        names.len() as int
    }
}

/// `name_pos` is the first position that holds `name`, and the number of
/// names exactly where none holds it.
pub proof fn lemma_name_pos(names: Seq<Seq<char>>, name: Seq<char>)
    ensures
        0 <= name_pos(names, name) <= names.len(),
        forall|j: int| 0 <= j < name_pos(names, name) ==> names[j] != name,
        name_pos(names, name) < names.len() ==> names[name_pos(names, name)] == name,
        names.contains(name) <==> name_pos(names, name) < names.len(),
    decreases names.len(),
{
    if names.len() > 0 {
        let head = names.drop_last();
        lemma_name_pos(head, name);
        assert forall|j: int| 0 <= j < name_pos(names, name) implies names[j] != name by {
            if j < head.len() {
                assert(names[j] == head[j]);
            }
        }
        if name_pos(head, name) < head.len() {
            assert(names[name_pos(head, name)] == head[name_pos(head, name)]);
        }
        if names.contains(name) {
            let k = choose|k: int| 0 <= k < names.len() && names[k] == name;
            if k >= name_pos(names, name) {
            } else {
                assert(names[k] != name);
            }
        }
    }
}

/// The position of the first of `names` that is `name`; the number of
/// names if none is.
pub fn find_name(names: &Vec<String>, name: &str) -> (p: usize)
    ensures
        p == name_pos(names.deep_view(), name@),
        p <= names.len(),
        p < names.len() <==> names.deep_view().contains(name@),
{
    proof {
        lemma_name_pos(names.deep_view(), name@);
    }
    let mut i: usize = 0;
    while i < names.len()
        invariant
            i <= names.len(),
            i <= name_pos(names.deep_view(), name@) <= names.len(),
        decreases names.len() - i,
    {
        proof {
            lemma_name_pos(names.deep_view(), name@);
        }
        if same_text(names[i].as_str(), name) {
            assert(names.deep_view()[i as int] == name@);
            return i;
        }
        i += 1;
    }
    i
}

/// A list of texts with nothing in it.
pub fn no_texts() -> (list: Vec<String>)
    ensures
        list.deep_view() == Seq::<Seq<char>>::empty(),
{
    let list: Vec<String> = Vec::new();
    list
}

/// Puts `text` at the end of `list`.
pub fn push_text(list: &mut Vec<String>, text: &str)
    ensures
        final(list).deep_view() == old(list).deep_view().push(text@),
{
    list.push(text.to_owned());
}

/// Puts the texts of `more` at the end of `list`, in their order.
pub fn push_texts(list: &mut Vec<String>, more: &Vec<String>)
    ensures
        final(list).deep_view() == old(list).deep_view() + more.deep_view(),
{
    let mut i: usize = 0;
    while i < more.len()
        invariant
            i <= more.len(),
            list.deep_view() == old(list).deep_view() + more.deep_view().take(i as int),
        decreases more.len() - i,
    {
        push_text(list, more[i].as_str());
        i += 1;
    }
}

} // verus!
