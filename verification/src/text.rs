//! Character-sequence helpers used by the rule, parsing and rendering logic.

use vstd::prelude::*;

verus! {

/// `p` is a prefix of `s`.
pub open spec fn is_prefix(p: Seq<char>, s: Seq<char>) -> bool {
    p.len() <= s.len() && s.subrange(0, p.len() as int) == p
}

/// `p` is a suffix of `s`.
pub open spec fn is_suffix(p: Seq<char>, s: Seq<char>) -> bool {
    p.len() <= s.len() && s.subrange(s.len() - p.len(), s.len() as int) == p
}

/// `needle` occurs in `s` starting at position `i`.
pub open spec fn occurs_at(s: Seq<char>, needle: Seq<char>, i: int) -> bool {
    0 <= i && i + needle.len() <= s.len() && s.subrange(i, i + needle.len()) == needle
}

/// `needle` occurs somewhere in `s`.
pub open spec fn contains_seq(s: Seq<char>, needle: Seq<char>) -> bool {
    exists|i: int| occurs_at(s, needle, i)
}

/// Copies the characters of a string slice into a vector.
pub fn chars_of(s: &str) -> (v: Vec<char>)
    ensures
        v@ == s@,
{
    let n = s.unicode_len();
    let mut v: Vec<char> = Vec::new();
    let mut i: usize = 0;
    while i < n
        invariant
            n == s@.len(),
            i <= n,
            v@ == s@.subrange(0, i as int),
        decreases n - i,
    {
        let c = s.get_char(i);
        v.push(c);
        i = i + 1;
    }
    v
}

/// Builds an owned string from a string slice.
pub fn owned(s: &str) -> (r: String)
    ensures
        r@ == s@,
{
    s.to_owned()
}

/// Character-wise equality of two string slices.
pub fn str_eq(a: &str, b: &str) -> (r: bool)
    ensures
        r == (a@ == b@),
{
    let x = a.to_owned();
    let y = b.to_owned();
    x == y
}

/// Whether `s` begins with `p`.
pub fn starts_with(s: &str, p: &str) -> (r: bool)
    ensures
        r == is_prefix(p@, s@),
{
    let sv = chars_of(s);
    let pv = chars_of(p);
    if pv.len() > sv.len() {
        return false;
    }
    let mut i: usize = 0;
    while i < pv.len()
        invariant
            sv@ == s@,
            pv@ == p@,
            pv@.len() <= sv@.len(),
            i <= pv@.len(),
            forall|k: int| 0 <= k < i ==> sv@[k] == pv@[k],
        decreases pv.len() - i,
    {
        if sv[i] != pv[i] {
            assert(sv@.subrange(0, pv@.len() as int)[i as int] != pv@[i as int]);
            return false;
        }
        i = i + 1;
    }
    assert(sv@.subrange(0, pv@.len() as int) =~= pv@);
    true
}

/// Whether `s` ends with `p`.
pub fn ends_with(s: &str, p: &str) -> (r: bool)
    ensures
        r == is_suffix(p@, s@),
{
    let sv = chars_of(s);
    let pv = chars_of(p);
    if pv.len() > sv.len() {
        return false;
    }
    let off = sv.len() - pv.len();
    let mut i: usize = 0;
    while i < pv.len()
        invariant
            sv@ == s@,
            pv@ == p@,
            pv@.len() <= sv@.len(),
            off == sv@.len() - pv@.len(),
            sv@.len() == sv.len(),
            i <= pv@.len(),
            forall|k: int| 0 <= k < i ==> sv@[off + k] == pv@[k],
        decreases pv.len() - i,
    {
        let j = off + i;
        if sv[j] != pv[i] {
            assert(sv@.subrange(off as int, sv@.len() as int)[i as int] != pv@[i as int]);
            return false;
        }
        i = i + 1;
    }
    assert(sv@.subrange(off as int, sv@.len() as int) =~= pv@);
    true
}

/// Whether `needle` occurs at position `i` of `s`, on character vectors.
fn occurs_at_vec(s: &Vec<char>, needle: &Vec<char>, i: usize) -> (r: bool)
    requires
        i + needle@.len() <= s@.len(),
    ensures
        r == occurs_at(s@, needle@, i as int),
{
    let mut k: usize = 0;
    while k < needle.len()
        invariant
            i + needle@.len() <= s@.len(),
            k <= needle@.len(),
            s@.len() == s.len(),
            forall|j: int| 0 <= j < k ==> s@[i + j] == needle@[j],
        decreases needle.len() - k,
    {
        let j = i + k;
        if s[j] != needle[k] {
            assert(s@.subrange(i as int, i + needle@.len())[k as int] != needle@[k as int]);
            return false;
        }
        k = k + 1;
    }
    assert(s@.subrange(i as int, i + needle@.len()) =~= needle@);
    true
}

/// Whether `needle` occurs anywhere in `s`.
pub fn contains(s: &str, needle: &str) -> (r: bool)
    ensures
        r == contains_seq(s@, needle@),
{
    let sv = chars_of(s);
    let nv = chars_of(needle);
    contains_chars(&sv, &nv)
}

/// Whether the characters `nv` occur anywhere in `sv`.
pub fn contains_chars(sv: &Vec<char>, nv: &Vec<char>) -> (r: bool)
    ensures
        r == contains_seq(sv@, nv@),
{
    if nv.len() > sv.len() {
        assert forall|i: int| !occurs_at(sv@, nv@, i) by {}
        return false;
    }
    let last = sv.len() - nv.len();
    let mut i: usize = 0;
    loop
        invariant
            nv@.len() <= sv@.len(),
            last == sv@.len() - nv@.len(),
            i <= last,
            forall|j: int| 0 <= j < i ==> !occurs_at(sv@, nv@, j),
        decreases last - i,
    {
        if occurs_at_vec(sv, nv, i) {
            return true;
        }
        if i == last {
            assert forall|j: int| !occurs_at(sv@, nv@, j) by {
                if 0 <= j <= i {
                }
            }
            return false;
        }
        i = i + 1;
    }
}

/// ASCII letters in lower case, other characters as they are.
pub open spec fn ascii_lower(s: Seq<char>) -> Seq<char> {
    s.map_values(|c: char| lower_char(c))
}

/// An ASCII letter in lower case; any other character as it is.
pub open spec fn lower_char(c: char) -> char {
    if 'A' <= c && c <= 'Z' { (((c as u8) + 32) as u8) as char } else { c }
}

/// The characters of `s` with ASCII letters in lower case.
pub fn ascii_lower_chars(s: &str) -> (v: Vec<char>)
    ensures
        v@ == ascii_lower(s@),
{
    let n = s.unicode_len();
    let mut v: Vec<char> = Vec::new();
    let mut i: usize = 0;
    while i < n
        invariant
            n == s@.len(),
            i <= n,
            v@ == ascii_lower(s@.subrange(0, i as int)),
        decreases n - i,
    {
        let c = s.get_char(i);
        let lc = if 'A' <= c && c <= 'Z' { ((c as u8) + 32) as char } else { c };
        let ghost before = v@;
        v.push(lc);
        proof {
            assert(ascii_lower(s@.subrange(0, i + 1)) =~= ascii_lower(s@.subrange(0, i as int)).push(lc));
        }
        i = i + 1;
    }
    proof {
        assert(s@.subrange(0, n as int) =~= s@);
    }
    v
}

/// Appends `b` to a copy of `a`.
pub fn concat(a: &str, b: &str) -> (r: String)
    ensures
        r@ == a@ + b@,
{
    let mut r = a.to_owned();
    r.append(b);
    r
}

} // verus!

verus! {

/// Views of a sequence of owned strings.
pub open spec fn views(v: Seq<String>) -> Seq<Seq<char>> {
    v.map_values(|s: String| s@)
}

/// Views of a sequence of string slices.
pub open spec fn str_views(v: Seq<&str>) -> Seq<Seq<char>> {
    v.map_values(|s: &str| s@)
}

/// Lexicographic order on character sequences, by code point; a proper
/// prefix comes first.  This is the order of `str` comparison in Rust.
pub open spec fn seq_lt(a: Seq<char>, b: Seq<char>) -> bool
    decreases a.len(),
{
    if a.len() == 0 {
        b.len() > 0
    } else if b.len() == 0 {
        false
    } else if (a[0] as int) < (b[0] as int) {
        true
    } else if a[0] == b[0] {
        seq_lt(a.drop_first(), b.drop_first())
    } else {
        false
    }
}

/// The sequence is strictly increasing in lexicographic order.
pub open spec fn strictly_sorted(s: Seq<Seq<char>>) -> bool {
    forall|i: int, j: int| 0 <= i < j < s.len() ==> seq_lt(s[i], s[j])
}

pub proof fn lemma_seq_lt_irreflexive(a: Seq<char>)
    ensures
        !seq_lt(a, a),
    decreases a.len(),
{
    if a.len() > 0 {
        lemma_seq_lt_irreflexive(a.drop_first());
    }
}

pub proof fn lemma_seq_lt_transitive(a: Seq<char>, b: Seq<char>, c: Seq<char>)
    requires
        seq_lt(a, b),
        seq_lt(b, c),
    ensures
        seq_lt(a, c),
    decreases a.len(),
{
    if a.len() > 0 && b.len() > 0 && c.len() > 0 {
        if a[0] == b[0] && b[0] == c[0] {
            lemma_seq_lt_transitive(a.drop_first(), b.drop_first(), c.drop_first());
        }
    }
}

pub proof fn lemma_seq_lt_total(a: Seq<char>, b: Seq<char>)
    ensures
        a == b || seq_lt(a, b) || seq_lt(b, a),
    decreases a.len(),
{
    if a.len() > 0 && b.len() > 0 {
        if a[0] == b[0] {
            lemma_seq_lt_total(a.drop_first(), b.drop_first());
            if a.drop_first() == b.drop_first() {
                assert(a =~= seq![a[0]] + a.drop_first());
                assert(b =~= seq![b[0]] + b.drop_first());
            }
        }
    } else if a.len() == 0 && b.len() == 0 {
        assert(a =~= b);
    }
}

pub proof fn lemma_seq_lt_asymmetric(a: Seq<char>, b: Seq<char>)
    requires
        seq_lt(a, b),
    ensures
        !seq_lt(b, a),
{
    if seq_lt(b, a) {
        lemma_seq_lt_transitive(a, b, a);
        lemma_seq_lt_irreflexive(a);
    }
}

/// A strictly sorted sequence is determined by the strings it contains.
pub proof fn lemma_sorted_set_determined(a: Seq<Seq<char>>, b: Seq<Seq<char>>)
    requires
        strictly_sorted(a),
        strictly_sorted(b),
        forall|s: Seq<char>| a.contains(s) <==> b.contains(s),
    ensures
        a == b,
    decreases a.len(),
{
    if a.len() == 0 {
        if b.len() > 0 {
            assert(b.contains(b[0]));
        }
        assert(a =~= b);
    } else {
        assert(a.contains(a[0]));
        assert(b.len() > 0);
        assert(b.contains(b[0]));
        let j = choose|j: int| 0 <= j < b.len() && b[j] == a[0];
        let k = choose|k: int| 0 <= k < a.len() && a[k] == b[0];
        if j > 0 && k > 0 {
            assert(seq_lt(b[0], b[j]));
            assert(seq_lt(a[0], a[k]));
            lemma_seq_lt_asymmetric(a[0], b[0]);
        } else if j > 0 {
            assert(k == 0);
            assert(seq_lt(b[0], b[j]));
            lemma_seq_lt_irreflexive(a[0]);
        } else if k > 0 {
            assert(seq_lt(a[0], a[k]));
            lemma_seq_lt_irreflexive(a[0]);
        }
        assert(a[0] == b[0]);
        let ta = a.drop_first();
        let tb = b.drop_first();
        assert forall|s: Seq<char>| ta.contains(s) <==> tb.contains(s) by {
            if ta.contains(s) {
                let q = choose|q: int| 0 <= q < ta.len() && ta[q] == s;
                assert(a[q + 1] == s);
                assert(seq_lt(a[0], s));
                assert(a.contains(s));
                let r = choose|r: int| 0 <= r < b.len() && b[r] == s;
                if r == 0 {
                    lemma_seq_lt_irreflexive(s);
                }
                assert(tb[r - 1] == s);
            }
            if tb.contains(s) {
                let q = choose|q: int| 0 <= q < tb.len() && tb[q] == s;
                assert(b[q + 1] == s);
                assert(seq_lt(b[0], s));
                assert(b.contains(s));
                let r = choose|r: int| 0 <= r < a.len() && a[r] == s;
                if r == 0 {
                    lemma_seq_lt_irreflexive(s);
                }
                assert(ta[r - 1] == s);
            }
        }
        lemma_sorted_set_determined(ta, tb);
        assert(a =~= seq![a[0]] + ta);
        assert(b =~= seq![b[0]] + tb);
    }
}

/// Lexicographic comparison of two character vectors: -1, 0 or 1.
fn compare_chars(a: &Vec<char>, b: &Vec<char>) -> (r: i8)
    ensures
        r == 0 <==> a@ == b@,
        r < 0 <==> seq_lt(a@, b@),
        r > 0 <==> seq_lt(b@, a@),
{
    let mut i: usize = 0;
    proof {
        lemma_seq_lt_total(a@, b@);
        assert(a@.skip(0) =~= a@);
        assert(b@.skip(0) =~= b@);
    }
    while i < a.len() && i < b.len() && a[i] == b[i]
        invariant
            i <= a@.len(),
            i <= b@.len(),
            forall|k: int| 0 <= k < i ==> a@[k] == b@[k],
            seq_lt(a@, b@) == seq_lt(a@.skip(i as int), b@.skip(i as int)),
            seq_lt(b@, a@) == seq_lt(b@.skip(i as int), a@.skip(i as int)),
        decreases a.len() - i,
    {
        assert(a@.skip(i as int).drop_first() =~= a@.skip(i + 1));
        assert(b@.skip(i as int).drop_first() =~= b@.skip(i + 1));
        i = i + 1;
    }
    proof {
        lemma_seq_lt_irreflexive(a@);
        lemma_seq_lt_irreflexive(b@);
    }
    if i == a.len() && i == b.len() {
        assert(a@ =~= b@);
        0
    } else if i == a.len() {
        assert(a@.skip(i as int).len() == 0);
        -1
    } else if i == b.len() {
        assert(b@.skip(i as int).len() == 0);
        1
    } else if a[i] < b[i] {
        assert(a@.skip(i as int)[0] == a@[i as int]);
        assert(b@.skip(i as int)[0] == b@[i as int]);
        assert(a@[i as int] != b@[i as int]);
        -1
    } else {
        assert(a@.skip(i as int)[0] == a@[i as int]);
        assert(b@.skip(i as int)[0] == b@[i as int]);
        assert(a@[i as int] != b@[i as int]);
        1
    }
}

/// Lexicographic comparison of two strings: -1, 0 or 1.
pub fn compare_str(a: &str, b: &str) -> (r: i8)
    ensures
        r == 0 <==> a@ == b@,
        r < 0 <==> seq_lt(a@, b@),
        r > 0 <==> seq_lt(b@, a@),
{
    let av = chars_of(a);
    let bv = chars_of(b);
    compare_chars(&av, &bv)
}

/// Inserts `x` into a strictly sorted vector of strings, keeping it strictly
/// sorted; a string already present is not inserted again.
pub fn insert_sorted_unique(v: &mut Vec<String>, x: String)
    requires
        strictly_sorted(views(old(v)@)),
    ensures
        strictly_sorted(views(final(v)@)),
        forall|s: Seq<char>| views(final(v)@).contains(s) <==> (views(old(v)@).contains(s) || s == x@),
{
    let ghost old_views = views(v@);
    let mut i: usize = 0;
    let mut done = false;
    while i < v.len() && !done
        invariant
            v@ == old(v)@,
            old_views == views(v@),
            strictly_sorted(old_views),
            i <= v@.len(),
            forall|k: int| 0 <= k < i ==> seq_lt(old_views[k], x@),
            done ==> i < v@.len() && seq_lt(x@, old_views[i as int]),
        decreases v.len() - i + (if done { 0int } else { 1int }),
    {
        let c = compare_str(v[i].as_str(), x.as_str());
        if c == 0 {
            assert(views(v@)[i as int] == x@);
            assert(views(v@).contains(x@));
            return;
        }
        if c > 0 {
            done = true;
        } else {
            i = i + 1;
        }
    }
    let ghost pos = i as int;
    proof {
        assert forall|k: int| pos <= k < old_views.len() implies seq_lt(x@, old_views[k]) by {
            if k > pos {
                lemma_seq_lt_total(x@, old_views[pos]);
                lemma_seq_lt_transitive(x@, old_views[pos], old_views[k]);
            }
        }
    }
    v.insert(i, x);
    proof {
        let nv = views(v@);
        assert(nv =~= old_views.subrange(0, pos).push(x@) + old_views.subrange(pos, old_views.len() as int));
        assert forall|a: int, b: int| 0 <= a < b < nv.len() implies seq_lt(nv[a], nv[b]) by {
            if a < pos && b == pos {
            } else if a < pos && b > pos {
                lemma_seq_lt_transitive(nv[a], x@, nv[b]);
            } else if a == pos {
            } else {
            }
        }
        assert forall|s: Seq<char>| nv.contains(s) <==> (old_views.contains(s) || s == x@) by {
            if nv.contains(s) {
                let k = choose|k: int| 0 <= k < nv.len() && nv[k] == s;
                if k < pos {
                    assert(old_views[k] == s);
                } else if k > pos {
                    assert(old_views[k - 1] == s);
                }
            }
            if old_views.contains(s) {
                let k = choose|k: int| 0 <= k < old_views.len() && old_views[k] == s;
                if k < pos {
                    assert(nv[k] == s);
                } else {
                    assert(nv[k + 1] == s);
                }
            }
            if s == x@ {
                assert(nv[pos] == s);
            }
        }
    }
}

/// The strings of `v`, sorted and without repetition.
pub fn sorted_unique(v: Vec<String>) -> (r: Vec<String>)
    ensures
        strictly_sorted(views(r@)),
        forall|s: Seq<char>| views(r@).contains(s) <==> views(v@).contains(s),
{
    let mut r: Vec<String> = Vec::new();
    let mut i: usize = 0;
    let n = v.len();
    while i < n
        invariant
            n == v@.len(),
            i <= n,
            strictly_sorted(views(r@)),
            forall|s: Seq<char>| views(r@).contains(s) <==> views(v@.subrange(0, i as int)).contains(s),
        decreases n - i,
    {
        let x = v[i].clone();
        let ghost prev = views(r@);
        insert_sorted_unique(&mut r, x);
        proof {
            let before = views(v@.subrange(0, i as int));
            let after = views(v@.subrange(0, i + 1));
            assert(after =~= before.push(v@[i as int]@));
            assert forall|s: Seq<char>| views(r@).contains(s) <==> after.contains(s) by {
                if after.contains(s) {
                    let k = choose|k: int| 0 <= k < after.len() && after[k] == s;
                    if k < before.len() {
                        assert(before[k] == s);
                    }
                }
                if before.contains(s) {
                    let k = choose|k: int| 0 <= k < before.len() && before[k] == s;
                    assert(after[k] == s);
                }
                if s == v@[i as int]@ {
                    assert(after[i as int] == s);
                }
            }
        }
        i = i + 1;
    }
    proof {
        assert(v@.subrange(0, n as int) =~= v@);
    }
    r
}

} // verus!

verus! {

/// The character of a decimal digit.
pub open spec fn digit_char(d: int) -> char {
    if d == 0 { '0' }
    else if d == 1 { '1' }
    else if d == 2 { '2' }
    else if d == 3 { '3' }
    else if d == 4 { '4' }
    else if d == 5 { '5' }
    else if d == 6 { '6' }
    else if d == 7 { '7' }
    else if d == 8 { '8' }
    else { '9' }
}

/// Decimal notation of a natural number, without leading zeros.
pub open spec fn decimal(n: nat) -> Seq<char>
    decreases n,
{
    if n < 10 {
        seq![digit_char(n as int)]
    } else {
        decimal(n / 10).push(digit_char((n % 10) as int))
    }
}

/// Decimal notation of an integer, with a leading `-` when negative.
pub open spec fn signed_decimal(n: int) -> Seq<char> {
    if n < 0 {
        seq!['-'] + decimal((-n) as nat)
    } else {
        decimal(n as nat)
    }
}

pub fn digit_str(d: u64) -> (r: &'static str)
    requires
        d < 10,
    ensures
        r@ == seq![digit_char(d as int)],
{
    if d == 0 {
        proof { reveal_strlit("0"); }
        "0"
    } else if d == 1 {
        proof { reveal_strlit("1"); }
        "1"
    } else if d == 2 {
        proof { reveal_strlit("2"); }
        "2"
    } else if d == 3 {
        proof { reveal_strlit("3"); }
        "3"
    } else if d == 4 {
        proof { reveal_strlit("4"); }
        "4"
    } else if d == 5 {
        proof { reveal_strlit("5"); }
        "5"
    } else if d == 6 {
        proof { reveal_strlit("6"); }
        "6"
    } else if d == 7 {
        proof { reveal_strlit("7"); }
        "7"
    } else if d == 8 {
        proof { reveal_strlit("8"); }
        "8"
    } else {
        proof { reveal_strlit("9"); }
        "9"
    }
}

/// Decimal notation of `n`.
pub fn decimal_string(n: u64) -> (s: String)
    ensures
        s@ == decimal(n as nat),
    decreases n,
{
    if n < 10 {
        owned(digit_str(n))
    } else {
        let mut s = decimal_string(n / 10);
        s.append(digit_str(n % 10));
        s
    }
}

/// Decimal notation of a signed 32-bit integer.
pub fn signed_decimal_string(n: i32) -> (s: String)
    ensures
        s@ == signed_decimal(n as int),
{
    if n < 0 {
        let magnitude: u64 = (0i64 - (n as i64)) as u64;
        let digits = decimal_string(magnitude);
        proof { reveal_strlit("-"); }
        concat("-", digits.as_str())
    } else {
        decimal_string(n as u64)
    }
}

/// The items joined with `sep` between consecutive items.
pub open spec fn join_seq(items: Seq<Seq<char>>, sep: Seq<char>) -> Seq<char>
    decreases items.len(),
{
    if items.len() == 0 {
        Seq::empty()
    } else if items.len() == 1 {
        items[0]
    } else {
        join_seq(items.drop_last(), sep) + sep + items.last()
    }
}

/// Joins the strings of `items` with `sep`.
pub fn join(items: &Vec<String>, sep: &str) -> (r: String)
    ensures
        r@ == join_seq(views(items@), sep@),
{
    let mut r = String::new();
    let mut i: usize = 0;
    while i < items.len()
        invariant
            i <= items@.len(),
            r@ == join_seq(views(items@).subrange(0, i as int), sep@),
        decreases items.len() - i,
    {
        proof {
            let pre = views(items@).subrange(0, i as int);
            let post = views(items@).subrange(0, i + 1);
            assert(post.drop_last() =~= pre);
        }
        if i > 0 {
            r.append(sep);
        }
        r.append(items[i].as_str());
        i = i + 1;
    }
    proof {
        assert(views(items@).subrange(0, items@.len() as int) =~= views(items@));
    }
    r
}

/// The first `n` characters of `s` (all of them when `s` is shorter).
pub fn take_chars(s: &str, n: usize) -> (r: String)
    ensures
        r@ == s@.subrange(0, if n < s@.len() { n as int } else { s@.len() as int }),
{
    let len = s.unicode_len();
    let end = if n < len { n } else { len };
    let sub = s.substring_char(0, end);
    sub.to_owned()
}


/// Owned copies of string slices, in order.
pub fn owned_all(v: &Vec<&str>) -> (r: Vec<String>)
    ensures
        views(r@) == str_views(v@),
{
    let mut r: Vec<String> = Vec::new();
    let mut i: usize = 0;
    while i < v.len()
        invariant
            i <= v@.len(),
            r@.len() == i,
            views(r@) == str_views(v@).subrange(0, i as int),
        decreases v.len() - i,
    {
        let ghost prev = r@;
        r.push(owned(v[i]));
        proof {
            assert(r@ == prev.push(r@[i as int]));
            assert(views(r@) =~= views(prev).push(v@[i as int]@));
            assert(views(r@) =~= str_views(v@).subrange(0, i + 1));
        }
        i = i + 1;
    }
    proof {
        assert(str_views(v@).subrange(0, v@.len() as int) =~= str_views(v@));
    }
    r
}

/// A copy of a list of strings, in order.
pub fn copy_all(v: &Vec<String>) -> (r: Vec<String>)
    ensures
        views(r@) == views(v@),
{
    let mut r: Vec<String> = Vec::new();
    let mut i: usize = 0;
    while i < v.len()
        invariant
            i <= v@.len(),
            r@.len() == i,
            views(r@) == views(v@).subrange(0, i as int),
        decreases v.len() - i,
    {
        let ghost prev = r@;
        r.push(owned(v[i].as_str()));
        proof {
            assert(r@ == prev.push(r@[i as int]));
            assert(views(r@) =~= views(prev).push(v@[i as int]@));
            assert(views(r@) =~= views(v@).subrange(0, i + 1));
        }
        i = i + 1;
    }
    proof {
        assert(views(v@).subrange(0, v@.len() as int) =~= views(v@));
    }
    r
}

/// Appends copies of the strings of `extra` to `v`.
pub fn extend_all(v: &mut Vec<String>, extra: &Vec<String>)
    ensures
        views(final(v)@) == views(old(v)@) + views(extra@),
{
    let ghost start = views(v@);
    let mut i: usize = 0;
    while i < extra.len()
        invariant
            i <= extra@.len(),
            views(v@) == start + views(extra@).subrange(0, i as int),
        decreases extra.len() - i,
    {
        let ghost prev = v@;
        v.push(owned(extra[i].as_str()));
        proof {
            assert(v@ == prev.push(v@[prev.len() as int]));
            assert(views(v@) =~= views(prev).push(extra@[i as int]@));
            assert(views(v@) =~= start + views(extra@).subrange(0, i + 1));
        }
        i = i + 1;
    }
    proof {
        assert(views(extra@).subrange(0, extra@.len() as int) =~= views(extra@));
    }
}


/// A list holding one owned copy of `s`.
pub fn single(s: &str) -> (r: Vec<String>)
    ensures
        views(r@) == seq![s@],
{
    let r = vec![owned(s)];
    assert(views(r@) =~= seq![s@]);
    r
}

/// An empty list of strings.
pub fn no_strings() -> (r: Vec<String>)
    ensures
        views(r@) == Seq::<Seq<char>>::empty(),
        r@.len() == 0,
{
    let r: Vec<String> = Vec::new();
    assert(views(r@) =~= Seq::<Seq<char>>::empty());
    r
}


/// A list of one string slice.
pub fn strs1<'a>(a: &'a str) -> (r: Vec<&'a str>)
    ensures
        str_views(r@) == seq![a@],
{
    let r = vec![a];
    assert(str_views(r@) =~= seq![a@]);
    r
}

/// A list of two string slices.
pub fn strs2<'a>(a: &'a str, b: &'a str) -> (r: Vec<&'a str>)
    ensures
        str_views(r@) == seq![a@, b@],
{
    let r = vec![a, b];
    assert(str_views(r@) =~= seq![a@, b@]);
    r
}

/// A list of three string slices.
pub fn strs3<'a>(a: &'a str, b: &'a str, c: &'a str) -> (r: Vec<&'a str>)
    ensures
        str_views(r@) == seq![a@, b@, c@],
{
    let r = vec![a, b, c];
    assert(str_views(r@) =~= seq![a@, b@, c@]);
    r
}


/// A list of four string slices.
pub fn strs4<'a>(a: &'a str, b: &'a str, c: &'a str, d: &'a str) -> (r: Vec<&'a str>)
    ensures
        str_views(r@) == seq![a@, b@, c@, d@],
{
    let r = vec![a, b, c, d];
    assert(str_views(r@) =~= seq![a@, b@, c@, d@]);
    r
}



/// What a sequence contains after a push.
pub proof fn lemma_push_contains<T>(s: Seq<T>, x: T, y: T)
    ensures
        s.push(x).contains(y) <==> (s.contains(y) || x == y),
{
    if s.push(x).contains(y) {
        let k = choose|k: int| 0 <= k < s.push(x).len() && s.push(x)[k] == y;
        if k < s.len() {
            assert(s[k] == y);
        }
    }
    if s.contains(y) {
        let k = choose|k: int| 0 <= k < s.len() && s[k] == y;
        assert(s.push(x)[k] == y);
    }
    if x == y {
        assert(s.push(x)[s.len() as int] == y);
    }
}


/// What a concatenation contains.
pub proof fn lemma_concat_contains<T>(a: Seq<T>, b: Seq<T>, x: T)
    ensures
        (a + b).contains(x) <==> (a.contains(x) || b.contains(x)),
{
    if (a + b).contains(x) {
        let k = choose|k: int| 0 <= k < (a + b).len() && (a + b)[k] == x;
        if k < a.len() {
            assert(a[k] == x);
        } else {
            assert(b[k - a.len()] == x);
        }
    }
    if a.contains(x) {
        let k = choose|k: int| 0 <= k < a.len() && a[k] == x;
        assert((a + b)[k] == x);
    }
    if b.contains(x) {
        let k = choose|k: int| 0 <= k < b.len() && b[k] == x;
        assert((a + b)[a.len() + k] == x);
    }
}

} // verus!
