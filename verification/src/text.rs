//! Text helpers shared by the configuration, logging and stage modules:
//! joining, searching, line splitting and decimal rendering, each with a
//! specification over `Seq<char>`.
use vstd::prelude::*;

verus! {

/// `parts` joined with `sep` between consecutive parts (no leading or
/// trailing separator).
pub open spec fn join(parts: Seq<Seq<char>>, sep: Seq<char>) -> Seq<char>
    decreases parts.len(),
{
    if parts.len() == 0 {
        Seq::empty()
    } else if parts.len() == 1 {
        parts[0]
    } else {
        join(parts.drop_last(), sep) + sep + parts.last()
    }
}

/// Every part followed by `term`, concatenated.
pub open spec fn terminated(parts: Seq<Seq<char>>, term: Seq<char>) -> Seq<char>
    decreases parts.len(),
{
    if parts.len() == 0 {
        Seq::empty()
    } else {
        terminated(parts.drop_last(), term) + parts.last() + term
    }
}

/// `s` cut at every `c`: the pieces between the separators, in order, as
/// `str::split` gives them (an empty text gives one empty piece).
pub open spec fn split_on(s: Seq<char>, c: char) -> Seq<Seq<char>>
    decreases s.len(),
{
    if s.len() == 0 {
        seq![Seq::empty()]
    } else {
        let rest = split_on(s.drop_last(), c);
        if s.last() == c {
            rest.push(Seq::empty())
        } else {
            rest.update(rest.len() - 1, rest.last().push(s.last()))
        }
    }
}

/// Splitting always gives at least one piece.
pub proof fn lemma_split_on_nonempty(s: Seq<char>, c: char)
    ensures
        split_on(s, c).len() >= 1,
    decreases s.len(),
{
    if s.len() > 0 {
        lemma_split_on_nonempty(s.drop_last(), c);
    }
}

/// Appending text without the separator extends the last piece.
pub proof fn lemma_split_on_append_piece(a: Seq<char>, w: Seq<char>, c: char)
    requires
        !w.contains(c),
    ensures
        split_on(a + w, c) == split_on(a, c).update(
            split_on(a, c).len() - 1,
            split_on(a, c).last() + w,
        ),
    decreases w.len(),
{
    lemma_split_on_nonempty(a, c);
    let sa = split_on(a, c);
    if w.len() == 0 {
        assert(a + w =~= a);
        assert(sa.last() + w =~= sa.last());
        assert(sa.update(sa.len() - 1, sa.last()) =~= sa);
    } else {
        let w0 = w.drop_last();
        assert(!w0.contains(c)) by {
            if w0.contains(c) {
                let k = choose|k: int| 0 <= k < w0.len() && w0[k] == c;
                assert(w[k] == c);
            }
        }
        lemma_split_on_append_piece(a, w0, c);
        assert((a + w).drop_last() =~= a + w0);
        assert((a + w).last() == w.last());
        assert(w.last() != c) by {
            assert(w[w.len() - 1] == w.last());
        }
        let r = split_on(a + w0, c);
        assert(r.last() == sa.last() + w0);
        assert((sa.last() + w0).push(w.last()) =~= sa.last() + w);
        assert(r.update(r.len() - 1, r.last().push(w.last())) =~= sa.update(sa.len() - 1, sa.last() + w));
    }
}

/// Splitting parts that each end with `c`, none holding `c` otherwise,
/// gives the parts back, followed by the empty piece after the last `c`.
pub proof fn lemma_split_on_terminated(parts: Seq<Seq<char>>, c: char)
    requires
        forall|i: int| 0 <= i < parts.len() ==> !(#[trigger] parts[i]).contains(c),
    ensures
        split_on(terminated(parts, seq![c]), c) == parts.push(Seq::empty()),
    decreases parts.len(),
{
    if parts.len() == 0 {
        assert(split_on(terminated(parts, seq![c]), c) =~= parts.push(Seq::empty()));
    } else {
        let init = parts.drop_last();
        let last = parts.last();
        assert forall|i: int| 0 <= i < init.len() implies !(#[trigger] init[i]).contains(c) by {
            assert(init[i] == parts[i]);
        }
        lemma_split_on_terminated(init, c);
        let t0 = terminated(init, seq![c]);
        assert(!last.contains(c)) by {
            assert(parts[parts.len() - 1] == last);
        }
        lemma_split_on_append_piece(t0, last, c);
        let s1 = split_on(t0 + last, c);
        assert(Seq::<char>::empty() + last =~= last);
        assert(s1 =~= parts);
        let t = terminated(parts, seq![c]);
        assert(t =~= (t0 + last).push(c));
        assert(t.drop_last() =~= t0 + last);
    }
}

/// `needle` occurs in `hay` at position `i`.
pub open spec fn occurs_at(hay: Seq<char>, needle: Seq<char>, i: int) -> bool {
    0 <= i && i + needle.len() <= hay.len() && hay.subrange(i, i + needle.len()) == needle
}

/// `needle` occurs somewhere in `hay`.
pub open spec fn has_substring(hay: Seq<char>, needle: Seq<char>) -> bool {
    exists|i: int| occurs_at(hay, needle, i)
}

/// `s` starts with `prefix`.
pub open spec fn starts_with(s: Seq<char>, prefix: Seq<char>) -> bool {
    prefix.len() <= s.len() && s.subrange(0, prefix.len() as int) == prefix
}

/// `s` ends with `suffix`.
pub open spec fn ends_with(s: Seq<char>, suffix: Seq<char>) -> bool {
    suffix.len() <= s.len() && s.subrange(s.len() - suffix.len(), s.len() as int) == suffix
}

/// Strict lexicographic order on character sequences (by code point, which
/// is also the order of their UTF-8 encodings).
pub open spec fn lex_lt(a: Seq<char>, b: Seq<char>) -> bool
    decreases a.len(),
{
    if b.len() == 0 {
        false
    } else if a.len() == 0 {
        true
    } else if a[0] < b[0] {
        true
    } else if a[0] == b[0] {
        lex_lt(a.drop_first(), b.drop_first())
    } else {
        false
    }
}

/// `lex_lt` is irreflexive.
pub proof fn lemma_lex_lt_irreflexive(a: Seq<char>)
    ensures
        !lex_lt(a, a),
    decreases a.len(),
{
    if a.len() > 0 {
        lemma_lex_lt_irreflexive(a.drop_first());
    }
}

/// `lex_lt` is transitive.
pub proof fn lemma_lex_lt_transitive(a: Seq<char>, b: Seq<char>, c: Seq<char>)
    requires
        lex_lt(a, b),
        lex_lt(b, c),
    ensures
        lex_lt(a, c),
    decreases a.len(),
{
    if a.len() > 0 && b.len() > 0 && c.len() > 0 && a[0] == b[0] && b[0] == c[0] {
        lemma_lex_lt_transitive(a.drop_first(), b.drop_first(), c.drop_first());
    }
}

/// `lex_lt` is total: of two different sequences one comes first.
pub proof fn lemma_lex_lt_total(a: Seq<char>, b: Seq<char>)
    requires
        a != b,
    ensures
        lex_lt(a, b) || lex_lt(b, a),
    decreases a.len(),
{
    if a.len() > 0 && b.len() > 0 && a[0] == b[0] {
        if a.drop_first() == b.drop_first() {
            assert(a =~= seq![a[0]] + a.drop_first());
            assert(b =~= seq![b[0]] + b.drop_first());
        }
        lemma_lex_lt_total(a.drop_first(), b.drop_first());
    } else if a.len() == 0 && b.len() == 0 {
        assert(a =~= b);
    }
}

/// The position of the last `c` in `s`, if any.
pub open spec fn last_index_of(s: Seq<char>, c: char) -> Option<int>
    decreases s.len(),
{
    if s.len() == 0 {
        None
    } else if s.last() == c {
        Some(s.len() - 1)
    } else {
        last_index_of(s.drop_last(), c)
    }
}

/// In `prefix + c + rest` with no `c` in `rest`, the last `c` is the one
/// before `rest`, and `rest` is what follows it.
pub proof fn lemma_after_last(prefix: Seq<char>, c: char, rest: Seq<char>)
    requires
        !rest.contains(c),
    ensures
        last_index_of(prefix + seq![c] + rest, c) == Some(prefix.len() as int),
        after_last(prefix + seq![c] + rest, c) == rest,
    decreases rest.len(),
{
    let s = prefix + seq![c] + rest;
    if rest.len() > 0 {
        assert(s.last() == rest[rest.len() - 1]);
        assert(s.drop_last() =~= prefix + seq![c] + rest.drop_last());
        assert(!rest.drop_last().contains(c)) by {
            if rest.drop_last().contains(c) {
                let k = choose|k: int| 0 <= k < rest.drop_last().len() && rest.drop_last()[k] == c;
                assert(rest[k] == c);
            }
        }
        lemma_after_last(prefix, c, rest.drop_last());
    }
    assert(s.subrange(prefix.len() as int + 1, s.len() as int) =~= rest);
}

/// What follows the last `c` in `s`; all of `s` when `c` does not occur.
pub open spec fn after_last(s: Seq<char>, c: char) -> Seq<char> {
    match last_index_of(s, c) {
        Some(i) => s.subrange(i + 1, s.len() as int),
        None => s,
    }
}

/// The decimal digit character for `d < 10`.
pub open spec fn digit_char(d: nat) -> char {
    if d == 0 { '0' }
    else if d == 1 { '1' }
    else if d == 2 { '2' }
    else if d == 3 { '3' }
    else if d == 4 { '4' }
    else if d == 5 { '5' }
    else if d == 6 { '6' }
    else if d == 7 { '7' }
    else if d == 8 { '8' }
    else { '9' }
}

/// The decimal rendering of `n`, without leading zeros.
pub open spec fn decimal(n: nat) -> Seq<char>
    decreases n,
{
    if n < 10 {
        seq![digit_char(n)]
    } else {
        decimal(n / 10).push(digit_char(n % 10))
    }
}

/// The view of an optional text.
pub open spec fn opt_view(o: Option<String>) -> Option<Seq<char>> {
    match o {
        Some(s) => Some(s@),
        None => None,
    }
}

/// A copy of a list of strings.
pub fn copy_strings(v: &Vec<String>) -> (r: Vec<String>)
    ensures
        r.deep_view() == v.deep_view(),
{
    let mut r: Vec<String> = Vec::new();
    let mut i: usize = 0;
    while i < v.len()
        invariant
            i <= v.len(),
            r.deep_view() == v.deep_view().take(i as int),
        decreases v.len() - i,
    {
        let ghost before = r.deep_view();
        let item = v[i].clone();
        r.push(item);
        assert(r.deep_view() =~= before.push(v.deep_view()[i as int]));
        assert(v.deep_view().take(i + 1) =~= v.deep_view().take(i as int).push(v.deep_view()[i as int]));
        i = i + 1;
    }
    assert(v.deep_view().take(i as int) =~= v.deep_view());
    r
}

/// A copy of an optional string.
pub fn copy_opt(o: &Option<String>) -> (r: Option<String>)
    ensures
        opt_view(r) == opt_view(*o),
{
    match o {
        Some(s) => Some(s.clone()),
        None => None,
    }
}

/// Appends one character to a string.
///
/// Trusted: calls `String::push`, which std documents as appending the
/// given char to the end of the string.
#[verifier::external_body]
pub(crate) fn push_char(s: &mut String, c: char)
    ensures
        final(s)@ == old(s)@.push(c),
{
    s.push(c);
}

/// A fresh `String` holding the text of `s`.
pub fn owned(s: &str) -> (r: String)
    ensures
        r@ == s@,
{
    String::from_str(s)
}

/// `a` followed by `b`.
pub fn cat(a: &str, b: &str) -> (r: String)
    ensures
        r@ == a@ + b@,
{
    let r = String::from_str(a);
    r.concat(b)
}

/// `a`, `b` and `c`, in that order.
pub fn cat3(a: &str, b: &str, c: &str) -> (r: String)
    ensures
        r@ == a@ + b@ + c@,
{
    let r = String::from_str(a);
    let r = r.concat(b);
    r.concat(c)
}

/// The characters of `s`, in order.
pub fn to_chars(s: &str) -> (r: Vec<char>)
    ensures
        r@ == s@,
{
    let mut r: Vec<char> = Vec::new();
    for c in it: s.chars()
        invariant
            r@ == it.seq().take(it.index() as int),
            it.seq() == s@,
    {
        r.push(c);
    }
    r
}

/// The string made of `cs[from..to]`.
pub fn from_chars(cs: &Vec<char>, from: usize, to: usize) -> (r: String)
    requires
        from <= to <= cs.len(),
    ensures
        r@ == cs@.subrange(from as int, to as int),
{
    let mut r = String::new();
    let mut i = from;
    while i < to
        invariant
            from <= i <= to <= cs.len(),
            r@ == cs@.subrange(from as int, i as int),
        decreases to - i,
    {
        push_char(&mut r, cs[i]);
        i = i + 1;
        assert(r@ =~= cs@.subrange(from as int, i as int));
    }
    r
}

/// `parts` joined with `sep` in between.
pub fn join_strings(parts: &Vec<String>, sep: &str) -> (r: String)
    ensures
        r@ == join(parts.deep_view(), sep@),
{
    let ghost views = parts.deep_view();
    let mut r = String::new();
    let mut i: usize = 0;
    while i < parts.len()
        invariant
            i <= parts.len(),
            views == parts.deep_view(),
            r@ == join(views.take(i as int), sep@),
        decreases parts.len() - i,
    {
        if i > 0 {
            r.append(sep);
        }
        r.append(parts[i].as_str());
        assert(views.take(i + 1).drop_last() =~= views.take(i as int));
        i = i + 1;
    }
    assert(views.take(i as int) =~= views);
    r
}

/// Does `hay` contain `needle`?
pub fn contains(hay: &str, needle: &str) -> (r: bool)
    ensures
        r == has_substring(hay@, needle@),
{
    let h = to_chars(hay);
    let n = to_chars(needle);
    if n.len() > h.len() {
        return false;
    }
    let last = h.len() - n.len();
    let mut i: usize = 0;
    loop
        invariant
            i <= last,
            last + n.len() == h.len(),
            h@ == hay@,
            n@ == needle@,
            forall|k: int| 0 <= k < i ==> !occurs_at(hay@, needle@, k),
        decreases last - i,
    {
        if matches_at(&h, &n, i) {
            assert(occurs_at(hay@, needle@, i as int));
            return true;
        }
        if i == last {
            assert forall|k: int| !occurs_at(hay@, needle@, k) by {
                if 0 <= k && k + needle@.len() <= hay@.len() {
                    assert(k <= i);
                }
            }
            return false;
        }
        i = i + 1;
    }
}

/// Does `n` occur in `h` at position `at`?
fn matches_at(h: &Vec<char>, n: &Vec<char>, at: usize) -> (r: bool)
    requires
        at + n.len() <= h.len(),
    ensures
        r == (h@.subrange(at as int, at + n.len()) == n@),
{
    let mut j: usize = 0;
    while j < n.len()
        invariant
            at + n.len() <= h.len(),
            j <= n.len(),
            forall|k: int| 0 <= k < j ==> h@[at + k] == n@[k],
        decreases n.len() - j,
    {
        if h[at + j] != n[j] {
            assert(h@.subrange(at as int, at + n.len())[j as int] != n@[j as int]);
            return false;
        }
        j = j + 1;
    }
    assert(h@.subrange(at as int, at + n.len()) =~= n@);
    true
}

/// Does `s` start with `prefix`?
pub fn has_prefix(s: &str, prefix: &str) -> (r: bool)
    ensures
        r == starts_with(s@, prefix@),
{
    let h = to_chars(s);
    let p = to_chars(prefix);
    if p.len() > h.len() {
        return false;
    }
    matches_at(&h, &p, 0)
}

/// Does `s` end with `suffix`?
pub fn has_suffix(s: &str, suffix: &str) -> (r: bool)
    ensures
        r == ends_with(s@, suffix@),
{
    let h = to_chars(s);
    let p = to_chars(suffix);
    if p.len() > h.len() {
        return false;
    }
    matches_at(&h, &p, h.len() - p.len())
}

/// Is `a` strictly before `b` in lexicographic order?
pub fn less_than(a: &str, b: &str) -> (r: bool)
    ensures
        r == lex_lt(a@, b@),
{
    let x = to_chars(a);
    let y = to_chars(b);
    let mut i: usize = 0;
    assert(x@.skip(0) =~= x@);
    assert(y@.skip(0) =~= y@);
    while i < x.len() && i < y.len()
        invariant
            x@ == a@,
            y@ == b@,
            i <= x.len(),
            i <= y.len(),
            x@.take(i as int) == y@.take(i as int),
            lex_lt(a@, b@) == lex_lt(x@.skip(i as int), y@.skip(i as int)),
        decreases x.len() - i,
    {
        let c = x[i];
        let d = y[i];
        if c < d {
            return true;
        }
        if c != d {
            return false;
        }
        assert(x@.skip(i as int).drop_first() =~= x@.skip(i + 1));
        assert(y@.skip(i as int).drop_first() =~= y@.skip(i + 1));
        assert(x@.take(i + 1) =~= x@.take(i as int).push(c));
        assert(y@.take(i + 1) =~= y@.take(i as int).push(d));
        i = i + 1;
    }
    i < y.len()
}

/// The text after the last `/` of `s`, or all of `s` when it holds none.
pub fn after_last_slash(s: &str) -> (r: String)
    ensures
        r@ == after_last(s@, '/'),
{
    let cs = to_chars(s);
    let mut i = cs.len();
    assert(s@.take(i as int) =~= s@);
    while i > 0
        invariant
            i <= cs.len(),
            cs@ == s@,
            last_index_of(s@, '/') == last_index_of(s@.take(i as int), '/'),
        decreases i,
    {
        if cs[i - 1] == '/' {
            assert(s@.take(i as int).last() == '/');
            return from_chars(&cs, i, cs.len());
        }
        assert(s@.take(i as int).drop_last() =~= s@.take(i - 1));
        i = i - 1;
    }
    assert(s@.take(0) =~= Seq::<char>::empty());
    from_chars(&cs, 0, cs.len())
}

/// The decimal rendering of `n`.
pub fn decimal_string(n: usize) -> (r: String)
    ensures
        r@ == decimal(n as nat),
    decreases n,
{
    let d = n % 10;
    let c = if d == 0 { '0' }
        else if d == 1 { '1' }
        else if d == 2 { '2' }
        else if d == 3 { '3' }
        else if d == 4 { '4' }
        else if d == 5 { '5' }
        else if d == 6 { '6' }
        else if d == 7 { '7' }
        else if d == 8 { '8' }
        else { '9' };
    if n < 10 {
        let mut r = String::new();
        push_char(&mut r, c);
        assert(r@ =~= decimal(n as nat));
        r
    } else {
        let mut r = decimal_string(n / 10);
        push_char(&mut r, c);
        r
    }
}

} // verus!
