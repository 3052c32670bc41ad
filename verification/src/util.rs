use vstd::prelude::*;

verus! {

/// A fresh random identifier: calls `uuid::Uuid::new_v4` and returns its
/// 128 bits. The bits are random; the contract states only the version
/// (4, in bits 76 to 79) and the variant (binary 10, in bits 62 and 63)
/// that the crate sets.
#[verifier::external_body]
pub(crate) fn new_uuid() -> (r: u128)
    ensures
        (r >> 76u128) & 0xfu128 == 4,
        (r >> 62u128) & 0x3u128 == 2,
{
    uuid::Uuid::new_v4().as_u128()
}

/// The path separator of property and scene paths.
pub open spec fn sep() -> char {
    '/'
}

/// The parts joined with a single '/' between two neighbours.
pub open spec fn seq_join(parts: Seq<Seq<char>>) -> Seq<char>
    decreases parts.len(),
{
    if parts.len() == 0 {
        Seq::empty()
    } else if parts.len() == 1 {
        parts[0]
    } else {
        parts[0] + seq![sep()] + seq_join(parts.drop_first())
    }
}

/// The pieces of `s` between the '/' characters (as `str::split('/')`):
/// there is always one piece more than there are separators.
pub open spec fn split_path(s: Seq<char>) -> Seq<Seq<char>>
    decreases s.len(),
{
    if s.len() == 0 {
        seq![Seq::<char>::empty()]
    } else {
        let rest = split_path(s.drop_first());
        if s[0] == sep() {
            seq![Seq::<char>::empty()] + rest
        } else {
            rest.update(0, seq![s[0]] + rest[0])
        }
    }
}

/// The views of a sequence of strings.
pub open spec fn strings_view(v: Seq<String>) -> Seq<Seq<char>> {
    v.map_values(|x: String| x@)
}

/// The views of a sequence of string slices.
pub open spec fn strs_view(v: Seq<&str>) -> Seq<Seq<char>> {
    v.map_values(|x: &str| x@)
}

/// No '/' occurs in `s`.
pub open spec fn no_sep(s: Seq<char>) -> bool {
    forall|i: int| 0 <= i < s.len() ==> s[i] != sep()
}

/// Joining one more part adds a separator and the part.
pub proof fn lemma_join_push(p: Seq<Seq<char>>, x: Seq<char>)
    ensures
        seq_join(p.push(x)) == if p.len() == 0 {
            x
        } else {
            seq_join(p) + seq![sep()] + x
        },
    decreases p.len(),
{
    let q = p.push(x);
    if p.len() == 0 {
        assert(q.len() == 1);
        assert(q[0] == x);
    } else if p.len() == 1 {
        assert(q.drop_first() =~= seq![x]);
        assert(seq_join(q.drop_first()) == x);
        assert(seq_join(p) == p[0]);
        assert(seq_join(q) =~= seq_join(p) + seq![sep()] + x);
    } else {
        assert(q.drop_first() =~= p.drop_first().push(x));
        lemma_join_push(p.drop_first(), x);
        assert(seq_join(q) == q[0] + seq![sep()] + seq_join(q.drop_first()));
        assert(seq_join(p) == p[0] + seq![sep()] + seq_join(p.drop_first()));
        assert(seq_join(q) =~= seq_join(p) + seq![sep()] + x);
    }
}

/// Splitting always gives at least one piece.
pub proof fn lemma_split_nonempty(s: Seq<char>)
    ensures
        split_path(s).len() >= 1,
    decreases s.len(),
{
    if s.len() > 0 {
        lemma_split_nonempty(s.drop_first());
    }
}

/// Joining the pieces of a path with '/' gives the path back.
pub proof fn lemma_join_split(s: Seq<char>)
    ensures
        seq_join(split_path(s)) == s,
    decreases s.len(),
{
    if s.len() == 0 {
        assert(seq_join(split_path(s)) =~= s);
    } else {
        let t = s.drop_first();
        let rest = split_path(t);
        lemma_split_nonempty(t);
        lemma_join_split(t);
        assert(s =~= seq![s[0]] + t);
        if s[0] == sep() {
            let sp = seq![Seq::<char>::empty()] + rest;
            assert(split_path(s) == sp);
            assert(sp.drop_first() =~= rest);
            assert(sp.len() >= 2);
            assert(sp[0] == Seq::<char>::empty());
            assert(seq_join(sp) == sp[0] + seq![sep()] + seq_join(sp.drop_first()));
            assert(seq_join(sp) =~= s);
        } else {
            let sp = rest.update(0, seq![s[0]] + rest[0]);
            assert(split_path(s) == sp);
            if rest.len() == 1 {
                assert(seq_join(rest) == rest[0]);
                assert(seq_join(sp) == sp[0]);
                assert(seq_join(sp) =~= s);
            } else {
                assert(sp.drop_first() =~= rest.drop_first());
                assert(seq_join(rest) == rest[0] + seq![sep()] + seq_join(rest.drop_first()));
                assert(seq_join(sp) == sp[0] + seq![sep()] + seq_join(sp.drop_first()));
                assert(seq_join(sp) =~= s);
            }
        }
    }
}

/// A piece without '/' is split into itself.
pub proof fn lemma_split_no_sep(s: Seq<char>)
    requires
        no_sep(s),
    ensures
        split_path(s) == seq![s],
    decreases s.len(),
{
    if s.len() > 0 {
        let t = s.drop_first();
        assert(no_sep(t)) by {
            assert forall|i: int| 0 <= i < t.len() implies t[i] != sep() by {
                assert(t[i] == s[i + 1]);
            }
        }
        lemma_split_no_sep(t);
        assert(s[0] != sep());
        assert(s =~= seq![s[0]] + t);
        assert(split_path(s) == split_path(t).update(0, seq![s[0]] + split_path(t)[0]));
        assert(split_path(s) =~= seq![s]);
    } else {
        assert(s =~= Seq::<char>::empty());
        assert(split_path(s) =~= seq![s]);
    }
}

/// Splitting `a + '/' + b` where `a` has no '/' gives `a` then the pieces of `b`.
pub proof fn lemma_split_prefix(a: Seq<char>, b: Seq<char>)
    requires
        no_sep(a),
    ensures
        split_path(a + seq![sep()] + b) == seq![a] + split_path(b),
    decreases a.len(),
{
    let s = a + seq![sep()] + b;
    if a.len() == 0 {
        assert(s.drop_first() =~= b);
        assert(s[0] == sep());
        assert(a =~= Seq::<char>::empty());
        assert(split_path(s) == seq![Seq::<char>::empty()] + split_path(s.drop_first()));
        assert(split_path(s) =~= seq![a] + split_path(b));
    } else {
        let a2 = a.drop_first();
        assert(no_sep(a2)) by {
            assert forall|i: int| 0 <= i < a2.len() implies a2[i] != sep() by {
                assert(a2[i] == a[i + 1]);
            }
        }
        assert(s.drop_first() =~= a2 + seq![sep()] + b);
        lemma_split_prefix(a2, b);
        assert(s[0] == a[0]);
        assert(a[0] != sep());
        let r = split_path(s.drop_first());
        assert(r == seq![a2] + split_path(b));
        assert(split_path(s) == r.update(0, seq![s[0]] + r[0]));
        assert(seq![a[0]] + a2 =~= a);
        assert(split_path(s) =~= seq![a] + split_path(b));
    }
}

/// Splitting the join of '/'-free parts gives the parts back.
pub proof fn lemma_split_join(parts: Seq<Seq<char>>)
    requires
        parts.len() >= 1,
        forall|i: int| 0 <= i < parts.len() ==> no_sep(#[trigger] parts[i]),
    ensures
        split_path(seq_join(parts)) == parts,
    decreases parts.len(),
{
    if parts.len() == 1 {
        lemma_split_no_sep(parts[0]);
        assert(seq![parts[0]] =~= parts);
    } else {
        let rest = parts.drop_first();
        assert forall|i: int| 0 <= i < rest.len() implies no_sep(#[trigger] rest[i]) by {
            assert(rest[i] == parts[i + 1]);
        }
        lemma_split_join(rest);
        assert(no_sep(parts[0]));
        lemma_split_prefix(parts[0], seq_join(rest));
        assert(seq![parts[0]] + rest =~= parts);
    }
}

/// Joins the parts of a path with '/'.
pub fn join_string(path: &[String]) -> (s: String)
    ensures
        s@ == seq_join(strings_view(path@)),
{
    let s = join_string_prefix(path, path.len());
    proof {
        assert(path@.take(path@.len() as int) =~= path@);
    }
    s
}

/// Joins the first `n` parts of a path with '/'.
pub fn join_string_prefix(path: &[String], n: usize) -> (s: String)
    requires
        n <= path@.len(),
    ensures
        s@ == seq_join(strings_view(path@.take(n as int))),
{
    let mut s = String::new();
    let mut first = true;
    let ghost parts = strings_view(path@);
    let mut i: usize = 0;
    while i < n
        invariant
            0 <= i <= n <= path.len(),
            parts == strings_view(path@),
            first == (i == 0),
            s@ == seq_join(parts.take(i as int)),
        decreases n - i,
    {
        proof {
            lemma_join_push(parts.take(i as int), parts[i as int]);
            assert(parts.take(i as int).push(parts[i as int]) =~= parts.take(i + 1));
        }
        let ghost before = s@;
        if !first {
            s.append("/");
        }
        s.append(path[i].as_str());
        proof {
            if i == 0 {
                assert(before =~= Seq::<char>::empty());
                assert(s@ =~= parts[i as int]);
            } else {
                reveal_strlit("/");
                assert(s@ =~= before + seq![sep()] + parts[i as int]);
            }
        }
        first = false;
        i = i + 1;
    }
    proof {
        assert(parts.take(n as int) =~= strings_view(path@.take(n as int)));
    }
    s
}

/// Joins the parts of a path with '/'.
pub fn join_str(path: &[&str]) -> (s: String)
    ensures
        s@ == seq_join(strs_view(path@)),
{
    let mut s = String::new();
    let mut first = true;
    let ghost parts = strs_view(path@);
    proof {
        reveal_strlit("/");
    }
    let mut i: usize = 0;
    while i < path.len()
        invariant
            0 <= i <= path.len(),
            parts == strs_view(path@),
            first == (i == 0),
            s@ == seq_join(parts.take(i as int)),
        decreases path.len() - i,
    {
        proof {
            lemma_join_push(parts.take(i as int), parts[i as int]);
            assert(parts.take(i as int).push(parts[i as int]) =~= parts.take(i + 1));
        }
        let ghost before = s@;
        if !first {
            s.append("/");
        }
        s.append(path[i]);
        proof {
            if i == 0 {
                assert(before =~= Seq::<char>::empty());
                assert(s@ =~= parts[i as int]);
            } else {
                reveal_strlit("/");
                assert(s@ =~= before + seq![sep()] + parts[i as int]);
            }
        }
        first = false;
        i = i + 1;
    }
    proof {
        assert(parts.take(path.len() as int) =~= parts);
    }
    s
}

/// Splits a path at each '/' (as `str::split('/')` does).
pub fn split_path_exec(path: &str) -> (v: Vec<String>)
    ensures
        strings_view(v@) == split_path(path@),
{
    let n = path.unicode_len();
    let mut pieces: Vec<String> = Vec::new();
    let mut cur = String::new();
    let mut i: usize = 0;
    let ghost s = path@;
    proof {
        assert(s.skip(0) =~= s);
        lemma_split_nonempty(s);
        let r = split_path(s);
        assert(Seq::<char>::empty() + r[0] =~= r[0]);
        assert(strings_view(pieces@) =~= Seq::<Seq<char>>::empty());
        assert(r =~= strings_view(pieces@) + seq![cur@ + r[0]] + r.drop_first());
    }
    while i < n
        invariant
            n == s.len(),
            s == path@,
            0 <= i <= n,
            split_path(s) == strings_view(pieces@) + seq![cur@ + split_path(s.skip(i as int))[0]]
                + split_path(s.skip(i as int)).drop_first(),
        decreases n - i,
    {
        let c = path.get_char(i);
        let ghost t = s.skip(i as int);
        let ghost t2 = s.skip(i + 1);
        proof {
            assert(t.drop_first() =~= t2);
            assert(t[0] == c);
            lemma_split_nonempty(t2);
        }
        if c == '/' {
            proof {
                let r = split_path(t2);
                assert(split_path(t) == seq![Seq::<char>::empty()] + r);
                assert(strings_view(pieces@.push(cur)) =~= strings_view(pieces@).push(cur@));
                assert((seq![Seq::<char>::empty()] + r).drop_first() =~= r);
                assert(strings_view(pieces@).push(cur@) + seq![Seq::<char>::empty() + r[0]]
                    + r.drop_first() =~= strings_view(pieces@) + seq![cur@ + Seq::<char>::empty()]
                    + r);
                assert(Seq::<char>::empty() + r[0] =~= r[0]);
                assert(cur@ + Seq::<char>::empty() =~= cur@);
                assert(r =~= seq![r[0]] + r.drop_first());
            }
            pieces.push(cur);
            cur = String::new();
        } else {
            let piece = path.substring_char(i, i + 1);
            proof {
                let r = split_path(t2);
                assert(piece@ =~= seq![c]);
                assert(split_path(t) == r.update(0, seq![c] + r[0]));
                assert(r.update(0, seq![c] + r[0]).drop_first() =~= r.drop_first());
                assert(cur@ + (seq![c] + r[0]) =~= (cur@ + piece@) + r[0]);
            }
            cur.append(piece);
        }
        i = i + 1;
    }
    proof {
        let e = s.skip(n as int);
        assert(e.len() == 0);
        assert(split_path(e) == seq![Seq::<char>::empty()]);
        assert(cur@ + Seq::<char>::empty() =~= cur@);
        assert(strings_view(pieces@.push(cur)) =~= strings_view(pieces@).push(cur@));
        assert(seq![Seq::<char>::empty()].drop_first() =~= Seq::<Seq<char>>::empty());
        assert(split_path(s) =~= strings_view(pieces@.push(cur)));
    }
    pieces.push(cur);
    pieces
}

/// `c` is a decimal digit.
pub open spec fn is_digit(c: char) -> bool {
    '0' <= c && c <= '9'
}

/// The value of a decimal digit.
pub open spec fn digit_value(c: char) -> nat {
    ((c as int) - ('0' as int)) as nat
}

/// The value of a sequence of decimal digits.
pub open spec fn digits_value(s: Seq<char>) -> nat
    decreases s.len(),
{
    if s.len() == 0 {
        0
    } else {
        digits_value(s.drop_last()) * 10 + digit_value(s.last())
    }
}

/// Every character of `d` is a decimal digit.
pub open spec fn all_digits(d: Seq<char>) -> bool {
    forall|i: int| 0 <= i < d.len() ==> is_digit(#[trigger] d[i])
}

/// `s` without one leading '+'.
pub open spec fn strip_plus(s: Seq<char>) -> Seq<char> {
    if s.len() > 0 && s[0] == '+' {
        s.drop_first()
    } else {
        s
    }
}

/// What `str::parse::<usize>` gives: an optional '+', then at least one
/// decimal digit and nothing else, with a value that fits a `usize`.
pub open spec fn parse_usize(s: Seq<char>) -> Option<usize> {
    let d = strip_plus(s);
    if d.len() > 0 && all_digits(d) && digits_value(d) <= usize::MAX {
        Some(digits_value(d) as usize)
    } else {
        None
    }
}

/// A prefix of a digit sequence is worth no more than the whole.
pub proof fn lemma_digits_value_monotone(s: Seq<char>, k: int)
    requires
        0 <= k <= s.len(),
        forall|i: int| 0 <= i < s.len() ==> is_digit(#[trigger] s[i]),
    ensures
        digits_value(s.take(k)) <= digits_value(s),
    decreases s.len() - k,
{
    if k < s.len() {
        assert(s.take(k + 1).drop_last() =~= s.take(k));
        lemma_digits_value_monotone(s, k + 1);
    } else {
        assert(s.take(k) =~= s);
    }
}

/// Digits whose prefix already exceeds `usize::MAX` are not a `usize`.
pub proof fn lemma_overflow_rejected(d: Seq<char>, k: int)
    requires
        0 < k <= d.len(),
        digits_value(d.take(k)) > usize::MAX,
    ensures
        !(all_digits(d) && digits_value(d) <= usize::MAX),
{
    if all_digits(d) {
        lemma_digits_value_monotone(d, k);
    }
}

/// Parses a decimal `usize` as `str::parse::<usize>` does.
pub fn parse_usize_exec(s: &str) -> (r: Option<usize>)
    ensures
        r == parse_usize(s@),
{
    let n = s.unicode_len();
    let mut start: usize = 0;
    if n > 0 && s.get_char(0) == '+' {
        start = 1;
    }
    let ghost d = strip_plus(s@);
    proof {
        assert(d =~= s@.skip(start as int));
    }
    if start >= n {
        return None;
    }
    let mut value: usize = 0;
    let mut i: usize = start;
    while i < n
        invariant
            n == s@.len(),
            start <= i <= n,
            d =~= s@.skip(start as int),
            d == strip_plus(s@),
            forall|j: int| 0 <= j < i - start ==> is_digit(#[trigger] d[j]),
            value as nat == digits_value(d.take(i - start)),
        decreases n - i,
    {
        let c = s.get_char(i);
        let ghost k = i - start;
        proof {
            assert(d[k] == c);
            assert(d.take(k + 1).drop_last() =~= d.take(k));
            assert(d.take(k + 1).last() == c);
        }
        if c < '0' || c > '9' {
            proof {
                assert(!is_digit(d[k]));
                assert(0 <= k < d.len());
                assert(!all_digits(d));
            }
            return None;
        }
        let dv = (c as u32 - '0' as u32) as usize;
        proof {
            assert(dv as nat == digit_value(c));
            assert(digits_value(d.take(k + 1)) == digits_value(d.take(k)) * 10 + digit_value(c));
        }
        let m = value.checked_mul(10);
        match m {
            None => {
                proof {
                    lemma_overflow_rejected(d, k + 1);
                }
                return None;
            },
            Some(m) => {
                match m.checked_add(dv) {
                    None => {
                        proof {
                            lemma_overflow_rejected(d, k + 1);
                        }
                        return None;
                    },
                    Some(v) => {
                        value = v;
                    },
                }
            },
        }
        i = i + 1;
    }
    proof {
        assert(d.take(i - start) =~= d);
    }
    Some(value)
}

} // verus!
