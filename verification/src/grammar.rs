//! Token grammar: splitting delimited argument strings, joining them back,
//! comparing tokens, and converting numeric fields.

use vstd::prelude::*;
use vstd::string::StrSliceExecFns;

verus! {

/// What splitting `s` on the separator `sep` yields: always at least one
/// field; an empty string yields one empty field.
pub open spec fn split_chars(s: Seq<char>, sep: char) -> Seq<Seq<char>>
    decreases s.len(),
{
    if s.len() == 0 {
        seq![Seq::<char>::empty()]
    } else if s[0] == sep {
        seq![Seq::<char>::empty()] + split_chars(s.drop_first(), sep)
    } else {
        let rest = split_chars(s.drop_first(), sep);
        seq![seq![s[0]] + rest[0]] + rest.drop_first()
    }
}

pub proof fn lemma_split_chars_len(s: Seq<char>, sep: char)
    ensures
        split_chars(s, sep).len() >= 1,
    decreases s.len(),
{
    if s.len() != 0 {
        lemma_split_chars_len(s.drop_first(), sep);
    }
}

/// Splitting at the first separator occurrence peels off the prefix field.
proof fn lemma_split_chars_at_sep(s: Seq<char>, sep: char, i: int)
    requires
        0 <= i < s.len(),
        s[i] == sep,
        forall|j: int| 0 <= j < i ==> s[j] != sep,
    ensures
        split_chars(s, sep) == seq![s.take(i)] + split_chars(s.skip(i + 1), sep),
    decreases i,
{
    if i == 0 {
        assert(s.take(0) =~= Seq::<char>::empty());
        assert(s.skip(1) =~= s.drop_first());
        assert(split_chars(s, sep) =~= seq![s.take(0)] + split_chars(s.skip(1), sep));
    } else {
        let t = s.drop_first();
        lemma_split_chars_at_sep(t, sep, i - 1);
        lemma_split_chars_len(t.skip(i), sep);
        assert(seq![s[0]] + t.take(i - 1) =~= s.take(i));
        assert(t.skip(i) =~= s.skip(i + 1));
        let rest = split_chars(t, sep);
        assert(rest[0] == t.take(i - 1));
        assert(rest.drop_first() =~= split_chars(t.skip(i), sep));
        assert(split_chars(s, sep) =~= seq![s.take(i)] + split_chars(s.skip(i + 1), sep));
    }
}

/// A string without the separator is a single field.
proof fn lemma_split_chars_no_sep(s: Seq<char>, sep: char)
    requires
        forall|j: int| 0 <= j < s.len() ==> s[j] != sep,
    ensures
        split_chars(s, sep) == seq![s],
    decreases s.len(),
{
    if s.len() == 0 {
        assert(s =~= Seq::<char>::empty());
        assert(split_chars(s, sep) =~= seq![s]);
    } else {
        let t = s.drop_first();
        lemma_split_chars_no_sep(t, sep);
        assert(seq![s[0]] + t =~= s);
        assert(split_chars(s, sep) =~= seq![s]);
    }
}

/// Splits `s` on `sep`, materialising each field as an owned string.
pub fn split_on(s: &str, sep: char) -> (r: Vec<String>)
    ensures
        r.deep_view() == split_chars(s@, sep),
{
    let n = s.unicode_len();
    let mut out: Vec<String> = Vec::new();
    let mut start: usize = 0;
    let mut i: usize = 0;
    proof {
        assert(out.deep_view() =~= Seq::<Seq<char>>::empty());
        assert(s@.skip(0) =~= s@);
        assert(out.deep_view() + split_chars(s@, sep) =~= split_chars(s@, sep));
    }
    while i < n
        invariant
            start <= i <= n,
            n == s@.len(),
            split_chars(s@, sep) == out.deep_view() + split_chars(s@.skip(start as int), sep),
            forall|j: int| start <= j < i ==> s@[j] != sep,
        decreases n - i,
    {
        if s.get_char(i) == sep {
            let ghost old_out = out.deep_view();
            let tok = s.substring_char(start, i).to_owned();
            out.push(tok);
            proof {
                assert(out.deep_view() =~= old_out.push(tok@));
                let sk = s@.skip(start as int);
                assert(sk[i - start] == sep);
                assert(forall|j: int| 0 <= j < i - start ==> sk[j] != sep);
                lemma_split_chars_at_sep(sk, sep, i - start);
                assert(sk.take(i - start) =~= s@.subrange(start as int, i as int));
                assert(sk.skip(i - start + 1) =~= s@.skip(i + 1));
                assert(tok@ == sk.take(i - start));
                assert(out.deep_view() + split_chars(s@.skip(i + 1), sep) =~= old_out
                    + split_chars(sk, sep));
            }
            start = i + 1;
        }
        i += 1;
    }
    let ghost old_out = out.deep_view();
    let tok = s.substring_char(start, n).to_owned();
    out.push(tok);
    proof {
        assert(out.deep_view() =~= old_out.push(tok@));
        let sk = s@.skip(start as int);
        assert(forall|j: int| 0 <= j < sk.len() ==> sk[j] != sep);
        lemma_split_chars_no_sep(sk, sep);
        assert(tok@ == s@.subrange(start as int, n as int));
        assert(tok@ =~= sk);
        assert(out.deep_view() =~= old_out + split_chars(sk, sep));
    }
    out
}

/// Character-wise string equality, decided without allocation.
pub fn str_eq(a: &str, b: &str) -> (r: bool)
    ensures
        r == (a@ == b@),
{
    let an = a.unicode_len();
    let bn = b.unicode_len();
    if an != bn {
        return false;
    }
    let mut i: usize = 0;
    while i < an
        invariant
            i <= an,
            an == a@.len(),
            an == b@.len(),
            forall|j: int| 0 <= j < i ==> a@[j] == b@[j],
        decreases an - i,
    {
        if a.get_char(i) != b.get_char(i) {
            return false;
        }
        i += 1;
    }
    proof {
        assert(a@ =~= b@);
    }
    true
}

/// `c` matches the lowercase ASCII letter `l` up to case: either exactly,
/// or as its uppercase counterpart.
pub open spec fn lower_char_matches(c: char, l: char) -> bool {
    c == l || (97 <= l as u32 <= 122 && c as u32 + 32 == l as u32)
}

/// `s` equals the lowercase ASCII word `lower` under case folding.
pub open spec fn matches_lowercase(s: Seq<char>, lower: Seq<char>) -> bool {
    s.len() == lower.len() && forall|i: int|
        0 <= i < s.len() ==> lower_char_matches(s[i], lower[i])
}

/// Decides whether `s` equals the lowercase ASCII word `lower`, ignoring
/// ASCII case in `s`.
pub fn eq_ignore_case(s: &str, lower: &str) -> (r: bool)
    ensures
        r == matches_lowercase(s@, lower@),
{
    let n = s.unicode_len();
    if n != lower.unicode_len() {
        return false;
    }
    let mut i: usize = 0;
    while i < n
        invariant
            i <= n,
            n == s@.len(),
            n == lower@.len(),
            forall|j: int| 0 <= j < i ==> lower_char_matches(s@[j], lower@[j]),
        decreases n - i,
    {
        let c = s.get_char(i) as u32;
        let l = lower.get_char(i) as u32;
        let matched = c == l || (97 <= l && l <= 122 && (c as u64) + 32 == (l as u64));
        if !matched {
            return false;
        }
        i += 1;
    }
    true
}

/// Whether `c` is a decimal digit.
pub open spec fn is_dec_digit(c: char) -> bool {
    48 <= c as u32 <= 57
}

/// The value of a decimal digit string, most significant digit first.
pub open spec fn digits_val(s: Seq<char>) -> int
    decreases s.len(),
{
    if s.len() == 0 {
        0
    } else {
        digits_val(s.drop_last()) * 10 + (s.last() as u32 - 48)
    }
}

pub open spec fn all_dec_digits(s: Seq<char>) -> bool {
    forall|i: int| 0 <= i < s.len() ==> is_dec_digit(s[i])
}

/// The digit part of an unsigned decimal literal: an optional leading `+`
/// is skipped.
pub open spec fn u32_digits_part(s: Seq<char>) -> Seq<char> {
    if s.len() > 0 && s[0] == '+' {
        s.drop_first()
    } else {
        s
    }
}

/// Exactly the strings accepted when parsing an unsigned 32-bit decimal:
/// an optional `+`, then at least one digit, with a value in range.
pub open spec fn parses_as_u32(s: Seq<char>) -> bool {
    let d = u32_digits_part(s);
    d.len() > 0 && all_dec_digits(d) && digits_val(d) <= u32::MAX
}

/// The number an accepted unsigned decimal string denotes.
pub open spec fn u32_value(s: Seq<char>) -> int {
    digits_val(u32_digits_part(s))
}

proof fn lemma_digits_val_nonneg(s: Seq<char>)
    requires
        all_dec_digits(s),
    ensures
        digits_val(s) >= 0,
    decreases s.len(),
{
    if s.len() > 0 {
        assert(all_dec_digits(s.drop_last()));
        lemma_digits_val_nonneg(s.drop_last());
    }
}

/// A digit string is worth at least any of its prefixes: once a prefix
/// overflows, the whole string overflows.
proof fn lemma_digits_val_prefix_le(s: Seq<char>, k: int)
    requires
        all_dec_digits(s),
        0 <= k <= s.len(),
    ensures
        digits_val(s.take(k)) <= digits_val(s),
    decreases s.len() - k,
{
    if k < s.len() {
        lemma_digits_val_prefix_le(s, k + 1);
        let p = s.take(k + 1);
        assert(p.drop_last() =~= s.take(k));
        assert(all_dec_digits(s.take(k)));
        lemma_digits_val_nonneg(s.take(k));
        assert(digits_val(p) == digits_val(s.take(k)) * 10 + (p.last() as u32 - 48));
        assert(digits_val(s.take(k)) <= digits_val(p)) by (nonlinear_arith)
            requires
                digits_val(p) == digits_val(s.take(k)) * 10 + (p.last() as u32 - 48),
                digits_val(s.take(k)) >= 0,
                48 <= p.last() as u32 <= 57,
        ;
    } else {
        assert(s.take(k) =~= s);
    }
}

/// Parses an unsigned 32-bit decimal, with the same grammar as the
/// standard `u32` string parser: optional `+`, digits, value in range.
pub fn parse_u32(s: &str) -> (r: Option<u32>)
    ensures
        match r {
            Some(v) => parses_as_u32(s@) && v as int == u32_value(s@),
            None => !parses_as_u32(s@),
        },
{
    let n = s.unicode_len();
    let mut start: usize = 0;
    if n > 0 && s.get_char(0) == '+' {
        start = 1;
    }
    if start == n {
        return None;
    }
    let ghost d = u32_digits_part(s@);
    proof {
        assert(d =~= s@.skip(start as int));
    }
    let mut acc: u64 = 0;
    let mut i: usize = start;
    while i < n
        invariant
            start <= i <= n,
            n == s@.len(),
            start < n,
            d == u32_digits_part(s@),
            d =~= s@.skip(start as int),
            forall|j: int| start <= j < i ==> is_dec_digit(s@[j]),
            acc as int == digits_val(d.take(i - start)),
            acc <= u32::MAX,
        decreases n - i,
    {
        let c = s.get_char(i) as u32;
        if c < 48 || c > 57 {
            proof {
                assert(!is_dec_digit(d[i - start]));
            }
            return None;
        }
        let dig: u64 = (c - 48) as u64;
        acc = acc * 10 + dig;
        proof {
            let p = d.take(i - start + 1);
            assert(p.drop_last() =~= d.take(i - start));
            assert(p.last() == s@[i as int]);
            assert(acc as int == digits_val(p));
        }
        if acc > 0xffff_ffff {
            proof {
                if parses_as_u32(s@) {
                    lemma_digits_val_prefix_le(d, i - start + 1);
                }
            }
            return None;
        }
        i += 1;
    }
    proof {
        assert(d.take(n - start) =~= d);
    }
    Some(acc as u32)
}

/// Joining a field sequence with the separator: the inverse direction of
/// [`split_chars`] for separator-free fields.
pub open spec fn join_chars(xs: Seq<Seq<char>>, sep: char) -> Seq<char>
    decreases xs.len(),
{
    if xs.len() == 0 {
        Seq::<char>::empty()
    } else if xs.len() == 1 {
        xs[0]
    } else {
        xs[0] + seq![sep] + join_chars(xs.drop_first(), sep)
    }
}

proof fn lemma_join_chars_push(xs: Seq<Seq<char>>, x: Seq<char>, sep: char)
    requires
        xs.len() >= 1,
    ensures
        join_chars(xs.push(x), sep) == join_chars(xs, sep) + seq![sep] + x,
    decreases xs.len(),
{
    if xs.len() == 1 {
        let p = xs.push(x);
        assert(p[0] == xs[0]);
        assert(p.drop_first() =~= seq![x]);
        assert(join_chars(p.drop_first(), sep) == x);
        assert(join_chars(p, sep) =~= xs[0] + seq![sep] + x);
    } else {
        lemma_join_chars_push(xs.drop_first(), x, sep);
        let p = xs.push(x);
        assert(p.drop_first() =~= xs.drop_first().push(x));
        assert(join_chars(p, sep) == p[0] + seq![sep] + join_chars(p.drop_first(), sep));
        assert(join_chars(xs, sep) + seq![sep] + x =~= xs[0] + seq![sep] + (join_chars(
            xs.drop_first(),
            sep,
        ) + seq![sep] + x));
        assert(join_chars(p, sep) =~= join_chars(xs, sep) + seq![sep] + x);
    }
}

/// Rejoins the fields of `v` from index `from` on with commas, rebuilding
/// the residual argument string of a device specification.
pub fn join_fields(v: &Vec<String>, from: usize) -> (r: String)
    requires
        from <= v.len(),
    ensures
        r@ == join_chars(v.deep_view().skip(from as int), ','),
{
    let ghost xs = v.deep_view().skip(from as int);
    let mut r = String::new();
    let mut i: usize = from;
    proof {
        assert(xs.take(0) =~= Seq::<Seq<char>>::empty());
    }
    while i < v.len()
        invariant
            from <= i <= v.len(),
            xs == v.deep_view().skip(from as int),
            xs.len() == v.len() - from,
            r@ == join_chars(xs.take(i - from), ','),
        decreases v.len() - i,
    {
        let ghost prefix = xs.take(i - from);
        if i > from {
            r.append(",");
        }
        r.append(v[i].as_str());
        proof {
            reveal_strlit(",");
            assert(","@ =~= seq![',']);
            let p = xs.take(i - from + 1);
            assert(p =~= prefix.push(xs[i - from]));
            assert(xs[i - from] == v.deep_view()[i as int]);
            if i == from {
                assert(p.len() == 1);
                assert(r@ =~= join_chars(p, ','));
            } else {
                lemma_join_chars_push(prefix, xs[i - from], ',');
                assert(r@ =~= join_chars(prefix, ',') + seq![','] + xs[i - from]);
            }
        }
        i += 1;
    }
    proof {
        assert(xs.take(v.len() - from) =~= xs);
    }
    r
}

} // verus!

