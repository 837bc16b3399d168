use vstd::prelude::*;

verus! {

/// Whether `b` separates tokens: a newline when splitting into lines, any
/// blank (space, tab, carriage return, newline) when splitting into words.
pub open spec fn is_sep(b: u8, lines: bool) -> bool {
    if lines {
        b == 10
    } else {
        b == 32 || b == 9 || b == 10 || b == 13
    }
}

/// Scanning `p` byte by byte: the tokens completed so far, and the token in progress.
pub open spec fn scan(p: Seq<u8>, lines: bool) -> (Seq<Seq<u8>>, Seq<u8>)
    decreases p.len(),
{
    if p.len() == 0 {
        (Seq::empty(), Seq::empty())
    } else {
        let (done, cur) = scan(p.drop_last(), lines);
        let c = p.last();
        if is_sep(c, lines) {
            if cur.len() > 0 {
                (done.push(cur), Seq::empty())
            } else {
                (done, Seq::empty())
            }
        } else {
            (done, cur.push(c))
        }
    }
}

/// The maximal runs of non-separator bytes of `s`, in order.
pub open spec fn tokens(s: Seq<u8>, lines: bool) -> Seq<Seq<u8>> {
    let (done, cur) = scan(s, lines);
    if cur.len() > 0 {
        done.push(cur)
    } else {
        done
    }
}

pub open spec fn views(v: Seq<Vec<u8>>) -> Seq<Seq<u8>> {
    v.map_values(|x: Vec<u8>| x@)
}

/// Splits `s` into lines (dropping empty ones) or into words.
pub fn split_tokens(s: &[u8], lines: bool) -> (r: Vec<Vec<u8>>)
    ensures
        views(r@) == tokens(s@, lines),
{
    let mut done: Vec<Vec<u8>> = Vec::new();
    let mut cur: Vec<u8> = Vec::new();
    let mut i: usize = 0;
    while i < s.len()
        invariant
            i <= s@.len(),
            (views(done@), cur@) == scan(s@.subrange(0, i as int), lines),
        decreases s@.len() - i,
    {
        let c = s[i];
        proof {
            assert(s@.subrange(0, i as int + 1).drop_last() =~= s@.subrange(0, i as int));
        }
        let sep = if lines {
            c == 10
        } else {
            c == 32 || c == 9 || c == 10 || c == 13
        };
        if sep {
            if cur.len() > 0 {
                let ghost old_done = done@;
                let mut finished: Vec<u8> = Vec::new();
                core::mem::swap(&mut cur, &mut finished);
                done.push(finished);
                proof {
                    assert(views(done@) =~= views(old_done).push(finished@));
                }
            }
        } else {
            cur.push(c);
        }
        i = i + 1;
    }
    proof {
        assert(s@.subrange(0, i as int) =~= s@);
    }
    if cur.len() > 0 {
        let ghost old_done = done@;
        let ghost last = cur@;
        done.push(cur);
        proof {
            assert(views(done@) =~= views(old_done).push(last));
        }
    }
    done
}

pub open spec fn is_digit(b: u8) -> bool {
    48 <= b <= 57
}

pub open spec fn all_digits(s: Seq<u8>) -> bool {
    forall|i: int| 0 <= i < s.len() ==> is_digit(#[trigger] s[i])
}

/// The number that a string of decimal digits spells.
pub open spec fn decimal_value(s: Seq<u8>) -> nat
    decreases s.len(),
{
    if s.len() == 0 {
        0
    } else {
        decimal_value(s.drop_last()) * 10 + (s.last() - 48) as nat
    }
}

/// A non-empty run of digits whose value fits in a `u64`.
pub open spec fn decimal_spec(s: Seq<u8>) -> Option<u64> {
    if s.len() > 0 && all_digits(s) && decimal_value(s) <= u64::MAX {
        Some(decimal_value(s) as u64)
    } else {
        None
    }
}

proof fn lemma_decimal_grows(s: Seq<u8>, k: int)
    requires
        0 <= k <= s.len(),
        all_digits(s),
    ensures
        decimal_value(s.subrange(0, k)) <= decimal_value(s),
    decreases s.len() - k,
{
    if k < s.len() {
        let t = s.subrange(0, k + 1);
        assert(t.drop_last() =~= s.subrange(0, k));
        assert(is_digit(s[k]));
        assert(t.last() == s[k]);
        assert(decimal_value(s.subrange(0, k)) <= decimal_value(t));
        lemma_decimal_grows(s, k + 1);
    } else {
        assert(s.subrange(0, k) =~= s);
    }
}

/// Parses an unsigned decimal number.
pub fn parse_decimal(s: &[u8]) -> (r: Option<u64>)
    ensures
        r == decimal_spec(s@),
{
    if s.len() == 0 {
        return None;
    }
    let mut v: u64 = 0;
    let mut overflow = false;
    let mut i: usize = 0;
    while i < s.len()
        invariant
            i <= s@.len(),
            forall|j: int| 0 <= j < i ==> is_digit(#[trigger] s@[j]),
            !overflow ==> v == decimal_value(s@.subrange(0, i as int)),
            overflow ==> decimal_value(s@.subrange(0, i as int)) > u64::MAX,
        decreases s@.len() - i,
    {
        let c = s[i];
        if c < 48 || c > 57 {
            assert(!all_digits(s@));
            return None;
        }
        proof {
            let p = s@.subrange(0, i as int + 1);
            assert(p.drop_last() =~= s@.subrange(0, i as int));
            assert(p.last() == c);
        }
        let d = (c - 48) as u64;
        if !overflow {
            if v > (u64::MAX - d) / 10 {
                overflow = true;
            } else {
                v = v * 10 + d;
            }
        }
        i = i + 1;
    }
    proof {
        assert(s@.subrange(0, i as int) =~= s@);
    }
    if overflow {
        None
    } else {
        Some(v)
    }
}

/// Whether `s` begins with `p`.
pub open spec fn has_prefix(s: Seq<u8>, p: Seq<u8>) -> bool {
    p.len() <= s.len() && s.subrange(0, p.len() as int) == p
}

pub fn starts_with(s: &[u8], p: &[u8]) -> (r: bool)
    ensures
        r == has_prefix(s@, p@),
{
    if p.len() > s.len() {
        return false;
    }
    let mut i: usize = 0;
    while i < p.len()
        invariant
            p@.len() <= s@.len(),
            i <= p@.len(),
            forall|j: int| 0 <= j < i ==> s@[j] == p@[j],
        decreases p@.len() - i,
    {
        if s[i] != p[i] {
            assert(s@.subrange(0, p@.len() as int)[i as int] != p@[i as int]);
            return false;
        }
        i = i + 1;
    }
    assert(s@.subrange(0, p@.len() as int) =~= p@);
    true
}

/// Whether two byte strings are equal.
pub fn bytes_equal(a: &[u8], b: &[u8]) -> (r: bool)
    ensures
        r == (a@ == b@),
{
    if a.len() != b.len() {
        return false;
    }
    let r = starts_with(a, b);
    proof {
        if r {
            assert(a@.subrange(0, b@.len() as int) =~= a@);
        } else {
            assert(a@.subrange(0, b@.len() as int) =~= a@);
        }
    }
    r
}

} // verus!
