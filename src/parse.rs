//! Comma-separated decimal integer lists.
use crate::error::RescueError;
use vstd::prelude::*;

verus! {

/// ASCII code of the token separator `,`.
pub const COMMA: u8 = 44;

/// ASCII code of `+`, accepted once before the digits of a token.
pub const PLUS: u8 = 43;

pub open spec fn is_digit(b: u8) -> bool {
    48 <= b <= 57
}

pub open spec fn all_digits(d: Seq<u8>) -> bool {
    forall|i: int| 0 <= i < d.len() ==> is_digit(#[trigger] d[i])
}

/// Value of a string of ASCII decimal digits, most significant first.
pub open spec fn digits_value(d: Seq<u8>) -> nat
    decreases d.len(),
{
    if d.len() == 0 {
        0
    } else {
        digits_value(d.drop_last()) * 10 + (d.last() - 48) as nat
    }
}

/// The digit part of a token: the token without one leading `+`.
pub open spec fn token_digits(t: Seq<u8>) -> Seq<u8> {
    if t.len() > 0 && t[0] == PLUS {
        t.drop_first()
    } else {
        t
    }
}

/// The value of token `t` as an unsigned decimal integer no greater than `bound`,
/// or `None` where `t` is empty, holds a byte other than a digit (after an
/// optional leading `+`), or denotes a value above `bound`.
pub open spec fn decimal_value(t: Seq<u8>, bound: nat) -> Option<nat> {
    let d = token_digits(t);
    if d.len() > 0 && all_digits(d) && digits_value(d) <= bound {
        Some(digits_value(d))
    } else {
        None
    }
}

/// The pieces of `s` between commas, in order; `s` with `k` commas has `k + 1` pieces.
pub open spec fn split_commas(s: Seq<u8>) -> Seq<Seq<u8>>
    decreases s.len(),
{
    if s.len() == 0 {
        seq![Seq::empty()]
    } else {
        let p = split_commas(s.drop_last());
        if s.last() == COMMA {
            p.push(Seq::empty())
        } else {
            p.update(p.len() - 1, p.last().push(s.last()))
        }
    }
}

/// The tokens of `s`: none for the empty input, else the pieces between commas.
pub open spec fn tokens(s: Seq<u8>) -> Seq<Seq<u8>> {
    if s.len() == 0 {
        Seq::empty()
    } else {
        split_commas(s)
    }
}

proof fn lemma_digits_value_prefix(d: Seq<u8>, k: int)
    requires
        0 <= k <= d.len(),
        all_digits(d),
    ensures
        digits_value(d.subrange(0, k)) <= digits_value(d),
    decreases d.len(),
{
    if k < d.len() {
        let e = d.drop_last();
        assert(e.subrange(0, k) =~= d.subrange(0, k));
        assert(all_digits(e)) by {
            assert forall|i: int| 0 <= i < e.len() implies is_digit(#[trigger] e[i]) by {
                assert(e[i] == d[i]);
            }
        }
        lemma_digits_value_prefix(e, k);
    } else {
        assert(d.subrange(0, k) =~= d);
    }
}

/// Splits `s` at every comma; the empty input has no tokens.
pub fn split_tokens(s: &[u8]) -> (r: Vec<Vec<u8>>)
    ensures
        r@.len() == tokens(s@).len(),
        forall|j: int| 0 <= j < r@.len() ==> #[trigger] r@[j]@ == tokens(s@)[j],
{
    let mut done: Vec<Vec<u8>> = Vec::new();
    if s.len() == 0 {
        return done;
    }
    let mut cur: Vec<u8> = Vec::new();
    let mut i: usize = 0;
    assert(s@.take(0) =~= Seq::<u8>::empty());
    while i < s.len()
        invariant
            0 <= i <= s@.len(),
            split_commas(s@.take(i as int)).len() == done@.len() + 1,
            forall|j: int|
                0 <= j < done@.len() ==> #[trigger] done@[j]@ == split_commas(s@.take(i as int))[j],
            split_commas(s@.take(i as int))[done@.len() as int] == cur@,
        decreases s@.len() - i,
    {
        let ghost before = split_commas(s@.take(i as int));
        assert(s@.take(i + 1).drop_last() =~= s@.take(i as int));
        assert(s@.take(i + 1).last() == s@[i as int]);
        if s[i] == COMMA {
            done.push(cur);
            cur = Vec::new();
        } else {
            cur.push(s[i]);
        }
        i += 1;
    }
    done.push(cur);
    assert(s@.take(s@.len() as int) =~= s@);
    done
}

/// Parses one token as an unsigned decimal integer no greater than `bound`.
pub fn parse_decimal(t: &[u8], bound: u128) -> (r: Option<u128>)
    ensures
        match decimal_value(t@, bound as nat) {
            Some(v) => r == Some(v as u128),
            None => r is None,
        },
{
    let start: usize = if t.len() > 0 && t[0] == PLUS {
        1
    } else {
        0
    };
    let ghost d = token_digits(t@);
    assert(d =~= t@.subrange(start as int, t@.len() as int));
    if start == t.len() {
        return None;
    }
    let mut k: usize = start;
    while k < t.len()
        invariant
            start <= k <= t@.len(),
            d == token_digits(t@),
            d =~= t@.subrange(start as int, t@.len() as int),
            forall|i: int| start <= i < k ==> is_digit(#[trigger] t@[i]),
        decreases t@.len() - k,
    {
        if t[k] < 48 || t[k] > 57 {
            assert(d[k - start] == t@[k as int]);
            assert(!is_digit(d[k - start]));
            assert(!all_digits(d));
            return None;
        }
        k += 1;
    }
    assert(all_digits(d)) by {
        assert forall|i: int| 0 <= i < d.len() implies is_digit(#[trigger] d[i]) by {
            assert(d[i] == t@[i + start]);
        }
    }
    let mut v: u128 = 0;
    let mut k: usize = start;
    assert(d.subrange(0, 0) =~= Seq::<u8>::empty());
    while k < t.len()
        invariant
            start <= k <= t@.len(),
            d == token_digits(t@),
            d =~= t@.subrange(start as int, t@.len() as int),
            all_digits(d),
            v as nat == digits_value(d.subrange(0, k - start)),
            v <= bound,
        decreases t@.len() - k,
    {
        assert(d[k - start] == t@[k as int]);
        assert(is_digit(t@[k as int]));
        let dig: u128 = (t[k] - 48) as u128;
        let ghost pre = d.subrange(0, k - start);
        let ghost next = d.subrange(0, k + 1 - start);
        assert(next.drop_last() =~= pre);
        assert(next.last() == t@[k as int]);
        assert(digits_value(next) == digits_value(pre) * 10 + dig);
        if dig > bound || v > (bound - dig) / 10 {
            assert(v * 10 + dig > bound) by (nonlinear_arith)
                requires
                    dig > bound || v > (bound - dig) / 10,
                    dig <= bound ==> bound - dig >= 0,
            ;
            proof {
                lemma_digits_value_prefix(d, k + 1 - start);
            }
            assert(digits_value(d) > bound);
            return None;
        }
        assert(v * 10 + dig <= bound) by (nonlinear_arith)
            requires
                dig <= bound,
                v <= (bound - dig) / 10,
        ;
        v = v * 10 + dig;
        k += 1;
    }
    assert(d.subrange(0, d.len() as int) =~= d);
    Some(v)
}

/// The list of `arity` values held by `s`, each no greater than `bound`.
pub open spec fn parse_list(s: Seq<u8>, arity: nat, bound: nat) -> Result<Seq<u128>, RescueError> {
    let ts = tokens(s);
    if ts.len() != arity {
        Err(RescueError::InvalidArity)
    } else if exists|i: int| 0 <= i < ts.len() && #[trigger] decimal_value(ts[i], bound) is None {
        Err(RescueError::ParseFailure)
    } else {
        Ok(Seq::new(arity, |i: int| decimal_value(ts[i], bound)->Some_0 as u128))
    }
}

/// Parses `s` as exactly `arity` comma-separated decimal integers, each no
/// greater than `bound`.
pub fn parse_decimal_list(s: &[u8], arity: usize, bound: u128) -> (r: Result<Vec<u128>, RescueError>)
    ensures
        r matches Ok(v) ==> parse_list(s@, arity as nat, bound as nat) == Ok::<Seq<u128>, RescueError>(v@),
        r matches Err(e) ==> parse_list(s@, arity as nat, bound as nat) == Err::<Seq<u128>, RescueError>(e),
{
    let toks = split_tokens(s);
    let ghost ts = tokens(s@);
    if toks.len() != arity {
        return Err(RescueError::InvalidArity);
    }
    let mut out: Vec<u128> = Vec::new();
    let mut i: usize = 0;
    while i < toks.len()
        invariant
            ts == tokens(s@),
            toks@.len() == ts.len() == arity,
            forall|j: int| 0 <= j < toks@.len() ==> #[trigger] toks@[j]@ == ts[j],
            0 <= i <= arity,
            out@.len() == i,
            forall|j: int| 0 <= j < i ==> #[trigger] decimal_value(ts[j], bound as nat) is Some,
            forall|j: int| 0 <= j < i ==> #[trigger] out@[j] == decimal_value(ts[j], bound as nat)->Some_0 as u128,
        decreases arity - i,
    {
        assert(toks@[i as int]@ == ts[i as int]);
        match parse_decimal(toks[i].as_slice(), bound) {
            Some(x) => {
                out.push(x);
            },
            None => {
                assert(decimal_value(ts[i as int], bound as nat) is None);
                assert(exists|j: int| 0 <= j < ts.len() && #[trigger] decimal_value(ts[j], bound as nat) is None);
                return Err(RescueError::ParseFailure);
            },
        }
        i += 1;
    }
    assert(out@ =~= Seq::new(arity as nat, |j: int| decimal_value(ts[j], bound as nat)->Some_0 as u128));
    Ok(out)
}

} // verus!
