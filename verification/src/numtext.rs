//! The text form of a timestamp file: a number of seconds since the Unix
//! epoch, written in canonical decimal (no sign, no leading zero).

use vstd::prelude::*;
use vstd::string::*;

verus! {

pub open spec fn is_digit(c: char) -> bool {
    '0' <= c && c <= '9'
}

pub open spec fn digit_val(c: char) -> int {
    c as int - '0' as int
}

pub open spec fn all_digits(s: Seq<char>) -> bool {
    forall|i: int| 0 <= i < s.len() ==> is_digit(#[trigger] s[i])
}

/// The number a digit string denotes, most significant digit first.
pub open spec fn seq_val(s: Seq<char>) -> int
    decreases s.len(),
{
    if s.len() == 0 {
        0
    } else {
        seq_val(s.drop_last()) * 10 + digit_val(s.last())
    }
}

/// Canonical decimal text: at least one digit, no leading zero.
pub open spec fn canonical_dec(s: Seq<char>) -> bool {
    &&& all_digits(s)
    &&& s.len() >= 1
    &&& (s.len() > 1 ==> s[0] != '0')
}

pub open spec fn digit_char(d: int) -> char {
    if d == 0 {
        '0'
    } else if d == 1 {
        '1'
    } else if d == 2 {
        '2'
    } else if d == 3 {
        '3'
    } else if d == 4 {
        '4'
    } else if d == 5 {
        '5'
    } else if d == 6 {
        '6'
    } else if d == 7 {
        '7'
    } else if d == 8 {
        '8'
    } else {
        '9'
    }
}

/// The canonical decimal text of `n`.
pub open spec fn dec_spec(n: int) -> Seq<char>
    decreases n,
{
    if n < 10 {
        seq![digit_char(n)]
    } else {
        dec_spec(n / 10) + seq![digit_char(n % 10)]
    }
}

pub proof fn lemma_dec_spec_canonical(n: int)
    requires
        n >= 0,
    ensures
        canonical_dec(dec_spec(n)),
        seq_val(dec_spec(n)) == n,
        n >= 1 ==> dec_spec(n)[0] != '0',
    decreases n,
{
    if n < 10 {
        let s = dec_spec(n);
        assert(s.len() == 1);
        assert(s.drop_last() =~= Seq::<char>::empty());
        assert(seq_val(s) == seq_val(s.drop_last()) * 10 + digit_val(s.last()));
        assert(s.last() == digit_char(n));
        assert(digit_val(digit_char(n)) == n);
        assert(is_digit(s[0]));
        if n >= 1 {
            assert(digit_val(s[0]) == n);
            assert(s[0] != '0');
        }
    } else {
        lemma_dec_spec_canonical(n / 10);
        let s = dec_spec(n);
        let p = dec_spec(n / 10);
        assert(s.drop_last() =~= p);
        assert(s.last() == digit_char(n % 10));
        assert(seq_val(s) == seq_val(p) * 10 + digit_val(digit_char(n % 10)));
        assert(digit_val(digit_char(n % 10)) == n % 10);
        assert(n / 10 >= 1);
        assert(p[0] != '0');
        assert(s[0] == p[0]);
        assert forall|i: int| 0 <= i < s.len() implies is_digit(#[trigger] s[i]) by {
            if i < p.len() {
                assert(s[i] == p[i]);
            } else {
                assert(s[i] == digit_char(n % 10));
            }
        }
    }
}

fn digit_str(d: u64) -> (r: &'static str)
    requires
        d < 10,
    ensures
        r@ =~= seq![digit_char(d as int)],
{
    proof {
        reveal_strlit("0");
        reveal_strlit("1");
        reveal_strlit("2");
        reveal_strlit("3");
        reveal_strlit("4");
        reveal_strlit("5");
        reveal_strlit("6");
        reveal_strlit("7");
        reveal_strlit("8");
        reveal_strlit("9");
    }
    match d {
        0 => "0",
        1 => "1",
        2 => "2",
        3 => "3",
        4 => "4",
        5 => "5",
        6 => "6",
        7 => "7",
        8 => "8",
        _ => "9",
    }
}

fn push_dec(n: u64, r: &mut String)
    ensures
        final(r)@ == old(r)@ + dec_spec(n as int),
    decreases n,
{
    if n >= 10 {
        push_dec(n / 10, r);
    }
    r.append(digit_str(n % 10));
    proof {
        if n >= 10 {
            assert(final(r)@ =~= old(r)@ + dec_spec(n as int));
        } else {
            assert(final(r)@ =~= old(r)@ + dec_spec(n as int));
        }
    }
}

/// Writes `n` as the canonical decimal text stored in a timestamp file.
pub fn format_secs(n: u64) -> (r: String)
    ensures
        canonical_dec(r@),
        seq_val(r@) == n,
{
    let mut r = String::new();
    push_dec(n, &mut r);
    proof {
        assert(r@ =~= dec_spec(n as int));
        lemma_dec_spec_canonical(n as int);
    }
    r
}

/// Appending digits never shrinks the value a digit string denotes.
proof fn lemma_seq_val_prefix(s: Seq<char>, i: int)
    requires
        all_digits(s),
        0 <= i <= s.len(),
    ensures
        seq_val(s) >= seq_val(s.subrange(0, i)),
        seq_val(s) >= 0,
    decreases s.len() - i,
{
    if i == s.len() {
        assert(s.subrange(0, i) =~= s);
        lemma_seq_val_nonneg(s);
    } else {
        lemma_seq_val_prefix(s, i + 1);
        let p = s.subrange(0, i);
        let q = s.subrange(0, i + 1);
        assert(q.drop_last() =~= p);
        assert(seq_val(q) == seq_val(p) * 10 + digit_val(q.last()));
        lemma_seq_val_nonneg(p);
    }
}

proof fn lemma_seq_val_nonneg(s: Seq<char>)
    requires
        all_digits(s),
    ensures
        seq_val(s) >= 0,
    decreases s.len(),
{
    if s.len() > 0 {
        assert(all_digits(s.drop_last()));
        lemma_seq_val_nonneg(s.drop_last());
    }
}

/// Reads the canonical decimal text of a timestamp file.  Returns the
/// value exactly when the text is canonical and the value fits in `u64`;
/// any other content is rejected, so a malformed file reads as absent.
pub fn parse_secs(s: &str) -> (r: Option<u64>)
    ensures
        match r {
            Some(n) => canonical_dec(s@) && seq_val(s@) == n,
            None => !canonical_dec(s@) || seq_val(s@) > u64::MAX,
        },
{
    let len = s.unicode_len();
    if len == 0 {
        return None;
    }
    if len > 1 && s.get_char(0) == '0' {
        return None;
    }
    let mut i: usize = 0;
    let mut n: u64 = 0;
    while i < len
        invariant
            0 <= i <= len,
            len == s@.len(),
            len > 1 ==> s@[0] != '0',
            all_digits(s@.subrange(0, i as int)),
            n == seq_val(s@.subrange(0, i as int)),
        decreases len - i,
    {
        let c = s.get_char(i);
        if c < '0' || c > '9' {
            return None;
        }
        let d: u64 = (c as u32 - '0' as u32) as u64;
        proof {
            let p = s@.subrange(0, i as int);
            let q = s@.subrange(0, (i + 1) as int);
            assert(q.drop_last() =~= p);
            assert(q.last() == c);
            assert(seq_val(q) == seq_val(p) * 10 + digit_val(c));
        }
        if n > (u64::MAX - d) / 10 {
            proof {
                let q = s@.subrange(0, (i + 1) as int);
                assert(seq_val(q) == n * 10 + d);
                assert(n * 10 + d > u64::MAX) by (nonlinear_arith)
                    requires
                        n > (u64::MAX - d) / 10,
                        d < 10,
                ;
                if all_digits(s@) {
                    lemma_seq_val_prefix(s@, (i + 1) as int);
                }
            }
            return None;
        }
        n = n * 10 + d;
        i += 1;
    }
    proof {
        assert(s@.subrange(0, len as int) =~= s@);
    }
    Some(n)
}

/// A digit string that starts with a nonzero digit denotes at least 1.
proof fn lemma_leading_nonzero_pos(s: Seq<char>)
    requires
        all_digits(s),
        s.len() >= 1,
        s[0] != '0',
    ensures
        seq_val(s) >= 1,
    decreases s.len(),
{
    if s.len() == 1 {
        assert(s.drop_last() =~= Seq::<char>::empty());
        assert(seq_val(Seq::<char>::empty()) == 0);
        assert(s.last() == s[0]);
        assert(seq_val(s) == seq_val(s.drop_last()) * 10 + digit_val(s.last()));
        assert(digit_val(s[0]) >= 1);
    } else {
        let p = s.drop_last();
        assert(all_digits(p));
        assert(p[0] == s[0]);
        lemma_leading_nonzero_pos(p);
        assert(seq_val(s) == seq_val(p) * 10 + digit_val(s.last()));
        assert(digit_val(s.last()) >= 0);
    }
}

/// Canonical decimal texts are unique: a canonical text denoting `n` is
/// the one `dec_spec` gives, so `format_secs`'s contract determines its
/// result exactly.
pub proof fn lemma_canonical_dec_unique(s: Seq<char>, n: int)
    requires
        canonical_dec(s),
        seq_val(s) == n,
    ensures
        s =~= dec_spec(n),
    decreases s.len(),
{
    let d = digit_val(s.last());
    let v = seq_val(s.drop_last());
    assert(is_digit(s.last()));
    assert(0 <= d < 10);
    if s.len() == 1 {
        assert(s.drop_last() =~= Seq::<char>::empty());
        assert(n == d);
        assert(digit_char(d) == s.last());
        assert(s =~= seq![s[0]]);
    } else {
        let p = s.drop_last();
        assert(all_digits(p));
        assert(p[0] == s[0]);
        lemma_leading_nonzero_pos(p);
        assert(canonical_dec(p)) by {
            if p.len() > 1 {
                assert(p[0] != '0');
            }
        }
        assert(n == v * 10 + d);
        assert(v >= 1);
        assert(n / 10 == v && n % 10 == d) by (nonlinear_arith)
            requires
                n == v * 10 + d,
                0 <= d < 10,
                v >= 0,
        ;
        assert(n >= 10) by (nonlinear_arith)
            requires
                n == v * 10 + d,
                v >= 1,
                d >= 0,
        ;
        lemma_canonical_dec_unique(p, v);
        assert(digit_char(d) == s.last());
        assert(dec_spec(n) == dec_spec(v) + seq![digit_char(d)]);
        assert(s =~= p + seq![s.last()]);
    }
}

/// Round trip: text meeting `format_secs`'s contract for `n` is read
/// back as `n` by anything meeting `parse_secs`'s contract — a stored
/// timestamp is never misread.
pub proof fn lemma_secs_round_trip(s: Seq<char>, n: u64, r: Option<u64>)
    requires
        canonical_dec(s),
        seq_val(s) == n,
        match r {
            Some(m) => canonical_dec(s) && seq_val(s) == m,
            None => !canonical_dec(s) || seq_val(s) > u64::MAX,
        },
    ensures
        r == Some(n),
{
}

} // verus!
