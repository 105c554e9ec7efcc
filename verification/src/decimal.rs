//! Decimal text of integers, as `{}` formats them.
use vstd::prelude::*;

verus! {

/// The character of the decimal digit `d`.
pub open spec fn digit_char(d: nat) -> char {
    (48 + d) as char
}

/// The decimal digits of `n`, most significant first, without leading
/// zeros (`"0"` for zero).
pub open spec fn decimal_of(n: nat) -> Seq<char>
    decreases n,
{
    if n < 10 {
        seq![digit_char(n)]
    } else {
        decimal_of(n / 10).push(digit_char(n % 10))
    }
}

/// The decimal text of a signed integer: a minus sign before the digits of
/// its magnitude when it is negative.
pub open spec fn signed_decimal_of(i: int) -> Seq<char> {
    if i < 0 {
        seq!['-'] + decimal_of((-i) as nat)
    } else {
        decimal_of(i as nat)
    }
}

fn digit_str(d: u64) -> (r: &'static str)
    requires
        d < 10,
    ensures
        r@ == seq![digit_char(d as nat)],
{
    proof {
        reveal_strlit("0");
        reveal_strlit("1");
        reveal_strlit("2");
        reveal_strlit("3");
        reveal_strlit("4");
        reveal_strlit("5");
        reveal_strlit("6");
        reveal_strlit("7");
        reveal_strlit("8");
        reveal_strlit("9");
    }
    match d {
        0 => "0",
        1 => "1",
        2 => "2",
        3 => "3",
        4 => "4",
        5 => "5",
        6 => "6",
        7 => "7",
        8 => "8",
        _ => "9",
    }
}

/// The decimal text of an unsigned integer.
pub fn decimal(n: u64) -> (r: String)
    ensures
        r@ == decimal_of(n as nat),
    decreases n,
{
    if n < 10 {
        String::from_str(digit_str(n))
    } else {
        let prefix = decimal(n / 10);
        let last = digit_str(n % 10);
        let res = prefix.concat(last);
        assert(res@ == decimal_of((n / 10) as nat) + seq![digit_char((n % 10) as nat)]);
        assert(decimal_of(n as nat) == decimal_of((n / 10) as nat).push(digit_char((n % 10) as nat)));
        res
    }
}

/// The decimal text of a signed integer.
pub fn signed_decimal(i: i64) -> (r: String)
    ensures
        r@ == signed_decimal_of(i as int),
{
    if i < 0 {
        let magnitude: u64 = if i == i64::MIN {
            0x8000_0000_0000_0000
        } else {
            (-i) as u64
        };
        let digits = decimal(magnitude);
        let minus = String::from_str("-");
        proof {
            reveal_strlit("-");
        }
        minus.concat(digits.as_str())
    } else {
        decimal(i as u64)
    }
}


/// `s` padded with zeros after its sign (if any) up to `width` characters,
/// as the `{:0width}` format does.
pub open spec fn zero_padded_of(i: int, width: nat) -> Seq<char> {
    let digits = decimal_of(if i < 0 {
        (-i) as nat
    } else {
        i as nat
    });
    let sign: Seq<char> = if i < 0 {
        seq!['-']
    } else {
        Seq::empty()
    };
    let pad = width - sign.len() - digits.len();
    sign + Seq::new(if pad > 0 {
        pad as nat
    } else {
        0
    }, |k: int| '0') + digits
}

proof fn lemma_decimal_len(n: nat)
    ensures
        decimal_of(n).len() >= 1,
        n < 10 ==> decimal_of(n).len() == 1,
        10 <= n < 100 ==> decimal_of(n).len() == 2,
        n >= 100 ==> decimal_of(n).len() >= 3,
{
    if n >= 10 {
        assert(decimal_of(n / 10).len() >= 1);
        if n >= 100 {
            assert(decimal_of(n / 100).len() >= 1);
            assert(decimal_of(n / 10) == decimal_of(n / 10 / 10).push(digit_char((n / 10) % 10)));
            assert(n / 10 / 10 == n / 100);
        }
    }
}

/// The text of `i` padded with zeros to at least three characters (the sign
/// counts), as `{:03}` formats it.
pub fn zero_padded3(i: i64) -> (r: String)
    ensures
        r@ == zero_padded_of(i as int, 3),
{
    let magnitude: u64 = if i == i64::MIN {
        0x8000_0000_0000_0000
    } else if i < 0 {
        (-i) as u64
    } else {
        i as u64
    };
    let digits = decimal(magnitude);
    proof {
        lemma_decimal_len(magnitude as nat);
        reveal_strlit("-");
        reveal_strlit("0");
    }
    let mut res = if i < 0 {
        String::from_str("-")
    } else {
        String::new()
    };
    let sign_len: usize = if i < 0 {
        1
    } else {
        0
    };
    let digit_count: usize = if magnitude < 10 {
        1
    } else if magnitude < 100 {
        2
    } else {
        3
    };
    let used = sign_len + digit_count;
    let ghost start = res@;
    let mut k: usize = used;
    while k < 3
        invariant
            used <= k,
            k <= 3 || k == used,
            res@ == start + Seq::new((k - used) as nat, |j: int| '0'),
        decreases 3 - k,
    {
        proof {
            reveal_strlit("0");
        }
        assert("0"@ =~= seq!['0']);
        res.append("0");
        assert(Seq::new((k - used) as nat, |j: int| '0').push('0') =~= Seq::new(
            (k + 1 - used) as nat,
            |j: int| '0',
        ));
        assert(res@ =~= start + Seq::new((k + 1 - used) as nat, |j: int| '0'));
        k = k + 1;
    }
    let out = res.concat(digits.as_str());
    assert(out@ =~= zero_padded_of(i as int, 3));
    out
}

} // verus!
