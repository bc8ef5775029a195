use vstd::prelude::*;

use crate::error::ChainError;

verus! {

pub open spec fn is_digit(c: char) -> bool {
    '0' <= c && c <= '9'
}

pub open spec fn digit_value(c: char) -> nat {
    (c as int - '0' as int) as nat
}

pub open spec fn digit_char(d: nat) -> char {
    if d == 0 {
        '0'
    } else if d == 1 {
        '1'
    } else if d == 2 {
        '2'
    } else if d == 3 {
        '3'
    } else if d == 4 {
        '4'
    } else if d == 5 {
        '5'
    } else if d == 6 {
        '6'
    } else if d == 7 {
        '7'
    } else if d == 8 {
        '8'
    } else {
        '9'
    }
}

pub open spec fn all_digits(s: Seq<char>) -> bool {
    forall|i: int| 0 <= i < s.len() ==> is_digit(#[trigger] s[i])
}

/// The number that a string of decimal digits denotes.
pub open spec fn decimal_value(s: Seq<char>) -> nat
    decreases s.len(),
{
    if s.len() == 0 {
        0
    } else {
        decimal_value(s.drop_last()) * 10 + digit_value(s.last())
    }
}

/// The shortest decimal text of `n`.
pub open spec fn decimal_text(n: nat) -> Seq<char>
    decreases n,
{
    if n < 10 {
        seq![digit_char(n)]
    } else {
        decimal_text(n / 10).push(digit_char(n % 10))
    }
}

/// A wire amount: a non-empty run of decimal digits whose value fits a `u128`.
pub open spec fn amount_text_valid(s: Seq<char>) -> bool {
    s.len() > 0 && all_digits(s) && decimal_value(s) <= u128::MAX
}

proof fn lemma_digit_char(d: nat)
    requires
        d < 10,
    ensures
        is_digit(digit_char(d)),
        digit_value(digit_char(d)) == d,
{
}

proof fn lemma_decimal_text(n: nat)
    ensures
        decimal_text(n).len() > 0,
        all_digits(decimal_text(n)),
        decimal_value(decimal_text(n)) == n,
    decreases n,
{
    if n < 10 {
        lemma_digit_char(n);
        assert(decimal_text(n).drop_last() =~= Seq::<char>::empty());
        assert(decimal_value(Seq::<char>::empty()) == 0);
        assert(decimal_value(decimal_text(n)) == decimal_value(Seq::<char>::empty()) * 10
            + digit_value(digit_char(n)));
    } else {
        lemma_decimal_text(n / 10);
        lemma_digit_char(n % 10);
        let t = decimal_text(n);
        assert(t.drop_last() =~= decimal_text(n / 10));
        assert(all_digits(t)) by {
            assert forall|i: int| 0 <= i < t.len() implies is_digit(#[trigger] t[i]) by {
                if i < t.len() - 1 {
                    assert(t[i] == decimal_text(n / 10)[i]);
                }
            }
        }
        assert((n / 10) * 10 + n % 10 == n) by (nonlinear_arith);
        assert(t.last() == digit_char(n % 10));
        assert(decimal_value(t) == decimal_value(decimal_text(n / 10)) * 10 + digit_value(
            digit_char(n % 10),
        ));
    }
}

proof fn lemma_prefix_value(s: Seq<char>, i: int)
    requires
        0 <= i < s.len(),
    ensures
        decimal_value(s.take(i + 1)) == decimal_value(s.take(i)) * 10 + digit_value(s[i]),
{
    assert(s.take(i + 1).drop_last() =~= s.take(i));
}

proof fn lemma_prefix_le(s: Seq<char>, i: int)
    requires
        0 <= i <= s.len(),
    ensures
        decimal_value(s.take(i)) <= decimal_value(s),
    decreases s.len(),
{
    if i == s.len() {
        assert(s.take(i) =~= s);
    } else {
        let d = s.drop_last();
        assert(s.take(i) =~= d.take(i));
        lemma_prefix_le(d, i);
    }
}

/// The text of a single decimal digit.
fn digit_text(d: u128) -> (r: &'static str)
    requires
        d < 10,
    ensures
        r@ == seq![digit_char(d as nat)],
{
    proof {
        reveal_strlit("0");
        reveal_strlit("1");
        reveal_strlit("2");
        reveal_strlit("3");
        reveal_strlit("4");
        reveal_strlit("5");
        reveal_strlit("6");
        reveal_strlit("7");
        reveal_strlit("8");
        reveal_strlit("9");
    }
    if d == 0 {
        "0"
    } else if d == 1 {
        "1"
    } else if d == 2 {
        "2"
    } else if d == 3 {
        "3"
    } else if d == 4 {
        "4"
    } else if d == 5 {
        "5"
    } else if d == 6 {
        "6"
    } else if d == 7 {
        "7"
    } else if d == 8 {
        "8"
    } else {
        "9"
    }
}

fn push_decimal(out: &mut String, n: u128)
    ensures
        final(out)@ == old(out)@ + decimal_text(n as nat),
    decreases n,
{
    let ghost start = out@;
    if n >= 10 {
        push_decimal(out, n / 10);
    }
    out.append(digit_text(n % 10));
    proof {
        if n >= 10 {
            assert(decimal_text(n as nat) == decimal_text((n / 10) as nat).push(
                digit_char((n % 10) as nat),
            ));
            assert(out@ =~= start + decimal_text(n as nat));
        } else {
            assert(out@ =~= start + decimal_text(n as nat));
        }
    }
}

/// The wire text of a magnitude: its shortest decimal digits.
pub fn amount_to_text(n: u128) -> (r: String)
    ensures
        r@ == decimal_text(n as nat),
        amount_text_valid(r@),
{
    let mut out = String::new();
    push_decimal(&mut out, n);
    proof {
        assert(out@ =~= decimal_text(n as nat));
        lemma_decimal_text(n as nat);
    }
    out
}

/// Reads a wire amount; `None` unless it is a run of digits whose value fits.
pub fn amount_from_text(s: &str) -> (r: Option<u128>)
    ensures
        r == (if amount_text_valid(s@) {
            Some(decimal_value(s@) as u128)
        } else {
            None::<u128>
        }),
{
    let n = s.unicode_len();
    if n == 0 {
        return None;
    }
    let mut i: usize = 0;
    while i < n
        invariant
            n == s@.len(),
            i <= n,
            forall|j: int| 0 <= j < i ==> is_digit(#[trigger] s@[j]),
        decreases n - i,
    {
        let c = s.get_char(i);
        if !('0' <= c && c <= '9') {
            return None;
        }
        i = i + 1;
    }
    let mut acc: u128 = 0;
    let mut k: usize = 0;
    while k < n
        invariant
            n == s@.len(),
            k <= n,
            all_digits(s@),
            acc as nat == decimal_value(s@.take(k as int)),
        decreases n - k,
    {
        let c = s.get_char(k);
        let d = (c as u32 - '0' as u32) as u128;
        proof {
            assert(is_digit(s@[k as int]));
            lemma_prefix_value(s@, k as int);
        }
        if acc > (u128::MAX - d) / 10 {
            proof {
                let q = (u128::MAX - d) / 10;
                assert(acc * 10 + d > u128::MAX) by (nonlinear_arith)
                    requires
                        acc > q,
                        q == (u128::MAX - d) / 10,
                        d < 10,
                ;
                lemma_prefix_le(s@, k + 1);
            }
            return None;
        }
        proof {
            let q = (u128::MAX - d) / 10;
            assert(acc * 10 + d <= u128::MAX) by (nonlinear_arith)
                requires
                    acc <= q,
                    q == (u128::MAX - d) / 10,
                    d < 10,
            ;
        }
        acc = acc * 10 + d;
        k = k + 1;
    }
    proof {
        assert(s@.take(n as int) =~= s@);
    }
    Some(acc)
}

/// A magnitude with its denomination.
#[derive(Clone, Debug, PartialEq, Eq)]
pub struct Coin {
    pub denom: String,
    pub amount: u128,
}

/// A coin as it stands on the wire: the magnitude as decimal text.
#[derive(Clone, Debug, PartialEq, Eq)]
pub struct WireCoin {
    pub denom: String,
    pub amount: String,
}

impl View for Coin {
    type V = (Seq<char>, nat);

    open spec fn view(&self) -> (Seq<char>, nat) {
        (self.denom@, self.amount as nat)
    }
}

impl View for WireCoin {
    type V = (Seq<char>, Seq<char>);

    open spec fn view(&self) -> (Seq<char>, Seq<char>) {
        (self.denom@, self.amount@)
    }
}

/// The wire form of a coin.
pub open spec fn wire_of(c: (Seq<char>, nat)) -> (Seq<char>, Seq<char>) {
    (c.0, decimal_text(c.1))
}

/// The coin that a wire pair denotes, if its amount is valid.
pub open spec fn coin_of_wire(w: (Seq<char>, Seq<char>)) -> Option<(Seq<char>, nat)> {
    if amount_text_valid(w.1) {
        Some((w.0, decimal_value(w.1)))
    } else {
        None
    }
}

impl Coin {
    /// A coin of `amount` in `denom`; the denomination must not be empty.
    pub fn new(amount: u128, denom: &str) -> (r: Result<Coin, ChainError>)
        ensures
            denom@.len() == 0 ==> r == Err::<Coin, ChainError>(ChainError::EmptyDenom),
            denom@.len() > 0 ==> (r matches Ok(c) && c@ == (denom@, amount as nat)),
    {
        if denom.unicode_len() == 0 {
            return Err(ChainError::EmptyDenom);
        }
        Ok(Coin { denom: denom.to_string(), amount })
    }

    pub fn to_wire(&self) -> (r: WireCoin)
        ensures
            r@ == wire_of(self@),
    {
        WireCoin { denom: self.denom.clone(), amount: amount_to_text(self.amount) }
    }

    pub fn from_wire(w: &WireCoin) -> (r: Result<Coin, ChainError>)
        ensures
            match coin_of_wire(w@) {
                Some(c) => (r matches Ok(x) && x@ == c),
                None => r == Err::<Coin, ChainError>(ChainError::MalformedAmount),
            },
    {
        match amount_from_text(w.amount.as_str()) {
            Some(a) => Ok(Coin { denom: w.denom.clone(), amount: a }),
            None => Err(ChainError::MalformedAmount),
        }
    }
}

/// Decoding the wire form of a coin gives the coin back.
pub proof fn lemma_coin_round_trip(c: Coin)
    ensures
        coin_of_wire(wire_of(c@)) == Some(c@),
{
    lemma_decimal_text(c.amount as nat);
}

} // verus!
