//! Serial numbers that never run out: natural numbers of any size, counted up
//! one at a time and written out in decimal.
//!
//! Subscription handles and session identifiers are both drawn from a
//! [`Serial`], so neither the registry nor the session table ever has to turn
//! a request away because a fixed-width counter is exhausted.

use vstd::prelude::*;

verus! {

/// The value of a little-endian string of decimal digits.
pub open spec fn digits_value(digits: Seq<u8>) -> nat
    decreases digits.len(),
{
    if digits.len() == 0 {
        0
    } else {
        digits[0] as nat + 10 * digits_value(digits.skip(1))
    }
}

/// Every element is a decimal digit.
pub open spec fn all_decimal(digits: Seq<u8>) -> bool {
    forall|i: int| 0 <= i < digits.len() ==> #[trigger] digits[i] < 10
}

/// At least one digit, all of them decimal, and no superfluous leading zero
/// (the most significant digit is the last one).
pub open spec fn canonical(digits: Seq<u8>) -> bool {
    &&& digits.len() >= 1
    &&& all_decimal(digits)
    &&& digits.len() > 1 ==> digits.last() != 0
}

/// The digits of the next number.
pub open spec fn succ_digits(digits: Seq<u8>) -> Seq<u8>
    decreases digits.len(),
{
    if digits.len() == 0 {
        seq![1u8]
    } else if digits[0] < 9 {
        digits.update(0, (digits[0] + 1) as u8)
    } else {
        seq![0u8] + succ_digits(digits.skip(1))
    }
}

/// The character that stands for one decimal digit.
pub open spec fn digit_char(d: nat) -> char {
    if d == 0 {
        '0'
    } else if d == 1 {
        '1'
    } else if d == 2 {
        '2'
    } else if d == 3 {
        '3'
    } else if d == 4 {
        '4'
    } else if d == 5 {
        '5'
    } else if d == 6 {
        '6'
    } else if d == 7 {
        '7'
    } else if d == 8 {
        '8'
    } else {
        '9'
    }
}

/// The usual decimal notation of `n`: most significant digit first, no
/// leading zero, and `"0"` for zero.
pub open spec fn decimal_text(n: nat) -> Seq<char>
    decreases n,
{
    if n < 10 {
        seq![digit_char(n)]
    } else {
        decimal_text(n / 10).push(digit_char(n % 10))
    }
}

/// Little-endian digits written most significant first.
pub open spec fn digits_text(digits: Seq<u8>) -> Seq<char> {
    Seq::new(digits.len(), |i: int| digit_char(digits[digits.len() - 1 - i] as nat))
}

proof fn lemma_value_positive(digits: Seq<u8>)
    requires
        digits.len() >= 1,
        digits.last() != 0,
    ensures
        digits_value(digits) >= 1,
    decreases digits.len(),
{
    if digits.len() > 1 {
        let tail = digits.skip(1);
        assert(tail.last() == digits.last());
        lemma_value_positive(tail);
    }
}

proof fn lemma_succ_digits(digits: Seq<u8>)
    requires
        all_decimal(digits),
        digits.len() > 1 ==> digits.last() != 0,
    ensures
        digits_value(succ_digits(digits)) == digits_value(digits) + 1,
        canonical(succ_digits(digits)),
        succ_digits(digits).last() != 0,
    decreases digits.len(),
{
    let next = succ_digits(digits);
    if digits.len() == 0 {
        assert(digits_value(next.skip(1)) == 0);
        assert(digits_value(next) == 1);
    } else if digits[0] < 9 {
        assert(next.skip(1) =~= digits.skip(1));
        assert(digits_value(next) == next[0] as nat + 10 * digits_value(next.skip(1)));
        assert forall|i: int| 0 <= i < next.len() implies #[trigger] next[i] < 10 by {
            if i > 0 {
                assert(digits[i] < 10);
            }
        }
    } else {
        let tail = digits.skip(1);
        assert(digits[0] == 9);
        assert forall|i: int| 0 <= i < tail.len() implies #[trigger] tail[i] < 10 by {
            assert(digits[i + 1] < 10);
        }
        if tail.len() > 1 {
            assert(tail.last() == digits.last());
        }
        lemma_succ_digits(tail);
        let rest = succ_digits(tail);
        assert(next.skip(1) =~= rest);
        assert(next.last() == rest.last());
        assert(digits_value(next) == next[0] as nat + 10 * digits_value(rest));
        assert(digits_value(digits) == 9 + 10 * digits_value(tail));
        assert forall|i: int| 0 <= i < next.len() implies #[trigger] next[i] < 10 by {
            if i > 0 {
                assert(next[i] == rest[i - 1]);
            }
        }
    }
}

proof fn lemma_digits_determined(a: Seq<u8>, b: Seq<u8>)
    requires
        canonical(a),
        canonical(b),
        digits_value(a) == digits_value(b),
    ensures
        a == b,
    decreases a.len(),
{
    let ta = a.skip(1);
    let tb = b.skip(1);
    assert(a[0] < 10 && b[0] < 10);
    if a.len() > 1 {
        assert(ta.last() == a.last());
        lemma_value_positive(ta);
    } else {
        assert(digits_value(ta) == 0);
    }
    if b.len() > 1 {
        assert(tb.last() == b.last());
        lemma_value_positive(tb);
    } else {
        assert(digits_value(tb) == 0);
    }
    assert(a[0] == b[0] && digits_value(ta) == digits_value(tb));
    if a.len() > 1 {
        assert(b.len() > 1);
        assert forall|i: int| 0 <= i < ta.len() implies #[trigger] ta[i] < 10 by {
            assert(a[i + 1] < 10);
        }
        assert forall|i: int| 0 <= i < tb.len() implies #[trigger] tb[i] < 10 by {
            assert(b[i + 1] < 10);
        }
        lemma_digits_determined(ta, tb);
        assert(a =~= seq![a[0]] + ta);
        assert(b =~= seq![b[0]] + tb);
    } else {
        assert(b.len() == 1);
        assert(a =~= b);
    }
}

proof fn lemma_digits_text(digits: Seq<u8>)
    requires
        canonical(digits),
    ensures
        digits_text(digits) == decimal_text(digits_value(digits)),
    decreases digits.len(),
{
    let tail = digits.skip(1);
    assert(digits[0] < 10);
    if digits.len() == 1 {
        assert(digits_value(tail) == 0);
        assert(digits_text(digits) =~= seq![digit_char(digits[0] as nat)]);
    } else {
        assert(tail.last() == digits.last());
        lemma_value_positive(tail);
        assert forall|i: int| 0 <= i < tail.len() implies #[trigger] tail[i] < 10 by {
            assert(digits[i + 1] < 10);
        }
        lemma_digits_text(tail);
        let n = digits_value(digits);
        assert(n / 10 == digits_value(tail) && n % 10 == digits[0] as nat);
        assert(digits_text(digits) =~= digits_text(tail).push(digit_char(digits[0] as nat)));
    }
}

proof fn lemma_digit_char_injective(x: nat, y: nat)
    requires
        x < 10,
        y < 10,
        digit_char(x) == digit_char(y),
    ensures
        x == y,
{
}

/// The shape of the next number's digits: a run of `nines` nines becomes
/// zeros, and the digit after it, if there is one, goes up by one.
proof fn lemma_succ_shape(digits: Seq<u8>, nines: int)
    requires
        0 <= nines <= digits.len(),
        forall|j: int| 0 <= j < nines ==> digits[j] == 9,
        nines < digits.len() ==> digits[nines] < 9,
    ensures
        nines == digits.len() ==> succ_digits(digits).len() == digits.len() + 1,
        nines < digits.len() ==> succ_digits(digits).len() == digits.len(),
        forall|j: int| 0 <= j < nines ==> succ_digits(digits)[j] == 0,
        nines == digits.len() ==> succ_digits(digits)[nines] == 1,
        nines < digits.len() ==> succ_digits(digits)[nines] == digits[nines] + 1,
        forall|j: int| nines < j < digits.len() ==> succ_digits(digits)[j] == digits[j],
    decreases nines,
{
    if nines > 0 {
        let tail = digits.skip(1);
        assert(digits[0] == 9);
        assert forall|j: int| 0 <= j < nines - 1 implies tail[j] == 9 by {
            assert(tail[j] == digits[j + 1]);
        }
        lemma_succ_shape(tail, nines - 1);
        let next = succ_digits(digits);
        let rest = succ_digits(tail);
        assert(next == seq![0u8] + rest);
        assert forall|j: int| 0 <= j < nines implies next[j] == 0 by {
            if j > 0 {
                assert(next[j] == rest[j - 1]);
            }
        }
        assert(next[nines] == rest[nines - 1]);
        assert forall|j: int| nines < j < digits.len() implies next[j] == digits[j] by {
            assert(next[j] == rest[j - 1]);
            assert(tail[j - 1] == digits[j]);
        }
    }
}

/// Decimal notation never yields the empty string.
pub proof fn lemma_decimal_text_nonempty(n: nat)
    ensures
        decimal_text(n).len() >= 1,
    decreases n,
{
    if n >= 10 {
        lemma_decimal_text_nonempty(n / 10);
    }
}

/// Two numbers with the same decimal notation are the same number.
pub proof fn lemma_decimal_text_injective(a: nat, b: nat)
    requires
        decimal_text(a) == decimal_text(b),
    ensures
        a == b,
    decreases a,
{
    lemma_decimal_text_nonempty(a / 10);
    lemma_decimal_text_nonempty(b / 10);
    if a < 10 && b < 10 {
        assert(decimal_text(a)[0] == digit_char(a));
        assert(decimal_text(b)[0] == digit_char(b));
        lemma_digit_char_injective(a, b);
    } else if a >= 10 && b >= 10 {
        let ta = decimal_text(a / 10);
        let tb = decimal_text(b / 10);
        let ca = digit_char(a % 10);
        let cb = digit_char(b % 10);
        assert(ta.push(ca).drop_last() =~= ta);
        assert(tb.push(cb).drop_last() =~= tb);
        assert(ta.push(ca).last() == ca);
        assert(tb.push(cb).last() == cb);
        lemma_decimal_text_injective(a / 10, b / 10);
        lemma_digit_char_injective(a % 10, b % 10);
        assert(a == 10 * (a / 10) + a % 10);
        assert(b == 10 * (b / 10) + b % 10);
    } else if a < 10 {
        assert(decimal_text(a).len() == 1);
        assert(decimal_text(b).len() == decimal_text(b / 10).len() + 1);
    } else {
        assert(decimal_text(b).len() == 1);
        assert(decimal_text(a).len() == decimal_text(a / 10).len() + 1);
    }
}

/// A natural number of any size.
#[derive(Debug, PartialEq, Eq)]
pub struct Serial {
    /// Decimal digits, least significant first.
    digits: Vec<u8>,
}

impl View for Serial {
    type V = nat;

    closed spec fn view(&self) -> nat {
        digits_value(self.digits@)
    }
}

fn digit_str(d: u8) -> (s: &'static str)
    requires
        d < 10,
    ensures
        s@ == seq![digit_char(d as nat)],
{
    proof {
        reveal_strlit("0");
        reveal_strlit("1");
        reveal_strlit("2");
        reveal_strlit("3");
        reveal_strlit("4");
        reveal_strlit("5");
        reveal_strlit("6");
        reveal_strlit("7");
        reveal_strlit("8");
        reveal_strlit("9");
    }
    let s = if d == 0 {
        "0"
    } else if d == 1 {
        "1"
    } else if d == 2 {
        "2"
    } else if d == 3 {
        "3"
    } else if d == 4 {
        "4"
    } else if d == 5 {
        "5"
    } else if d == 6 {
        "6"
    } else if d == 7 {
        "7"
    } else if d == 8 {
        "8"
    } else {
        "9"
    };
    assert(s@ =~= seq![digit_char(d as nat)]);
    s
}

impl Serial {
    #[verifier::type_invariant]
    spec fn well_formed(self) -> bool {
        canonical(self.digits@)
    }

    /// The number zero.
    pub fn zero() -> (serial: Serial)
        ensures
            serial@ == 0,
    {
        let mut digits: Vec<u8> = Vec::new();
        digits.push(0);
        assert(digits_value(digits@.skip(1)) == 0);
        assert(digits_value(digits@) == 0);
        Serial { digits }
    }

    /// The number after this one.
    pub fn successor(&self) -> (next: Serial)
        ensures
            next@ == self@ + 1,
    {
        proof {
            use_type_invariant(self);
            lemma_succ_digits(self.digits@);
        }
        let ghost target = succ_digits(self.digits@);
        let len = self.digits.len();
        let mut digits: Vec<u8> = Vec::new();
        let mut i: usize = 0;
        while i < len && self.digits[i] == 9
            invariant
                len == self.digits.len(),
                i <= len,
                digits@.len() == i,
                forall|j: int| 0 <= j < i ==> #[trigger] self.digits@[j] == 9,
                forall|j: int| 0 <= j < i ==> #[trigger] digits@[j] == 0,
            decreases len - i,
        {
            digits.push(0);
            i += 1;
        }
        proof {
            lemma_succ_shape(self.digits@, i as int);
        }
        if i == len {
            digits.push(1);
        } else {
            let ghost nines = i;
            digits.push(self.digits[i] + 1);
            i += 1;
            while i < len
                invariant
                    len == self.digits.len(),
                    nines < i <= len,
                    digits@.len() == i,
                    target.len() == len,
                    forall|j: int| 0 <= j <= nines ==> digits@[j] == target[j],
                    forall|j: int| nines < j < len ==> target[j] == self.digits@[j],
                    forall|j: int| nines < j < i ==> digits@[j] == target[j],
                decreases len - i,
            {
                digits.push(self.digits[i]);
                i += 1;
            }
        }
        assert(digits@ =~= target);
        Serial { digits }
    }

    /// A second copy of the same number.
    pub fn duplicate(&self) -> (copy: Serial)
        ensures
            copy@ == self@,
    {
        proof {
            use_type_invariant(self);
        }
        let len = self.digits.len();
        let mut digits: Vec<u8> = Vec::new();
        let mut i: usize = 0;
        while i < len
            invariant
                len == self.digits.len(),
                i <= len,
                digits@ =~= self.digits@.take(i as int),
            decreases len - i,
        {
            digits.push(self.digits[i]);
            i += 1;
        }
        assert(digits@ =~= self.digits@);
        Serial { digits }
    }

    /// Whether two serials are the same number.
    pub fn equals(&self, other: &Serial) -> (same: bool)
        ensures
            same == (self@ == other@),
    {
        proof {
            use_type_invariant(self);
            use_type_invariant(other);
            if self@ == other@ {
                lemma_digits_determined(self.digits@, other.digits@);
            }
        }
        let len = self.digits.len();
        if len != other.digits.len() {
            return false;
        }
        let mut i: usize = 0;
        while i < len
            invariant
                len == self.digits.len(),
                len == other.digits.len(),
                i <= len,
                self@ == other@ ==> self.digits@ == other.digits@,
                self.digits@.take(i as int) =~= other.digits@.take(i as int),
            decreases len - i,
        {
            if self.digits[i] != other.digits[i] {
                return false;
            }
            assert(self.digits@.take(i + 1) =~= self.digits@.take(i as int).push(
                self.digits@[i as int],
            ));
            assert(other.digits@.take(i + 1) =~= other.digits@.take(i as int).push(
                other.digits@[i as int],
            ));
            i += 1;
        }
        assert(self.digits@ =~= self.digits@.take(len as int));
        assert(other.digits@ =~= other.digits@.take(len as int));
        true
    }

    /// The number in decimal notation.
    pub fn to_text(&self) -> (text: String)
        ensures
            text@ == decimal_text(self@),
    {
        proof {
            use_type_invariant(self);
            lemma_digits_text(self.digits@);
        }
        let len = self.digits.len();
        let mut text = String::new();
        let mut i: usize = 0;
        while i < len
            invariant
                len == self.digits.len(),
                i <= len,
                all_decimal(self.digits@),
                text@ =~= digits_text(self.digits@).take(i as int),
            decreases len - i,
        {
            let d = self.digits[len - 1 - i];
            assert(digits_text(self.digits@).take(i + 1) =~= digits_text(self.digits@).take(
                i as int,
            ) + seq![digit_char(d as nat)]);
            text.append(digit_str(d));
            i += 1;
        }
        assert(digits_text(self.digits@).take(len as int) =~= digits_text(self.digits@));
        text
    }
}

} // verus!
