//! Identifiers of users and rooms, and the text form in which they travel.

use rand::{rngs::OsRng, Rng};
use vstd::arithmetic::power::pow;
use vstd::prelude::*;
use vstd::string::*;

verus! {

/// A user's or a room's identifier.
#[derive(Debug, Copy, Clone, PartialEq, Eq, PartialOrd, Ord, Hash, Structural)]
pub struct Uid(pub u64);

/// The digits of the text form, in the order of their values: base64 for URLs and file names.
pub const ALPHABET: &'static str = "ABCDEFGHIJKLMNOPQRSTUVWXYZabcdefghijklmnopqrstuvwxyz0123456789-_";

/// The length of the text form: 64 bits and two zero bits behind them, six bits to a digit.
pub const TEXT_LEN: usize = 11;

/// The last `k` base-64 digits of `n`, most significant first.
pub open spec fn digits(n: nat, k: nat) -> Seq<nat>
    decreases k,
{
    if k == 0 {
        Seq::empty()
    } else {
        digits(n / 64, (k - 1) as nat).push(n % 64)
    }
}

/// The number that base-64 digits denote, most significant first.
pub open spec fn number(s: Seq<nat>) -> nat
    decreases s.len(),
{
    if s.len() == 0 {
        0
    } else {
        number(s.drop_last()) * 64 + s.last()
    }
}

/// The characters that stand for digits.
pub open spec fn letters(s: Seq<nat>) -> Seq<char> {
    s.map_values(|d: nat| ALPHABET@[d as int])
}

/// `digits` gives `k` digits, each below 64, which denote `n` where `n` fits in `k` digits.
proof fn lemma_digits(n: nat, k: nat)
    ensures
        digits(n, k).len() == k,
        forall|i: int| 0 <= i < k ==> #[trigger] digits(n, k)[i] < 64,
        number(digits(n, k)) == n % pow64(k),
    decreases k,
{
    if k > 0 {
        let p = pow64((k - 1) as nat);
        lemma_digits(n / 64, (k - 1) as nat);
        lemma_pow64_positive((k - 1) as nat);
        let s = digits(n, k);
        assert(s.drop_last() =~= digits(n / 64, (k - 1) as nat));
        let q = n / 64;
        let r = n % 64;
        let a = q / p;
        let b = q % p;
        vstd::arithmetic::div_mod::lemma_fundamental_div_mod(q as int, p as int);
        vstd::arithmetic::mul::lemma_mul_is_associative(64, p as int, a as int);
        vstd::arithmetic::mul::lemma_mul_is_commutative(64 * p as int, a as int);
        assert(64 * (p * a) == a * (64 * p));
        vstd::arithmetic::div_mod::lemma_fundamental_div_mod_converse(
            n as int,
            (64 * p) as int,
            a as int,
            (64 * b + r) as int,
        );
    } else {
        assert(n % 1 == 0);
    }
}

/// Digits below 64 are the digits of the number that they denote.
proof fn lemma_number(s: Seq<nat>)
    requires
        forall|i: int| 0 <= i < s.len() ==> #[trigger] s[i] < 64,
    ensures
        digits(number(s), s.len()) == s,
        number(s) < pow64(s.len()),
    decreases s.len(),
{
    if s.len() > 0 {
        let t = s.drop_last();
        lemma_number(t);
        assert(number(s) / 64 == number(t));
        assert(number(s) % 64 == s.last());
        assert(t.push(s.last()) =~= s);
        assert(number(t) * 64 + s.last() < 64 * pow64(t.len()));
    } else {
        assert(digits(number(s), 0) =~= s);
    }
}

/// 64 to the `k`.
spec fn pow64(k: nat) -> nat
    decreases k,
{
    if k == 0 {
        1
    } else {
        64 * pow64((k - 1) as nat)
    }
}

proof fn lemma_pow64_positive(k: nat)
    ensures
        pow64(k) > 0,
    decreases k,
{
    if k > 0 {
        lemma_pow64_positive((k - 1) as nat);
    }
}

/// No two digits share a character.
proof fn lemma_alphabet()
    ensures
        ALPHABET@.len() == 64,
        forall|i: int|
            0 <= i < 64 ==> #[trigger] ALPHABET@[i] as int == (if i < 26 {
                65 + i
            } else if i < 52 {
                71 + i
            } else if i < 62 {
                i - 4
            } else if i == 62 {
                45
            } else {
                95
            }),
        forall|i: int, j: int|
            0 <= i < 64 && 0 <= j < 64 && ALPHABET@[i] == ALPHABET@[j] ==> i == j,
{
    reveal_strlit("ABCDEFGHIJKLMNOPQRSTUVWXYZabcdefghijklmnopqrstuvwxyz0123456789-_");
    assert forall|i: int| 0 <= i < 64 implies ALPHABET@[i] as int == (if i < 26 {
        65 + i
    } else if i < 52 {
        71 + i
    } else if i < 62 {
        i - 4
    } else if i == 62 {
        45
    } else {
        95
    }) by {
        assert(i == 0 || i == 1 || i == 2 || i == 3 || i == 4 || i == 5 || i == 6
            || i == 7 || i == 8 || i == 9 || i == 10 || i == 11 || i == 12 || i == 13
            || i == 14 || i == 15 || i == 16 || i == 17 || i == 18 || i == 19 || i == 20
            || i == 21 || i == 22 || i == 23 || i == 24 || i == 25 || i == 26 || i == 27
            || i == 28 || i == 29 || i == 30 || i == 31 || i == 32 || i == 33 || i == 34
            || i == 35 || i == 36 || i == 37 || i == 38 || i == 39 || i == 40 || i == 41
            || i == 42 || i == 43 || i == 44 || i == 45 || i == 46 || i == 47 || i == 48
            || i == 49 || i == 50 || i == 51 || i == 52 || i == 53 || i == 54 || i == 55
            || i == 56 || i == 57 || i == 58 || i == 59 || i == 60 || i == 61 || i == 62
            || i == 63);
    }
}

/// Different digits are written differently.
proof fn lemma_letters_injective(s: Seq<nat>, t: Seq<nat>)
    requires
        letters(s) == letters(t),
        forall|i: int| 0 <= i < s.len() ==> #[trigger] s[i] < 64,
        forall|i: int| 0 <= i < t.len() ==> #[trigger] t[i] < 64,
    ensures
        s == t,
{
    lemma_alphabet();
    assert(letters(s).len() == s.len() && letters(t).len() == t.len());
    assert forall|i: int| 0 <= i < s.len() implies s[i] == t[i] by {
        assert(letters(s)[i] == ALPHABET@[s[i] as int]);
        assert(letters(t)[i] == ALPHABET@[t[i] as int]);
    }
    assert(s =~= t);
}

/// Draws 64 bits with `rand`'s `OsRng` through `Rng::gen`: every value can come back, so
/// nothing is claimed of the result. It panics where the operating system has no randomness
/// to give, which no argument decides.
#[verifier::external_body]
fn random_u64() -> u64 {
    OsRng.gen()
}

/// Reads one digit.
fn digit_of(c: char) -> (r: Option<u8>)
    ensures
        r matches Some(d) ==> d < 64 && ALPHABET@[d as int] == c,
        r is None ==> !ALPHABET@.contains(c),
{
    let mut i: usize = 0;
    proof {
        reveal_strlit("ABCDEFGHIJKLMNOPQRSTUVWXYZabcdefghijklmnopqrstuvwxyz0123456789-_");
    }
    while i < 64
        invariant
            i <= 64,
            ALPHABET@.len() == 64,
            forall|j: int| 0 <= j < i ==> ALPHABET@[j] != c,
        decreases 64 - i,
    {
        if ALPHABET.get_char(i) == c {
            return Some(i as u8);
        }
        i = i + 1;
    }
    None
}

impl Uid {
    /// The text form: the unpadded base64 of the identifier's eight bytes, most significant
    /// byte first.
    pub open spec fn text(self) -> Seq<char> {
        letters(digits(self.0 as nat * 4, TEXT_LEN as nat))
    }

    /// A fresh identifier, drawn at random. Which one comes back is up to the operating system:
    /// nothing is promised of it.
    pub fn generate() -> Self {
        Uid(random_u64())
    }

    /// Writes the text form.
    pub fn to_base64(&self) -> (r: String)
        ensures
            r@ == self.text(),
    {
        let total: u128 = self.0 as u128 * 4;
        let mut rest: u128 = total;
        let mut low: Vec<u8> = Vec::new();
        let ghost all = digits(total as nat, TEXT_LEN as nat);
        proof {
            lemma_digits(total as nat, TEXT_LEN as nat);
            lemma_alphabet();
            assert(all.skip(TEXT_LEN as int) =~= Seq::<nat>::empty());
        }
        // least significant digit first
        while low.len() < TEXT_LEN
            invariant
                low.len() <= TEXT_LEN,
                all.len() == TEXT_LEN,
                all == digits(rest as nat, (TEXT_LEN - low.len()) as nat) + all.skip(
                    TEXT_LEN - low.len(),
                ),
                forall|i: int| 0 <= i < low.len() ==> #[trigger] low[i] == all[TEXT_LEN - 1 - i],
                forall|i: int| 0 <= i < low.len() ==> #[trigger] low[i] < 64,
            decreases TEXT_LEN - low.len(),
        {
            let d: u8 = (rest % 64) as u8;
            let ghost k = (TEXT_LEN - low.len()) as nat;
            proof {
                lemma_digits(rest as nat, k);
                let s = digits(rest as nat, k);
                assert(s == digits(rest as nat / 64, (k - 1) as nat).push(rest as nat % 64));
                assert(all[k - 1] == s[k - 1]);
                assert(all.skip(k - 1) =~= seq![all[k - 1]] + all.skip(k as int));
                assert(all =~= digits(rest as nat / 64, (k - 1) as nat) + all.skip(k - 1));
            }
            low.push(d);
            rest = rest / 64;
        }
        let mut text = String::new();
        let mut i: usize = TEXT_LEN;
        assert(letters(all).take(0) =~= Seq::<char>::empty());
        while i > 0
            invariant
                i <= TEXT_LEN,
                low.len() == TEXT_LEN,
                all.len() == TEXT_LEN,
                ALPHABET@.len() == 64,
                forall|j: int| 0 <= j < low.len() ==> #[trigger] low[j] == all[TEXT_LEN - 1 - j],
                forall|j: int| 0 <= j < low.len() ==> #[trigger] low[j] < 64,
                text@ == letters(all).take(TEXT_LEN - i),
            decreases i,
        {
            i = i - 1;
            let d: usize = low[i] as usize;
            text.append(ALPHABET.substring_char(d, d + 1));
            assert(letters(all).take(TEXT_LEN - i) =~= letters(all).take(TEXT_LEN - i - 1)
                + ALPHABET@.subrange(d as int, d + 1));
        }
        assert(letters(all).take(TEXT_LEN as int) =~= letters(all));
        text
    }

    /// Reads the text form back: an identifier where `text` is the text form of one, `None` for
    /// any other text.
    pub fn from_base64(text: &str) -> (r: Option<Self>)
        ensures
            match r {
                Some(id) => text@ == id.text(),
                None => forall|id: Uid| #![trigger id.text()] text@ != id.text(),
            },
    {
        proof {
            lemma_alphabet();
            assert forall|id: Uid| #[trigger] id.text().len() == TEXT_LEN by {
                lemma_digits(id.0 as nat * 4, TEXT_LEN as nat);
            }
        }
        if text.unicode_len() != TEXT_LEN {
            return None;
        }
        let mut n: u128 = 0;
        let mut i: usize = 0;
        let ghost mut read: Seq<nat> = Seq::empty();
        while i < TEXT_LEN
            invariant
                i <= TEXT_LEN,
                text@.len() == TEXT_LEN,
                ALPHABET@.len() == 64,
                read.len() == i,
                forall|j: int| 0 <= j < i ==> #[trigger] read[j] < 64,
                letters(read) == text@.take(i as int),
                n == number(read),
                n < pow64(i as nat),
                forall|id: Uid| #[trigger] id.text().len() == TEXT_LEN,
            decreases TEXT_LEN - i,
        {
            match digit_of(text.get_char(i)) {
                Some(d) => {
                    proof {
                        let next = read.push(d as nat);
                        assert(next.drop_last() =~= read);
                        assert(text@.take(i + 1) =~= text@.take(i as int).push(text@[i as int]));
                        assert(letters(next) =~= text@.take(i + 1));
                        reveal_with_fuel(pow64, 12);
                        assert(pow64(i as nat) <= 64 * 64 * 64 * 64 * 64 * 64 * 64 * 64 * 64 * 64);
                        read = next;
                    }
                    n = n * 64 + d as u128;
                },
                None => {
                    proof {
                        assert forall|id: Uid| text@ != #[trigger] id.text() by {
                            lemma_digits(id.0 as nat * 4, TEXT_LEN as nat);
                            if text@ == id.text() {
                                let d = digits(id.0 as nat * 4, TEXT_LEN as nat)[i as int];
                                assert(text@[i as int] == ALPHABET@[d as int]);
                                assert(ALPHABET@.contains(text@[i as int]));
                            }
                        }
                    }
                    return None;
                },
            }
            i = i + 1;
        }
        proof {
            assert(text@.take(TEXT_LEN as int) =~= text@);
            lemma_number(read);
            reveal_with_fuel(pow64, 12);
            assert(n < 0x4_0000_0000_0000_0000);
            assert forall|id: Uid| text@ == #[trigger] id.text() implies n == id.0 * 4 by {
                lemma_digits(id.0 as nat * 4, TEXT_LEN as nat);
                lemma_letters_injective(read, digits(id.0 as nat * 4, TEXT_LEN as nat));
                assert((id.0 as nat * 4) % 0x4_0000_0000_0000_0000 == id.0 as nat * 4);
            }
        }
        if n % 4 == 0 {
            Some(Uid((n / 4) as u64))
        } else {
            None
        }
    }
}

/// No two identifiers share a text form, so reading a text form gives back the identifier that
/// wrote it.
pub proof fn law_text_identifies(a: Uid, b: Uid)
    ensures
        a.text() == b.text() ==> a == b,
{
    if a.text() == b.text() {
        lemma_digits(a.0 as nat * 4, TEXT_LEN as nat);
        lemma_digits(b.0 as nat * 4, TEXT_LEN as nat);
        lemma_letters_injective(
            digits(a.0 as nat * 4, TEXT_LEN as nat),
            digits(b.0 as nat * 4, TEXT_LEN as nat),
        );
        reveal_with_fuel(pow64, 12);
        assert((a.0 as nat * 4) % 0x4_0000_0000_0000_0000 == a.0 as nat * 4);
        assert((b.0 as nat * 4) % 0x4_0000_0000_0000_0000 == b.0 as nat * 4);
    }
}

/// Each digit is read off the number by its place.
proof fn lemma_digit_at(n: nat, k: nat, i: int)
    requires
        0 <= i < k,
    ensures
        digits(n, k).len() == k,
        digits(n, k)[i] == (n as int / pow(64, (k - 1 - i) as nat)) % 64,
    decreases k,
{
    lemma_digits(n, k);
    let rest = (k - 1) as nat;
    if i == k - 1 {
        vstd::arithmetic::power::lemma_pow0(64);
        vstd::arithmetic::div_mod::lemma_div_basics(n as int);
    } else {
        let e = (k - 2 - i) as nat;
        lemma_digits(n / 64, rest);
        lemma_digit_at(n / 64, rest, i);
        vstd::arithmetic::power::lemma_pow_positive(64, e);
        vstd::arithmetic::div_mod::lemma_div_denominator(n as int, 64, pow(64, e));
        assert(pow(64, e + 1) == 64 * pow(64, e)) by {
            reveal(pow);
        }
    }
}

/// The alphabet: the capital letters, the small letters, the figures, the hyphen and the low
/// line, in this order.
pub proof fn law_alphabet(d: int)
    requires
        0 <= d < 64,
    ensures
        ALPHABET@.len() == 64,
        d < 26 ==> ALPHABET@[d] as int == 'A' as int + d,
        26 <= d < 52 ==> ALPHABET@[d] as int == 'a' as int + (d - 26),
        52 <= d < 62 ==> ALPHABET@[d] as int == '0' as int + (d - 52),
        d == 62 ==> ALPHABET@[d] == '-',
        d == 63 ==> ALPHABET@[d] == '_',
{
    lemma_alphabet();
}

/// What `to_base64` writes: eleven characters, each for six bits, the highest bits first, with
/// two zero bits behind the lowest.
pub proof fn law_the_text_form_spells_the_bits(id: Uid, text: String, i: int)
    requires
        call_ensures(Uid::to_base64, (&id,), text),
        0 <= i < 11,
    ensures
        text@.len() == 11,
        text@[i] == ALPHABET@[((id.0 * 4) / pow(64, (10 - i) as nat)) % 64],
{
    lemma_digit_at(id.0 as nat * 4, TEXT_LEN as nat, i);
}

/// What was written is read back, and a text that can be read is what would be written.
pub proof fn law_what_is_written_is_read_back(
    id: Uid,
    text: String,
    read: &str,
    r: Option<Uid>,
)
    requires
        call_ensures(Uid::to_base64, (&id,), text),
        call_ensures(Uid::from_base64, (read,), r),
    ensures
        r == Some(id) <==> read@ == text@,
{
    if let Some(other) = r {
        law_text_identifies(id, other);
    }
}

} // verus!
