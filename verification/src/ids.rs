//! Discord and database identifiers, and their decimal text form.
use vstd::prelude::*;

verus! {

/// The character of a decimal digit.
pub open spec fn digit_char(d: nat) -> char {
    (48 + d) as char
}

/// Whether a character is an ASCII decimal digit.
pub open spec fn is_digit(c: char) -> bool {
    '0' <= c && c <= '9'
}

/// The value of a digit character.
pub open spec fn digit_value(c: char) -> nat {
    (c as int - 48) as nat
}

/// The shortest decimal representation of `n`, most significant digit first.
pub open spec fn decimal_digits(n: nat) -> Seq<char>
    decreases n,
{
    if n < 10 {
        seq![digit_char(n)]
    } else {
        decimal_digits(n / 10).push(digit_char(n % 10))
    }
}

/// Whether every character of `s` is a decimal digit.
pub open spec fn all_digits(s: Seq<char>) -> bool {
    forall|i: int| 0 <= i < s.len() ==> #[trigger] is_digit(s[i])
}

/// The value that a sequence of decimal digits spells out.
pub open spec fn digits_value(s: Seq<char>) -> nat
    decreases s.len(),
{
    if s.len() == 0 {
        0
    } else {
        digits_value(s.drop_last()) * 10 + digit_value(s.last())
    }
}

/// The digits of an unsigned number's text: an optional leading `+` is dropped.
pub open spec fn unsigned_digits(s: Seq<char>) -> Seq<char> {
    if s.len() > 0 && s[0] == '+' {
        s.drop_first()
    } else {
        s
    }
}

/// Whether `s` is accepted as the text of a `u64`: an optional `+`, then at
/// least one decimal digit and nothing else, of a value that fits in 64 bits.
pub open spec fn parses_as_u64(s: Seq<char>) -> bool {
    let d = unsigned_digits(s);
    &&& d.len() > 0
    &&& all_digits(d)
    &&& digits_value(d) <= u64::MAX
}

/// The value of a text accepted by `parses_as_u64`.
pub open spec fn parsed_u64(s: Seq<char>) -> nat {
    digits_value(unsigned_digits(s))
}

/// The text of one decimal digit.
fn digit_str(d: u64) -> (s: &'static str)
    requires
        d < 10,
    ensures
        s@ == seq![digit_char(d as nat)],
{
    proof {
        reveal_strlit("0");
        reveal_strlit("1");
        reveal_strlit("2");
        reveal_strlit("3");
        reveal_strlit("4");
        reveal_strlit("5");
        reveal_strlit("6");
        reveal_strlit("7");
        reveal_strlit("8");
        reveal_strlit("9");
    }
    match d {
        0 => "0",
        1 => "1",
        2 => "2",
        3 => "3",
        4 => "4",
        5 => "5",
        6 => "6",
        7 => "7",
        8 => "8",
        _ => "9",
    }
}

/// The decimal text of `n`, as `u64::to_string` gives it.
pub fn decimal_string(n: u64) -> (s: String)
    ensures
        s@ == decimal_digits(n as nat),
    decreases n,
{
    if n < 10 {
        String::from_str(digit_str(n))
    } else {
        let mut s = decimal_string(n / 10);
        s.append(digit_str(n % 10));
        s
    }
}


/// A digit character has the value it was made from.
proof fn lemma_digit_char(d: nat)
    requires
        d < 10,
    ensures
        is_digit(digit_char(d)),
        digit_value(digit_char(d)) == d,
{
}

/// The decimal representation of `n` is made of digits, does not start with
/// `+`, and spells out `n`.
pub proof fn lemma_decimal_digits(n: nat)
    ensures
        decimal_digits(n).len() > 0,
        all_digits(decimal_digits(n)),
        digits_value(decimal_digits(n)) == n,
        decimal_digits(n)[0] != '+',
    decreases n,
{
    if n < 10 {
        lemma_digit_char(n);
        let s = decimal_digits(n);
        assert(s.drop_last() =~= Seq::<char>::empty());
        assert(digits_value(s) == digits_value(s.drop_last()) * 10 + digit_value(s.last()));
    } else {
        lemma_decimal_digits(n / 10);
        lemma_digit_char(n % 10);
        let s = decimal_digits(n);
        assert(s.drop_last() =~= decimal_digits(n / 10));
        assert(s.last() == digit_char(n % 10));
        assert(n == (n / 10) * 10 + n % 10);
        assert(digits_value(s) == digits_value(s.drop_last()) * 10 + digit_value(s.last()));
        assert forall|i: int| 0 <= i < s.len() implies #[trigger] is_digit(s[i]) by {
            if i < s.len() - 1 {
                assert(s[i] == decimal_digits(n / 10)[i]);
            }
        }
    }
}

/// The decimal text of any `u64` is read back as that same number: a Discord
/// id written out by `DiscordId::into` is accepted by `DiscordId::from`, which
/// gives back the same id.
pub proof fn lemma_decimal_round_trip(n: u64)
    ensures
        parses_as_u64(decimal_digits(n as nat)),
        parsed_u64(decimal_digits(n as nat)) == n,
{
    lemma_decimal_digits(n as nat);
}

/// Reads the decimal text of a `u64` as `str::parse::<u64>` does: an optional
/// `+` followed by digits only; anything else, or a value over `u64::MAX`, is
/// refused.
pub fn parse_decimal(s: &str) -> (r: Option<u64>)
    ensures
        r == (if parses_as_u64(s@) {
            Some(parsed_u64(s@) as u64)
        } else {
            None::<u64>
        }),
{
    let len = s.unicode_len();
    let mut start: usize = 0;
    if len > 0 && s.get_char(0) == '+' {
        start = 1;
    }
    let ghost d = unsigned_digits(s@);
    assert(d =~= s@.subrange(start as int, len as int));
    if start == len {
        return None;
    }
    let mut acc: u64 = 0;
    let mut i: usize = start;
    while i < len
        invariant
            start <= i <= len,
            len == s@.len(),
            d =~= s@.subrange(start as int, len as int),
            d == unsigned_digits(s@),
            all_digits(d.subrange(0, i - start)),
            acc == digits_value(d.subrange(0, i - start)),
        decreases len - i,
    {
        let c = s.get_char(i);
        assert(c == d[i - start]);
        assert(d.subrange(0, i + 1 - start).drop_last() =~= d.subrange(0, i - start));
        if c < '0' || c > '9' {
            assert(!is_digit(d[i - start]));
            assert(!all_digits(d));
            return None;
        }
        let v: u64 = (c as u32 - 48) as u64;
        if acc > (u64::MAX - v) / 10 {
            proof {
                assert(d.subrange(0, i + 1 - start).last() == c);
                assert(digits_value(d.subrange(0, i + 1 - start)) == acc * 10 + v);
                assert(acc * 10 + v > u64::MAX) by (nonlinear_arith)
                    requires
                        acc > (u64::MAX - v) / 10,
                        v < 10,
                ;
                lemma_digits_value_prefix_monotone(d, (i + 1 - start) as int);
            }
            return None;
        }
        assert(d.subrange(0, i + 1 - start).last() == c);
        acc = acc * 10 + v;
        i = i + 1;
        assert forall|j: int| 0 <= j < i - start implies #[trigger] is_digit(
            d.subrange(0, i - start)[j],
        ) by {
            if j < i - 1 - start {
                assert(d.subrange(0, i - start)[j] == d.subrange(0, i - 1 - start)[j]);
            }
        }
    }
    assert(d.subrange(0, len - start) =~= d);
    Some(acc)
}

/// A longer prefix of digits spells out a value no smaller than a shorter one.
proof fn lemma_digits_value_prefix_monotone(d: Seq<char>, k: int)
    requires
        0 <= k <= d.len(),
    ensures
        digits_value(d.subrange(0, k)) <= digits_value(d),
    decreases d.len() - k,
{
    if k < d.len() {
        lemma_digits_value_prefix_monotone(d, k + 1);
        assert(d.subrange(0, k + 1).drop_last() =~= d.subrange(0, k));
    } else {
        assert(d.subrange(0, k) =~= d);
    }
}


/// The id of a Discord object (guild, channel, role, user, message).
#[derive(Clone, Copy, Debug, PartialEq, Eq, Structural)]
pub struct DiscordId(pub u64);

impl core::ops::Deref for DiscordId {
    type Target = u64;

    fn deref(&self) -> (r: &u64)
        ensures
            *r == self.0,
    {
        &self.0
    }
}

impl DiscordId {
    /// The id as decimal text.
    pub fn into(self) -> (s: String)
        ensures
            s@ == decimal_digits(self.0 as nat),
    {
        decimal_string(self.0)
    }

    /// Reads an id from its decimal text; the text must be one that
    /// `str::parse::<u64>` accepts.
    pub fn from(s: &String) -> (id: DiscordId)
        requires
            parses_as_u64(s@),
        ensures
            id.0 == parsed_u64(s@),
    {
        match parse_decimal(s.as_str()) {
            Some(v) => DiscordId(v),
            None => DiscordId(0),
        }
    }
}

/// The primary key of a row of the bot's database.
#[derive(Clone, Copy, Debug, PartialEq, Eq, Structural)]
pub struct DatabaseId(pub i32);

impl core::ops::Deref for DatabaseId {
    type Target = i32;

    fn deref(&self) -> (r: &i32)
        ensures
            *r == self.0,
    {
        &self.0
    }
}

} // verus!
