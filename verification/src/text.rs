use vstd::prelude::*;

verus! {

/// The decimal digit character for `d` (0 through 9).
pub open spec fn digit_char(d: nat) -> char {
    if d == 0 {
        '0'
    } else if d == 1 {
        '1'
    } else if d == 2 {
        '2'
    } else if d == 3 {
        '3'
    } else if d == 4 {
        '4'
    } else if d == 5 {
        '5'
    } else if d == 6 {
        '6'
    } else if d == 7 {
        '7'
    } else if d == 8 {
        '8'
    } else {
        '9'
    }
}

/// Decimal notation of `n` without sign or leading zeros.
pub open spec fn decimal(n: nat) -> Seq<char>
    decreases n,
{
    if n < 10 {
        seq![digit_char(n)]
    } else {
        decimal(n / 10).push(digit_char(n % 10))
    }
}

/// Octet `k` (0 is the most significant) of an IPv4 address.
pub open spec fn octet(addr: u32, k: int) -> nat {
    if k == 0 {
        (addr as nat / 0x1000000) % 256
    } else if k == 1 {
        (addr as nat / 0x10000) % 256
    } else if k == 2 {
        (addr as nat / 0x100) % 256
    } else {
        addr as nat % 256
    }
}

/// Dotted-decimal notation of an IPv4 address, as `Ipv4Addr` displays it.
pub open spec fn dotted_quad(addr: u32) -> Seq<char> {
    decimal(octet(addr, 0)) + seq!['.'] + decimal(octet(addr, 1)) + seq!['.'] + decimal(
        octet(addr, 2),
    ) + seq!['.'] + decimal(octet(addr, 3))
}

/// `k` is the position of the first `':'` in `s`.
pub open spec fn is_first_colon(s: Seq<char>, k: int) -> bool {
    &&& 0 <= k < s.len()
    &&& s[k] == ':'
    &&& forall|j: int| 0 <= j < k ==> s[j] != ':'
}

/// What `str::split_once(":")` keeps before the separator, or `None` when
/// the text holds no `':'`.
pub open spec fn before_colon(s: Seq<char>) -> Option<Seq<char>> {
    if exists|k: int| is_first_colon(s, k) {
        Some(s.take(choose|k: int| is_first_colon(s, k)))
    } else {
        None
    }
}

fn digit_str(d: u32) -> (s: &'static str)
    requires
        d < 10,
    ensures
        s@ == seq![digit_char(d as nat)],
{
    if d == 0 {
        proof {
            reveal_strlit("0");
        }
        "0"
    } else if d == 1 {
        proof {
            reveal_strlit("1");
        }
        "1"
    } else if d == 2 {
        proof {
            reveal_strlit("2");
        }
        "2"
    } else if d == 3 {
        proof {
            reveal_strlit("3");
        }
        "3"
    } else if d == 4 {
        proof {
            reveal_strlit("4");
        }
        "4"
    } else if d == 5 {
        proof {
            reveal_strlit("5");
        }
        "5"
    } else if d == 6 {
        proof {
            reveal_strlit("6");
        }
        "6"
    } else if d == 7 {
        proof {
            reveal_strlit("7");
        }
        "7"
    } else if d == 8 {
        proof {
            reveal_strlit("8");
        }
        "8"
    } else {
        proof {
            reveal_strlit("9");
        }
        "9"
    }
}

/// Appends the decimal notation of `n` to `out`.
pub fn push_decimal(out: &mut String, n: u32)
    ensures
        final(out)@ == old(out)@ + decimal(n as nat),
    decreases n,
{
    if n >= 10 {
        push_decimal(out, n / 10);
    }
    out.append(digit_str(n % 10));
    proof {
        if n >= 10 {
            assert(old(out)@ + decimal(n as nat) =~= old(out)@ + decimal((n / 10) as nat) + seq![
                digit_char((n % 10) as nat),
            ]);
        }
    }
}

/// The decimal notation of `n`, as `n.to_string()` writes it.
pub fn u32_to_decimal(n: u32) -> (s: String)
    ensures
        s@ == decimal(n as nat),
{
    let mut s = String::new();
    push_decimal(&mut s, n);
    proof {
        assert(s@ =~= decimal(n as nat));
    }
    s
}

/// The dotted-decimal notation of an IPv4 address held as a big-endian `u32`.
pub fn ipv4_to_dotted(addr: u32) -> (s: String)
    ensures
        s@ == dotted_quad(addr),
{
    let a: u32 = (addr >> 24u32) & 0xffu32;
    let b: u32 = (addr >> 16u32) & 0xffu32;
    let c: u32 = (addr >> 8u32) & 0xffu32;
    let d: u32 = addr & 0xffu32;
    proof {
        assert((addr >> 24u32) & 0xffu32 == (addr / 0x1000000u32) % 256u32) by (bit_vector);
        assert((addr >> 16u32) & 0xffu32 == (addr / 0x10000u32) % 256u32) by (bit_vector);
        assert((addr >> 8u32) & 0xffu32 == (addr / 0x100u32) % 256u32) by (bit_vector);
        assert(addr & 0xffu32 == addr % 256u32) by (bit_vector);
    }
    let mut s = String::new();
    push_decimal(&mut s, a);
    s.append(".");
    push_decimal(&mut s, b);
    s.append(".");
    push_decimal(&mut s, c);
    s.append(".");
    push_decimal(&mut s, d);
    proof {
        reveal_strlit(".");
        assert(s@ =~= dotted_quad(addr));
    }
    s
}

/// The part of `s` before its first `':'`, as `s.split_once(":")` gives it
/// first, or `None` when `s` holds no `':'`.
pub fn before_first_colon(s: &str) -> (r: Option<&str>)
    ensures
        match r {
            Some(h) => before_colon(s@) == Some(h@),
            None => before_colon(s@) is None,
        },
{
    let n = s.unicode_len();
    let mut i: usize = 0;
    while i < n
        invariant
            n == s@.len(),
            i <= n,
            forall|j: int| 0 <= j < i ==> s@[j] != ':',
        decreases n - i,
    {
        if s.get_char(i) == ':' {
            let h = s.substring_char(0, i);
            proof {
                assert(is_first_colon(s@, i as int));
                let k = choose|k: int| is_first_colon(s@, k);
                assert(k == i);
            }
            return Some(h);
        }
        i = i + 1;
    }
    proof {
        assert(!exists|k: int| is_first_colon(s@, k));
    }
    None
}

/// Whether two texts hold the same characters.
pub fn str_equals(a: &str, b: &str) -> (r: bool)
    ensures
        r == (a@ == b@),
{
    let n = a.unicode_len();
    let m = b.unicode_len();
    if n != m {
        return false;
    }
    let mut i: usize = 0;
    while i < n
        invariant
            n == a@.len(),
            n == b@.len(),
            i <= n,
            forall|j: int| 0 <= j < i ==> a@[j] == b@[j],
        decreases n - i,
    {
        if a.get_char(i) != b.get_char(i) {
            return false;
        }
        i = i + 1;
    }
    proof {
        assert(a@ =~= b@);
    }
    true
}

/// Whether `c` is one of the ten decimal digits.
pub open spec fn is_digit(c: char) -> bool {
    '0' <= c <= '9'
}

/// The number that a text of decimal digits denotes.
pub open spec fn decimal_value(s: Seq<char>) -> int
    decreases s.len(),
{
    if s.len() == 0 {
        0
    } else {
        decimal_value(s.drop_last()) * 10 + (s.last() as int - '0' as int)
    }
}

proof fn lemma_digit_char(d: nat)
    requires
        d < 10,
    ensures
        is_digit(digit_char(d)),
        digit_char(d) as int - '0' as int == d,
{
}

/// The decimal notation of `n` is a non-empty run of digits, without a
/// leading zero unless `n` is zero, that denotes `n`: so it is the one text
/// that `u32::to_string` writes.
pub proof fn lemma_decimal_denotes(n: nat)
    ensures
        decimal(n).len() > 0,
        forall|i: int| 0 <= i < decimal(n).len() ==> is_digit(#[trigger] decimal(n)[i]),
        decimal_value(decimal(n)) == n,
        n >= 10 ==> decimal(n)[0] != '0',
        n < 10 ==> decimal(n).len() == 1,
    decreases n,
{
    if n < 10 {
        lemma_digit_char(n);
        assert(decimal(n).drop_last() =~= Seq::<char>::empty());
        assert(decimal_value(Seq::<char>::empty()) == 0);
        assert(decimal_value(decimal(n)) == decimal_value(decimal(n).drop_last()) * 10 + (
        decimal(n).last() as int - '0' as int));
    } else {
        lemma_decimal_denotes(n / 10);
        lemma_digit_char(n % 10);
        let s = decimal(n);
        assert(s.drop_last() =~= decimal(n / 10));
        assert(s.last() == digit_char(n % 10));
        assert(n == (n / 10) * 10 + n % 10) by {
            vstd::arithmetic::div_mod::lemma_fundamental_div_mod(n as int, 10);
        }
        assert(decimal_value(s) == decimal_value(decimal(n / 10)) * 10 + (n % 10) as int);
        assert(s[0] == decimal(n / 10)[0]);
        if n / 10 < 10 {
            lemma_digit_char(n / 10);
            assert(decimal(n / 10)[0] == digit_char(n / 10));
            assert(n / 10 >= 1);
        }
    }
}

/// The part before the first `':'` is a prefix of the text, holds no
/// `':'`, and is followed by a `':'`; there is none exactly when the text
/// holds no `':'`.
pub proof fn lemma_before_colon(s: Seq<char>)
    ensures
        before_colon(s) is None <==> !s.contains(':'),
        before_colon(s) matches Some(h) ==> h.len() < s.len() && h == s.take(h.len() as int)
            && s[h.len() as int] == ':' && !h.contains(':'),
{
    if s.contains(':') {
        let i = choose|i: int| 0 <= i < s.len() && s[i] == ':';
        lemma_first_colon_exists(s, i);
        let k = choose|k: int| is_first_colon(s, k);
        let h = s.take(k);
        assert(h.len() == k);
        if h.contains(':') {
            let j = choose|j: int| 0 <= j < h.len() && h[j] == ':';
            assert(s[j] == ':');
        }
    } else {
        if exists|k: int| is_first_colon(s, k) {
            let k = choose|k: int| is_first_colon(s, k);
            assert(s.contains(':'));
        }
    }
}

proof fn lemma_first_colon_exists(s: Seq<char>, i: int)
    requires
        0 <= i < s.len(),
        s[i] == ':',
    ensures
        exists|k: int| is_first_colon(s, k),
    decreases i,
{
    if forall|j: int| 0 <= j < i ==> s[j] != ':' {
        assert(is_first_colon(s, i));
    } else {
        let j = choose|j: int| 0 <= j < i && s[j] == ':';
        lemma_first_colon_exists(s, j);
    }
}

/// The four octets of an address give the address back.
pub proof fn lemma_octets_recompose(addr: u32)
    ensures
        octet(addr, 0) * 0x1000000 + octet(addr, 1) * 0x10000 + octet(addr, 2) * 0x100 + octet(
            addr,
            3,
        ) == addr,
        octet(addr, 0) < 256 && octet(addr, 1) < 256 && octet(addr, 2) < 256 && octet(addr, 3)
            < 256,
{
}

} // verus!
