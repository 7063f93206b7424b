use vstd::prelude::*;
use crate::error::Error;

verus! {

/// Which block a request asks for: one of three tags, or an explicit height.
#[derive(Clone, Copy, Debug, PartialEq, Eq, Structural)]
pub enum BlockNumber {
    Latest,
    Earliest,
    Pending,
    Number(u64),
}

pub open spec fn hex_alphabet() -> Seq<char> {
    seq!['0', '1', '2', '3', '4', '5', '6', '7', '8', '9', 'a', 'b', 'c', 'd', 'e', 'f']
}

pub open spec fn latest_text() -> Seq<char> {
    seq!['l', 'a', 't', 'e', 's', 't']
}

pub open spec fn earliest_text() -> Seq<char> {
    seq!['e', 'a', 'r', 'l', 'i', 'e', 's', 't']
}

pub open spec fn pending_text() -> Seq<char> {
    seq!['p', 'e', 'n', 'd', 'i', 'n', 'g']
}

/// Lower-case hexadecimal digits of `n`, most significant first, without
/// leading zeros (zero itself is the single digit `0`).
pub open spec fn hex_text(n: nat) -> Seq<char>
    decreases n,
{
    if n < 16 {
        seq![hex_alphabet()[n as int]]
    } else {
        hex_text(n / 16).push(hex_alphabet()[(n % 16) as int])
    }
}

/// The value of one hexadecimal digit of either case.
pub open spec fn digit_value(c: char) -> Option<nat> {
    if '0' <= c && c <= '9' {
        Some((c as u32 - '0' as u32) as nat)
    } else if 'a' <= c && c <= 'f' {
        Some((c as u32 - 'a' as u32 + 10) as nat)
    } else if 'A' <= c && c <= 'F' {
        Some((c as u32 - 'A' as u32 + 10) as nat)
    } else {
        None
    }
}

pub open spec fn all_hex_digits(s: Seq<char>) -> bool {
    forall|i: int| 0 <= i < s.len() ==> (#[trigger] digit_value(s[i])).is_some()
}

/// The number that a string of hexadecimal digits denotes.
pub open spec fn hex_value(s: Seq<char>) -> nat
    decreases s.len(),
{
    if s.len() == 0 {
        0
    } else {
        hex_value(s.drop_last()) * 16 + digit_value(s.last()).unwrap()
    }
}

/// The canonical wire text of a selector.
pub open spec fn encode_spec(b: BlockNumber) -> Seq<char> {
    match b {
        BlockNumber::Latest => latest_text(),
        BlockNumber::Earliest => earliest_text(),
        BlockNumber::Pending => pending_text(),
        BlockNumber::Number(n) => seq!['0', 'x'] + hex_text(n as nat),
    }
}

/// Whether `s` is `0x` followed by one or more hexadecimal digits whose value
/// fits in 64 bits.
pub open spec fn is_hex_number(s: Seq<char>) -> bool {
    &&& s.len() > 2
    &&& s[0] == '0'
    &&& s[1] == 'x'
    &&& all_hex_digits(s.skip(2))
    &&& hex_value(s.skip(2)) <= u64::MAX
}

/// What the wire text `s` selects, if anything.
pub open spec fn decode_spec(s: Seq<char>) -> Option<BlockNumber> {
    if s == latest_text() {
        Some(BlockNumber::Latest)
    } else if s == earliest_text() {
        Some(BlockNumber::Earliest)
    } else if s == pending_text() {
        Some(BlockNumber::Pending)
    } else if is_hex_number(s) {
        Some(BlockNumber::Number(hex_value(s.skip(2)) as u64))
    } else {
        None
    }
}

proof fn lemma_digit_round_trip(d: nat)
    requires
        d < 16,
    ensures
        digit_value(hex_alphabet()[d as int]) == Some(d),
{
}

proof fn lemma_hex_text(n: nat)
    ensures
        hex_text(n).len() >= 1,
        all_hex_digits(hex_text(n)),
        hex_value(hex_text(n)) == n,
    decreases n,
{
    if n < 16 {
        lemma_digit_round_trip(n);
        assert(hex_text(n).drop_last() =~= Seq::<char>::empty());
        assert(hex_value(hex_text(n)) == hex_value(Seq::<char>::empty()) * 16 + n);
    } else {
        lemma_hex_text(n / 16);
        lemma_digit_round_trip(n % 16);
        let t = hex_text(n);
        assert(t.drop_last() =~= hex_text(n / 16));
        assert(t.last() == hex_alphabet()[(n % 16) as int]);
        assert(hex_value(t) == hex_value(hex_text(n / 16)) * 16 + n % 16);
        assert(n == (n / 16) * 16 + n % 16) by (nonlinear_arith);
        assert forall|i: int| 0 <= i < t.len() implies (#[trigger] digit_value(t[i])).is_some() by {
            if i < t.len() - 1 {
                assert(t[i] == hex_text(n / 16)[i]);
            }
        }
    }
}


/// Every selector decodes from its own wire text back to itself.
pub proof fn lemma_decode_encode(b: BlockNumber)
    ensures
        decode_spec(encode_spec(b)) == Some(b),
{
    match b {
        BlockNumber::Latest => {},
        BlockNumber::Earliest => {
            assert(earliest_text() != latest_text());
        },
        BlockNumber::Pending => {
            assert(pending_text() != latest_text());
            assert(pending_text() != earliest_text());
        },
        BlockNumber::Number(n) => {
            let s = encode_spec(b);
            lemma_hex_text(n as nat);
            assert(s.skip(2) =~= hex_text(n as nat));
            assert(s[0] == '0');
            assert(latest_text()[0] == 'l');
            assert(earliest_text()[0] == 'e');
            assert(pending_text()[0] == 'p');
        },
    }
}

/// Re-encoding decoded wire text gives the wire text it came from.
pub proof fn lemma_encode_round_trip(b: BlockNumber)
    ensures
        decode_spec(encode_spec(b)) is Some,
        encode_spec(decode_spec(encode_spec(b)).unwrap()) == encode_spec(b),
{
    lemma_decode_encode(b);
}

fn append_hex(out: &mut String, n: u64)
    ensures
        final(out)@ == old(out)@ + hex_text(n as nat),
    decreases n,
{
    let alphabet: &str = "0123456789abcdef";
    proof {
        reveal_strlit("0123456789abcdef");
    }
    if n >= 16 {
        append_hex(out, n / 16);
    }
    let d: usize = (n % 16) as usize;
    let digit: &str = alphabet.substring_char(d, d + 1);
    assert(digit@ =~= seq![hex_alphabet()[d as int]]);
    out.append(digit);
    assert(out@ =~= old(out)@ + hex_text(n as nat));
}

impl BlockNumber {
    /// The canonical wire text: a tag name, or `0x` and the lower-case hex
    /// digits of the number.
    pub fn encode(&self) -> (r: String)
        ensures
            r@ == encode_spec(*self),
    {
        match self {
            BlockNumber::Latest => {
                proof { reveal_strlit("latest"); }
                let r = String::from_str("latest");
                assert(r@ =~= latest_text());
                r
            },
            BlockNumber::Earliest => {
                proof { reveal_strlit("earliest"); }
                let r = String::from_str("earliest");
                assert(r@ =~= earliest_text());
                r
            },
            BlockNumber::Pending => {
                proof { reveal_strlit("pending"); }
                let r = String::from_str("pending");
                assert(r@ =~= pending_text());
                r
            },
            BlockNumber::Number(n) => {
                proof { reveal_strlit("0x"); }
                let mut r = String::from_str("0x");
                assert(r@ =~= seq!['0', 'x']);
                append_hex(&mut r, *n);
                r
            },
        }
    }
}

/// Whether two strings hold the same characters.
fn same_text(a: &str, b: &str) -> (r: bool)
    ensures
        r == (a@ == b@),
{
    let n = a.unicode_len();
    if n != b.unicode_len() {
        return false;
    }
    let mut i: usize = 0;
    while i < n
        invariant
            n == a@.len(),
            n == b@.len(),
            i <= n,
            forall|j: int| 0 <= j < i ==> a@[j] == b@[j],
        decreases n - i,
    {
        if a.get_char(i) != b.get_char(i) {
            return false;
        }
        i = i + 1;
    }
    assert(a@ =~= b@);
    true
}

fn digit_of(c: char) -> (r: Option<u64>)
    ensures
        r matches Some(d) ==> digit_value(c) == Some(d as nat) && d < 16,
        r is None ==> digit_value(c) is None,
{
    if '0' <= c && c <= '9' {
        Some((c as u32 - '0' as u32) as u64)
    } else if 'a' <= c && c <= 'f' {
        Some((c as u32 - 'a' as u32 + 10) as u64)
    } else if 'A' <= c && c <= 'F' {
        Some((c as u32 - 'A' as u32 + 10) as u64)
    } else {
        None
    }
}

proof fn lemma_hex_value_grows(s: Seq<char>, j: int, k: int)
    requires
        0 <= j <= k <= s.len(),
        all_hex_digits(s),
    ensures
        hex_value(s.subrange(0, j)) <= hex_value(s.subrange(0, k)),
    decreases k - j,
{
    if j < k {
        lemma_hex_value_grows(s, j, k - 1);
        let t = s.subrange(0, k);
        assert(t.drop_last() =~= s.subrange(0, k - 1));
        assert(digit_value(s[k - 1]).is_some());
    }
}

/// Reads `0x` and hexadecimal digits of either case into a number.
fn parse_hex_number(s: &str) -> (r: Option<u64>)
    ensures
        r is Some <==> is_hex_number(s@),
        r matches Some(v) ==> v as nat == hex_value(s@.skip(2)),
{
    let n = s.unicode_len();
    if n <= 2 || s.get_char(0) != '0' || s.get_char(1) != 'x' {
        return None;
    }
    let ghost digits = s@.skip(2);
    let mut acc: u64 = 0;
    let mut i: usize = 2;
    while i < n
        invariant
            n == s@.len(),
            digits == s@.skip(2),
            2 <= i <= n,
            all_hex_digits(digits.subrange(0, i - 2)),
            acc as nat == hex_value(digits.subrange(0, i - 2)),
        decreases n - i,
    {
        let c = s.get_char(i);
        let ghost prev = digits.subrange(0, i - 2);
        let ghost next = digits.subrange(0, i - 1);
        assert(next.drop_last() =~= prev);
        assert(next.last() == c);
        match digit_of(c) {
            None => {
                assert(!all_hex_digits(digits)) by {
                    assert(digits[i - 2] == c);
                }
                return None;
            },
            Some(d) => {
                if acc > (u64::MAX - d) / 16 {
                    proof {
                        assert(hex_value(next) == acc * 16 + d);
                        assert(acc * 16 + d > u64::MAX) by (nonlinear_arith)
                            requires acc > (u64::MAX - d) / 16, d < 16;
                        if all_hex_digits(digits) {
                            assert(digits.subrange(0, digits.len() as int) =~= digits);
                            lemma_hex_value_grows(digits, i - 1, digits.len() as int);
                        }
                    }
                    return None;
                }
                assert(acc * 16 + d <= u64::MAX) by (nonlinear_arith)
                    requires acc <= (u64::MAX - d) / 16, d < 16;
                acc = acc * 16 + d;
                assert forall|j: int| 0 <= j < next.len() implies (#[trigger] digit_value(next[j])).is_some() by {
                    if j < prev.len() {
                        assert(next[j] == prev[j]);
                    }
                }
                i = i + 1;
            },
        }
    }
    assert(digits.subrange(0, n - 2) =~= digits);
    Some(acc)
}

/// Reads a selector from its wire text. Anything but the three tags and `0x`
/// followed by one or more hex digits that fit in 64 bits is refused.
pub fn decode(s: &str) -> (r: Result<BlockNumber, Error>)
    ensures
        decode_spec(s@) matches Some(b) ==> r == Ok::<BlockNumber, Error>(b),
        decode_spec(s@) is None ==> (r matches Err(Error::Decoder(_))),
{
    proof {
        reveal_strlit("latest");
        reveal_strlit("earliest");
        reveal_strlit("pending");
    }
    assert("latest"@ =~= latest_text());
    assert("earliest"@ =~= earliest_text());
    assert("pending"@ =~= pending_text());
    if same_text(s, "latest") {
        Ok(BlockNumber::Latest)
    } else if same_text(s, "earliest") {
        Ok(BlockNumber::Earliest)
    } else if same_text(s, "pending") {
        Ok(BlockNumber::Pending)
    } else {
        match parse_hex_number(s) {
            Some(v) => Ok(BlockNumber::Number(v)),
            None => {
                let n = s.unicode_len();
                if n >= 2 && s.get_char(0) == '0' && s.get_char(1) == 'x' {
                    Err(Error::Decoder(String::from_str("invalid block number: not a 64-bit hex number")))
                } else {
                    Err(Error::Decoder(String::from_str("invalid block number: missing 0x prefix")))
                }
            },
        }
    }
}

} // verus!
