use vstd::prelude::*;
use vstd::string::{StrSliceExecFns, StringExecFns};

verus! {

/// The texts of a list of strings, in order.
pub open spec fn text_views(texts: Seq<String>) -> Seq<Seq<char>> {
    Seq::new(texts.len(), |i: int| texts[i]@)
}

/// The character of a decimal digit.
pub open spec fn digit_char(d: int) -> char {
    if d == 0 {
        '0'
    } else if d == 1 {
        '1'
    } else if d == 2 {
        '2'
    } else if d == 3 {
        '3'
    } else if d == 4 {
        '4'
    } else if d == 5 {
        '5'
    } else if d == 6 {
        '6'
    } else if d == 7 {
        '7'
    } else if d == 8 {
        '8'
    } else {
        '9'
    }
}

/// The decimal digits of `n`, most significant first, without leading zeros.
pub open spec fn decimal(n: nat) -> Seq<char>
    decreases n,
{
    if n < 10 {
        seq![digit_char(n as int)]
    } else {
        decimal(n / 10).push(digit_char((n % 10) as int))
    }
}

/// `count` zeros.
pub open spec fn zeros(count: nat) -> Seq<char> {
    Seq::new(count, |i: int| '0')
}

/// The decimal digits of `n`, with zeros in front up to `width` characters.
pub open spec fn padded(n: nat, width: nat) -> Seq<char> {
    if decimal(n).len() >= width {
        decimal(n)
    } else {
        zeros((width - decimal(n).len()) as nat) + decimal(n)
    }
}

/// A number has at least one digit.
pub proof fn lemma_decimal_len(n: nat)
    ensures
        decimal(n).len() >= 1,
    decreases n,
{
    if n >= 10 {
        lemma_decimal_len(n / 10);
    }
}

/// The text of one decimal digit.
fn digit_text(d: u64) -> (text: &'static str)
    requires
        d < 10,
    ensures
        text@ == seq![digit_char(d as int)],
{
    proof {
        reveal_strlit("0");
        reveal_strlit("1");
        reveal_strlit("2");
        reveal_strlit("3");
        reveal_strlit("4");
        reveal_strlit("5");
        reveal_strlit("6");
        reveal_strlit("7");
        reveal_strlit("8");
        reveal_strlit("9");
    }
    let text = if d == 0 {
        "0"
    } else if d == 1 {
        "1"
    } else if d == 2 {
        "2"
    } else if d == 3 {
        "3"
    } else if d == 4 {
        "4"
    } else if d == 5 {
        "5"
    } else if d == 6 {
        "6"
    } else if d == 7 {
        "7"
    } else if d == 8 {
        "8"
    } else {
        "9"
    };
    assert(text@ =~= seq![digit_char(d as int)]);
    text
}

/// Appends the decimal digits of `n` to `out`.
pub fn push_decimal(out: &mut String, n: u64)
    ensures
        final(out)@ == old(out)@ + decimal(n as nat),
    decreases n,
{
    if n >= 10 {
        push_decimal(out, n / 10);
    }
    out.append(digit_text(n % 10));
    assert(out@ =~= old(out)@ + decimal(n as nat));
}

/// The number of decimal digits of `n`.
pub fn decimal_len(n: u64) -> (len: usize)
    ensures
        len == decimal(n as nat).len(),
        1 <= len <= 20,
{
    let mut rest: u64 = n;
    let mut len: usize = 1;
    proof {
        lemma_decimal_len(n as nat);
        assert(rest * pow10(0) == n) by (nonlinear_arith)
            requires
                rest == n,
                pow10(0) == 1,
        ;
    }
    while rest >= 10
        invariant
            1 <= len,
            decimal(n as nat).len() == decimal(rest as nat).len() + len - 1,
            rest * pow10((len - 1) as nat) <= n,
            len <= 20,
        decreases rest,
    {
        proof {
            lemma_pow10_step(rest as nat, (len - 1) as nat, n as nat);
        }
        rest = rest / 10;
        len += 1;
    }
    len
}

/// Ten to the power `e`.
pub open spec fn pow10(e: nat) -> nat
    decreases e,
{
    if e == 0 {
        1
    } else {
        10 * pow10((e - 1) as nat)
    }
}

/// Dropping a digit of `rest` moves a factor of ten into the power, and a
/// 64-bit number leaves room for fewer than twenty such steps.
proof fn lemma_pow10_step(rest: nat, e: nat, n: nat)
    requires
        rest >= 10,
        rest * pow10(e) <= n,
        n <= u64::MAX,
    ensures
        (rest / 10) * pow10(e + 1) <= n,
        e + 2 <= 20,
{
    assert((rest / 10) * pow10(e + 1) == (rest / 10) * 10 * pow10(e)) by (nonlinear_arith)
        requires
            pow10(e + 1) == 10 * pow10(e),
    ;
    assert((rest / 10) * 10 * pow10(e) <= rest * pow10(e)) by (nonlinear_arith)
        requires
            (rest / 10) * 10 <= rest,
    ;
    if e >= 19 {
        lemma_pow10_grows(19, e);
        assert(pow10(19) == 10_000_000_000_000_000_000) by {
            reveal_with_fuel(pow10, 20);
        }
        assert(rest * pow10(e) >= 10 * pow10(19)) by (nonlinear_arith)
            requires
                rest >= 10,
                pow10(e) >= pow10(19),
        ;
    }
}

/// Powers of ten grow with the exponent.
proof fn lemma_pow10_grows(a: nat, b: nat)
    requires
        a <= b,
    ensures
        pow10(a) <= pow10(b),
    decreases b,
{
    if a < b {
        lemma_pow10_grows(a, (b - 1) as nat);
    }
}

/// Appends the decimal digits of `n` to `out`, with zeros in front up to
/// `width` characters.
pub fn push_padded(out: &mut String, n: u64, width: usize)
    ensures
        final(out)@ == old(out)@ + padded(n as nat, width as nat),
{
    let len = decimal_len(n);
    let mut pad: usize = 0;
    if len < width {
        let fill = width - len;
        proof {
            reveal_strlit("0");
        }
        while pad < fill
            invariant
                pad <= fill,
                out@ == old(out)@ + zeros(pad as nat),
                "0"@ == seq!['0'],
            decreases fill - pad,
        {
            out.append("0");
            pad += 1;
            assert(out@ =~= old(out)@ + zeros(pad as nat));
        }
        assert(out@ == old(out)@ + zeros((width - len) as nat));
        push_decimal(out, n);
        assert(out@ =~= old(out)@ + padded(n as nat, width as nat));
    } else {
        push_decimal(out, n);
    }
}

/// `text` with every dash turned into an underscore.
pub open spec fn underscored(text: Seq<char>) -> Seq<char> {
    Seq::new(
        text.len(),
        |i: int|
            if text[i] == '-' {
                '_'
            } else {
                text[i]
            },
    )
}

/// `text` with every dash turned into an underscore.
pub fn dashes_to_underscores(text: &str) -> (out: String)
    ensures
        out@ == underscored(text@),
{
    let len = text.unicode_len();
    let mut out = String::new();
    let mut i: usize = 0;
    proof {
        reveal_strlit("_");
    }
    while i < len
        invariant
            i <= len,
            len == text@.len(),
            out@ == underscored(text@).subrange(0, i as int),
            "_"@ == seq!['_'],
        decreases len - i,
    {
        if text.get_char(i) == '-' {
            out.append("_");
        } else {
            out.append(text.substring_char(i, i + 1));
        }
        i += 1;
        assert(out@ =~= underscored(text@).subrange(0, i as int));
    }
    assert(out@ =~= underscored(text@));
    out
}

/// How one text stands to another in dictionary order.
#[derive(Clone, Copy, Debug, PartialEq, Eq, Structural)]
pub enum Rank {
    Before,
    Same,
    After,
}

/// Whether `a` comes strictly before `b` in dictionary order: at the first
/// position where they differ `a` has the smaller character, or `a` ends
/// there and `b` goes on.
pub open spec fn lex_less(a: Seq<char>, b: Seq<char>) -> bool {
    exists|k: int|
        {
            &&& 0 <= k <= a.len()
            &&& k < b.len()
            &&& #[trigger] a.subrange(0, k) == b.subrange(0, k)
            &&& (k < a.len() ==> (a[k] as u32) < (b[k] as u32))
        }
}

/// Two texts that agree up to `k` and differ there, or of which one ends
/// there, are ordered by what they hold at `k`.
proof fn lemma_lex_at(a: Seq<char>, b: Seq<char>, k: int)
    requires
        0 <= k <= a.len(),
        0 <= k <= b.len(),
        a.subrange(0, k) == b.subrange(0, k),
        k < a.len() && k < b.len() ==> a[k] != b[k],
    ensures
        lex_less(a, b) <==> (k < b.len() && (k < a.len() ==> (a[k] as u32) < (b[k] as u32))),
        a == b <==> (k == a.len() && k == b.len()),
{
    if k < b.len() && (k < a.len() ==> (a[k] as u32) < (b[k] as u32)) {
        assert(a.subrange(0, k) == b.subrange(0, k));
    }
    if lex_less(a, b) {
        let j = choose|j: int|
            {
                &&& 0 <= j <= a.len()
                &&& j < b.len()
                &&& #[trigger] a.subrange(0, j) == b.subrange(0, j)
                &&& (j < a.len() ==> (a[j] as u32) < (b[j] as u32))
            };
        if j < k {
            assert(a.subrange(0, k)[j] == a[j]);
            assert(b.subrange(0, k)[j] == b[j]);
        } else if j > k {
            assert(a.subrange(0, j)[k] == b.subrange(0, j)[k]);
        }
    }
    if k == a.len() && k == b.len() {
        assert(a =~= a.subrange(0, k));
        assert(b =~= b.subrange(0, k));
    }
}

/// Dictionary order is transitive.
pub proof fn lemma_lex_less_transitive(a: Seq<char>, b: Seq<char>, c: Seq<char>)
    requires
        lex_less(a, b),
        lex_less(b, c),
    ensures
        lex_less(a, c),
{
    let i = choose|k: int|
        {
            &&& 0 <= k <= a.len()
            &&& k < b.len()
            &&& #[trigger] a.subrange(0, k) == b.subrange(0, k)
            &&& (k < a.len() ==> (a[k] as u32) < (b[k] as u32))
        };
    let j = choose|k: int|
        {
            &&& 0 <= k <= b.len()
            &&& k < c.len()
            &&& #[trigger] b.subrange(0, k) == c.subrange(0, k)
            &&& (k < b.len() ==> (b[k] as u32) < (c[k] as u32))
        };
    let k = if i <= j {
        i
    } else {
        j
    };
    assert forall|n: int| 0 <= n < k implies a[n] == c[n] by {
        assert(a.subrange(0, i)[n] == b.subrange(0, i)[n]);
        assert(b.subrange(0, j)[n] == c.subrange(0, j)[n]);
    }
    assert(a.subrange(0, k) =~= c.subrange(0, k));
    if k < a.len() {
        if i < j {
            assert(b.subrange(0, j)[i] == c.subrange(0, j)[i]);
        } else if j < i {
            assert(a.subrange(0, i)[j] == b.subrange(0, i)[j]);
        }
        assert((a[k] as u32) < (c[k] as u32));
    }
}

/// No text comes before itself in dictionary order.
pub proof fn lemma_lex_less_irreflexive(a: Seq<char>)
    ensures
        !lex_less(a, a),
{
    lemma_lex_at(a, a, a.len() as int);
}

/// How `a` stands to `b` in dictionary order.
pub fn rank(a: &str, b: &str) -> (r: Rank)
    ensures
        r == Rank::Before <==> lex_less(a@, b@),
        r == Rank::Same <==> a@ == b@,
        r == Rank::After <==> lex_less(b@, a@),
{
    let alen = a.unicode_len();
    let blen = b.unicode_len();
    let mut k: usize = 0;
    while k < alen && k < blen
        invariant
            k <= alen,
            k <= blen,
            alen == a@.len(),
            blen == b@.len(),
            a@.subrange(0, k as int) == b@.subrange(0, k as int),
        decreases alen - k,
    {
        let x = a.get_char(k);
        let y = b.get_char(k);
        if x != y {
            proof {
                lemma_lex_at(a@, b@, k as int);
                lemma_lex_at(b@, a@, k as int);
            }
            if (x as u32) < (y as u32) {
                return Rank::Before;
            } else {
                assert((x as u32) != (y as u32));
                return Rank::After;
            }
        }
        k += 1;
        assert(a@.subrange(0, k as int) =~= b@.subrange(0, k as int));
    }
    proof {
        lemma_lex_at(a@, b@, k as int);
        lemma_lex_at(b@, a@, k as int);
    }
    if k < blen {
        Rank::Before
    } else if k < alen {
        Rank::After
    } else {
        Rank::Same
    }
}

/// Whether two texts are the same.
pub fn same_text(a: &str, b: &str) -> (same: bool)
    ensures
        same == (a@ == b@),
{
    rank(a, b) == Rank::Same
}

/// The lower-case form of a text, as the standard library computes it.
pub uninterp spec fn lowercase_of(text: Seq<char>) -> Seq<char>;

/// The lower-case form of `text`.
///
/// Calls `str::to_lowercase`. The contract gives the result a name and
/// claims nothing else of it: the conversion follows the Unicode tables and
/// depends on the text alone.
#[verifier::external_body]
pub(crate) fn to_lowercase(text: &str) -> (lower: String)
    ensures
        lower@ == lowercase_of(text@),
{
    text.to_lowercase()
}

/// The number that a text spells, as the standard library reads it; `None`
/// for a text that spells no 32-bit unsigned number.
pub uninterp spec fn parsed_u32(text: Seq<char>) -> Option<u32>;

/// The number that `text` spells.
///
/// Calls `str::parse` for `u32`. The contract gives the result a name and
/// claims nothing else of it: the outcome depends on the text alone.
#[verifier::external_body]
pub(crate) fn parse_u32(text: &str) -> (parsed: Option<u32>)
    ensures
        parsed == parsed_u32(text@),
{
    text.parse::<u32>().ok()
}

/// The decimal text of a whole number: a minus sign in front of the digits
/// of a negative one.
pub open spec fn signed_decimal(n: int) -> Seq<char> {
    if n < 0 {
        seq!['-'] + decimal((-n) as nat)
    } else {
        decimal(n as nat)
    }
}

/// Appends the decimal text of `n` to `out`.
pub fn push_signed(out: &mut String, n: i64)
    ensures
        final(out)@ == old(out)@ + signed_decimal(n as int),
{
    if n < 0 {
        proof {
            reveal_strlit("-");
        }
        out.append("-");
        let size: u64 = if n == i64::MIN {
            0x8000_0000_0000_0000
        } else {
            (-n) as u64
        };
        push_decimal(out, size);
        assert(out@ =~= old(out)@ + signed_decimal(n as int));
    } else {
        push_decimal(out, n as u64);
    }
}

} // verus!
