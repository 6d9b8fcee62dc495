//! Numbers written out as text, in the radixes that the directory uses:
//! sixteen for change-detection tokens, ten for messages.

use vstd::prelude::*;
use vstd::string::*;

verus! {

/// The digits of every radix up to sixteen, in order of their value.
pub open spec fn glyphs() -> Seq<char> {
    seq!['0', '1', '2', '3', '4', '5', '6', '7', '8', '9', 'a', 'b', 'c', 'd', 'e', 'f']
}

/// The character that stands for the digit `d`.
pub open spec fn glyph(d: nat) -> char {
    glyphs()[d as int]
}

/// `n` written in radix sixteen: lower case, no prefix, no leading zero, and
/// `"0"` for zero.
pub open spec fn hex_text(n: nat) -> Seq<char>
    decreases n,
{
    if n < 16 {
        seq![glyph(n)]
    } else {
        hex_text(n / 16).push(glyph(n % 16))
    }
}

/// `n` written in radix ten: no leading zero, and `"0"` for zero.
pub open spec fn decimal_text(n: nat) -> Seq<char>
    decreases n,
{
    if n < 10 {
        seq![glyph(n)]
    } else {
        decimal_text(n / 10).push(glyph(n % 10))
    }
}

/// `n` written in `radix`; the two functions above are its instances.
pub open spec fn numeral(n: nat, radix: nat) -> Seq<char> {
    if radix == 16 {
        hex_text(n)
    } else {
        decimal_text(n)
    }
}

/// The digits `low`, which come least significant first, as text.
spec fn written(low: Seq<u8>) -> Seq<char> {
    Seq::new(low.len(), |i: int| glyph(low[low.len() - 1 - i] as nat))
}

proof fn lemma_numeral_step(n: nat, radix: nat)
    requires
        radix == 10 || radix == 16,
    ensures
        n < radix ==> numeral(n, radix) == seq![glyph(n)],
        n >= radix ==> numeral(n, radix) == numeral(n / radix, radix).push(glyph(n % radix)),
{
}

/// A numeral has at least one digit.
pub proof fn lemma_hex_text_len(n: nat)
    ensures
        hex_text(n).len() >= 1,
    decreases n,
{
    if n >= 16 {
        lemma_hex_text_len(n / 16);
    }
}

/// Different digits have different glyphs.
proof fn lemma_glyph_injective(x: nat, y: nat)
    requires
        x < 16,
        y < 16,
        glyph(x) == glyph(y),
    ensures
        x == y,
{
    let g = glyphs();
    assert(g[0] == '0' && g[1] == '1' && g[2] == '2' && g[3] == '3');
    assert(g[4] == '4' && g[5] == '5' && g[6] == '6' && g[7] == '7');
    assert(g[8] == '8' && g[9] == '9' && g[10] == 'a' && g[11] == 'b');
    assert(g[12] == 'c' && g[13] == 'd' && g[14] == 'e' && g[15] == 'f');
}

/// Different numbers are written differently in radix sixteen.
pub proof fn lemma_hex_text_injective(a: nat, b: nat)
    requires
        hex_text(a) == hex_text(b),
    ensures
        a == b,
    decreases a,
{
    lemma_hex_text_len(a / 16);
    lemma_hex_text_len(b / 16);
    if a < 16 && b < 16 {
        assert(hex_text(a)[0] == glyph(a));
        assert(hex_text(b)[0] == glyph(b));
        lemma_glyph_injective(a, b);
    } else if a >= 16 && b >= 16 {
        assert(hex_text(a / 16) =~= hex_text(a).drop_last());
        assert(hex_text(b / 16) =~= hex_text(b).drop_last());
        lemma_hex_text_injective(a / 16, b / 16);
        assert(hex_text(a).last() == glyph(a % 16));
        assert(hex_text(b).last() == glyph(b % 16));
        lemma_glyph_injective(a % 16, b % 16);
    } else if a < 16 {
        assert(hex_text(a).len() == 1);
        assert(hex_text(b).len() == hex_text(b / 16).len() + 1);
    } else {
        assert(hex_text(b).len() == 1);
        assert(hex_text(a).len() == hex_text(a / 16).len() + 1);
    }
}

/// Writes `n` in `radix`.
fn to_text(n: u128, radix: u128) -> (text: String)
    requires
        radix == 10 || radix == 16,
    ensures
        text@ == numeral(n as nat, radix as nat),
{
    let digits: &str = "0123456789abcdef";
    proof {
        reveal_strlit("0123456789abcdef");
        assert(digits@ =~= glyphs());
    }
    let mut low: Vec<u8> = Vec::new();
    let mut rest: u128 = n;
    while rest >= radix
        invariant
            radix == 10 || radix == 16,
            numeral(n as nat, radix as nat) == numeral(rest as nat, radix as nat) + written(low@),
            forall|i: int| 0 <= i < low.len() ==> (#[trigger] low[i]) < 16,
        decreases rest,
    {
        let d: u8 = (rest % radix) as u8;
        proof {
            lemma_numeral_step(rest as nat, radix as nat);
            assert(seq![glyph(d as nat)] + written(low@) =~= written(low@.push(d)));
            assert(numeral((rest / radix) as nat, radix as nat).push(glyph(d as nat)) + written(
                low@,
            ) =~= numeral((rest / radix) as nat, radix as nat) + written(low@.push(d)));
        }
        low.push(d);
        rest = rest / radix;
    }
    proof {
        lemma_numeral_step(rest as nat, radix as nat);
        assert(seq![glyph(rest as nat)] + written(low@) =~= written(low@.push(rest as u8)));
    }
    low.push(rest as u8);
    let mut text = String::new();
    let mut i: usize = low.len();
    while i > 0
        invariant
            i <= low.len(),
            digits@ == glyphs(),
            digits.is_ascii(),
            forall|k: int| 0 <= k < low.len() ==> (#[trigger] low[k]) < 16,
            text@ == written(low@).take(low.len() - i),
        decreases i,
    {
        i -= 1;
        let d: usize = low[i] as usize;
        let one = digits.substring_ascii(d, d + 1);
        proof {
            assert(one@ =~= seq![glyph(d as nat)]);
            assert(text@ + one@ =~= written(low@).take(low.len() - i));
        }
        text.append(one);
    }
    proof {
        assert(written(low@).take(low.len() as int) =~= written(low@));
    }
    text
}

/// Writes `n` in radix sixteen.
pub fn hex(n: u128) -> (text: String)
    ensures
        text@ == hex_text(n as nat),
{
    to_text(n, 16)
}

/// Writes `n` in radix ten.
pub fn decimal(n: u128) -> (text: String)
    ensures
        text@ == decimal_text(n as nat),
{
    to_text(n, 10)
}

} // verus!
