//! Human-readable rendering of a byte count.
//!
//! Convention (binary, base 1024): a count below 1024 is rendered as the
//! plain decimal count followed by `" B"`. Otherwise the count is scaled by
//! the largest applicable power of 1024 (`KiB`, `MiB`, `GiB`, `TiB`, `PiB`,
//! `EiB`) and rendered with exactly one decimal digit, rounding half up: the
//! printed value is `(10 * n + u / 2) / u` tenths, where `u` is the scale.
//! A count just under the next scale can therefore print as `1024.0` of the
//! smaller unit (e.g. 1048575 bytes is `"1024.0 KiB"`).

use vstd::prelude::*;
use vstd::string::*;

verus! {

/// One binary kibibyte, 1024 bytes: the base of the size-display scale.
pub const KIB: u64 = 1024;

/// 1024^2 bytes.
pub const MIB: u64 = 1048576;

/// 1024^3 bytes.
pub const GIB: u64 = 1073741824;

/// 1024^4 bytes.
pub const TIB: u64 = 1099511627776;

/// 1024^5 bytes.
pub const PIB: u64 = 1125899906842624;

/// 1024^6 bytes.
pub const EIB: u64 = 1152921504606846976;

/// The character for one decimal digit value.
pub open spec fn digit_char(d: int) -> char {
    if d == 0 {
        '0'
    } else if d == 1 {
        '1'
    } else if d == 2 {
        '2'
    } else if d == 3 {
        '3'
    } else if d == 4 {
        '4'
    } else if d == 5 {
        '5'
    } else if d == 6 {
        '6'
    } else if d == 7 {
        '7'
    } else if d == 8 {
        '8'
    } else {
        '9'
    }
}

/// The decimal digits of `n`, most significant first, with no leading zeros
/// (a lone zero for `n == 0`).
pub open spec fn dec_digits(n: int) -> Seq<char>
    decreases n,
{
    if n < 10 {
        seq![digit_char(n)]
    } else {
        dec_digits(n / 10).push(digit_char(n % 10))
    }
}

/// The scale that `n` bytes are displayed in, for `n >= 1024`: the largest
/// power of 1024, up to 1024^6, that does not exceed `n`.
pub open spec fn scale_of(n: int) -> int {
    if n < 1048576 {
        1024
    } else if n < 1073741824 {
        1048576
    } else if n < 1099511627776 {
        1073741824
    } else if n < 1125899906842624 {
        1099511627776
    } else if n < 1152921504606846976 {
        1125899906842624
    } else {
        1152921504606846976
    }
}

/// The unit suffix paired with each scale.
pub open spec fn suffix_of(n: int) -> Seq<char> {
    if n < 1048576 {
        " KiB"@
    } else if n < 1073741824 {
        " MiB"@
    } else if n < 1099511627776 {
        " GiB"@
    } else if n < 1125899906842624 {
        " TiB"@
    } else if n < 1152921504606846976 {
        " PiB"@
    } else {
        " EiB"@
    }
}

/// The display string for a byte count `n`, under the convention documented
/// at the top of this module: `"<n> B"` below 1024, otherwise the scaled
/// value in tenths, rounded half up, as `"<whole>.<tenth> <unit>"`.
pub open spec fn spec_format_size(n: int) -> Seq<char> {
    if n < 1024 {
        dec_digits(n) + " B"@
    } else {
        let u = scale_of(n);
        let tenths = (10 * n + u / 2) / u;
        dec_digits(tenths / 10) + "."@ + dec_digits(tenths % 10) + suffix_of(n)
    }
}

/// The one-character string for a decimal digit value.
fn digit_str(d: u64) -> (r: &'static str)
    requires
        d < 10,
    ensures
        r@ == seq![digit_char(d as int)],
{
    proof {
        reveal_strlit("0");
        reveal_strlit("1");
        reveal_strlit("2");
        reveal_strlit("3");
        reveal_strlit("4");
        reveal_strlit("5");
        reveal_strlit("6");
        reveal_strlit("7");
        reveal_strlit("8");
        reveal_strlit("9");
    }
    let r = if d == 0 {
        "0"
    } else if d == 1 {
        "1"
    } else if d == 2 {
        "2"
    } else if d == 3 {
        "3"
    } else if d == 4 {
        "4"
    } else if d == 5 {
        "5"
    } else if d == 6 {
        "6"
    } else if d == 7 {
        "7"
    } else if d == 8 {
        "8"
    } else {
        "9"
    };
    proof {
        assert(r@ =~= seq![digit_char(d as int)]);
    }
    r
}

/// Appends the decimal digits of `n` to `out`.
fn append_decimal(out: &mut String, n: u64)
    ensures
        final(out)@ == old(out)@ + dec_digits(n as int),
    decreases n,
{
    if n >= 10 {
        append_decimal(out, n / 10);
    }
    out.append(digit_str(n % 10));
    proof {
        assert(final(out)@ =~= old(out)@ + dec_digits(n as int));
    }
}

/// Renders a byte count for display, following the convention documented at
/// the top of this module.
pub fn format_size(n: u64) -> (r: String)
    ensures
        r@ == spec_format_size(n as int),
{
    let mut out = String::new();
    if n < KIB {
        append_decimal(&mut out, n);
        out.append(" B");
        proof {
            assert(out@ =~= spec_format_size(n as int));
        }
        return out;
    }
    let u: u64 = if n < MIB {
        KIB
    } else if n < GIB {
        MIB
    } else if n < TIB {
        GIB
    } else if n < PIB {
        TIB
    } else if n < EIB {
        PIB
    } else {
        EIB
    };
    proof {
        let ni = n as int;
        let ui = u as int;
        assert(ui == scale_of(ni));
        assert(ni < 1024 * ui);
        assert(ni / ui < 1024) by (nonlinear_arith)
            requires
                0 <= ni,
                1 <= ui,
                ni < 1024 * ui,
        ;
        assert((10 * (ni % ui) + ui / 2) / ui < 11) by (nonlinear_arith)
            requires
                1 <= ui,
                0 <= ni % ui < ui,
        ;
    }
    let whole = n / u;
    let rest = n % u;
    let tenths = whole * 10 + (10 * rest + u / 2) / u;
    proof {
        lemma_split_tenths(n as int, u as int);
    }
    append_decimal(&mut out, tenths / 10);
    out.append(".");
    append_decimal(&mut out, tenths % 10);
    if u == KIB {
        out.append(" KiB");
    } else if u == MIB {
        out.append(" MiB");
    } else if u == GIB {
        out.append(" GiB");
    } else if u == TIB {
        out.append(" TiB");
    } else if u == PIB {
        out.append(" PiB");
    } else {
        out.append(" EiB");
    }
    proof {
        assert(out@ =~= spec_format_size(n as int));
    }
    out
}

/// The scaled tenths value can be computed without widening: splitting `n`
/// into `u * (n / u) + n % u` turns the rounded quotient into a sum whose
/// parts all fit in a machine word.
proof fn lemma_split_tenths(n: int, u: int)
    requires
        u >= 1,
        n >= 0,
    ensures
        (10 * n + u / 2) / u == 10 * (n / u) + (10 * (n % u) + u / 2) / u,
{
    let q = n / u;
    let r = n % u;
    vstd::arithmetic::div_mod::lemma_fundamental_div_mod(n, u);
    assert(10 * n + u / 2 == (10 * r + u / 2) + (10 * q) * u) by (nonlinear_arith)
        requires
            n == u * q + r,
    ;
    vstd::arithmetic::div_mod::lemma_hoist_over_denominator(10 * r + u / 2, 10 * q, u as nat);
}

} // verus!
