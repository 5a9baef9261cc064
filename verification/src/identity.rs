//! What is written as text reads back as what it was: identifiers, and the
//! names of category types and telemetry levels.

use vstd::prelude::*;
use crate::domain::{
    hex_digit, hex_number, hex_of, hex_value, id_char_ok, id_of_text, id_text, sixteen_to,
    type_of_text, type_text, CategoryTypes, RowID,
};
use crate::telemetry::{level_of_text, level_text, TelemetryLevels};

verus! {

/// Every character of `s` is a hexadecimal digit.
pub open spec fn all_hex(s: Seq<char>) -> bool {
    forall|i: int| 0 <= i < s.len() ==> hex_value(#[trigger] s[i]) is Some
}

proof fn lemma_hex_digit(d: int)
    requires
        0 <= d < 16,
    ensures
        hex_digit(d).len() == 1,
        hex_value(hex_digit(d)[0]) == Some(d),
{
    reveal_strlit("0");
    reveal_strlit("1");
    reveal_strlit("2");
    reveal_strlit("3");
    reveal_strlit("4");
    reveal_strlit("5");
    reveal_strlit("6");
    reveal_strlit("7");
    reveal_strlit("8");
    reveal_strlit("9");
    reveal_strlit("a");
    reveal_strlit("b");
    reveal_strlit("c");
    reveal_strlit("d");
    reveal_strlit("e");
    reveal_strlit("f");
}

proof fn lemma_sixteen_positive(n: nat)
    ensures
        sixteen_to(n) > 0,
    decreases n,
{
    if n > 0 {
        lemma_sixteen_positive((n - 1) as nat);
    }
}

/// Two texts that agree on their first `k` characters spell the same
/// number there.
proof fn lemma_same_prefix(s: Seq<char>, t: Seq<char>, k: int)
    requires
        0 <= k <= s.len(),
        k <= t.len(),
        forall|i: int| 0 <= i < k ==> s[i] == t[i],
    ensures
        hex_number(s, k) == hex_number(t, k),
    decreases k,
{
    if k > 0 {
        lemma_same_prefix(s, t, k - 1);
    }
}

/// The digits of a number spell the number, as far as they reach.
proof fn lemma_hex_of(x: int, n: nat)
    requires
        0 <= x,
    ensures
        hex_of(x, n).len() == n,
        all_hex(hex_of(x, n)),
        hex_number(hex_of(x, n), n as int) == x % sixteen_to(n),
    decreases n,
{
    if n > 0 {
        let m = (n - 1) as nat;
        let front = hex_of(x / 16, m);
        let last = hex_digit(x % 16);
        let whole = front + last;
        lemma_hex_of(x / 16, m);
        lemma_hex_digit(x % 16);
        lemma_sixteen_positive(m);
        assert(whole == hex_of(x, n));
        assert(whole.len() == n);
        assert(whole[n - 1] == last[0]);
        assert forall|i: int| 0 <= i < whole.len() implies hex_value(#[trigger] whole[i]) is Some by {
            if i < m {
                assert(whole[i] == front[i]);
            }
        }
        lemma_same_prefix(whole, front, m as int);
        vstd::arithmetic::div_mod::lemma_breakdown(x, 16, sixteen_to(m));
        assert(sixteen_to(n) == 16 * sixteen_to(m));
    }
}

/// Digits written after a text shift what the text spells and add their
/// own number.
proof fn lemma_digits_after(s: Seq<char>, h: Seq<char>, n: int)
    requires
        0 <= n <= h.len(),
        all_hex(h),
    ensures
        hex_number(s + h, s.len() + n) == hex_number(s, s.len() as int) * sixteen_to(n as nat)
            + hex_number(h, n),
    decreases n,
{
    if n == 0 {
        lemma_same_prefix(s + h, s, s.len() as int);
    } else {
        lemma_digits_after(s, h, n - 1);
        let d = hex_value(h[n - 1])->0;
        assert((s + h)[s.len() + n - 1] == h[n - 1]);
        let a = hex_number(s, s.len() as int);
        let p = sixteen_to((n - 1) as nat);
        let b = hex_number(h, n - 1);
        assert(sixteen_to(n as nat) == 16 * p);
        assert((a * p + b) * 16 + d == a * (16 * p) + (b * 16 + d)) by (nonlinear_arith);
    }
}

/// A hyphen written after a text leaves what the text spells.
proof fn lemma_hyphen_after(s: Seq<char>)
    ensures
        hex_number(s + "-"@, (s.len() + 1) as int) == hex_number(s, s.len() as int),
        ("-"@).len() == 1,
        ("-"@)[0] == '-',
{
    reveal_strlit("-");
    assert((s + "-"@)[s.len() as int] == '-');
    lemma_same_prefix(s + "-"@, s, s.len() as int);
}

/// Five groups of digits with a hyphen between each two.
pub open spec fn grouped(
    a: Seq<char>,
    b: Seq<char>,
    c: Seq<char>,
    d: Seq<char>,
    e: Seq<char>,
) -> Seq<char> {
    a + "-"@ + b + "-"@ + c + "-"@ + d + "-"@ + e
}

/// What five groups of digits spell together.
proof fn lemma_grouped_number(
    a: Seq<char>,
    b: Seq<char>,
    c: Seq<char>,
    d: Seq<char>,
    e: Seq<char>,
)
    requires
        a.len() == 8 && b.len() == 4 && c.len() == 4 && d.len() == 4 && e.len() == 12,
        all_hex(a) && all_hex(b) && all_hex(c) && all_hex(d) && all_hex(e),
    ensures
        grouped(a, b, c, d, e).len() == 36,
        hex_number(grouped(a, b, c, d, e), 36) == (((hex_number(a, 8) * 0x1_0000 + hex_number(
            b,
            4,
        )) * 0x1_0000 + hex_number(c, 4)) * 0x1_0000 + hex_number(d, 4)) * 0x1_0000_0000_0000
            + hex_number(e, 12),
{
    assert(sixteen_to(4) == 0x1_0000 && sixteen_to(12) == 0x1_0000_0000_0000) by {
        reveal_with_fuel(sixteen_to, 13);
    }
    let t1 = a;
    let t2 = t1 + "-"@;
    let t3 = t2 + b;
    let t4 = t3 + "-"@;
    let t5 = t4 + c;
    let t6 = t5 + "-"@;
    let t7 = t6 + d;
    let t8 = t7 + "-"@;
    lemma_hyphen_after(t1);
    assert(hex_number(t2, 9) == hex_number(a, 8));
    lemma_digits_after(t2, b, 4);
    assert(hex_number(t3, 13) == hex_number(a, 8) * 0x1_0000 + hex_number(b, 4));
    lemma_hyphen_after(t3);
    assert(hex_number(t4, 14) == hex_number(t3, 13));
    lemma_digits_after(t4, c, 4);
    assert(hex_number(t5, 18) == hex_number(t4, 14) * 0x1_0000 + hex_number(c, 4));
    lemma_hyphen_after(t5);
    assert(hex_number(t6, 19) == hex_number(t5, 18));
    lemma_digits_after(t6, d, 4);
    assert(hex_number(t7, 23) == hex_number(t6, 19) * 0x1_0000 + hex_number(d, 4));
    lemma_hyphen_after(t7);
    assert(hex_number(t8, 24) == hex_number(t7, 23));
    lemma_digits_after(t8, e, 12);
    assert(hex_number(t8 + e, 36) == hex_number(t8, 24) * 0x1_0000_0000_0000 + hex_number(e, 12));
}

/// Five groups of digits have the shape of an identifier's text.
proof fn lemma_grouped_shape(
    a: Seq<char>,
    b: Seq<char>,
    c: Seq<char>,
    d: Seq<char>,
    e: Seq<char>,
)
    requires
        a.len() == 8 && b.len() == 4 && c.len() == 4 && d.len() == 4 && e.len() == 12,
        all_hex(a) && all_hex(b) && all_hex(c) && all_hex(d) && all_hex(e),
    ensures
        forall|k: int| 0 <= k < 36 ==> id_char_ok(grouped(a, b, c, d, e), k),
{
    reveal_strlit("-");
    let t = grouped(a, b, c, d, e);
    assert forall|k: int| 0 <= k < 36 implies id_char_ok(t, k) by {
        if k < 8 {
            assert(t[k] == a[k]);
        } else if k == 8 {
            assert(t[k] == '-');
        } else if k < 13 {
            assert(t[k] == b[k - 9]);
        } else if k == 13 {
            assert(t[k] == '-');
        } else if k < 18 {
            assert(t[k] == c[k - 14]);
        } else if k == 18 {
            assert(t[k] == '-');
        } else if k < 23 {
            assert(t[k] == d[k - 19]);
        } else if k == 23 {
            assert(t[k] == '-');
        } else {
            assert(t[k] == e[k - 24]);
        }
    }
}

/// The five groups of a number below 2^128 make up the number.
proof fn lemma_groups_make_the_number(v: int)
    requires
        0 <= v < 0x1_0000_0000_0000_0000_0000_0000_0000_0000,
    ensures
        ((((v / 0x1_0000_0000_0000_0000_0000_0000) % 0x1_0000_0000 * 0x1_0000 + (v
            / 0x1_0000_0000_0000_0000_0000) % 0x1_0000) * 0x1_0000 + (v
            / 0x1_0000_0000_0000_0000) % 0x1_0000) * 0x1_0000 + (v / 0x1_0000_0000_0000)
            % 0x1_0000) * 0x1_0000_0000_0000 + v % 0x1_0000_0000_0000 == v,
{
    let q12 = v / 0x1_0000_0000_0000;
    let q16 = q12 / 0x1_0000;
    let q20 = q16 / 0x1_0000;
    let q24 = q20 / 0x1_0000;
    assert(q16 == v / 0x1_0000_0000_0000_0000);
    assert(q20 == v / 0x1_0000_0000_0000_0000_0000);
    assert(q24 == v / 0x1_0000_0000_0000_0000_0000_0000);
    assert(q24 < 0x1_0000_0000);
}

/// The text of an identifier reads back as the identifier.
pub proof fn law_id_text_reads_back(id: RowID)
    ensures
        id_of_text(id_text(id)) == Some(id),
{
    let v = id.value as int;
    let a = hex_of(v / 0x1_0000_0000_0000_0000_0000_0000, 8);
    let b = hex_of(v / 0x1_0000_0000_0000_0000_0000, 4);
    let c = hex_of(v / 0x1_0000_0000_0000_0000, 4);
    let d = hex_of(v / 0x1_0000_0000_0000, 4);
    let e = hex_of(v, 12);
    lemma_hex_of(v / 0x1_0000_0000_0000_0000_0000_0000, 8);
    lemma_hex_of(v / 0x1_0000_0000_0000_0000_0000, 4);
    lemma_hex_of(v / 0x1_0000_0000_0000_0000, 4);
    lemma_hex_of(v / 0x1_0000_0000_0000, 4);
    lemma_hex_of(v, 12);
    assert(sixteen_to(4) == 0x1_0000 && sixteen_to(8) == 0x1_0000_0000 && sixteen_to(12)
        == 0x1_0000_0000_0000) by {
        reveal_with_fuel(sixteen_to, 13);
    }
    assert(grouped(a, b, c, d, e) == id_text(id));
    lemma_grouped_number(a, b, c, d, e);
    lemma_grouped_shape(a, b, c, d, e);
    lemma_groups_make_the_number(v);
}

/// The name of a category type reads back as the type.
pub proof fn law_type_name_reads_back(kind: CategoryTypes)
    ensures
        type_of_text(type_text(kind)) == Some(kind),
{
    reveal_strlit("Asset");
    reveal_strlit("Liability");
    reveal_strlit("Income");
    reveal_strlit("Expense");
    reveal_strlit("Equity");
    assert("Asset"@.len() == 5 && "Liability"@.len() == 9 && "Income"@.len() == 6
        && "Expense"@.len() == 7 && "Equity"@.len() == 6);
    assert("Income"@[0] == 'I' && "Equity"@[0] == 'E');
}

/// The name of a telemetry level reads back as the level.
pub proof fn law_level_name_reads_back(level: TelemetryLevels)
    ensures
        level_of_text(level_text(level)) == Some(level),
{
    reveal_strlit("off");
    reveal_strlit("error");
    reveal_strlit("warn");
    reveal_strlit("info");
    reveal_strlit("debug");
    reveal_strlit("trace");
    assert("off"@.len() == 3 && "error"@.len() == 5 && "warn"@.len() == 4 && "info"@.len() == 4
        && "debug"@.len() == 5 && "trace"@.len() == 5);
    assert("warn"@[0] == 'w' && "info"@[0] == 'i');
    assert("error"@[0] == 'e' && "debug"@[0] == 'd' && "trace"@[0] == 't');
}

} // verus!
