use vstd::prelude::*;

verus! {

/// Major version of the native library this crate is written against.
pub const VERSION_MAJOR: i32 = 3;
/// Minor version of the native library this crate is written against.
pub const VERSION_MINOR: i32 = 2;
/// Revision of the native library this crate is written against.
pub const VERSION_REVISION: i32 = 1;

/// The byte of a decimal digit.
pub open spec fn digit_byte(d: nat) -> u8 {
    (d + 48) as u8
}

/// The decimal digits of `n`, most significant first, with no leading zero.
pub open spec fn decimal(n: nat) -> Seq<u8>
    decreases n,
{
    if n < 10 {
        seq![digit_byte(n)]
    } else {
        decimal(n / 10).push(digit_byte(n % 10))
    }
}

/// The text of a version: its three numbers in decimal, separated by dots.
pub open spec fn version_text(major: nat, minor: nat, rev: nat) -> Seq<u8> {
    decimal(major) + seq![46u8] + decimal(minor) + seq![46u8] + decimal(rev)
}

/// Whether a native version string agrees with a version triple: the triple
/// is non-negative and the string starts with its text, followed by the end
/// of the string or a space (where the native layer lists its back ends).
pub open spec fn agrees(version: (i32, i32, i32), text: Seq<u8>) -> bool {
    &&& version.0 >= 0
    &&& version.1 >= 0
    &&& version.2 >= 0
    &&& {
        let t = version_text(version.0 as nat, version.1 as nat, version.2 as nat);
        &&& t.len() <= text.len()
        &&& text.take(t.len() as int) == t
        &&& (text.len() == t.len() || text[t.len() as int] == 32u8)
    }
}

/// Appends the decimal digits of `n`.
fn push_decimal(n: u32, out: &mut Vec<u8>)
    ensures
        final(out)@ == old(out)@ + decimal(n as nat),
    decreases n,
{
    if n >= 10 {
        push_decimal(n / 10, out);
    }
    let d = (n % 10) as u8;
    out.push(d + 48);
    assert(final(out)@ =~= old(out)@ + decimal(n as nat));
}

/// The text of a non-negative version triple.
pub fn format_version(version: (i32, i32, i32)) -> (r: Vec<u8>)
    requires
        version.0 >= 0,
        version.1 >= 0,
        version.2 >= 0,
    ensures
        r@ == version_text(version.0 as nat, version.1 as nat, version.2 as nat),
{
    let mut out: Vec<u8> = Vec::new();
    push_decimal(version.0 as u32, &mut out);
    out.push(46u8);
    push_decimal(version.1 as u32, &mut out);
    out.push(46u8);
    push_decimal(version.2 as u32, &mut out);
    assert(out@ =~= version_text(version.0 as nat, version.1 as nat, version.2 as nat));
    out
}

/// Whether the native version string (its bytes) agrees with the native
/// version triple.
pub fn version_agrees(version: (i32, i32, i32), text: &[u8]) -> (r: bool)
    ensures
        r == agrees(version, text@),
{
    if version.0 < 0 || version.1 < 0 || version.2 < 0 {
        return false;
    }
    let t = format_version(version);
    if t.len() > text.len() {
        return false;
    }
    let mut i: usize = 0;
    while i < t.len()
        invariant
            i <= t@.len() <= text@.len(),
            version.0 >= 0 && version.1 >= 0 && version.2 >= 0,
            t@ == version_text(version.0 as nat, version.1 as nat, version.2 as nat),
            forall|j: int| 0 <= j < i ==> text@[j] == t@[j],
        decreases t@.len() - i,
    {
        if text[i] != t[i] {
            assert(text@.take(t@.len() as int)[i as int] != t@[i as int]);
            assert(text@.take(t@.len() as int) != t@);
            return false;
        }
        i += 1;
    }
    assert(text@.take(t@.len() as int) =~= t@);
    t.len() == text.len() || text[t.len()] == 32u8
}

/// Whether a native version triple is the one this crate is written against.
pub fn is_bound_version(version: (i32, i32, i32)) -> (r: bool)
    ensures
        r == (version == (VERSION_MAJOR, VERSION_MINOR, VERSION_REVISION)),
{
    version.0 == VERSION_MAJOR && version.1 == VERSION_MINOR && version.2 == VERSION_REVISION
}

/// Whether a byte is a decimal digit.
pub open spec fn is_digit(b: u8) -> bool {
    48 <= b <= 57
}

/// Every byte of a decimal is a digit, and it has at least one.
pub proof fn decimal_is_digits(n: nat)
    ensures
        decimal(n).len() >= 1,
        n >= 10 ==> decimal(n).len() >= 2,
        forall|i: int| 0 <= i < decimal(n).len() ==> is_digit(#[trigger] decimal(n)[i]),
    decreases n,
{
    if n >= 10 {
        decimal_is_digits(n / 10);
        let p = decimal(n / 10);
        assert forall|i: int| 0 <= i < decimal(n).len() implies is_digit(#[trigger] decimal(n)[i]) by {
            if i < p.len() {
                assert(decimal(n)[i] == p[i]);
            }
        }
    }
}

/// Different numbers have different decimals.
pub proof fn decimal_injective(a: nat, b: nat)
    requires
        decimal(a) == decimal(b),
    ensures
        a == b,
    decreases a,
{
    decimal_is_digits(a);
    decimal_is_digits(b);
    if a >= 10 && b >= 10 {
        assert(decimal(a / 10) == decimal(a).drop_last());
        assert(decimal(b / 10) == decimal(b).drop_last());
        decimal_injective(a / 10, b / 10);
        assert(decimal(a).last() == digit_byte(a % 10));
        assert(decimal(b).last() == digit_byte(b % 10));
        assert(a % 10 == b % 10);
        assert(a == 10 * (a / 10) + a % 10);
        assert(b == 10 * (b / 10) + b % 10);
    } else if a < 10 && b < 10 {
        assert(decimal(a)[0] == digit_byte(a));
        assert(decimal(b)[0] == digit_byte(b));
    }
}

/// Where a run of digits starting at `start` ends in `s`: two runs that
/// both start there, are followed by a non-digit or the end, and hold only
/// digits, have the same length.
proof fn digit_run_unique(s: Seq<u8>, start: int, l1: int, l2: int)
    requires
        0 <= start,
        0 <= l1,
        0 <= l2,
        start + l1 <= s.len(),
        start + l2 <= s.len(),
        forall|i: int| start <= i < start + l1 ==> is_digit(#[trigger] s[i]),
        forall|i: int| start <= i < start + l2 ==> is_digit(#[trigger] s[i]),
        start + l1 == s.len() || !is_digit(s[start + l1]),
        start + l2 == s.len() || !is_digit(s[start + l2]),
    ensures
        l1 == l2,
{
    if l1 < l2 {
        assert(is_digit(s[start + l1]));
    } else if l2 < l1 {
        assert(is_digit(s[start + l2]));
    }
}

/// A version string agrees with at most one version triple, so the triple
/// and the string reported by the native layer can be checked against each
/// other.
pub proof fn agreement_determines_version(v1: (i32, i32, i32), v2: (i32, i32, i32), text: Seq<u8>)
    requires
        agrees(v1, text),
        agrees(v2, text),
    ensures
        v1 == v2,
{
    let (a1, b1, c1) = (decimal(v1.0 as nat), decimal(v1.1 as nat), decimal(v1.2 as nat));
    let (a2, b2, c2) = (decimal(v2.0 as nat), decimal(v2.1 as nat), decimal(v2.2 as nat));
    decimal_is_digits(v1.0 as nat);
    decimal_is_digits(v1.1 as nat);
    decimal_is_digits(v1.2 as nat);
    decimal_is_digits(v2.0 as nat);
    decimal_is_digits(v2.1 as nat);
    decimal_is_digits(v2.2 as nat);
    let t1 = version_text(v1.0 as nat, v1.1 as nat, v1.2 as nat);
    let t2 = version_text(v2.0 as nat, v2.1 as nat, v2.2 as nat);
    assert forall|i: int| 0 <= i < t1.len() implies text[i] == #[trigger] t1[i] by {
        assert(text.take(t1.len() as int)[i] == t1[i]);
    }
    assert forall|i: int| 0 <= i < t2.len() implies text[i] == #[trigger] t2[i] by {
        assert(text.take(t2.len() as int)[i] == t2[i]);
    }
    // the major numbers: digits up to the first dot
    assert forall|i: int| 0 <= i < a1.len() implies is_digit(#[trigger] text[i]) by {
        assert(t1[i] == a1[i]);
    }
    assert forall|i: int| 0 <= i < a2.len() implies is_digit(#[trigger] text[i]) by {
        assert(t2[i] == a2[i]);
    }
    assert(t1[a1.len() as int] == 46u8);
    assert(t2[a2.len() as int] == 46u8);
    digit_run_unique(text, 0, a1.len() as int, a2.len() as int);
    assert(a1 =~= a2) by {
        assert forall|i: int| 0 <= i < a1.len() implies a1[i] == a2[i] by {
            assert(t1[i] == a1[i]);
            assert(t2[i] == a2[i]);
        }
    }
    decimal_injective(v1.0 as nat, v2.0 as nat);
    // the minor numbers: digits up to the second dot
    let s: int = a1.len() as int + 1;
    assert forall|i: int| s <= i < s + b1.len() implies is_digit(#[trigger] text[i]) by {
        assert(t1[i] == b1[i - s]);
    }
    assert forall|i: int| s <= i < s + b2.len() implies is_digit(#[trigger] text[i]) by {
        assert(t2[i] == b2[i - s]);
    }
    assert(t1[s + b1.len()] == 46u8);
    assert(t2[s + b2.len()] == 46u8);
    digit_run_unique(text, s, b1.len() as int, b2.len() as int);
    assert(b1 =~= b2) by {
        assert forall|i: int| 0 <= i < b1.len() implies b1[i] == b2[i] by {
            assert(t1[s + i] == b1[i]);
            assert(t2[s + i] == b2[i]);
        }
    }
    decimal_injective(v1.1 as nat, v2.1 as nat);
    // the revisions: digits up to a space or the end
    let r: int = s + b1.len() as int + 1;
    assert forall|i: int| r <= i < r + c1.len() implies is_digit(#[trigger] text[i]) by {
        assert(t1[i] == c1[i - r]);
    }
    assert forall|i: int| r <= i < r + c2.len() implies is_digit(#[trigger] text[i]) by {
        assert(t2[i] == c2[i - r]);
    }
    digit_run_unique(text, r, c1.len() as int, c2.len() as int);
    assert(c1 =~= c2) by {
        assert forall|i: int| 0 <= i < c1.len() implies c1[i] == c2[i] by {
            assert(t1[r + i] == c1[i]);
            assert(t2[r + i] == c2[i]);
        }
    }
    decimal_injective(v1.2 as nat, v2.2 as nat);
}

} // verus!
