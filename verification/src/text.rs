//! Small text helpers: control-character stripping and decimal rendering.

use vstd::prelude::*;
use vstd::std_specs::iter::IteratorSpec;

verus! {

/// A character in Unicode's general category `Cc` (control codes):
/// U+0000..=U+001F and U+007F..=U+009F.
pub open spec fn is_control(c: char) -> bool {
    (c as u32) <= 0x1f || (0x7f <= (c as u32) && (c as u32) <= 0x9f)
}

/// `s` with every control character removed, the rest in order.
pub open spec fn strip_controls(s: Seq<char>) -> Seq<char>
    decreases s.len(),
{
    if s.len() == 0 {
        Seq::empty()
    } else {
        let rest = strip_controls(s.drop_last());
        if is_control(s.last()) {
            rest
        } else {
            rest.push(s.last())
        }
    }
}

/// The ASCII digit for `d`, which is below ten.
pub open spec fn digit_char(d: nat) -> char {
    ((d + 48) as u32) as char
}

/// The decimal rendering of `n`, without sign or leading zeros.
pub open spec fn decimal(n: nat) -> Seq<char>
    decreases n,
{
    if n < 10 {
        seq![digit_char(n)]
    } else {
        decimal(n / 10).push(digit_char(n % 10))
    }
}

/// Whether `c` is a control character.
pub fn char_is_control(c: char) -> (b: bool)
    ensures
        b == is_control(c),
{
    let v = c as u32;
    v <= 0x1f || (0x7f <= v && v <= 0x9f)
}

/// Appends one character to a string.
///
/// Calls std's `String::push`, which its documentation says appends the
/// character to the end of the string; the contract claims exactly that.
#[verifier::external_body]
pub(crate) fn push_char(s: &mut String, c: char)
    ensures
        final(s)@ == old(s)@.push(c),
{
    s.push(c);
}

/// Copy of `s` with every control character removed, so that text supplied
/// by the server cannot inject line breaks or terminal escapes when shown.
pub fn sanitize_for_display(s: &str) -> (out: String)
    ensures
        out@ == strip_controls(s@),
{
    let mut out = String::new();
    let mut it = s.chars();
    let ghost all = s@;
    let ghost mut seen: int = 0;
    proof {
        vstd::string::axiom_spec_iter(s);
        assert(all.take(0) =~= Seq::<char>::empty());
    }
    loop
        invariant
            0 <= seen <= all.len(),
            it.obeys_prophetic_iter_laws(),
            it.remaining() == all.skip(seen),
            out@ == strip_controls(all.take(seen)),
        ensures
            out@ == strip_controls(all),
        decreases all.len() - seen,
    {
        let ghost before = it;
        let next = it.next();
        proof {
            vstd::string::next_postcondition(&before, &it, next);
        }
        match next {
            Some(c) => {
                proof {
                    assert(all.skip(seen)[0] == all[seen]);
                    assert(all.take(seen + 1).drop_last() =~= all.take(seen));
                    assert(all.skip(seen).drop_first() =~= all.skip(seen + 1));
                }
                if !char_is_control(c) {
                    push_char(&mut out, c);
                }
                proof {
                    seen = seen + 1;
                }
            },
            None => {
                proof {
                    assert(all.skip(seen).len() == 0);
                    assert(all.take(seen) =~= all);
                }
                break;
            },
        }
    }
    out
}

/// The digit character for a value below ten.
pub fn digit_to_char(d: u64) -> (c: char)
    requires
        d < 10,
    ensures
        c == digit_char(d as nat),
{
    let b: u8 = (d as u8) + 48;
    b as char
}

/// Appends the decimal rendering of `n` to `out`.
pub fn write_decimal(n: u64, out: &mut String)
    ensures
        final(out)@ == old(out)@ + decimal(n as nat),
    decreases n,
{
    if n >= 10 {
        write_decimal(n / 10, out);
    }
    let c = digit_to_char(n % 10);
    push_char(out, c);
    proof {
        if n >= 10 {
            assert(old(out)@ + decimal((n / 10) as nat) + seq![c] =~= old(out)@ + decimal(n as nat));
        } else {
            assert(old(out)@ + seq![c] =~= old(out)@ + decimal(n as nat));
        }
    }
}

/// The decimal rendering of `n` as a new string.
pub fn decimal_string(n: u64) -> (s: String)
    ensures
        s@ == decimal(n as nat),
{
    let mut s = String::new();
    write_decimal(n, &mut s);
    proof {
        assert(Seq::<char>::empty() + decimal(n as nat) =~= decimal(n as nat));
    }
    s
}

/// The decimal rendering of a signed number, with a leading `-` when it is
/// negative.
pub open spec fn signed_decimal(n: int) -> Seq<char> {
    if n < 0 {
        seq!['-'] + decimal((-n) as nat)
    } else {
        decimal(n as nat)
    }
}

/// The decimal rendering of a signed number as a new string.
pub fn signed_decimal_string(n: i32) -> (s: String)
    ensures
        s@ == signed_decimal(n as int),
{
    let mut s = String::new();
    if n < 0 {
        push_char(&mut s, '-');
        let magnitude: u64 = (-(n as i64)) as u64;
        write_decimal(magnitude, &mut s);
        proof {
            assert(seq!['-'] + decimal(magnitude as nat) =~= signed_decimal(n as int));
        }
    } else {
        write_decimal(n as u64, &mut s);
        proof {
            assert(Seq::<char>::empty() + decimal(n as nat) =~= decimal(n as nat));
        }
    }
    s
}

/// Distinct numbers have distinct decimal renderings.
pub proof fn lemma_decimal_injective(a: nat, b: nat)
    requires
        decimal(a) == decimal(b),
    ensures
        a == b,
    decreases a + b,
{
    lemma_decimal_nonempty(a);
    lemma_decimal_nonempty(b);
    let da = decimal(a);
    let db = decimal(b);
    assert(da.last() == db.last());
    if a < 10 && b < 10 {
        assert(da.last() == digit_char(a));
        assert(db.last() == digit_char(b));
        assert(digit_char(a) as u32 == a + 48);
        assert(digit_char(b) as u32 == b + 48);
    } else if a < 10 {
        lemma_decimal_nonempty(b / 10);
        assert(da.len() == 1);
        assert(db.len() == decimal(b / 10).len() + 1);
        assert(false);
    } else if b < 10 {
        lemma_decimal_nonempty(a / 10);
        assert(db.len() == 1);
        assert(da.len() == decimal(a / 10).len() + 1);
        assert(false);
    } else {
        assert(da.drop_last() =~= decimal(a / 10));
        assert(db.drop_last() =~= decimal(b / 10));
        assert(da.last() == digit_char(a % 10));
        assert(db.last() == digit_char(b % 10));
        assert(digit_char(a % 10) as u32 == a % 10 + 48);
        assert(digit_char(b % 10) as u32 == b % 10 + 48);
        lemma_decimal_injective(a / 10, b / 10);
    }
}

/// A decimal rendering has at least one digit.
pub proof fn lemma_decimal_nonempty(n: nat)
    ensures
        decimal(n).len() >= 1,
    decreases n,
{
    if n >= 10 {
        lemma_decimal_nonempty(n / 10);
    }
}

/// Stripping leaves no control character behind.
pub proof fn lemma_stripped_has_no_controls(s: Seq<char>)
    ensures
        forall|i: int| 0 <= i < strip_controls(s).len() ==> !is_control(#[trigger] strip_controls(s)[i]),
    decreases s.len(),
{
    if s.len() > 0 {
        lemma_stripped_has_no_controls(s.drop_last());
        let rest = strip_controls(s.drop_last());
        if !is_control(s.last()) {
            assert forall|i: int| 0 <= i < rest.push(s.last()).len() implies !is_control(
                #[trigger] rest.push(s.last())[i],
            ) by {
                if i < rest.len() {
                    assert(rest.push(s.last())[i] == rest[i]);
                }
            }
        }
    }
}

/// Text without control characters is left as it is.
pub proof fn lemma_strip_keeps_clean_text(s: Seq<char>)
    requires
        forall|i: int| 0 <= i < s.len() ==> !is_control(#[trigger] s[i]),
    ensures
        strip_controls(s) == s,
    decreases s.len(),
{
    if s.len() > 0 {
        lemma_strip_keeps_clean_text(s.drop_last());
        assert(s.drop_last().push(s.last()) =~= s);
    }
}

/// Stripping twice strips no more than stripping once.
pub proof fn lemma_strip_idempotent(s: Seq<char>)
    ensures
        strip_controls(strip_controls(s)) == strip_controls(s),
{
    lemma_stripped_has_no_controls(s);
    lemma_strip_keeps_clean_text(strip_controls(s));
}

} // verus!
