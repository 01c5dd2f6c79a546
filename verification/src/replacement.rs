//! Normalization of JavaScript-style replacement strings.
//!
//! Archive authors write capture references as `$N` (with `$$` for a literal
//! dollar sign).  Before a pattern is handed to the regex engine each `$N` is
//! rewritten into the unambiguous brace form `${N}`.  Whether one or two
//! digits belong to the reference depends on the number of capture groups of
//! the compiled pattern: `$12003` means group 12 when the pattern has at
//! least twelve groups, and group 1 followed by the literal `2003` otherwise.
//! A reference to a group the pattern does not have is no reference at all:
//! the dollar sign and its digits are emitted verbatim.

use vstd::prelude::*;
use vstd::string::*;

verus! {

/// Numeric value of a decimal digit character.
pub open spec fn digit_spec(c: char) -> int {
    c as u32 - '0' as u32
}

/// How many leading characters of `s` form a capture-group reference, given
/// `m` capture groups: 2 for a usable two-digit reference, 1 for a usable
/// one-digit reference, 0 when `s` does not start with a reference the
/// pattern can satisfy — a `$N` whose group does not exist stays verbatim.
pub open spec fn capture_ref_len(s: Seq<char>, m: nat) -> int {
    if s.len() >= 1 && '1' as u32 <= s[0] as u32 <= '9' as u32 {
        if s.len() >= 2 && '0' as u32 <= s[1] as u32 <= '9' as u32 && digit_spec(s[0]) * 10
            + digit_spec(s[1]) <= m {
            2
        } else if digit_spec(s[0]) <= m {
            1
        } else {
            0
        }
    } else if s.len() >= 1 && s[0] == '0' {
        if s.len() >= 2 && '1' as u32 <= s[1] as u32 <= '9' as u32 && digit_spec(s[1]) <= m {
            2
        } else {
            0
        }
    } else {
        0
    }
}

/// The normalized form of a replacement string: every capture reference is
/// wrapped in braces, `$$` is kept as is, and any other text is unchanged.
pub open spec fn normalize_replacement(text: Seq<char>, m: nat) -> Seq<char>
    decreases text.len(),
{
    if text.len() == 0 {
        Seq::empty()
    } else if text[0] == '$' {
        if text.len() >= 2 && text[1] == '$' {
            seq!['$', '$'] + normalize_replacement(text.skip(2), m)
        } else {
            let k = capture_ref_len(text.skip(1), m);
            if k > 0 {
                seq!['$', '{'] + text.subrange(1, 1 + k) + seq!['}'] + normalize_replacement(
                    text.skip(1 + k),
                    m,
                )
            } else {
                seq!['$'] + normalize_replacement(text.skip(1), m)
            }
        }
    } else {
        seq![text[0]] + normalize_replacement(text.skip(1), m)
    }
}

/// Numeric value of a decimal digit character.
pub fn digit_val(c: char) -> (r: usize)
    requires
        '0' as u32 <= c as u32,
        c as u32 <= '9' as u32,
    ensures
        r == digit_spec(c),
{
    (c as u32 - '0' as u32) as usize
}

/// Length of the capture reference at the start of `slice`.
pub fn match_capture(slice: &str, m: usize) -> (r: usize)
    ensures
        r == capture_ref_len(slice@, m as nat),
{
    capture_ref_len_at(slice, 0, m)
}

/// Length of the capture reference at character position `j` of `text`.
fn capture_ref_len_at(text: &str, j: usize, m: usize) -> (r: usize)
    requires
        j <= text@.len(),
    ensures
        r == capture_ref_len(text@.skip(j as int), m as nat),
        j + r <= text@.len(),
{
    let n: usize = text.unicode_len();
    if j >= n {
        return 0;
    }
    let c0 = text.get_char(j);
    let u0 = c0 as u32;
    if '1' as u32 <= u0 && u0 <= '9' as u32 {
        let two_digit_ok = if j + 1 < n {
            let c1 = text.get_char(j + 1);
            let u1 = c1 as u32;
            '0' as u32 <= u1 && u1 <= '9' as u32 && digit_val(c0) * 10 + digit_val(c1) <= m
        } else {
            false
        };
        if two_digit_ok {
            2
        } else if digit_val(c0) <= m {
            1
        } else {
            0
        }
    } else if c0 == '0' {
        if j + 1 < n {
            let c1 = text.get_char(j + 1);
            let u1 = c1 as u32;
            if '1' as u32 <= u1 && u1 <= '9' as u32 && digit_val(c1) <= m {
                2
            } else {
                0
            }
        } else {
            0
        }
    } else {
        0
    }
}

/// Rewrites every `$N` capture reference of `text` into the brace form
/// `${N}`, leaving `$$` pairs and ordinary characters untouched, for a
/// pattern with `captures_len` capture groups.
pub fn fix_js_replacement(text: &str, captures_len: usize) -> (r: String)
    ensures
        r@ == normalize_replacement(text@, captures_len as nat),
{
    proof {
        reveal_strlit("$");
        reveal_strlit("$$");
        reveal_strlit("${");
        reveal_strlit("}");
    }
    let ghost m: nat = captures_len as nat;
    let n: usize = text.unicode_len();
    let mut out = String::new();
    let mut i: usize = 0;
    proof {
        assert(text@.skip(0) =~= text@);
    }
    while i < n
        invariant
            0 <= i <= n,
            n == text@.len(),
            m == captures_len as nat,
            normalize_replacement(text@, m) == out@ + normalize_replacement(
                text@.skip(i as int),
                m,
            ),
        decreases n - i,
    {
        let ghost prev = out@;
        let ghost rest = text@.skip(i as int);
        proof {
            reveal_strlit("$");
            reveal_strlit("$$");
            reveal_strlit("${");
            reveal_strlit("}");
            assert(rest.len() == n - i);
            assert(rest[0] == text@[i as int]);
        }
        let c = text.get_char(i);
        if c == '$' {
            if i + 1 < n && text.get_char(i + 1) == '$' {
                out.append("$$");
                proof {
                    assert(rest[1] == text@[i + 1]);
                    assert(rest.skip(2) =~= text@.skip(i + 2));
                    assert(out@ =~= prev + seq!['$', '$']);
                }
                i = i + 2;
            } else {
                let k = capture_ref_len_at(text, i + 1, captures_len);
                proof {
                    assert(rest.skip(1) =~= text@.skip(i + 1));
                    if rest.len() >= 2 {
                        assert(rest[1] == text@[i + 1]);
                    }
                }
                if k > 0 {
                    out.append("${");
                    let piece = text.substring_char(i + 1, i + 1 + k);
                    out.append(piece);
                    out.append("}");
                    proof {
                        assert(rest.skip(1 + k) =~= text@.skip(i + 1 + k));
                        assert(rest.subrange(1, 1 + k as int) =~= piece@);
                        assert(out@ =~= prev + (seq!['$', '{'] + rest.subrange(1, 1 + k as int)
                            + seq!['}']));
                    }
                    i = i + 1 + k;
                } else {
                    out.append("$");
                    proof {
                        assert(rest.skip(1) =~= text@.skip(i + 1));
                        assert(out@ =~= prev + seq!['$']);
                    }
                    i = i + 1;
                }
            }
        } else {
            let piece = text.substring_char(i, i + 1);
            out.append(piece);
            proof {
                assert(piece@ =~= seq![rest[0]]);
                assert(rest.skip(1) =~= text@.skip(i + 1));
                assert(out@ =~= prev + seq![rest[0]]);
            }
            i = i + 1;
        }
    }
    proof {
        assert(text@.skip(n as int) =~= Seq::<char>::empty());
    }
    out
}

} // verus!
