//! Plain-text helpers shared by the message type and the logger:
//! whitespace-delimited word counting, a 64-bit content hash, and decimal
//! rendering of counters.

use vstd::prelude::*;

verus! {

/// The Unicode white-space characters, the ones `str::split_whitespace`
/// separates words on.
pub open spec fn is_space(c: char) -> bool {
    ||| c == ' '
    ||| c == '\t'
    ||| c == '\n'
    ||| c == '\r'
    ||| c == '\u{000B}'
    ||| c == '\u{000C}'
    ||| c == '\u{0085}'
    ||| c == '\u{00A0}'
    ||| c == '\u{1680}'
    ||| (0x2000 <= c as u32 && c as u32 <= 0x200A)
    ||| c == '\u{2028}'
    ||| c == '\u{2029}'
    ||| c == '\u{202F}'
    ||| c == '\u{205F}'
    ||| c == '\u{3000}'
}

fn is_space_char(c: char) -> (r: bool)
    ensures
        r == is_space(c),
{
    c == ' ' || c == '\t' || c == '\n' || c == '\r' || c == '\u{000B}' || c == '\u{000C}'
        || c == '\u{0085}' || c == '\u{00A0}' || c == '\u{1680}' || (0x2000 <= c as u32 && c
        as u32 <= 0x200A) || c == '\u{2028}' || c == '\u{2029}' || c == '\u{202F}' || c
        == '\u{205F}' || c == '\u{3000}'
}

/// Number of words remaining in `s`, when the character just before `s`
/// was white space iff `prev_space`.
pub open spec fn word_count_from(s: Seq<char>, prev_space: bool) -> nat
    decreases s.len(),
{
    if s.len() == 0 {
        0
    } else {
        (if prev_space && !is_space(s[0]) {
            1nat
        } else {
            0nat
        }) + word_count_from(s.drop_first(), is_space(s[0]))
    }
}

/// Number of maximal runs of non-white-space characters in `s`.
pub open spec fn word_count(s: Seq<char>) -> nat {
    word_count_from(s, true)
}

proof fn lemma_word_count_from_bound(s: Seq<char>, prev_space: bool)
    ensures
        word_count_from(s, prev_space) <= s.len(),
    decreases s.len(),
{
    if s.len() > 0 {
        lemma_word_count_from_bound(s.drop_first(), is_space(s[0]));
    }
}

/// Counts the whitespace-delimited words of `s`.
pub fn count_words(s: &str) -> (r: usize)
    ensures
        r as nat == word_count(s@),
{
    let n = s.unicode_len();
    let mut i: usize = 0;
    let mut acc: usize = 0;
    let mut prev_space = true;
    proof {
        assert(s@.skip(0) =~= s@);
        lemma_word_count_from_bound(s@, true);
    }
    while i < n
        invariant
            i <= n,
            n as nat == s@.len(),
            acc <= i,
            acc as nat + word_count_from(s@.skip(i as int), prev_space) == word_count(s@),
            word_count_from(s@.skip(i as int), prev_space) <= n - i,
        decreases n - i,
    {
        let c = s.get_char(i);
        proof {
            assert(s@.skip(i as int).drop_first() =~= s@.skip(i + 1));
        }
        if prev_space && !is_space_char(c) {
            acc = acc + 1;
        }
        prev_space = is_space_char(c);
        i = i + 1;
        proof {
            lemma_word_count_from_bound(s@.skip(i as int), prev_space);
        }
    }
    acc
}

/// The initial state of the 64-bit FNV-1a hash.
pub const FNV_OFFSET: u64 = 0xcbf29ce484222325;

/// The multiplier of the 64-bit FNV-1a hash.
pub const FNV_PRIME: u64 = 0x100000001b3;

/// One FNV-1a step: fold `b` into the running hash `h`.
pub open spec fn fnv_step(h: u64, b: u64) -> u64 {
    ((((h ^ b) as nat) * (FNV_PRIME as nat)) % 0x10000000000000000) as u64
}

pub(crate) fn fnv_step_exec(h: u64, b: u64) -> (r: u64)
    ensures
        r == fnv_step(h, b),
{
    let x = h ^ b;
    proof {
        assert((x as nat) * (FNV_PRIME as nat) < 0x100000000000000000000000000000000) by (nonlinear_arith)
            requires
                x <= 0xffffffffffffffff,
        ;
    }
    let p: u128 = (x as u128) * (FNV_PRIME as u128);
    (p % 0x10000000000000000u128) as u64
}

/// Folds every character of `s` into the running hash `h`.
pub open spec fn hash_chars(h: u64, s: Seq<char>) -> u64
    decreases s.len(),
{
    if s.len() == 0 {
        h
    } else {
        hash_chars(fnv_step(h, s[0] as u64), s.drop_first())
    }
}

/// Folds a whole text field into `h`: its characters, then a terminator
/// that no character can be, so that neighbouring fields cannot blur.
pub open spec fn hash_field(h: u64, s: Seq<char>) -> u64 {
    fnv_step(hash_chars(h, s), 0x110000)
}

/// Folds the text `s` and a field terminator into the running hash `h`.
pub fn hash_field_exec(h: u64, s: &str) -> (r: u64)
    ensures
        r == hash_field(h, s@),
{
    let n = s.unicode_len();
    let mut i: usize = 0;
    let mut acc: u64 = h;
    proof {
        assert(s@.skip(0) =~= s@);
    }
    while i < n
        invariant
            i <= n,
            n as nat == s@.len(),
            hash_chars(acc, s@.skip(i as int)) == hash_chars(h, s@),
        decreases n - i,
    {
        let c = s.get_char(i);
        proof {
            assert(s@.skip(i as int).drop_first() =~= s@.skip(i + 1));
        }
        acc = fnv_step_exec(acc, c as u64);
        i = i + 1;
    }
    fnv_step_exec(acc, 0x110000)
}

/// The decimal digit `d` as a character; `d` is below ten.
pub open spec fn spec_digit(d: nat) -> char {
    if d == 0 {
        '0'
    } else if d == 1 {
        '1'
    } else if d == 2 {
        '2'
    } else if d == 3 {
        '3'
    } else if d == 4 {
        '4'
    } else if d == 5 {
        '5'
    } else if d == 6 {
        '6'
    } else if d == 7 {
        '7'
    } else if d == 8 {
        '8'
    } else {
        '9'
    }
}

/// The decimal rendering of `n`, most significant digit first.
pub open spec fn spec_dec(n: nat) -> Seq<char>
    decreases n,
{
    if n < 10 {
        seq![spec_digit(n)]
    } else {
        spec_dec(n / 10) + seq![spec_digit(n % 10)]
    }
}

fn digit_str(d: u64) -> (r: &'static str)
    requires
        d < 10,
    ensures
        r@ =~= seq![spec_digit(d as nat)],
{
    proof {
        reveal_strlit("0");
        reveal_strlit("1");
        reveal_strlit("2");
        reveal_strlit("3");
        reveal_strlit("4");
        reveal_strlit("5");
        reveal_strlit("6");
        reveal_strlit("7");
        reveal_strlit("8");
        reveal_strlit("9");
    }
    match d {
        0 => "0",
        1 => "1",
        2 => "2",
        3 => "3",
        4 => "4",
        5 => "5",
        6 => "6",
        7 => "7",
        8 => "8",
        _ => "9",
    }
}

/// Renders `n` in decimal.
pub fn u64_to_string(n: u64) -> (r: String)
    ensures
        r@ == spec_dec(n as nat),
    decreases n,
{
    if n < 10 {
        digit_str(n).to_owned()
    } else {
        proof {
            assert(n / 10 < n) by (nonlinear_arith)
                requires
                    n >= 10,
            ;
        }
        let mut r = u64_to_string(n / 10);
        r.append(digit_str(n % 10));
        r
    }
}

} // verus!
