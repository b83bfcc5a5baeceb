//! Backup path resolution: naming of the numbered backup candidates that
//! protect a file while it is rewritten in place.
//!
//! A backup candidate for a file is the file's own path with `_backup<n>`
//! appended, `n` in `1..=99`. The rewrite machine probes the candidates in
//! ascending order and uses the first one that does not exist, so backup
//! names never collide with leftovers of earlier, interrupted runs.

use vstd::prelude::*;
use vstd::string::StrSliceExecFns;
use vstd::string::StringExecFns;

verus! {

/// The lowest numbered backup slot.
pub const MIN_SLOT: u64 = 1;

/// The highest numbered backup slot; the scan is deliberately bounded so a
/// directory full of stale backups makes the rewrite fail instead of the
/// tool probing forever.
pub const MAX_SLOT: u64 = 99;

/// The decimal digit character for `d` in `0..=9`.
pub open spec fn digit_char(d: int) -> char {
    if d == 0 {
        '0'
    } else if d == 1 {
        '1'
    } else if d == 2 {
        '2'
    } else if d == 3 {
        '3'
    } else if d == 4 {
        '4'
    } else if d == 5 {
        '5'
    } else if d == 6 {
        '6'
    } else if d == 7 {
        '7'
    } else if d == 8 {
        '8'
    } else {
        '9'
    }
}

/// The decimal digits of a slot number in `1..=99`: one character below
/// ten, two characters otherwise.
pub open spec fn slot_digits(n: int) -> Seq<char> {
    if n < 10 {
        seq![digit_char(n)]
    } else {
        seq![digit_char(n / 10), digit_char(n % 10)]
    }
}

/// The backup candidate path for slot `n`: the original path with
/// `_backup<n>` appended.
pub open spec fn backup_candidate(path: Seq<char>, n: int) -> Seq<char> {
    path + "_backup"@ + slot_digits(n)
}

/// A path from which a backup name can be derived: it is not empty and its
/// last character is not a separator, so it has a file-name component.
pub open spec fn has_file_name(path: Seq<char>) -> bool {
    path.len() > 0 && path[path.len() - 1] != '/'
}

/// A backup candidate is strictly longer than the path it was derived
/// from, so it never names the original file itself.
pub proof fn lemma_candidate_ne_path(path: Seq<char>, n: int)
    requires
        1 <= n <= 99,
    ensures
        backup_candidate(path, n) != path,
        backup_candidate(path, n).len() > path.len(),
{
    reveal_strlit("_backup");
    assert(backup_candidate(path, n).len() >= path.len() + 8);
}

/// Distinct digits have distinct digit characters.
proof fn lemma_digit_char_injective(a: int, b: int)
    requires
        0 <= a <= 9,
        0 <= b <= 9,
        a != b,
    ensures
        digit_char(a) != digit_char(b),
{
}

/// Distinct slot numbers have distinct digit strings.
proof fn lemma_slot_digits_injective(m: int, n: int)
    requires
        1 <= m <= 99,
        1 <= n <= 99,
        m != n,
    ensures
        slot_digits(m) != slot_digits(n),
{
    if m < 10 && n < 10 {
        lemma_digit_char_injective(m, n);
        assert(slot_digits(m)[0] != slot_digits(n)[0]);
    } else if m >= 10 && n >= 10 {
        if slot_digits(m) == slot_digits(n) {
            assert(digit_char(m / 10) == digit_char(n / 10));
            assert(digit_char(m % 10) == digit_char(n % 10));
            if m / 10 != n / 10 {
                lemma_digit_char_injective(m / 10, n / 10);
            }
            if m % 10 != n % 10 {
                lemma_digit_char_injective(m % 10, n % 10);
            }
            assert(m == 10 * (m / 10) + m % 10);
            assert(n == 10 * (n / 10) + n % 10);
        }
    } else {
        assert(slot_digits(m).len() != slot_digits(n).len());
    }
}

/// Distinct slot numbers give distinct backup candidate paths for the same
/// file: the numbered suffixes never collide.
pub proof fn lemma_candidate_injective(path: Seq<char>, m: int, n: int)
    requires
        1 <= m <= 99,
        1 <= n <= 99,
        m != n,
    ensures
        backup_candidate(path, m) != backup_candidate(path, n),
{
    lemma_slot_digits_injective(m, n);
    if backup_candidate(path, m) == backup_candidate(path, n) {
        let p = path + "_backup"@;
        assert((p + slot_digits(m)).skip(p.len() as int) =~= slot_digits(m));
        assert((p + slot_digits(n)).skip(p.len() as int) =~= slot_digits(n));
    }
}

/// The digit character for `d` in `0..=9`, as a string slice.
fn digit_str(d: u64) -> (r: &'static str)
    requires
        d <= 9,
    ensures
        r@ == seq![digit_char(d as int)],
{
    proof {
        reveal_strlit("0");
        reveal_strlit("1");
        reveal_strlit("2");
        reveal_strlit("3");
        reveal_strlit("4");
        reveal_strlit("5");
        reveal_strlit("6");
        reveal_strlit("7");
        reveal_strlit("8");
        reveal_strlit("9");
    }
    if d == 0 {
        "0"
    } else if d == 1 {
        "1"
    } else if d == 2 {
        "2"
    } else if d == 3 {
        "3"
    } else if d == 4 {
        "4"
    } else if d == 5 {
        "5"
    } else if d == 6 {
        "6"
    } else if d == 7 {
        "7"
    } else if d == 8 {
        "8"
    } else {
        "9"
    }
}

/// Builds the backup candidate path for slot `n` of `path`.
pub fn backup_candidate_path(path: &str, n: u64) -> (r: String)
    requires
        1 <= n <= 99,
    ensures
        r@ == backup_candidate(path@, n as int),
{
    let mut r = String::from_str(path);
    r.append("_backup");
    if n < 10 {
        r.append(digit_str(n));
    } else {
        r.append(digit_str(n / 10));
        r.append(digit_str(n % 10));
    }
    proof {
        assert(r@ =~= backup_candidate(path@, n as int));
    }
    r
}

/// Tests whether `path` has a file-name component a backup name can be
/// derived from.
pub fn path_has_file_name(path: &str) -> (r: bool)
    ensures
        r == has_file_name(path@),
{
    let len = path.unicode_len();
    if len == 0 {
        return false;
    }
    let last = path.get_char(len - 1);
    last != '/'
}

} // verus!
