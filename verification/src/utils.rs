//! Small verified utilities: string comparison, decimal rendering, the
//! human-readable size and duration formats, application-name validation,
//! and the project-root search rule.

use vstd::prelude::*;
use vstd::string::{StrSliceExecFns, StringExecFns};
use crate::error::AetherError;

verus! {

/// Character-wise string equality, specified over the views.
pub fn str_eq(a: &str, b: &str) -> (r: bool)
    ensures
        r == (a@ == b@),
{
    let an = a.unicode_len();
    let bn = b.unicode_len();
    if an != bn {
        assert(a@ != b@) by {
            assert(a@.len() != b@.len());
        }
        return false;
    }
    let mut i: usize = 0;
    while i < an
        invariant
            i <= an,
            an == a@.len(),
            an == b@.len(),
            forall|j: int| 0 <= j < i ==> a@[j] == b@[j],
        decreases an - i,
    {
        if a.get_char(i) != b.get_char(i) {
            return false;
        }
        i = i + 1;
    }
    assert(a@ =~= b@);
    true
}

/// The character for one decimal digit.
pub open spec fn digit_char(d: nat) -> char {
    if d == 0 {
        '0'
    } else if d == 1 {
        '1'
    } else if d == 2 {
        '2'
    } else if d == 3 {
        '3'
    } else if d == 4 {
        '4'
    } else if d == 5 {
        '5'
    } else if d == 6 {
        '6'
    } else if d == 7 {
        '7'
    } else if d == 8 {
        '8'
    } else {
        '9'
    }
}

/// The decimal rendering of a natural number, most significant digit first.
pub open spec fn dec_of(n: nat) -> Seq<char>
    decreases n,
{
    if n < 10 {
        seq![digit_char(n)]
    } else {
        dec_of(n / 10) + seq![digit_char(n % 10)]
    }
}

fn digit_str(d: u64) -> (r: &'static str)
    requires
        d < 10,
    ensures
        r@ == seq![digit_char(d as nat)],
{
    proof {
        reveal_strlit("0");
        reveal_strlit("1");
        reveal_strlit("2");
        reveal_strlit("3");
        reveal_strlit("4");
        reveal_strlit("5");
        reveal_strlit("6");
        reveal_strlit("7");
        reveal_strlit("8");
        reveal_strlit("9");
    }
    let r: &'static str = match d {
        0 => "0",
        1 => "1",
        2 => "2",
        3 => "3",
        4 => "4",
        5 => "5",
        6 => "6",
        7 => "7",
        8 => "8",
        _ => "9",
    };
    proof {
        assert(r@ =~= seq![digit_char(d as nat)]);
    }
    r
}

/// Renders a number in decimal.
pub fn u64_to_string(n: u64) -> (r: String)
    ensures
        r@ == dec_of(n as nat),
    decreases n,
{
    if n < 10 {
        let r = digit_str(n).to_owned();
        proof {
            assert(r@ =~= dec_of(n as nat));
        }
        r
    } else {
        let mut s = u64_to_string(n / 10);
        s.append(digit_str(n % 10));
        proof {
            assert(s@ =~= dec_of(n as nat));
        }
        s
    }
}

/// The duration format: seconds alone under a minute, minutes and seconds
/// under an hour, hours and minutes beyond.
pub open spec fn spec_format_duration(seconds: nat) -> Seq<char> {
    if seconds < 60 {
        dec_of(seconds) + "s"@
    } else if seconds < 3600 {
        dec_of(seconds / 60) + "m "@ + dec_of(seconds % 60) + "s"@
    } else {
        dec_of(seconds / 3600) + "h "@ + dec_of((seconds % 3600) / 60) + "m"@
    }
}

pub fn format_duration(seconds: u64) -> (r: String)
    ensures
        r@ == spec_format_duration(seconds as nat),
{
    if seconds < 60 {
        let mut s = u64_to_string(seconds);
        s.append("s");
        proof {
            assert(s@ =~= spec_format_duration(seconds as nat));
        }
        s
    } else if seconds < 3600 {
        let mut s = u64_to_string(seconds / 60);
        s.append("m ");
        s.append(u64_to_string(seconds % 60).as_str());
        s.append("s");
        proof {
            assert(s@ =~= spec_format_duration(seconds as nat));
        }
        s
    } else {
        let mut s = u64_to_string(seconds / 3600);
        s.append("h ");
        s.append(u64_to_string((seconds % 3600) / 60).as_str());
        s.append("m");
        proof {
            assert(s@ =~= spec_format_duration(seconds as nat));
        }
        s
    }
}

/// Which size unit a byte count is shown in: 0 for bytes, 1 for kilobytes,
/// 2 for megabytes, 3 for gigabytes.
pub open spec fn size_unit_index(bytes: nat) -> nat {
    if bytes < 1024 {
        0
    } else if bytes < 1048576 {
        1
    } else if bytes < 1073741824 {
        2
    } else {
        3
    }
}

pub open spec fn size_divisor(k: nat) -> nat {
    if k == 1 {
        1024
    } else if k == 2 {
        1048576
    } else {
        1073741824
    }
}

pub open spec fn size_unit_suffix(k: nat) -> Seq<char> {
    if k == 1 {
        " KB"@
    } else if k == 2 {
        " MB"@
    } else {
        " GB"@
    }
}

/// `num / d` in tenths, rounded to the nearest integer with ties going to
/// the even value, as the standard one-decimal float rendering rounds.
pub open spec fn half_even_round(num: nat, d: nat) -> nat
    recommends
        d > 0,
{
    let q = num / d;
    let r = num % d;
    if 2 * r > d || (2 * r == d && q % 2 == 1) {
        q + 1
    } else {
        q
    }
}

/// The size format: a plain byte count under 1024, otherwise the scaled
/// value with one decimal digit and the unit.
pub open spec fn spec_format_size(bytes: nat) -> Seq<char> {
    let k = size_unit_index(bytes);
    if k == 0 {
        dec_of(bytes) + " B"@
    } else {
        let t = half_even_round(bytes * 10, size_divisor(k));
        dec_of(t / 10) + "."@ + dec_of(t % 10) + size_unit_suffix(k)
    }
}

pub fn format_size(bytes: u64) -> (r: String)
    ensures
        r@ == spec_format_size(bytes as nat),
{
    if bytes < 1024 {
        let mut s = u64_to_string(bytes);
        s.append(" B");
        proof {
            assert(s@ =~= spec_format_size(bytes as nat));
        }
        return s;
    }
    let d: u64 = if bytes < 1048576 {
        1024
    } else if bytes < 1073741824 {
        1048576
    } else {
        1073741824
    };
    let suffix: &'static str = if bytes < 1048576 {
        " KB"
    } else if bytes < 1073741824 {
        " MB"
    } else {
        " GB"
    };
    let num: u128 = (bytes as u128) * 10;
    let dw: u128 = d as u128;
    let q: u128 = num / dw;
    let rem: u128 = num % dw;
    let t: u128 = if 2 * rem > dw || (2 * rem == dw && q % 2 == 1) {
        q + 1
    } else {
        q
    };
    proof {
        vstd::arithmetic::div_mod::lemma_fundamental_div_mod(num as int, dw as int);
        assert(q < 0x400000000000000) by (nonlinear_arith)
            requires
                num as int == (dw as int) * (q as int) + (rem as int),
                rem >= 0,
                dw >= 1024,
                num < 0x100000000000000000,
        ;
        assert(t as nat == half_even_round((bytes as nat) * 10, size_divisor(size_unit_index(bytes as nat))));
    }
    let mut s = u64_to_string((t / 10) as u64);
    s.append(".");
    s.append(u64_to_string((t % 10) as u64).as_str());
    s.append(suffix);
    proof {
        assert(s@ =~= spec_format_size(bytes as nat));
    }
    s
}

/// A character an application name may contain: a lowercase ASCII letter,
/// an ASCII digit, or a hyphen.
pub open spec fn valid_name_char(c: char) -> bool {
    (97 <= c as u32 && c as u32 <= 122) || (48 <= c as u32 && c as u32 <= 57) || c == '-'
}

/// A syntactically valid application name: non-empty, at most 63
/// characters, only lowercase letters, digits and hyphens, and neither
/// starting nor ending with a hyphen.
pub open spec fn valid_name_chars(s: Seq<char>) -> bool {
    &&& s.len() > 0
    &&& s.len() <= 63
    &&& forall|i: int| 0 <= i < s.len() ==> valid_name_char(#[trigger] s[i])
    &&& s[0] != '-'
    &&& s[s.len() - 1] != '-'
}

/// The naming rules, read off a string slice.
pub open spec fn valid_app_name(s: &str) -> bool {
    valid_name_chars(s@)
}

/// Checks an application name against the naming rules, reporting the first
/// rule broken.
pub fn validate_app_name(name: &str) -> (r: Result<(), AetherError>)
    ensures
        r is Ok <==> valid_app_name(name),
        r is Err ==> r matches Err(AetherError::InvalidProject(_)),
        name@.len() == 0 ==> (r matches Err(AetherError::InvalidProject(m)) && m@
            == "App name cannot be empty"@),
        name@.len() > 0 && name@.len() > 63 ==> (r matches Err(
            AetherError::InvalidProject(m),
        ) && m@ == "App name too long (max 63 characters)"@),
        name@.len() > 0 && name@.len() <= 63 && (exists|i: int|
            0 <= i < name@.len() && !valid_name_char(#[trigger] name@[i])) ==> (r matches Err(
            AetherError::InvalidProject(m),
        ) && m@ == "App name must contain only lowercase letters, numbers, and hyphens"@),
        name@.len() > 0 && name@.len() <= 63 && (forall|i: int|
            0 <= i < name@.len() ==> valid_name_char(#[trigger] name@[i])) && (name@[0] == '-'
            || name@[name@.len() - 1] == '-') ==> (r matches Err(AetherError::InvalidProject(m))
            && m@ == "App name cannot start or end with a hyphen"@),
{
    let n = name.unicode_len();
    if n == 0 {
        return Err(AetherError::invalid_project("App name cannot be empty".to_owned()));
    }
    if n > 63 {
        return Err(AetherError::invalid_project("App name too long (max 63 characters)".to_owned()));
    }
    let mut i: usize = 0;
    while i < n
        invariant
            i <= n,
            n == name@.len(),
            1 <= n <= 63,
            forall|j: int| 0 <= j < i ==> valid_name_char(#[trigger] name@[j]),
        decreases n - i,
    {
        let c = name.get_char(i);
        let u = c as u32;
        if !((97 <= u && u <= 122) || (48 <= u && u <= 57) || c == '-') {
            return Err(AetherError::invalid_project(
                "App name must contain only lowercase letters, numbers, and hyphens".to_owned(),
            ));
        }
        i = i + 1;
    }
    if name.get_char(0) == '-' || name.get_char(n - 1) == '-' {
        return Err(AetherError::invalid_project(
            "App name cannot start or end with a hyphen".to_owned(),
        ));
    }
    Ok(())
}

/// The project-root search rule, over the chain of directories from the
/// starting directory upward: entry `i` of `manifest_at` says whether the
/// `i`-th directory of the chain holds a manifest file, and the result is
/// the first one that does.
pub fn find_project_root(manifest_at: &Vec<bool>) -> (r: Option<usize>)
    ensures
        match r {
            Some(i) => i < manifest_at@.len() && manifest_at@[i as int] && forall|j: int|
                0 <= j < i ==> !manifest_at@[j],
            None => forall|j: int| 0 <= j < manifest_at@.len() ==> !manifest_at@[j],
        },
{
    let mut i: usize = 0;
    while i < manifest_at.len()
        invariant
            i <= manifest_at@.len(),
            forall|j: int| 0 <= j < i ==> !manifest_at@[j],
        decreases manifest_at@.len() - i,
    {
        if manifest_at[i] {
            return Some(i);
        }
        i = i + 1;
    }
    None
}

} // verus!
