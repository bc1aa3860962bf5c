//! The names on disk of one download, and the value of the range header.

use vstd::prelude::*;

verus! {

/// The decimal digit `d`, for `d` below ten.
pub open spec fn digit(d: nat) -> char {
    if d == 0 {
        '0'
    } else if d == 1 {
        '1'
    } else if d == 2 {
        '2'
    } else if d == 3 {
        '3'
    } else if d == 4 {
        '4'
    } else if d == 5 {
        '5'
    } else if d == 6 {
        '6'
    } else if d == 7 {
        '7'
    } else if d == 8 {
        '8'
    } else {
        '9'
    }
}

/// `n` in decimal, without leading zeros.
pub open spec fn decimal(n: nat) -> Seq<char>
    decreases n,
{
    if n < 10 {
        seq![digit(n)]
    } else {
        decimal(n / 10).push(digit(n % 10))
    }
}

/// The range header's value that asks for everything from `offset` on.
pub open spec fn range_text(offset: u64) -> Seq<char> {
    "bytes="@ + decimal(offset as nat) + "-"@
}

/// The partial file's name: the final name and the marker `.part`.
pub open spec fn part_text(file_name: Seq<char>) -> Seq<char> {
    file_name + ".part"@
}

/// The name of the metadata sidecar of the partial file.
pub open spec fn sidecar_text(file_name: Seq<char>) -> Seq<char> {
    file_name + ".part.json"@
}

fn digit_str(d: u64) -> (r: &'static str)
    requires
        d < 10,
    ensures
        r@ == seq![digit(d as nat)],
{
    proof {
        reveal_strlit("0");
        reveal_strlit("1");
        reveal_strlit("2");
        reveal_strlit("3");
        reveal_strlit("4");
        reveal_strlit("5");
        reveal_strlit("6");
        reveal_strlit("7");
        reveal_strlit("8");
        reveal_strlit("9");
    }
    let r = if d == 0 {
        "0"
    } else if d == 1 {
        "1"
    } else if d == 2 {
        "2"
    } else if d == 3 {
        "3"
    } else if d == 4 {
        "4"
    } else if d == 5 {
        "5"
    } else if d == 6 {
        "6"
    } else if d == 7 {
        "7"
    } else if d == 8 {
        "8"
    } else {
        "9"
    };
    assert(r@ =~= seq![digit(d as nat)]);
    r
}

/// Writes `n` in decimal behind `out`.
pub fn append_decimal(out: &mut String, n: u64)
    ensures
        final(out)@ == old(out)@ + decimal(n as nat),
    decreases n,
{
    if n < 10 {
        out.append(digit_str(n));
    } else {
        append_decimal(out, n / 10);
        out.append(digit_str(n % 10));
        assert(final(out)@ =~= old(out)@ + decimal(n as nat));
    }
}

/// The range header's value for a request that resumes at `offset`.
pub fn range_value(offset: u64) -> (r: String)
    ensures
        r@ == range_text(offset),
{
    let mut out = String::from_str("bytes=");
    append_decimal(&mut out, offset);
    out.append("-");
    out
}

/// The name of the partial file of `file_name`.
pub fn part_name(file_name: &str) -> (r: String)
    ensures
        r@ == part_text(file_name@),
{
    String::from_str(file_name).concat(".part")
}

/// The name of the metadata sidecar of the partial file of `file_name`.
pub fn sidecar_name(file_name: &str) -> (r: String)
    ensures
        r@ == sidecar_text(file_name@),
{
    String::from_str(file_name).concat(".part.json")
}

/// Whether `text` ends in `suffix`.
pub open spec fn has_suffix(text: Seq<char>, suffix: Seq<char>) -> bool {
    text.len() >= suffix.len() && text.subrange(text.len() - suffix.len(), text.len() as int) == suffix
}

/// Whether `text` ends in `suffix`, compared character by character.
pub fn ends_with(text: &str, suffix: &str) -> (r: bool)
    ensures
        r == has_suffix(text@, suffix@),
{
    let n = text.unicode_len();
    let m = suffix.unicode_len();
    if n < m {
        return false;
    }
    let start: usize = n - m;
    let ghost tail = text@.subrange(start as int, n as int);
    let mut i: usize = 0;
    while i < m
        invariant
            i <= m,
            n == text@.len(),
            m == suffix@.len(),
            start == n - m,
            tail == text@.subrange(start as int, n as int),
            forall|k: int| 0 <= k < i ==> tail[k] == suffix@[k],
        decreases m - i,
    {
        if text.get_char(start + i) != suffix.get_char(i) {
            proof {
                assert(tail[i as int] != suffix@[i as int]);
            }
            return false;
        }
        i = i + 1;
    }
    proof {
        assert(tail =~= suffix@);
    }
    true
}

/// Whether a file of this name has the extension `json` behind a name
/// that is not empty: the scan of the download directory reads such files
/// as records.
pub open spec fn record_name(file_name: Seq<char>) -> bool {
    has_suffix(file_name, ".json"@) && file_name.len() > ".json"@.len()
}

/// Whether the scan reads the file of this name as a record.
pub fn is_record_name(file_name: &str) -> (r: bool)
    ensures
        r == record_name(file_name@),
{
    ends_with(file_name, ".json") && file_name.unicode_len() > ".json".unicode_len()
}

/// Whether a file of this name is the metadata sidecar of a partial file.
pub open spec fn sidecar_of_some(file_name: Seq<char>) -> bool {
    has_suffix(file_name, ".part.json"@) && file_name.len() > ".part.json"@.len()
}

/// Whether the file of this name is the sidecar of a partial file.
pub fn is_sidecar_name(file_name: &str) -> (r: bool)
    ensures
        r == sidecar_of_some(file_name@),
{
    ends_with(file_name, ".part.json") && file_name.unicode_len() > ".part.json".unicode_len()
}

} // verus!
