//! Port discovery: the per-line matcher applied to the subordinate
//! process's standard output. A line that starts with the fixed sentinel
//! prefix and continues with a decimal port in the 16-bit range announces
//! the port the server chose; a line with the prefix but a bad remainder
//! is a malformed announcement; anything else is opaque log output.

use vstd::prelude::*;
use vstd::string::*;
use crate::decimal::{all_digits, dec_str, dec_val, is_digit, lemma_dec_str_all_digits,
    lemma_dec_val_of_dec_str, lemma_dec_val_prefix_le, lemma_dec_val_step};

verus! {

/// The fixed prefix the subordinate prints before its chosen port.
pub open spec fn sentinel() -> Seq<char> {
    "SERVER_PORT:"@
}

/// Number of characters in the sentinel prefix.
pub open spec fn sentinel_len() -> int {
    12
}

/// The stated prefix length is the sentinel's actual length.
pub proof fn lemma_sentinel_len()
    ensures
        sentinel().len() == sentinel_len(),
{
    reveal_strlit("SERVER_PORT:");
}

/// The line starts with the sentinel prefix.
pub open spec fn has_sentinel(line: Seq<char>) -> bool {
    line.len() >= sentinel_len() && line.subrange(0, sentinel_len()) == sentinel()
}

/// What follows the sentinel prefix on the line.
pub open spec fn line_suffix(line: Seq<char>) -> Seq<char> {
    line.subrange(sentinel_len(), line.len() as int)
}

/// A well-formed announcement: the sentinel prefix followed by one or
/// more decimal digits whose value fits in 16 bits.
pub open spec fn well_formed(line: Seq<char>) -> bool {
    &&& has_sentinel(line)
    &&& line_suffix(line).len() >= 1
    &&& all_digits(line_suffix(line))
    &&& dec_val(line_suffix(line)) <= 65535
}

/// The port a well-formed announcement carries.
pub open spec fn announced_port(line: Seq<char>) -> u16 {
    dec_val(line_suffix(line)) as u16
}

/// The canonical announcement line for a port.
pub open spec fn announcement_line(port: u16) -> Seq<char> {
    sentinel() + dec_str(port as int)
}

/// What the matcher concluded about one standard-output line.
#[derive(Debug, Clone, Copy, PartialEq, Eq, Structural)]
pub enum ScanResult {
    /// The line is a well-formed announcement of this port.
    Announced(u16),
    /// The line has the sentinel prefix but no valid port after it.
    Malformed,
    /// The line does not carry the sentinel prefix at all.
    NoMatch,
}

/// Classifies one standard-output line of the subordinate process.
pub fn scan_line(line: &str) -> (r: ScanResult)
    ensures
        well_formed(line@) ==> r == ScanResult::Announced(announced_port(line@)),
        !well_formed(line@) && has_sentinel(line@) ==> r == ScanResult::Malformed,
        !has_sentinel(line@) ==> r == ScanResult::NoMatch,
{
    let sent = "SERVER_PORT:";
    proof {
        reveal_strlit("SERVER_PORT:");
    }
    let n = line.unicode_len();
    if n < 12 {
        return ScanResult::NoMatch;
    }
    let mut i: usize = 0;
    while i < 12
        invariant
            0 <= i <= 12,
            n == line@.len(),
            n >= 12,
            sent@ == sentinel(),
            sent@.len() == 12,
            forall|j: int| 0 <= j < i ==> line@[j] == sentinel()[j],
        decreases 12 - i,
    {
        if line.get_char(i) != sent.get_char(i) {
            proof {
                assert(line@.subrange(0, 12)[i as int] != sentinel()[i as int]);
            }
            return ScanResult::NoMatch;
        }
        i += 1;
    }
    proof {
        assert(line@.subrange(0, 12) =~= sentinel());
    }
    if n == 12 {
        return ScanResult::Malformed;
    }
    let ghost suffix: Seq<char> = line_suffix(line@);
    let mut acc: u32 = 0;
    let mut k: usize = 12;
    while k < n
        invariant
            12 <= k <= n,
            n == line@.len(),
            has_sentinel(line@),
            suffix == line_suffix(line@),
            forall|j: int| 0 <= j < k - 12 ==> is_digit(#[trigger] suffix[j]),
            acc == dec_val(suffix.take(k - 12)),
            0 <= acc <= 65535,
        decreases n - k,
    {
        let c = line.get_char(k);
        let u = c as u32;
        if u < 48 || u > 57 {
            proof {
                assert(suffix[k - 12] == line@[k as int]);
                assert(!is_digit(suffix[k - 12]));
            }
            return ScanResult::Malformed;
        }
        proof {
            assert(suffix[k - 12] == line@[k as int]);
            lemma_dec_val_step(suffix, k - 12);
            assert(suffix.take(k - 12 + 1) =~= suffix.take(k + 1 - 12));
        }
        acc = acc * 10 + (u - 48);
        if acc > 65535 {
            proof {
                if all_digits(suffix) {
                    lemma_dec_val_prefix_le(suffix, k + 1 - 12);
                }
            }
            return ScanResult::Malformed;
        }
        k += 1;
    }
    proof {
        assert(suffix.take(n - 12) =~= suffix);
        assert(suffix.len() >= 1);
        assert(well_formed(line@));
    }
    ScanResult::Announced(acc as u16)
}

/// The canonical announcement line for any 16-bit port is well formed
/// and carries exactly that port.
pub proof fn lemma_announcement_roundtrip(port: u16)
    ensures
        well_formed(announcement_line(port)),
        announced_port(announcement_line(port)) == port,
{
    reveal_strlit("SERVER_PORT:");
    let line = announcement_line(port);
    lemma_dec_str_all_digits(port as int);
    lemma_dec_val_of_dec_str(port as int);
    assert(sentinel().len() == 12);
    assert(line.len() >= 13);
    assert(line.subrange(0, sentinel_len()) =~= sentinel());
    assert(line_suffix(line) =~= dec_str(port as int));
}

} // verus!
