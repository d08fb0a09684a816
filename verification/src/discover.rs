//! Finds the active interface in the interface status listing.
//!
//! The listing is free text in fixed-width columns, one adapter per line,
//! worded in the system's language. A line counts as a connected adapter when
//! its lowercase form holds one of the connection markers; the adapter's name
//! is then taken from the line.

use crate::runner::RunReport;
use crate::text::{
    chars_of, contains, has_substring, lines, lines_of, lowercase_of, same_text, texts_of,
    to_lowercase, trim, trim_range, trimmed, views_of,
};
use vstd::prelude::*;

verus! {

/// Why no active interface could be named.
#[derive(Debug, Clone, Copy, PartialEq, Eq)]
pub enum DiscoveryError {
    /// The status listing could not be obtained.
    CommandFailed,
    /// The listing names no connected adapter.
    NoActiveInterface,
}

/// Whether a line, given in lowercase, reports a connected adapter. The
/// markers are the English word and its Turkish equivalents; a line that
/// holds a marker inside a longer word counts as well.
pub open spec fn mentions_connected(lower: Seq<char>) -> bool {
    ||| has_substring(lower, "connected"@)
    ||| has_substring(lower, "bağlı"@)
    ||| has_substring(lower, "bagli"@)
}

/// Whether a line, given in lowercase, speaks of a wired adapter.
pub open spec fn mentions_wired(lower: Seq<char>) -> bool {
    has_substring(lower, "ethernet"@)
}

/// Whether a line, given in lowercase, speaks of a wireless adapter.
pub open spec fn mentions_wireless(lower: Seq<char>) -> bool {
    has_substring(lower, "wi-fi"@) || has_substring(lower, "wifi"@)
}

/// The first index at or after `i` where two spaces stand side by side, or
/// the length of `s` if there is none.
pub open spec fn double_space_from(s: Seq<char>, i: int) -> int
    decreases s.len() - i,
{
    if i < 0 || i + 1 >= s.len() {
        s.len() as int
    } else if s[i] == ' ' && s[i + 1] == ' ' {
        i
    } else {
        double_space_from(s, i + 1)
    }
}

/// The last column of `s[i..]`: the text is cut at every pair of spaces,
/// scanning from the left, and the last piece that is not blank is taken,
/// trimmed. `None` if every piece is blank.
pub open spec fn last_column_from(s: Seq<char>, i: int) -> Option<Seq<char>>
    decreases s.len() - i,
{
    if i < 0 || i > s.len() {
        None
    } else {
        let j = double_space_from(s, i);
        let head = trimmed(s.subrange(i, if i <= j <= s.len() { j } else { i }));
        let later = if i <= j && j + 2 <= s.len() {
            last_column_from(s, j + 2)
        } else {
            None
        };
        if later is Some {
            later
        } else if head.len() > 0 {
            Some(head)
        } else {
            None
        }
    }
}

/// The last column of a line of the listing.
pub open spec fn last_column(s: Seq<char>) -> Option<Seq<char>> {
    last_column_from(s, 0)
}

/// The interface that a trimmed line names as connected, if any; `lower` is
/// the line in lowercase. A wired adapter is called `Ethernet` and a wireless
/// one `Wi-Fi`, whatever the line calls them; any other adapter goes by the
/// last column of its line.
pub open spec fn candidate_of(line: Seq<char>, lower: Seq<char>) -> Option<Seq<char>> {
    if !mentions_connected(lower) {
        None
    } else if mentions_wired(lower) {
        Some("Ethernet"@)
    } else if mentions_wireless(lower) {
        Some("Wi-Fi"@)
    } else {
        last_column(line)
    }
}

/// The interface that a raw line of the listing names as connected, if any.
/// Blank lines name none.
pub open spec fn line_candidate(raw: Seq<char>) -> Option<Seq<char>> {
    let line = trimmed(raw);
    if line.len() == 0 {
        None
    } else {
        candidate_of(line, lowercase_of(line))
    }
}

/// The connected interfaces that `lines` name, in the order of the lines.
pub open spec fn candidates_of(lines: Seq<Seq<char>>) -> Seq<Seq<char>>
    decreases lines.len(),
{
    if lines.len() == 0 {
        Seq::empty()
    } else {
        let before = candidates_of(lines.drop_last());
        match line_candidate(lines.last()) {
            Some(name) => before.push(name),
            None => before,
        }
    }
}

/// The interface to work on, given the connected ones in the order in which
/// they were found: the wired one if there is one, else the first.
pub open spec fn preferred(candidates: Seq<Seq<char>>) -> Result<Seq<char>, DiscoveryError> {
    if candidates.len() == 0 {
        Err(DiscoveryError::NoActiveInterface)
    } else if candidates.contains("Ethernet"@) {
        Ok("Ethernet"@)
    } else {
        Ok(candidates[0])
    }
}

/// The active interface according to a status listing.
pub open spec fn active_interface(listing: Seq<char>) -> Result<Seq<char>, DiscoveryError> {
    preferred(candidates_of(lines_of(listing)))
}

/// The active interface according to what the runner reported for the
/// status listing command. The listing is read whatever the exit status was.
pub open spec fn discovered(report: RunReport) -> Result<Seq<char>, DiscoveryError> {
    match report {
        RunReport::Completed { stdout, .. } => active_interface(stdout@),
        RunReport::Failed => Err(DiscoveryError::CommandFailed),
    }
}

/// Whether an executable result holds the text that `expected` holds, or the
/// same error.
pub open spec fn same_outcome(
    r: Result<String, DiscoveryError>,
    expected: Result<Seq<char>, DiscoveryError>,
) -> bool {
    match r {
        Ok(name) => expected == Ok::<Seq<char>, DiscoveryError>(name@),
        Err(e) => expected == Err::<Seq<char>, DiscoveryError>(e),
    }
}

/// A listing without a connected adapter names no interface: when no line,
/// trimmed and in lowercase, holds a connection marker, discovery fails with
/// `NoActiveInterface`.
pub proof fn lemma_no_connected_line_no_interface(listing: Seq<char>)
    requires
        forall|k: int|
            0 <= k < lines_of(listing).len() ==> !mentions_connected(
                lowercase_of(trimmed(#[trigger] lines_of(listing)[k])),
            ),
    ensures
        active_interface(listing) == Err::<Seq<char>, DiscoveryError>(
            DiscoveryError::NoActiveInterface,
        ),
{
    lemma_no_candidates(lines_of(listing));
}

/// Lines without a connection marker give no candidate.
proof fn lemma_no_candidates(lines: Seq<Seq<char>>)
    requires
        forall|k: int|
            0 <= k < lines.len() ==> !mentions_connected(lowercase_of(trimmed(#[trigger] lines[k]))),
    ensures
        candidates_of(lines).len() == 0,
    decreases lines.len(),
{
    if lines.len() > 0 {
        assert forall|k: int| 0 <= k < lines.drop_last().len() implies !mentions_connected(
            lowercase_of(trimmed(#[trigger] lines.drop_last()[k])),
        ) by {
            assert(lines.drop_last()[k] == lines[k]);
        }
        lemma_no_candidates(lines.drop_last());
        assert(lines.last() == lines[lines.len() - 1]);
    }
}

/// With a wired adapter among the connected ones, the wired one is chosen,
/// wherever it stands among them.
pub proof fn lemma_wired_is_preferred(candidates: Seq<Seq<char>>, k: int)
    requires
        0 <= k < candidates.len(),
        candidates[k] == "Ethernet"@,
    ensures
        preferred(candidates) == Ok::<Seq<char>, DiscoveryError>("Ethernet"@),
{
    assert(candidates.contains("Ethernet"@));
}

/// The first index at or after `i` where two spaces stand side by side.
fn find_double_space(v: &Vec<char>, i: usize) -> (j: usize)
    requires
        i <= v.len(),
    ensures
        j == double_space_from(v@, i as int),
        i <= j <= v.len(),
        j < v.len() ==> j + 2 <= v.len(),
{
    let mut k: usize = i;
    while k < v.len() && k + 1 < v.len()
        invariant
            i <= k <= v.len(),
            double_space_from(v@, i as int) == double_space_from(v@, k as int),
        decreases v.len() - k,
    {
        if v[k] == ' ' && v[k + 1] == ' ' {
            return k;
        }
        k = k + 1;
    }
    v.len()
}

/// The index range in `v` of its last column, if it has one.
fn last_column_range(v: &Vec<char>) -> (r: Option<(usize, usize)>)
    ensures
        match r {
            Some((a, b)) => a <= b <= v.len() && last_column(v@) == Some(
                v@.subrange(a as int, b as int),
            ),
            None => last_column(v@) is None,
        },
{
    let mut best: Option<(usize, usize)> = None;
    let mut start: usize = 0;
    loop
        invariant
            start <= v.len(),
            match best {
                Some((a, b)) => a < b <= v.len(),
                None => true,
            },
            last_column(v@) == (if last_column_from(v@, start as int) is Some {
                last_column_from(v@, start as int)
            } else {
                match best {
                    Some((a, b)) => Some(v@.subrange(a as int, b as int)),
                    None => None,
                }
            }),
        decreases v.len() - start,
    {
        let j = find_double_space(v, start);
        let (a, b) = trim_range(v, start, j);
        if a < b {
            best = Some((a, b));
        }
        if j < v.len() {
            start = j + 2;
        } else {
            return best;
        }
    }
}

/// The interface that the trimmed line `line` names as connected, if any;
/// `lower` is the line in lowercase.
pub fn candidate_name(line: &str, lower: &str) -> (r: Option<String>)
    ensures
        match r {
            Some(name) => candidate_of(line@, lower@) == Some(name@),
            None => candidate_of(line@, lower@) is None,
        },
{
    if !(contains(lower, "connected") || contains(lower, "bağlı") || contains(lower, "bagli")) {
        return None;
    }
    if contains(lower, "ethernet") {
        return Some(String::from_str("Ethernet"));
    }
    if contains(lower, "wi-fi") || contains(lower, "wifi") {
        return Some(String::from_str("Wi-Fi"));
    }
    let v = chars_of(line);
    match last_column_range(&v) {
        Some((a, b)) => Some(String::from_str(line.substring_char(a, b))),
        None => None,
    }
}

/// The connected interfaces that a status listing names, in the order of
/// its lines.
pub fn connected_interfaces(listing: &str) -> (r: Vec<String>)
    ensures
        texts_of(r@) == candidates_of(lines_of(listing@)),
{
    let all = lines(listing);
    let ghost texts = lines_of(listing@);
    let mut found: Vec<String> = Vec::new();
    let mut i: usize = 0;
    assert(texts.take(0) =~= Seq::<Seq<char>>::empty());
    assert(texts_of(found@) =~= Seq::<Seq<char>>::empty());
    while i < all.len()
        invariant
            i <= all.len(),
            views_of(all@) == texts,
            texts_of(found@) == candidates_of(texts.take(i as int)),
        decreases all.len() - i,
    {
        assert(texts.len() == all.len());
        assert(texts[i as int] == all[i as int]@);
        assert(texts.take(i + 1).drop_last() =~= texts.take(i as int));
        assert(texts.take(i + 1).last() == texts[i as int]);
        let ghost before = texts_of(found@);
        let line = trim(all[i]);
        if line.unicode_len() > 0 {
            let lower = to_lowercase(line);
            match candidate_name(line, lower.as_str()) {
                Some(name) => {
                    found.push(name);
                    assert(texts_of(found@) =~= before.push(name@));
                },
                None => {},
            }
        }
        i = i + 1;
    }
    assert(texts.take(all.len() as int) =~= texts);
    found
}

/// Picks the interface to work on among the connected ones: the wired one
/// if there is one, else the first that was found. Fails with
/// `NoActiveInterface` exactly when there is no candidate.
pub fn choose_interface(candidates: &Vec<String>) -> (r: Result<String, DiscoveryError>)
    ensures
        same_outcome(r, preferred(texts_of(candidates@))),
{
    let ghost texts = texts_of(candidates@);
    if candidates.len() == 0 {
        return Err(DiscoveryError::NoActiveInterface);
    }
    let mut i: usize = 0;
    while i < candidates.len()
        invariant
            i <= candidates.len(),
            texts == texts_of(candidates@),
            forall|k: int| 0 <= k < i ==> texts[k] != "Ethernet"@,
        decreases candidates.len() - i,
    {
        assert(texts[i as int] == candidates[i as int]@);
        if same_text(candidates[i].as_str(), "Ethernet") {
            assert(texts.contains("Ethernet"@));
            return Ok(String::from_str("Ethernet"));
        }
        i = i + 1;
    }
    assert(!texts.contains("Ethernet"@));
    assert(texts[0] == candidates[0]@);
    Ok(candidates[0].clone())
}

/// The active interface according to a status listing: among the adapters
/// that the listing reports as connected, the wired one if there is one,
/// else the first. Fails with `NoActiveInterface` exactly when the listing
/// reports no connected adapter.
pub fn parse_interface_listing(listing: &str) -> (r: Result<String, DiscoveryError>)
    ensures
        same_outcome(r, active_interface(listing@)),
{
    let found = connected_interfaces(listing);
    choose_interface(&found)
}

/// The active interface according to what the runner reported for the
/// status listing command. Fails with `CommandFailed` exactly when the
/// runner could not run the command, and with `NoActiveInterface` exactly
/// when it could but the listing reports no connected adapter.
pub fn get_connected_interface_name(report: &RunReport) -> (r: Result<String, DiscoveryError>)
    ensures
        same_outcome(r, discovered(*report)),
{
    match report {
        RunReport::Completed { stdout, .. } => parse_interface_listing(stdout.as_str()),
        RunReport::Failed => Err(DiscoveryError::CommandFailed),
    }
}

} // verus!
