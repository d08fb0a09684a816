//! Reads the DNS servers of one interface from the adapter detail listing.
//!
//! The listing is a run of blocks, one per adapter: a header line that is
//! not indented and holds the adapter's name, then indented detail lines. The
//! listing is scanned line by line by a small state machine, `Scan`.

use crate::ipv4::{is_ipv4, is_valid_ip};
use crate::runner::RunReport;
use crate::text::{
    chars_of, contains, contains_char, has_substring, lemma_split_on_nonempty, lines, lines_of,
    lowercase_of, pieces, split_on, split_ranges, texts_of, to_lowercase, trim, trim_range,
    trimmed, views_of,
};
use vstd::prelude::*;

verus! {

/// Why the DNS servers could not be read.
#[derive(Debug, Clone, Copy, PartialEq, Eq)]
pub enum ReadError {
    /// The detail listing could not be obtained.
    CommandFailed,
}

/// Where the scan stands among the adapter blocks.
#[derive(Debug, Clone, Copy, PartialEq, Eq)]
pub enum Phase {
    /// No block of the wanted interface is open.
    Seeking,
    /// Inside a block whose header names the wanted interface.
    InTarget,
    /// The wanted block has ended after giving at least one server; nothing
    /// that follows is read.
    Done,
}

/// The state of the scan after some lines.
#[derive(Debug, Clone)]
pub struct Scan {
    pub phase: Phase,
    /// Whether a list of DNS servers is open, so that a line that holds
    /// nothing but an address continues it.
    pub in_dns: bool,
    /// The servers collected so far, in the order of the listing.
    pub servers: Vec<String>,
}

/// The state of the scan as plain values.
pub struct ScanText {
    pub phase: Phase,
    pub in_dns: bool,
    pub servers: Seq<Seq<char>>,
}

impl View for Scan {
    type V = ScanText;

    open spec fn view(&self) -> ScanText {
        ScanText { phase: self.phase, in_dns: self.in_dns, servers: texts_of(self.servers@) }
    }
}

/// The state before the first line.
pub open spec fn initial() -> ScanText {
    ScanText { phase: Phase::Seeking, in_dns: false, servers: Seq::empty() }
}

/// Whether `line` is a header: a line that does not start with a space.
/// Empty lines are headers in this sense.
pub open spec fn is_header(line: Seq<char>) -> bool {
    !(line.len() > 0 && line[0] == ' ')
}

/// What stands after the last `c` in `t`; all of `t` if it holds no `c`.
pub open spec fn after_last(t: Seq<char>, c: char) -> Seq<char> {
    split_on(t, c).last()
}

/// Whether a trimmed line opens a list of DNS servers: its lowercase form
/// `lower` holds `dns`, and the line holds a colon.
pub open spec fn opens_dns_list(t: Seq<char>, lower: Seq<char>) -> bool {
    has_substring(lower, "dns"@) && t.contains(':')
}

/// The effect of a detail line inside the wanted block; `t` is the line
/// trimmed and `lower` its lowercase form.
///
/// A line that opens a list of DNS servers gives the address after its last
/// colon, if that is one. While the list is open, a line that is nothing but
/// an address gives that address, an empty line changes nothing, and any
/// other line closes the list.
pub open spec fn detail_step(st: ScanText, t: Seq<char>, lower: Seq<char>) -> ScanText {
    if opens_dns_list(t, lower) {
        let ip = trimmed(after_last(t, ':'));
        ScanText {
            in_dns: true,
            servers: if is_ipv4(ip) {
                st.servers.push(ip)
            } else {
                st.servers
            },
            ..st
        }
    } else if st.in_dns && is_ipv4(t) {
        ScanText { servers: st.servers.push(t), ..st }
    } else if st.in_dns && t.len() > 0 {
        ScanText { in_dns: false, ..st }
    } else {
        st
    }
}

/// Whether `line`, met in state `st`, is read as a detail line of the wanted
/// block; `names_target` says whether the line's lowercase form holds the
/// wanted name in lowercase.
pub open spec fn read_as_detail(st: ScanText, line: Seq<char>, names_target: bool) -> bool {
    &&& st.phase == Phase::InTarget
    &&& !(is_header(line) && names_target)
    &&& !(is_header(line) && trimmed(line).len() > 0)
}

/// The state after one line. `line_lower`, `name_lower` and `detail_lower`
/// are the lowercase forms of the line, of the wanted interface's name and of
/// the trimmed line.
///
/// A header that names the wanted interface opens its block. Any other
/// header that is not blank ends an open block: for good if the block gave a
/// server, else the search goes on. Every other line of an open block is a
/// detail line.
pub open spec fn scan_step(
    st: ScanText,
    line: Seq<char>,
    line_lower: Seq<char>,
    name_lower: Seq<char>,
    detail_lower: Seq<char>,
) -> ScanText {
    let names_target = has_substring(line_lower, name_lower);
    if st.phase == Phase::Done {
        st
    } else if is_header(line) && names_target {
        ScanText { phase: Phase::InTarget, ..st }
    } else if st.phase == Phase::InTarget && is_header(line) && trimmed(line).len() > 0 {
        if st.servers.len() > 0 {
            ScanText { phase: Phase::Done, ..st }
        } else {
            ScanText { phase: Phase::Seeking, ..st }
        }
    } else if st.phase == Phase::InTarget {
        detail_step(st, trimmed(line), detail_lower)
    } else {
        st
    }
}

/// Whether the lowercase form of `line` holds the lowercase form of `name`.
pub open spec fn names_interface(line: Seq<char>, name: Seq<char>) -> bool {
    has_substring(lowercase_of(line), lowercase_of(name))
}

/// The state after `line`, for the interface `name`.
pub open spec fn scan_line(st: ScanText, name: Seq<char>, line: Seq<char>) -> ScanText {
    scan_step(st, line, lowercase_of(line), lowercase_of(name), lowercase_of(trimmed(line)))
}

/// The state after all of `lines`, in order, starting from `st`.
pub open spec fn scan_lines(st: ScanText, name: Seq<char>, lines: Seq<Seq<char>>) -> ScanText
    decreases lines.len(),
{
    if lines.len() == 0 {
        st
    } else {
        scan_line(scan_lines(st, name, lines.drop_last()), name, lines.last())
    }
}

/// The DNS servers that a detail listing gives for the interface `name`, in
/// the order of the listing.
pub open spec fn dns_servers_of(name: Seq<char>, listing: Seq<char>) -> Seq<Seq<char>> {
    scan_lines(initial(), name, lines_of(listing)).servers
}

/// The DNS servers of `name` according to what the runner reported for the
/// detail listing command.
pub open spec fn servers_read(name: Seq<char>, report: RunReport) -> Result<
    Seq<Seq<char>>,
    ReadError,
> {
    match report {
        RunReport::Completed { stdout, .. } => Ok(dns_servers_of(name, stdout@)),
        RunReport::Failed => Err(ReadError::CommandFailed),
    }
}

/// Scanning `a` and then `b` is scanning `a + b`.
pub proof fn lemma_scan_lines_concat(
    st: ScanText,
    name: Seq<char>,
    a: Seq<Seq<char>>,
    b: Seq<Seq<char>>,
)
    ensures
        scan_lines(st, name, a + b) == scan_lines(scan_lines(st, name, a), name, b),
    decreases b.len(),
{
    if b.len() == 0 {
        assert(a + b =~= a);
    } else {
        lemma_scan_lines_concat(st, name, a, b.drop_last());
        assert((a + b).drop_last() =~= a + b.drop_last());
        assert((a + b).last() == b.last());
    }
}

/// Once the scan is done, no further line changes anything.
pub proof fn lemma_done_is_final(st: ScanText, name: Seq<char>, lines: Seq<Seq<char>>)
    requires
        st.phase == Phase::Done,
    ensures
        scan_lines(st, name, lines) == st,
    decreases lines.len(),
{
    if lines.len() > 0 {
        lemma_done_is_final(st, name, lines.drop_last());
    }
}

/// The scan stops at the header that follows the wanted block: when the
/// lines `before` leave the scan inside the block with at least one server
/// collected, and `header` is a header that is not blank and does not name the
/// wanted interface, then whatever follows the header, the result is what had
/// been collected before it.
pub proof fn lemma_scan_stops_at_next_header(
    name: Seq<char>,
    before: Seq<Seq<char>>,
    header: Seq<char>,
    rest: Seq<Seq<char>>,
)
    requires
        scan_lines(initial(), name, before).phase == Phase::InTarget,
        scan_lines(initial(), name, before).servers.len() > 0,
        is_header(header),
        trimmed(header).len() > 0,
        !names_interface(header, name),
    ensures
        scan_lines(initial(), name, before + seq![header] + rest).servers == scan_lines(
            initial(),
            name,
            before,
        ).servers,
{
    let st = scan_lines(initial(), name, before);
    let one = seq![header];
    lemma_scan_lines_concat(initial(), name, before + one, rest);
    lemma_scan_lines_concat(initial(), name, before, one);
    assert(one.drop_last() =~= Seq::<Seq<char>>::empty());
    assert(scan_lines(st, name, one.drop_last()) == st);
    assert(one.last() == header);
    assert(scan_lines(st, name, one) == scan_line(st, name, header));
    lemma_done_is_final(scan_line(st, name, header), name, rest);
}

/// Whether line `k` of `lines` is read as a detail line of the wanted block
/// when the scan starts before the first line.
pub open spec fn detail_line_at(name: Seq<char>, lines: Seq<Seq<char>>, k: int) -> bool {
    read_as_detail(
        scan_lines(initial(), name, lines.take(k)),
        lines[k],
        names_interface(lines[k], name),
    )
}

/// A block without a DNS line gives no server: when no detail line of the
/// wanted block opens a list of DNS servers, the scan collects nothing,
/// whatever addresses the lines hold.
pub proof fn lemma_no_dns_line_no_servers(name: Seq<char>, lines: Seq<Seq<char>>)
    requires
        forall|k: int|
            0 <= k < lines.len() && #[trigger] detail_line_at(name, lines, k) ==> !opens_dns_list(
                trimmed(lines[k]),
                lowercase_of(trimmed(lines[k])),
            ),
    ensures
        scan_lines(initial(), name, lines).servers.len() == 0,
        !scan_lines(initial(), name, lines).in_dns,
        scan_lines(initial(), name, lines).phase != Phase::Done,
    decreases lines.len(),
{
    if lines.len() > 0 {
        let front = lines.drop_last();
        let n = lines.len() - 1;
        assert forall|k: int|
            0 <= k < front.len() && #[trigger] detail_line_at(
                name,
                front,
                k,
            ) implies !opens_dns_list(trimmed(front[k]), lowercase_of(trimmed(front[k]))) by {
            assert(front.take(k) =~= lines.take(k));
            assert(front[k] == lines[k]);
            assert(detail_line_at(name, lines, k));
        }
        lemma_no_dns_line_no_servers(name, front);
        assert(lines.take(n) =~= front);
        if detail_line_at(name, lines, n) {
            assert(!opens_dns_list(trimmed(lines[n]), lowercase_of(trimmed(lines[n]))));
        }
    }
}

impl Scan {
    /// The state before the first line.
    pub fn new() -> (s: Scan)
        ensures
            s@ == initial(),
    {
        let s = Scan { phase: Phase::Seeking, in_dns: false, servers: Vec::new() };
        assert(s@.servers =~= Seq::<Seq<char>>::empty());
        s
    }

    /// The address that a line which opens a DNS list gives after its last
    /// colon, if that text is an address.
    fn address_after_colon(t: &str) -> (r: Option<String>)
        ensures
            match r {
                Some(ip) => ip@ == trimmed(after_last(t@, ':')) && is_ipv4(ip@),
                None => !is_ipv4(trimmed(after_last(t@, ':'))),
            },
    {
        let v = chars_of(t);
        let ranges = split_ranges(&v, ':');
        proof {
            lemma_split_on_nonempty(v@, ':');
        }
        assert(pieces(v@, ranges@).len() == ranges.len());
        let (a, b) = ranges[ranges.len() - 1];
        assert(pieces(v@, ranges@)[ranges.len() - 1] == v@.subrange(a as int, b as int));
        let (c, d) = trim_range(&v, a, b);
        let ip = t.substring_char(c, d);
        if is_valid_ip(ip) {
            Some(String::from_str(ip))
        } else {
            None
        }
    }

    /// Reads one detail line of the wanted block; `t` is the line trimmed
    /// and `lower` its lowercase form.
    fn read_detail(self, t: &str, lower: &str) -> (next: Scan)
        ensures
            next@ == detail_step(self@, t@, lower@),
    {
        let ghost before = self@;
        let mut next = self;
        if contains(lower, "dns") && contains_char(t, ':') {
            next.in_dns = true;
            match Self::address_after_colon(t) {
                Some(ip) => {
                    next.servers.push(ip);
                    assert(next@.servers =~= before.servers.push(ip@));
                },
                None => {},
            }
        } else if next.in_dns {
            if is_valid_ip(t) {
                next.servers.push(String::from_str(t));
                assert(next@.servers =~= before.servers.push(t@));
            } else if t.unicode_len() > 0 {
                next.in_dns = false;
            }
        }
        next
    }

    /// The state after one more line. `line_lower`, `name_lower` and
    /// `detail_lower` are the lowercase forms of the line, of the wanted
    /// interface's name and of the trimmed line.
    pub fn step(self, line: &str, line_lower: &str, name_lower: &str, detail_lower: &str) -> (next:
        Scan)
        ensures
            next@ == scan_step(self@, line@, line_lower@, name_lower@, detail_lower@),
    {
        let header = !(line.unicode_len() > 0 && line.get_char(0) == ' ');
        let mut next = self;
        match next.phase {
            Phase::Done => {
                return next;
            },
            _ => {},
        }
        if header && contains(line_lower, name_lower) {
            next.phase = Phase::InTarget;
            return next;
        }
        match next.phase {
            Phase::InTarget => {
                let t = trim(line);
                if header && t.unicode_len() > 0 {
                    if next.servers.len() > 0 {
                        next.phase = Phase::Done;
                    } else {
                        next.phase = Phase::Seeking;
                    }
                    next
                } else {
                    next.read_detail(t, detail_lower)
                }
            },
            _ => next,
        }
    }

    /// The state after one more line of the listing, for the interface
    /// whose name in lowercase is `name_lower`.
    fn read_line(self, line: &str, name_lower: &str) -> (next: Scan)
        ensures
            next@ == scan_step(
                self@,
                line@,
                lowercase_of(line@),
                name_lower@,
                lowercase_of(trimmed(line@)),
            ),
    {
        match self.phase {
            Phase::Done => self,
            _ => {
                let line_lower = to_lowercase(line);
                let detail_lower = to_lowercase(trim(line));
                self.step(line, line_lower.as_str(), name_lower, detail_lower.as_str())
            },
        }
    }
}

/// The DNS servers that a detail listing gives for the interface
/// `interface_name`, in the order of the listing. The result is empty when
/// the listing holds no block for the interface or the block lists no server:
/// that is the sign of automatic configuration, not a failure.
pub fn parse_dns_servers(interface_name: &str, listing: &str) -> (servers: Vec<String>)
    ensures
        texts_of(servers@) == dns_servers_of(interface_name@, listing@),
{
    let all = lines(listing);
    let name_lower = to_lowercase(interface_name);
    let ghost texts = lines_of(listing@);
    let mut state = Scan::new();
    let mut i: usize = 0;
    assert(texts.take(0) =~= Seq::<Seq<char>>::empty());
    while i < all.len()
        invariant
            i <= all.len(),
            views_of(all@) == texts,
            name_lower@ == lowercase_of(interface_name@),
            state@ == scan_lines(initial(), interface_name@, texts.take(i as int)),
        decreases all.len() - i,
    {
        assert(texts.len() == all.len());
        assert(texts[i as int] == all[i as int]@);
        assert(texts.take(i + 1).drop_last() =~= texts.take(i as int));
        assert(texts.take(i + 1).last() == texts[i as int]);
        state = state.read_line(all[i], name_lower.as_str());
        i = i + 1;
    }
    assert(texts.take(all.len() as int) =~= texts);
    state.servers
}

/// The DNS servers of `interface_name` according to what the runner
/// reported for the detail listing command. Fails with `CommandFailed`
/// exactly when the runner could not run the command; the listing is read
/// whatever the exit status was.
pub fn get_dns_from_ipconfig(interface_name: &str, report: &RunReport) -> (r: Result<
    Vec<String>,
    ReadError,
>)
    ensures
        match r {
            Ok(servers) => servers_read(interface_name@, *report) == Ok::<
                Seq<Seq<char>>,
                ReadError,
            >(texts_of(servers@)),
            Err(e) => servers_read(interface_name@, *report) == Err::<Seq<Seq<char>>, ReadError>(e),
        },
{
    match report {
        RunReport::Completed { stdout, .. } => Ok(
            parse_dns_servers(interface_name, stdout.as_str()),
        ),
        RunReport::Failed => Err(ReadError::CommandFailed),
    }
}

} // verus!
