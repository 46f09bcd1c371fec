//! The run's persisted result, as data: one line per discovered open
//! port, `<token>:<port>`, and the optional "unique" variant of the
//! same lines with the well-known web ports left out.

use crate::aggregate::{AddressReport, AggregateResult, HostEntry};
use crate::text::{dec_rep, port_to_string};
use vstd::prelude::*;
use vstd::string::*;

verus! {

/// One well-known web port the "unique" output leaves out.
pub const COMMON_PORT_HTTP: u16 = 80;

/// The other well-known web port the "unique" output leaves out.
pub const COMMON_PORT_HTTPS: u16 = 443;

/// The views of a sequence of strings.
pub open spec fn views_of(ss: Seq<String>) -> Seq<Seq<char>> {
    ss.map_values(|s: String| s@)
}

/// One output line: the original input token, a colon, the port in
/// decimal.
pub open spec fn line_of(token: Seq<char>, port: u16) -> Seq<char> {
    token + seq![':'] + dec_rep(port as int)
}

/// The lines one address report's ports yield, in the service's order.
pub open spec fn lines_of_ports(token: Seq<char>, ports: Seq<u16>) -> Seq<Seq<char>>
    decreases ports.len(),
{
    if ports.len() == 0 {
        Seq::empty()
    } else {
        lines_of_ports(token, ports.drop_last()).push(line_of(token, ports.last()))
    }
}

/// The lines all of one token's reports yield.
pub open spec fn lines_of_reports(token: Seq<char>, reports: Seq<AddressReport>) -> Seq<Seq<char>>
    decreases reports.len(),
{
    if reports.len() == 0 {
        Seq::empty()
    } else {
        lines_of_reports(token, reports.drop_last()) + lines_of_ports(
            token,
            reports.last().ports@,
        )
    }
}

/// The whole output: every entry's lines, entries in mapping order.
pub open spec fn lines_of_entries(entries: Seq<HostEntry>) -> Seq<Seq<char>>
    decreases entries.len(),
{
    if entries.len() == 0 {
        Seq::empty()
    } else {
        lines_of_entries(entries.drop_last()) + lines_of_reports(
            entries.last().token@,
            entries.last().reports@,
        )
    }
}

/// How many ports a token's reports carry in all.
pub open spec fn ports_in_reports(reports: Seq<AddressReport>) -> int
    decreases reports.len(),
{
    if reports.len() == 0 {
        0
    } else {
        ports_in_reports(reports.drop_last()) + reports.last().ports@.len()
    }
}

/// The total reported ports across all successful address lookups the
/// mapping retains.
pub open spec fn total_ports(entries: Seq<HostEntry>) -> int
    decreases entries.len(),
{
    if entries.len() == 0 {
        0
    } else {
        total_ports(entries.drop_last()) + ports_in_reports(entries.last().reports@)
    }
}

proof fn lemma_ports_line_count(token: Seq<char>, ports: Seq<u16>)
    ensures
        lines_of_ports(token, ports).len() == ports.len(),
    decreases ports.len(),
{
    if ports.len() > 0 {
        lemma_ports_line_count(token, ports.drop_last());
    }
}

proof fn lemma_reports_line_count(token: Seq<char>, reports: Seq<AddressReport>)
    ensures
        lines_of_reports(token, reports).len() == ports_in_reports(reports),
    decreases reports.len(),
{
    if reports.len() > 0 {
        lemma_reports_line_count(token, reports.drop_last());
        lemma_ports_line_count(token, reports.last().ports@);
    }
}

/// Law: the output holds exactly one line per reported port — its
/// length equals the total reported ports across all successful
/// lookups the mapping retains.
pub proof fn lemma_line_count(entries: Seq<HostEntry>)
    ensures
        lines_of_entries(entries).len() == total_ports(entries),
    decreases entries.len(),
{
    if entries.len() > 0 {
        lemma_line_count(entries.drop_last());
        lemma_reports_line_count(entries.last().token@, entries.last().reports@);
    }
}

/// One output line, `<token>:<port>`.
pub fn result_line(token: &str, port: u16) -> (r: String)
    ensures
        r@ == line_of(token@, port),
{
    let mut s = String::from_str(token);
    s.append(":");
    let digits = port_to_string(port);
    s.append(digits.as_str());
    proof {
        reveal_strlit(":");
        assert(s@ =~= line_of(token@, port));
    }
    s
}

/// Append one report's lines to the output being built.
fn push_port_lines(out: &mut Vec<String>, token: &str, ports: &Vec<u16>)
    ensures
        views_of(final(out)@) =~= views_of(old(out)@) + lines_of_ports(token@, ports@),
        final(out)@.len() == old(out)@.len() + ports@.len(),
{
    let n = ports.len();
    let mut i: usize = 0;
    while i < n
        invariant
            0 <= i <= n,
            n == ports@.len(),
            out@.len() == old(out)@.len() + i,
            views_of(out@) =~= views_of(old(out)@) + lines_of_ports(token@, ports@.take(i as int)),
        decreases n - i,
    {
        let line = result_line(token, ports[i]);
        let ghost pre = out@;
        let ghost line_view = line@;
        out.push(line);
        proof {
            assert(out@ == pre.push(line));
            assert(views_of(out@) =~= views_of(pre).push(line_view));
            assert(ports@.take(i + 1).drop_last() =~= ports@.take(i as int));
            assert(ports@.take(i + 1).last() == ports@[i as int]);
            assert(lines_of_ports(token@, ports@.take(i + 1)) =~= lines_of_ports(
                token@,
                ports@.take(i as int),
            ).push(line_of(token@, ports@[i as int])));
            assert(views_of(out@) =~= views_of(old(out)@) + lines_of_ports(
                token@,
                ports@.take(i + 1),
            ));
        }
        i = i + 1;
    }
    proof {
        assert(ports@.take(n as int) =~= ports@);
    }
}

/// Append all of one token's lines to the output being built.
fn push_report_lines(out: &mut Vec<String>, token: &str, reports: &Vec<AddressReport>)
    ensures
        views_of(final(out)@) =~= views_of(old(out)@) + lines_of_reports(token@, reports@),
{
    let n = reports.len();
    let mut i: usize = 0;
    while i < n
        invariant
            0 <= i <= n,
            n == reports@.len(),
            views_of(out@) =~= views_of(old(out)@) + lines_of_reports(
                token@,
                reports@.take(i as int),
            ),
        decreases n - i,
    {
        push_port_lines(out, token, &reports[i].ports);
        proof {
            assert(reports@.take(i + 1).drop_last() =~= reports@.take(i as int));
            assert(reports@.take(i + 1).last() == reports@[i as int]);
            assert(views_of(out@) =~= views_of(old(out)@) + lines_of_reports(
                token@,
                reports@.take(i + 1),
            ));
        }
        i = i + 1;
    }
    proof {
        assert(reports@.take(n as int) =~= reports@);
    }
}

/// The main output, one line per reported port. Its length equals the
/// total reported ports the mapping retains.
pub fn render_lines(agg: &AggregateResult) -> (r: Vec<String>)
    ensures
        views_of(r@) =~= lines_of_entries(agg.entries@),
        r@.len() == total_ports(agg.entries@),
{
    let mut out: Vec<String> = Vec::new();
    let n = agg.entries.len();
    let mut i: usize = 0;
    while i < n
        invariant
            0 <= i <= n,
            n == agg.entries@.len(),
            views_of(out@) =~= lines_of_entries(agg.entries@.take(i as int)),
        decreases n - i,
    {
        let entry = &agg.entries[i];
        push_report_lines(&mut out, entry.token.as_str(), &entry.reports);
        proof {
            assert(agg.entries@.take(i + 1).drop_last() =~= agg.entries@.take(i as int));
            assert(agg.entries@.take(i + 1).last() == agg.entries@[i as int]);
            assert(views_of(out@) =~= lines_of_entries(agg.entries@.take(i + 1)));
        }
        i = i + 1;
    }
    proof {
        assert(agg.entries@.take(n as int) =~= agg.entries@);
        lemma_line_count(agg.entries@);
        assert(views_of(out@).len() == out@.len());
    }
    out
}

/// Whether the "unique" output keeps a port: everything but the
/// well-known web ports.
pub open spec fn is_kept_port(p: u16) -> bool {
    p != COMMON_PORT_HTTP && p != COMMON_PORT_HTTPS
}

/// The ports the "unique" output keeps, order preserved.
pub open spec fn kept_ports(ports: Seq<u16>) -> Seq<u16>
    decreases ports.len(),
{
    if ports.len() == 0 {
        Seq::empty()
    } else if is_kept_port(ports.last()) {
        kept_ports(ports.drop_last()).push(ports.last())
    } else {
        kept_ports(ports.drop_last())
    }
}

/// The "unique" lines of one token's reports.
pub open spec fn unique_lines_of_reports(token: Seq<char>, reports: Seq<AddressReport>) -> Seq<
    Seq<char>,
>
    decreases reports.len(),
{
    if reports.len() == 0 {
        Seq::empty()
    } else {
        unique_lines_of_reports(token, reports.drop_last()) + lines_of_ports(
            token,
            kept_ports(reports.last().ports@),
        )
    }
}

/// The whole "unique" output.
pub open spec fn unique_lines_of_entries(entries: Seq<HostEntry>) -> Seq<Seq<char>>
    decreases entries.len(),
{
    if entries.len() == 0 {
        Seq::empty()
    } else {
        unique_lines_of_entries(entries.drop_last()) + unique_lines_of_reports(
            entries.last().token@,
            entries.last().reports@,
        )
    }
}

/// Exact test of a kept port.
pub fn port_is_kept(p: u16) -> (r: bool)
    ensures
        r == is_kept_port(p),
{
    p != COMMON_PORT_HTTP && p != COMMON_PORT_HTTPS
}

/// The ports of one report with the well-known web ports left out.
pub fn filter_ports(ports: &Vec<u16>) -> (r: Vec<u16>)
    ensures
        r@ =~= kept_ports(ports@),
{
    let n = ports.len();
    let mut out: Vec<u16> = Vec::new();
    let mut i: usize = 0;
    while i < n
        invariant
            0 <= i <= n,
            n == ports@.len(),
            out@ =~= kept_ports(ports@.take(i as int)),
        decreases n - i,
    {
        let p = ports[i];
        if port_is_kept(p) {
            out.push(p);
        }
        proof {
            assert(ports@.take(i + 1).drop_last() =~= ports@.take(i as int));
            assert(ports@.take(i + 1).last() == ports@[i as int]);
            assert(out@ =~= kept_ports(ports@.take(i + 1)));
        }
        i = i + 1;
    }
    proof {
        assert(ports@.take(n as int) =~= ports@);
    }
    out
}

/// Append one token's "unique" lines to the output being built.
fn push_unique_report_lines(out: &mut Vec<String>, token: &str, reports: &Vec<AddressReport>)
    ensures
        views_of(final(out)@) =~= views_of(old(out)@) + unique_lines_of_reports(token@, reports@),
{
    let n = reports.len();
    let mut i: usize = 0;
    while i < n
        invariant
            0 <= i <= n,
            n == reports@.len(),
            views_of(out@) =~= views_of(old(out)@) + unique_lines_of_reports(
                token@,
                reports@.take(i as int),
            ),
        decreases n - i,
    {
        let kept = filter_ports(&reports[i].ports);
        push_port_lines(out, token, &kept);
        proof {
            assert(reports@.take(i + 1).drop_last() =~= reports@.take(i as int));
            assert(reports@.take(i + 1).last() == reports@[i as int]);
            assert(views_of(out@) =~= views_of(old(out)@) + unique_lines_of_reports(
                token@,
                reports@.take(i + 1),
            ));
        }
        i = i + 1;
    }
    proof {
        assert(reports@.take(n as int) =~= reports@);
    }
}

/// The "unique" output: the same lines as the main output, except
/// that every line made from port 80 or port 443 is left out.
pub fn render_unique_lines(agg: &AggregateResult) -> (r: Vec<String>)
    ensures
        views_of(r@) =~= unique_lines_of_entries(agg.entries@),
{
    let mut out: Vec<String> = Vec::new();
    let n = agg.entries.len();
    let mut i: usize = 0;
    while i < n
        invariant
            0 <= i <= n,
            n == agg.entries@.len(),
            views_of(out@) =~= unique_lines_of_entries(agg.entries@.take(i as int)),
        decreases n - i,
    {
        let entry = &agg.entries[i];
        push_unique_report_lines(&mut out, entry.token.as_str(), &entry.reports);
        proof {
            assert(agg.entries@.take(i + 1).drop_last() =~= agg.entries@.take(i as int));
            assert(agg.entries@.take(i + 1).last() == agg.entries@[i as int]);
            assert(views_of(out@) =~= unique_lines_of_entries(agg.entries@.take(i + 1)));
        }
        i = i + 1;
    }
    proof {
        assert(agg.entries@.take(n as int) =~= agg.entries@);
    }
    out
}

/// An element of either part of a concatenation is an element of the
/// whole.
proof fn lemma_concat_contains<A>(a: Seq<A>, b: Seq<A>, x: A)
    requires
        a.contains(x) || b.contains(x),
    ensures
        (a + b).contains(x),
{
    if a.contains(x) {
        let j = choose|j: int| 0 <= j < a.len() && a[j] == x;
        assert((a + b)[j] == x);
    } else {
        let j = choose|j: int| 0 <= j < b.len() && b[j] == x;
        assert((a + b)[a.len() + j] == x);
    }
}

/// Each position of `lines_of_ports` holds the line of the port at
/// the same position.
proof fn lemma_lines_of_ports_index(token: Seq<char>, ports: Seq<u16>)
    ensures
        lines_of_ports(token, ports).len() == ports.len(),
        forall|k: int|
            0 <= k < ports.len() ==> #[trigger] lines_of_ports(token, ports)[k] == line_of(
                token,
                ports[k],
            ),
    decreases ports.len(),
{
    if ports.len() > 0 {
        lemma_lines_of_ports_index(token, ports.drop_last());
    }
}

/// Every kept port is no well-known web port and occurs among the
/// report's ports.
proof fn lemma_kept_ports_sound(ports: Seq<u16>)
    ensures
        forall|k: int|
            0 <= k < kept_ports(ports).len() ==> is_kept_port(#[trigger] kept_ports(ports)[k])
                && ports.contains(kept_ports(ports)[k]),
    decreases ports.len(),
{
    if ports.len() > 0 {
        lemma_kept_ports_sound(ports.drop_last());
        assert forall|k: int| 0 <= k < kept_ports(ports).len() implies is_kept_port(
            #[trigger] kept_ports(ports)[k],
        ) && ports.contains(kept_ports(ports)[k]) by {
            let v = kept_ports(ports)[k];
            if k < kept_ports(ports.drop_last()).len() {
                assert(ports.drop_last().contains(v));
                let j = choose|j: int|
                    0 <= j < ports.drop_last().len() && ports.drop_last()[j] == v;
                assert(ports[j] == v);
            } else {
                assert(v == ports.last());
                assert(ports[ports.len() - 1] == v);
            }
        }
    }
}

/// Every "unique" line of one token's reports stands among the
/// token's main lines, and is the line of a kept port.
proof fn lemma_unique_report_lines_law(token: Seq<char>, reports: Seq<AddressReport>)
    ensures
        forall|k: int|
            0 <= k < unique_lines_of_reports(token, reports).len() ==> lines_of_reports(
                token,
                reports,
            ).contains(#[trigger] unique_lines_of_reports(token, reports)[k]),
        forall|k: int|
            0 <= k < unique_lines_of_reports(token, reports).len() ==> exists|p: u16|
                #[trigger] unique_lines_of_reports(token, reports)[k] == line_of(token, p)
                    && is_kept_port(p),
    decreases reports.len(),
{
    if reports.len() > 0 {
        let rest = reports.drop_last();
        let last_ports = reports.last().ports@;
        lemma_unique_report_lines_law(token, rest);
        lemma_kept_ports_sound(last_ports);
        lemma_lines_of_ports_index(token, kept_ports(last_ports));
        lemma_lines_of_ports_index(token, last_ports);
        assert forall|k: int| 0 <= k < unique_lines_of_reports(token, reports).len() implies
            lines_of_reports(token, reports).contains(
            #[trigger] unique_lines_of_reports(token, reports)[k],
        ) && exists|p: u16|
            unique_lines_of_reports(token, reports)[k] == line_of(token, p) && is_kept_port(
                p,
            ) by {
            let v = unique_lines_of_reports(token, reports)[k];
            let prefix = unique_lines_of_reports(token, rest);
            if k < prefix.len() {
                assert(prefix.contains(v));
                lemma_concat_contains(
                    lines_of_reports(token, rest),
                    lines_of_ports(token, last_ports),
                    v,
                );
            } else {
                let j = k - prefix.len();
                let p = kept_ports(last_ports)[j];
                assert(v == line_of(token, p));
                assert(last_ports.contains(p));
                let m = choose|m: int| 0 <= m < last_ports.len() && last_ports[m] == p;
                assert(lines_of_ports(token, last_ports)[m] == v);
                assert(lines_of_ports(token, last_ports).contains(v));
                lemma_concat_contains(
                    lines_of_reports(token, rest),
                    lines_of_ports(token, last_ports),
                    v,
                );
            }
        }
    }
}

/// Law: the "unique" output is a subset of the main output — every
/// one of its lines stands there too — and each of its lines was made
/// from a port other than 80 and 443.
pub proof fn lemma_unique_lines_law(entries: Seq<HostEntry>)
    ensures
        forall|k: int|
            0 <= k < unique_lines_of_entries(entries).len() ==> lines_of_entries(entries).contains(
                #[trigger] unique_lines_of_entries(entries)[k],
            ),
        forall|k: int|
            0 <= k < unique_lines_of_entries(entries).len() ==> exists|t: Seq<char>, p: u16|
                #[trigger] unique_lines_of_entries(entries)[k] == line_of(t, p) && is_kept_port(p),
    decreases entries.len(),
{
    if entries.len() > 0 {
        let rest = entries.drop_last();
        let token = entries.last().token@;
        let reports = entries.last().reports@;
        lemma_unique_lines_law(rest);
        lemma_unique_report_lines_law(token, reports);
        assert forall|k: int| 0 <= k < unique_lines_of_entries(entries).len() implies
            lines_of_entries(entries).contains(#[trigger] unique_lines_of_entries(entries)[k])
            && exists|t: Seq<char>, p: u16|
            unique_lines_of_entries(entries)[k] == line_of(t, p) && is_kept_port(p) by {
            let v = unique_lines_of_entries(entries)[k];
            let prefix = unique_lines_of_entries(rest);
            if k < prefix.len() {
                assert(prefix.contains(v));
                lemma_concat_contains(
                    lines_of_entries(rest),
                    lines_of_reports(token, reports),
                    v,
                );
            } else {
                let j = k - prefix.len();
                assert(unique_lines_of_reports(token, reports)[j] == v);
                assert(unique_lines_of_reports(token, reports).contains(v));
                let m = choose|m: int|
                    0 <= m < unique_lines_of_reports(token, reports).len()
                        && unique_lines_of_reports(token, reports)[m] == v;
                assert(lines_of_reports(token, reports).contains(v));
                lemma_concat_contains(
                    lines_of_entries(rest),
                    lines_of_reports(token, reports),
                    v,
                );
                assert(exists|p: u16| v == line_of(token, p) && is_kept_port(p));
            }
        }
    }
}

/// Whether a file name carries the `.txt` suffix.
pub open spec fn ends_with_txt(s: Seq<char>) -> bool {
    s.len() >= 4 && s.subrange(s.len() - 4, s.len() as int) == ".txt"@
}

/// The output name derived from the input name when none was given:
/// `_results` slipped in before a `.txt` suffix, or appended with one.
pub open spec fn derived_output_name(s: Seq<char>) -> Seq<char> {
    if ends_with_txt(s) {
        s.subrange(0, s.len() - 4) + "_results.txt"@
    } else {
        s + "_results.txt"@
    }
}

/// The auto-derived output file name for a run that was not given one.
pub fn derive_output_name(input: &str) -> (r: String)
    ensures
        r@ == derived_output_name(input@),
{
    let n = input.unicode_len();
    proof {
        reveal_strlit(".txt");
    }
    if n >= 4 {
        let dotted = input.get_char(n - 4) == '.' && input.get_char(n - 3) == 't'
            && input.get_char(n - 2) == 'x' && input.get_char(n - 1) == 't';
        if dotted {
            proof {
                assert(input@.subrange(n - 4, n as int) =~= ".txt"@);
            }
            let mut out = String::from_str(input.substring_char(0, n - 4));
            out.append("_results.txt");
            return out;
        } else {
            proof {
                if ends_with_txt(input@) {
                    let tail = input@.subrange(n - 4, n as int);
                    assert(tail[0] == '.' && tail[1] == 't' && tail[2] == 'x' && tail[3] == 't');
                    assert(input@[n - 4] == '.' && input@[n - 3] == 't' && input@[n - 2] == 'x'
                        && input@[n - 1] == 't');
                }
                assert(!ends_with_txt(input@));
            }
        }
    }
    let mut out = String::from_str(input);
    out.append("_results.txt");
    out
}

} // verus!
