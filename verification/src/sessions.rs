//! The table of sessions shown by `status`: one block of rows per session,
//! one row per domain, in a box drawn with Unicode box characters.
use vstd::prelude::*;
use vstd::string::StringExecFns;
use vstd::utf8::encode_utf8;
use vstd::string::StringSliceAdditionalSpecFns;
use crate::domains::{session_urls, string_views, format_state_domains};
use crate::health::{Segment, Style, line_view, lines_view};
use crate::state::LocalState;
use crate::text::str_eq;

verus! {

/// A session of the table: its name, its kind (as shown), and its domains.
pub struct SessionRow {
    pub name: String,
    pub kind: String,
    pub domains: Vec<String>,
}

impl SessionRow {
    /// The row of a state's session: its name and the URLs of its top-level
    /// domains.
    pub fn from_state(state: &LocalState, kind: String) -> (r: SessionRow)
        ensures
            r.name@ == state.linkup.session_name@,
            r.kind == kind,
            string_views(r.domains@) == session_urls(state.linkup.session_name@, state.domains@),
    {
        SessionRow {
            name: state.linkup.session_name.clone(),
            kind,
            domains: format_state_domains(state.linkup.session_name.as_str(), state.domains.as_slice()),
        }
    }
}

/// The length of a text in bytes (`str::len`).
pub open spec fn byte_len(s: Seq<char>) -> int {
    encode_utf8(s).len() as int
}

/// The larger of two numbers.
pub open spec fn max(a: int, b: int) -> int {
    if a < b { b } else { a }
}

/// The width of the name column: the longest name, or the header, each
/// with room for the marker.
pub open spec fn name_width(rows: Seq<SessionRow>, marker: int) -> int
    decreases rows.len(),
{
    if rows.len() == 0 {
        12 + marker
    } else {
        max(name_width(rows.drop_last(), marker), byte_len(rows.last().name@) + marker)
    }
}

/// The width of the kind column.
pub open spec fn kind_width(rows: Seq<SessionRow>) -> int
    decreases rows.len(),
{
    if rows.len() == 0 {
        4
    } else {
        max(kind_width(rows.drop_last()), byte_len(rows.last().kind@))
    }
}

/// The widest of the domains, or the header.
pub open spec fn domains_width(domains: Seq<Seq<char>>, w: int) -> int
    decreases domains.len(),
{
    if domains.len() == 0 {
        w
    } else {
        max(domains_width(domains.drop_last(), w), byte_len(domains.last()))
    }
}

/// The width of the domains column.
pub open spec fn domain_width(rows: Seq<SessionRow>) -> int
    decreases rows.len(),
{
    if rows.len() == 0 {
        7
    } else {
        domains_width(string_views(rows.last().domains@), domain_width(rows.drop_last()))
    }
}

/// `n` copies of `s`.
pub open spec fn repeat(s: Seq<char>, n: int) -> Seq<char>
    decreases n,
{
    if n <= 0 {
        Seq::empty()
    } else {
        repeat(s, n - 1) + s
    }
}

/// `s` padded with spaces to `w` characters (`{:<w}`).
pub open spec fn pad(s: Seq<char>, w: int) -> Seq<char> {
    s + repeat(" "@, w - s.len())
}

/// A horizontal border of the table.
pub open spec fn border(l: Seq<char>, m: Seq<char>, r: Seq<char>, nw: int, kw: int, dw: int) -> Seq<char> {
    l + repeat("─"@, nw + 2) + m + repeat("─"@, kw + 2) + m + repeat("─"@, dw + 2) + r
}

/// One plain line.
pub open spec fn plain_line(t: Seq<char>) -> Seq<(Seq<char>, Style)> {
    seq![(t, Style::Plain)]
}

/// The header row.
pub open spec fn header_line(has_marker: bool, nw: int, kw: int, dw: int) -> Seq<(Seq<char>, Style)> {
    let name = if has_marker { "  SESSION NAME"@ } else { "SESSION NAME"@ };
    seq![("│ "@, Style::Plain), (pad(name, nw), Style::Bold), (" │ "@, Style::Plain), (pad("TYPE"@, kw), Style::Bold),
        (" │ "@, Style::Plain), (pad("DOMAINS"@, dw), Style::Bold), (" │"@, Style::Plain)]
}

/// The name as shown: marked `> ` when it is the current session, indented
/// when another session is current.
pub open spec fn marked_name(name: Seq<char>, has_marker: bool, is_current: bool) -> Seq<char> {
    if has_marker {
        if is_current { "> "@ + name } else { "  "@ + name }
    } else {
        name
    }
}

/// The rows of a session: its name, kind and first domain, then one row per
/// further domain with the name and kind left blank. The current session's
/// name is bold.
pub open spec fn session_lines(row: SessionRow, has_marker: bool, is_current: bool, nw: int, kw: int, dw: int)
    -> Seq<Seq<(Seq<char>, Style)>> {
    let domains = string_views(row.domains@);
    Seq::new(domains.len(), |j: int|
        if j == 0 {
            seq![("│ "@, Style::Plain),
                (pad(marked_name(row.name@, has_marker, is_current), nw), if is_current { Style::Bold } else { Style::Plain }),
                (" │ "@ + pad(row.kind@, kw) + " │ "@ + pad(domains[j], dw) + " │"@, Style::Plain)]
        } else {
            plain_line("│ "@ + pad(Seq::empty(), nw) + " │ "@ + pad(Seq::empty(), kw) + " │ "@ + pad(domains[j], dw) + " │"@)
        })
}

/// The session is the current one.
pub open spec fn is_current_row(row: SessionRow, current: Option<Seq<char>>) -> bool {
    match current {
        Some(c) => c == row.name@,
        None => false,
    }
}

/// The blocks of the sessions, separated by middle borders.
pub open spec fn body_lines(rows: Seq<SessionRow>, current: Option<Seq<char>>, nw: int, kw: int, dw: int)
    -> Seq<Seq<(Seq<char>, Style)>>
    decreases rows.len(),
{
    if rows.len() == 0 {
        Seq::empty()
    } else {
        let before = body_lines(rows.drop_last(), current, nw, kw, dw);
        let sep = if rows.len() > 1 { seq![plain_line(border("├"@, "┼"@, "┤"@, nw, kw, dw))] } else { Seq::empty() };
        before + sep + session_lines(rows.last(), current is Some, is_current_row(rows.last(), current), nw, kw, dw)
    }
}

/// The whole table; nothing where there is no session.
pub open spec fn sessions_table(rows: Seq<SessionRow>, current: Option<Seq<char>>) -> Seq<Seq<(Seq<char>, Style)>> {
    if rows.len() == 0 {
        Seq::empty()
    } else {
        let m = if current is Some { 2int } else { 0int };
        let nw = name_width(rows, m);
        let kw = kind_width(rows);
        let dw = domain_width(rows);
        seq![plain_line(border("┌"@, "┬"@, "┐"@, nw, kw, dw)), header_line(current is Some, nw, kw, dw),
            plain_line(border("├"@, "┼"@, "┤"@, nw, kw, dw))]
            + body_lines(rows, current, nw, kw, dw)
            + seq![plain_line(border("└"@, "┴"@, "┘"@, nw, kw, dw))]
    }
}

fn repeat_str(s: &str, n: usize) -> (r: String)
    ensures
        r@ == repeat(s@, n as int),
{
    let mut r = String::new();
    let mut i: usize = 0;
    while i < n
        invariant
            i <= n,
            r@ == repeat(s@, i as int),
        decreases n - i,
    {
        r.append(s);
        i = i + 1;
    }
    r
}

fn pad_str(s: &str, w: usize) -> (r: String)
    ensures
        r@ == pad(s@, w as int),
{
    let n = s.unicode_len();
    let mut r = String::from_str(s);
    if n < w {
        r.append(repeat_str(" ", w - n).as_str());
    } else {
        assert(repeat(" "@, w - s@.len()) =~= Seq::<char>::empty());
    }
    r
}

fn border_str(l: &str, m: &str, rt: &str, nw: usize, kw: usize, dw: usize) -> (r: String)
    requires
        nw + 2 <= usize::MAX,
        kw + 2 <= usize::MAX,
        dw + 2 <= usize::MAX,
    ensures
        r@ == border(l@, m@, rt@, nw as int, kw as int, dw as int),
{
    let mut r = String::from_str(l);
    r.append(repeat_str("─", nw + 2).as_str());
    r.append(m);
    r.append(repeat_str("─", kw + 2).as_str());
    r.append(m);
    r.append(repeat_str("─", dw + 2).as_str());
    r.append(rt);
    r
}

fn plain(t: String) -> (r: Vec<Segment>)
    ensures
        line_view(r@) == plain_line(t@),
{
    let mut v: Vec<Segment> = Vec::new();
    v.push(Segment { text: t, style: Style::Plain });
    assert(line_view(v@) =~= plain_line(t@));
    v
}

/// The widths of the three columns for the rows.
fn widths(rows: &[SessionRow], marker: usize) -> (r: (usize, usize, usize))
    requires
        marker <= 2,
        forall|i: int| 0 <= i < rows@.len() ==> byte_len((#[trigger] rows@[i]).name@) < usize::MAX - 8,
        forall|i: int| 0 <= i < rows@.len() ==> byte_len((#[trigger] rows@[i]).kind@) < usize::MAX - 8,
        forall|i: int, j: int| 0 <= i < rows@.len() && 0 <= j < rows@[i].domains@.len()
            ==> byte_len((#[trigger] rows@[i].domains@[j])@) < usize::MAX - 8,
    ensures
        r.0 == name_width(rows@, marker as int),
        r.1 == kind_width(rows@),
        r.2 == domain_width(rows@),
        r.0 < usize::MAX - 6,
        r.1 < usize::MAX - 6,
        r.2 < usize::MAX - 6,
{
    let mut nw: usize = 12 + marker;
    let mut kw: usize = 4;
    let mut dw: usize = 7;
    let mut i: usize = 0;
    while i < rows.len()
        invariant
            i <= rows@.len(),
            marker <= 2,
            forall|k: int| 0 <= k < rows@.len() ==> byte_len((#[trigger] rows@[k]).name@) < usize::MAX - 8,
            forall|k: int| 0 <= k < rows@.len() ==> byte_len((#[trigger] rows@[k]).kind@) < usize::MAX - 8,
            forall|k: int, j: int| 0 <= k < rows@.len() && 0 <= j < rows@[k].domains@.len()
                ==> byte_len((#[trigger] rows@[k].domains@[j])@) < usize::MAX - 8,
            nw == name_width(rows@.take(i as int), marker as int),
            kw == kind_width(rows@.take(i as int)),
            dw == domain_width(rows@.take(i as int)),
            nw < usize::MAX - 6,
            kw < usize::MAX - 6,
            dw < usize::MAX - 6,
        decreases rows@.len() - i,
    {
        let row = &rows[i];
        assert(rows@.take(i + 1).drop_last() =~= rows@.take(i as int));
        assert(rows@.take(i + 1).last() == rows@[i as int]);
        let nl = row.name.as_str().len() + marker;
        if nl > nw {
            nw = nl;
        }
        let kl = row.kind.as_str().len();
        if kl > kw {
            kw = kl;
        }
        let ghost start = dw;
        let ghost ds = string_views(row.domains@);
        let mut j: usize = 0;
        while j < row.domains.len()
            invariant
                j <= row.domains@.len(),
                ds == string_views(row.domains@),
                forall|k: int| 0 <= k < row.domains@.len() ==> byte_len((#[trigger] row.domains@[k])@) < usize::MAX - 8,
                dw == domains_width(ds.take(j as int), start as int),
                dw < usize::MAX - 6,
            decreases row.domains@.len() - j,
        {
            assert(ds.take(j + 1).drop_last() =~= ds.take(j as int));
            let l = row.domains[j].as_str().len();
            if l > dw {
                dw = l;
            }
            j = j + 1;
        }
        assert(ds.take(ds.len() as int) =~= ds);
        i = i + 1;
    }
    assert(rows@.take(rows@.len() as int) =~= rows@);
    (nw, kw, dw)
}

/// The table of the sessions, line by line; `current` names the session to
/// mark, if any. The caller prints each line, bold where a piece says so.
pub fn print_sessions_table(sessions: &[SessionRow], current: Option<&str>) -> (r: Vec<Vec<Segment>>)
    requires
        forall|i: int| 0 <= i < sessions@.len() ==> byte_len((#[trigger] sessions@[i]).name@) < usize::MAX - 8,
        forall|i: int| 0 <= i < sessions@.len() ==> byte_len((#[trigger] sessions@[i]).kind@) < usize::MAX - 8,
        forall|i: int, j: int| 0 <= i < sessions@.len() && 0 <= j < sessions@[i].domains@.len()
            ==> byte_len((#[trigger] sessions@[i].domains@[j])@) < usize::MAX - 8,
    ensures
        lines_view(r@) == sessions_table(sessions@, match current {
            Some(c) => Some(c@),
            None => None,
        }),
{
    let ghost cur = match current {
        Some(c) => Some(c@),
        None => None::<Seq<char>>,
    };
    let mut lines: Vec<Vec<Segment>> = Vec::new();
    if sessions.len() == 0 {
        assert(lines_view(lines@) =~= sessions_table(sessions@, cur));
        return lines;
    }
    let has_marker = current.is_some();
    let marker: usize = if has_marker { 2 } else { 0 };
    let (nw, kw, dw) = widths(sessions, marker);
    lines.push(plain(border_str("┌", "┬", "┐", nw, kw, dw)));
    let mut header: Vec<Segment> = Vec::new();
    header.push(Segment { text: String::from_str("│ "), style: Style::Plain });
    let name_header = if has_marker { "  SESSION NAME" } else { "SESSION NAME" };
    header.push(Segment { text: pad_str(name_header, nw), style: Style::Bold });
    header.push(Segment { text: String::from_str(" │ "), style: Style::Plain });
    header.push(Segment { text: pad_str("TYPE", kw), style: Style::Bold });
    header.push(Segment { text: String::from_str(" │ "), style: Style::Plain });
    header.push(Segment { text: pad_str("DOMAINS", dw), style: Style::Bold });
    header.push(Segment { text: String::from_str(" │"), style: Style::Plain });
    assert(line_view(header@) =~= header_line(has_marker, nw as int, kw as int, dw as int));
    lines.push(header);
    lines.push(plain(border_str("├", "┼", "┤", nw, kw, dw)));
    let ghost head = lines_view(lines@);
    let mut i: usize = 0;
    while i < sessions.len()
        invariant
            i <= sessions@.len(),
            sessions@.len() > 0,
            has_marker == (current is Some),
            cur == match current {
                Some(c) => Some(c@),
                None => None::<Seq<char>>,
            },
            nw == name_width(sessions@, marker as int),
            kw == kind_width(sessions@),
            dw == domain_width(sessions@),
            nw + 2 <= usize::MAX,
            kw + 2 <= usize::MAX,
            dw + 2 <= usize::MAX,
            lines_view(lines@) == head + body_lines(sessions@.take(i as int), cur, nw as int, kw as int, dw as int),
        decreases sessions@.len() - i,
    {
        let row = &sessions[i];
        assert(sessions@.take(i + 1).drop_last() =~= sessions@.take(i as int));
        assert(sessions@.take(i + 1).last() == sessions@[i as int]);
        let ghost sep = if i + 1 > 1 {
            seq![plain_line(border("├"@, "┼"@, "┤"@, nw as int, kw as int, dw as int))]
        } else {
            Seq::<Seq<(Seq<char>, Style)>>::empty()
        };
        let ghost start = lines_view(lines@);
        if i > 0 {
            lines.push(plain(border_str("├", "┼", "┤", nw, kw, dw)));
        }
        assert(lines_view(lines@) =~= start + sep);
        let is_current = match current {
            Some(c) => str_eq(c, row.name.as_str()),
            None => false,
        };
        let ghost before = lines_view(lines@);
        let ghost ds = string_views(row.domains@);
        let ghost block = session_lines(*row, has_marker, is_current, nw as int, kw as int, dw as int);
        let mut j: usize = 0;
        while j < row.domains.len()
            invariant
                j <= row.domains@.len(),
                ds == string_views(row.domains@),
                block == session_lines(*row, has_marker, is_current, nw as int, kw as int, dw as int),
                lines_view(lines@) == before + block.take(j as int),
            decreases row.domains@.len() - j,
        {
            let mut line: Vec<Segment> = Vec::new();
            if j == 0 {
                let mut marked = String::new();
                if has_marker {
                    if is_current {
                        marked.append("> ");
                    } else {
                        marked.append("  ");
                    }
                }
                marked.append(row.name.as_str());
                line.push(Segment { text: String::from_str("│ "), style: Style::Plain });
                let style = if is_current { Style::Bold } else { Style::Plain };
                line.push(Segment { text: pad_str(marked.as_str(), nw), style });
                let mut rest = String::from_str(" │ ");
                rest.append(pad_str(row.kind.as_str(), kw).as_str());
                rest.append(" │ ");
                rest.append(pad_str(row.domains[j].as_str(), dw).as_str());
                rest.append(" │");
                line.push(Segment { text: rest, style: Style::Plain });
                assert(line_view(line@) =~= block[j as int]);
            } else {
                proof {
                    reveal_strlit("");
                }
                let mut t = String::from_str("│ ");
                t.append(pad_str("", nw).as_str());
                t.append(" │ ");
                t.append(pad_str("", kw).as_str());
                t.append(" │ ");
                t.append(pad_str(row.domains[j].as_str(), dw).as_str());
                t.append(" │");
                line = plain(t);
                assert(line_view(line@) =~= block[j as int]);
            }
            let ghost prev = lines_view(lines@);
            lines.push(line);
            assert(lines_view(lines@) =~= prev.push(block[j as int]));
            assert(block.take(j + 1) =~= block.take(j as int).push(block[j as int]));
            j = j + 1;
        }
        assert(block.take(block.len() as int) =~= block);
        assert(is_current == is_current_row(*row, cur));
        assert(body_lines(sessions@.take(i + 1), cur, nw as int, kw as int, dw as int) == body_lines(sessions@.take(i as int), cur, nw as int, kw as int, dw as int)
            + sep + block);
        assert(lines_view(lines@) =~= start + sep + block);
        assert(lines_view(lines@) =~= head + body_lines(sessions@.take(i + 1), cur, nw as int, kw as int, dw as int));
        i = i + 1;
    }
    assert(sessions@.take(sessions@.len() as int) =~= sessions@);
    let ghost prev = lines_view(lines@);
    lines.push(plain(border_str("└", "┴", "┘", nw, kw, dw)));
    assert(lines_view(lines@) =~= prev.push(plain_line(border("└"@, "┴"@, "┘"@, nw as int, kw as int, dw as int))));
    assert(lines_view(lines@) =~= sessions_table(sessions@, cur));
    lines
}

} // verus!
