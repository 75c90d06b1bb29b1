//! Rendering successful read responses.
//!
//! A body that does not fit the structured schema degrades, never fails:
//! the caller first tries the schema, then [`render_json_or_raw`] shows the
//! body pretty-printed when it is JSON at all, and as the raw text it was
//! otherwise.

use vstd::prelude::*;
use vstd::string::StringExecFns;
use crate::outside::pretty_json;
use crate::outside::pretty_of;
use crate::state::QueueState;

verus! {

/// A body rendered by the generic fallback tiers.
pub enum RenderedBody {
    /// The body parsed as JSON and is shown pretty-printed.
    Json { text: String },
    /// The body is shown as the raw text it was.
    Raw { text: String },
}

/// Render a body that did not fit the expected schema: pretty-printed when
/// it is JSON, raw otherwise. Never a hard failure.
pub fn render_json_or_raw(body: &str) -> (r: RenderedBody)
    ensures
        match pretty_of(body@) {
            Some(p) => r matches RenderedBody::Json { text } && text@ == p,
            None => r matches RenderedBody::Raw { text } && text@ == body@,
        },
{
    match pretty_json(body) {
        Some(text) => RenderedBody::Json { text },
        None => RenderedBody::Raw { text: String::from_str(body) },
    }
}

/// The notice printed above a fallback rendering.
pub fn unexpected_response_notice(r: &RenderedBody) -> (n: String)
    ensures
        n@ == match *r {
            RenderedBody::Json { .. } =>
                "Unexpected response from YTMD -- falling back to unformatted output"@,
            RenderedBody::Raw { .. } =>
                "Unexpected response from YTMD -- falling back to raw output"@,
        },
{
    match r {
        RenderedBody::Json { .. } => String::from_str(
            "Unexpected response from YTMD -- falling back to unformatted output",
        ),
        RenderedBody::Raw { .. } => String::from_str(
            "Unexpected response from YTMD -- falling back to raw output",
        ),
    }
}

/// The decimal digits of a number.
pub open spec fn digit_char(d: nat) -> char {
    if d == 0 { '0' } else if d == 1 { '1' } else if d == 2 { '2' } else if d == 3 { '3' }
    else if d == 4 { '4' } else if d == 5 { '5' } else if d == 6 { '6' } else if d == 7 { '7' }
    else if d == 8 { '8' } else { '9' }
}

/// The decimal rendering of a number, most significant digit first.
pub open spec fn decimal_view(n: nat) -> Seq<char>
    decreases n,
{
    if n < 10 {
        seq![digit_char(n)]
    } else {
        decimal_view(n / 10) + seq![digit_char(n % 10)]
    }
}

fn digit_string(d: u64) -> (r: String)
    requires
        d < 10,
    ensures
        r@ == seq![digit_char(d as nat)],
{
    proof {
        reveal_strlit("0");
        reveal_strlit("1");
        reveal_strlit("2");
        reveal_strlit("3");
        reveal_strlit("4");
        reveal_strlit("5");
        reveal_strlit("6");
        reveal_strlit("7");
        reveal_strlit("8");
        reveal_strlit("9");
    }
    let r = match d {
        0 => String::from_str("0"),
        1 => String::from_str("1"),
        2 => String::from_str("2"),
        3 => String::from_str("3"),
        4 => String::from_str("4"),
        5 => String::from_str("5"),
        6 => String::from_str("6"),
        7 => String::from_str("7"),
        8 => String::from_str("8"),
        _ => String::from_str("9"),
    };
    proof {
        assert(r@ =~= seq![digit_char(d as nat)]);
    }
    r
}

/// Render a number in decimal.
pub fn u64_to_decimal(n: u64) -> (r: String)
    ensures
        r@ == decimal_view(n as nat),
    decreases n,
{
    if n < 10 {
        digit_string(n)
    } else {
        proof {
            assert(n / 10 < n) by (nonlinear_arith)
                requires n >= 10;
        }
        let prefix = u64_to_decimal(n / 10);
        let last = digit_string(n % 10);
        prefix.concat(last.as_str())
    }
}

/// The status line's volume report.
pub fn volume_line(volume: u8) -> (r: String)
    ensures
        r@ == "Volume: "@ + decimal_view(volume as nat) + "%"@,
{
    String::from_str("Volume: ").concat(u64_to_decimal(volume as u64).as_str()).concat("%")
}

/// One playlist per line, shown as its title, then its identifier.
pub open spec fn playlist_lines_view(s: Seq<(String, String)>) -> Seq<char>
    decreases s.len(),
{
    if s.len() == 0 {
        Seq::empty()
    } else {
        playlist_lines_view(s.drop_last()) + s.last().1@ + " -> "@ + s.last().0@ + "\n"@
    }
}

/// Render the playlist listing; each entry is an (identifier, title) pair.
pub fn render_playlists(entries: &Vec<(String, String)>) -> (r: String)
    ensures
        r@ == playlist_lines_view(entries@),
{
    let mut out = String::new();
    let n = entries.len();
    let mut i: usize = 0;
    while i < n
        invariant
            n == entries@.len(),
            i <= n,
            out@ == playlist_lines_view(entries@.take(i as int)),
        decreases n - i,
    {
        out.append(entries[i].1.as_str());
        out.append(" -> ");
        out.append(entries[i].0.as_str());
        out.append("\n");
        proof {
            let s = entries@;
            assert(s.take(i as int + 1).drop_last() =~= s.take(i as int));
            assert(s.take(i as int + 1).last() == s[i as int]);
            assert(out@ =~= playlist_lines_view(s.take(i as int + 1)));
        }
        i += 1;
    }
    proof {
        assert(entries@.take(n as int) =~= entries@);
    }
    out
}

/// One queue entry's line: its index, its title, and a mark when selected.
pub open spec fn queue_item_line_view(title: Seq<char>, selected: bool, idx: nat) -> Seq<char> {
    "<"@ + decimal_view(idx) + "> "@ + title + if selected { " <SELECTED>\n"@ } else { "\n"@ }
}

/// The lines of the user's own queue entries, indices counting from `start`.
pub open spec fn queue_lines_view(items: Seq<crate::state::QueueItemState>, start: nat) -> Seq<char>
    decreases items.len(),
{
    if items.len() == 0 {
        Seq::empty()
    } else {
        queue_lines_view(items.drop_last(), start) + queue_item_line_view(
            items.last().title@,
            items.last().selected,
            (start + items.len() - 1) as nat,
        )
    }
}

/// The lines of the automix entries: like the queue's, never marked selected.
pub open spec fn automix_lines_view(items: Seq<crate::state::QueueItemState>, start: nat) -> Seq<char>
    decreases items.len(),
{
    if items.len() == 0 {
        Seq::empty()
    } else {
        automix_lines_view(items.drop_last(), start) + queue_item_line_view(
            items.last().title@,
            false,
            (start + items.len() - 1) as nat,
        )
    }
}

/// Render the queue listing of the state report: the user's entries, then
/// the automix entries, numbered in one running sequence.
pub fn render_queue(q: &QueueState) -> (r: String)
    requires
        q.items@.len() + q.automix_items@.len() <= u64::MAX,
    ensures
        r@ == "Queue:\n"@ + queue_lines_view(q.items@, 0) + "Automix Queue:\n"@
            + automix_lines_view(q.automix_items@, q.items@.len() as nat),
{
    let mut out = String::from_str("Queue:\n");
    let n = q.items.len();
    let mut i: usize = 0;
    while i < n
        invariant
            n == q.items@.len(),
            i <= n,
            out@ == "Queue:\n"@ + queue_lines_view(q.items@.take(i as int), 0),
        decreases n - i,
    {
        let item = &q.items[i];
        out.append("<");
        let num = u64_to_decimal(i as u64);
        out.append(num.as_str());
        out.append("> ");
        out.append(item.title.as_str());
        if item.selected {
            out.append(" <SELECTED>\n");
        } else {
            out.append("\n");
        }
        proof {
            let s = q.items@;
            assert(s.take(i as int + 1).drop_last() =~= s.take(i as int));
            assert(s.take(i as int + 1).last() == s[i as int]);
            assert(out@ =~= "Queue:\n"@ + queue_lines_view(s.take(i as int + 1), 0));
        }
        i += 1;
    }
    proof {
        assert(q.items@.take(n as int) =~= q.items@);
    }
    out.append("Automix Queue:\n");
    let m = q.automix_items.len();
    let mut j: usize = 0;
    while j < m
        invariant
            n == q.items@.len(),
            m == q.automix_items@.len(),
            j <= m,
            n + m <= u64::MAX,
            out@ == "Queue:\n"@ + queue_lines_view(q.items@, 0) + "Automix Queue:\n"@
                + automix_lines_view(q.automix_items@.take(j as int), n as nat),
        decreases m - j,
    {
        let item = &q.automix_items[j];
        out.append("<");
        let num = u64_to_decimal((n as u64) + (j as u64));
        out.append(num.as_str());
        out.append("> ");
        out.append(item.title.as_str());
        out.append("\n");
        proof {
            let s = q.automix_items@;
            assert(s.take(j as int + 1).drop_last() =~= s.take(j as int));
            assert(s.take(j as int + 1).last() == s[j as int]);
            assert(out@ =~= "Queue:\n"@ + queue_lines_view(q.items@, 0) + "Automix Queue:\n"@
                + automix_lines_view(s.take(j as int + 1), n as nat));
        }
        j += 1;
    }
    proof {
        assert(q.automix_items@.take(m as int) =~= q.automix_items@);
    }
    out
}

} // verus!
