//! What a tool call's card shows of the output and the content of the call.

use vstd::prelude::*;
use vstd::string::*;

use crate::text::{
    cat, chars_of, decimal, decimal_int, decimal_int_text, decimal_text, law_line_feeds_end_lines, lines,
    lines_of, string_of, trim_end, trimmed_end, views,
};
use crate::transcript::{ToolCallContent, ToolCallLocation, ToolCallOutput};

verus! {

/// Output lines on the card of a command that ran.
pub const MAX_TOOL_OUTPUT_LINES: usize = 4;

/// Characters of one output line.
pub const MAX_TOOL_OUTPUT_LINE_CHARS: usize = 240;

/// Output lines of a compact preview.
pub const MAX_TOOL_PREVIEW_LINES: usize = 2;

/// Output lines of one piece of content in a detailed card.
pub const MAX_TOOL_DETAIL_OUTPUT_LINES: usize = 12;

/// Lines of a card's details, the mark of omission among them.
pub const MAX_TOOL_DETAIL_LINES: usize = 32;

/// The first characters of a line, with an ellipsis where more follow.
pub open spec fn clipped(line: Seq<char>) -> Seq<char> {
    if line.len() > MAX_TOOL_OUTPUT_LINE_CHARS {
        line.take(MAX_TOOL_OUTPUT_LINE_CHARS as int) + "…"@
    } else {
        line
    }
}

/// The last `n` elements of `s`, or all of them.
pub open spec fn last_of<A>(s: Seq<A>, n: nat) -> Seq<A> {
    if s.len() > n {
        s.skip(s.len() - n)
    } else {
        s
    }
}

/// Whether some of an output's lines are missing when `n` lines are shown.
pub open spec fn output_omitted(output: ToolCallOutput, n: nat) -> bool {
    output.truncated || lines_of(output.text@).len() > n
}

/// The last `n` lines of an output behind a prefix, under an ellipsis where
/// something is missing.
pub open spec fn output_tail(output: ToolCallOutput, n: nat, prefix: Seq<char>) -> Seq<Seq<char>> {
    let shown = last_of(lines_of(output.text@), n).map_values(
        |line: Seq<char>| prefix + clipped(line),
    );
    if output_omitted(output, n) {
        seq![prefix + "…"@] + shown
    } else {
        shown
    }
}

/// What a detailed card shows of an output: never nothing.
pub open spec fn full_output(output: ToolCallOutput, prefix: Seq<char>) -> Seq<Seq<char>> {
    let tail = output_tail(output, MAX_TOOL_DETAIL_OUTPUT_LINES as nat, prefix);
    if tail.len() == 0 {
        seq![trimmed_end(prefix)]
    } else {
        tail
    }
}

fn clip(line: &str) -> (r: String)
    ensures
        r@ == clipped(line@),
{
    let v = chars_of(line);
    if v.len() > MAX_TOOL_OUTPUT_LINE_CHARS {
        let mut out = string_of(&v, 0, MAX_TOOL_OUTPUT_LINE_CHARS);
        proof {
            assert(v@.subrange(0, MAX_TOOL_OUTPUT_LINE_CHARS as int) =~= line@.take(
                MAX_TOOL_OUTPUT_LINE_CHARS as int,
            ));
        }
        out.append("…");
        out
    } else {
        line.to_owned()
    }
}

fn tail_lines(output: &ToolCallOutput, n: usize, prefix: &str) -> (r: Vec<String>)
    ensures
        views(r@) == output_tail(*output, n as nat, prefix@),
{
    let all = lines(output.text.as_str());
    let ghost source = lines_of(output.text@);
    let omitted = output.truncated || all.len() > n;
    let start: usize = if all.len() > n {
        all.len() - n
    } else {
        0
    };
    let ghost mapped = |line: Seq<char>| prefix@ + clipped(line);
    let ghost head: Seq<Seq<char>> = if omitted {
        seq![prefix@ + "…"@]
    } else {
        Seq::empty()
    };
    let mut out: Vec<String> = Vec::new();
    if omitted {
        out.push(cat(prefix, "…"));
    }
    proof {
        assert(views(out@) =~= head);
        assert(head + source.subrange(start as int, start as int).map_values(mapped) =~= head);
    }
    let mut i: usize = start;
    while i < all.len()
        invariant
            start <= i <= all.len(),
            views(all@) == source,
            mapped == (|line: Seq<char>| prefix@ + clipped(line)),
            views(out@) == head + source.subrange(start as int, i as int).map_values(mapped),
        decreases all.len() - i,
    {
        let ghost before = out@;
        let clipped_line = clip(all[i].as_str());
        out.push(cat(prefix, clipped_line.as_str()));
        proof {
            assert(source[i as int] == all@[i as int]@);
            assert(views(out@) =~= views(before).push(mapped(source[i as int])));
            assert(source.subrange(start as int, i + 1) =~= source.subrange(
                start as int,
                i as int,
            ).push(source[i as int]));
            assert(views(out@) =~= head + source.subrange(start as int, i + 1).map_values(mapped));
        }
        i += 1;
    }
    proof {
        assert(source.subrange(start as int, source.len() as int) =~= last_of(source, n as nat));
        if !omitted {
            assert(head + last_of(source, n as nat).map_values(mapped) =~= last_of(
                source,
                n as nat,
            ).map_values(mapped));
        }
    }
    out
}

/// The tail of a command's output, without a prefix.
pub open spec fn tool_output(output: ToolCallOutput) -> Seq<Seq<char>> {
    output_tail(output, MAX_TOOL_OUTPUT_LINES as nat, Seq::empty())
}

/// The last lines of a command's output, under an ellipsis where something is
/// missing.
pub fn tool_output_lines(output: &ToolCallOutput) -> (r: Vec<String>)
    ensures
        views(r@) == tool_output(*output),
        r.len() <= MAX_TOOL_OUTPUT_LINES + 1,
{
    proof {
        reveal_strlit("");
        assert(""@ =~= Seq::<char>::empty());
    }
    let r = tail_lines(output, MAX_TOOL_OUTPUT_LINES, "");
    proof {
        assert(views(r@).len() == r.len());
    }
    r
}

/// The last lines of an output behind a prefix; at least one row.
pub fn full_output_lines(output: &ToolCallOutput, prefix: &str) -> (r: Vec<String>)
    ensures
        views(r@) == full_output(*output, prefix@),
        1 <= r.len() <= MAX_TOOL_DETAIL_OUTPUT_LINES + 1,
{
    let mut r = tail_lines(output, MAX_TOOL_DETAIL_OUTPUT_LINES, prefix);
    proof {
        assert(views(r@).len() == r.len());
    }
    if r.len() == 0 {
        r.push(trim_end(prefix));
        proof {
            assert(views(r@) =~= seq![trimmed_end(prefix@)]);
        }
    }
    r
}

/// The last lines of an output behind a prefix, for a compact card.
pub fn preview_output_lines(output: &ToolCallOutput, prefix: &str) -> (r: Vec<String>)
    ensures
        views(r@) == output_tail(*output, MAX_TOOL_PREVIEW_LINES as nat, prefix@),
        r.len() <= MAX_TOOL_PREVIEW_LINES + 1,
{
    let r = tail_lines(output, MAX_TOOL_PREVIEW_LINES, prefix);
    proof {
        assert(views(r@).len() == r.len());
    }
    r
}

/// The row of a location: its path, and its line where it has one.
pub open spec fn location_row(location: ToolCallLocation) -> Seq<char> {
    "    "@ + location.path@ + match location.line {
        Some(line) => ":"@ + decimal(line as nat),
        None => Seq::empty(),
    }
}

/// The rows of one piece of content.
pub open spec fn content_rows(item: ToolCallContent, detailed: bool) -> Seq<Seq<char>> {
    match item {
        ToolCallContent::Text(output) => if detailed {
            full_output(output, "    │ "@)
        } else {
            output_tail(output, MAX_TOOL_PREVIEW_LINES as nat, "    │ "@)
        },
        ToolCallContent::Diff { path, old_text, new_text } => {
            let header = seq!["    Δ "@ + path@];
            if detailed {
                match old_text {
                    Some(old) => header + full_output(old, "    - "@) + full_output(
                        new_text,
                        "    + "@,
                    ),
                    None => header + full_output(new_text, "    + "@),
                }
            } else {
                header
            }
        },
        ToolCallContent::Terminal { id, output, exit_code } => {
            let status = match exit_code {
                Some(code) => " · exit "@ + decimal_int(code as int),
                None => Seq::empty(),
            };
            let header = seq!["    $ "@ + id@ + status];
            match output {
                Some(output) if detailed => header + full_output(output, "    │ "@),
                _ => header,
            }
        },
        ToolCallContent::Attachment { label, uri } => {
            let target = match uri {
                Some(uri) => " · "@ + uri@,
                None => Seq::empty(),
            };
            seq!["    ↳ "@ + label@ + target]
        },
    }
}

/// The rows of the locations, in a detailed card only.
pub open spec fn location_rows(locations: Seq<ToolCallLocation>, detailed: bool) -> Seq<Seq<char>> {
    if detailed {
        locations.take(
            if locations.len() < MAX_TOOL_DETAIL_LINES {
                locations.len() as int
            } else {
                MAX_TOOL_DETAIL_LINES as int
            },
        ).map_values(|l: ToolCallLocation| location_row(l))
    } else {
        Seq::empty()
    }
}

/// Every row of a card's details, before any is left out.
pub open spec fn all_detail_rows(
    content: Seq<ToolCallContent>,
    locations: Seq<ToolCallLocation>,
    detailed: bool,
) -> Seq<Seq<char>>
    decreases content.len(),
{
    if content.len() == 0 {
        location_rows(locations, detailed)
    } else {
        all_detail_rows(content.drop_last(), locations, detailed) + content_rows(
            content.last(),
            detailed,
        )
    }
}

/// Whether rows of the details have to be left out: more locations or more
/// rows than fit, or a piece of content that begins where there is no room.
pub open spec fn details_omitted(
    content: Seq<ToolCallContent>,
    locations: Seq<ToolCallLocation>,
    detailed: bool,
) -> bool {
    ||| detailed && locations.len() > MAX_TOOL_DETAIL_LINES
    ||| all_detail_rows(content, locations, detailed).len() > MAX_TOOL_DETAIL_LINES
    ||| exists|k: int|
        0 <= k < content.len() && #[trigger] all_detail_rows(
            content.take(k),
            locations,
            detailed,
        ).len() >= MAX_TOOL_DETAIL_LINES
}

/// The details of a card: all rows, or as many as fit above an ellipsis.
pub open spec fn tool_details(
    content: Seq<ToolCallContent>,
    locations: Seq<ToolCallLocation>,
    detailed: bool,
) -> Seq<Seq<char>> {
    let all = all_detail_rows(content, locations, detailed);
    if details_omitted(content, locations, detailed) {
        all.take(MAX_TOOL_DETAIL_LINES - 1).push("    …"@)
    } else {
        all
    }
}

proof fn lemma_detail_rows_grow(
    content: Seq<ToolCallContent>,
    locations: Seq<ToolCallLocation>,
    detailed: bool,
    k: int,
)
    requires
        0 <= k <= content.len(),
    ensures
        all_detail_rows(content.take(k), locations, detailed).is_prefix_of(
            all_detail_rows(content, locations, detailed),
        ),
    decreases content.len(),
{
    if k == content.len() {
        assert(content.take(k) =~= content);
    } else {
        lemma_detail_rows_grow(content.drop_last(), locations, detailed, k);
        assert(content.drop_last().take(k) =~= content.take(k));
    }
}

/// However much a tool call carries, its details stay within their cap, and a
/// card that leaves something out is full and says so in its last row.
pub proof fn law_details_bounded(
    content: Seq<ToolCallContent>,
    locations: Seq<ToolCallLocation>,
    detailed: bool,
)
    ensures
        tool_details(content, locations, detailed).len() <= MAX_TOOL_DETAIL_LINES,
        details_omitted(content, locations, detailed) ==> {
            &&& tool_details(content, locations, detailed).len() == MAX_TOOL_DETAIL_LINES
            &&& tool_details(content, locations, detailed).last() == "    …"@
        },
{
    let all = all_detail_rows(content, locations, detailed);
    if details_omitted(content, locations, detailed) {
        if detailed && locations.len() > MAX_TOOL_DETAIL_LINES {
            lemma_detail_rows_grow(content, locations, detailed, 0);
            assert(content.take(0) =~= Seq::<ToolCallContent>::empty());
        } else if all.len() <= MAX_TOOL_DETAIL_LINES {
            let k = choose|k: int|
                0 <= k < content.len() && #[trigger] all_detail_rows(
                    content.take(k),
                    locations,
                    detailed,
                ).len() >= MAX_TOOL_DETAIL_LINES;
            lemma_detail_rows_grow(content, locations, detailed, k);
        }
    }
}

proof fn lemma_compact_rows(
    content: Seq<ToolCallContent>,
    a: Seq<ToolCallLocation>,
    b: Seq<ToolCallLocation>,
)
    ensures
        all_detail_rows(content, a, false) == all_detail_rows(content, b, false),
    decreases content.len(),
{
    if content.len() > 0 {
        lemma_compact_rows(content.drop_last(), a, b);
    }
}

/// A compact card says nothing of its locations: its details are the same
/// whatever they are.
pub proof fn law_compact_details_ignore_locations(
    content: Seq<ToolCallContent>,
    a: Seq<ToolCallLocation>,
    b: Seq<ToolCallLocation>,
)
    ensures
        tool_details(content, a, false) == tool_details(content, b, false),
{
    lemma_compact_rows(content, a, b);
    assert forall|k: int| #[trigger]
        all_detail_rows(content.take(k), a, false) == all_detail_rows(content.take(k), b, false) by {
        lemma_compact_rows(content.take(k), a, b);
    }
    assert forall|k: int| #[trigger]
        all_detail_rows(content.take(k), b, false) == all_detail_rows(content.take(k), a, false) by {
        lemma_compact_rows(content.take(k), b, a);
    }
    assert(details_omitted(content, a, false) == details_omitted(content, b, false));
}

/// `out` grown by the strings of `more`.
fn extend(out: &mut Vec<String>, more: Vec<String>)
    ensures
        views(final(out)@) == views(old(out)@) + views(more@),
{
    let mut more = more;
    let ghost a = out@;
    let ghost b = more@;
    out.append(&mut more);
    proof {
        assert(views(a + b) =~= views(a) + views(b));
    }
}

/// `out` grown by one string.
fn add_row(out: &mut Vec<String>, row: String)
    ensures
        views(final(out)@) == views(old(out)@).push(row@),
{
    let ghost a = out@;
    out.push(row);
    proof {
        assert(views(out@) =~= views(a).push(row@));
    }
}

fn location_line(location: &ToolCallLocation) -> (r: String)
    ensures
        r@ == location_row(*location),
{
    let mut row = cat("    ", location.path.as_str());
    let ghost head = row@;
    match location.line {
        Some(line) => {
            let digits = decimal_text(line as u64);
            row.append(":");
            row.append(digits.as_str());
            proof {
                assert(row@ =~= head + (":"@ + decimal(line as nat)));
            }
        },
        None => {
            proof {
                assert(row@ =~= head + Seq::<char>::empty());
            }
        },
    }
    row
}

fn content_lines(item: &ToolCallContent, detailed: bool) -> (r: Vec<String>)
    ensures
        views(r@) == content_rows(*item, detailed),
{
    let mut out: Vec<String> = Vec::new();
    proof {
        assert(views(out@) =~= Seq::<Seq<char>>::empty());
    }
    match item {
        ToolCallContent::Text(output) => {
            out = if detailed {
                full_output_lines(output, "    │ ")
            } else {
                preview_output_lines(output, "    │ ")
            };
        },
        ToolCallContent::Diff { path, old_text, new_text } => {
            add_row(&mut out, cat("    Δ ", path.as_str()));
            proof {
                assert(views(out@) =~= seq!["    Δ "@ + path@]);
            }
            if detailed {
                if let Some(old) = old_text {
                    extend(&mut out, full_output_lines(old, "    - "));
                }
                extend(&mut out, full_output_lines(new_text, "    + "));
            }
        },
        ToolCallContent::Terminal { id, output, exit_code } => {
            let mut row = cat("    $ ", id.as_str());
            let ghost head = row@;
            if let Some(code) = exit_code {
                let digits = decimal_int_text(*code as i64);
                row.append(" · exit ");
                row.append(digits.as_str());
                proof {
                    assert(row@ =~= head + (" · exit "@ + decimal_int(*code as int)));
                }
            } else {
                proof {
                    assert(row@ =~= head + Seq::<char>::empty());
                }
            }
            add_row(&mut out, row);
            proof {
                assert(views(out@) =~= seq![row@]);
            }
            if detailed {
                if let Some(output) = output {
                    extend(&mut out, full_output_lines(output, "    │ "));
                }
            }
        },
        ToolCallContent::Attachment { label, uri } => {
            let mut row = cat("    ↳ ", label.as_str());
            let ghost head = row@;
            if let Some(uri) = uri {
                row.append(" · ");
                row.append(uri.as_str());
                proof {
                    assert(row@ =~= head + (" · "@ + uri@));
                }
            } else {
                proof {
                    assert(row@ =~= head + Seq::<char>::empty());
                }
            }
            add_row(&mut out, row);
            proof {
                assert(views(out@) =~= seq![row@]);
            }
        },
    }
    out
}

fn location_lines(locations: &Vec<ToolCallLocation>, detailed: bool) -> (r: Vec<String>)
    ensures
        views(r@) == location_rows(locations@, detailed),
        r.len() <= MAX_TOOL_DETAIL_LINES,
{
    let mut out: Vec<String> = Vec::new();
    proof {
        assert(views(out@) =~= Seq::<Seq<char>>::empty());
    }
    if detailed {
        let n: usize = if locations.len() < MAX_TOOL_DETAIL_LINES {
            locations.len()
        } else {
            MAX_TOOL_DETAIL_LINES
        };
        let ghost f = |l: ToolCallLocation| location_row(l);
        let mut i: usize = 0;
        proof {
            assert(views(out@) =~= locations@.take(0).map_values(f));
        }
        while i < n
            invariant
                i <= n <= locations.len(),
                f == (|l: ToolCallLocation| location_row(l)),
                views(out@) == locations@.take(i as int).map_values(f),
            decreases n - i,
        {
            add_row(&mut out, location_line(&locations[i]));
            proof {
                assert(locations@.take(i + 1).map_values(f) =~= locations@.take(
                    i as int,
                ).map_values(f).push(f(locations@[i as int])));
            }
            i += 1;
        }
        proof {
            assert(views(out@).len() == out.len());
        }
    }
    out
}

/// The details of a tool call's card.
pub fn tool_detail_lines(
    content: &Vec<ToolCallContent>,
    locations: &Vec<ToolCallLocation>,
    detailed: bool,
) -> (r: Vec<String>)
    ensures
        views(r@) == tool_details(content@, locations@, detailed),
        r.len() <= MAX_TOOL_DETAIL_LINES,
{
    let mut out = location_lines(locations, detailed);
    let mut omitted = detailed && locations.len() > MAX_TOOL_DETAIL_LINES;
    let ghost crowded = omitted;
    let mut i: usize = 0;
    let mut going = true;
    proof {
        assert(content@.take(0) =~= Seq::<ToolCallContent>::empty());
        assert(views(out@).len() == out.len());
    }
    while going && i < content.len()
        invariant
            i <= content.len(),
            crowded == (detailed && locations.len() > MAX_TOOL_DETAIL_LINES),
            views(out@) == all_detail_rows(content@.take(i as int), locations@, detailed),
            going ==> omitted == crowded,
            going ==> out.len() <= MAX_TOOL_DETAIL_LINES,
            going ==> forall|k: int|
                0 <= k < i ==> #[trigger] all_detail_rows(content@.take(k), locations@, detailed).len()
                    < MAX_TOOL_DETAIL_LINES,
            !going ==> omitted && out.len() >= MAX_TOOL_DETAIL_LINES && details_omitted(
                content@,
                locations@,
                detailed,
            ),
        decreases content.len() - i, if going { 1int } else { 0int },
    {
        if out.len() >= MAX_TOOL_DETAIL_LINES {
            proof {
                assert(views(out@).len() == out.len());
                assert(all_detail_rows(content@.take(i as int), locations@, detailed).len()
                    >= MAX_TOOL_DETAIL_LINES);
            }
            omitted = true;
            going = false;
        } else {
            proof {
                assert(views(out@).len() == out.len());
            }
            extend(&mut out, content_lines(&content[i], detailed));
            proof {
                assert(content@.take(i + 1).drop_last() =~= content@.take(i as int));
                assert(content@.take(i + 1).last() == content@[i as int]);
                assert(views(out@).len() == out.len());
            }
            i += 1;
            if out.len() > MAX_TOOL_DETAIL_LINES {
                proof {
                    lemma_detail_rows_grow(content@, locations@, detailed, i as int);
                }
                omitted = true;
                going = false;
            }
        }
    }
    proof {
        law_details_bounded(content@, locations@, detailed);
        lemma_detail_rows_grow(content@, locations@, detailed, i as int);
        assert(views(out@).len() == out.len());
        if going {
            assert(content@.take(i as int) =~= content@);
        }
        assert(omitted == details_omitted(content@, locations@, detailed));
        if omitted && going {
            lemma_detail_rows_grow(content@, locations@, detailed, 0);
            assert(content@.take(0) =~= Seq::<ToolCallContent>::empty());
        }
    }
    if omitted {
        let ghost rows = views(out@);
        out.truncate(MAX_TOOL_DETAIL_LINES - 1);
        proof {
            assert(views(out@) =~= rows.take(MAX_TOOL_DETAIL_LINES - 1));
            assert(rows.take(MAX_TOOL_DETAIL_LINES - 1) =~= all_detail_rows(
                content@,
                locations@,
                detailed,
            ).take(MAX_TOOL_DETAIL_LINES - 1));
        }
        add_row(&mut out, "    …".to_owned());
    }
    proof {
        assert(views(out@).len() == out.len());
    }
    out
}

// ---------------------------------------------------------------------------
// Laws
// ---------------------------------------------------------------------------

/// How many rows an output takes of which at most `n` lines are shown: a row for
/// each line that is shown, and one more where something is missing.
pub open spec fn rows_of(output: ToolCallOutput, n: int) -> int {
    let count = lines_of(output.text@).len();
    (if count < n {
        count as int
    } else {
        n
    }) + (if output.truncated || count > n {
        1int
    } else {
        0
    })
}

/// Whether rows show the end of an output: its last lines, at most `n` of them,
/// each behind the prefix and cut at 240 characters; above them an ellipsis, where
/// and only where something is missing.
pub open spec fn shows_end_of(
    rows: Seq<Seq<char>>,
    output: ToolCallOutput,
    n: int,
    prefix: Seq<char>,
) -> bool {
    let lines = lines_of(output.text@);
    &&& rows.len() == rows_of(output, n)
    &&& output.truncated || lines.len() > n ==> rows[0] == prefix + "…"@
    &&& forall|k: int|
        0 <= k < lines.len() && k < n ==> (#[trigger] rows[rows.len() - 1 - k]) == prefix + (if lines[
        lines.len() - 1 - k].len() <= 240 {
            lines[lines.len() - 1 - k]
        } else {
            lines[lines.len() - 1 - k].take(240) + "…"@
        })
}

proof fn lemma_tail_shows_end(output: ToolCallOutput, n: nat, prefix: Seq<char>)
    ensures
        shows_end_of(output_tail(output, n, prefix), output, n as int, prefix),
{
    let lines = lines_of(output.text@);
    let rows = output_tail(output, n, prefix);
    let shown = last_of(lines, n);
    assert forall|k: int| 0 <= k < lines.len() && k < n implies (#[trigger] rows[rows.len() - 1 - k])
        == prefix + (if lines[lines.len() - 1 - k].len() <= 240 {
        lines[lines.len() - 1 - k]
    } else {
        lines[lines.len() - 1 - k].take(240) + "…"@
    }) by {
        assert(shown[shown.len() - 1 - k] == lines[lines.len() - 1 - k]);
    }
}

/// The card of a command that ran shows the last four lines of its output.
pub proof fn law_a_command_shows_the_end_of_its_output(output: ToolCallOutput)
    ensures
        shows_end_of(tool_output(output), output, 4, Seq::empty()),
{
    lemma_tail_shows_end(output, 4, Seq::empty());
}

proof fn lemma_one_item(item: ToolCallContent, detailed: bool)
    requires
        content_rows(item, detailed).len() <= 32,
    ensures
        tool_details(seq![item], Seq::empty(), detailed) == content_rows(item, detailed),
{
    let content = seq![item];
    let none = Seq::<ToolCallLocation>::empty();
    assert(content.drop_last() =~= Seq::<ToolCallContent>::empty());
    assert(location_rows(none, detailed) =~= Seq::<Seq<char>>::empty());
    assert(all_detail_rows(content.drop_last(), none, detailed) =~= Seq::<Seq<char>>::empty());
    assert(all_detail_rows(content, none, detailed) =~= content_rows(item, detailed));
    assert forall|k: int| 0 <= k < content.len() implies #[trigger] all_detail_rows(
        content.take(k),
        none,
        detailed,
    ).len() < 32 by {
        assert(content.take(k) =~= Seq::<ToolCallContent>::empty());
    }
}

/// Text shows the last two of its lines on a compact card, and the last twelve,
/// or an empty row where it has none, on a detailed one.
pub proof fn law_text_shows_its_end(output: ToolCallOutput)
    ensures
        shows_end_of(
            tool_details(seq![ToolCallContent::Text(output)], Seq::empty(), false),
            output,
            2,
            "    │ "@,
        ),
        rows_of(output, 12) > 0 ==> shows_end_of(
            tool_details(seq![ToolCallContent::Text(output)], Seq::empty(), true),
            output,
            12,
            "    │ "@,
        ),
        rows_of(output, 12) == 0 ==> tool_details(
            seq![ToolCallContent::Text(output)],
            Seq::empty(),
            true,
        ) == seq!["    │"@],
{
    lemma_tail_shows_end(output, 2, "    │ "@);
    lemma_tail_shows_end(output, 12, "    │ "@);
    lemma_bare_prefixes();
    lemma_one_item(ToolCallContent::Text(output), false);
    lemma_one_item(ToolCallContent::Text(output), true);
}

proof fn lemma_bare_prefixes()
    ensures
        trimmed_end("    │ "@) == "    │"@,
        trimmed_end("    - "@) == "    -"@,
        trimmed_end("    + "@) == "    +"@,
{
    reveal_strlit("    │ ");
    reveal_strlit("    │");
    reveal_strlit("    - ");
    reveal_strlit("    -");
    reveal_strlit("    + ");
    reveal_strlit("    +");
    reveal_with_fuel(trimmed_end, 2);
    assert("    │ "@.drop_last() =~= "    │"@);
    assert("    - "@.drop_last() =~= "    -"@);
    assert("    + "@.drop_last() =~= "    +"@);
}

/// Whether rows show a side of a difference: the end of its text behind its sign,
/// or the sign alone where there is no text.
pub open spec fn shows_side(rows: Seq<Seq<char>>, text: ToolCallOutput, sign: Seq<char>) -> bool {
    if rows_of(text, 12) > 0 {
        shows_end_of(rows, text, 12, "    "@ + sign + " "@)
    } else {
        rows == seq!["    "@ + sign]
    }
}

/// How many rows a side of a difference takes.
pub open spec fn side_height(text: ToolCallOutput) -> int {
    if rows_of(text, 12) > 0 {
        rows_of(text, 12)
    } else {
        1
    }
}

/// A detailed card shows a difference as the path, then what goes behind minus
/// signs, then what comes behind plus signs; a compact one shows the path alone.
pub proof fn law_differences_say_what_goes_and_what_comes(
    path: String,
    old_text: Option<ToolCallOutput>,
    new_text: ToolCallOutput,
)
    ensures
        ({
            let content = seq![ToolCallContent::Diff { path, old_text, new_text }];
            let rows = tool_details(content, Seq::empty(), true);
            let gone: int = match old_text {
                Some(old) => side_height(old),
                None => 0,
            };
            &&& rows.len() == 1 + gone + side_height(new_text)
            &&& rows[0] == "    Δ "@ + path@
            &&& old_text is Some ==> shows_side(rows.subrange(1, 1 + gone), old_text->0, "-"@)
            &&& shows_side(rows.skip(1 + gone), new_text, "+"@)
            &&& tool_details(content, Seq::empty(), false) == seq!["    Δ "@ + path@]
        }),
{
    let item = ToolCallContent::Diff { path, old_text, new_text };
    lemma_bare_prefixes();
    reveal_strlit("    ");
    reveal_strlit("-");
    reveal_strlit("+");
    reveal_strlit(" ");
    reveal_strlit("    - ");
    reveal_strlit("    + ");
    reveal_strlit("    -");
    reveal_strlit("    +");
    assert("    "@ + "-"@ + " "@ =~= "    - "@);
    assert("    "@ + "+"@ + " "@ =~= "    + "@);
    assert("    "@ + "-"@ =~= "    -"@);
    assert("    "@ + "+"@ =~= "    +"@);
    lemma_tail_shows_end(new_text, 12, "    + "@);
    let come = full_output(new_text, "    + "@);
    assert(come.len() == side_height(new_text));
    let header = seq!["    Δ "@ + path@];
    match old_text {
        Some(old) => {
            lemma_tail_shows_end(old, 12, "    - "@);
            let gone = full_output(old, "    - "@);
            assert(gone.len() == side_height(old));
            lemma_one_item(item, true);
            let rows = header + gone + come;
            assert(rows.subrange(1, gone.len() + 1int) =~= gone);
            assert(rows.skip(gone.len() + 1int) =~= come);
        },
        None => {
            lemma_one_item(item, true);
            assert((header + come).skip(1) =~= come);
        },
    }
    lemma_one_item(item, false);
}

/// A difference of one line: the line that goes stands behind a minus sign, the
/// one that comes behind a plus sign.
pub proof fn law_a_changed_line_is_shown_twice(
    path: String,
    old_text: ToolCallOutput,
    new_text: ToolCallOutput,
)
    requires
        !old_text.truncated && !new_text.truncated,
        0 < old_text.text@.len() <= 240 && !old_text.text@.contains('\n'),
        0 < new_text.text@.len() <= 240 && !new_text.text@.contains('\n'),
    ensures
        tool_details(
            seq![ToolCallContent::Diff { path, old_text: Some(old_text), new_text }],
            Seq::empty(),
            true,
        ) == seq![
            "    Δ "@ + path@,
            "    - "@ + old_text.text@,
            "    + "@ + new_text.text@,
        ],
{
    law_line_feeds_end_lines(old_text.text@, Seq::empty());
    law_line_feeds_end_lines(new_text.text@, Seq::empty());
    let item = ToolCallContent::Diff { path, old_text: Some(old_text), new_text };
    lemma_tail_shows_end(old_text, 12, "    - "@);
    lemma_tail_shows_end(new_text, 12, "    + "@);
    let gone = full_output(old_text, "    - "@);
    let come = full_output(new_text, "    + "@);
    assert(gone[gone.len() - 1 - 0] == "    - "@ + old_text.text@);
    assert(come[come.len() - 1 - 0] == "    + "@ + new_text.text@);
    lemma_one_item(item, true);
    assert(content_rows(item, true) =~= seq![
        "    Δ "@ + path@,
        "    - "@ + old_text.text@,
        "    + "@ + new_text.text@,
    ]);
}

/// A terminal shows its id and, once it has ended, its exit code; a detailed card
/// shows the end of its output below.
pub proof fn law_terminals_show_how_they_ended(
    id: String,
    output: Option<ToolCallOutput>,
    exit_code: Option<i32>,
)
    ensures
        ({
            let content = seq![ToolCallContent::Terminal { id, output, exit_code }];
            let rows = tool_details(content, Seq::empty(), true);
            let compact = tool_details(content, Seq::empty(), false);
            &&& compact.len() == 1
            &&& rows[0] == compact[0]
            &&& exit_code is None ==> compact[0] == "    $ "@ + id@
            &&& exit_code is Some ==> compact[0] == "    $ "@ + id@ + (" · exit "@ + decimal_int(
                exit_code->0 as int,
            ))
            &&& output is None ==> rows.len() == 1
            &&& output is Some && rows_of(output->0, 12) > 0 ==> shows_end_of(
                rows.skip(1),
                output->0,
                12,
                "    │ "@,
            )
        }),
{
    let item = ToolCallContent::Terminal { id, output, exit_code };
    assert("    $ "@ + id@ + Seq::<char>::empty() =~= "    $ "@ + id@);
    lemma_one_item(item, false);
    if let Some(o) = output {
        lemma_tail_shows_end(o, 12, "    │ "@);
        lemma_bare_prefixes();
        assert(content_rows(item, true).skip(1) =~= full_output(o, "    │ "@));
    }
    lemma_one_item(item, true);
}

/// An attachment is one row: its label, and where it leads.
pub proof fn law_attachments_take_one_row(label: String, uri: Option<String>, detailed: bool)
    ensures
        tool_details(
            seq![ToolCallContent::Attachment { label, uri }],
            Seq::empty(),
            detailed,
        ) == seq![
            match uri {
                Some(uri) => "    ↳ "@ + label@ + (" · "@ + uri@),
                None => "    ↳ "@ + label@,
            },
        ],
{
    let item = ToolCallContent::Attachment { label, uri };
    assert("    ↳ "@ + label@ + Seq::<char>::empty() =~= "    ↳ "@ + label@);
    lemma_one_item(item, detailed);
}

/// A detailed card without content shows its locations, one a row, in their
/// order.
pub proof fn law_locations_are_listed(locations: Seq<ToolCallLocation>)
    requires
        locations.len() <= 32,
    ensures
        ({
            let rows = tool_details(Seq::empty(), locations, true);
            &&& rows.len() == locations.len()
            &&& forall|i: int|
                0 <= i < locations.len() ==> #[trigger] rows[i] == match locations[i].line {
                    Some(line) => "    "@ + locations[i].path@ + (":"@ + decimal(line as nat)),
                    None => "    "@ + locations[i].path@,
                }
        }),
{
    assert(locations.take(locations.len() as int) =~= locations);
    let rows = tool_details(Seq::empty(), locations, true);
    assert forall|i: int| 0 <= i < locations.len() implies #[trigger] rows[i] == match locations[
    i].line {
        Some(line) => "    "@ + locations[i].path@ + (":"@ + decimal(line as nat)),
        None => "    "@ + locations[i].path@,
    } by {
        assert("    "@ + locations[i].path@ + Seq::<char>::empty() =~= "    "@ + locations[i].path@);
    }
}

/// The rows of one more piece of content stand below all the others, as they
/// would on a card of their own, as long as there is room.
pub proof fn law_contents_stand_below_each_other(
    content: Seq<ToolCallContent>,
    item: ToolCallContent,
    locations: Seq<ToolCallLocation>,
    detailed: bool,
)
    requires
        tool_details(content.push(item), locations, detailed).len() < 32,
    ensures
        tool_details(content.push(item), locations, detailed) == tool_details(
            content,
            locations,
            detailed,
        ) + tool_details(seq![item], Seq::empty(), detailed),
{
    let more = content.push(item);
    law_details_bounded(more, locations, detailed);
    assert(more.drop_last() =~= content);
    lemma_one_item(item, detailed);
    assert forall|k: int| 0 <= k < content.len() implies #[trigger] all_detail_rows(
        content.take(k),
        locations,
        detailed,
    ).len() < 32 by {
        assert(more.take(k) =~= content.take(k));
        assert(all_detail_rows(more.take(k), locations, detailed).len() < 32);
    }
}

proof fn lemma_omitted_is_full(
    content: Seq<ToolCallContent>,
    locations: Seq<ToolCallLocation>,
    detailed: bool,
)
    requires
        details_omitted(content, locations, detailed),
    ensures
        all_detail_rows(content, locations, detailed).len() >= 32,
{
    let all = all_detail_rows(content, locations, detailed);
    if detailed && locations.len() > 32 {
        lemma_detail_rows_grow(content, locations, detailed, 0);
        assert(content.take(0) =~= Seq::<ToolCallContent>::empty());
    } else if all.len() <= 32 {
        let k = choose|k: int|
            0 <= k < content.len() && #[trigger] all_detail_rows(
                content.take(k),
                locations,
                detailed,
            ).len() >= 32;
        lemma_detail_rows_grow(content, locations, detailed, k);
    }
}

/// What stands on a card stays where it is when more content comes: the first
/// rows are the same.
pub proof fn law_more_content_keeps_the_rows_above(
    content: Seq<ToolCallContent>,
    item: ToolCallContent,
    locations: Seq<ToolCallLocation>,
    detailed: bool,
    i: int,
)
    requires
        0 <= i < 31,
        i < tool_details(content, locations, detailed).len(),
    ensures
        tool_details(content.push(item), locations, detailed).len() > i,
        tool_details(content.push(item), locations, detailed)[i] == tool_details(
            content,
            locations,
            detailed,
        )[i],
{
    let more = content.push(item);
    law_details_bounded(more, locations, detailed);
    law_details_bounded(content, locations, detailed);
    assert(more.drop_last() =~= content);
    if details_omitted(content, locations, detailed) {
        lemma_omitted_is_full(content, locations, detailed);
    }
    if details_omitted(more, locations, detailed) {
        lemma_omitted_is_full(more, locations, detailed);
    }
}

} // verus!
