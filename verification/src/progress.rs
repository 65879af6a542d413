//! Parsing of sldl log output into progress metrics.

use vstd::prelude::*;

use crate::job::{empty_progress, ParsedProgress, ProgressView, Ratio};
use crate::text::{
    chars_of, contains, contains_chars, find, find_chars, lines, parse_usize,
    parse_usize_chars, slice_chars, split_lines, split_whitespace_chars, split_ws, starts_with,
    starts_with_chars, string_of, trim, trim_chars, views,
};

verus! {

/// Counters of a "Downloaded X of Total Y" line (words 1 and 4 after
/// "Downloaded"), and the percentage they give, capped at 100%.
pub open spec fn with_downloaded_line(p: ProgressView, line: Seq<char>) -> ProgressView {
    match find(line, "Downloaded"@) {
        Some(start) => {
            let parts = split_ws(line.skip(start));
            if parts.len() >= 6 {
                let d = match parse_usize(parts[1]) {
                    Some(d) => d,
                    None => p.downloaded,
                };
                let t = match parse_usize(parts[4]) {
                    Some(t) => t,
                    None => p.total,
                };
                ProgressView {
                    downloaded: d,
                    total: t,
                    percent: if t > 0 {
                        Some(Ratio { part: if d <= t { d } else { t }, whole: t })
                    } else {
                        p.percent
                    },
                    ..p
                }
            } else {
                p
            }
        },
        None => p,
    }
}

/// The failure count of a "Downloaded X, Failed Y of Total Z" line.
pub open spec fn with_failed_line(p: ProgressView, line: Seq<char>) -> ProgressView {
    match find(line, "Downloaded"@) {
        Some(start) => {
            let rest = line.skip(start);
            match find(rest, "Failed"@) {
                Some(fi) => {
                    let parts = split_ws(rest.skip(fi));
                    if parts.len() >= 2 {
                        match parse_usize(parts[1]) {
                            Some(f) => ProgressView { failed: f, ..p },
                            None => p,
                        }
                    } else {
                        p
                    }
                },
                None => p,
            }
        },
        None => p,
    }
}

/// What one log line contributes to the progress read so far.
pub open spec fn apply_line(p: ProgressView, line: Seq<char>) -> ProgressView {
    let p1 = with_downloaded_line(p, line);
    let p2 = with_failed_line(p1, line);
    let p3 = if starts_with(line, "Not found:"@) {
        ProgressView { not_found: (p2.not_found + 1) as usize, ..p2 }
    } else {
        p2
    };
    let p4 = if starts_with(line, "Searching:"@) {
        ProgressView {
            current_track: Some(trim(line.skip(10))),
            current_action: Some("searching"@),
            ..p3
        }
    } else {
        p3
    };
    let p5 = if starts_with(line, "Initialize:"@) {
        ProgressView { current_action: Some("downloading"@), ..p4 }
    } else {
        p4
    };
    if contains(line, "complete"@) || contains(line, "Succeeded"@) {
        ProgressView { current_action: Some("finishing"@), ..p5 }
    } else {
        p5
    }
}

/// The progress read from a list of lines, last line first: earlier lines
/// override what later lines said, except that "Not found:" lines add up.
pub open spec fn progress_of_lines(ls: Seq<Seq<char>>) -> ProgressView
    decreases ls.len(),
{
    if ls.len() == 0 {
        empty_progress()
    } else {
        apply_line(progress_of_lines(ls.drop_first()), ls[0])
    }
}

/// The progress described by a log tail.
pub open spec fn progress_of(log_tail: Seq<char>) -> ProgressView {
    progress_of_lines(lines(log_tail))
}

/// The "Not found:" count never exceeds the number of lines read.
pub proof fn lemma_not_found_bound(ls: Seq<Seq<char>>)
    requires
        ls.len() <= usize::MAX,
    ensures
        progress_of_lines(ls).not_found <= ls.len(),
    decreases ls.len(),
{
    if ls.len() > 0 {
        lemma_not_found_bound(ls.drop_first());
    }
}

/// A percentage between 0% and 100%.
pub open spec fn percent_in_range(r: Option<Ratio>) -> bool {
    r matches Some(q) ==> 0 < q.whole && q.part <= q.whole
}

/// Every percentage read from a log lies between 0% and 100%.
pub proof fn lemma_percent_in_range(ls: Seq<Seq<char>>)
    ensures
        percent_in_range(progress_of_lines(ls).percent),
    decreases ls.len(),
{
    if ls.len() > 0 {
        lemma_percent_in_range(ls.drop_first());
    }
}

/// Applies one log line to the progress read so far.
fn apply_line_exec(p: &mut ParsedProgress, line: &[char])
    requires
        old(p).not_found < usize::MAX,
    ensures
        final(p)@ == apply_line(old(p)@, line@),
{
    let ghost p0 = p@;
    let downloaded_pat = chars_of("Downloaded");
    // "Downloaded X of Total Y (Z%)"
    match find_chars(line, &downloaded_pat) {
        Some(start) => {
            let rest = slice_chars(line, start, line.len());
            let parts = split_whitespace_chars(&rest);
            proof {
                assert(rest@ == line@.skip(start as int));
            }
            if parts.len() >= 6 {
                proof {
                    assert(parts@[1]@ == views(parts@)[1]);
                    assert(parts@[4]@ == views(parts@)[4]);
                }
                match parse_usize_chars(&parts[1]) {
                    Some(d) => {
                        p.downloaded = d;
                    },
                    None => {},
                }
                match parse_usize_chars(&parts[4]) {
                    Some(t) => {
                        p.total = t;
                    },
                    None => {},
                }
                if p.total > 0 {
                    let part = if p.downloaded <= p.total {
                        p.downloaded
                    } else {
                        p.total
                    };
                    p.percent = Some(Ratio { part, whole: p.total });
                }
            }
        },
        None => {},
    }
    assert(p@ == with_downloaded_line(p0, line@));
    let ghost p1 = p@;
    // "Downloaded X, Failed Y of Total Z"
    match find_chars(line, &downloaded_pat) {
        Some(start) => {
            let rest = slice_chars(line, start, line.len());
            proof {
                assert(rest@ == line@.skip(start as int));
            }
            match find_chars(&rest, &chars_of("Failed")) {
                Some(fi) => {
                    let failed_part = slice_chars(&rest, fi, rest.len());
                    proof {
                        assert(failed_part@ == rest@.skip(fi as int));
                    }
                    let parts = split_whitespace_chars(&failed_part);
                    if parts.len() >= 2 {
                        proof {
                            assert(parts@[1]@ == views(parts@)[1]);
                        }
                        match parse_usize_chars(&parts[1]) {
                            Some(f) => {
                                p.failed = f;
                            },
                            None => {},
                        }
                    }
                },
                None => {},
            }
        },
        None => {},
    }
    assert(p@ == with_failed_line(p1, line@));
    // "Not found: Artist - Title (length)"
    if starts_with_chars(line, &chars_of("Not found:")) {
        p.not_found = p.not_found + 1;
    }
    // "Searching: Artist - Title"
    if starts_with_chars(line, &chars_of("Searching:")) {
        proof {
            reveal_strlit("Searching:");
        }
        let tail = slice_chars(line, 10, line.len());
        proof {
            assert(tail@ == line@.skip(10));
        }
        let track = trim_chars(&tail);
        p.current_track = Some(string_of(&track));
        p.current_action = Some(String::from_str("searching"));
    }
    // "Initialize: ..."
    if starts_with_chars(line, &chars_of("Initialize:")) {
        p.current_action = Some(String::from_str("downloading"));
    }
    // "All downloads complete" or similar
    if contains_chars(line, &chars_of("complete")) || contains_chars(line, &chars_of("Succeeded")) {
        p.current_action = Some(String::from_str("finishing"));
    }
}

/// Parses an sldl log tail for progress metrics, reading the lines from
/// the last to the first.
pub fn parse_progress(log_tail: &str) -> (p: ParsedProgress)
    ensures
        p@ == progress_of(log_tail@),
        percent_in_range(p.percent),
{
    let text = chars_of(log_tail);
    let ls = split_lines(&text);
    let ghost v = views(ls@);
    let mut p = ParsedProgress::new();
    let mut i = ls.len();
    assert(v.skip(i as int) == Seq::<Seq<char>>::empty());
    while i > 0
        invariant
            i <= ls.len(),
            v == views(ls@),
            v.len() == ls.len(),
            p@ == progress_of_lines(v.skip(i as int)),
        decreases i,
    {
        i = i - 1;
        proof {
            assert(v.skip(i as int).drop_first() == v.skip(i + 1));
            assert(v.skip(i as int)[0] == ls@[i as int]@);
            lemma_not_found_bound(v.skip(i + 1));
        }
        apply_line_exec(&mut p, &ls[i]);
    }
    assert(v.skip(0) == v);
    proof {
        lemma_percent_in_range(v);
    }
    p
}

} // verus!
