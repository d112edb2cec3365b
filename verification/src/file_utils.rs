//! Lists of URLs, and the command lines of the tools that downloads are
//! compared with.

use crate::error::{ErrorCode, ErrorKind, RuGetError};
use crate::text::{chars_of, find_char, first_index, str_eq, string_of, trim_range, trimmed};
use vstd::prelude::*;

verus! {

/// A line of a URL list counts if, trimmed, it is not empty and is no
/// comment, that is, does not begin with `#`.
pub open spec fn is_url_line(line: Seq<char>) -> bool {
    line.len() > 0 && line[0] != '#'
}

/// The URLs of a list: the text is split at line feeds, each line is
/// trimmed, and the lines that count are kept in their order.
pub open spec fn spec_url_lines(text: Seq<char>) -> Seq<Seq<char>>
    decreases text.len(),
{
    let end = first_index(text, '\n');
    let line = trimmed(text.take(end));
    let head = if is_url_line(line) {
        seq![line]
    } else {
        Seq::empty()
    };
    if 0 <= end < text.len() {
        head + spec_url_lines(text.skip(end + 1))
    } else {
        head
    }
}

/// The lines as plain text.
pub open spec fn lines_text(lines: Seq<String>) -> Seq<Seq<char>> {
    lines.map_values(|s: String| s@)
}

/// The URLs in the contents of a list file. Empty lines and comments
/// (lines starting with `#`) are left out.
pub fn parse_url_lines(contents: &str) -> (r: Vec<String>)
    ensures
        lines_text(r@) == spec_url_lines(contents@),
{
    let cs = chars_of(contents);
    let mut out: Vec<String> = Vec::new();
    let mut pos: usize = 0;
    proof {
        assert(cs@.skip(0) =~= cs@);
        assert(lines_text(out@) =~= Seq::<Seq<char>>::empty());
    }
    loop
        invariant_except_break
            pos <= cs.len(),
            lines_text(out@) + spec_url_lines(cs@.skip(pos as int)) == spec_url_lines(cs@),
        invariant
            cs@ == contents@,
        ensures
            lines_text(out@) == spec_url_lines(cs@),
        decreases cs.len() - pos,
    {
        let rest = vstd::slice::slice_subrange(cs.as_slice(), pos, cs.len());
        assert(rest@ =~= cs@.skip(pos as int));
        let found = find_char(rest, '\n');
        let end = match found {
            Some(i) => i,
            None => rest.len(),
        };
        let line = vstd::slice::slice_subrange(rest, 0, end);
        assert(line@ =~= rest@.take(end as int));
        let (from, to) = trim_range(line);
        let ghost before = lines_text(out@);
        let ghost head = if is_url_line(trimmed(line@)) {
            seq![trimmed(line@)]
        } else {
            Seq::<Seq<char>>::empty()
        };
        if to > from && line[from] != '#' {
            let s = string_of(line, from, to);
            out.push(s);
            proof {
                assert(line@.subrange(from as int, to as int)[0] == line@[from as int]);
                assert(lines_text(out@) =~= before + head);
            }
        } else {
            proof {
                if to > from {
                    assert(line@.subrange(from as int, to as int)[0] == line@[from as int]);
                }
                assert(lines_text(out@) =~= before + head);
            }
        }
        if found.is_some() {
            proof {
                assert(rest@.skip(end + 1) =~= cs@.skip(pos + end + 1));
                assert(before + (head + spec_url_lines(rest@.skip(end + 1))) =~= (before + head)
                    + spec_url_lines(rest@.skip(end + 1)));
            }
            pos = pos + end + 1;
        } else {
            proof {
                assert(before + head =~= spec_url_lines(cs@));
            }
            break ;
        }
    }
    out
}

/// The command line of a tool for one download.
pub open spec fn spec_download_cmd(tool: Seq<char>, url: Seq<char>, file: Seq<char>) -> Option<
    Seq<char>,
> {
    if tool == "ruget"@ {
        Some("\"$RUGET_BIN\" \""@ + url + "\" --output \""@ + file + "\" --quiet"@)
    } else if tool == "curl"@ {
        Some("\"$CURL_BIN\" -s -o \""@ + file + "\" \""@ + url + "\""@)
    } else if tool == "wget"@ {
        Some("\"$WGET_BIN\" -q -O \""@ + file + "\" \""@ + url + "\""@)
    } else {
        None
    }
}

/// Tool-specific download command builder. Returns the exact command line
/// for `ruget`, `curl` and `wget`, and a parse error that names the tool for
/// any other.
pub fn download_cmd(tool: &str, url: &str, file: &str) -> (r: Result<String, RuGetError>)
    ensures
        r is Ok <==> spec_download_cmd(tool@, url@, file@) is Some,
        r matches Ok(cmd) ==> Some(cmd@) == spec_download_cmd(tool@, url@, file@),
        r matches Err(e) ==> e.is_plain(
            ErrorCode::E501,
            ErrorKind::Parse,
            "Parse error: "@ + ("Unknown tool '"@ + tool@
                + "'. Supported tools: ruget, curl, wget"@),
        ),
{
    if str_eq(tool, "ruget") {
        let mut s = String::from_str("\"$RUGET_BIN\" \"");
        s.append(url);
        s.append("\" --output \"");
        s.append(file);
        s.append("\" --quiet");
        Ok(s)
    } else if str_eq(tool, "curl") {
        let mut s = String::from_str("\"$CURL_BIN\" -s -o \"");
        s.append(file);
        s.append("\" \"");
        s.append(url);
        s.append("\"");
        Ok(s)
    } else if str_eq(tool, "wget") {
        let mut s = String::from_str("\"$WGET_BIN\" -q -O \"");
        s.append(file);
        s.append("\" \"");
        s.append(url);
        s.append("\"");
        Ok(s)
    } else {
        let mut m = String::from_str("Unknown tool '");
        m.append(tool);
        m.append("'. Supported tools: ruget, curl, wget");
        Err(RuGetError::parse(m))
    }
}

} // verus!
