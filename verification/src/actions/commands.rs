//! Command lines for the file manager and the folder picker.

use crate::actions::clipboard::Platform;
use crate::text::{slice_to_string, string_views, to_chars, trim, trim_bounds};
use vstd::prelude::*;

verus! {

/// The command that shows a path in the file manager: a folder itself, a file
/// selected in its folder, or where that cannot be asked for the folder alone.
/// `None` where there is no folder to show.
pub open spec fn reveal_words(
    platform: Platform,
    path: Seq<char>,
    parent: Option<Seq<char>>,
    directory: bool,
) -> Option<Seq<Seq<char>>> {
    match platform {
        Platform::Windows => if directory {
            Some(seq!["explorer"@, path])
        } else {
            Some(seq!["explorer"@, "/select,"@ + path])
        },
        Platform::MacOs => if directory {
            Some(seq!["open"@, path])
        } else {
            Some(seq!["open"@, "-R"@, path])
        },
        Platform::Unix => if directory {
            Some(seq!["xdg-open"@, path])
        } else {
            match parent {
                Some(parent) => Some(seq!["xdg-open"@, parent]),
                None => None,
            }
        },
    }
}

fn words2(a: &str, b: &str) -> (res: Vec<String>)
    ensures
        string_views(res@) == seq![a@, b@],
{
    let mut out: Vec<String> = Vec::new();
    out.push(a.to_owned());
    out.push(b.to_owned());
    assert(string_views(out@) =~= seq![a@, b@]);
    out
}

/// The command that shows a path in the file manager.
pub fn reveal_command(platform: Platform, path: &str, parent: Option<&str>, directory: bool) -> (res:
    Option<Vec<String>>)
    ensures
        ({
            let wanted = reveal_words(
                platform,
                path@,
                match parent {
                    Some(parent) => Some(parent@),
                    None => None,
                },
                directory,
            );
            match res {
                Some(argv) => wanted == Some(string_views(argv@)),
                None => wanted is None,
            }
        }),
{
    match platform {
        Platform::Windows => if directory {
            Some(words2("explorer", path))
        } else {
            let mut select: String = "/select,".to_owned();
            select.append(path);
            Some(words2("explorer", select.as_str()))
        },
        Platform::MacOs => if directory {
            Some(words2("open", path))
        } else {
            let mut argv: Vec<String> = Vec::new();
            argv.push("open".to_owned());
            argv.push("-R".to_owned());
            argv.push(path.to_owned());
            assert(string_views(argv@) =~= seq!["open"@, "-R"@, path@]);
            Some(argv)
        },
        Platform::Unix => if directory {
            Some(words2("xdg-open", path))
        } else {
            match parent {
                Some(parent) => Some(words2("xdg-open", parent)),
                None => None,
            }
        },
    }
}

/// The program that opens a path with the application that belongs to it.
pub open spec fn opener(platform: Platform) -> Seq<char> {
    match platform {
        Platform::Windows => "explorer"@,
        Platform::MacOs => "open"@,
        Platform::Unix => "xdg-open"@,
    }
}

/// The command that opens a path with the application that belongs to it.
pub fn open_command(platform: Platform, path: &str) -> (res: Vec<String>)
    ensures
        string_views(res@) == seq![opener(platform), path@],
{
    match platform {
        Platform::Windows => words2("explorer", path),
        Platform::MacOs => words2("open", path),
        Platform::Unix => words2("xdg-open", path),
    }
}

// ---- The folder picker of macOS ----

/// The first `n` characters as they are written between double quotes in
/// AppleScript.
pub open spec fn escaped(s: Seq<char>, n: int) -> Seq<char>
    decreases n,
{
    if n <= 0 {
        Seq::empty()
    } else if s[n - 1] == '\\' || s[n - 1] == '"' {
        escaped(s, n - 1) + seq!['\\', s[n - 1]]
    } else {
        escaped(s, n - 1).push(s[n - 1])
    }
}

/// A text as it is written between double quotes in AppleScript.
pub fn applescript_escape(text: &str) -> (res: String)
    ensures
        res@ == escaped(text@, text@.len() as int),
{
    let s: Vec<char> = to_chars(text);
    let mut out: String = String::new();
    let mut i: usize = 0;
    assert(out@ =~= escaped(s@, 0));
    while i < s.len()
        invariant
            i <= s@.len(),
            s@ == text@,
            out@ == escaped(s@, i as int),
        decreases s@.len() - i,
    {
        let ghost before: Seq<char> = out@;
        let c: char = s[i];
        if c == '\\' || c == '"' {
            out.push('\\');
            out.push(c);
            assert(out@ =~= before + seq!['\\', c]);
        } else {
            out.push(c);
        }
        i += 1;
    }
    out
}

/// What is read between double quotes, from position `i` on: a backslash makes
/// the next character ordinary. `None` where a quote stands bare or a backslash
/// last.
pub open spec fn unescaped(s: Seq<char>, i: int) -> Option<Seq<char>>
    decreases s.len() - i,
{
    if i < 0 || i >= s.len() {
        Some(Seq::empty())
    } else if s[i] == '"' {
        None
    } else if s[i] == '\\' {
        if i + 1 < s.len() {
            match unescaped(s, i + 2) {
                Some(rest) => Some(seq![s[i + 1]] + rest),
                None => None,
            }
        } else {
            None
        }
    } else {
        match unescaped(s, i + 1) {
            Some(rest) => Some(seq![s[i]] + rest),
            None => None,
        }
    }
}

proof fn lemma_unescaped_from(text: Seq<char>, n: int)
    requires
        0 <= n <= text.len(),
    ensures
        0 <= escaped(text, n).len() <= escaped(text, text.len() as int).len(),
        escaped(text, text.len() as int).take(escaped(text, n).len() as int) == escaped(text, n),
        unescaped(escaped(text, text.len() as int), escaped(text, n).len() as int) == Some(
            text.skip(n),
        ),
    decreases text.len() - n,
{
    let whole = escaped(text, text.len() as int);
    let here = escaped(text, n);
    if n < text.len() {
        lemma_unescaped_from(text, n + 1);
        let next = escaped(text, n + 1);
        let c = text[n];
        let rest = text.skip(n + 1);
        assert(whole.take(next.len() as int) == next);
        assert(text.skip(n) =~= seq![c] + rest);
        if c == '\\' || c == '"' {
            assert(next == here + seq!['\\', c]);
            assert(whole[here.len() as int] == next[here.len() as int]);
            assert(whole[here.len() as int + 1] == next[here.len() as int + 1]);
            assert(whole.take(here.len() as int) =~= here) by {
                assert forall|k: int| 0 <= k < here.len() implies whole[k] == here[k] by {
                    assert(whole.take(next.len() as int)[k] == whole[k]);
                }
            }
        } else {
            assert(next == here.push(c));
            assert(whole[here.len() as int] == next[here.len() as int]);
            assert(whole.take(here.len() as int) =~= here) by {
                assert forall|k: int| 0 <= k < here.len() implies whole[k] == here[k] by {
                    assert(whole.take(next.len() as int)[k] == whole[k]);
                }
            }
        }
    } else {
        assert(whole.take(whole.len() as int) =~= whole);
        assert(text.skip(n) =~= Seq::empty());
    }
}

/// An escaped text stays between its quotes and reads as it was.
pub proof fn law_escaped_text_is_read_back(text: Seq<char>)
    ensures
        unescaped(escaped(text, text.len() as int), 0) == Some(text),
{
    lemma_unescaped_from(text, 0);
    assert(text.skip(0) =~= text);
}

/// The script that asks for a folder, starting where `start` is if that is
/// there.
pub open spec fn picker_script_text(start: Option<Seq<char>>) -> Seq<char> {
    "POSIX path of (choose folder with prompt \"Open Folder\""@ + (match start {
        Some(start) => " default location POSIX file \""@ + escaped(start, start.len() as int)
            + "\""@,
        None => Seq::empty(),
    }) + ")"@
}

pub fn picker_script(start: Option<&str>) -> (res: String)
    ensures
        res@ == picker_script_text(
            match start {
                Some(start) => Some(start@),
                None => None,
            },
        ),
{
    let mut out: String = "POSIX path of (choose folder with prompt \"Open Folder\"".to_owned();
    match start {
        Some(start) => {
            let ghost head: Seq<char> = out@;
            out.append(" default location POSIX file \"");
            out.append(applescript_escape(start).as_str());
            out.append("\"");
            assert(out@ =~= head + (" default location POSIX file \""@ + escaped(
                start@,
                start@.len() as int,
            ) + "\""@));
        },
        None => {
            assert(out@ =~= out@ + Seq::empty());
        },
    }
    out.append(")");
    out
}

/// Bytes read as text, with a replacement character for what is no UTF-8.
pub uninterp spec fn lossy_text(bytes: Seq<u8>) -> Seq<char>;

/// `String::from_utf8_lossy`, a function of the bytes alone. Bytes that are
/// UTF-8 are read exactly; what stands for others is not spelled out.
#[verifier::external_body]
fn decode_lossy(bytes: &[u8]) -> (res: String)
    ensures
        res@ == lossy_text(bytes@),
        vstd::utf8::valid_utf8(bytes@) ==> res@ == vstd::utf8::decode_utf8(bytes@),
{
    String::from_utf8_lossy(bytes).into_owned()
}

/// The folder that a picker has printed: without white space around it and
/// slashes at its end, but for the root itself.
pub open spec fn picked_folder(text: Seq<char>) -> Option<Seq<char>> {
    let picked = trim(text);
    if picked.len() == 0 {
        None
    } else {
        let to = crate::text::scan_back(
            picked,
            crate::text::is_char('/'),
            picked.len() as int,
        );
        if to == 0 {
            Some("/"@)
        } else {
            Some(picked.take(to))
        }
    }
}

/// The folder in what a picker has printed.
pub fn folder_in(text: &str) -> (res: Option<String>)
    ensures
        crate::json::opt_text(res) == picked_folder(text@),
{
    let chars: Vec<char> = to_chars(text);
    let (from, end): (usize, usize) = trim_bounds(chars.as_slice());
    if from >= end {
        return None;
    }
    let ghost picked: Seq<char> = trim(text@);
    let mut to: usize = end;
    while to > from && chars[to - 1] == '/'
        invariant
            from <= to <= end <= chars@.len(),
            picked == chars@.subrange(from as int, end as int),
            crate::text::scan_back(picked, crate::text::is_char('/'), to - from)
                == crate::text::scan_back(
                picked,
                crate::text::is_char('/'),
                picked.len() as int,
            ),
        decreases to,
    {
        assert(picked[to - from - 1] == chars@[to - 1]);
        to -= 1;
    }
    proof {
        if to > from {
            assert(picked[to - from - 1] == chars@[to - 1]);
        }
    }
    if to == from {
        return Some("/".to_owned());
    }
    assert(picked.take(to - from) =~= chars@.subrange(from as int, to as int));
    Some(slice_to_string(chars.as_slice(), from, to))
}

/// The folder that was picked; `None` where the picker was cancelled or failed.
pub fn parse_osascript_folder(success: bool, stdout: &[u8]) -> (res: Option<String>)
    ensures
        crate::json::opt_text(res) == (if success {
            picked_folder(lossy_text(stdout@))
        } else {
            None
        }),
        success && vstd::utf8::valid_utf8(stdout@) ==> crate::json::opt_text(res)
            == picked_folder(vstd::utf8::decode_utf8(stdout@)),
{
    if !success {
        return None;
    }
    folder_in(decode_lossy(stdout).as_str())
}

} // verus!
