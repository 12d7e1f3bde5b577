//! Copying text: through a tool of the platform, else through the terminal.

use crate::text::{string_views, to_chars};
use vstd::prelude::*;

verus! {

/// The platforms that differ in their tools.
#[derive(Clone, Copy, PartialEq, Eq, Structural, Debug)]
pub enum Platform {
    Windows,
    MacOs,
    Unix,
}

// ---- Base 64 ----

/// The character that stands for six bits.
pub open spec fn sextet(v: int) -> char {
    if v < 26 {
        ('A' as int + v) as char
    } else if v < 52 {
        ('a' as int + (v - 26)) as char
    } else if v < 62 {
        ('0' as int + (v - 52)) as char
    } else if v == 62 {
        '+'
    } else {
        '/'
    }
}

/// Four characters for up to three bytes, with `=` for what is missing.
pub open spec fn base64_group(bytes: Seq<u8>) -> Seq<char> {
    let a = bytes[0] as int;
    let b = if bytes.len() > 1 {
        bytes[1] as int
    } else {
        0
    };
    let c = if bytes.len() > 2 {
        bytes[2] as int
    } else {
        0
    };
    seq![
        sextet(a / 4),
        sextet(a % 4 * 16 + b / 16),
        if bytes.len() > 1 {
            sextet(b % 16 * 4 + c / 64)
        } else {
            '='
        },
        if bytes.len() > 2 {
            sextet(c % 64)
        } else {
            '='
        },
    ]
}

/// The base 64 encoding of the bytes from the `i`th on.
pub open spec fn base64_from(bytes: Seq<u8>, i: int) -> Seq<char>
    decreases bytes.len() - i,
{
    if 0 <= i < bytes.len() {
        let end = if i + 3 <= bytes.len() {
            i + 3
        } else {
            bytes.len() as int
        };
        base64_group(bytes.subrange(i, end)) + base64_from(bytes, end)
    } else {
        Seq::empty()
    }
}

pub open spec fn base64(bytes: Seq<u8>) -> Seq<char> {
    base64_from(bytes, 0)
}

fn sextet_char(v: u8) -> (res: char)
    requires
        v < 64,
    ensures
        res == sextet(v as int),
{
    if v < 26 {
        (65 + v) as char
    } else if v < 52 {
        (97 + (v - 26)) as char
    } else if v < 62 {
        (48 + (v - 52)) as char
    } else if v == 62 {
        '+'
    } else {
        '/'
    }
}

/// The base 64 encoding of RFC 4648.
pub fn base64_encode(bytes: &[u8]) -> (res: String)
    ensures
        res@ == base64(bytes@),
{
    let mut out: String = String::new();
    let mut i: usize = 0;
    let count: usize = bytes.len();
    assert(out@ + base64_from(bytes@, 0) =~= base64(bytes@));
    while i < count
        invariant
            i <= count,
            count == bytes@.len(),
            out@ + base64_from(bytes@, i as int) == base64(bytes@),
        decreases count - i,
    {
        let left: usize = count - i;
        let size: usize = if left < 3 {
            left
        } else {
            3
        };
        let a: u8 = bytes[i];
        let b: u8 = if size > 1 {
            bytes[i + 1]
        } else {
            0
        };
        let c: u8 = if size > 2 {
            bytes[i + 2]
        } else {
            0
        };
        let ghost before: Seq<char> = out@;
        let ghost group: Seq<u8> = bytes@.subrange(i as int, i + size);
        proof {
            assert(group[0] == a);
            if size > 1 {
                assert(group[1] == b);
            }
            if size > 2 {
                assert(group[2] == c);
            }
        }
        out.push(sextet_char(a / 4));
        out.push(sextet_char(a % 4 * 16 + b / 16));
        out.push(if size > 1 {
            sextet_char(b % 16 * 4 + c / 64)
        } else {
            '='
        });
        out.push(if size > 2 {
            sextet_char(c % 64)
        } else {
            '='
        });
        assert(out@ =~= before + base64_group(group));
        assert(out@ + base64_from(bytes@, i + size) =~= before + base64_from(bytes@, i as int));
        i += size;
    }
    assert(out@ =~= base64(bytes@));
    out
}

/// The six bits that a character stands for.
pub open spec fn sextet_value(c: char) -> int {
    if 'A' <= c <= 'Z' {
        c as int - 'A' as int
    } else if 'a' <= c <= 'z' {
        c as int - 'a' as int + 26
    } else if '0' <= c <= '9' {
        c as int - '0' as int + 52
    } else if c == '+' {
        62
    } else {
        63
    }
}

/// The bytes that base 64 text stands for, from position `i` on.
pub open spec fn decoded_from(text: Seq<char>, i: int) -> Seq<u8>
    decreases text.len() - i,
{
    if 0 <= i && i + 4 <= text.len() {
        let u = sextet_value(text[i]);
        let v = sextet_value(text[i + 1]);
        let w = sextet_value(text[i + 2]);
        let x = sextet_value(text[i + 3]);
        let group = if text[i + 2] == '=' {
            seq![(u * 4 + v / 16) as u8]
        } else if text[i + 3] == '=' {
            seq![(u * 4 + v / 16) as u8, (v % 16 * 16 + w / 4) as u8]
        } else {
            seq![
                (u * 4 + v / 16) as u8,
                (v % 16 * 16 + w / 4) as u8,
                (w % 4 * 64 + x) as u8,
            ]
        };
        group + decoded_from(text, i + 4)
    } else {
        Seq::empty()
    }
}

proof fn lemma_sextet_value(v: int)
    requires
        0 <= v < 64,
    ensures
        sextet_value(sextet(v)) == v,
        sextet(v) != '=',
{
}

proof fn lemma_group_decodes(group: Seq<u8>, rest: Seq<char>)
    requires
        1 <= group.len() <= 3,
    ensures
        decoded_from(base64_group(group) + rest, 0) =~= group + decoded_from(
            base64_group(group) + rest,
            4,
        ),
{
    let text = base64_group(group) + rest;
    let a = group[0] as int;
    let b = if group.len() > 1 {
        group[1] as int
    } else {
        0
    };
    let c = if group.len() > 2 {
        group[2] as int
    } else {
        0
    };
    lemma_sextet_value(a / 4);
    lemma_sextet_value(a % 4 * 16 + b / 16);
    lemma_sextet_value(b % 16 * 4 + c / 64);
    lemma_sextet_value(c % 64);
    assert(text[0] == sextet(a / 4));
    assert(text[1] == sextet(a % 4 * 16 + b / 16));
    assert(a / 4 * 4 + (a % 4 * 16 + b / 16) / 16 == a);
    assert((a % 4 * 16 + b / 16) % 16 * 16 + (b % 16 * 4 + c / 64) / 4 == b);
    assert((b % 16 * 4 + c / 64) % 4 * 64 + c % 64 == c);
    if group.len() > 1 {
        assert(text[2] == sextet(b % 16 * 4 + c / 64));
    } else {
        assert(text[2] == '=');
    }
    if group.len() > 2 {
        assert(text[3] == sextet(c % 64));
    } else {
        assert(text[3] == '=');
    }
}

proof fn lemma_decoded_shifts(a: Seq<char>, rest: Seq<char>, i: int)
    requires
        a.len() == 4,
        0 <= i <= rest.len(),
    ensures
        decoded_from(a + rest, i + 4) == decoded_from(rest, i),
    decreases rest.len() - i,
{
    if i + 4 <= rest.len() {
        lemma_decoded_shifts(a, rest, i + 4);
        let text = a + rest;
        assert(text[i + 4] == rest[i]);
        assert(text[i + 5] == rest[i + 1]);
        assert(text[i + 6] == rest[i + 2]);
        assert(text[i + 7] == rest[i + 3]);
    }
}

proof fn lemma_decodes_from(bytes: Seq<u8>, i: int)
    requires
        0 <= i <= bytes.len(),
    ensures
        decoded_from(base64_from(bytes, i), 0) == bytes.skip(i),
    decreases bytes.len() - i,
{
    if i < bytes.len() {
        let end = if i + 3 <= bytes.len() {
            i + 3
        } else {
            bytes.len() as int
        };
        let group = bytes.subrange(i, end);
        let rest = base64_from(bytes, end);
        lemma_decodes_from(bytes, end);
        lemma_group_decodes(group, rest);
        lemma_decoded_shifts(base64_group(group), rest, 0);
        assert(group + bytes.skip(end) =~= bytes.skip(i));
    } else {
        assert(bytes.skip(i) =~= Seq::empty());
    }
}

/// What was encoded can be read back.
pub proof fn law_base64_is_read_back(bytes: Seq<u8>)
    ensures
        decoded_from(base64(bytes), 0) == bytes,
{
    lemma_decodes_from(bytes, 0);
    assert(bytes.skip(0) =~= bytes);
}

proof fn lemma_base64_len(bytes: Seq<u8>, i: int)
    requires
        0 <= i <= bytes.len(),
    ensures
        base64_from(bytes, i).len() == (bytes.len() - i + 2) / 3 * 4,
    decreases bytes.len() - i,
{
    if i < bytes.len() {
        let end = if i + 3 <= bytes.len() {
            i + 3
        } else {
            bytes.len() as int
        };
        lemma_base64_len(bytes, end);
    }
}

/// Base 64 takes four characters for every three bytes, begun ones counted
/// whole.
pub proof fn law_base64_length(bytes: Seq<u8>)
    ensures
        base64(bytes).len() == (bytes.len() + 2) / 3 * 4,
{
    lemma_base64_len(bytes, 0);
}

// ---- The terminal ----

/// The escape sequence by which a terminal sets the clipboard.
pub open spec fn osc52(text: Seq<char>) -> Seq<char> {
    "\x1b]52;c;"@ + base64(vstd::utf8::encode_utf8(text)) + "\x07"@
}

/// The first `n` characters with every escape doubled.
pub open spec fn escapes_doubled(s: Seq<char>, n: int) -> Seq<char>
    decreases n,
{
    if n <= 0 {
        Seq::empty()
    } else if s[n - 1] == '\x1b' {
        escapes_doubled(s, n - 1) + seq!['\x1b', '\x1b']
    } else {
        escapes_doubled(s, n - 1).push(s[n - 1])
    }
}

/// What is written to the terminal. Inside tmux it has to be passed through.
pub open spec fn copy_sequence(text: Seq<char>, tmux: bool) -> Seq<char> {
    if tmux {
        "\x1bPtmux;"@ + escapes_doubled(osc52(text), osc52(text).len() as int) + "\x1b\\"@
    } else {
        osc52(text)
    }
}

fn double_escapes(s: &[char]) -> (res: String)
    ensures
        res@ == escapes_doubled(s@, s@.len() as int),
{
    let mut out: String = String::new();
    let mut i: usize = 0;
    assert(out@ =~= escapes_doubled(s@, 0));
    while i < s.len()
        invariant
            i <= s@.len(),
            out@ == escapes_doubled(s@, i as int),
        decreases s@.len() - i,
    {
        let ghost before: Seq<char> = out@;
        out.push(s[i]);
        if s[i] == '\x1b' {
            out.push('\x1b');
            assert(out@ =~= before + seq!['\x1b', '\x1b']);
        }
        i += 1;
    }
    out
}

/// What is written to the terminal to set its clipboard.
pub fn osc52_sequence(text: &str, tmux: bool) -> (res: String)
    ensures
        res@ == copy_sequence(text@, tmux),
{
    let mut payload: String = "\x1b]52;c;".to_owned();
    payload.append(base64_encode(text.as_bytes()).as_str());
    payload.append("\x07");
    if !tmux {
        return payload;
    }
    let mut out: String = "\x1bPtmux;".to_owned();
    out.append(double_escapes(to_chars(payload.as_str()).as_slice()).as_str());
    out.append("\x1b\\");
    out
}

// ---- The tools ----

/// The commands that take text for the clipboard, in the order in which they are
/// tried.
pub open spec fn copy_tools(platform: Platform) -> Seq<Seq<Seq<char>>> {
    match platform {
        Platform::Windows => seq![seq!["clip"@]],
        _ => seq![
            seq!["pbcopy"@],
            seq!["wl-copy"@],
            seq!["xclip"@, "-selection"@, "clipboard"@],
        ],
    }
}

/// The commands that print the clipboard, in the order in which they are tried.
pub open spec fn paste_tools(platform: Platform) -> Seq<Seq<Seq<char>>> {
    match platform {
        Platform::Windows => seq![
            seq![
                "powershell"@,
                "-NoProfile"@,
                "-NonInteractive"@,
                "-Command"@,
                "[Console]::OutputEncoding = New-Object System.Text.UTF8Encoding($false); Get-Clipboard -Raw"@,
            ],
        ],
        Platform::MacOs => seq![seq!["pbpaste"@]],
        Platform::Unix => seq![
            seq!["wl-paste"@, "--no-newline"@],
            seq!["xclip"@, "-selection"@, "clipboard"@, "-o"@],
        ],
    }
}

/// What is tried next to copy a text.
#[derive(Debug)]
pub enum CopyStep {
    /// Run a command and hand it the text.
    Run(Vec<String>),
    /// Write to the terminal.
    Print(String),
}

/// One of the tries has copied the text.
pub open spec fn any_ok(tries: Seq<Result<(), String>>) -> bool {
    exists|i: int| 0 <= i < tries.len() && (#[trigger] tries[i]) is Ok
}

fn some_ok(tries: &Vec<Result<(), String>>) -> (res: bool)
    ensures
        res == any_ok(tries@),
{
    let mut i: usize = 0;
    while i < tries.len()
        invariant
            i <= tries@.len(),
            forall|k: int| 0 <= k < i ==> !((#[trigger] tries@[k]) is Ok),
        decreases tries@.len() - i,
    {
        if tries[i].is_ok() {
            assert(tries@[i as int] is Ok);
            return true;
        }
        i += 1;
    }
    false
}

/// What is tried to copy a text after `failed` tries have failed.
pub open spec fn is_copy_step(
    step: CopyStep,
    platform: Platform,
    failed: int,
    text: Seq<char>,
    tmux: bool,
) -> bool {
    let tools = copy_tools(platform);
    if 0 <= failed < tools.len() {
        step matches CopyStep::Run(argv) && string_views(argv@) == tools[failed]
    } else {
        step matches CopyStep::Print(sequence) && sequence@ == copy_sequence(text, tmux)
    }
}

fn command(words: &[&str]) -> (res: Vec<String>)
    ensures
        string_views(res@) == words@.map(|i: int, w: &str| w@),
{
    let mut out: Vec<String> = Vec::new();
    let mut i: usize = 0;
    while i < words.len()
        invariant
            i <= words@.len(),
            out@.len() == i,
            forall|k: int| 0 <= k < i ==> (#[trigger] out@[k])@ == words@[k]@,
        decreases words@.len() - i,
    {
        out.push(words[i].to_owned());
        i += 1;
    }
    assert(string_views(out@) =~= words@.map(|i: int, w: &str| w@));
    out
}

/// What to try next to copy a text, after the tools of `tried`: the tools of the
/// platform one by one, and the terminal once all of them have failed. Nothing
/// once one of them has taken the text.
pub fn copy_to_clipboard(
    platform: Platform,
    tried: &Vec<Result<(), String>>,
    text: &str,
    tmux: bool,
) -> (res: Option<CopyStep>)
    ensures
        match res {
            Some(step) => !any_ok(tried@) && is_copy_step(
                step,
                platform,
                tried@.len() as int,
                text@,
                tmux,
            ),
            None => any_ok(tried@),
        },
{
    if some_ok(tried) {
        return None;
    }
    Some(copy_step(platform, tried.len(), text, tmux))
}

/// How a copy went: it is done where one of the tools or the terminal has taken
/// the text. Else the error of the last tool tells why not, never the terminal's.
pub open spec fn copy_outcome(
    tools: Seq<Result<(), String>>,
    printed: Result<(), String>,
) -> Option<Seq<char>> {
    if any_ok(tools) || printed is Ok {
        None
    } else if tools.len() > 0 {
        Some(tools.last()->Err_0@)
    } else {
        Some("no clipboard tool found"@)
    }
}

/// How a copy went that has tried `tools` in order, and the terminal where each
/// of them had failed.
pub fn copy_ended(tools: &Vec<Result<(), String>>, printed: &Result<(), String>) -> (res: Result<
    (),
    String,
>)
    ensures
        match res {
            Ok(_) => copy_outcome(tools@, *printed) is None,
            Err(error) => copy_outcome(tools@, *printed) == Some(error@),
        },
{
    if some_ok(tools) || printed.is_ok() {
        return Ok(());
    }
    let count: usize = tools.len();
    if count == 0 {
        return Err("no clipboard tool found".to_owned());
    }
    match &tools[count - 1] {
        Ok(_) => Ok(()),
        Err(error) => Err(error.clone()),
    }
}

fn copy_step(platform: Platform, failed: usize, text: &str, tmux: bool) -> (res: CopyStep)
    ensures
        is_copy_step(res, platform, failed as int, text@, tmux),
{
    let windows: bool = match platform {
        Platform::Windows => true,
        _ => false,
    };
    if windows && failed == 0 {
        let argv: Vec<String> = command(&["clip"]);
        assert(string_views(argv@) =~= seq!["clip"@]);
        return CopyStep::Run(argv);
    }
    if !windows && failed == 0 {
        let argv: Vec<String> = command(&["pbcopy"]);
        assert(string_views(argv@) =~= seq!["pbcopy"@]);
        return CopyStep::Run(argv);
    }
    if !windows && failed == 1 {
        let argv: Vec<String> = command(&["wl-copy"]);
        assert(string_views(argv@) =~= seq!["wl-copy"@]);
        return CopyStep::Run(argv);
    }
    if !windows && failed == 2 {
        let argv: Vec<String> = command(&["xclip", "-selection", "clipboard"]);
        assert(string_views(argv@) =~= seq!["xclip"@, "-selection"@, "clipboard"@]);
        return CopyStep::Run(argv);
    }
    CopyStep::Print(osc52_sequence(text, tmux))
}

/// The next command that may print the clipboard, after `failed` have failed;
/// `None` once all have.
pub fn paste_from_clipboard(platform: Platform, failed: usize) -> (res: Option<Vec<String>>)
    ensures
        match res {
            Some(argv) => failed < paste_tools(platform).len() && string_views(argv@)
                == paste_tools(platform)[failed as int],
            None => failed >= paste_tools(platform).len(),
        },
{
    match platform {
        Platform::Windows => if failed == 0 {
            let argv: Vec<String> = command(
                &[
                    "powershell",
                    "-NoProfile",
                    "-NonInteractive",
                    "-Command",
                    "[Console]::OutputEncoding = New-Object System.Text.UTF8Encoding($false); Get-Clipboard -Raw",
                ],
            );
            assert(string_views(argv@) =~= paste_tools(platform)[0]);
            Some(argv)
        } else {
            None
        },
        Platform::MacOs => if failed == 0 {
            let argv: Vec<String> = command(&["pbpaste"]);
            assert(string_views(argv@) =~= paste_tools(platform)[0]);
            Some(argv)
        } else {
            None
        },
        Platform::Unix => if failed == 0 {
            let argv: Vec<String> = command(&["wl-paste", "--no-newline"]);
            assert(string_views(argv@) =~= paste_tools(platform)[0]);
            Some(argv)
        } else if failed == 1 {
            let argv: Vec<String> = command(&["xclip", "-selection", "clipboard", "-o"]);
            assert(string_views(argv@) =~= paste_tools(platform)[1]);
            Some(argv)
        } else {
            None
        },
    }
}

} // verus!
