//! The user's own editor: its command line, and the tab that it runs in.

use crate::json::{
    get_member, json_of, member, message, opt_text, parse, read_message, Json,
};
use crate::launch::panes::{is_text, listed_panes, HEARTBEAT_STALE_SECS, TOKENS_DEPTH};
use crate::launch::queries::{workspace_holding, workspace_of};
use crate::launch::replies::{get_result, result_of};
use crate::records::{
    fields_of, get_field, get_list, get_text, given, list_field, message_value, read_record,
    read_value, text_field, texts, unwrap_value, value_within, wrap, Field, Fields, Given, Record,
};
use crate::scm_app::outcomes::{native_path, with_separators};
use crate::text::{
    char_is_whitespace, contains, find_from, find_str, is_whitespace, lemma_find_from, lowercase,
    occurs_at, parse_u64, parsed_number, slice_to_string, string_views, to_chars, to_lowercase,
    trim, trim_string,
};
use vstd::prelude::*;

verus! {

pub const EDITOR_METADATA_SOURCE: &'static str = "herdr-sidebar-editor";

pub const EDITOR_PATH_TOKEN: &'static str = "hs-editor-path";

/// Why an editor command cannot be run.
#[derive(Clone, Copy, PartialEq, Eq, Structural, Debug)]
pub enum EditorError {
    /// A quote is not closed.
    Invalid,
    Empty,
}

impl EditorError {
    pub open spec fn text(self) -> Seq<char> {
        match self {
            EditorError::Invalid => "invalid editor command"@,
            EditorError::Empty => "editor command is empty"@,
        }
    }

    pub fn message(self) -> (res: String)
        ensures
            res@ == self.text(),
    {
        match self {
            EditorError::Invalid => "invalid editor command".to_owned(),
            EditorError::Empty => "editor command is empty".to_owned(),
        }
    }
}

// ---- The command line ----

/// The first of the candidates that is not blank, without white space around it.
pub open spec fn first_given(candidates: Seq<Option<Seq<char>>>, i: int) -> Option<Seq<char>>
    decreases candidates.len() - i,
{
    if 0 <= i < candidates.len() {
        match candidates[i] {
            Some(text) => if trim(text).len() > 0 {
                Some(trim(text))
            } else {
                first_given(candidates, i + 1)
            },
            None => first_given(candidates, i + 1),
        }
    } else {
        None
    }
}

/// The editor command: the stored one, else the first of the environment's
/// variables that is not blank.
pub fn configured_editor(stored: Option<String>, variables: &[Option<String>]) -> (res: Option<
    String,
>)
    ensures
        opt_text(res) == (match stored {
            Some(command) => Some(command@),
            None => first_given(variables@.map(|i: int, v: Option<String>| opt_text(v)), 0),
        }),
{
    match stored {
        Some(command) => {
            return Some(command);
        },
        None => {},
    }
    let ghost views: Seq<Option<Seq<char>>> = variables@.map(
        |i: int, v: Option<String>| opt_text(v),
    );
    let mut i: usize = 0;
    while i < variables.len()
        invariant
            i <= variables@.len(),
            stored is None,
            views == variables@.map(|i: int, v: Option<String>| opt_text(v)),
            first_given(views, i as int) == first_given(views, 0),
        decreases variables@.len() - i,
    {
        assert(views[i as int] == opt_text(variables@[i as int]));
        match &variables[i] {
            Some(text) => {
                let command: String = trim_string(text.as_str());
                if !command.as_str().is_empty() {
                    return Some(command);
                }
            },
            None => {},
        }
        i += 1;
    }
    None
}

pub open spec fn is_quote(c: char) -> bool {
    c == '\'' || c == '"'
}

/// Characters that a backslash makes ordinary.
pub open spec fn is_escapable(c: char) -> bool {
    is_whitespace(c) || is_quote(c) || c == '\\'
}

/// The words of a command from position `i` on. Inside quotes white space is
/// ordinary; in double quotes a backslash makes a quote or a backslash ordinary,
/// in single quotes nothing does; outside quotes it also makes white space
/// ordinary. `None` where a quote is not closed.
pub open spec fn argv_from(
    s: Seq<char>,
    i: int,
    quote: Option<char>,
    word: Seq<char>,
    started: bool,
    argv: Seq<Seq<char>>,
) -> Option<Seq<Seq<char>>>
    decreases s.len() - i,
{
    if i < 0 || i >= s.len() {
        if quote is Some {
            None
        } else if started {
            Some(argv.push(word))
        } else {
            Some(argv)
        }
    } else {
        let c = s[i];
        match quote {
            Some(q) => if c == q {
                argv_from(s, i + 1, None, word, started, argv)
            } else if q == '"' && c == '\\' && i + 1 < s.len() && (s[i + 1] == '"' || s[i + 1]
                == '\\') {
                argv_from(s, i + 2, quote, word.push(s[i + 1]), started, argv)
            } else {
                argv_from(s, i + 1, quote, word.push(c), started, argv)
            },
            None => if is_quote(c) {
                argv_from(s, i + 1, Some(c), word, true, argv)
            } else if is_whitespace(c) {
                if started {
                    argv_from(s, i + 1, None, Seq::empty(), false, argv.push(word))
                } else {
                    argv_from(s, i + 1, None, word, false, argv)
                }
            } else if c == '\\' && i + 1 < s.len() && is_escapable(s[i + 1]) {
                argv_from(s, i + 2, None, word.push(s[i + 1]), true, argv)
            } else {
                argv_from(s, i + 1, None, word.push(c), true, argv)
            },
        }
    }
}

/// The words of a command.
pub open spec fn command_words(command: Seq<char>) -> Option<Seq<Seq<char>>> {
    argv_from(command, 0, None, Seq::empty(), false, Seq::empty())
}

/// Split a command into words without a shell.
pub fn split_editor_command(command: &str) -> (res: Result<Vec<String>, EditorError>)
    ensures
        match res {
            Ok(argv) => command_words(command@) == Some(string_views(argv@)),
            Err(error) => error == EditorError::Invalid && command_words(command@) is None,
        },
{
    let s: Vec<char> = to_chars(command);
    let count: usize = s.len();
    let mut argv: Vec<String> = Vec::new();
    let mut word: String = String::new();
    let mut quote: Option<char> = None;
    let mut started: bool = false;
    let mut i: usize = 0;
    assert(string_views(argv@) =~= Seq::empty());
    while i < count
        invariant
            i <= count,
            count == s@.len(),
            s@ == command@,
            argv_from(command@, i as int, quote, word@, started, string_views(argv@))
                == command_words(command@),
        decreases count - i,
    {
        let c: char = s[i];
        match quote {
            Some(q) => {
                if c == q {
                    quote = None;
                    i += 1;
                } else if q == '"' && c == '\\' && i + 1 < count && (s[i + 1] == '"' || s[i + 1]
                    == '\\') {
                    word.push(s[i + 1]);
                    i += 2;
                } else {
                    word.push(c);
                    i += 1;
                }
            },
            None => {
                if c == '\'' || c == '"' {
                    quote = Some(c);
                    started = true;
                    i += 1;
                } else if char_is_whitespace(c) {
                    if started {
                        let ghost before: Seq<String> = argv@;
                        let ghost done: Seq<char> = word@;
                        argv.push(word);
                        assert(string_views(argv@) =~= string_views(before).push(done));
                        word = String::new();
                        started = false;
                    }
                    i += 1;
                } else if c == '\\' && i + 1 < count && (char_is_whitespace(s[i + 1]) || s[i + 1]
                    == '\'' || s[i + 1] == '"' || s[i + 1] == '\\') {
                    word.push(s[i + 1]);
                    started = true;
                    i += 2;
                } else {
                    word.push(c);
                    started = true;
                    i += 1;
                }
            },
        }
    }
    if quote.is_some() {
        return Err(EditorError::Invalid);
    }
    if started {
        let ghost before: Seq<String> = argv@;
        let ghost done: Seq<char> = word@;
        argv.push(word);
        assert(string_views(argv@) =~= string_views(before).push(done));
    }
    Ok(argv)
}

proof fn lemma_quoted_rest(w: Seq<char>, s: Seq<char>, i: int)
    requires
        s == seq!['\''] + w + seq!['\''],
        !w.contains('\''),
        0 <= i <= w.len(),
    ensures
        argv_from(s, i + 1, Some('\''), w.take(i), true, Seq::empty()) == Some(seq![w]),
    decreases w.len() - i,
{
    if i < w.len() {
        assert(s[i + 1] == w[i]);
        assert(w.contains(w[i]));
        assert(w.take(i + 1) =~= w.take(i).push(w[i]));
        lemma_quoted_rest(w, s, i + 1);
    } else {
        assert(s[i + 1] == '\'');
        assert(w.take(i) =~= w);
        let none = Seq::<Seq<char>>::empty();
        assert(none.push(w) =~= seq![w]);
        assert(argv_from(s, i + 2, None, w, true, none) == Some(none.push(w)));
    }
}

/// A word in single quotes is one word, whatever white space, backslashes or
/// double quotes it holds.
pub proof fn law_quoted_words_stay_whole(w: Seq<char>)
    requires
        !w.contains('\''),
    ensures
        command_words(seq!['\''] + w + seq!['\'']) == Some(seq![w]),
{
    let s = seq!['\''] + w + seq!['\''];
    assert(s[0] == '\'');
    assert(w.take(0) =~= Seq::empty());
    lemma_quoted_rest(w, s, 0);
}

// ---- The file on the command line ----

/// `s` from `from` on with `with` for every `needle`.
pub open spec fn replaced_from(
    s: Seq<char>,
    needle: Seq<char>,
    with: Seq<char>,
    from: int,
) -> Seq<char>
    decreases s.len() - from,
{
    let at = find_from(s, needle, from);
    if needle.len() == 0 || from < 0 || at < from || at + needle.len() > s.len() {
        s.skip(from)
    } else {
        s.subrange(from, at) + with + replaced_from(s, needle, with, at + needle.len())
    }
}

pub open spec fn replaced(s: Seq<char>, needle: Seq<char>, with: Seq<char>) -> Seq<char> {
    replaced_from(s, needle, with, 0)
}

fn replace(s: &[char], needle: &[char], with: &str) -> (res: String)
    requires
        needle@.len() > 0,
    ensures
        res@ == replaced(s@, needle@, with@),
{
    let mut out: String = String::new();
    let mut from: usize = 0;
    let count: usize = s.len();
    assert(out@ + replaced_from(s@, needle@, with@, 0) =~= replaced(s@, needle@, with@));
    loop
        invariant_except_break
            from <= s@.len(),
            count == s@.len(),
            needle@.len() > 0,
            out@ + replaced_from(s@, needle@, with@, from as int) == replaced(
                s@,
                needle@,
                with@,
            ),
        ensures
            out@ == replaced(s@, needle@, with@),
        decreases s@.len() - from,
    {
        let ghost before: Seq<char> = out@;
        match find_str(s, needle, from) {
            None => {
                out.append(slice_to_string(s, from, count).as_str());
                assert(s@.skip(from as int) =~= s@.subrange(from as int, s@.len() as int));
                break;
            },
            Some(at) => {
                out.append(slice_to_string(s, from, at).as_str());
                out.append(with);
                let next: usize = at + needle.len();
                let ghost rest: Seq<char> = replaced_from(s@, needle@, with@, next as int);
                assert(out@ + rest =~= before + (s@.subrange(from as int, at as int) + with@
                    + rest));
                from = next;
            },
        }
    }
    out
}

/// Whether one of the first `n` words holds the place of the file.
pub open spec fn names_file(argv: Seq<Seq<char>>, n: int) -> bool {
    exists|i: int| 0 <= i < n && contains(#[trigger] argv[i], "{file}"@)
}

/// The words with the file in its place, or behind them where none of them has
/// one.
pub open spec fn with_file(argv: Seq<Seq<char>>, file: Seq<char>) -> Seq<Seq<char>> {
    if names_file(argv, argv.len() as int) {
        argv.map(|i: int, w: Seq<char>| replaced(w, "{file}"@, file))
    } else {
        argv.push(file)
    }
}

proof fn lemma_replaced_unchanged(s: Seq<char>, needle: Seq<char>, with: Seq<char>)
    requires
        !contains(s, needle),
    ensures
        replaced(s, needle, with) == s,
{
    lemma_find_from(s, needle, 0);
    if find_from(s, needle, 0) >= 0 {
        assert(occurs_at(s, needle, find_from(s, needle, 0)));
    }
    assert(s.skip(0) =~= s);
}

/// The command line that opens a file: `{file}` in the command stands for it,
/// else it comes last.
pub fn editor_argv(command: &str, file: &str) -> (res: Result<Vec<String>, EditorError>)
    ensures
        match command_words(command@) {
            None => res is Err && res->Err_0 == EditorError::Invalid,
            Some(argv) => if argv.len() == 0 {
                res is Err && res->Err_0 == EditorError::Empty
            } else {
                res is Ok && string_views(res->Ok_0@) == with_file(argv, file@)
            },
        },
{
    let argv: Vec<String> = match split_editor_command(command) {
        Ok(argv) => argv,
        Err(error) => {
            return Err(error);
        },
    };
    if argv.len() == 0 {
        return Err(EditorError::Empty);
    }
    let ghost words: Seq<Seq<char>> = string_views(argv@);
    let hole: Vec<char> = to_chars("{file}");
    proof {
        reveal_strlit("{file}");
    }
    let mut out: Vec<String> = Vec::new();
    let mut found: bool = false;
    let mut i: usize = 0;
    while i < argv.len()
        invariant
            i <= argv@.len(),
            words == string_views(argv@),
            hole@ == "{file}"@,
            hole@.len() > 0,
            found == names_file(words, i as int),
            out@.len() == i,
            forall|k: int|
                0 <= k < i ==> (#[trigger] out@[k])@ == replaced(words[k], "{file}"@, file@),
            !found ==> forall|k: int| 0 <= k < i ==> (#[trigger] out@[k])@ == words[k],
        decreases argv@.len() - i,
    {
        let chars: Vec<char> = to_chars(argv[i].as_str());
        assert(words[i as int] == chars@);
        let has_hole: bool = crate::text::contains_str(chars.as_slice(), hole.as_slice());
        let ghost before: bool = found;
        out.push(replace(chars.as_slice(), hole.as_slice(), file));
        if has_hole {
            found = true;
        }
        proof {
            if !has_hole {
                lemma_replaced_unchanged(chars@, "{file}"@, file@);
            }
            assert(found == names_file(words, i + 1)) by {
                if has_hole {
                    assert(contains(words[i as int], "{file}"@));
                } else if names_file(words, i + 1) {
                    let k = choose|k: int| 0 <= k < i + 1 && contains(
                        #[trigger] words[k],
                        "{file}"@,
                    );
                    assert(k != i);
                    assert(names_file(words, i as int));
                }
            }
        }
        i += 1;
    }
    let ghost filled: Seq<String> = out@;
    if !found {
        out.push(file.to_owned());
        assert(string_views(out@) =~= words.push(file@));
    } else {
        assert(string_views(out@) =~= words.map(
            |i: int, w: Seq<char>| replaced(w, "{file}"@, file@),
        ));
    }
    Ok(out)
}

/// However the command is written, the file stands somewhere on its command
/// line.
pub proof fn law_the_editor_is_told_the_file(argv: Seq<Seq<char>>, file: Seq<char>)
    ensures
        exists|i: int|
            0 <= i < with_file(argv, file).len() && contains(
                #[trigger] with_file(argv, file)[i],
                file,
            ),
{
    let line = with_file(argv, file);
    if names_file(argv, argv.len() as int) {
        let i = choose|i: int|
            0 <= i < argv.len() && contains(#[trigger] argv[i], "{file}"@);
        reveal_strlit("{file}");
        let w = argv[i];
        let hole = "{file}"@;
        lemma_find_from(w, hole, 0);
        let k = choose|k: int| #[trigger] occurs_at(w, hole, k);
        let at = find_from(w, hole, 0);
        assert(at >= 0);
        let whole = replaced(w, hole, file);
        let head = w.subrange(0, at);
        let rest = replaced_from(w, hole, file, at + hole.len());
        assert(whole == head + file + rest);
        assert(whole.subrange(at, at + file.len()) =~= file);
        assert(occurs_at(whole, file, at));
        assert(line[i] == whole);
    } else {
        assert(line[argv.len() as int] == file);
        assert(file.subrange(0, file.len() as int) =~= file);
        assert(occurs_at(file, file, 0));
    }
}

// ---- The tab of an editor ----

/// What decides whether a pane is an editor's.
#[derive(Debug)]
pub struct EditorPane {
    pub pane_id: Option<String>,
    pub tab_id: Option<String>,
    pub workspace_id: Option<String>,
    /// The token of the file that it edits.
    pub file: Option<String>,
    /// When it last gave a sign of life.
    pub heartbeat: Option<u64>,
}

/// What an `EditorPane` holds.
#[verifier::ext_equal]
pub struct EditorPaneView {
    pub pane_id: Option<Seq<char>>,
    pub tab_id: Option<Seq<char>>,
    pub workspace_id: Option<Seq<char>>,
    pub file: Option<Seq<char>>,
    pub heartbeat: Option<u64>,
}

impl View for EditorPane {
    type V = EditorPaneView;

    open spec fn view(&self) -> EditorPaneView {
        EditorPaneView {
            pane_id: opt_text(self.pane_id),
            tab_id: opt_text(self.tab_id),
            workspace_id: opt_text(self.workspace_id),
            file: opt_text(self.file),
            heartbeat: self.heartbeat,
        }
    }
}

pub open spec fn editor_views(panes: Seq<EditorPane>) -> Seq<EditorPaneView> {
    panes.map(|i: int, p: EditorPane| p@)
}

/// A token that is a text.
pub open spec fn text_token(tokens: Json, key: Seq<char>) -> Option<Seq<char>> {
    match member(tokens, key) {
        Some(Json::Text(text)) => Some(text),
        _ => None,
    }
}

pub open spec fn editor_heartbeat(tokens: Json) -> Option<u64> {
    match text_token(tokens, EDITOR_METADATA_SOURCE@) {
        Some(text) => match parsed_number(text, u64::MAX as nat) {
            Some(n) => Some(n as u64),
            None => None,
        },
        None => None,
    }
}

/// The tokens of an editor: its file and its heartbeat. `None` where the field
/// is no object or given twice.
pub open spec fn editor_tokens(pane: Fields) -> Option<(Option<Seq<char>>, Option<u64>)> {
    match given(pane, 3, "tokens"@) {
        Given::Not => Some((None, None)),
        Given::Once(text) => match value_within(text, TOKENS_DEPTH as nat) {
            Some(tokens) => if tokens is Object {
                Some((text_token(tokens, EDITOR_PATH_TOKEN@), editor_heartbeat(tokens)))
            } else {
                None
            },
            None => None,
        },
        Given::Again => None,
    }
}

pub open spec fn editor_pane_in(value: Seq<char>) -> Option<EditorPaneView> {
    match fields_of(value, 4) {
        None => None,
        Some(pane) => match (
            text_field(pane, 0, "pane_id"@),
            text_field(pane, 1, "tab_id"@),
            text_field(pane, 2, "workspace_id"@),
            editor_tokens(pane),
        ) {
            (Some(pane_id), Some(tab_id), Some(workspace_id), Some((file, heartbeat))) => Some(
                EditorPaneView { pane_id, tab_id, workspace_id, file, heartbeat },
            ),
            _ => None,
        },
    }
}

/// The panes that the first `n` values describe; `None` where one describes
/// none.
pub open spec fn editor_panes_in(list: Seq<Seq<char>>, n: int) -> Option<Seq<EditorPaneView>>
    decreases n,
{
    if n <= 0 {
        Some(Seq::empty())
    } else {
        match (editor_panes_in(list, n - 1), editor_pane_in(list[n - 1])) {
            (Some(panes), Some(pane)) => Some(panes.push(pane)),
            _ => None,
        }
    }
}

/// The panes of a `pane list` message; `None` where the text is no such
/// message.
pub open spec fn listed_editors(text: Seq<char>) -> Option<Seq<EditorPaneView>> {
    match result_of(message_value(text), 1) {
        Some(result) => match list_field(result, 0, "panes"@) {
            Some(list) => editor_panes_in(list, list.len() as int),
            None => None,
        },
        None => None,
    }
}

/// A live editor of a file in a workspace.
pub open spec fn edits(
    pane: EditorPaneView,
    workspace: Seq<char>,
    file: Seq<char>,
    now: u64,
) -> bool {
    &&& pane.workspace_id == Some(workspace)
    &&& pane.file == Some(file)
    &&& pane.heartbeat matches Some(time)
    &&& now - time <= HEARTBEAT_STALE_SECS
    &&& pane.tab_id is Some
    &&& pane.pane_id is Some
}

/// The tab and the pane of the first live editor from the `i`th pane on.
pub open spec fn editor_from(
    panes: Seq<EditorPaneView>,
    workspace: Seq<char>,
    file: Seq<char>,
    now: u64,
    i: int,
) -> Option<(Seq<char>, Seq<char>)>
    decreases panes.len() - i,
{
    if 0 <= i < panes.len() {
        if edits(panes[i], workspace, file, now) {
            Some((panes[i].tab_id->0, panes[i].pane_id->0))
        } else {
            editor_from(panes, workspace, file, now, i + 1)
        }
    } else {
        None
    }
}

fn read_text_token(tokens: &serde_json::Value, key: &str) -> (res: Option<String>)
    ensures
        opt_text(res) == text_token(json_of(*tokens), key@),
{
    match get_member(tokens, key) {
        Some(value) => match value.as_str() {
            Some(text) => Some(text.to_owned()),
            None => None,
        },
        None => None,
    }
}

fn read_editor_heartbeat(tokens: &serde_json::Value) -> (res: Option<u64>)
    ensures
        res == editor_heartbeat(json_of(*tokens)),
{
    match read_text_token(tokens, EDITOR_METADATA_SOURCE) {
        Some(text) => parse_u64(to_chars(text.as_str()).as_slice()),
        None => None,
    }
}

fn read_editor_tokens(pane: &Record) -> (res: Option<(Option<String>, Option<u64>)>)
    ensures
        match res {
            Some((file, heartbeat)) => editor_tokens(pane@) == Some((opt_text(file), heartbeat)),
            None => editor_tokens(pane@) is None,
        },
{
    let text: String = match get_field(pane, 3, "tokens") {
        Field::Not => {
            return Some((None, None));
        },
        Field::Once(text) => text,
        Field::Again => {
            return None;
        },
    };
    match parse(wrap(text.as_str(), TOKENS_DEPTH).as_str()) {
        Some(outer) => match unwrap_value(&outer, TOKENS_DEPTH) {
            Some(tokens) => if tokens.is_object() {
                Some((read_text_token(tokens, EDITOR_PATH_TOKEN), read_editor_heartbeat(tokens)))
            } else {
                None
            },
            None => None,
        },
        None => None,
    }
}

fn read_editor_pane(value: &str) -> (res: Option<EditorPane>)
    ensures
        match res {
            Some(pane) => editor_pane_in(value@) == Some(pane@),
            None => editor_pane_in(value@) is None,
        },
{
    let pane: Record = match read_record(value, 4) {
        Some(pane) => pane,
        None => {
            return None;
        },
    };
    match (
        get_text(&pane, 0, "pane_id"),
        get_text(&pane, 1, "tab_id"),
        get_text(&pane, 2, "workspace_id"),
        read_editor_tokens(&pane),
    ) {
        (Some(pane_id), Some(tab_id), Some(workspace_id), Some((file, heartbeat))) => Some(
            EditorPane { pane_id, tab_id, workspace_id, file, heartbeat },
        ),
        _ => None,
    }
}

proof fn lemma_one_bad_pane_spoils_the_list(list: Seq<Seq<char>>, i: int, n: int)
    requires
        0 <= i < n,
        editor_pane_in(list[i]) is None,
    ensures
        editor_panes_in(list, n) is None,
    decreases n,
{
    if i < n - 1 {
        lemma_one_bad_pane_spoils_the_list(list, i, n - 1);
    }
}

fn read_editors(panes_json: &str) -> (res: Option<Vec<EditorPane>>)
    ensures
        match res {
            Some(panes) => listed_editors(panes_json@) == Some(editor_views(panes@)),
            None => listed_editors(panes_json@) is None,
        },
{
    let result: Record = match get_result(read_value(panes_json), 1) {
        Some(result) => result,
        None => {
            return None;
        },
    };
    let list: Vec<String> = match get_list(&result, 0, "panes") {
        Some(list) => list,
        None => {
            return None;
        },
    };
    let mut out: Vec<EditorPane> = Vec::new();
    assert(editor_views(out@) =~= Seq::empty());
    let ghost all: Seq<Seq<char>> = texts(list@);
    let mut i: usize = 0;
    while i < list.len()
        invariant
            i <= list@.len(),
            all == texts(list@),
            listed_editors(panes_json@) == editor_panes_in(all, all.len() as int),
            editor_panes_in(all, i as int) == Some(editor_views(out@)),
        decreases list@.len() - i,
    {
        assert(all[i as int] == list@[i as int]@);
        let ghost before: Seq<EditorPane> = out@;
        match read_editor_pane(list[i].as_str()) {
            Some(pane) => {
                out.push(pane);
                assert(editor_views(out@) =~= editor_views(before).push(pane@));
            },
            None => {
                proof {
                    lemma_one_bad_pane_spoils_the_list(all, i as int, all.len() as int);
                }
                return None;
            },
        }
        i += 1;
    }
    Some(out)
}

/// The tab and the pane of the first live editor of a file in a workspace.
pub fn editor_among(panes: &[EditorPane], workspace_id: &str, file_token: &str, now: u64) -> (res:
    Option<(String, String)>)
    ensures
        match res {
            Some((tab, pane)) => editor_from(
                editor_views(panes@),
                workspace_id@,
                file_token@,
                now,
                0,
            ) == Some((tab@, pane@)),
            None => editor_from(editor_views(panes@), workspace_id@, file_token@, now, 0) is None,
        },
{
    let ghost views: Seq<EditorPaneView> = editor_views(panes@);
    let mut i: usize = 0;
    while i < panes.len()
        invariant
            i <= panes@.len(),
            views == editor_views(panes@),
            editor_from(views, workspace_id@, file_token@, now, i as int) == editor_from(
                views,
                workspace_id@,
                file_token@,
                now,
                0,
            ),
        decreases panes@.len() - i,
    {
        let pane: &EditorPane = &panes[i];
        assert(views[i as int] == pane@);
        if is_text(&pane.workspace_id, workspace_id) && is_text(&pane.file, file_token) {
            let alive: bool = match pane.heartbeat {
                Some(time) => now.saturating_sub(time) <= HEARTBEAT_STALE_SECS,
                None => false,
            };
            if alive {
                match (&pane.tab_id, &pane.pane_id) {
                    (Some(tab), Some(id)) => {
                        return Some((tab.clone(), id.clone()));
                    },
                    _ => {},
                }
            }
        }
        i += 1;
    }
    None
}

/// The tab and the pane that already edit a file in a workspace.
pub fn editor_tab_for_file(panes_json: &str, workspace_id: &str, file_token: &str, now: u64) -> (res:
    Option<(String, String)>)
    ensures
        match res {
            Some((tab, pane)) => listed_editors(panes_json@) matches Some(panes) && editor_from(
                panes,
                workspace_id@,
                file_token@,
                now,
                0,
            ) == Some((tab@, pane@)),
            None => listed_editors(panes_json@) matches Some(panes) ==> editor_from(
                panes,
                workspace_id@,
                file_token@,
                now,
                0,
            ) is None,
        },
{
    match read_editors(panes_json) {
        Some(panes) => editor_among(panes.as_slice(), workspace_id, file_token, now),
        None => None,
    }
}

/// An editor is used again only where it is alive and edits that file in that
/// workspace, and wherever there is one.
pub proof fn law_editors_are_reused_where_they_live(
    panes: Seq<EditorPaneView>,
    workspace: Seq<char>,
    file: Seq<char>,
    now: u64,
    i: int,
)
    requires
        0 <= i <= panes.len(),
    ensures
        match editor_from(panes, workspace, file, now, i) {
            Some((tab, pane)) => exists|k: int|
                i <= k < panes.len() && edits(#[trigger] panes[k], workspace, file, now)
                    && panes[k].tab_id == Some(tab) && panes[k].pane_id == Some(pane),
            None => forall|k: int|
                i <= k < panes.len() ==> !edits(#[trigger] panes[k], workspace, file, now),
        },
    decreases panes.len() - i,
{
    if i < panes.len() && !edits(panes[i], workspace, file, now) {
        law_editors_are_reused_where_they_live(panes, workspace, file, now, i + 1);
    }
}

// ---- A tab for a new editor ----

/// The id under a key of an object in a result.
pub open spec fn inner_id(result: Json, object: Seq<char>, key: Seq<char>) -> Option<Seq<char>> {
    match member(result, object) {
        Some(inner) => text_token(inner, key),
        None => None,
    }
}

/// The tab that was created and its one pane.
pub open spec fn created_ids(answer: Option<Json>) -> Option<(Seq<char>, Seq<char>)> {
    match answer {
        Some(value) => match member(value, "result"@) {
            Some(result) => match (
                inner_id(result, "tab"@, "tab_id"@),
                inner_id(result, "root_pane"@, "pane_id"@),
            ) {
                (Some(tab), Some(pane)) => Some((tab, pane)),
                _ => None,
            },
            None => None,
        },
        None => None,
    }
}

fn get_inner_id(result: &serde_json::Value, object: &str, key: &str) -> (res: Option<String>)
    ensures
        opt_text(res) == inner_id(json_of(*result), object@, key@),
{
    match get_member(result, object) {
        Some(inner) => read_text_token(inner, key),
        None => None,
    }
}

/// The tab that the answer to a `tab.create` request names, and its one pane.
pub fn tab_create_ids(response: &str) -> (res: Option<(String, String)>)
    ensures
        match res {
            Some((tab, pane)) => created_ids(message(response@)) == Some((tab@, pane@)),
            None => created_ids(message(response@)) is None,
        },
{
    let answer: serde_json::Value = match read_message(response) {
        Some(answer) => answer,
        None => {
            return None;
        },
    };
    let result: &serde_json::Value = match get_member(&answer, "result") {
        Some(result) => result,
        None => {
            return None;
        },
    };
    let tab: Option<String> = get_inner_id(result, "tab", "tab_id");
    let pane: Option<String> = get_inner_id(result, "root_pane", "pane_id");
    match (tab, pane) {
        (Some(tab), Some(pane)) => Some((tab, pane)),
        _ => None,
    }
}

/// The label of an editor's tab.
pub fn editor_label(file_name: &str) -> (res: String)
    ensures
        res@ == file_name@ + " · editor"@,
{
    let mut out: String = file_name.to_owned();
    out.append(" · editor");
    out
}

/// What tells the file of an editor's tab from others: its path. Where a
/// backslash separates names, paths that differ only in case or in their
/// separators are of one file.
pub open spec fn editor_key(path: Seq<char>, backslash: bool) -> Seq<char> {
    if backslash {
        lowercase(with_separators(path, '\\'))
    } else {
        path
    }
}

pub fn editor_file_key(path: &str, backslash: bool) -> (res: String)
    ensures
        res@ == editor_key(path@, backslash),
{
    if backslash {
        to_lowercase(native_path(path, '\\').as_str())
    } else {
        path.to_owned()
    }
}

// ---- Opening a file ----

/// How a file comes into an editor.
pub enum EditorStep {
    /// It does not, for this reason.
    Fail(&'static str),
    /// It is open already: go to its tab and pane.
    Focus { tab_id: String, pane_id: String },
    /// Make a tab for it.
    Create { workspace_id: String, label: String, command: String },
}

/// The workspace of a pane; empty where there is none.
pub open spec fn workspace_in(panes_json: Seq<char>, pane_id: Seq<char>) -> Seq<char> {
    match listed_panes(panes_json) {
        Some(panes) => workspace_holding(panes, pane_id),
        None => Seq::empty(),
    }
}

/// The tab and the pane that already edit a file in a workspace.
pub open spec fn editor_in(
    panes_json: Seq<char>,
    workspace: Seq<char>,
    file: Seq<char>,
    now: u64,
) -> Option<(Seq<char>, Seq<char>)> {
    match listed_editors(panes_json) {
        Some(panes) => editor_from(panes, workspace, file, now, 0),
        None => None,
    }
}

/// Without a command or a workspace a file is not opened. An editor of the file
/// that is alive in the workspace is used again; else there is a new tab.
pub open spec fn opens_file(
    command: Option<String>,
    panes_json: Seq<char>,
    my_pane_id: Seq<char>,
    file_token: Seq<char>,
    file_name: Seq<char>,
    now: u64,
    step: EditorStep,
) -> bool {
    let workspace = workspace_in(panes_json, my_pane_id);
    match command {
        None => step matches EditorStep::Fail(reason) && reason@
            == "set HERDR_SIDEBAR_EDITOR, VISUAL, or EDITOR"@,
        Some(command) => if workspace.len() == 0 {
            step matches EditorStep::Fail(reason) && reason@
                == "could not find the current workspace"@
        } else {
            match editor_in(panes_json, workspace, file_token, now) {
                Some((tab, pane)) => step matches EditorStep::Focus { tab_id, pane_id }
                    && tab_id@ == tab && pane_id@ == pane,
                None => step matches EditorStep::Create {
                    workspace_id,
                    label,
                    command: run,
                } && workspace_id@ == workspace && label@ == file_name + " · editor"@ && run
                    == command,
            }
        },
    }
}

/// Decide how a file comes into the configured editor. `file_token` stands for
/// the file among the editors' tokens.
pub fn open_in_editor_tab(
    command: Option<String>,
    panes_json: &str,
    my_pane_id: &str,
    file_token: &str,
    file_name: &str,
    now: u64,
) -> (res: EditorStep)
    ensures
        opens_file(command, panes_json@, my_pane_id@, file_token@, file_name@, now, res),
{
    let run: String = match command {
        Some(run) => run,
        None => {
            return EditorStep::Fail("set HERDR_SIDEBAR_EDITOR, VISUAL, or EDITOR");
        },
    };
    let workspace_id: String = workspace_of(panes_json, my_pane_id);
    if workspace_id.as_str().is_empty() {
        return EditorStep::Fail("could not find the current workspace");
    }
    match editor_tab_for_file(panes_json, workspace_id.as_str(), file_token, now) {
        Some((tab_id, pane_id)) => EditorStep::Focus { tab_id, pane_id },
        None => EditorStep::Create { workspace_id, label: editor_label(file_name), command: run },
    }
}

/// The command line of the editor that a tab is to run, from what the tab was
/// given: the command and the file.
pub fn run_configured_editor(command: Option<&str>, file: Option<&str>) -> (res: Result<
    Vec<String>,
    String,
>)
    ensures
        match (command, file) {
            (None, _) => res is Err && res->Err_0@ == "custom editor is not configured"@,
            (Some(_), None) => res is Err && res->Err_0@ == "editor file is missing"@,
            (Some(command), Some(file)) => match command_words(command@) {
                None => res is Err && res->Err_0@ == EditorError::Invalid.text(),
                Some(argv) => if argv.len() == 0 {
                    res is Err && res->Err_0@ == EditorError::Empty.text()
                } else {
                    res is Ok && string_views(res->Ok_0@) == with_file(argv, file@)
                },
            },
        },
{
    match (command, file) {
        (None, _) => Err("custom editor is not configured".to_owned()),
        (Some(_), None) => Err("editor file is missing".to_owned()),
        (Some(command), Some(file)) => match editor_argv(command, file) {
            Ok(argv) => Ok(argv),
            Err(error) => Err(error.message()),
        },
    }
}

} // verus!
