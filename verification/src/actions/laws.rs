//! What holds of the commands that are run and the texts that are handed on.

use crate::actions::clipboard::{
    base64, base64_group, copy_outcome, copy_sequence, is_copy_step, osc52, paste_tools, sextet,
    CopyStep, Platform,
};
use crate::actions::commands::{escaped, opener, picked_folder, picker_script_text, reveal_words};
use crate::actions::editor::{
    argv_from, command_words, created_ids, editor_from, editor_heartbeat, editor_key,
    editor_pane_in, editor_panes_in, editor_tokens, edits, first_given, listed_editors, names_file,
    opens_file, replaced, replaced_from, text_token, with_file, workspace_in, EditorPaneView,
    EditorStep, EDITOR_PATH_TOKEN,
};
use crate::actions::menu::{offered, MenuAction};
use crate::json::{member, Json};
use crate::launch::replies::result_of;
use crate::records::{fields_of, given, list_field, message_value, text_field, Fields};
use crate::text::{
    contains, decimal, find_from, is_char, is_whitespace, lemma_find_from, lowercase, occurs_at,
    scan_back, string_views, trim,
};
use vstd::prelude::*;

verus! {

// ---- The clipboard ----

/// The characters of base 64, in their order.
pub open spec fn base64_alphabet() -> Seq<char> {
    "ABCDEFGHIJKLMNOPQRSTUVWXYZabcdefghijklmnopqrstuvwxyz0123456789+/"@
}

/// Each value below 64 has the character at its place in the alphabet.
pub proof fn law_base64_uses_the_alphabet(v: int)
    requires
        0 <= v < 64,
    ensures
        base64_alphabet().len() == 64,
        sextet(v) == base64_alphabet()[v],
{
    reveal_strlit("ABCDEFGHIJKLMNOPQRSTUVWXYZabcdefghijklmnopqrstuvwxyz0123456789+/");
}

proof fn lemma_digits(p: int, q: int, r: int, s: int)
    requires
        0 <= p,
        0 <= q < 64,
        0 <= r < 64,
        0 <= s < 64,
    ensures
        ({
            let bits = p * 262144 + q * 4096 + r * 64 + s;
            &&& bits / 262144 == p
            &&& bits / 4096 % 64 == q
            &&& bits / 64 % 64 == r
            &&& bits % 64 == s
        }),
{
    let bits = p * 262144 + q * 4096 + r * 64 + s;
    assert(bits / 64 == p * 4096 + q * 64 + r);
    assert(bits / 4096 == p * 64 + q);
}

/// Three bytes are the 24 bits of four characters, the highest first. Where
/// there are fewer bytes the last characters are filled up.
pub proof fn law_base64_keeps_the_bits_in_order(a: u8, b: u8, c: u8)
    ensures
        ({
            let bits = a * 65536 + b * 256 + c;
            let group = base64_group(seq![a, b, c]);
            &&& group.len() == 4
            &&& group[0] == base64_alphabet()[bits / 262144]
            &&& group[1] == base64_alphabet()[bits / 4096 % 64]
            &&& group[2] == base64_alphabet()[bits / 64 % 64]
            &&& group[3] == base64_alphabet()[bits % 64]
        }),
        base64_group(seq![a, b])[3] == '=',
        base64_group(seq![a, b])[2] != '=',
        base64_group(seq![a])[3] == '=',
        base64_group(seq![a])[2] == '=',
{
    let (x, y, z) = (a as int, b as int, c as int);
    let (p, q, r, s) = (x / 4, x % 4 * 16 + y / 16, y % 16 * 4 + z / 64, z % 64);
    let bits = a * 65536 + b * 256 + c;
    assert(bits == p * 262144 + q * 4096 + r * 64 + s);
    lemma_digits(p, q, r, s);
    law_base64_uses_the_alphabet(p);
    law_base64_uses_the_alphabet(q);
    law_base64_uses_the_alphabet(r);
    law_base64_uses_the_alphabet(s);
}

/// Outside of Windows three tools are tried in turn, each after the one before
/// has failed, and the terminal is asked last; on Windows there is one tool.
pub proof fn law_copying_tries_the_tools_in_turn(
    step: CopyStep,
    platform: Platform,
    failed: int,
    text: Seq<char>,
    tmux: bool,
)
    requires
        is_copy_step(step, platform, failed, text, tmux),
        failed >= 0,
    ensures
        platform !is Windows && failed == 0 ==> (step matches CopyStep::Run(argv) && string_views(
            argv@,
        ) == seq!["pbcopy"@]),
        platform !is Windows && failed == 1 ==> (step matches CopyStep::Run(argv) && string_views(
            argv@,
        ) == seq!["wl-copy"@]),
        platform !is Windows && failed == 2 ==> (step matches CopyStep::Run(argv) && string_views(
            argv@,
        ) == seq!["xclip"@, "-selection"@, "clipboard"@]),
        platform is Windows && failed == 0 ==> (step matches CopyStep::Run(argv) && string_views(
            argv@,
        ) == seq!["clip"@]),
        failed >= 3 || (platform is Windows && failed >= 1) ==> (
        step matches CopyStep::Print(sequence) && sequence@ == copy_sequence(text, tmux)),
{
}

/// The text is pasted with the tools that read the clipboard.
pub proof fn law_pasting_reads_the_clipboard(platform: Platform)
    ensures
        platform is MacOs ==> paste_tools(platform) == seq![seq!["pbpaste"@]],
        platform is Unix ==> paste_tools(platform).len() == 2 && paste_tools(platform)[0] == seq![
            "wl-paste"@,
            "--no-newline"@,
        ] && paste_tools(platform)[1] == seq!["xclip"@, "-selection"@, "clipboard"@, "-o"@],
        platform is Windows ==> paste_tools(platform) == seq![
            seq![
                "powershell"@,
                "-NoProfile"@,
                "-NonInteractive"@,
                "-Command"@,
                "[Console]::OutputEncoding = New-Object System.Text.UTF8Encoding($false); Get-Clipboard -Raw"@,
            ],
        ],
{
}

/// What the terminal is told holds the text in base 64, from which it is read
/// back.
pub proof fn law_the_terminal_is_told_the_text(text: Seq<char>)
    ensures
        copy_sequence(text, false) == "\x1b]52;c;"@ + base64(vstd::utf8::encode_utf8(text))
            + "\x07"@,
        crate::actions::clipboard::decoded_from(base64(vstd::utf8::encode_utf8(text)), 0)
            == vstd::utf8::encode_utf8(text),
        copy_sequence(text, true).len() > osc52(text).len(),
{
    crate::actions::clipboard::law_base64_is_read_back(vstd::utf8::encode_utf8(text));
    reveal_strlit("\x1bPtmux;");
    reveal_strlit("\x1b\\");
    lemma_doubling_lengthens(osc52(text), osc52(text).len() as int);
}

proof fn lemma_doubling_lengthens(s: Seq<char>, n: int)
    requires
        0 <= n <= s.len(),
    ensures
        crate::actions::clipboard::escapes_doubled(s, n).len() >= n,
    decreases n,
{
    if n > 0 {
        lemma_doubling_lengthens(s, n - 1);
    }
}

proof fn lemma_doubling(s: Seq<char>, n: int)
    requires
        0 <= n <= s.len(),
        forall|i: int| 0 <= i < n ==> #[trigger] s[i] != '\x1b',
    ensures
        crate::actions::clipboard::escapes_doubled(s, n) == s.take(n),
    decreases n,
{
    if n > 0 {
        lemma_doubling(s, n - 1);
        assert(s[n - 1] != '\x1b');
        assert(s.take(n - 1).push(s[n - 1]) =~= s.take(n));
    } else {
        assert(s.take(0) =~= Seq::empty());
    }
}

/// Inside of tmux each escape character is doubled and nothing else changes.
pub proof fn law_escapes_alone_are_doubled(before: Seq<char>, after: Seq<char>)
    requires
        !before.contains('\x1b'),
    ensures
        crate::actions::clipboard::escapes_doubled(before, before.len() as int) == before,
        crate::actions::clipboard::escapes_doubled(before.push('\x1b'), before.len() as int + 1) == before
            + seq!['\x1b', '\x1b'],
{
    assert forall|i: int| 0 <= i < before.len() implies #[trigger] before[i] != '\x1b' by {
        assert(before.contains(before[i]));
    }
    lemma_doubling(before, before.len() as int);
    assert(before.take(before.len() as int) =~= before);
    let s = before.push('\x1b');
    lemma_doubling(s, before.len() as int);
    assert(s.take(before.len() as int) =~= before);
}

/// Copying succeeds where one of the tools or the terminal did; otherwise the
/// complaint is that of the last tool.
pub proof fn law_copying_succeeds_with_one_of_its_ways(
    tools: Seq<Result<(), String>>,
    printed: Result<(), String>,
)
    ensures
        copy_outcome(tools, printed) is None <==> printed is Ok || exists|i: int|
            0 <= i < tools.len() && (#[trigger] tools[i]) is Ok,
        copy_outcome(tools, printed) is Some && tools.len() > 0 ==> (tools.last() matches Err(error)
            && copy_outcome(tools, printed) == Some(error@)),
{
    if tools.len() > 0 {
        assert(tools.last() == tools[tools.len() - 1]);
    }
}

// ---- Opening and revealing ----

/// A folder is shown itself; a file is pointed at where the file manager can, and
/// shown by its folder where it cannot.
pub proof fn law_files_are_revealed_in_their_folder(
    path: Seq<char>,
    parent: Seq<char>,
    platform: Platform,
)
    ensures
        reveal_words(Platform::Windows, path, Some(parent), false) == Some(
            seq!["explorer"@, "/select,"@ + path],
        ),
        reveal_words(Platform::MacOs, path, Some(parent), false) == Some(
            seq!["open"@, "-R"@, path],
        ),
        reveal_words(Platform::Unix, path, Some(parent), false) == Some(seq!["xdg-open"@, parent]),
        reveal_words(Platform::Unix, path, None, false) is None,
        reveal_words(platform, path, Some(parent), true) == Some(seq![opener(platform), path]),
        opener(Platform::Windows) == "explorer"@,
        opener(Platform::MacOs) == "open"@,
        opener(Platform::Unix) == "xdg-open"@,
{
}

proof fn lemma_scan_back(s: Seq<char>, to: int)
    requires
        0 <= to <= s.len(),
    ensures
        ({
            let at = scan_back(s, is_char('/'), to);
            &&& 0 <= at <= to
            &&& forall|i: int| at <= i < to ==> #[trigger] s[i] == '/'
            &&& at > 0 ==> s[at - 1] != '/'
        }),
    decreases to,
{
    if to > 0 && s[to - 1] == '/' {
        lemma_scan_back(s, to - 1);
    }
}

/// A folder that was picked is what the picker wrote, without white space around
/// it and without slashes at its end; the root keeps its one.
pub proof fn law_picked_folders_end_without_a_slash(text: Seq<char>)
    ensures
        trim(text).len() == 0 <==> picked_folder(text) is None,
        picked_folder(text) matches Some(folder) ==> {
            &&& folder.len() > 0
            &&& folder.len() <= trim(text).len() || folder == "/"@
            &&& folder.last() != '/' || folder == "/"@
            &&& folder.last() != '/' ==> folder == trim(text).take(folder.len() as int)
                && forall|i: int|
                folder.len() <= i < trim(text).len() ==> #[trigger] trim(text)[i] == '/'
        },
{
    reveal_strlit("/");
    lemma_scan_back(trim(text), trim(text).len() as int);
}

// ---- The editor ----

/// The editor is the first of the variables that is not blank, without white
/// space around it.
pub proof fn law_the_first_given_editor_counts(
    candidates: Seq<Option<Seq<char>>>,
    i: int,
    k: int,
    text: Seq<char>,
)
    requires
        0 <= i <= k < candidates.len(),
        candidates[k] == Some(text),
        trim(text).len() > 0,
        forall|j: int|
            i <= j < k ==> (#[trigger] candidates[j] matches Some(other) ==> trim(other).len()
                == 0),
    ensures
        first_given(candidates, i) == Some(trim(text)),
    decreases k - i,
{
    if i < k {
        assert(candidates[i] matches Some(other) ==> trim(other).len() == 0);
        law_the_first_given_editor_counts(candidates, i + 1, k, text);
    }
}

/// Whether a word needs no quotes.
pub open spec fn is_bare_word(w: Seq<char>) -> bool {
    w.len() > 0 && forall|i: int|
        0 <= i < w.len() ==> !is_whitespace(#[trigger] w[i]) && w[i] != '\'' && w[i] != '"' && w[i]
            != '\\'
}

proof fn lemma_bare_word(
    s: Seq<char>,
    w: Seq<char>,
    i: int,
    j: int,
    word: Seq<char>,
    argv: Seq<Seq<char>>,
)
    requires
        0 <= i,
        0 <= j <= w.len(),
        i + (w.len() - j) <= s.len(),
        is_bare_word(w),
        word == w.take(j),
        forall|k: int| 0 <= k < w.len() - j ==> #[trigger] s[i + k] == w[j + k],
    ensures
        argv_from(s, i, None, word, j > 0, argv) == argv_from(
            s,
            i + (w.len() - j),
            None,
            w,
            true,
            argv,
        ),
    decreases w.len() - j,
{
    if j < w.len() {
        assert(s[i + 0] == w[j + 0]);
        assert(!is_whitespace(w[j]));
        assert(word.push(w[j]) =~= w.take(j + 1));
        assert forall|k: int| 0 <= k < w.len() - (j + 1) implies #[trigger] s[i + 1 + k] == w[j + 1
            + k] by {
            assert(s[i + (k + 1)] == w[j + (k + 1)]);
        }
        lemma_bare_word(s, w, i + 1, j + 1, w.take(j + 1), argv);
    } else {
        assert(w.take(j) =~= w);
    }
}

/// Words without quotes, backslashes or white space in them are parted by white
/// space.
pub proof fn law_bare_words_are_parted_by_spaces(first: Seq<char>, second: Seq<char>)
    requires
        is_bare_word(first),
        is_bare_word(second),
    ensures
        command_words(first) == Some(seq![first]),
        command_words(first + seq![' '] + second) == Some(seq![first, second]),
        command_words(seq!['"'] + first + seq!['"']) == Some(seq![first]),
        command_words(seq!['"'] + first) is None,
        command_words(seq!['\''] + first) is None,
{
    let none = Seq::<Seq<char>>::empty();
    assert(first.take(0) =~= Seq::empty());
    assert(second.take(0) =~= Seq::empty());
    lemma_bare_word(first, first, 0, 0, Seq::empty(), none);
    assert(none.push(first) =~= seq![first]);
    let both = first + seq![' '] + second;
    assert forall|k: int| 0 <= k < first.len() implies #[trigger] both[0 + k] == first[0 + k] by {}
    lemma_bare_word(both, first, 0, 0, Seq::empty(), none);
    let at = first.len() as int;
    assert(both[at] == ' ');
    assert forall|k: int| 0 <= k < second.len() implies #[trigger] both[at + 1 + k] == second[0
        + k] by {}
    lemma_bare_word(both, second, at + 1, 0, Seq::empty(), none.push(first));
    assert(none.push(first).push(second) =~= seq![first, second]);
    let quoted = seq!['"'] + first + seq!['"'];
    lemma_quoted_word(quoted, first, '"', 1, 0, Seq::empty(), none);
    let end = first.len() as int + 1;
    assert(quoted[end] == '"');
    assert(argv_from(quoted, end + 1, None, first, true, none) == Some(none.push(first)));
    assert(argv_from(quoted, end, Some('"'), first, true, none) == Some(none.push(first)));
    lemma_quoted_word(seq!['"'] + first, first, '"', 1, 0, Seq::empty(), none);
    lemma_quoted_word(seq!['\''] + first, first, '\'', 1, 0, Seq::empty(), none);
}

proof fn lemma_quoted_word(
    s: Seq<char>,
    w: Seq<char>,
    quote: char,
    i: int,
    j: int,
    word: Seq<char>,
    argv: Seq<Seq<char>>,
)
    requires
        0 <= i,
        0 <= j <= w.len(),
        i + (w.len() - j) <= s.len(),
        is_bare_word(w),
        quote == '"' || quote == '\'',
        word == w.take(j),
        forall|k: int| 0 <= k < w.len() - j ==> #[trigger] s[i + k] == w[j + k],
    ensures
        argv_from(s, i, Some(quote), word, true, argv) == argv_from(
            s,
            i + (w.len() - j),
            Some(quote),
            w,
            true,
            argv,
        ),
    decreases w.len() - j,
{
    if j < w.len() {
        assert(s[i + 0] == w[j + 0]);
        assert(!is_whitespace(w[j]));
        assert(word.push(w[j]) =~= w.take(j + 1));
        assert forall|k: int| 0 <= k < w.len() - (j + 1) implies #[trigger] s[i + 1 + k] == w[j + 1
            + k] by {
            assert(s[i + (k + 1)] == w[j + (k + 1)]);
        }
        lemma_quoted_word(s, w, quote, i + 1, j + 1, w.take(j + 1), argv);
    } else {
        assert(w.take(j) =~= w);
    }
}

proof fn lemma_nothing_replaced(s: Seq<char>, needle: Seq<char>, with: Seq<char>)
    requires
        needle.len() > 0,
        !contains(s, needle),
    ensures
        replaced(s, needle, with) == s,
{
    lemma_find_from(s, needle, 0);
    if find_from(s, needle, 0) >= 0 {
        assert(occurs_at(s, needle, find_from(s, needle, 0)));
    }
    assert(s.skip(0) =~= s);
}

proof fn lemma_all_replaced(needle: Seq<char>, with: Seq<char>)
    requires
        needle.len() > 0,
    ensures
        replaced(needle, needle, with) == with,
{
    assert(needle.subrange(0, needle.len() as int) =~= needle);
    assert(occurs_at(needle, needle, 0));
    lemma_find_from(needle, needle, 0);
    let rest = replaced_from(needle, needle, with, needle.len() as int);
    assert(rest =~= Seq::empty());
    assert(needle.subrange(0, 0) + with + rest =~= with);
}

/// A command that names the file with `{file}` gets it there, and its other words
/// stay; a command that does not gets the file behind its words.
pub proof fn law_the_file_takes_its_place(argv: Seq<Seq<char>>, file: Seq<char>)
    ensures
        (forall|i: int| 0 <= i < argv.len() ==> !contains(#[trigger] argv[i], "{file}"@))
            ==> with_file(argv, file) == argv.push(file),
        (exists|i: int| 0 <= i < argv.len() && contains(#[trigger] argv[i], "{file}"@)) ==> {
            &&& with_file(argv, file).len() == argv.len()
            &&& forall|i: int|
                0 <= i < argv.len() && argv[i] == "{file}"@ ==> #[trigger] with_file(argv, file)[i]
                    == file
            &&& forall|i: int|
                0 <= i < argv.len() && !contains(argv[i], "{file}"@) ==> #[trigger] with_file(
                    argv,
                    file,
                )[i] == argv[i]
        },
{
    reveal_strlit("{file}");
    let mark = "{file}"@;
    lemma_all_replaced(mark, file);
    if exists|i: int| 0 <= i < argv.len() && contains(#[trigger] argv[i], mark) {
        assert(names_file(argv, argv.len() as int));
        assert forall|i: int| 0 <= i < argv.len() && !contains(argv[i], mark) implies
            #[trigger] with_file(argv, file)[i] == argv[i] by {
            lemma_nothing_replaced(argv[i], mark, file);
        }
    }
}

/// An editor is alive for 20 seconds after each sign of life.
pub proof fn law_editors_live_for_a_while(
    pane: EditorPaneView,
    workspace: Seq<char>,
    file: Seq<char>,
    now: u64,
    time: u64,
)
    requires
        pane.workspace_id == Some(workspace),
        pane.file == Some(file),
        pane.heartbeat == Some(time),
        pane.tab_id is Some,
        pane.pane_id is Some,
    ensures
        edits(pane, workspace, file, now) <==> now <= time + 20,
{
}

proof fn lemma_first_editor(
    panes: Seq<EditorPaneView>,
    workspace: Seq<char>,
    file: Seq<char>,
    now: u64,
    from: int,
    k: int,
)
    requires
        0 <= from <= k < panes.len(),
        edits(panes[k], workspace, file, now),
        forall|j: int| from <= j < k ==> !edits(#[trigger] panes[j], workspace, file, now),
    ensures
        editor_from(panes, workspace, file, now, from) == Some(
            (panes[k].tab_id->0, panes[k].pane_id->0),
        ),
    decreases k - from,
{
    if from < k {
        lemma_first_editor(panes, workspace, file, now, from + 1, k);
    }
}

proof fn lemma_no_editor(
    panes: Seq<EditorPaneView>,
    workspace: Seq<char>,
    file: Seq<char>,
    now: u64,
    from: int,
)
    requires
        0 <= from <= panes.len(),
        forall|j: int|
            from <= j < panes.len() ==> !edits(#[trigger] panes[j], workspace, file, now),
    ensures
        editor_from(panes, workspace, file, now, from) is None,
    decreases panes.len() - from,
{
    if from < panes.len() {
        lemma_no_editor(panes, workspace, file, now, from + 1);
    }
}

/// A file that an editor of the workspace holds is shown there, in the first of
/// these. Otherwise the editor is started in a new tab that is named after the
/// file. Without a command, or without a workspace, nothing is started.
pub proof fn law_files_open_in_their_editor(
    command: Option<String>,
    panes_json: Seq<char>,
    me: Seq<char>,
    file: Seq<char>,
    name: Seq<char>,
    now: u64,
    step: EditorStep,
    k: int,
)
    requires
        opens_file(command, panes_json, me, file, name, now, step),
    ensures
        command is None ==> step is Fail,
        workspace_in(panes_json, me).len() == 0 ==> step is Fail,
        command is Some && workspace_in(panes_json, me).len() > 0 ==> !(step is Fail),
        ({
            let workspace = workspace_in(panes_json, me);
            command matches Some(run) ==> workspace.len() > 0 ==> {
                &&& listed_editors(panes_json) matches Some(panes) ==> (0 <= k < panes.len()
                    && edits(panes[k], workspace, file, now) && (forall|j: int|
                    0 <= j < k ==> !edits(#[trigger] panes[j], workspace, file, now)) ==> (
                step matches EditorStep::Focus { tab_id, pane_id } && Some(tab_id@)
                    == panes[k].tab_id && Some(pane_id@) == panes[k].pane_id))
                &&& listed_editors(panes_json) matches Some(panes) ==> ((forall|j: int|
                    0 <= j < panes.len() ==> !edits(#[trigger] panes[j], workspace, file, now))
                    ==> (step matches EditorStep::Create { workspace_id, label, command: starts }
                    && workspace_id@ == workspace && label@ == name + " · editor"@ && starts
                    == run))
            }
        }),
{
    let workspace = workspace_in(panes_json, me);
    if let Some(panes) = listed_editors(panes_json) {
        if 0 <= k < panes.len() && edits(panes[k], workspace, file, now) && (forall|j: int|
            0 <= j < k ==> !edits(#[trigger] panes[j], workspace, file, now)) {
            lemma_first_editor(panes, workspace, file, now, 0, k);
        }
        if forall|j: int|
            0 <= j < panes.len() ==> !edits(#[trigger] panes[j], workspace, file, now) {
            lemma_no_editor(panes, workspace, file, now, 0);
        }
    }
}

proof fn lemma_editor_panes(list: Seq<Seq<char>>, n: int, k: int)
    requires
        0 <= k < n <= list.len(),
        editor_panes_in(list, n) is Some,
    ensures
        editor_panes_in(list, n)->0.len() == n,
        editor_pane_in(list[k]) == Some((editor_panes_in(list, n)->0)[k]),
    decreases n,
{
    if k < n - 1 {
        lemma_editor_panes(list, n - 1, k);
    } else if n > 1 {
        lemma_editor_panes(list, n - 1, 0);
    }
}

/// The editors are the panes of the list, in its order, each read from the
/// fields of their names; what it holds is told by its own token, and so is
/// when it last gave a sign of life.
pub proof fn law_editors_are_read_by_name(list: Seq<Seq<char>>, k: int, fields: Fields)
    requires
        0 <= k < list.len(),
        editor_panes_in(list, list.len() as int) is Some,
        fields_of(list[k], 4) == Some(fields),
    ensures
        ({
            let panes = editor_panes_in(list, list.len() as int)->0;
            &&& panes.len() == list.len()
            &&& text_field(fields, 0, "pane_id"@) == Some(panes[k].pane_id)
            &&& text_field(fields, 1, "tab_id"@) == Some(panes[k].tab_id)
            &&& text_field(fields, 2, "workspace_id"@) == Some(panes[k].workspace_id)
            &&& editor_tokens(fields) == Some((panes[k].file, panes[k].heartbeat))
        }),
{
    lemma_editor_panes(list, list.len() as int, k);
}

/// The token of an editor's file and that of its signs of life are told apart by
/// their names.
pub proof fn law_editor_tokens_have_their_names(tokens: Json, file: Seq<char>, time: u64)
    ensures
        member(tokens, "hs-editor-path"@) == Some(Json::Text(file)) ==> text_token(
            tokens,
            EDITOR_PATH_TOKEN@,
        ) == Some(file),
        member(tokens, "herdr-sidebar-editor"@) == Some(Json::Text(decimal(time as nat)))
            ==> editor_heartbeat(tokens) == Some(time),
        member(tokens, "herdr-sidebar-editor"@) is None ==> editor_heartbeat(tokens) is None,
{
    crate::text_laws::law_numbers_are_read_back(time as nat);
}

/// A tab that was made is answered with its id and with that of its pane.
pub proof fn law_made_tabs_are_answered_with_their_pane(
    answer: Json,
    result: Json,
    tab: Json,
    pane: Json,
    tab_id: Seq<char>,
    pane_id: Seq<char>,
)
    requires
        member(answer, "result"@) == Some(result),
        member(result, "tab"@) == Some(tab),
        member(result, "root_pane"@) == Some(pane),
        member(tab, "tab_id"@) == Some(Json::Text(tab_id)),
        member(pane, "pane_id"@) == Some(Json::Text(pane_id)),
    ensures
        created_ids(Some(answer)) == Some((tab_id, pane_id)),
{
}

/// The folder where the picker starts stands between quotes in its script, and
/// without one nothing stands there.
pub proof fn law_pickers_start_in_their_folder(start: Seq<char>)
    ensures
        picker_script_text(None)
            == "POSIX path of (choose folder with prompt \"Open Folder\""@ + ")"@,
        picker_script_text(Some(start))
            == "POSIX path of (choose folder with prompt \"Open Folder\""@
            + " default location POSIX file \""@ + escaped(start, start.len() as int) + "\""@ + ")"@,
{
    assert(picker_script_text(None) =~= "POSIX path of (choose folder with prompt \"Open Folder\""@
        + ")"@);
    assert(picker_script_text(Some(start))
        =~= "POSIX path of (choose folder with prompt \"Open Folder\""@
        + " default location POSIX file \""@ + escaped(start, start.len() as int) + "\""@ + ")"@);
}

/// Where the separator is a slash a file is known by its path as it is spelled;
/// where it is a backslash the case of its letters and the way its names are
/// separated do not matter.
pub proof fn law_files_are_known_by_their_path(path: Seq<char>)
    ensures
        editor_key(path, false) == path,
        editor_key(path, true) == lowercase(
            path.map(|i: int, c: char| if c == '/' { '\\' } else { c }),
        ),
{
    assert(crate::scm_app::outcomes::with_separators(path, '\\') =~= path.map(
        |i: int, c: char| if c == '/' { '\\' } else { c },
    ));
}

// ---- Menus ----

/// Every entry of the file menu bears the label of what it does.
pub proof fn law_menu_labels_say_what_is_done(target: Option<bool>, in_repo: bool, i: int)
    requires
        0 <= i < offered(target, in_repo).len(),
        offered(target, in_repo)[i] is Some,
    ensures
        ({
            let (action, label) = offered(target, in_repo)[i]->0;
            label == match action {
                MenuAction::NewFile => "New File…"@,
                MenuAction::NewFolder => "New Folder…"@,
                MenuAction::CopyPath => "Copy Path"@,
                MenuAction::CopyRelativePath => "Copy Relative Path"@,
                MenuAction::Rename => "Rename…"@,
                MenuAction::Delete => "Delete"@,
                MenuAction::Stage => "Stage Changes"@,
                MenuAction::OpenExternal => "Open with Default App"@,
                MenuAction::Reveal => "Reveal in File Explorer"@,
                MenuAction::ChangeFolder => "Change Folder…"@,
                MenuAction::ChangeFolderTyped => "Change Folder (Type Path)…"@,
            }
        }),
{
}

proof fn lemma_quoted(
    s: Seq<char>,
    i: int,
    q: char,
    end: int,
    word: Seq<char>,
    argv: Seq<Seq<char>>,
)
    requires
        0 <= i <= end < s.len(),
        s[end] == q,
        forall|k: int| i <= k < end ==> #[trigger] s[k] != q && s[k] != '\\',
    ensures
        argv_from(s, i, Some(q), word, true, argv) == argv_from(
            s,
            end + 1,
            None,
            word + s.subrange(i, end),
            true,
            argv,
        ),
    decreases end - i,
{
    if i < end {
        assert(s[i] != q);
        lemma_quoted(s, i + 1, q, end, word.push(s[i]), argv);
        assert(word.push(s[i]) + s.subrange(i + 1, end) =~= word + s.subrange(i, end));
    } else {
        assert(word + s.subrange(i, end) =~= word);
    }
}

proof fn lemma_unclosed(s: Seq<char>, i: int, q: char, word: Seq<char>, argv: Seq<Seq<char>>)
    requires
        0 <= i <= s.len(),
        forall|k: int| i <= k < s.len() ==> #[trigger] s[k] != q && s[k] != '\\',
    ensures
        argv_from(s, i, Some(q), word, true, argv) is None,
    decreases s.len() - i,
{
    if i < s.len() {
        assert(s[i] != q);
        lemma_unclosed(s, i + 1, q, word.push(s[i]), argv);
    }
}

/// What stands between quotes is one word, whatever it holds but quotes of that
/// kind and backslashes; a quote that is not closed makes no command.
pub proof fn law_quotes_hold_a_word_together(text: Seq<char>, q: char)
    requires
        q == '"' || q == '\'',
        forall|i: int| 0 <= i < text.len() ==> #[trigger] text[i] != q && text[i] != '\\',
    ensures
        command_words(seq![q] + text + seq![q]) == Some(seq![text]),
        command_words(seq![q] + text) is None,
{
    let s = seq![q] + text + seq![q];
    lemma_quoted(s, 1, q, text.len() as int + 1, Seq::empty(), Seq::empty());
    assert(s.subrange(1, text.len() as int + 1) =~= text);
    assert(Seq::<char>::empty() + text =~= text);
    assert(Seq::<Seq<char>>::empty().push(text) =~= seq![text]);
    lemma_unclosed(seq![q] + text, 1, q, Seq::empty(), Seq::empty());
}

/// A backslash before white space, a quote or a backslash makes that an ordinary
/// character of the word; in double quotes before a quote or a backslash.
pub proof fn law_backslashes_make_characters_ordinary(c: char)
    ensures
        c == '"' || c == '\'' || c == '\\' || is_whitespace(c) ==> command_words(seq!['\\', c])
            == Some(seq![seq![c]]),
        c == '"' || c == '\\' ==> command_words(seq!['"', '\\', c, '"']) == Some(seq![seq![c]]),
        command_words(Seq::empty()) == Some(Seq::<Seq<char>>::empty()),
{
    reveal_with_fuel(argv_from, 5);
    let bare = seq!['\\', c];
    let quoted = seq!['"', '\\', c, '"'];
    assert(Seq::<char>::empty().push(c) =~= seq![c]);
    assert(Seq::<Seq<char>>::empty().push(seq![c]) =~= seq![seq![c]]);
    assert(bare.len() == 2 && quoted.len() == 4);
}

/// Where there is no tool and the terminal has not taken the text, that is told;
/// where there are tools, the error of the last one is.
pub proof fn law_failed_copies_tell_why(
    tools: Seq<Result<(), String>>,
    printed: Result<(), String>,
    error: String,
)
    requires
        printed is Err,
    ensures
        tools.len() == 0 ==> copy_outcome(tools, printed) == Some("no clipboard tool found"@),
        tools.len() > 0 && (forall|i: int| 0 <= i < tools.len() ==> (#[trigger] tools[i]) is Err)
            && tools.last() == Err::<(), String>(error) ==> copy_outcome(tools, printed) == Some(
            error@,
        ),
{
}

/// What stands in the way of an editor is told.
pub proof fn law_missing_editors_are_told(
    command: Option<String>,
    panes_json: Seq<char>,
    me: Seq<char>,
    file: Seq<char>,
    name: Seq<char>,
    now: u64,
    step: EditorStep,
)
    requires
        opens_file(command, panes_json, me, file, name, now, step),
    ensures
        command is None ==> (step matches EditorStep::Fail(reason) && reason@
            == "set HERDR_SIDEBAR_EDITOR, VISUAL, or EDITOR"@),
        command is Some && workspace_in(panes_json, me).len() == 0 ==> (
        step matches EditorStep::Fail(reason) && reason@ == "could not find the current workspace"@),
{
}

/// The editors stand under `panes` in the result of a list, and the tokens of
/// one under `tokens`.
pub proof fn law_lists_of_editors_have_names(
    text: Seq<char>,
    result: Fields,
    list: Seq<Seq<char>>,
    pane: Fields,
)
    ensures
        result_of(message_value(text), 1) == Some(result) && list_field(result, 0, "panes"@)
            == Some(list) ==> listed_editors(text) == editor_panes_in(list, list.len() as int),
        given(pane, 3, "tokens"@) is Not ==> editor_tokens(pane) == Some(
            (None::<Seq<char>>, None::<u64>),
        ),
        given(pane, 3, "tokens"@) is Again ==> editor_tokens(pane) is None,
{
}

} // verus!
