//! What holds of the parts that both views share: their settings, their menus,
//! their clicks and their bar.

use crate::chrome::button_text;
use crate::geometry::{in_area, Area};
use crate::input::{Key, KeyCode, Mouse, MouseKind};
use crate::popup::{
    menu_area, menu_item_spec, menu_key_spec, menu_mouse_spec, settings_area, settings_mouse_spec,
    settings_row_spec, MenuKey, MenuMouse, SettingsMouse,
};
use crate::sections::{columns_of, has_room, last_line, section, total};
use crate::settings::{
    arrow_step, explorer_settings, flipped, row_text_spec, scm_settings, setting_step,
    settings_key_spec, shared_flags, wanted_width, Flags, IconTheme, Prefs, Setting, SettingRow,
    SettingStep, SettingsKey,
};
use crate::view::{
    is_double, set_unified, surroundings_changed, unify_step, unite_step, UnifyAction, UnifyStep,
    UniteStep,
};
use vstd::prelude::*;

verus! {

// ---- Settings ----

/// Changing a setting that is on or off changes its own flag, and no other one.
pub proof fn law_each_setting_flips_its_own_flag(flags: Flags, setting: Setting)
    ensures
        ({
            let after = flipped(flags, setting);
            &&& after.dock_right == (flags.dock_right != (setting == Setting::DockRight))
            &&& after.custom_editor_on_click == (flags.custom_editor_on_click != (setting
                == Setting::CustomEditorClick))
            &&& after.show_hidden == (flags.show_hidden != (setting == Setting::HiddenFiles))
            &&& after.show_hotkeys == (flags.show_hotkeys != (setting == Setting::Hotkeys))
            &&& after.auto_open == (flags.auto_open != (setting == Setting::AutoOpen))
            &&& after.strict_toggle == (flags.strict_toggle != (setting == Setting::StrictToggle))
            &&& after.focus_on_open == (flags.focus_on_open != (setting == Setting::FocusOnOpen))
            &&& after.follow_cwd == (flags.follow_cwd != (setting == Setting::FollowCwd))
            &&& after.git_deco == (flags.git_deco != (setting == Setting::GitDecorations))
            &&& after.show_git_footer == (flags.show_git_footer != (setting == Setting::GitFooter))
            &&& after.merged == flags.merged
        }),
{
}

/// Each row of the settings shows the value that its label stands for.
pub proof fn law_settings_show_their_own_value(prefs: Prefs)
    ensures
        prefs.row(Setting::UnifiedSidebar).label == "Unified sidebar"@,
        prefs.row(Setting::UnifiedSidebar).value == (if prefs.flags.merged && prefs.other_view {
            "on"@
        } else {
            "off"@
        }),
        prefs.row(Setting::UnifiedSidebar).enabled == prefs.other_view,
        prefs.row(Setting::DockRight).label == "Dock on the right"@,
        prefs.row(Setting::DockRight).value == (if prefs.flags.dock_right {
            "on"@
        } else {
            "off"@
        }),
        prefs.row(Setting::SidebarWidth).value == crate::text::decimal(prefs.sidebar_width as nat)
            + " cols"@,
        prefs.row(Setting::AbovePercent).value == crate::text::decimal(prefs.above_percent as nat)
            + "%"@,
        prefs.row(Setting::AbovePercent).enabled == prefs.stacks_above,
        prefs.row(Setting::IconTheme).value == (if prefs.theme == IconTheme::Emoji {
            "emoji"@
        } else {
            "material"@
        }),
        prefs.row(Setting::ColorTheme).value == prefs.color_theme@,
        prefs.row(Setting::PreviewPlacement).value == prefs.preview_placement@,
        prefs.row(Setting::CustomEditorClick).label == "Use editor on click"@,
        prefs.row(Setting::CustomEditorClick).value == (if prefs.flags.custom_editor_on_click {
            "on"@
        } else {
            "off"@
        }),
        prefs.row(Setting::CustomEditorClick).enabled == (prefs.editor is Some),
        prefs.editor is None ==> prefs.row(Setting::CustomEditorCommand).value == "not set"@,
        prefs.row(Setting::HiddenFiles).label == "Hidden files"@,
        prefs.row(Setting::HiddenFiles).value == (if prefs.flags.show_hidden {
            "shown"@
        } else {
            "hidden"@
        }),
        prefs.row(Setting::Hotkeys).label == "Footer hotkeys"@,
        prefs.row(Setting::Hotkeys).value == (if prefs.flags.show_hotkeys {
            "shown"@
        } else {
            "hidden"@
        }),
        prefs.row(Setting::AutoOpen).label == "Auto-open sidebar"@,
        prefs.row(Setting::AutoOpen).value == (if prefs.flags.auto_open {
            "on"@
        } else {
            "off"@
        }),
        prefs.row(Setting::StrictToggle).label == "Strict toggle"@,
        prefs.row(Setting::StrictToggle).value == (if prefs.flags.strict_toggle {
            "on"@
        } else {
            "off"@
        }),
        prefs.row(Setting::FocusOnOpen).label == "Focus on open"@,
        prefs.row(Setting::FocusOnOpen).value == (if prefs.flags.focus_on_open {
            "on"@
        } else {
            "off"@
        }),
        prefs.row(Setting::FollowCwd).value == prefs.follow_value@,
        prefs.row(Setting::GitDecorations).label == "Git decorations"@,
        prefs.row(Setting::GitDecorations).value == (if prefs.flags.git_deco {
            "on"@
        } else {
            "off"@
        }),
        prefs.row(Setting::GitFooter).label == "Git footer"@,
        prefs.row(Setting::GitFooter).value == (if prefs.flags.show_git_footer {
            "shown"@
        } else {
            "hidden"@
        }),
        prefs.row(Setting::Folder).value == prefs.folder@,
{
}

/// What `Enter` on a setting does: it turns the sidebar, the icons or the flag
/// over, and asks for what cannot be turned over.
pub proof fn law_settings_change_what_they_name(
    setting: Setting,
    unified: bool,
    theme: IconTheme,
)
    ensures
        ({
            let step = setting_step(setting, unified, theme);
            &&& setting == Setting::UnifiedSidebar ==> step == SettingStep::SetUnified(!unified)
            &&& setting == Setting::SidebarWidth ==> step == SettingStep::Wider
            &&& setting == Setting::AbovePercent ==> step == SettingStep::Taller
            &&& setting == Setting::IconTheme ==> (step matches SettingStep::Icons(other) && other
                != theme)
            &&& setting == Setting::ColorTheme ==> step == SettingStep::NextColorTheme
            &&& setting == Setting::PreviewPlacement ==> step == SettingStep::NextPlacement
            &&& setting == Setting::CustomEditorCommand ==> step == SettingStep::AskEditor
            &&& setting == Setting::Folder ==> step == SettingStep::ChooseFolder
            &&& setting == Setting::DockRight || setting == Setting::HiddenFiles || setting
                == Setting::Hotkeys || setting == Setting::AutoOpen || setting
                == Setting::StrictToggle || setting == Setting::FocusOnOpen || setting
                == Setting::FollowCwd || setting == Setting::GitDecorations || setting
                == Setting::GitFooter || setting == Setting::CustomEditorClick ==> step
                == SettingStep::Flip(setting)
        }),
{
}

/// Source Control has the settings of the Explorer, but for those of files and of
/// the editor; no setting is there twice.
pub proof fn law_both_views_have_their_settings(i: int, j: int)
    ensures
        0 <= i < j < explorer_settings().len() ==> explorer_settings()[i]
            != explorer_settings()[j],
        0 <= i < j < scm_settings().len() ==> scm_settings()[i] != scm_settings()[j],
        0 <= i < scm_settings().len() ==> scm_settings()[i] != Setting::HiddenFiles
            && scm_settings()[i] != Setting::CustomEditorCommand && scm_settings()[i]
            != Setting::CustomEditorClick,
        explorer_settings().len() == 18,
        scm_settings().len() == 15,
{
}

/// The keys of the settings: the arrows up and down move the selection by one,
/// left and right make the width or the height less and more, `Enter` and the
/// space bar change the selected setting, and `Esc`, `q` and `s` close.
pub proof fn law_settings_keys(rows: Seq<SettingRow>, selected: usize, key: Key)
    requires
        selected < rows.len() <= usize::MAX,
    ensures
        ({
            let step = settings_key_spec(rows, selected, key);
            let code = key.code;
            &&& code == KeyCode::Enter || code == KeyCode::Char(' ') <==> step
                == SettingsKey::Toggle(selected)
            &&& code == KeyCode::Esc || code == KeyCode::Char('q') || code == KeyCode::Char('s')
                <==> step == SettingsKey::Close
            &&& code == KeyCode::Up || code == KeyCode::Char('k') ==> (
            step matches SettingsKey::Select(i) && i == if selected > 0 {
                selected - 1
            } else {
                0
            })
            &&& code == KeyCode::Down || code == KeyCode::Char('j') ==> (
            step matches SettingsKey::Select(i) && i == if selected + 1 < rows.len() {
                selected + 1
            } else {
                selected as int
            })
            &&& rows[selected as int].setting == Setting::SidebarWidth ==> {
                &&& code == KeyCode::Right || code == KeyCode::Char('l') ==> step
                    == SettingsKey::AdjustWidth(true)
                &&& code == KeyCode::Left || code == KeyCode::Char('h') ==> step
                    == SettingsKey::AdjustWidth(false)
            }
            &&& rows[selected as int].setting == Setting::AbovePercent
                && rows[selected as int].enabled ==> {
                &&& code == KeyCode::Right || code == KeyCode::Char('l') ==> step
                    == SettingsKey::AdjustAbovePercent(true)
                &&& code == KeyCode::Left || code == KeyCode::Char('h') ==> step
                    == SettingsKey::AdjustAbovePercent(false)
            }
        }),
{
}

/// A sidebar adopts the flags that all of them share and keeps its own of the
/// others: whether it is unified, its hidden files, its hotkeys, and whether it
/// opens and follows by itself.
pub proof fn law_sidebars_share_some_flags(own: Flags, shared: Flags, editor: bool)
    ensures
        ({
            let after = shared_flags(own, shared, editor);
            &&& after.dock_right == shared.dock_right
            &&& after.strict_toggle == shared.strict_toggle
            &&& after.focus_on_open == shared.focus_on_open
            &&& after.git_deco == shared.git_deco
            &&& after.show_git_footer == shared.show_git_footer
            &&& editor ==> after.custom_editor_on_click == shared.custom_editor_on_click
            &&& !editor ==> after.custom_editor_on_click == own.custom_editor_on_click
            &&& after.merged == own.merged
            &&& after.show_hidden == own.show_hidden
            &&& after.show_hotkeys == own.show_hotkeys
            &&& after.auto_open == own.auto_open
            &&& after.follow_cwd == own.follow_cwd
        }),
{
}

// ---- Popups ----

/// A row of the settings is under the mouse where the mouse is inside of the
/// border, as far below its top as the row is behind the first one shown.
pub proof fn law_settings_rows_lie_inside_the_border(
    rect: Area,
    scroll: usize,
    count: usize,
    column: u16,
    row: u16,
)
    ensures
        settings_row_spec(rect, scroll, count, column, row) matches Some(i) ==> {
            &&& rect.x < column && column < rect.x + rect.width - 1
            &&& rect.y < row && row < rect.y + rect.height - 1
            &&& i - scroll == row - rect.y - 1
            &&& i < count
        },
        settings_row_spec(rect, scroll, count, column, row) is None && rect.x < column && column
            < rect.x + rect.width - 1 && rect.y < row && row < rect.y + rect.height - 1 ==> count
            - scroll <= row - rect.y - 1,
{
}

/// A click on a row of the settings changes it, a click beside the settings
/// closes them, and pointing at a row selects it.
pub proof fn law_settings_clicks(rect: Area, scroll: usize, count: usize, mouse: Mouse)
    ensures
        ({
            let step = settings_mouse_spec(rect, scroll, count, mouse);
            let row = settings_row_spec(rect, scroll, count, mouse.column, mouse.row);
            &&& mouse.kind == MouseKind::LeftDown ==> match row {
                Some(i) => step == SettingsMouse::Toggle(i),
                None => step == SettingsMouse::Close <==> !in_area(rect, mouse.column, mouse.row),
            }
            &&& mouse.kind == MouseKind::Moved ==> match row {
                Some(i) => step == SettingsMouse::Point(i),
                None => step == SettingsMouse::Nothing,
            }
            &&& mouse.kind != MouseKind::LeftDown ==> step !is Toggle && step !is Close
        }),
{
}

/// An entry of a menu is under the mouse where the mouse is inside of the border,
/// as far below its top as the entry is behind the first one. A click on it
/// activates it, a click elsewhere closes the menu, and a right click opens
/// another one there.
pub proof fn law_menu_clicks(rect: Area, actions: Seq<bool>, mouse: Mouse)
    requires
        rect.x < u16::MAX,
        rect.y < u16::MAX,
    ensures
        menu_item_spec(rect, actions, mouse.column, mouse.row) matches Some(i) ==> (i
            < actions.len() <= usize::MAX ==> actions[i as int] && i == mouse.row - rect.y - 1
            && rect.x < mouse.column < rect.x + rect.width - 1),
        mouse.kind == MouseKind::LeftDown ==> match menu_item_spec(
            rect,
            actions,
            mouse.column,
            mouse.row,
        ) {
            Some(i) => menu_mouse_spec(rect, actions, mouse) == MenuMouse::Activate(i),
            None => menu_mouse_spec(rect, actions, mouse) == MenuMouse::Close,
        },
        mouse.kind == MouseKind::RightDown ==> menu_mouse_spec(rect, actions, mouse)
            == MenuMouse::Reopen(mouse.column, mouse.row),
        mouse.kind == MouseKind::Moved ==> menu_mouse_spec(rect, actions, mouse) !is Activate
            && menu_mouse_spec(rect, actions, mouse) !is Close,
{
}

/// The keys of a menu: down and up step to the next entry and the one before,
/// `Enter` activates the selected one and `Esc` closes.
pub proof fn law_menu_keys(actions: Seq<bool>, selected: usize, key: Key)
    requires
        selected < actions.len() <= usize::MAX,
    ensures
        key.code == KeyCode::Enter <==> menu_key_spec(actions, selected, key) == MenuKey::Activate,
        key.code == KeyCode::Esc <==> menu_key_spec(actions, selected, key) == MenuKey::Close,
        key.code == KeyCode::Down || key.code == KeyCode::Char('j') ==> (menu_key_spec(
            actions,
            selected,
            key,
        ) matches MenuKey::Select(i) && i >= selected),
        key.code == KeyCode::Up || key.code == KeyCode::Char('k') ==> (menu_key_spec(
            actions,
            selected,
            key,
        ) matches MenuKey::Select(i) && i <= selected),
        selected + 1 < actions.len() && actions[selected + 1] && key.code == KeyCode::Down
            ==> menu_key_spec(actions, selected, key) == MenuKey::Select((selected + 1) as usize),
        selected > 0 && actions[selected - 1] && key.code == KeyCode::Up ==> menu_key_spec(
            actions,
            selected,
            key,
        ) == MenuKey::Select((selected - 1) as usize),
{
    crate::menu_nav::law_steps_land_on_actions(actions, selected as int, 1);
    crate::menu_nav::law_steps_land_on_actions(actions, selected as int, -1);
    if selected + 1 < actions.len() && actions[selected + 1] {
        crate::menu_nav::law_steps_skip_separators_only(
            actions,
            selected as int,
            selected as int + 1,
        );
    }
    if selected > 0 && actions[selected - 1] {
        crate::menu_nav::law_steps_skip_separators_only(
            actions,
            selected as int,
            selected as int - 1,
        );
    }
}

/// A menu opens right below the cell that it was asked for, where there is room
/// for it.
pub proof fn law_menus_open_below_their_cell(
    x: u16,
    y: u16,
    label_width: nat,
    entries: nat,
    width: u16,
    height: u16,
)
    requires
        x + label_width + 4 <= width,
        y + 1 + entries + 2 <= height,
    ensures
        ({
            let a = menu_area(x, y, label_width, entries, width, height);
            a.x == x && a.y == y + 1 && a.width == label_width + 4 && a.height == entries + 2
        }),
{
}

// ---- Views ----

/// Two clicks are a double click where they are on the same row and less than
/// 450 milliseconds apart.
pub proof fn law_double_clicks_are_quick_and_on_one_row(
    row: usize,
    at: u64,
    index: usize,
    now: u64,
)
    ensures
        is_double(Some((row, at)), index, now) <==> row == index && now - at < 450,
        !is_double(None, index, now),
{
}

/// The two views are united or taken apart where that is asked for and is not so
/// already, and where there is another view. Taken apart, the pane is widened to
/// twice its columns and one for the border.
pub proof fn law_views_are_united_on_demand(
    on: bool,
    unified: bool,
    other_view: bool,
    width: u16,
    res: UnifyAction,
)
    requires
        call_ensures(set_unified, (on, unified, other_view, width), res),
    ensures
        on && !unified && other_view ==> res == UnifyAction::Unite,
        !on && unified && other_view ==> (res matches UnifyAction::Separate { width: wider } && (
        width <= 32000 ==> wider == 2 * width + 1)),
        on == unified || !other_view ==> res == UnifyAction::Nothing,
{
}

/// A pane that is asked to close is waited for; where there is none nothing is
/// left to do, and where it cannot be asked everything is taken back. One that
/// stays open for too long is given up.
pub proof fn law_uniting_waits_for_the_other_pane(
    closing: Option<bool>,
    width: u16,
    step: UniteStep,
    gone: bool,
    waited: u64,
    next: UnifyStep,
)
    requires
        call_ensures(unite_step, (closing, width), step),
        call_ensures(unify_step, (gone, waited), next),
    ensures
        closing == Some(true) ==> step == (UniteStep::AwaitClose { width }),
        closing == Some(false) ==> step == UniteStep::Settled,
        closing is None ==> step == UniteStep::TakeBack,
        gone ==> next == UnifyStep::Done,
        !gone && waited < 2000 ==> next == UnifyStep::Wait,
        !gone && waited >= 2000 ==> next == UnifyStep::GiveUp,
{
}

// ---- Drawing ----

/// A row of the settings has its label at the left and its value at the right,
/// and fills its width where both have room.
pub proof fn law_settings_rows_fill_their_width(label: Seq<char>, value: Seq<char>, width: nat)
    requires
        label.len() + value.len() + 2 < width,
    ensures
        ({
            let row = row_text_spec(label, value, width);
            &&& row.len() == width
            &&& row.subrange(1, 1 + label.len() as int) == label
            &&& row.subrange(width - 1 - value.len(), width - 1) == value
            &&& row[0] == ' ' && row[width - 1] == ' '
            &&& forall|i: int|
                1 + label.len() <= i < width - 1 - value.len() ==> #[trigger] row[i] == ' '
        }),
{
    reveal_strlit(" ");
    let row = row_text_spec(label, value, width);
    assert(row.subrange(1, 1 + label.len() as int) =~= label);
    assert(row.subrange(width - 1 - value.len(), width - 1) =~= value);
}

/// Each setting of a list has its row, in the order of the list.
pub proof fn law_settings_rows_keep_their_order(prefs: Prefs, list: Seq<Setting>, i: int)
    requires
        0 <= i < list.len(),
    ensures
        prefs.rows_spec(list).len() == list.len(),
        prefs.rows_spec(list)[i].setting == list[i],
{
}

/// The settings stand in the middle, with half as many free lines above them as
/// below, and are no larger than the screen.
pub proof fn law_settings_stand_in_the_middle(
    desired: nat,
    rows: nat,
    hints: nat,
    width: u16,
    height: u16,
)
    ensures
        ({
            let area = settings_area(desired, rows, hints, width, height);
            &&& area.width <= width && area.height <= height
            &&& desired <= width ==> area.width == desired
            &&& rows + 5 + hints <= height ==> area.height == rows + 5 + hints
            &&& 0 <= (width - area.x - area.width) - area.x <= 1
            &&& 3 * area.y <= height - area.height < 3 * area.y + 3
        }),
{
}

/// The sections of an area stand under each other without a gap, and the last
/// one ends where it ends.
pub proof fn law_sections_stand_under_each_other(area: Area, above: Seq<u16>, below: u16, i: int)
    requires
        has_room(area, above, below),
        0 <= i <= above.len(),
    ensures
        section(area, above, below, 0).y == area.y,
        section(area, above, below, i).y + section(area, above, below, i).height == section(
            area,
            above,
            below,
            i + 1,
        ).y,
        i < above.len() ==> section(area, above, below, i).height == above[i],
        section(area, above, below, above.len() as int + 1).height == below,
        section(area, above, below, above.len() as int + 1).y + below == area.y + area.height,
{
    lemma_total(above, i);
    lemma_total(above, 0);
    assert(above.take(0).len() == 0);
    assert(above.take(above.len() as int) =~= above);
    if i < above.len() {
        lemma_total(above, i + 1);
        assert(above.take(i + 1).drop_last() =~= above.take(i));
        assert(above.take(i + 1).last() == above[i]);
    }
}

proof fn lemma_total(heights: Seq<u16>, i: int)
    requires
        0 <= i <= heights.len(),
    ensures
        0 <= total(heights.take(i)) <= total(heights),
    decreases heights.len() - i, i,
{
    if i == heights.len() {
        assert(heights.take(i) =~= heights);
        lemma_total_is_positive(heights);
    } else {
        lemma_total(heights, i + 1);
        assert(heights.take(i + 1).drop_last() =~= heights.take(i));
        lemma_total_is_positive(heights.take(i));
    }
}

proof fn lemma_total_is_positive(heights: Seq<u16>)
    ensures
        total(heights) >= 0,
    decreases heights.len(),
{
    if heights.len() > 0 {
        lemma_total_is_positive(heights.drop_last());
    }
}

/// An area is cut into two columns that fill it, the second as wide as asked for
/// as far as there is room.
pub proof fn law_columns_stand_side_by_side(area: Area, last: u16)
    requires
        area.x + area.width <= u16::MAX,
    ensures
        ({
            let (first, second) = columns_of(area, last);
            &&& first.x == area.x
            &&& second.x == first.x + first.width
            &&& first.width + second.width == area.width
            &&& last <= area.width ==> second.width == last
            &&& last > area.width ==> second.width == area.width
            &&& first.y == area.y && second.y == area.y
            &&& first.height == area.height && second.height == area.height
        }),
{
}

/// The last line of an area is one line high and ends where the area ends.
pub proof fn law_the_last_line_ends_the_area(footer: Area)
    requires
        footer.height > 0,
        footer.y + footer.height <= u16::MAX,
    ensures
        last_line(footer).height == 1,
        last_line(footer).y + 1 == footer.y + footer.height,
        last_line(footer).x == footer.x && last_line(footer).width == footer.width,
{
    reveal(crate::geometry::capped);
}

/// The icon of a view stands between spaces on its button, with one more behind
/// where the icons are two columns wide.
pub proof fn law_buttons_show_their_icon(icon: Seq<char>)
    ensures
        button_text(icon, IconTheme::Material) == " "@ + icon + "  "@,
        forall|theme: IconTheme|
            theme != IconTheme::Material ==> #[trigger] button_text(icon, theme) == " "@ + icon
                + " "@,
{
}

proof fn lemma_wanted_width(rows: Seq<SettingRow>, n: int, i: int)
    requires
        0 <= i < n <= rows.len(),
    ensures
        wanted_width(rows, n) >= rows[i].label@.len() + rows[i].value@.len() + 5,
        wanted_width(rows, n) >= 30,
    decreases n,
{
    if i < n - 1 {
        lemma_wanted_width(rows, n - 1, i);
    } else if n > 1 {
        lemma_wanted_width(rows, n - 1, 0);
    }
}

proof fn lemma_wanted_width_is_needed(rows: Seq<SettingRow>, n: int)
    requires
        0 <= n <= rows.len(),
    ensures
        wanted_width(rows, n) == 30 || exists|i: int|
            0 <= i < n && wanted_width(rows, n) == (#[trigger] rows[i]).label@.len()
                + rows[i].value@.len() + 5,
    decreases n,
{
    if n > 0 {
        lemma_wanted_width_is_needed(rows, n - 1);
        let own = rows[n - 1].label@.len() + rows[n - 1].value@.len() + 5;
        if own <= wanted_width(rows, n - 1) && wanted_width(rows, n - 1) != 30 {
            let i = choose|i: int|
                0 <= i < n - 1 && wanted_width(rows, n - 1) == (#[trigger] rows[i]).label@.len()
                    + rows[i].value@.len() + 5;
            assert(wanted_width(rows, n) == rows[i].label@.len() + rows[i].value@.len() + 5);
        }
    }
}

/// The settings are as wide as their widest row asks for, and at least thirty
/// columns.
pub proof fn law_settings_are_as_wide_as_their_rows(rows: Seq<SettingRow>, i: int)
    requires
        0 <= i < rows.len(),
    ensures
        wanted_width(rows, rows.len() as int) >= 30,
        wanted_width(rows, rows.len() as int) >= rows[i].label@.len() + rows[i].value@.len() + 5,
        wanted_width(rows, rows.len() as int) == 30 || exists|k: int|
            0 <= k < rows.len() && wanted_width(rows, rows.len() as int) == (
            #[trigger] rows[k]).label@.len() + rows[k].value@.len() + 5,
{
    lemma_wanted_width(rows, rows.len() as int, i);
    lemma_wanted_width_is_needed(rows, rows.len() as int);
}

/// The surroundings have changed where the tab is known to have had another
/// width; a width that is not known keeps the one that was.
pub proof fn law_surroundings_change_with_the_tab(
    before: Option<i64>,
    now: Option<i64>,
    res: (bool, Option<i64>),
)
    requires
        call_ensures(surroundings_changed, (before, now), res),
    ensures
        before is None || now is None ==> !res.0,
        before is Some && now is Some ==> (res.0 <==> before->0 != now->0),
        now is Some ==> res.1 == now,
        now is None ==> res.1 == before,
{
}

/// The arrow keys make the sidebar wider and narrower on the row of its width,
/// and the upper pane higher and lower on the row of its share where that can be
/// changed; on other rows they do nothing.
pub proof fn law_arrows_change_sizes(rows: Seq<SettingRow>, selected: usize, up: bool)
    requires
        selected < rows.len(),
    ensures
        ({
            let row = rows[selected as int];
            &&& row.setting == Setting::SidebarWidth ==> arrow_step(rows, selected, up)
                == SettingsKey::AdjustWidth(up)
            &&& row.setting == Setting::AbovePercent && row.enabled ==> arrow_step(
                rows,
                selected,
                up,
            ) == SettingsKey::AdjustAbovePercent(up)
            &&& row.setting != Setting::SidebarWidth && row.setting != Setting::AbovePercent
                ==> arrow_step(rows, selected, up) == SettingsKey::Nothing
        }),
{
}

} // verus!
