use vstd::prelude::*;
use crate::flow::opt_view;
use crate::sequence::{SequenceEditorState, SequenceModel, seq_wf};
use crate::text::{
    append_allowed, decimal, kept, pop_char, text_of, u32_text, with_json_ext, json_file_name,
    CharRule,
};

verus! {

/// The text fields of the canvas screen.
pub enum CanvasInput {
    FilenamePrompt { buf: String },
    LevelName { buf: String },
}

/// A canvas text field, as values.
pub enum InputModel {
    Filename(Seq<char>),
    LevelName(Seq<char>),
}

/// The canvas screen of the level editor, over the blocks `S` of the level being edited: the
/// file and name of the level, the blocks, the sequence entry it belongs to, the selected
/// block, whether it has unsaved edits, which redraws are pending, the snap grid in pixels
/// (0 = off), the open text field, the unsaved-changes warning and the status line with the
/// milliseconds it stays up.
pub struct CanvasState<S> {
    pub filepath: Option<String>,
    pub level_name: Option<String>,
    pub slots: Vec<S>,
    pub sequence_index: Option<usize>,
    pub selected_block: Option<usize>,
    pub dirty: bool,
    pub sync_needed: bool,
    pub snap_grid: u32,
    pub grid_needs_rebuild: bool,
    pub text_input: Option<CanvasInput>,
    pub showing_unsaved_warning: bool,
    pub status_msg: String,
    pub status_timer_ms: u32,
}

/// The canvas screen as values.
pub struct CanvasModel<S> {
    pub filepath: Option<Seq<char>>,
    pub level_name: Option<Seq<char>>,
    pub slots: Seq<S>,
    pub sequence_index: Option<usize>,
    pub selected: Option<usize>,
    pub dirty: bool,
    pub sync_needed: bool,
    pub snap_grid: u32,
    pub grid_needs_rebuild: bool,
    pub input: Option<InputModel>,
    pub warning: bool,
    pub status: Seq<char>,
    pub status_ms: int,
}

impl<S> View for CanvasState<S> {
    type V = CanvasModel<S>;

    open spec fn view(&self) -> CanvasModel<S> {
        CanvasModel {
            filepath: opt_view(self.filepath),
            level_name: opt_view(self.level_name),
            slots: self.slots@,
            sequence_index: self.sequence_index,
            selected: self.selected_block,
            dirty: self.dirty,
            sync_needed: self.sync_needed,
            snap_grid: self.snap_grid,
            grid_needs_rebuild: self.grid_needs_rebuild,
            input: match self.text_input {
                Some(CanvasInput::FilenamePrompt { buf }) => Some(InputModel::Filename(buf@)),
                Some(CanvasInput::LevelName { buf }) => Some(InputModel::LevelName(buf@)),
                None => None,
            },
            warning: self.showing_unsaved_warning,
            status: self.status_msg@,
            status_ms: self.status_timer_ms as int,
        }
    }
}

/// The selected block, if any, is one of the blocks.
pub open spec fn canvas_wf<S>(m: CanvasModel<S>) -> bool {
    m.selected matches Some(s) ==> s < m.slots.len()
}

/// The snap grid after G: off, 5, 10, 20 pixels, then off again.
pub open spec fn spec_next_grid(g: u32) -> u32 {
    if g == 0 {
        5
    } else if g == 5 {
        10
    } else if g == 10 {
        20
    } else {
        0
    }
}

/// The file a level is saved to from the file-name field: `custom/untitled.json` when the
/// field is empty, else the typed path with the `.json` extension.
pub open spec fn save_path(buf: Seq<char>) -> Seq<char> {
    if buf.len() == 0 {
        "custom/untitled.json"@
    } else {
        with_json_ext(buf)
    }
}

/// The canvas after Delete: the selected block is removed and the selection moves to the
/// block before it (none when no block is left).
pub open spec fn model_delete_selected<S>(m: CanvasModel<S>) -> CanvasModel<S> {
    match m.selected {
        Some(sel) => if sel < m.slots.len() {
            let slots = m.slots.remove(sel as int);
            CanvasModel {
                slots,
                selected: if slots.len() == 0 { None } else { Some(if sel > 0 { (sel - 1) as usize } else { 0 }) },
                dirty: true,
                sync_needed: true,
                ..m
            }
        } else {
            m
        },
        None => m,
    }
}

/// The canvas and the sequence after a successful save to `path`: the level now lives at
/// `path` with no unsaved edits. A level saved for the first time is inserted into the
/// sequence right after its cursor (with its name); otherwise the cached name of its sequence
/// entry is refreshed.
pub open spec fn model_saved<S>(c: CanvasModel<S>, q: SequenceModel, path: Seq<char>) -> (CanvasModel<S>, SequenceModel) {
    let c2 = CanvasModel {
        filepath: Some(path),
        dirty: false,
        status: "Saved → levels/"@ + path,
        status_ms: 4000,
        ..c
    };
    if c.filepath is None {
        let idx = q.cursor + 1;
        (
            CanvasModel { sequence_index: Some(idx as usize), ..c2 },
            SequenceModel {
                entries: q.entries.insert(idx, path),
                names: q.names.insert(idx, c.level_name),
                cursor: idx,
                ..q
            },
        )
    } else {
        match c.sequence_index {
            Some(si) => if si < q.names.len() {
                (c2, SequenceModel { names: q.names.update(si as int, c.level_name), ..q })
            } else {
                (c2, q)
            },
            None => (c2, q),
        }
    }
}

/// What a canvas key asks of the caller.
pub enum CanvasAction {
    /// Nothing more to do.
    Stay,
    /// Save the level to this path (relative to `levels/`), then report with `finish_save`.
    SaveTo(String),
    /// Return to the sequence screen.
    Leave,
}

impl<S> CanvasState<S> {
    /// A blank level, tied to the given sequence position.
    pub fn new(sequence_index: Option<usize>) -> (res: CanvasState<S>)
        ensures
            res@.filepath is None,
            res@.level_name is None,
            res@.slots.len() == 0,
            res@.sequence_index == sequence_index,
            res@.selected is None,
            !res@.dirty && !res@.sync_needed && !res@.warning,
            res@.snap_grid == 0,
            res@.grid_needs_rebuild,
            res@.input is None,
            res@.status.len() == 0,
            res@.status_ms == 0,
            canvas_wf(res@),
    {
        CanvasState {
            filepath: None,
            level_name: None,
            slots: Vec::new(),
            sequence_index,
            selected_block: None,
            dirty: false,
            sync_needed: false,
            snap_grid: 0,
            grid_needs_rebuild: true,
            text_input: None,
            showing_unsaved_warning: false,
            status_msg: String::new(),
            status_timer_ms: 0,
        }
    }

    /// A level read from `filepath`, tied to sequence entry `sequence_index`.
    pub fn open(filepath: String, level_name: Option<String>, slots: Vec<S>, sequence_index: usize) -> (res: CanvasState<S>)
        ensures
            res@.filepath == Some(filepath@),
            res@.level_name == opt_view(level_name),
            res@.slots == slots@,
            res@.sequence_index == Some(sequence_index),
            res@.selected is None,
            !res@.dirty && !res@.sync_needed && !res@.warning,
            res@.snap_grid == 0,
            res@.grid_needs_rebuild,
            res@.input is None,
            res@.status.len() == 0,
            res@.status_ms == 0,
            canvas_wf(res@),
    {
        CanvasState {
            filepath: Some(filepath),
            level_name,
            slots,
            sequence_index: Some(sequence_index),
            selected_block: None,
            dirty: false,
            sync_needed: false,
            snap_grid: 0,
            grid_needs_rebuild: true,
            text_input: None,
            showing_unsaved_warning: false,
            status_msg: String::new(),
            status_timer_ms: 0,
        }
    }

    /// Escape in a text field: closes it.
    pub fn input_escape(&mut self)
        ensures
            final(self)@ == (CanvasModel { input: None, ..old(self)@ }),
    {
        self.text_input = None;
    }

    /// Enter in a text field. The file-name field asks to save to `save_path` of its text;
    /// the name field renames the level (an empty name removes it) and marks it edited.
    pub fn input_enter(&mut self) -> (res: CanvasAction)
        ensures
            match old(self)@.input {
                None => final(self)@ == old(self)@ && res is Stay,
                Some(InputModel::Filename(buf)) => final(self)@ == (CanvasModel { input: None, ..old(self)@ })
                    && (res matches CanvasAction::SaveTo(p) && p@ == save_path(buf)),
                Some(InputModel::LevelName(buf)) => final(self)@ == (CanvasModel {
                    input: None,
                    level_name: if buf.len() == 0 { None } else { Some(buf) },
                    dirty: true,
                    ..old(self)@
                }) && res is Stay,
            },
    {
        match self.text_input.take() {
            Some(CanvasInput::FilenamePrompt { buf }) => {
                let path = if buf.unicode_len() == 0 {
                    text_of("custom/untitled.json")
                } else {
                    json_file_name(buf)
                };
                CanvasAction::SaveTo(path)
            },
            Some(CanvasInput::LevelName { buf }) => {
                self.level_name = if buf.unicode_len() == 0 { None } else { Some(buf) };
                self.dirty = true;
                CanvasAction::Stay
            },
            None => CanvasAction::Stay,
        }
    }

    /// Backspace in a text field: removes the last typed character.
    pub fn input_backspace(&mut self)
        ensures
            final(self)@ == (CanvasModel {
                input: match old(self)@.input {
                    Some(InputModel::Filename(buf)) => Some(InputModel::Filename(
                        if buf.len() > 0 { buf.drop_last() } else { buf })),
                    Some(InputModel::LevelName(buf)) => Some(InputModel::LevelName(
                        if buf.len() > 0 { buf.drop_last() } else { buf })),
                    None => None,
                },
                ..old(self)@
            }),
    {
        match &mut self.text_input {
            Some(CanvasInput::FilenamePrompt { buf }) => {
                let _ = pop_char(buf);
            },
            Some(CanvasInput::LevelName { buf }) => {
                let _ = pop_char(buf);
            },
            None => {},
        }
    }

    /// Typed text in a text field: the file-name field keeps letters, digits, `-`, `_`, `.`
    /// and `/`; the name field keeps everything but control characters.
    pub fn input_chars(&mut self, s: &str)
        ensures
            final(self)@ == (CanvasModel {
                input: match old(self)@.input {
                    Some(InputModel::Filename(buf)) => Some(InputModel::Filename(
                        buf + kept(s@, CharRule::PathChars))),
                    Some(InputModel::LevelName(buf)) => Some(InputModel::LevelName(
                        buf + kept(s@, CharRule::Printable))),
                    None => None,
                },
                ..old(self)@
            }),
    {
        match &mut self.text_input {
            Some(CanvasInput::FilenamePrompt { buf }) => {
                append_allowed(buf, s, CharRule::PathChars);
            },
            Some(CanvasInput::LevelName { buf }) => {
                append_allowed(buf, s, CharRule::Printable);
            },
            None => {},
        }
    }

    /// Escape while the unsaved-changes warning shows: the edits are discarded and the
    /// editor returns to the sequence screen.
    pub fn warning_discard(&mut self) -> (res: CanvasAction)
        ensures
            final(self)@ == (CanvasModel { warning: false, dirty: false, ..old(self)@ }),
            res is Leave,
    {
        self.showing_unsaved_warning = false;
        self.dirty = false;
        CanvasAction::Leave
    }

    /// S: saves to the level's file, or opens the file-name field for a level that has none.
    pub fn request_save(&mut self) -> (res: Option<String>)
        ensures
            match old(self)@.filepath {
                Some(p) => final(self)@ == old(self)@ && (res matches Some(q) && q@ == p),
                None => final(self)@ == (CanvasModel {
                    input: Some(InputModel::Filename(Seq::empty())),
                    ..old(self)@
                }) && res is None,
            },
    {
        match &self.filepath {
            Some(p) => Some(p.clone()),
            None => {
                self.text_input = Some(CanvasInput::FilenamePrompt { buf: String::new() });
                None
            },
        }
    }

    /// S while the unsaved-changes warning shows: the warning closes and the level is saved
    /// (or the file-name field opens).
    pub fn warning_save(&mut self) -> (res: Option<String>)
        ensures
            match old(self)@.filepath {
                Some(p) => final(self)@ == (CanvasModel { warning: false, ..old(self)@ })
                    && (res matches Some(q) && q@ == p),
                None => final(self)@ == (CanvasModel {
                    warning: false,
                    input: Some(InputModel::Filename(Seq::empty())),
                    ..old(self)@
                }) && res is None,
            },
    {
        self.showing_unsaved_warning = false;
        self.request_save()
    }

    /// Delete / Backspace: removes the selected block.
    pub fn delete_selected(&mut self)
        requires
            canvas_wf(old(self)@),
        ensures
            final(self)@ == model_delete_selected(old(self)@),
            canvas_wf(final(self)@),
    {
        if let Some(sel) = self.selected_block {
            if sel < self.slots.len() {
                let _removed = self.slots.remove(sel);
                self.selected_block = if self.slots.len() == 0 {
                    None
                } else {
                    Some(sel.saturating_sub(1))
                };
                self.dirty = true;
                self.sync_needed = true;
            }
        }
    }

    /// F2: opens the name field holding the current level name.
    pub fn begin_rename(&mut self)
        ensures
            final(self)@ == (CanvasModel {
                input: Some(InputModel::LevelName(match old(self)@.level_name {
                    Some(n) => n,
                    None => Seq::empty(),
                })),
                ..old(self)@
            }),
    {
        let buf = match &self.level_name {
            Some(n) => n.clone(),
            None => String::new(),
        };
        self.text_input = Some(CanvasInput::LevelName { buf });
    }

    /// G: steps the snap grid (off, 5, 10, 20 pixels) and asks for the grid to be redrawn.
    pub fn cycle_grid(&mut self)
        ensures
            final(self)@ == (CanvasModel {
                snap_grid: spec_next_grid(old(self)@.snap_grid),
                grid_needs_rebuild: true,
                ..old(self)@
            }),
    {
        self.snap_grid = next_snap_grid(self.snap_grid);
        self.grid_needs_rebuild = true;
    }

    /// Escape: leaves for the sequence screen, or shows the warning when there are unsaved
    /// edits.
    pub fn escape(&mut self) -> (res: CanvasAction)
        ensures
            old(self)@.dirty ==> final(self)@ == (CanvasModel { warning: true, ..old(self)@ })
                && res is Stay,
            !old(self)@.dirty ==> final(self)@ == old(self)@ && res is Leave,
    {
        if self.dirty {
            self.showing_unsaved_warning = true;
            CanvasAction::Stay
        } else {
            CanvasAction::Leave
        }
    }

    /// Reports how saving to `path` went, updating the sequence screen `seq` on success.
    /// Failure shows `Save error: {e}` for five seconds.
    pub fn finish_save(&mut self, path: &str, result: Result<(), String>, seq: &mut SequenceEditorState)
        requires
            seq_wf(old(seq)@),
            result is Ok && old(self)@.filepath is None ==> old(seq)@.entries.len() > 0,
        ensures
            result is Ok ==> (final(self)@, final(seq)@) == model_saved(old(self)@, old(seq)@, path@),
            result matches Err(e) ==> final(self)@ == (CanvasModel {
                status: "Save error: "@ + e@,
                status_ms: 5000,
                ..old(self)@
            }) && final(seq)@ == old(seq)@,
            seq_wf(final(seq)@),
    {
        match result {
            Ok(()) => {
                let was_new = self.filepath.is_none();
                self.filepath = Some(text_of(path));
                self.dirty = false;
                let mut msg = text_of("Saved → levels/");
                msg.append(path);
                self.status_msg = msg;
                self.status_timer_ms = 4000;
                if was_new {
                    let ghost q = seq@;
                    let len = seq.entries.len();
                    assert(seq.cursor < len);
                    let idx = seq.cursor + 1;
                    seq.entries.insert(idx, text_of(path));
                    seq.blueprints.insert(idx, self.level_name.clone());
                    self.sequence_index = Some(idx);
                    seq.cursor = idx;
                    assert(seq@.entries =~= q.entries.insert(idx as int, path@));
                    assert(seq@.names =~= q.names.insert(idx as int, opt_view(self.level_name)));
                } else if let Some(si) = self.sequence_index {
                    if si < seq.blueprints.len() {
                        let ghost q = seq@;
                        seq.blueprints.set(si, self.level_name.clone());
                        assert(seq@.names =~= q.names.update(si as int, opt_view(self.level_name)));
                    }
                }
            },
            Err(e) => {
                let mut msg = text_of("Save error: ");
                msg.append(e.as_str());
                self.status_msg = msg;
                self.status_timer_ms = 5000;
            },
        }
    }

    /// A click on block `idx` (or one of its handles) selects it.
    pub fn select_block(&mut self, idx: usize)
        requires
            idx < old(self)@.slots.len(),
        ensures
            final(self)@ == (CanvasModel { selected: Some(idx), sync_needed: true, ..old(self)@ }),
            canvas_wf(final(self)@),
    {
        self.selected_block = Some(idx);
        self.sync_needed = true;
    }

    /// A click on empty canvas clears the selection (a redraw is needed if something was
    /// selected).
    pub fn clear_selection(&mut self)
        ensures
            final(self)@ == (CanvasModel {
                selected: None,
                sync_needed: old(self)@.sync_needed || old(self)@.selected is Some,
                ..old(self)@
            }),
            canvas_wf(final(self)@),
    {
        let had = self.selected_block.is_some();
        self.selected_block = None;
        if had {
            self.sync_needed = true;
        }
    }

    /// A block was moved or resized by dragging.
    pub fn mark_edited(&mut self)
        ensures
            final(self)@ == (CanvasModel { dirty: true, sync_needed: true, ..old(self)@ }),
    {
        self.dirty = true;
        self.sync_needed = true;
    }

    /// A new block drawn on the canvas is added and selected.
    pub fn add_slot(&mut self, slot: S)
        ensures
            final(self)@ == (CanvasModel {
                slots: old(self)@.slots.push(slot),
                selected: Some(old(self)@.slots.len() as usize),
                dirty: true,
                sync_needed: true,
                ..old(self)@
            }),
            canvas_wf(final(self)@),
    {
        let idx = self.slots.len();
        self.slots.push(slot);
        self.selected_block = Some(idx);
        self.dirty = true;
        self.sync_needed = true;
    }

    /// Whether the block entities must be rebuilt; the request is consumed.
    pub fn take_sync(&mut self) -> (res: bool)
        ensures
            res == old(self)@.sync_needed,
            final(self)@ == (CanvasModel { sync_needed: false, ..old(self)@ }),
    {
        let r = self.sync_needed;
        self.sync_needed = false;
        r
    }

    /// Whether the grid lines must be rebuilt; the request is consumed.
    pub fn take_grid_rebuild(&mut self) -> (res: bool)
        ensures
            res == old(self)@.grid_needs_rebuild,
            final(self)@ == (CanvasModel { grid_needs_rebuild: false, ..old(self)@ }),
    {
        let r = self.grid_needs_rebuild;
        self.grid_needs_rebuild = false;
        r
    }

    /// Counts down the status line by `elapsed_ms`; it is cleared when its time runs out.
    pub fn tick_status(&mut self, elapsed_ms: u32)
        ensures
            old(self)@.status_ms > 0 && elapsed_ms >= old(self)@.status_ms ==> final(self)@
                == (CanvasModel { status_ms: 0, status: Seq::empty(), ..old(self)@ }),
            old(self)@.status_ms > 0 && elapsed_ms < old(self)@.status_ms ==> final(self)@
                == (CanvasModel { status_ms: old(self)@.status_ms - elapsed_ms, ..old(self)@ }),
            old(self)@.status_ms == 0 ==> final(self)@ == old(self)@,
    {
        if self.status_timer_ms > 0 {
            if elapsed_ms >= self.status_timer_ms {
                self.status_timer_ms = 0;
                self.status_msg = String::new();
            } else {
                self.status_timer_ms = self.status_timer_ms - elapsed_ms;
            }
        }
    }

    /// Whether a text field or the warning is open (the canvas is dimmed and ignores the
    /// mouse).
    pub fn modal_active(&self) -> (res: bool)
        ensures
            res == (self@.input is Some || self@.warning),
    {
        self.text_input.is_some() || self.showing_unsaved_warning
    }

    /// The heads-up line: file (or `<unsaved>`), quoted level name, ` *` for unsaved edits,
    /// the block count and the grid setting.
    pub fn hud_line(&self) -> (res: String)
        ensures
            res@ == (match self@.filepath { Some(p) => p, None => "<unsaved>"@ })
                + (match self@.level_name { Some(n) => " \""@ + n + "\""@, None => Seq::empty() })
                + (if self.dirty { " *"@ } else { Seq::empty() })
                + "  |  "@ + decimal(self.slots@.len()) + " blocks"@
                + grid_label(self.snap_grid),
    {
        let mut s = match &self.filepath {
            Some(p) => p.clone(),
            None => text_of("<unsaved>"),
        };
        let ghost a = s@;
        match &self.level_name {
            Some(n) => {
                s.append(" \"");
                s.append(n.as_str());
                s.append("\"");
            },
            None => {},
        }
        let ghost b = s@;
        if self.dirty {
            s.append(" *");
        }
        let ghost c = s@;
        s.append("  |  ");
        let count = crate::text::usize_text(self.slots.len());
        s.append(count.as_str());
        s.append(" blocks");
        let g = if self.snap_grid > 0 {
            let mut g = text_of("  |  Grid: ");
            let n = u32_text(self.snap_grid);
            g.append(n.as_str());
            g.append("px");
            g
        } else {
            text_of("  |  Grid: off")
        };
        s.append(g.as_str());
        proof {
            let name = match self@.level_name { Some(n) => " \""@ + n + "\""@, None => Seq::<char>::empty() };
            let dirt = if self.dirty { " *"@ } else { Seq::<char>::empty() };
            assert(b =~= a + name);
            assert(c =~= b + dirt);
        }
        s
    }

    /// The text-field line: the open field with a cursor mark, the warning, or nothing.
    pub fn input_line(&self) -> (res: String)
        ensures
            res@ == (match self@.input {
                Some(InputModel::Filename(buf)) => "Save as: "@ + buf
                    + "_\n(relative to levels/, e.g. custom/my_level.json)"@,
                Some(InputModel::LevelName(buf)) => "Level name: "@ + buf + "_"@,
                None => if self.showing_unsaved_warning {
                    "Unsaved changes! Press Esc again to discard, or S to save."@
                } else {
                    Seq::empty()
                },
            }),
    {
        match &self.text_input {
            Some(CanvasInput::FilenamePrompt { buf }) => {
                let mut s = text_of("Save as: ");
                s.append(buf.as_str());
                s.append("_\n(relative to levels/, e.g. custom/my_level.json)");
                s
            },
            Some(CanvasInput::LevelName { buf }) => {
                let mut s = text_of("Level name: ");
                s.append(buf.as_str());
                s.append("_");
                s
            },
            None => {
                if self.showing_unsaved_warning {
                    text_of("Unsaved changes! Press Esc again to discard, or S to save.")
                } else {
                    String::new()
                }
            },
        }
    }
}

/// The grid part of the heads-up line.
pub open spec fn grid_label(g: u32) -> Seq<char> {
    if g > 0 {
        "  |  Grid: "@ + decimal(g as nat) + "px"@
    } else {
        "  |  Grid: off"@
    }
}

/// The snap grid after G.
pub fn next_snap_grid(g: u32) -> (res: u32)
    ensures
        res == spec_next_grid(g),
{
    match g {
        0 => 5,
        5 => 10,
        10 => 20,
        _ => 0,
    }
}

/// G cycles through exactly four settings: any grid lands on one of them, and four presses
/// bring each setting back.
pub proof fn law_grid_cycle(g: u32)
    ensures
        ({
            let n = spec_next_grid(g);
            n == 0 || n == 5 || n == 10 || n == 20
        }),
        (g == 0 || g == 5 || g == 10 || g == 20) ==> spec_next_grid(spec_next_grid(spec_next_grid(
            spec_next_grid(g)))) == g,
{
}

/// Deleting keeps the selection on a block, removes exactly the selected block, and keeps
/// the other blocks in order.
pub proof fn law_delete_keeps_selection_valid<S>(m: CanvasModel<S>)
    requires
        canvas_wf(m),
        m.selected is Some,
    ensures
        canvas_wf(model_delete_selected(m)),
        model_delete_selected(m).slots == m.slots.remove(m.selected->0 as int),
        model_delete_selected(m).slots.len() == m.slots.len() - 1,
{
}

/// A level saved for the first time joins the sequence right after the cursor, and the
/// cursor and the level's sequence position both point at it.
pub proof fn law_first_save_joins_sequence<S>(c: CanvasModel<S>, q: SequenceModel, path: Seq<char>)
    requires
        seq_wf(q),
        q.entries.len() > 0,
        c.filepath is None,
    ensures
        ({
            let (c2, q2) = model_saved(c, q, path);
            &&& seq_wf(q2)
            &&& q2.entries[q2.cursor] == path
            &&& q2.names[q2.cursor] == c.level_name
            &&& c2.sequence_index == Some(q2.cursor as usize)
            &&& c2.filepath == Some(path)
            &&& !c2.dirty
        }),
{
}

/// Every successful save leaves the level at the saved path with no unsaved edits, whether
/// or not it had a file before, and reports `Saved → levels/{path}` for four seconds; the
/// blocks and the level name are kept.
pub proof fn law_save_clears_unsaved_edits<S>(c: CanvasModel<S>, q: SequenceModel, path: Seq<char>)
    ensures
        !model_saved(c, q, path).0.dirty,
        model_saved(c, q, path).0.filepath == Some(path),
        model_saved(c, q, path).0.status == "Saved → levels/"@ + path,
        model_saved(c, q, path).0.status_ms == 4000,
        model_saved(c, q, path).0.slots == c.slots,
        model_saved(c, q, path).0.level_name == c.level_name,
{
}

} // verus!
