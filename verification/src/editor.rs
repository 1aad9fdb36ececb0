use vstd::prelude::*;
use crate::flow::{opt_view, GameState};
use crate::text::{append_allowed, decimal, kept, pop_char, text_of, usize_text, with_json_ext, json_file_name, CharRule};

verus! {

/// The in-game level editor: how many blocks are placed, the status line with the
/// milliseconds it stays up, and the file name being typed.
pub struct EditorBuildState {
    pub block_count: usize,
    pub status_msg: String,
    pub status_timer_ms: u32,
    pub filename_input: Option<String>,
}

/// What went wrong while saving a level from the in-game editor.
#[derive(Clone, Copy, Debug, PartialEq, Eq, Structural)]
pub enum EditorSaveError {
    CreateDir,
    Write,
    Serialize,
}

/// The hint shown when there is no status message.
pub open spec fn editor_hint() -> Seq<char> {
    "Arrows: move   Space/Down: place   S: save   R: reset   P: test   Esc: menu"@
}

/// The file name a typed name is saved under: `custom_level` when nothing was typed, with the
/// `.json` extension.
pub open spec fn editor_file_name(raw: Seq<char>) -> Seq<char> {
    with_json_ext(if raw.len() == 0 { "custom_level"@ } else { raw })
}

impl EditorBuildState {
    /// The editor with `blocks` blocks restored (none for a fresh editor), no status and no
    /// open field.
    pub fn new(blocks: usize) -> (res: EditorBuildState)
        ensures
            res.block_count == blocks,
            res.status_msg@.len() == 0,
            res.status_timer_ms == 0,
            res.filename_input is None,
    {
        EditorBuildState {
            block_count: blocks,
            status_msg: String::new(),
            status_timer_ms: 0,
            filename_input: None,
        }
    }

    /// Escape: closes the file-name field if it is open (the key is then used up); otherwise
    /// asks to return to the menu.
    pub fn escape(&mut self) -> (res: Option<GameState>)
        ensures
            old(self).filename_input is Some ==> final(self).filename_input is None && res is None,
            old(self).filename_input is None ==> final(self).filename_input is None
                && res == Some(GameState::Menu),
            final(self).block_count == old(self).block_count,
            final(self).status_msg == old(self).status_msg,
            final(self).status_timer_ms == old(self).status_timer_ms,
    {
        if self.filename_input.is_some() {
            self.filename_input = None;
            None
        } else {
            Some(GameState::Menu)
        }
    }

    /// S: opens the file-name field, empty.
    pub fn begin_save(&mut self)
        ensures
            final(self).filename_input matches Some(b) && b@.len() == 0,
            final(self).block_count == old(self).block_count,
            final(self).status_msg == old(self).status_msg,
            final(self).status_timer_ms == old(self).status_timer_ms,
    {
        self.filename_input = Some(String::new());
    }

    /// Enter in the file-name field: closes it and returns the file to save to (see
    /// `editor_file_name`; an unopened field counts as empty).
    pub fn input_enter(&mut self) -> (res: String)
        ensures
            res@ == editor_file_name(match old(self).filename_input {
                Some(b) => b@,
                None => Seq::empty(),
            }),
            final(self).filename_input is None,
            final(self).block_count == old(self).block_count,
            final(self).status_msg == old(self).status_msg,
            final(self).status_timer_ms == old(self).status_timer_ms,
    {
        let raw = match self.filename_input.take() {
            Some(b) => b,
            None => String::new(),
        };
        let name = if raw.unicode_len() == 0 { text_of("custom_level") } else { raw };
        json_file_name(name)
    }

    /// Backspace in the file-name field.
    pub fn input_backspace(&mut self)
        ensures
            opt_view(final(self).filename_input) == (match opt_view(old(self).filename_input) {
                Some(b) => Some(if b.len() > 0 { b.drop_last() } else { b }),
                None => None,
            }),
            final(self).block_count == old(self).block_count,
            final(self).status_msg == old(self).status_msg,
            final(self).status_timer_ms == old(self).status_timer_ms,
    {
        match &mut self.filename_input {
            Some(buf) => {
                let _ = pop_char(buf);
            },
            None => {},
        }
    }

    /// Typed text in the file-name field: letters, digits, `-`, `_` and `.` are kept.
    pub fn input_chars(&mut self, s: &str)
        ensures
            opt_view(final(self).filename_input) == (match opt_view(old(self).filename_input) {
                Some(b) => Some(b + kept(s@, CharRule::NameChars)),
                None => None,
            }),
            final(self).block_count == old(self).block_count,
            final(self).status_msg == old(self).status_msg,
            final(self).status_timer_ms == old(self).status_timer_ms,
    {
        match &mut self.filename_input {
            Some(buf) => {
                append_allowed(buf, s, CharRule::NameChars);
            },
            None => {},
        }
    }

    /// R: all blocks are cleared.
    pub fn reset(&mut self)
        ensures
            final(self).block_count == 0,
            final(self).status_msg@.len() == 0,
            final(self).status_timer_ms == old(self).status_timer_ms,
            final(self).filename_input == old(self).filename_input,
    {
        self.block_count = 0;
        self.status_msg = String::new();
    }

    /// A produced block was dropped onto the scene.
    pub fn block_placed(&mut self)
        requires
            old(self).block_count < usize::MAX,
        ensures
            final(self).block_count == old(self).block_count + 1,
            final(self).status_msg@.len() == 0,
            final(self).status_timer_ms == old(self).status_timer_ms,
            final(self).filename_input == old(self).filename_input,
    {
        self.block_count = self.block_count + 1;
        self.status_msg = String::new();
    }

    /// The browser build cannot save: says so for four seconds.
    pub fn save_unavailable(&mut self)
        ensures
            final(self).status_msg@ == "Save not available in browser build"@,
            final(self).status_timer_ms == 4000,
            final(self).block_count == old(self).block_count,
            final(self).filename_input == old(self).filename_input,
    {
        self.status_msg = text_of("Save not available in browser build");
        self.status_timer_ms = 4000;
    }

    /// The level was saved as `levels/custom/{filename}`: says so for four seconds.
    pub fn save_succeeded(&mut self, filename: &str)
        ensures
            final(self).status_msg@ == "Saved -> levels/custom/"@ + filename@,
            final(self).status_timer_ms == 4000,
            final(self).block_count == old(self).block_count,
            final(self).filename_input == old(self).filename_input,
    {
        let mut msg = text_of("Saved -> levels/custom/");
        msg.append(filename);
        self.status_msg = msg;
        self.status_timer_ms = 4000;
    }

    /// Saving failed: the message names the failing step and the error; its time on screen is
    /// left as it was.
    pub fn save_failed(&mut self, error: EditorSaveError, detail: &str)
        ensures
            final(self).status_msg@ == (match error {
                EditorSaveError::CreateDir => "Error creating directory: "@,
                EditorSaveError::Write => "Error writing file: "@,
                EditorSaveError::Serialize => "Serialization error: "@,
            }) + detail@,
            final(self).status_timer_ms == old(self).status_timer_ms,
            final(self).block_count == old(self).block_count,
            final(self).filename_input == old(self).filename_input,
    {
        let mut msg = match error {
            EditorSaveError::CreateDir => text_of("Error creating directory: "),
            EditorSaveError::Write => text_of("Error writing file: "),
            EditorSaveError::Serialize => text_of("Serialization error: "),
        };
        msg.append(detail);
        self.status_msg = msg;
    }

    /// Counts down the status line by `elapsed_ms`; it is cleared when its time runs out.
    pub fn tick_status(&mut self, elapsed_ms: u32)
        ensures
            old(self).status_timer_ms > 0 && elapsed_ms >= old(self).status_timer_ms ==>
                final(self).status_timer_ms == 0 && final(self).status_msg@.len() == 0,
            old(self).status_timer_ms > 0 && elapsed_ms < old(self).status_timer_ms ==>
                final(self).status_timer_ms == old(self).status_timer_ms - elapsed_ms
                && final(self).status_msg == old(self).status_msg,
            old(self).status_timer_ms == 0 ==> final(self).status_timer_ms == 0
                && final(self).status_msg == old(self).status_msg,
            final(self).block_count == old(self).block_count,
            final(self).filename_input == old(self).filename_input,
    {
        if self.status_timer_ms > 0 {
            if elapsed_ms >= self.status_timer_ms {
                self.status_timer_ms = 0;
                self.status_msg = String::new();
            } else {
                self.status_timer_ms = self.status_timer_ms - elapsed_ms;
            }
        }
    }

    /// The heads-up text: the file-name field while it is open, else the block count with the
    /// status message (or the key hint when there is none).
    pub fn hud_text(&self) -> (res: String)
        ensures
            res@ == (match opt_view(self.filename_input) {
                Some(b) => "Save as: "@ + b + "|"@,
                None => "Level Editor  |  Blocks: "@ + decimal(self.block_count as nat) + "\n"@
                    + (if self.status_msg@.len() == 0 { editor_hint() } else { self.status_msg@ }),
            }),
    {
        match &self.filename_input {
            Some(buf) => {
                let mut s = text_of("Save as: ");
                s.append(buf.as_str());
                s.append("|");
                s
            },
            None => {
                let mut s = text_of("Level Editor  |  Blocks: ");
                let n = usize_text(self.block_count);
                s.append(n.as_str());
                s.append("\n");
                if self.status_msg.unicode_len() == 0 {
                    s.append("Arrows: move   Space/Down: place   S: save   R: reset   P: test   Esc: menu");
                } else {
                    s.append(self.status_msg.as_str());
                }
                s
            },
        }
    }
}

/// Every saved file name ends in `.json`, and a name typed with the extension is kept as is.
pub proof fn law_editor_file_names(raw: Seq<char>)
    ensures
        ".json"@.is_suffix_of(editor_file_name(raw)),
        raw.len() > 0 && ".json"@.is_suffix_of(raw) ==> editor_file_name(raw) == raw,
{
    crate::text::law_json_ext_idempotent(if raw.len() == 0 { "custom_level"@ } else { raw });
}

} // verus!
