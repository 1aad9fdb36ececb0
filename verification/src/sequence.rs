use vstd::prelude::*;
use crate::flow::opt_view;
use crate::levels::views;
use crate::text::{
    append_allowed, decimal, json_file_name, kept, pop_char, text_of, usize_text, with_json_ext,
    CharRule,
};

verus! {

/// The text field of the sequence screen.
pub enum SeqInput {
    AddPath { buf: String },
}

/// The sequence screen of the level editor: the ordered level paths, their cached level
/// names, the cursor, the entry picked up for reordering, the path being typed and the
/// status line with the milliseconds it stays up.
pub struct SequenceEditorState {
    pub entries: Vec<String>,
    pub blueprints: Vec<Option<String>>,
    pub cursor: usize,
    pub grabbed: Option<usize>,
    pub text_input: Option<SeqInput>,
    pub status_msg: String,
    pub status_timer_ms: u32,
}

/// What the sequence screen is, as values.
pub struct SequenceModel {
    pub entries: Seq<Seq<char>>,
    pub names: Seq<Option<Seq<char>>>,
    pub cursor: int,
    pub grabbed: Option<int>,
    pub input: Option<Seq<char>>,
    pub status: Seq<char>,
    pub status_ms: int,
}

/// The views of a list of optional strings.
pub open spec fn opt_views(v: Seq<Option<String>>) -> Seq<Option<Seq<char>>> {
    v.map_values(|s: Option<String>| opt_view(s))
}

impl View for SequenceEditorState {
    type V = SequenceModel;

    open spec fn view(&self) -> SequenceModel {
        SequenceModel {
            entries: views(self.entries@),
            names: opt_views(self.blueprints@),
            cursor: self.cursor as int,
            grabbed: match self.grabbed {
                Some(g) => Some(g as int),
                None => None,
            },
            input: match self.text_input {
                Some(SeqInput::AddPath { buf }) => Some(buf@),
                None => None,
            },
            status: self.status_msg@,
            status_ms: self.status_timer_ms as int,
        }
    }
}

/// The screen is consistent: one cached name per entry, the cursor on an entry (or at 0 when
/// there is none), and the picked-up entry, if any, is an entry.
pub open spec fn seq_wf(m: SequenceModel) -> bool {
    &&& m.names.len() == m.entries.len()
    &&& (m.entries.len() == 0 ==> m.cursor == 0)
    &&& (m.entries.len() > 0 ==> 0 <= m.cursor < m.entries.len())
    &&& (m.grabbed matches Some(g) ==> 0 <= g < m.entries.len())
}

/// `s` with the items at `i - 1` and `i` exchanged.
pub open spec fn swap_down<A>(s: Seq<A>, i: int) -> Seq<A> {
    s.update(i - 1, s[i]).update(i, s[i - 1])
}

/// Up arrow: moves the picked-up entry one place up, or the cursor when nothing is picked up.
pub open spec fn model_up(m: SequenceModel) -> SequenceModel {
    match m.grabbed {
        Some(g) => if g > 0 {
            SequenceModel {
                entries: swap_down(m.entries, g),
                names: swap_down(m.names, g),
                grabbed: Some(g - 1),
                cursor: g - 1,
                ..m
            }
        } else {
            m
        },
        None => if m.cursor > 0 {
            SequenceModel { cursor: m.cursor - 1, ..m }
        } else {
            m
        },
    }
}

/// Down arrow: moves the picked-up entry one place down, or the cursor when nothing is picked
/// up.
pub open spec fn model_down(m: SequenceModel) -> SequenceModel {
    match m.grabbed {
        Some(g) => if g + 1 < m.entries.len() {
            SequenceModel {
                entries: swap_down(m.entries, g + 1),
                names: swap_down(m.names, g + 1),
                grabbed: Some(g + 1),
                cursor: g + 1,
                ..m
            }
        } else {
            m
        },
        None => if m.entries.len() > 0 && m.cursor < m.entries.len() - 1 {
            SequenceModel { cursor: m.cursor + 1, ..m }
        } else {
            m
        },
    }
}

/// Enter: picks up the entry under the cursor, or drops the picked-up one.
pub open spec fn model_toggle_grab(m: SequenceModel) -> SequenceModel {
    if m.entries.len() == 0 {
        m
    } else {
        SequenceModel {
            grabbed: match m.grabbed {
                Some(_) => None,
                None => Some(m.cursor),
            },
            ..m
        }
    }
}

/// Delete: removes the entry under the cursor; the cursor steps back when it was on the last
/// entry, and nothing stays picked up.
pub open spec fn model_delete(m: SequenceModel) -> SequenceModel {
    if m.entries.len() == 0 {
        m
    } else {
        let new_len = m.entries.len() - 1;
        SequenceModel {
            entries: m.entries.remove(m.cursor),
            names: m.names.remove(m.cursor),
            cursor: if m.cursor >= new_len && m.cursor > 0 { m.cursor - 1 } else { m.cursor },
            grabbed: None,
            ..m
        }
    }
}

/// Enter in the path field: an empty path closes the field; any other path gets the `.json`
/// extension and is inserted after the cursor, which moves onto it.
pub open spec fn model_enter(m: SequenceModel) -> SequenceModel {
    match m.input {
        None => m,
        Some(buf) => if buf.len() == 0 {
            SequenceModel { input: None, ..m }
        } else {
            SequenceModel {
                entries: m.entries.insert(m.cursor + 1, with_json_ext(buf)),
                names: m.names.insert(m.cursor + 1, None),
                cursor: m.cursor + 1,
                input: None,
                status: "Path added"@,
                status_ms: 3000,
                ..m
            }
        },
    }
}

/// Whether Enter in the path field adds an entry.
pub open spec fn enter_adds(m: SequenceModel) -> bool {
    m.input matches Some(buf) && buf.len() > 0
}

/// The status line after `elapsed_ms` milliseconds: it is cleared when its time runs out.
pub open spec fn model_tick(m: SequenceModel, elapsed_ms: int) -> SequenceModel {
    if m.status_ms > 0 {
        if elapsed_ms >= m.status_ms {
            SequenceModel { status_ms: 0, status: Seq::empty(), ..m }
        } else {
            SequenceModel { status_ms: m.status_ms - elapsed_ms, ..m }
        }
    } else {
        m
    }
}

/// How a row of the sequence list is highlighted.
#[derive(Clone, Copy, Debug, PartialEq, Eq, Structural)]
pub enum RowStyle {
    Grabbed,
    Cursor,
    Normal,
}

/// What Enter in the path field did.
#[derive(Clone, Copy, Debug, PartialEq, Eq, Structural)]
pub enum PathEntered {
    /// The field was not open.
    Nothing,
    /// The field was empty; it is closed and the rest of this frame's keys are ignored.
    Cancelled,
    /// A path was added at this index (its level name is still to be loaded).
    Added(usize),
}

impl SequenceEditorState {
    /// An empty sequence screen.
    pub fn new() -> (res: SequenceEditorState)
        ensures
            res@.entries.len() == 0,
            res@.names.len() == 0,
            res@.cursor == 0,
            res@.grabbed is None,
            res@.input is None,
            res@.status.len() == 0,
            res@.status_ms == 0,
            seq_wf(res@),
    {
        let s = SequenceEditorState {
            entries: Vec::new(),
            blueprints: Vec::new(),
            cursor: 0,
            grabbed: None,
            text_input: None,
            status_msg: String::new(),
            status_timer_ms: 0,
        };
        assert(s@.entries =~= Seq::<Seq<char>>::empty());
        assert(s@.names =~= Seq::<Option<Seq<char>>>::empty());
        s
    }

    /// Fills an empty screen with the loaded sequence and the level name read for each entry.
    pub fn fill(&mut self, entries: Vec<String>, names: Vec<Option<String>>)
        requires
            seq_wf(old(self)@),
            old(self)@.entries.len() == 0,
            names@.len() == entries@.len(),
        ensures
            final(self)@ == (SequenceModel {
                entries: views(entries@),
                names: opt_views(names@),
                ..old(self)@
            }),
            seq_wf(final(self)@),
    {
        self.entries = entries;
        self.blueprints = names;
    }

    /// Up arrow.
    pub fn move_up(&mut self)
        requires
            seq_wf(old(self)@),
        ensures
            final(self)@ == model_up(old(self)@),
            seq_wf(final(self)@),
    {
        let ghost m = self@;
        match self.grabbed {
            Some(g) => {
                if g > 0 {
                    let e = self.entries.remove(g);
                    self.entries.insert(g - 1, e);
                    let n = self.blueprints.remove(g);
                    self.blueprints.insert(g - 1, n);
                    self.grabbed = Some(g - 1);
                    self.cursor = g - 1;
                    assert(self@.entries =~= swap_down(m.entries, g as int));
                    assert(self@.names =~= swap_down(m.names, g as int));
                }
            },
            None => {
                if self.cursor > 0 {
                    self.cursor = self.cursor - 1;
                }
            },
        }
    }

    /// Down arrow.
    pub fn move_down(&mut self)
        requires
            seq_wf(old(self)@),
        ensures
            final(self)@ == model_down(old(self)@),
            seq_wf(final(self)@),
    {
        let ghost m = self@;
        let len = self.entries.len();
        match self.grabbed {
            Some(g) => {
                if g + 1 < len {
                    let e = self.entries.remove(g + 1);
                    self.entries.insert(g, e);
                    let n = self.blueprints.remove(g + 1);
                    self.blueprints.insert(g, n);
                    self.grabbed = Some(g + 1);
                    self.cursor = g + 1;
                    assert(self@.entries =~= swap_down(m.entries, g + 1));
                    assert(self@.names =~= swap_down(m.names, g + 1));
                }
            },
            None => {
                if len > 0 && self.cursor < len - 1 {
                    self.cursor = self.cursor + 1;
                }
            },
        }
    }

    /// Enter: picks up or drops an entry. Returns `false` when the list is empty (the rest of
    /// this frame's keys are then ignored).
    pub fn toggle_grab(&mut self) -> (handled: bool)
        requires
            seq_wf(old(self)@),
        ensures
            handled == (old(self)@.entries.len() > 0),
            final(self)@ == model_toggle_grab(old(self)@),
            seq_wf(final(self)@),
    {
        if self.entries.len() == 0 {
            return false;
        }
        self.grabbed = match self.grabbed {
            Some(_) => None,
            None => Some(self.cursor),
        };
        true
    }

    /// Space / E: the index and path of the level to open in the canvas, or `None` when the
    /// list is empty (the rest of this frame's keys are then ignored).
    pub fn open_target(&self) -> (res: Option<(usize, String)>)
        requires
            seq_wf(self@),
        ensures
            self@.entries.len() == 0 ==> res is None,
            self@.entries.len() > 0 ==> res is Some,
            res matches Some((idx, path)) ==> idx == self.cursor
                && path@ == self@.entries[self.cursor as int],
    {
        if self.entries.len() == 0 {
            None
        } else {
            Some((self.cursor, self.entries[self.cursor].clone()))
        }
    }

    /// N: the sequence position a new blank level is tied to (the cursor), or `None` when the
    /// list is empty.
    pub fn new_level_index(&self) -> (res: Option<usize>)
        ensures
            res == (if self.entries@.len() > 0 { Some(self.cursor) } else { None }),
    {
        if self.entries.len() > 0 {
            Some(self.cursor)
        } else {
            None
        }
    }

    /// A: opens the path field, empty.
    pub fn begin_add_path(&mut self)
        ensures
            final(self)@ == (SequenceModel { input: Some(Seq::empty()), ..old(self)@ }),
    {
        self.text_input = Some(SeqInput::AddPath { buf: String::new() });
    }

    /// Delete / Backspace: removes the entry under the cursor. Returns whether an entry was
    /// removed (the rows are then rebuilt).
    pub fn delete_current(&mut self) -> (removed: bool)
        requires
            seq_wf(old(self)@),
        ensures
            removed == (old(self)@.entries.len() > 0),
            final(self)@ == model_delete(old(self)@),
            seq_wf(final(self)@),
    {
        let ghost m = self@;
        if self.entries.len() == 0 {
            return false;
        }
        let cursor = self.cursor;
        let _e = self.entries.remove(cursor);
        let _n = self.blueprints.remove(cursor);
        if self.cursor >= self.entries.len() && self.cursor > 0 {
            self.cursor = self.cursor - 1;
        }
        self.grabbed = None;
        assert(self@.entries =~= m.entries.remove(cursor as int));
        assert(self@.names =~= m.names.remove(cursor as int));
        true
    }

    /// Escape in the path field: closes it.
    pub fn input_escape(&mut self)
        ensures
            final(self)@ == (SequenceModel { input: None, ..old(self)@ }),
    {
        self.text_input = None;
    }

    /// Backspace in the path field: removes the last typed character.
    pub fn input_backspace(&mut self)
        ensures
            final(self)@ == (SequenceModel {
                input: match old(self)@.input {
                    Some(buf) => Some(if buf.len() > 0 { buf.drop_last() } else { buf }),
                    None => None,
                },
                ..old(self)@
            }),
    {
        match &mut self.text_input {
            Some(SeqInput::AddPath { buf }) => {
                let _ = pop_char(buf);
            },
            None => {},
        }
    }

    /// Typed text in the path field: every character but control characters is added.
    pub fn input_chars(&mut self, s: &str)
        ensures
            final(self)@ == (SequenceModel {
                input: match old(self)@.input {
                    Some(buf) => Some(buf + kept(s@, CharRule::Printable)),
                    None => None,
                },
                ..old(self)@
            }),
    {
        match &mut self.text_input {
            Some(SeqInput::AddPath { buf }) => {
                append_allowed(buf, s, CharRule::Printable);
            },
            None => {},
        }
    }

    /// Enter in the path field.
    pub fn input_enter(&mut self) -> (res: PathEntered)
        requires
            seq_wf(old(self)@),
            enter_adds(old(self)@) ==> old(self)@.entries.len() > 0,
        ensures
            final(self)@ == model_enter(old(self)@),
            seq_wf(final(self)@),
            res == (match old(self)@.input {
                None => PathEntered::Nothing,
                Some(buf) => if buf.len() == 0 {
                    PathEntered::Cancelled
                } else {
                    PathEntered::Added((old(self).cursor + 1) as usize)
                },
            }),
    {
        let ghost m = self@;
        match self.text_input.take() {
            None => PathEntered::Nothing,
            Some(SeqInput::AddPath { buf }) => {
                if buf.unicode_len() == 0 {
                    return PathEntered::Cancelled;
                }
                let len = self.entries.len();
                assert(len == m.entries.len());
                assert(self.cursor < len);
                let path = json_file_name(buf);
                let idx = self.cursor + 1;
                self.entries.insert(idx, path);
                self.blueprints.insert(idx, None);
                self.cursor = idx;
                self.status_msg = text_of("Path added");
                self.status_timer_ms = 3000;
                assert(self@.entries =~= m.entries.insert(idx as int, with_json_ext(m.input->0)));
                assert(self@.names =~= m.names.insert(idx as int, None));
                PathEntered::Added(idx)
            },
        }
    }

    /// Records the level name read for the entry at `idx`.
    pub fn set_name(&mut self, idx: usize, name: Option<String>)
        requires
            idx < old(self)@.names.len(),
        ensures
            final(self)@ == (SequenceModel {
                names: old(self)@.names.update(idx as int, opt_view(name)),
                ..old(self)@
            }),
    {
        let ghost m = self@;
        self.blueprints.set(idx, name);
        assert(self@.names =~= m.names.update(idx as int, opt_view(name)));
    }

    /// Shows `msg` on the status line for `ms` milliseconds.
    pub fn show_status(&mut self, msg: String, ms: u32)
        ensures
            final(self)@ == (SequenceModel { status: msg@, status_ms: ms as int, ..old(self)@ }),
    {
        self.status_msg = msg;
        self.status_timer_ms = ms;
    }

    /// The level at `path` could not be read: `Cannot read levels/{path}: {detail}` for five
    /// seconds.
    pub fn read_failed(&mut self, path: &str, detail: &str)
        ensures
            final(self)@ == (SequenceModel {
                status: "Cannot read levels/"@ + path@ + ": "@ + detail@,
                status_ms: 5000,
                ..old(self)@
            }),
    {
        let mut msg = text_of("Cannot read levels/");
        msg.append(path);
        msg.append(": ");
        msg.append(detail);
        self.show_status(msg, 5000);
    }

    /// The level file did not parse: `Parse error: {detail}` for five seconds.
    pub fn parse_failed(&mut self, detail: &str)
        ensures
            final(self)@ == (SequenceModel {
                status: "Parse error: "@ + detail@,
                status_ms: 5000,
                ..old(self)@
            }),
    {
        let mut msg = text_of("Parse error: ");
        msg.append(detail);
        self.show_status(msg, 5000);
    }

    /// S: reports how saving the sequence file went — `sequence.json saved` for three seconds,
    /// or `Save error: {e}` for five.
    pub fn save_finished(&mut self, result: Result<(), String>)
        ensures
            result is Ok ==> final(self)@ == (SequenceModel {
                status: "sequence.json saved"@,
                status_ms: 3000,
                ..old(self)@
            }),
            result matches Err(e) ==> final(self)@ == (SequenceModel {
                status: "Save error: "@ + e@,
                status_ms: 5000,
                ..old(self)@
            }),
    {
        match result {
            Ok(()) => self.show_status(text_of("sequence.json saved"), 3000),
            Err(e) => {
                let mut msg = text_of("Save error: ");
                msg.append(e.as_str());
                self.show_status(msg, 5000);
            },
        }
    }

    /// Counts down the status line by `elapsed_ms`; it is cleared when its time runs out.
    pub fn tick_status(&mut self, elapsed_ms: u32)
        ensures
            final(self)@ == model_tick(old(self)@, elapsed_ms as int),
    {
        if self.status_timer_ms > 0 {
            if elapsed_ms >= self.status_timer_ms {
                self.status_timer_ms = 0;
                self.status_msg = String::new();
            } else {
                self.status_timer_ms = self.status_timer_ms - elapsed_ms;
            }
        }
    }

    /// How row `i` is highlighted: the picked-up entry first, then the cursor.
    pub fn row_style(&self, i: usize) -> (res: RowStyle)
        ensures
            res == (if self.grabbed == Some(i) {
                RowStyle::Grabbed
            } else if self.cursor == i {
                RowStyle::Cursor
            } else {
                RowStyle::Normal
            }),
    {
        if self.grabbed == Some(i) {
            RowStyle::Grabbed
        } else if self.cursor == i {
            RowStyle::Cursor
        } else {
            RowStyle::Normal
        }
    }

    /// The text of row `i`: a marker (`~ ` picked up, `> ` cursor, two spaces otherwise), the
    /// index, the path and the cached level name in quotes; empty past the end of the list.
    pub fn row_label(&self, i: usize) -> (res: String)
        requires
            seq_wf(self@),
        ensures
            i >= self@.entries.len() ==> res@.len() == 0,
            i < self@.entries.len() ==> res@ == row_prefix(self@, i as int) + decimal(i as nat)
                + ". "@ + self@.entries[i as int] + quoted_name(self@.names[i as int]),
    {
        if i >= self.entries.len() {
            return String::new();
        }
        let mut s = match self.row_style(i) {
            RowStyle::Grabbed => text_of("~ "),
            RowStyle::Cursor => text_of("> "),
            RowStyle::Normal => text_of("  "),
        };
        let n = usize_text(i);
        s.append(n.as_str());
        s.append(". ");
        s.append(self.entries[i].as_str());
        let ghost before = s@;
        match &self.blueprints[i] {
            Some(name) => {
                s.append(" \"");
                s.append(name.as_str());
                s.append("\"");
                assert(s@ =~= before + quoted_name(self@.names[i as int]));
            },
            None => {
                assert(s@ =~= before + quoted_name(self@.names[i as int]));
            },
        }
        s
    }

    /// The path field line: `Add path: {buf}_` while it is open, empty otherwise.
    pub fn input_line(&self) -> (res: String)
        ensures
            res@ == (match self@.input {
                Some(buf) => "Add path: "@ + buf + "_"@,
                None => Seq::empty(),
            }),
    {
        match &self.text_input {
            Some(SeqInput::AddPath { buf }) => {
                let mut s = text_of("Add path: ");
                s.append(buf.as_str());
                s.append("_");
                s
            },
            None => String::new(),
        }
    }
}

/// How the row entities are brought to `count` rows from `current`.
#[derive(Clone, Copy, Debug, PartialEq, Eq, Structural)]
pub enum RowPlan {
    /// The count is right.
    Keep,
    /// Spawn rows `current..count`.
    Spawn { from: usize, to: usize },
    /// Despawn every row and spawn `count` fresh ones.
    Respawn { count: usize },
}

/// The plan for bringing `current` row entities to `count`: new rows are added at the end,
/// and surplus rows are all rebuilt.
pub fn rebuild_plan(current: usize, count: usize) -> (res: RowPlan)
    ensures
        count > current ==> res == (RowPlan::Spawn { from: current, to: count }),
        count < current ==> res == (RowPlan::Respawn { count }),
        count == current ==> res == RowPlan::Keep,
{
    if count > current {
        RowPlan::Spawn { from: current, to: count }
    } else if count < current {
        RowPlan::Respawn { count }
    } else {
        RowPlan::Keep
    }
}

/// The marker of row `i`.
pub open spec fn row_prefix(m: SequenceModel, i: int) -> Seq<char> {
    if m.grabbed == Some(i) {
        "~ "@
    } else if m.cursor == i {
        "> "@
    } else {
        "  "@
    }
}

/// ` "{name}"` for a cached level name, nothing without one.
pub open spec fn quoted_name(name: Option<Seq<char>>) -> Seq<char> {
    match name {
        Some(n) => " \""@ + n + "\""@,
        None => Seq::empty(),
    }
}

/// Moving the picked-up entry up and back down restores the sequence exactly.
pub proof fn law_reorder_round_trip(m: SequenceModel)
    requires
        seq_wf(m),
        m.grabbed matches Some(g) && g > 0,
    ensures
        model_down(model_up(m)) == (SequenceModel { cursor: m.grabbed->0, ..m }),
{
    let g = m.grabbed->0;
    let u = model_up(m);
    assert(swap_down(swap_down(m.entries, g), g) =~= m.entries);
    assert(swap_down(swap_down(m.names, g), g) =~= m.names);
}

/// The rows of the list: each path with its cached level name.
pub open spec fn rows(m: SequenceModel) -> Seq<(Seq<char>, Option<Seq<char>>)> {
    Seq::new(m.entries.len(), |i: int| (m.entries[i], m.names[i]))
}

/// Reordering only exchanges neighbouring rows: every path keeps its cached name, and the
/// list holds the same rows as before.
pub proof fn law_reorder_is_permutation(m: SequenceModel)
    requires
        seq_wf(m),
    ensures
        rows(model_up(m)).to_multiset() == rows(m).to_multiset(),
        rows(model_down(m)).to_multiset() == rows(m).to_multiset(),
{
    let r = rows(m);
    match m.grabbed {
        Some(g) => {
            if g > 0 {
                assert(rows(model_up(m)) =~= swap_down(r, g));
                lemma_swap_down_multiset(r, g);
            } else {
                assert(rows(model_up(m)) =~= r);
            }
            if g + 1 < m.entries.len() {
                assert(rows(model_down(m)) =~= swap_down(r, g + 1));
                lemma_swap_down_multiset(r, g + 1);
            } else {
                assert(rows(model_down(m)) =~= r);
            }
        },
        None => {
            assert(rows(model_up(m)) =~= r);
            assert(rows(model_down(m)) =~= r);
        },
    }
}

proof fn lemma_swap_down_multiset<A>(s: Seq<A>, i: int)
    requires
        0 < i < s.len(),
    ensures
        swap_down(s, i).to_multiset() == s.to_multiset(),
{
    broadcast use vstd::multiset::group_multiset_axioms;
    let t = s.update(i - 1, s[i]);
    vstd::seq_lib::to_multiset_update(s, i - 1, s[i]);
    vstd::seq_lib::to_multiset_update(t, i, s[i - 1]);
    vstd::seq_lib::to_multiset_contains(s, s[i - 1]);
    assert(s.contains(s[i - 1]));
    assert(t[i] == s[i]);
    assert(swap_down(s, i).to_multiset() =~= s.to_multiset());
}

/// Navigating without a picked-up entry never changes the sequence.
pub proof fn law_cursor_moves_keep_sequence(m: SequenceModel)
    requires
        m.grabbed is None,
    ensures
        model_up(m).entries == m.entries && model_up(m).names == m.names,
        model_down(m).entries == m.entries && model_down(m).names == m.names,
{
}

/// Deleting removes exactly the entry under the cursor and its name, keeping the others in
/// order; an added path ends in `.json` and lands right after the cursor.
pub proof fn law_delete_and_add(m: SequenceModel)
    requires
        seq_wf(m),
        enter_adds(m) ==> m.entries.len() > 0,
    ensures
        m.entries.len() > 0 ==> model_delete(m).entries == m.entries.remove(m.cursor)
            && model_delete(m).names == m.names.remove(m.cursor),
        enter_adds(m) ==> ".json"@.is_suffix_of(model_enter(m).entries[m.cursor + 1])
            && model_enter(m).entries.remove(m.cursor + 1) == m.entries,
{
    if enter_adds(m) {
        crate::text::law_json_ext_idempotent(m.input->0);
        let e = m.entries.insert(m.cursor + 1, with_json_ext(m.input->0));
        assert(e.remove(m.cursor + 1) =~= m.entries);
    }
}

/// On a non-empty list Enter drops a picked-up entry and picks up the cursor's entry
/// otherwise, leaving the list and the cursor alone; pressing it twice restores what was
/// picked up.
pub proof fn law_toggle_grab_drops_or_picks(m: SequenceModel)
    requires
        seq_wf(m),
        m.entries.len() > 0,
    ensures
        model_toggle_grab(m).grabbed == (if m.grabbed is Some { None } else { Some(m.cursor) }),
        model_toggle_grab(m).entries == m.entries,
        model_toggle_grab(m).names == m.names,
        model_toggle_grab(m).cursor == m.cursor,
        m.grabbed is None ==> model_toggle_grab(model_toggle_grab(m)) == m,
        m.grabbed == Some(m.cursor) ==> model_toggle_grab(model_toggle_grab(m)) == m,
{
}

/// The status line counts down by the elapsed time: it stays with the time left while some
/// is left and is cleared once its time runs out; nothing else on the screen changes.
pub proof fn law_status_counts_down(m: SequenceModel, elapsed_ms: nat)
    requires
        m.status_ms >= 0,
    ensures
        model_tick(m, elapsed_ms as int).status_ms == (if m.status_ms > elapsed_ms { m.status_ms - elapsed_ms } else { 0 }),
        m.status_ms > elapsed_ms ==> model_tick(m, elapsed_ms as int).status == m.status,
        0 < m.status_ms <= elapsed_ms ==> model_tick(m, elapsed_ms as int).status.len() == 0,
        model_tick(m, elapsed_ms as int).entries == m.entries,
        model_tick(m, elapsed_ms as int).cursor == m.cursor,
        model_tick(m, elapsed_ms as int).grabbed == m.grabbed,
{
}

} // verus!
