//! The editor's own state beside the mirror: a frame counter, the mode, the
//! grid zoom, the quantize grain the launcher and the groove bar share, the
//! ratchet popover, and the four sheets (note picker, action drawer,
//! settings, pattern options): which is open, for what, what they hold, and
//! what their buttons send. Laying them out and reading the pointer is the
//! shell's part.

use vstd::prelude::*;
use crate::command::Command;
use crate::editor::ui_state::{shown_tracks, UiState};
use crate::editor::widgets::{
    action_to_draft, drafted, law_draft_round_trip, next_grain, resolve_action, resolved, slot_of_id,
    ActionDraft, AppMode, Zoom,
};
use crate::models::{FollowAction, FollowActionType, Pattern, QuantizeGrain, Ratchet, Session, PATTERN_SLOTS};

verus! {

broadcast use vstd::std_specs::hash::group_hash_axioms;

/// Bit pattern of the `f32` 0.5, the Vary slider's starting strength.
pub const VARY_DEFAULT_BITS: u32 = 0x3F00_0000;
/// Bit pattern of the `f32` 0.6, the Roll slider's starting strength.
pub const ROLL_DEFAULT_BITS: u32 = 0x3F19_999A;

/// The note picker's two pages: the General MIDI drum list, or a keyboard.
#[derive(Clone, Copy, Debug, PartialEq, Eq, Structural)]
pub enum NoteMode {
    Gm,
    PianoRoll,
}

/// The note picker: the track it is open for (`None` when closed), its page,
/// and the frame it opened on.
#[derive(Clone, Copy, Debug)]
pub struct NotePickerState {
    pub target: Option<usize>,
    pub mode: NoteMode,
    pub opened_at: u64,
}

/// The action drawer: the track it is open for, the Vary and Roll slider
/// strengths (`f32` bits), and the frame it opened on.
#[derive(Clone, Copy, Debug)]
pub struct ActionDrawerState {
    pub target: Option<usize>,
    pub vary: u32,
    pub roll: u32,
    pub opened_at: u64,
}

/// The settings sheet: open or not, and the frame it opened on.
#[derive(Clone, Copy, Debug)]
pub struct SettingsState {
    pub open: bool,
    pub opened_at: u64,
}

/// Which fields of the pattern options sheet held edit focus last frame.
#[derive(Clone, Copy, Debug)]
pub struct FocusFlags {
    pub loops: bool,
    pub action: bool,
    pub target: bool,
}

/// The pattern options sheet: the slot it is open for, the frame it opened
/// on, and the follow action being edited (loop count, action, and for Play
/// Specific the target slot, `PATTERN_SLOTS` for none).
#[derive(Clone, Copy, Debug)]
pub struct PatternOptionsState {
    pub target: Option<usize>,
    pub opened_at: u64,
    pub after_loops: u32,
    pub action: ActionDraft,
    pub specific_target: usize,
}

/// The editor's state beside the mirror.
#[derive(Clone, Copy, Debug)]
pub struct EditorLocal {
    pub frame: u64,
    pub mode: AppMode,
    pub zoom: Zoom,
    /// The grain the launcher queues with and the groove bar cycles.
    pub grain: QuantizeGrain,
    /// The step whose ratchet popover is open.
    pub ratchet_target: Option<(usize, usize)>,
    pub note_picker: NotePickerState,
    pub action_drawer: ActionDrawerState,
    pub settings: SettingsState,
    pub pattern_options: PatternOptionsState,
    /// Edit focus of the pattern options sheet, as last recorded.
    pub options_focus: FocusFlags,
}

pub open spec fn no_focus() -> FocusFlags {
    FocusFlags { loops: false, action: false, target: false }
}

/// Frame 0, step editing at sixteen columns, grain "next beat", everything
/// closed, Vary at 0.5 and Roll at 0.6.
pub open spec fn fresh_local() -> EditorLocal {
    EditorLocal {
        frame: 0,
        mode: AppMode::Editing,
        zoom: Zoom::Sixteen,
        grain: QuantizeGrain::NextBeat,
        ratchet_target: None,
        note_picker: NotePickerState { target: None, mode: NoteMode::Gm, opened_at: 0 },
        action_drawer: ActionDrawerState { target: None, vary: VARY_DEFAULT_BITS, roll: ROLL_DEFAULT_BITS, opened_at: 0 },
        settings: SettingsState { open: false, opened_at: 0 },
        pattern_options: PatternOptionsState {
            target: None,
            opened_at: 0,
            after_loops: 0,
            action: ActionDraft::NoAction,
            specific_target: 0,
        },
        options_focus: no_focus(),
    }
}

/// The loop count the sheet's slider can show: `n` clamped to 1..=16.
pub open spec fn clamp_loops(n: int) -> u32 {
    if n < 1 {
        1
    } else if n > 16 {
        16
    } else {
        n as u32
    }
}

/// The draft a sheet opens with on slot `idx`: that pattern's follow action
/// as it stands, or one loop and no action when there is no session or the
/// slot is empty or out of range.
pub open spec fn opened_draft(s: Option<Session>, idx: usize) -> (u32, ActionDraft, usize) {
    match s {
        Some(s) => if idx < PATTERN_SLOTS && s.patterns@[idx as int] is Some {
            let fa = s.patterns@[idx as int]->Some_0.follow_action;
            let d = drafted(fa.action, s.patterns@);
            (fa.after_loops, d.0, d.1)
        } else {
            (1, ActionDraft::NoAction, 0)
        },
        None => (1, ActionDraft::NoAction, 0),
    }
}

/// The sheet after opening on slot `idx` at `frame`.
pub open spec fn options_opened(st: PatternOptionsState, frame: u64, idx: usize, s: Option<Session>) -> PatternOptionsState {
    PatternOptionsState {
        target: Some(idx),
        opened_at: frame,
        after_loops: opened_draft(s, idx).0,
        action: opened_draft(s, idx).1,
        specific_target: opened_draft(s, idx).2,
    }
}

/// The draft after a frame's re-read of pattern `p`: each field that did not
/// hold focus takes the pattern's value, the loop count clamped to 1..=16.
pub open spec fn reseeded(st: PatternOptionsState, p: Pattern, patterns: Seq<Option<Pattern>>, focus: FocusFlags) -> PatternOptionsState {
    let d = drafted(p.follow_action.action, patterns);
    PatternOptionsState {
        after_loops: if focus.loops { st.after_loops } else { clamp_loops(p.follow_action.after_loops as int) },
        action: if focus.action { st.action } else { d.0 },
        specific_target: if focus.target { st.specific_target } else { d.1 },
        ..st
    }
}

/// What Save sends for the sheet open on slot `idx`.
pub open spec fn saved_command(st: PatternOptionsState, idx: usize, patterns: Seq<Option<Pattern>>) -> Command {
    Command::SetFollowAction {
        pattern_idx: idx,
        action: FollowAction { after_loops: st.after_loops, action: resolved(st.action, st.specific_target, patterns) },
    }
}

/// The state with the pattern options sheet closed.
pub open spec fn options_closed(a: EditorLocal) -> EditorLocal {
    EditorLocal { pattern_options: PatternOptionsState { target: None, ..a.pattern_options }, ..a }
}

/// The note picker opened on a track at the current frame; the action
/// drawer closed.
pub open spec fn note_picker_opened(a: EditorLocal, track_idx: usize) -> EditorLocal {
    EditorLocal {
        note_picker: NotePickerState { target: Some(track_idx), opened_at: a.frame, ..a.note_picker },
        action_drawer: ActionDrawerState { target: None, ..a.action_drawer },
        ..a
    }
}

/// The action drawer opened on a track at the current frame; the note
/// picker and the settings sheet closed.
pub open spec fn action_drawer_opened(a: EditorLocal, track_idx: usize) -> EditorLocal {
    EditorLocal {
        action_drawer: ActionDrawerState { target: Some(track_idx), opened_at: a.frame, ..a.action_drawer },
        note_picker: NotePickerState { target: None, ..a.note_picker },
        settings: SettingsState { open: false, ..a.settings },
        ..a
    }
}

/// At most one of the two track sheets (note picker, action drawer) is open.
pub open spec fn one_track_sheet(e: EditorLocal) -> bool {
    !(e.note_picker.target is Some && e.action_drawer.target is Some)
}

/// An open sheet closes on Escape, and on a click outside it, except on the
/// frame it opened (the click that opened it is still being reported).
pub fn should_dismiss(escape: bool, clicked_outside: bool, is_open_frame: bool) -> (b: bool)
    ensures
        b == (escape || (!is_open_frame && clicked_outside)),
{
    escape || (!is_open_frame && clicked_outside)
}

/// The ratchet popover closes on Escape, and on a click outside it that is
/// not an Alt-click (an Alt-click on another step moves it there instead).
pub fn ratchet_should_dismiss(escape: bool, clicked_outside: bool, alt: bool) -> (b: bool)
    ensures
        b == (escape || (clicked_outside && !alt)),
{
    escape || (clicked_outside && !alt)
}

/// Whether the black key of a keyboard plays `note` (pitch classes C#, D#,
/// F#, G#, A#).
pub fn is_black_key(note: u8) -> (b: bool)
    ensures
        b == (note % 12 == 1 || note % 12 == 3 || note % 12 == 6 || note % 12 == 8 || note % 12 == 10),
{
    let pc = note % 12;
    pc == 1 || pc == 3 || pc == 6 || pc == 8 || pc == 10
}

/// The lowest and highest keys of the note picker's keyboard.
pub const PIANO_LOW: u8 = 36;
pub const PIANO_HIGH: u8 = 60;

/// The General MIDI drum list of the note picker, notes 35..=50.
pub open spec fn gm_name(note: u8) -> Seq<char> {
    match note {
        35 => "Acoustic Bass Drum"@,
        36 => "Bass Drum 1 (Kick)"@,
        37 => "Side Stick"@,
        38 => "Acoustic Snare"@,
        39 => "Hand Clap"@,
        40 => "Electric Snare"@,
        41 => "Low Floor Tom"@,
        42 => "Closed Hi-Hat"@,
        43 => "High Floor Tom"@,
        44 => "Pedal Hi-Hat"@,
        45 => "Low Tom"@,
        46 => "Open Hi-Hat"@,
        47 => "Low-Mid Tom"@,
        48 => "Hi-Mid Tom"@,
        49 => "Crash Cymbal 1"@,
        50 => "High Tom"@,
        _ => Seq::<char>::empty(),
    }
}

/// The General MIDI drum name of `note`, for notes 35..=50.
pub fn gm_drum_name(note: u8) -> (r: Option<&'static str>)
    ensures
        r is Some <==> 35 <= note <= 50,
        r matches Some(n) ==> n@ == gm_name(note),
{
    match note {
        35 => Some("Acoustic Bass Drum"),
        36 => Some("Bass Drum 1 (Kick)"),
        37 => Some("Side Stick"),
        38 => Some("Acoustic Snare"),
        39 => Some("Hand Clap"),
        40 => Some("Electric Snare"),
        41 => Some("Low Floor Tom"),
        42 => Some("Closed Hi-Hat"),
        43 => Some("High Floor Tom"),
        44 => Some("Pedal Hi-Hat"),
        45 => Some("Low Tom"),
        46 => Some("Open Hi-Hat"),
        47 => Some("Low-Mid Tom"),
        48 => Some("Hi-Mid Tom"),
        49 => Some("Crash Cymbal 1"),
        50 => Some("High Tom"),
        _ => None,
    }
}

/// The buttons of the action drawer other than Vary and Roll (whose
/// strengths the shell turns into the algorithms' integers).
#[derive(Clone, Copy, Debug, PartialEq, Eq, Structural)]
pub enum DrawerButton {
    Copy,
    Cut,
    Paste,
    Clear,
    Undo,
    Keep,
}

/// The whole-pattern clipboard buttons of the pattern options sheet.
#[derive(Clone, Copy, Debug, PartialEq, Eq, Structural)]
pub enum PatternClip {
    Cut,
    Copy,
    Paste,
    Clear,
}

/// Undo is offered for a track that has an undo snapshot.
pub fn undo_enabled(state: &UiState, track_idx: usize) -> (b: bool)
    ensures
        b == state.undo_available@.contains(track_idx),
{
    state.undo_available.contains(&track_idx)
}

impl EditorLocal {
    pub fn new() -> (e: Self)
        ensures
            e == fresh_local(),
    {
        EditorLocal {
            frame: 0,
            mode: AppMode::Editing,
            zoom: Zoom::Sixteen,
            grain: QuantizeGrain::NextBeat,
            ratchet_target: None,
            note_picker: NotePickerState { target: None, mode: NoteMode::Gm, opened_at: 0 },
            action_drawer: ActionDrawerState {
                target: None,
                vary: VARY_DEFAULT_BITS,
                roll: ROLL_DEFAULT_BITS,
                opened_at: 0,
            },
            settings: SettingsState { open: false, opened_at: 0 },
            pattern_options: PatternOptionsState {
                target: None,
                opened_at: 0,
                after_loops: 0,
                action: ActionDraft::NoAction,
                specific_target: 0,
            },
            options_focus: FocusFlags { loops: false, action: false, target: false },
        }
    }

    /// Count one frame.
    pub fn tick_frame(&mut self)
        requires
            old(self).frame < u64::MAX,
        ensures
            *final(self) == (EditorLocal { frame: (old(self).frame + 1) as u64, ..*old(self) }),
    {
        self.frame = self.frame + 1;
    }

    /// Whether this is the frame a sheet opened at `opened_at` opened on.
    pub fn is_open_frame(&self, opened_at: u64) -> (b: bool)
        ensures
            b == (self.frame == opened_at),
    {
        self.frame == opened_at
    }

    /// Switch between step editing and the launcher. Going to the launcher
    /// closes the note picker and the action drawer; going back to editing
    /// closes the pattern options sheet.
    pub fn toggle_mode(&mut self)
        ensures
            *final(self) == (match old(self).mode {
                AppMode::Editing => EditorLocal {
                    mode: AppMode::Performance,
                    note_picker: NotePickerState { target: None, ..old(self).note_picker },
                    action_drawer: ActionDrawerState { target: None, ..old(self).action_drawer },
                    ..*old(self)
                },
                AppMode::Performance => EditorLocal { mode: AppMode::Editing, ..options_closed(*old(self)) },
            }),
    {
        match self.mode {
            AppMode::Editing => {
                self.mode = AppMode::Performance;
                self.note_picker.target = None;
                self.action_drawer.target = None;
            },
            AppMode::Performance => {
                self.mode = AppMode::Editing;
                self.pattern_options.target = None;
            },
        }
    }

    /// The zoom keys: `1` zooms to eight columns, `2` back to sixteen (the
    /// latter wins when both are down).
    pub fn zoom_keys(&mut self, key_one: bool, key_two: bool)
        ensures
            *final(self) == (EditorLocal {
                zoom: if key_two { Zoom::Sixteen } else if key_one { Zoom::Eight } else { old(self).zoom },
                ..*old(self)
            }),
    {
        if key_one {
            self.zoom = Zoom::Eight;
        }
        if key_two {
            self.zoom = Zoom::Sixteen;
        }
    }

    /// The groove bar's grain button moves to the next grain and sends it.
    pub fn cycle_grain(&mut self) -> (c: Command)
        ensures
            final(self).grain == next_grain_of(old(self).grain),
            *final(self) == (EditorLocal { grain: next_grain_of(old(self).grain), ..*old(self) }),
            c == (Command::SetQuantizeGrain { grain: next_grain_of(old(self).grain) }),
    {
        let g = next_grain(self.grain);
        self.grain = g;
        Command::SetQuantizeGrain { grain: g }
    }

    /// A grain pill of the launcher takes `g` and sends it.
    pub fn choose_grain(&mut self, g: QuantizeGrain) -> (c: Command)
        ensures
            *final(self) == (EditorLocal { grain: g, ..*old(self) }),
            c == (Command::SetQuantizeGrain { grain: g }),
    {
        self.grain = g;
        Command::SetQuantizeGrain { grain: g }
    }

    /// An Alt-click on a step opens its ratchet popover.
    pub fn open_ratchet(&mut self, track_idx: usize, step_idx: usize)
        ensures
            *final(self) == (EditorLocal { ratchet_target: Some((track_idx, step_idx)), ..*old(self) }),
    {
        self.ratchet_target = Some((track_idx, step_idx));
    }

    pub fn close_ratchet(&mut self)
        ensures
            *final(self) == (EditorLocal { ratchet_target: None, ..*old(self) }),
    {
        self.ratchet_target = None;
    }

    /// Picking a ratchet in the open popover sets it on that step and closes
    /// the popover.
    pub fn pick_ratchet(&mut self, ratchet: Ratchet) -> (c: Option<Command>)
        ensures
            *final(self) == (EditorLocal { ratchet_target: None, ..*old(self) }),
            c == match old(self).ratchet_target {
                Some((t, s)) => Some(Command::SetRatchet { track_idx: t, step_idx: s, ratchet }),
                None => None,
            },
    {
        let c = match self.ratchet_target {
            Some((t, s)) => Some(Command::SetRatchet { track_idx: t, step_idx: s, ratchet }),
            None => None,
        };
        self.ratchet_target = None;
        c
    }

    /// Open the note picker on a track; it closes the action drawer.
    pub fn open_note_picker(&mut self, track_idx: usize)
        ensures
            *final(self) == note_picker_opened(*old(self), track_idx),
    {
        self.note_picker.target = Some(track_idx);
        self.note_picker.opened_at = self.frame;
        self.action_drawer.target = None;
    }

    pub fn close_note_picker(&mut self)
        ensures
            *final(self) == (EditorLocal { note_picker: NotePickerState { target: None, ..old(self).note_picker }, ..*old(self) }),
    {
        self.note_picker.target = None;
    }

    /// Picking a note in the open picker sets it on the picker's track and
    /// closes the picker.
    pub fn pick_note(&mut self, note: u8) -> (c: Option<Command>)
        ensures
            *final(self) == (EditorLocal { note_picker: NotePickerState { target: None, ..old(self).note_picker }, ..*old(self) }),
            c == match old(self).note_picker.target {
                Some(t) => Some(Command::SetTrackNote { track_idx: t, midi_note: note }),
                None => None,
            },
    {
        let c = match self.note_picker.target {
            Some(t) => Some(Command::SetTrackNote { track_idx: t, midi_note: note }),
            None => None,
        };
        self.note_picker.target = None;
        c
    }

    /// The note the open picker marks as current: the note of its track.
    pub fn note_picker_current(&self, state: &UiState) -> (r: Option<u8>)
        ensures
            r == match self.note_picker.target {
                Some(t) => if t < shown_tracks(*state).len() { Some(shown_tracks(*state)[t as int].midi_note) } else { None },
                None => None,
            },
    {
        match self.note_picker.target {
            Some(t) => {
                let tracks = state.tracks();
                if t < tracks.len() {
                    Some(tracks[t].midi_note)
                } else {
                    None
                }
            },
            None => None,
        }
    }

    /// Open the action drawer on a track; it closes the note picker and the
    /// settings sheet.
    pub fn open_action_drawer(&mut self, track_idx: usize)
        ensures
            *final(self) == action_drawer_opened(*old(self), track_idx),
    {
        self.action_drawer.target = Some(track_idx);
        self.action_drawer.opened_at = self.frame;
        self.note_picker.target = None;
        self.settings.open = false;
    }

    pub fn close_action_drawer(&mut self)
        ensures
            *final(self) == (EditorLocal { action_drawer: ActionDrawerState { target: None, ..old(self).action_drawer }, ..*old(self) }),
    {
        self.action_drawer.target = None;
    }

    /// The track the drawer shows this frame. A drawer left on a track past
    /// the end (after a track was removed) closes instead.
    pub fn drawer_track(&mut self, n_tracks: usize) -> (r: Option<usize>)
        ensures
            match old(self).action_drawer.target {
                Some(t) => if t < n_tracks {
                    r == Some(t) && *final(self) == *old(self)
                } else {
                    r is None && *final(self) == (EditorLocal {
                        action_drawer: ActionDrawerState { target: None, ..old(self).action_drawer },
                        ..*old(self)
                    })
                },
                None => r is None && *final(self) == *old(self),
            },
    {
        match self.action_drawer.target {
            Some(t) => {
                if t < n_tracks {
                    Some(t)
                } else {
                    self.action_drawer.target = None;
                    None
                }
            },
            None => None,
        }
    }

    /// A drawer button: the clipboard buttons and Clear act on the drawer's
    /// track and leave it open; Undo, offered only while the track has an
    /// undo snapshot, acts and closes it; Keep only closes it. With the
    /// drawer closed, or Undo not offered, nothing happens.
    pub fn drawer_button(&mut self, b: DrawerButton, state: &UiState) -> (c: Option<Command>)
        ensures
            c == match old(self).action_drawer.target {
                Some(t) => match b {
                    DrawerButton::Copy => Some(Command::Copy { track_idx: t }),
                    DrawerButton::Cut => Some(Command::Cut { track_idx: t }),
                    DrawerButton::Paste => Some(Command::Paste { track_idx: t }),
                    DrawerButton::Clear => Some(Command::Trash { track_idx: t }),
                    DrawerButton::Undo => if state.undo_available@.contains(t) {
                        Some(Command::Undo { track_idx: t })
                    } else {
                        None
                    },
                    DrawerButton::Keep => None,
                },
                None => None,
            },
            *final(self) == (if b == DrawerButton::Keep || (b == DrawerButton::Undo && c is Some) {
                EditorLocal { action_drawer: ActionDrawerState { target: None, ..old(self).action_drawer }, ..*old(self) }
            } else {
                *old(self)
            }),
    {
        let t = match self.action_drawer.target {
            Some(t) => t,
            None => {
                if b == DrawerButton::Keep {
                    self.action_drawer.target = None;
                }
                return None;
            },
        };
        match b {
            DrawerButton::Copy => Some(Command::Copy { track_idx: t }),
            DrawerButton::Cut => Some(Command::Cut { track_idx: t }),
            DrawerButton::Paste => Some(Command::Paste { track_idx: t }),
            DrawerButton::Clear => Some(Command::Trash { track_idx: t }),
            DrawerButton::Undo => {
                if undo_enabled(state, t) {
                    self.action_drawer.target = None;
                    Some(Command::Undo { track_idx: t })
                } else {
                    None
                }
            },
            DrawerButton::Keep => {
                self.action_drawer.target = None;
                None
            },
        }
    }

    pub fn open_settings(&mut self)
        ensures
            *final(self) == (EditorLocal { settings: SettingsState { open: true, opened_at: old(self).frame }, ..*old(self) }),
    {
        self.settings = SettingsState { open: true, opened_at: self.frame };
    }

    pub fn close_settings(&mut self)
        ensures
            *final(self) == (EditorLocal { settings: SettingsState { open: false, ..old(self).settings }, ..*old(self) }),
    {
        self.settings.open = false;
    }

    /// Open the pattern options sheet on slot `idx`, its draft taken from the
    /// pattern as it stands, with no field holding focus.
    pub fn open_pattern_options(&mut self, idx: usize, session: Option<&Session>)
        ensures
            *final(self) == (EditorLocal {
                pattern_options: options_opened(old(self).pattern_options, old(self).frame, idx, match session {
                    Some(s) => Some(*s),
                    None => None,
                }),
                options_focus: no_focus(),
                ..*old(self)
            }),
    {
        let (after_loops, action, specific_target) = match session {
            Some(s) => {
                if idx < PATTERN_SLOTS {
                    match &s.patterns[idx] {
                        Some(p) => {
                            let (d, t) = action_to_draft(&p.follow_action.action, &s.patterns);
                            (p.follow_action.after_loops, d, t)
                        },
                        None => (1, ActionDraft::NoAction, 0),
                    }
                } else {
                    (1, ActionDraft::NoAction, 0)
                }
            },
            None => (1, ActionDraft::NoAction, 0),
        };
        self.options_focus = FocusFlags { loops: false, action: false, target: false };
        self.pattern_options = PatternOptionsState {
            target: Some(idx),
            opened_at: self.frame,
            after_loops,
            action,
            specific_target,
        };
    }

    pub fn close_pattern_options(&mut self)
        ensures
            *final(self) == options_closed(*old(self)),
    {
        self.pattern_options.target = None;
    }

    /// Record which fields of the sheet hold edit focus this frame.
    pub fn record_options_focus(&mut self, focus: FocusFlags)
        ensures
            *final(self) == (EditorLocal { options_focus: focus, ..*old(self) }),
    {
        self.options_focus = focus;
    }

    /// The slot the pattern options sheet shows this frame, its draft re-read
    /// from that pattern for every field that did not hold focus last frame.
    /// A sheet whose slot has emptied (or with no session) closes instead.
    pub fn pattern_options_frame(&mut self, session: Option<&Session>) -> (r: Option<usize>)
        ensures
            match old(self).pattern_options.target {
                None => r is None && *final(self) == *old(self),
                Some(i) => match session {
                    Some(s) => if i < PATTERN_SLOTS && s.patterns@[i as int] is Some {
                        r == Some(i) && *final(self) == (EditorLocal {
                            pattern_options: reseeded(
                                old(self).pattern_options,
                                s.patterns@[i as int]->Some_0,
                                s.patterns@,
                                old(self).options_focus,
                            ),
                            ..*old(self)
                        })
                    } else {
                        r is None && *final(self) == options_closed(*old(self))
                    },
                    None => r is None && *final(self) == options_closed(*old(self)),
                },
            },
    {
        let i = match self.pattern_options.target {
            Some(i) => i,
            None => return None,
        };
        let s = match session {
            Some(s) => s,
            None => {
                self.pattern_options.target = None;
                return None;
            },
        };
        if i >= PATTERN_SLOTS {
            self.pattern_options.target = None;
            return None;
        }
        match &s.patterns[i] {
            Some(p) => {
                let (d, t) = action_to_draft(&p.follow_action.action, &s.patterns);
                let loops = p.follow_action.after_loops;
                let clamped: u32 = if loops < 1 {
                    1
                } else if loops > 16 {
                    16
                } else {
                    loops
                };
                if !self.options_focus.loops {
                    self.pattern_options.after_loops = clamped;
                }
                if !self.options_focus.action {
                    self.pattern_options.action = d;
                }
                if !self.options_focus.target {
                    self.pattern_options.specific_target = t;
                }
                Some(i)
            },
            None => {
                self.pattern_options.target = None;
                None
            },
        }
    }

    /// The sheet's clipboard buttons act on the whole pattern of its slot and
    /// leave the sheet open. With the sheet closed nothing is sent.
    pub fn pattern_clip(&self, b: PatternClip) -> (c: Option<Command>)
        ensures
            c == match self.pattern_options.target {
                Some(i) => Some(match b {
                    PatternClip::Cut => Command::CutPattern { index: i },
                    PatternClip::Copy => Command::CopyPattern { index: i },
                    PatternClip::Paste => Command::PastePattern { index: i },
                    PatternClip::Clear => Command::ClearPattern { index: i },
                }),
                None => None,
            },
    {
        match self.pattern_options.target {
            Some(i) => Some(match b {
                PatternClip::Cut => Command::CutPattern { index: i },
                PatternClip::Copy => Command::CopyPattern { index: i },
                PatternClip::Paste => Command::PastePattern { index: i },
                PatternClip::Clear => Command::ClearPattern { index: i },
            }),
            None => None,
        }
    }

    /// The loop slider's value, clamped to 1..=16.
    pub fn set_options_loops(&mut self, value: i32)
        ensures
            *final(self) == (EditorLocal {
                pattern_options: PatternOptionsState { after_loops: clamp_loops(value as int), ..old(self).pattern_options },
                ..*old(self)
            }),
    {
        let v: u32 = if value < 1 {
            1
        } else if value > 16 {
            16
        } else {
            value as u32
        };
        self.pattern_options.after_loops = v;
    }

    /// Save sends the draft as the slot's follow action, Play Specific
    /// resolved to the id of the pattern in the chosen slot, and closes the
    /// sheet. With the sheet closed nothing is sent.
    pub fn save_pattern_options(&mut self, patterns: &[Option<Pattern>; 9]) -> (c: Option<Command>)
        ensures
            match old(self).pattern_options.target {
                Some(i) => c == Some(saved_command(old(self).pattern_options, i, patterns@))
                    && *final(self) == options_closed(*old(self)),
                None => c is None && *final(self) == *old(self),
            },
    {
        match self.pattern_options.target {
            Some(i) => {
                let action = resolve_action(self.pattern_options.action, self.pattern_options.specific_target, patterns);
                let c = Command::SetFollowAction {
                    pattern_idx: i,
                    action: FollowAction { after_loops: self.pattern_options.after_loops, action },
                };
                self.pattern_options.target = None;
                Some(c)
            },
            None => None,
        }
    }
}

impl Default for EditorLocal {
    fn default() -> (e: Self)
        ensures
            e == fresh_local(),
    {
        EditorLocal::new()
    }
}

/// The grain after `g` in the cycle step, beat, bar, pattern end, step.
pub open spec fn next_grain_of(g: QuantizeGrain) -> QuantizeGrain {
    match g {
        QuantizeGrain::NextStep => QuantizeGrain::NextBeat,
        QuantizeGrain::NextBeat => QuantizeGrain::NextBar,
        QuantizeGrain::NextBar => QuantizeGrain::EndOfPattern,
        QuantizeGrain::EndOfPattern => QuantizeGrain::NextStep,
    }
}

/// A pattern options sheet opened on a filled slot, re-read on its first
/// frame and saved without any edit sends back that pattern's own follow
/// action, when its loop count is within the sheet's 1..=16 and any pattern
/// it plays is in a slot.
pub proof fn law_options_open_save_round_trip(a: EditorLocal, s: Session, idx: usize)
    requires
        idx < PATTERN_SLOTS,
        s.patterns@[idx as int] is Some,
        1 <= s.patterns@[idx as int]->Some_0.follow_action.after_loops <= 16,
        s.patterns@[idx as int]->Some_0.follow_action.action matches FollowActionType::PlaySpecific(id)
            ==> slot_of_id(s.patterns@, id) is Some,
    ensures
        saved_command(
            reseeded(options_opened(a.pattern_options, a.frame, idx, Some(s)), s.patterns@[idx as int]->Some_0, s.patterns@, no_focus()),
            idx,
            s.patterns@,
        ) == (Command::SetFollowAction { pattern_idx: idx, action: s.patterns@[idx as int]->Some_0.follow_action }),
{
    let p = s.patterns@[idx as int]->Some_0;
    law_draft_round_trip(p.follow_action.action, s.patterns@);
}

/// The note picker and the action drawer are never open together: opening
/// either one on a track leaves that one open and the other closed, whatever
/// was open before.
pub proof fn law_track_sheets_exclusive(a: EditorLocal, track_idx: usize)
    ensures
        one_track_sheet(note_picker_opened(a, track_idx)),
        note_picker_opened(a, track_idx).note_picker.target == Some(track_idx),
        one_track_sheet(action_drawer_opened(a, track_idx)),
        action_drawer_opened(a, track_idx).action_drawer.target == Some(track_idx),
{
}

} // verus!
