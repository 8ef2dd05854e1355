//! The state of a packet capture: whether it runs, what it has seen, and
//! when it stops by itself.
use vstd::prelude::*;

verus! {

/// What the interface shows of a capture.
#[derive(Clone, Debug)]
pub struct CaptureState {
    pub capturing: bool,
    pub complete: bool,
    pub has_characters: bool,
    pub has_items: bool,
    pub character_count: usize,
    pub weapon_count: usize,
    pub artifact_count: usize,
    pub error: Option<String>,
}

impl Default for CaptureState {
    fn default() -> (s: Self)
        ensures
            !s.capturing && !s.complete && !s.has_characters && !s.has_items,
            s.character_count == 0 && s.weapon_count == 0 && s.artifact_count == 0,
            s.error is None,
    {
        CaptureState {
            capturing: false,
            complete: false,
            has_characters: false,
            has_items: false,
            character_count: 0,
            weapon_count: 0,
            artifact_count: 0,
            error: None,
        }
    }
}

/// The capture's decisions: the shown state, and whether a capture task
/// runs (so that it can be cancelled).
pub struct CaptureTracker {
    pub state: CaptureState,
    pub task_running: bool,
}

impl CaptureTracker {
    /// Nothing captured, no task.
    pub fn new() -> (t: Self)
        ensures
            !t.task_running && !t.state.capturing && !t.state.complete,
            !t.state.has_characters && !t.state.has_items,
    {
        CaptureTracker { state: CaptureState::default(), task_running: false }
    }

    /// A start command: ignored (`false`) while a task runs; else a task is
    /// to be started (`true`), and the state shows a fresh, incomplete
    /// capture without error.
    pub fn start(&mut self) -> (spawn: bool)
        ensures
            spawn == !old(self).task_running,
            spawn ==> final(self).task_running && final(self).state.capturing
                && !final(self).state.complete && final(self).state.error is None
                && final(self).state.has_characters == old(self).state.has_characters
                && final(self).state.has_items == old(self).state.has_items,
            !spawn ==> final(self).state.capturing == old(self).state.capturing
                && final(self).task_running,
    {
        if self.task_running {
            return false;
        }
        self.task_running = true;
        self.state.capturing = true;
        self.state.complete = false;
        self.state.error = None;
        true
    }

    /// A stop command: the running task, if any, is to be cancelled (the
    /// result tells whether there was one); the state no longer captures.
    pub fn stop(&mut self) -> (cancel: bool)
        ensures
            cancel == old(self).task_running,
            !final(self).task_running,
            !final(self).state.capturing,
            final(self).state.complete == old(self).state.complete,
            final(self).state.has_characters == old(self).state.has_characters,
            final(self).state.has_items == old(self).state.has_items,
    {
        let cancel = self.task_running;
        self.task_running = false;
        self.state.capturing = false;
        cancel
    }

    /// An item packet was read; the inventory now holds `weapons` weapons
    /// and `artifacts` artifacts.
    pub fn on_items(&mut self, weapons: usize, artifacts: usize)
        ensures
            final(self).state.has_items,
            final(self).state.weapon_count == weapons,
            final(self).state.artifact_count == artifacts,
            final(self).state.has_characters == old(self).state.has_characters,
            final(self).state.capturing == old(self).state.capturing,
            final(self).task_running == old(self).task_running,
    {
        self.state.has_items = true;
        self.state.weapon_count = weapons;
        self.state.artifact_count = artifacts;
    }

    /// A character packet was read; there are now `characters` characters.
    pub fn on_characters(&mut self, characters: usize)
        ensures
            final(self).state.has_characters,
            final(self).state.character_count == characters,
            final(self).state.has_items == old(self).state.has_items,
            final(self).state.capturing == old(self).state.capturing,
            final(self).task_running == old(self).task_running,
    {
        self.state.has_characters = true;
        self.state.character_count = characters;
    }

    /// After each packet: once both characters and items were seen during a
    /// capture, it stops by itself and is complete. The result tells whether
    /// it stopped now (and so whether the task is to be cancelled).
    pub fn after_packet(&mut self) -> (stopped: bool)
        ensures
            stopped == (old(self).state.has_characters && old(self).state.has_items
                && old(self).state.capturing),
            stopped ==> !final(self).state.capturing && final(self).state.complete
                && !final(self).task_running,
            !stopped ==> final(self).state.capturing == old(self).state.capturing
                && final(self).state.complete == old(self).state.complete
                && final(self).task_running == old(self).task_running,
    {
        if self.state.has_characters && self.state.has_items && self.state.capturing {
            self.stop();
            self.state.complete = true;
            true
        } else {
            false
        }
    }
}

} // verus!
