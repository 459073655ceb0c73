//! The modal task-list controller: an ordered list of tasks, a clamped
//! selection cursor, and a two-mode state machine (normal / editing) for
//! composing new task titles.
//!
//! Every operation is total and permissive: an invocation that does not fit
//! the current mode, or that targets an empty list, is a silent no-op rather
//! than an error.

use vstd::prelude::*;

use crate::text::trim_chars;
use crate::text::trimmed;

verus! {

/// The controller's interaction mode. In `Normal` mode keystrokes drive
/// navigation and list mutation; in `Editing` mode they compose the title of
/// a new task in the edit buffer.
#[derive(Clone, Copy, Debug, PartialEq, Eq, Structural)]
pub enum Mode {
    Normal,
    Editing,
}

/// One discrete key symbol, as the host's input dispatcher hands it in.
#[derive(Clone, Copy, Debug, PartialEq, Eq)]
pub enum Key {
    Up,
    Down,
    Enter,
    Esc,
    Backspace,
    Char(char),
    Other,
}

/// A single to-do entry: a title and a completion flag.
#[derive(Clone, Debug)]
pub struct Task {
    pub title: String,
    pub completed: bool,
}

/// The mathematical value of a [`Task`]: its title as a character sequence
/// and its completion flag.
#[verifier::ext_equal]
pub struct TaskView {
    pub title: Seq<char>,
    pub completed: bool,
}

impl View for Task {
    type V = TaskView;

    open spec fn view(&self) -> TaskView {
        TaskView { title: self.title@, completed: self.completed }
    }
}

impl DeepView for Task {
    type V = TaskView;

    open spec fn deep_view(&self) -> TaskView {
        self@
    }
}

/// The mathematical state of a [`TaskListController`]: the ordered tasks,
/// the selection cursor, the mode, and the in-progress edit buffer.
#[verifier::ext_equal]
pub struct ControllerView {
    pub tasks: Seq<TaskView>,
    pub selected: int,
    pub mode: Mode,
    pub buffer: Seq<char>,
}

impl ControllerView {
    /// Well-formedness: the cursor is a valid index into the task list (or 0
    /// when the list is empty), and in normal mode no stale buffer content
    /// survives.
    pub open spec fn wf(self) -> bool {
        &&& 0 <= self.selected
        &&& self.tasks.len() == 0 ==> self.selected == 0
        &&& self.tasks.len() > 0 ==> self.selected < self.tasks.len()
        &&& self.mode is Normal ==> self.buffer.len() == 0
    }

    /// In normal mode the cursor moves one entry up, stopping at the top;
    /// otherwise nothing changes.
    pub open spec fn navigate_up(self) -> ControllerView {
        if self.mode is Normal && self.selected > 0 {
            ControllerView { selected: self.selected - 1, ..self }
        } else {
            self
        }
    }

    /// In normal mode the cursor moves one entry down, stopping at the
    /// bottom; otherwise nothing changes.
    pub open spec fn navigate_down(self) -> ControllerView {
        if self.mode is Normal && self.selected + 1 < self.tasks.len() {
            ControllerView { selected: self.selected + 1, ..self }
        } else {
            self
        }
    }

    /// In normal mode, on a non-empty list, the selected task's completion
    /// flag flips; otherwise nothing changes.
    pub open spec fn toggle_selected(self) -> ControllerView {
        if self.mode is Normal && self.tasks.len() > 0 {
            ControllerView {
                tasks: self.tasks.update(
                    self.selected,
                    TaskView {
                        title: self.tasks[self.selected].title,
                        completed: !self.tasks[self.selected].completed,
                    },
                ),
                ..self
            }
        } else {
            self
        }
    }

    /// In normal mode, on a non-empty list, the selected task is removed and
    /// the cursor is re-clamped to the last valid index (or 0 when the list
    /// becomes empty); otherwise nothing changes.
    pub open spec fn remove_selected(self) -> ControllerView {
        if self.mode is Normal && self.tasks.len() > 0 {
            ControllerView {
                tasks: self.tasks.remove(self.selected),
                selected: if self.selected + 1 < self.tasks.len() {
                    self.selected
                } else if self.tasks.len() > 1 {
                    self.tasks.len() - 2
                } else {
                    0
                },
                ..self
            }
        } else {
            self
        }
    }

    /// From normal mode the controller enters editing mode with an empty
    /// buffer, discarding any stale content; otherwise nothing changes.
    pub open spec fn begin_edit(self) -> ControllerView {
        if self.mode is Normal {
            ControllerView { mode: Mode::Editing, buffer: Seq::<char>::empty(), ..self }
        } else {
            self
        }
    }

    /// In editing mode the character is appended to the buffer; otherwise
    /// nothing changes.
    pub open spec fn edit_push_char(self, c: char) -> ControllerView {
        if self.mode is Editing {
            ControllerView { buffer: self.buffer.push(c), ..self }
        } else {
            self
        }
    }

    /// In editing mode the last buffered character is removed, if any;
    /// otherwise nothing changes.
    pub open spec fn edit_backspace(self) -> ControllerView {
        if self.mode is Editing && self.buffer.len() > 0 {
            ControllerView { buffer: self.buffer.drop_last(), ..self }
        } else {
            self
        }
    }

    /// In editing mode the buffer is trimmed of surrounding whitespace; a
    /// non-empty trimmed title is appended as a new uncompleted task, an
    /// all-whitespace one is silently discarded; either way the controller
    /// returns to normal mode with an empty buffer. Outside editing mode
    /// nothing changes.
    pub open spec fn commit_edit(self) -> ControllerView {
        if self.mode is Editing {
            ControllerView {
                tasks: if trimmed(self.buffer).len() > 0 {
                    self.tasks.push(TaskView { title: trimmed(self.buffer), completed: false })
                } else {
                    self.tasks
                },
                mode: Mode::Normal,
                buffer: Seq::<char>::empty(),
                ..self
            }
        } else {
            self
        }
    }

    /// In editing mode the buffer is discarded and the controller returns to
    /// normal mode without creating a task; otherwise nothing changes.
    pub open spec fn cancel_edit(self) -> ControllerView {
        if self.mode is Editing {
            ControllerView { mode: Mode::Normal, buffer: Seq::<char>::empty(), ..self }
        } else {
            self
        }
    }

    /// One keystroke dispatched according to the current mode: the spec-level
    /// mirror of [`TaskListController::handle_key`]. Unrecognized keys change
    /// nothing.
    pub open spec fn dispatch(self, key: Key) -> ControllerView {
        match self.mode {
            Mode::Normal => match key {
                Key::Up => self.navigate_up(),
                Key::Down => self.navigate_down(),
                Key::Char(c) => {
                    if c == ' ' {
                        self.toggle_selected()
                    } else if c == 'd' {
                        self.remove_selected()
                    } else if c == 'a' {
                        self.begin_edit()
                    } else {
                        self
                    }
                },
                _ => self,
            },
            Mode::Editing => match key {
                Key::Enter => self.commit_edit(),
                Key::Esc => self.cancel_edit(),
                Key::Backspace => self.edit_backspace(),
                Key::Char(c) => self.edit_push_char(c),
                _ => self,
            },
        }
    }

    /// Whether the keystroke signals the host to end its run loop: the quit
    /// key, recognized in normal mode only.
    pub open spec fn dispatch_quits(self, key: Key) -> bool {
        self.mode is Normal && key == Key::Char('q')
    }
}

/// The state a freshly seeded controller is in: the given tasks, the cursor
/// at the top, normal mode, an empty buffer.
pub open spec fn seeded(tasks: Seq<TaskView>) -> ControllerView {
    ControllerView { tasks, selected: 0, mode: Mode::Normal, buffer: Seq::<char>::empty() }
}

/// The modal task-list controller. See the module documentation.
pub struct TaskListController {
    tasks: Vec<Task>,
    selected: usize,
    mode: Mode,
    buffer: Vec<char>,
}

impl View for TaskListController {
    type V = ControllerView;

    closed spec fn view(&self) -> ControllerView {
        ControllerView {
            tasks: self.tasks.deep_view(),
            selected: self.selected as int,
            mode: self.mode,
            buffer: self.buffer@,
        }
    }
}

impl TaskListController {
    /// Well-formedness of the controller, stated over its view.
    pub open spec fn wf(self) -> bool {
        self@.wf()
    }

    /// A controller with no tasks, in normal mode.
    pub fn new() -> (r: TaskListController)
        ensures
            r.wf(),
            r@ == seeded(Seq::<TaskView>::empty()),
    {
        let r = TaskListController {
            tasks: Vec::new(),
            selected: 0,
            mode: Mode::Normal,
            buffer: Vec::new(),
        };
        proof {
            assert(r@ =~= seeded(Seq::<TaskView>::empty()));
        }
        r
    }

    /// Seeds a controller from a persisted sequence of tasks, preserving
    /// their order and fields exactly; the cursor starts at the top, in
    /// normal mode.
    pub fn from_saved(tasks: Vec<Task>) -> (r: TaskListController)
        ensures
            r.wf(),
            r@ == seeded(tasks.deep_view()),
    {
        let r = TaskListController { tasks, selected: 0, mode: Mode::Normal, buffer: Vec::new() };
        proof {
            assert(r@ =~= seeded(r.tasks.deep_view()));
        }
        r
    }

    /// Moves the cursor one entry up; a no-op at the top, on an empty list,
    /// or outside normal mode.
    pub fn navigate_up(&mut self)
        requires
            old(self).wf(),
        ensures
            final(self).wf(),
            final(self)@ == old(self)@.navigate_up(),
    {
        if self.mode == Mode::Normal && self.selected > 0 {
            self.selected = self.selected - 1;
        }
        proof {
            assert(self@ =~= old(self)@.navigate_up());
        }
    }

    /// Moves the cursor one entry down; a no-op at the bottom, on an empty
    /// list, or outside normal mode.
    pub fn navigate_down(&mut self)
        requires
            old(self).wf(),
        ensures
            final(self).wf(),
            final(self)@ == old(self)@.navigate_down(),
    {
        let n = self.tasks.len();
        proof {
            assert(self.tasks.deep_view().len() == self.tasks@.len());
        }
        if self.mode == Mode::Normal && self.selected + 1 < n {
            self.selected = self.selected + 1;
        }
        proof {
            assert(self@ =~= old(self)@.navigate_down());
        }
    }

    /// Flips the completion flag of the selected task; a no-op on an empty
    /// list or outside normal mode.
    pub fn toggle_selected(&mut self)
        requires
            old(self).wf(),
        ensures
            final(self).wf(),
            final(self)@ == old(self)@.toggle_selected(),
    {
        proof {
            assert(self.tasks.deep_view().len() == self.tasks@.len());
        }
        if self.mode == Mode::Normal && self.tasks.len() > 0 {
            let i = self.selected;
            let flipped = !self.tasks[i].completed;
            self.tasks[i].completed = flipped;
            proof {
                assert(self.tasks.deep_view() =~= old(self).tasks.deep_view().update(
                    i as int,
                    TaskView {
                        title: old(self).tasks.deep_view()[i as int].title,
                        completed: !old(self).tasks.deep_view()[i as int].completed,
                    },
                ));
            }
        }
        proof {
            assert(self@ =~= old(self)@.toggle_selected());
        }
    }

    /// Removes the selected task and re-clamps the cursor to the last valid
    /// index (or 0 when the list becomes empty); a no-op on an empty list or
    /// outside normal mode.
    pub fn remove_selected(&mut self)
        requires
            old(self).wf(),
        ensures
            final(self).wf(),
            final(self)@ == old(self)@.remove_selected(),
    {
        proof {
            assert(self.tasks.deep_view().len() == self.tasks@.len());
        }
        if self.mode == Mode::Normal && self.tasks.len() > 0 {
            self.tasks.remove(self.selected);
            if self.selected >= self.tasks.len() && self.tasks.len() > 0 {
                self.selected = self.tasks.len() - 1;
            }
            proof {
                assert(self.tasks.deep_view() =~= old(self).tasks.deep_view().remove(
                    old(self).selected as int,
                ));
            }
        }
        proof {
            assert(self@ =~= old(self)@.remove_selected());
        }
    }

    /// Enters editing mode with an empty buffer, discarding any stale
    /// content; a no-op when already editing.
    pub fn begin_edit(&mut self)
        requires
            old(self).wf(),
        ensures
            final(self).wf(),
            final(self)@ == old(self)@.begin_edit(),
    {
        if self.mode == Mode::Normal {
            self.mode = Mode::Editing;
            self.buffer.clear();
        }
        proof {
            assert(self@ =~= old(self)@.begin_edit());
        }
    }

    /// Appends a character to the edit buffer; a no-op outside editing mode.
    pub fn edit_push_char(&mut self, c: char)
        requires
            old(self).wf(),
        ensures
            final(self).wf(),
            final(self)@ == old(self)@.edit_push_char(c),
    {
        if self.mode == Mode::Editing {
            self.buffer.push(c);
        }
        proof {
            assert(self@ =~= old(self)@.edit_push_char(c));
        }
    }

    /// Removes the last character of the edit buffer, if any; a no-op on an
    /// empty buffer or outside editing mode.
    pub fn edit_backspace(&mut self)
        requires
            old(self).wf(),
        ensures
            final(self).wf(),
            final(self)@ == old(self)@.edit_backspace(),
    {
        if self.mode == Mode::Editing {
            self.buffer.pop();
        }
        proof {
            assert(self@ =~= old(self)@.edit_backspace());
        }
    }

    /// Commits the edit buffer: the buffer is trimmed of surrounding
    /// whitespace; a non-empty trimmed title is appended as a new
    /// uncompleted task, an all-whitespace one is silently discarded; either
    /// way the controller returns to normal mode with an empty buffer. A
    /// no-op outside editing mode.
    pub fn commit_edit(&mut self)
        requires
            old(self).wf(),
        ensures
            final(self).wf(),
            final(self)@ == old(self)@.commit_edit(),
    {
        if self.mode == Mode::Editing {
            let t = trim_chars(&self.buffer);
            if t.len() > 0 {
                let title = crate::text::chars_to_string(&t);
                self.tasks.push(Task { title, completed: false });
                proof {
                    assert(self.tasks.deep_view() =~= old(self).tasks.deep_view().push(
                        TaskView { title: trimmed(old(self).buffer@), completed: false },
                    ));
                }
            }
            self.buffer.clear();
            self.mode = Mode::Normal;
        }
        proof {
            assert(self@ =~= old(self)@.commit_edit());
        }
    }

    /// Abandons the edit: the buffer is discarded and the controller returns
    /// to normal mode without creating a task. A no-op outside editing mode.
    pub fn cancel_edit(&mut self)
        requires
            old(self).wf(),
        ensures
            final(self).wf(),
            final(self)@ == old(self)@.cancel_edit(),
    {
        if self.mode == Mode::Editing {
            self.buffer.clear();
            self.mode = Mode::Normal;
        }
        proof {
            assert(self@ =~= old(self)@.cancel_edit());
        }
    }

    /// Dispatches one keystroke according to the current mode, exactly as
    /// [`ControllerView::dispatch`] describes, and reports whether the key
    /// signals the host to end its run loop.
    pub fn handle_key(&mut self, key: Key) -> (quit: bool)
        requires
            old(self).wf(),
        ensures
            final(self).wf(),
            final(self)@ == old(self)@.dispatch(key),
            quit == old(self)@.dispatch_quits(key),
    {
        match self.mode {
            Mode::Normal => match key {
                Key::Up => {
                    self.navigate_up();
                    false
                },
                Key::Down => {
                    self.navigate_down();
                    false
                },
                Key::Char(c) => {
                    if c == 'q' {
                        true
                    } else if c == ' ' {
                        self.toggle_selected();
                        false
                    } else if c == 'd' {
                        self.remove_selected();
                        false
                    } else if c == 'a' {
                        self.begin_edit();
                        false
                    } else {
                        false
                    }
                },
                _ => false,
            },
            Mode::Editing => match key {
                Key::Enter => {
                    self.commit_edit();
                    false
                },
                Key::Esc => {
                    self.cancel_edit();
                    false
                },
                Key::Backspace => {
                    self.edit_backspace();
                    false
                },
                Key::Char(c) => {
                    self.edit_push_char(c);
                    false
                },
                _ => false,
            },
        }
    }

    /// Read-only view of the ordered task list, for rendering and for the
    /// host's persistence collaborator to write out.
    pub fn task_list(&self) -> (r: &Vec<Task>)
        ensures
            r.deep_view() == self@.tasks,
    {
        &self.tasks
    }

    /// The index of the currently highlighted task (0 on an empty list).
    pub fn selected_index(&self) -> (r: usize)
        ensures
            r as int == self@.selected,
    {
        self.selected
    }

    /// The current interaction mode.
    pub fn current_mode(&self) -> (r: Mode)
        ensures
            r == self@.mode,
    {
        self.mode
    }

    /// The in-progress title text, for rendering while editing.
    pub fn buffer_string(&self) -> (r: String)
        ensures
            r@ == self@.buffer,
    {
        crate::text::chars_to_string(&self.buffer)
    }
}

} // verus!
