//! The frame loop's state machine.
//!
//! Each tick the driver polls devices, hands the resulting actions and
//! window events to [`RenderLoop`], refreshes the pointer hit-test, steps
//! the blend animation, draws, and finally resolves any launch request made
//! during the tick. The machine decides everything; the driver only moves
//! bytes and pixels.
use vstd::prelude::*;
use crate::geometry::spec_hit_test;
use crate::geometry::hit_test;
use crate::input::Action;
use crate::input::KeyPress;
use crate::input::action_for_key;
use crate::input::spec_key_action;
use crate::options::LauncherOptions;
use crate::options::spec_exit_after_launch;
use crate::selection::SelectionState;
use crate::selection::spec_move_sel;
use crate::selection::spec_stepped;

verus! {

/// The loop's phase: ticking normally, performing a launch's side effects,
/// or done.
#[derive(Clone, Copy, Debug, PartialEq, Eq, Structural)]
pub enum LoopState {
    Running,
    LaunchPending,
    Exiting,
}

/// Why a launch attempt failed.
#[derive(Clone, Copy, Debug, PartialEq, Eq, Structural)]
pub enum LaunchError {
    ExecutableNotFound,
}

impl LaunchError {
    /// A human-readable report of the failure.
    pub fn message(&self) -> (r: String)
        ensures
            r@ == "SMW executable not found"@,
    {
        "SMW executable not found".to_owned()
    }
}

/// A window event, as the front-end distinguishes them.
#[derive(Clone, Copy, Debug, PartialEq, Eq, Structural)]
pub enum WindowEvent {
    Quit,
    KeyDown(KeyPress),
    MouseLeftDown(i32, i32),
    MouseMotion(i32, i32),
    Other,
}

/// The selected index after one action is applied.
pub open spec fn spec_sel_after_action(sel: int, count: int, a: Action) -> int {
    match a {
        Action::Left => spec_move_sel(sel, -1, count),
        Action::Right => spec_move_sel(sel, 1, count),
        _ => sel,
    }
}

/// The selected index after a whole sequence of actions is applied in
/// order.
pub open spec fn spec_sel_after_actions(sel: int, count: int, acts: Seq<Action>) -> int
    decreases acts.len(),
{
    if acts.len() == 0 {
        sel
    } else {
        spec_sel_after_action(
            spec_sel_after_actions(sel, count, acts.drop_last()),
            count,
            acts.last(),
        )
    }
}

/// Clamping law: from a valid selected index, no sequence of actions ever
/// moves the selection below 0 or past the last entry; with an empty
/// catalog it never leaves 0.
pub proof fn lemma_selection_clamped(sel: int, count: int, acts: Seq<Action>)
    requires
        count >= 0,
        if count == 0 {
            sel == 0
        } else {
            0 <= sel < count
        },
    ensures
        if count == 0 {
            spec_sel_after_actions(sel, count, acts) == 0
        } else {
            0 <= spec_sel_after_actions(sel, count, acts) < count
        },
    decreases acts.len(),
{
    if acts.len() > 0 {
        lemma_selection_clamped(sel, count, acts.drop_last());
    }
}

/// The whole state of the front-end loop: the catalog it displays, the
/// selection and pointer it tracks, the settings, its phase, and the
/// launch request of the current tick, if any.
pub struct RenderLoop {
    pub catalog: Vec<String>,
    pub selection: SelectionState,
    pub mouse_x: i32,
    pub mouse_y: i32,
    pub options: LauncherOptions,
    pub state: LoopState,
    pub pending: Option<usize>,
}

impl RenderLoop {
    /// Validity: the selection fits the catalog and any launch request
    /// names a real entry.
    pub open spec fn wf(self) -> bool {
        &&& self.selection.wf(self.catalog@.len() as int)
        &&& match self.pending {
            Some(i) => i < self.catalog@.len(),
            None => true,
        }
    }

    /// A fresh loop over a catalog: first entry selected, pointer at the
    /// origin, running, with no launch requested.
    pub fn new(catalog: Vec<String>, options: LauncherOptions) -> (r: RenderLoop)
        ensures
            r.catalog == catalog,
            r.selection.selected == 0,
            r.selection.blends@ =~= Seq::<u32>::empty(),
            r.mouse_x == 0,
            r.mouse_y == 0,
            r.options == options,
            r.state == LoopState::Running,
            r.pending is None,
            r.wf(),
    {
        RenderLoop {
            catalog,
            selection: SelectionState::new(),
            mouse_x: 0,
            mouse_y: 0,
            options,
            state: LoopState::Running,
            pending: Option::None,
        }
    }

    /// Applies one discrete action: confirm requests a launch of the
    /// selected entry (when there is one), left and right move the
    /// selection with clamping, back asks the loop to exit, and every
    /// other action does nothing.
    pub fn apply_action(&mut self, a: Action)
        requires
            old(self).wf(),
        ensures
            final(self).wf(),
            final(self).catalog == old(self).catalog,
            final(self).options == old(self).options,
            final(self).mouse_x == old(self).mouse_x,
            final(self).mouse_y == old(self).mouse_y,
            final(self).selection.blends == old(self).selection.blends,
            final(self).selection.selected as int == spec_sel_after_action(
                old(self).selection.selected as int,
                old(self).catalog@.len() as int,
                a,
            ),
            final(self).state == if a is Back {
                LoopState::Exiting
            } else {
                old(self).state
            },
            final(self).pending == if a is Confirm && old(self).catalog@.len() > 0 {
                Some(old(self).selection.selected)
            } else {
                old(self).pending
            },
    {
        let count = self.catalog.len();
        match a {
            Action::Confirm => {
                if count > 0 {
                    self.pending = Some(self.selection.selected);
                }
            },
            Action::Left => {
                self.selection.move_selection(-1, count);
            },
            Action::Right => {
                self.selection.move_selection(1, count);
            },
            Action::Back => {
                self.state = LoopState::Exiting;
            },
            _ => {},
        }
    }

    /// Moves the pointer and re-runs the hit-test: if the pointer rests on
    /// a visible entry's box, that entry becomes selected; otherwise the
    /// selection stays.
    pub fn update_pointer(&mut self, x: i32, y: i32)
        requires
            old(self).wf(),
        ensures
            final(self).wf(),
            final(self).catalog == old(self).catalog,
            final(self).options == old(self).options,
            final(self).state == old(self).state,
            final(self).pending == old(self).pending,
            final(self).selection.blends == old(self).selection.blends,
            final(self).mouse_x == x,
            final(self).mouse_y == y,
            final(self).selection.selected as int == match spec_hit_test(
                x as int,
                y as int,
                old(self).catalog@.len() as int,
            ) {
                Some(i) => i,
                None => old(self).selection.selected as int,
            },
    {
        self.mouse_x = x;
        self.mouse_y = y;
        let hit = hit_test(x, y, self.catalog.len());
        match hit {
            Some(idx) => {
                proof {
                    crate::geometry::lemma_hit_test_in_range(
                        x as int,
                        y as int,
                        self.catalog@.len() as int,
                    );
                }
                self.selection.selected = idx;
            },
            Option::None => {},
        }
    }

    /// Handles one window event: a close request or the escape key asks
    /// the loop to exit, other keys act through the keyboard table, a left
    /// click on a visible entry's box selects that entry and requests its
    /// launch, and pointer motion re-runs the hit-test.
    pub fn handle_event(&mut self, e: WindowEvent)
        requires
            old(self).wf(),
        ensures
            final(self).wf(),
            final(self).catalog == old(self).catalog,
            final(self).options == old(self).options,
            final(self).selection.blends == old(self).selection.blends,
            match e {
                WindowEvent::Quit => {
                    &&& final(self).mouse_x == old(self).mouse_x
                    &&& final(self).mouse_y == old(self).mouse_y
                    &&& final(self).selection == old(self).selection
                    &&& final(self).pending == old(self).pending
                    &&& final(self).state == LoopState::Exiting
                },
                WindowEvent::KeyDown(k) => {
                    &&& final(self).mouse_x == old(self).mouse_x
                    &&& final(self).mouse_y == old(self).mouse_y
                    &&& final(self).selection.selected as int == spec_sel_after_action(
                        old(self).selection.selected as int,
                        old(self).catalog@.len() as int,
                        spec_key_action(k),
                    )
                    &&& final(self).state == if spec_key_action(k) is Back {
                        LoopState::Exiting
                    } else {
                        old(self).state
                    }
                    &&& final(self).pending == if spec_key_action(k) is Confirm
                        && old(self).catalog@.len() > 0 {
                        Some(old(self).selection.selected)
                    } else {
                        old(self).pending
                    }
                },
                WindowEvent::MouseLeftDown(x, y) => {
                    &&& final(self).mouse_x == old(self).mouse_x
                    &&& final(self).mouse_y == old(self).mouse_y
                    &&& final(self).state == old(self).state
                    &&& match spec_hit_test(x as int, y as int, old(self).catalog@.len() as int) {
                        Some(i) => {
                            &&& final(self).selection.selected as int == i
                            &&& final(self).pending == Some(i as usize)
                        },
                        None => {
                            &&& final(self).selection.selected == old(self).selection.selected
                            &&& final(self).pending == old(self).pending
                        },
                    }
                },
                WindowEvent::MouseMotion(x, y) => {
                    &&& final(self).mouse_x == x
                    &&& final(self).mouse_y == y
                    &&& final(self).state == old(self).state
                    &&& final(self).pending == old(self).pending
                    &&& final(self).selection.selected as int == match spec_hit_test(
                        x as int,
                        y as int,
                        old(self).catalog@.len() as int,
                    ) {
                        Some(i) => i,
                        None => old(self).selection.selected as int,
                    }
                },
                WindowEvent::Other => *final(self) == *old(self),
            },
    {
        match e {
            WindowEvent::Quit => {
                self.state = LoopState::Exiting;
            },
            WindowEvent::KeyDown(k) => {
                let a = action_for_key(k);
                self.apply_action(a);
            },
            WindowEvent::MouseLeftDown(x, y) => {
                let hit = hit_test(x, y, self.catalog.len());
                match hit {
                    Some(idx) => {
                        proof {
                            crate::geometry::lemma_hit_test_in_range(
                                x as int,
                                y as int,
                                self.catalog@.len() as int,
                            );
                        }
                        self.selection.selected = idx;
                        self.pending = Some(idx);
                    },
                    Option::None => {},
                }
            },
            WindowEvent::MouseMotion(x, y) => {
                self.update_pointer(x, y);
            },
            WindowEvent::Other => {},
        }
    }

    /// One animation frame: every displayed entry's blend moves one step
    /// toward its target.
    pub fn tick_animation(&mut self)
        requires
            old(self).wf(),
        ensures
            final(self).wf(),
            final(self).catalog == old(self).catalog,
            final(self).options == old(self).options,
            final(self).mouse_x == old(self).mouse_x,
            final(self).mouse_y == old(self).mouse_y,
            final(self).state == old(self).state,
            final(self).pending == old(self).pending,
            final(self).selection.selected == old(self).selection.selected,
            final(self).selection.blends@ =~= spec_stepped(
                old(self).selection.blends@,
                old(self).selection.selected as int,
                old(self).catalog@.len() as int,
            ),
    {
        let count = self.catalog.len();
        self.selection.update_blends(count);
    }

    /// Consumes the tick's launch request, if one was made: the request
    /// never outlives the tick, and a consumed request moves the loop to
    /// the launch-pending phase.
    pub fn take_launch_request(&mut self) -> (r: Option<usize>)
        requires
            old(self).wf(),
            old(self).state == LoopState::Running,
        ensures
            final(self).wf(),
            final(self).catalog == old(self).catalog,
            final(self).options == old(self).options,
            final(self).mouse_x == old(self).mouse_x,
            final(self).mouse_y == old(self).mouse_y,
            final(self).selection == old(self).selection,
            final(self).pending is None,
            r == old(self).pending,
            match old(self).pending {
                Some(i) => i < old(self).catalog@.len() && final(self).state
                    == LoopState::LaunchPending,
                None => final(self).state == LoopState::Running,
            },
    {
        let r = self.pending;
        self.pending = Option::None;
        if r.is_some() {
            self.state = LoopState::LaunchPending;
        }
        r
    }

    /// Finishes a launch attempt. When the executable exists the launch
    /// succeeded: the loop exits if the settings say so, else it keeps
    /// running. When it is absent, the attempt fails with
    /// [`LaunchError::ExecutableNotFound`] and the loop keeps running —
    /// the failure is reported, never fatal.
    pub fn complete_launch(&mut self, exe_exists: bool) -> (r: Result<(), LaunchError>)
        requires
            old(self).wf(),
            old(self).state == LoopState::LaunchPending,
        ensures
            final(self).wf(),
            final(self).catalog == old(self).catalog,
            final(self).options == old(self).options,
            final(self).mouse_x == old(self).mouse_x,
            final(self).mouse_y == old(self).mouse_y,
            final(self).selection == old(self).selection,
            final(self).pending == old(self).pending,
            r is Ok <==> exe_exists,
            !exe_exists ==> r == Result::<(), LaunchError>::Err(LaunchError::ExecutableNotFound)
                && final(self).state == LoopState::Running,
            exe_exists ==> final(self).state == if spec_exit_after_launch(old(self).options) {
                LoopState::Exiting
            } else {
                LoopState::Running
            },
    {
        if !exe_exists {
            self.state = LoopState::Running;
            return Result::Err(LaunchError::ExecutableNotFound);
        }
        if self.options.exit_after_launch() {
            self.state = LoopState::Exiting;
        } else {
            self.state = LoopState::Running;
        }
        Result::Ok(())
    }
}

} // verus!
