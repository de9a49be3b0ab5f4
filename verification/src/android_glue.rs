use vstd::prelude::*;

verus! {

/// Identifiers of the sources that the glue registers with the looper.
#[derive(PartialEq, Eq, Structural, Clone, Copy, Debug)]
pub enum LooperId {
    Main,
    Input,
    User,
}

impl LooperId {
    pub open spec fn spec_value(self) -> i32 {
        match self {
            LooperId::Main => 1,
            LooperId::Input => 2,
            LooperId::User => 3,
        }
    }

    /// The identifier as the looper sees it.
    pub fn value(&self) -> (v: i32)
        ensures
            v == self.spec_value(),
    {
        match self {
            LooperId::Main => 1,
            LooperId::Input => 2,
            LooperId::User => 3,
        }
    }
}

/// Commands that the activity thread sends to the application thread
/// through the command pipe, one byte each.
#[derive(PartialEq, Eq, Structural, Clone, Copy, Debug)]
pub enum AppCmd {
    InputChanged,
    InitWindow,
    TermWindow,
    WindowResized,
    WindowRedrawNeeded,
    ContentRectChanged,
    GainedFocus,
    LostFocus,
    ConfigChanged,
    LowMemory,
    Start,
    Resume,
    SaveState,
    Pause,
    Stop,
    Destroy,
    InternalError,
}

impl AppCmd {
    /// The byte that stands for the command on the pipe.
    pub open spec fn spec_value(self) -> i8 {
        match self {
            AppCmd::InputChanged => 1,
            AppCmd::InitWindow => 2,
            AppCmd::TermWindow => 3,
            AppCmd::WindowResized => 4,
            AppCmd::WindowRedrawNeeded => 5,
            AppCmd::ContentRectChanged => 6,
            AppCmd::GainedFocus => 7,
            AppCmd::LostFocus => 8,
            AppCmd::ConfigChanged => 9,
            AppCmd::LowMemory => 10,
            AppCmd::Start => 11,
            AppCmd::Resume => 12,
            AppCmd::SaveState => 13,
            AppCmd::Pause => 14,
            AppCmd::Stop => 15,
            AppCmd::Destroy => 16,
            AppCmd::InternalError => -1i8,
        }
    }

    /// The byte that stands for the command on the pipe.
    pub fn value(&self) -> (v: i8)
        ensures
            v == self.spec_value(),
    {
        match self {
            AppCmd::InputChanged => 1,
            AppCmd::InitWindow => 2,
            AppCmd::TermWindow => 3,
            AppCmd::WindowResized => 4,
            AppCmd::WindowRedrawNeeded => 5,
            AppCmd::ContentRectChanged => 6,
            AppCmd::GainedFocus => 7,
            AppCmd::LostFocus => 8,
            AppCmd::ConfigChanged => 9,
            AppCmd::LowMemory => 10,
            AppCmd::Start => 11,
            AppCmd::Resume => 12,
            AppCmd::SaveState => 13,
            AppCmd::Pause => 14,
            AppCmd::Stop => 15,
            AppCmd::Destroy => 16,
            AppCmd::InternalError => -1,
        }
    }

    /// Whether `v` is the byte of some command.
    pub open spec fn is_command_byte(v: i8) -> bool {
        (1 <= v <= 16) || v == -1
    }

    /// The command whose byte is `v`, if there is one.
    pub fn from_value(v: i8) -> (cmd: Option<AppCmd>)
        ensures
            cmd is Some <==> AppCmd::is_command_byte(v),
            cmd matches Some(c) ==> c.spec_value() == v,
    {
        match v {
            1 => Some(AppCmd::InputChanged),
            2 => Some(AppCmd::InitWindow),
            3 => Some(AppCmd::TermWindow),
            4 => Some(AppCmd::WindowResized),
            5 => Some(AppCmd::WindowRedrawNeeded),
            6 => Some(AppCmd::ContentRectChanged),
            7 => Some(AppCmd::GainedFocus),
            8 => Some(AppCmd::LostFocus),
            9 => Some(AppCmd::ConfigChanged),
            10 => Some(AppCmd::LowMemory),
            11 => Some(AppCmd::Start),
            12 => Some(AppCmd::Resume),
            13 => Some(AppCmd::SaveState),
            14 => Some(AppCmd::Pause),
            15 => Some(AppCmd::Stop),
            16 => Some(AppCmd::Destroy),
            -1 => Some(AppCmd::InternalError),
            _ => None,
        }
    }

    /// The commands that set the activity state.
    pub open spec fn is_activity_command(self) -> bool {
        self == AppCmd::Start || self == AppCmd::Resume || self == AppCmd::Pause || self
            == AppCmd::Stop
    }
}

/// The native work that a step of the glue asks the caller to do.
/// Handles are the addresses of native objects.
#[derive(PartialEq, Eq, Structural, Clone, Copy, Debug)]
pub enum GlueAction {
    /// Detach this input queue from the looper.
    DetachInputQueue(usize),
    /// Attach this input queue to the looper, under `LooperId::Input`.
    AttachInputQueue(usize),
    /// Wake the threads that wait on the glue's condition variable.
    Broadcast,
    /// Read the configuration again from the asset manager.
    ReloadConfiguration,
    /// Free the saved-state buffer at this address.
    FreeSavedState(usize),
    /// Delete the configuration object.
    DeleteConfiguration,
}

/// The shared state of the native-activity glue, as the activity thread and
/// the application thread see it under the glue's mutex. A native pointer is
/// held as its address, and a null pointer as `None`.
pub struct GlueState {
    pub input_queue: Option<usize>,
    pub pending_input_queue: Option<usize>,
    pub window: Option<usize>,
    pub pending_window: Option<usize>,
    /// Address and size of the saved-state buffer.
    pub saved_state: Option<(usize, usize)>,
    pub activity_state: i32,
    pub destroy_requested: bool,
    pub running: bool,
    pub state_saved: bool,
    pub destroyed: bool,
}

/// The state after `free_saved_state`.
pub open spec fn spec_free_saved_state(s: GlueState) -> GlueState {
    GlueState { saved_state: None, ..s }
}

/// What `free_saved_state` asks the caller to do.
pub open spec fn spec_free_saved_state_actions(s: GlueState) -> Seq<GlueAction> {
    match s.saved_state {
        Some((addr, _size)) => seq![GlueAction::FreeSavedState(addr)],
        None => seq![],
    }
}

/// The state after the glue's work that comes before the application
/// handles `cmd`.
pub open spec fn spec_pre_exec(s: GlueState, cmd: AppCmd) -> GlueState {
    match cmd {
        AppCmd::InputChanged => GlueState { input_queue: s.pending_input_queue, ..s },
        AppCmd::InitWindow => GlueState { window: s.pending_window, ..s },
        AppCmd::Start | AppCmd::Resume | AppCmd::Pause | AppCmd::Stop => GlueState {
            activity_state: cmd.spec_value() as i32,
            ..s
        },
        AppCmd::Destroy => GlueState { destroy_requested: true, ..s },
        _ => s,
    }
}

/// What the glue's work before the application handles `cmd` asks the
/// caller to do.
pub open spec fn spec_pre_exec_actions(s: GlueState, cmd: AppCmd) -> Seq<GlueAction> {
    match cmd {
        AppCmd::InputChanged => {
            let detach = match s.input_queue {
                Some(q) => seq![GlueAction::DetachInputQueue(q)],
                None => seq![],
            };
            let attach = match s.pending_input_queue {
                Some(q) => seq![GlueAction::AttachInputQueue(q)],
                None => seq![],
            };
            detach + attach + seq![GlueAction::Broadcast]
        },
        AppCmd::InitWindow | AppCmd::TermWindow => seq![GlueAction::Broadcast],
        AppCmd::Start | AppCmd::Resume | AppCmd::Pause | AppCmd::Stop => seq![
            GlueAction::Broadcast,
        ],
        AppCmd::ConfigChanged => seq![GlueAction::ReloadConfiguration],
        _ => seq![],
    }
}

/// The state after the glue's work that comes after the application
/// handled `cmd`.
pub open spec fn spec_post_exec(s: GlueState, cmd: AppCmd) -> GlueState {
    match cmd {
        AppCmd::TermWindow => GlueState { window: None, ..s },
        AppCmd::SaveState => GlueState { state_saved: true, ..s },
        AppCmd::Resume => spec_free_saved_state(s),
        _ => s,
    }
}

/// What the glue's work after the application handled `cmd` asks the caller
/// to do.
pub open spec fn spec_post_exec_actions(s: GlueState, cmd: AppCmd) -> Seq<GlueAction> {
    match cmd {
        AppCmd::TermWindow | AppCmd::SaveState => seq![GlueAction::Broadcast],
        AppCmd::Resume => spec_free_saved_state_actions(s),
        _ => seq![],
    }
}

/// The state after the application thread read `cmd` from the pipe: a
/// `SaveState` command drops the previous saved state first.
pub open spec fn spec_read_cmd(s: GlueState, cmd: AppCmd) -> GlueState {
    if cmd == AppCmd::SaveState {
        spec_free_saved_state(s)
    } else {
        s
    }
}

/// The whole glue work on one command, when the application's own handler
/// leaves the glue state alone.
pub open spec fn spec_process_cmd(s: GlueState, cmd: AppCmd) -> GlueState {
    spec_post_exec(spec_pre_exec(spec_read_cmd(s, cmd), cmd), cmd)
}

/// The glue work on a run of commands, in order.
pub open spec fn spec_process_cmds(s: GlueState, cmds: Seq<AppCmd>) -> GlueState
    decreases cmds.len(),
{
    if cmds.len() == 0 {
        s
    } else {
        spec_process_cmds(spec_process_cmd(s, cmds[0]), cmds.drop_first())
    }
}

/// The commands that the activity thread writes when the native window
/// becomes `window`.
pub open spec fn spec_window_request_cmds(pending: Option<usize>, window: Option<usize>) -> Seq<
    AppCmd,
> {
    let term = if pending is Some {
        seq![AppCmd::TermWindow]
    } else {
        seq![]
    };
    let init = if window is Some {
        seq![AppCmd::InitWindow]
    } else {
        seq![]
    };
    term + init
}

impl GlueState {
    /// The glue state of a freshly created activity, which keeps the saved
    /// state it was started with, if any.
    pub fn new(saved_state: Option<(usize, usize)>) -> (s: GlueState)
        ensures
            s.input_queue is None,
            s.pending_input_queue is None,
            s.window is None,
            s.pending_window is None,
            s.saved_state == saved_state,
            s.activity_state == 0,
            !s.destroy_requested,
            !s.running,
            !s.state_saved,
            !s.destroyed,
    {
        GlueState {
            input_queue: None,
            pending_input_queue: None,
            window: None,
            pending_window: None,
            saved_state,
            activity_state: 0,
            destroy_requested: false,
            running: false,
            state_saved: false,
            destroyed: false,
        }
    }

    /// Drops the saved state; the caller frees its buffer.
    pub fn free_saved_state(&mut self) -> (actions: Vec<GlueAction>)
        ensures
            *final(self) == spec_free_saved_state(*old(self)),
            actions@ == spec_free_saved_state_actions(*old(self)),
    {
        let mut actions = Vec::new();
        match self.saved_state {
            Some((addr, _size)) => {
                actions.push(GlueAction::FreeSavedState(addr));
            },
            None => {},
        }
        self.saved_state = None;
        proof {
            assert(actions@ =~= spec_free_saved_state_actions(*old(self)));
        }
        actions
    }

    /// Takes the byte read from the command pipe, or `None` when nothing
    /// could be read, and gives the command it stands for. A `SaveState`
    /// command drops the previous saved state first.
    pub fn read_cmd(&mut self, byte: Option<i8>) -> (res: (Option<AppCmd>, Vec<GlueAction>))
        ensures
            byte is None ==> res.0 is None && *final(self) == *old(self) && res.1@.len() == 0,
            byte matches Some(b) ==> {
                &&& (res.0 is Some <==> AppCmd::is_command_byte(b))
                &&& (res.0 matches Some(c) ==> c.spec_value() == b && *final(self) == spec_read_cmd(
                    *old(self),
                    c,
                ) && res.1@ == (if c == AppCmd::SaveState {
                    spec_free_saved_state_actions(*old(self))
                } else {
                    seq![]
                }))
                &&& (res.0 is None ==> *final(self) == *old(self) && res.1@.len() == 0)
            },
    {
        match byte {
            None => (None, Vec::new()),
            Some(b) => {
                let cmd = AppCmd::from_value(b);
                match cmd {
                    Some(AppCmd::SaveState) => {
                        let actions = self.free_saved_state();
                        (cmd, actions)
                    },
                    _ => (cmd, Vec::new()),
                }
            },
        }
    }

    /// The glue's work before the application handles `cmd`.
    pub fn pre_exec_cmd(&mut self, cmd: AppCmd) -> (actions: Vec<GlueAction>)
        ensures
            *final(self) == spec_pre_exec(*old(self), cmd),
            actions@ == spec_pre_exec_actions(*old(self), cmd),
    {
        let mut actions = Vec::new();
        match cmd {
            AppCmd::InputChanged => {
                match self.input_queue {
                    Some(q) => actions.push(GlueAction::DetachInputQueue(q)),
                    None => {},
                }
                self.input_queue = self.pending_input_queue;
                match self.input_queue {
                    Some(q) => actions.push(GlueAction::AttachInputQueue(q)),
                    None => {},
                }
                actions.push(GlueAction::Broadcast);
            },
            AppCmd::InitWindow => {
                self.window = self.pending_window;
                actions.push(GlueAction::Broadcast);
            },
            AppCmd::TermWindow => {
                actions.push(GlueAction::Broadcast);
            },
            AppCmd::Resume | AppCmd::Start | AppCmd::Pause | AppCmd::Stop => {
                let v = cmd.value();
                self.activity_state = v as i32;
                actions.push(GlueAction::Broadcast);
            },
            AppCmd::ConfigChanged => {
                actions.push(GlueAction::ReloadConfiguration);
            },
            AppCmd::Destroy => {
                self.destroy_requested = true;
            },
            _ => {},
        }
        proof {
            assert(actions@ =~= spec_pre_exec_actions(*old(self), cmd));
        }
        actions
    }

    /// The glue's work after the application handled `cmd`.
    pub fn post_exec_cmd(&mut self, cmd: AppCmd) -> (actions: Vec<GlueAction>)
        ensures
            *final(self) == spec_post_exec(*old(self), cmd),
            actions@ == spec_post_exec_actions(*old(self), cmd),
    {
        let mut actions = Vec::new();
        match cmd {
            AppCmd::TermWindow => {
                self.window = None;
                actions.push(GlueAction::Broadcast);
            },
            AppCmd::SaveState => {
                self.state_saved = true;
                actions.push(GlueAction::Broadcast);
            },
            AppCmd::Resume => {
                actions = self.free_saved_state();
            },
            _ => {},
        }
        proof {
            assert(actions@ =~= spec_post_exec_actions(*old(self), cmd));
        }
        actions
    }

    /// Marks the application thread as running; the caller wakes the
    /// activity thread that waits for it.
    pub fn start_running(&mut self) -> (actions: Vec<GlueAction>)
        ensures
            *final(self) == (GlueState { running: true, ..*old(self) }),
            actions@ == seq![GlueAction::Broadcast],
    {
        self.running = true;
        let mut actions = Vec::new();
        actions.push(GlueAction::Broadcast);
        proof {
            assert(actions@ =~= seq![GlueAction::Broadcast]);
        }
        actions
    }

    /// The glue's work when the application thread ends: the saved state is
    /// dropped, the input queue detached, the configuration deleted and the
    /// glue marked destroyed.
    pub fn destroy(&mut self) -> (actions: Vec<GlueAction>)
        ensures
            *final(self) == (GlueState { destroyed: true, ..spec_free_saved_state(*old(self)) }),
            actions@ == spec_free_saved_state_actions(*old(self)) + (match old(self).input_queue {
                Some(q) => seq![GlueAction::DetachInputQueue(q)],
                None => seq![],
            }) + seq![GlueAction::DeleteConfiguration, GlueAction::Broadcast],
    {
        let mut actions = self.free_saved_state();
        match self.input_queue {
            Some(q) => actions.push(GlueAction::DetachInputQueue(q)),
            None => {},
        }
        actions.push(GlueAction::DeleteConfiguration);
        self.destroyed = true;
        actions.push(GlueAction::Broadcast);
        proof {
            assert(actions@ =~= spec_free_saved_state_actions(*old(self)) + (match old(
                self,
            ).input_queue {
                Some(q) => seq![GlueAction::DetachInputQueue(q)],
                None => seq![],
            }) + seq![GlueAction::DeleteConfiguration, GlueAction::Broadcast]);
        }
        actions
    }

    /// The activity thread's side of a new input queue (or none): it becomes
    /// pending, and the returned command is to be written to the pipe.
    pub fn request_input_queue(&mut self, queue: Option<usize>) -> (cmd: AppCmd)
        ensures
            *final(self) == (GlueState { pending_input_queue: queue, ..*old(self) }),
            cmd == AppCmd::InputChanged,
    {
        self.pending_input_queue = queue;
        AppCmd::InputChanged
    }

    /// The activity thread's side of a new native window (or none): it
    /// becomes pending, and the returned commands are to be written to the
    /// pipe in order: `TermWindow` when a window was pending, then
    /// `InitWindow` when there is a new one.
    pub fn request_window(&mut self, window: Option<usize>) -> (cmds: Vec<AppCmd>)
        ensures
            *final(self) == (GlueState { pending_window: window, ..*old(self) }),
            cmds@ == spec_window_request_cmds(old(self).pending_window, window),
    {
        let mut cmds = Vec::new();
        if self.pending_window.is_some() {
            cmds.push(AppCmd::TermWindow);
        }
        self.pending_window = window;
        if window.is_some() {
            cmds.push(AppCmd::InitWindow);
        }
        proof {
            assert(cmds@ =~= spec_window_request_cmds(old(self).pending_window, window));
        }
        cmds
    }

    /// The activity thread's side of saving the instance state: the flag is
    /// cleared and the returned command is to be written to the pipe.
    pub fn request_save_state(&mut self) -> (cmd: AppCmd)
        ensures
            *final(self) == (GlueState { state_saved: false, ..*old(self) }),
            cmd == AppCmd::SaveState,
    {
        self.state_saved = false;
        AppCmd::SaveState
    }

    /// Hands the saved state over to the activity, which then owns it.
    pub fn take_saved_state(&mut self) -> (saved: Option<(usize, usize)>)
        ensures
            saved == old(self).saved_state,
            *final(self) == spec_free_saved_state(*old(self)),
    {
        let saved = self.saved_state;
        self.saved_state = None;
        saved
    }

    /// Whether the application thread has taken the pending input queue.
    pub fn input_queue_settled(&self) -> (b: bool)
        ensures
            b == (self.input_queue == self.pending_input_queue),
    {
        match (self.input_queue, self.pending_input_queue) {
            (None, None) => true,
            (Some(a), Some(b)) => a == b,
            _ => false,
        }
    }

    /// Whether the application thread has taken the pending window.
    pub fn window_settled(&self) -> (b: bool)
        ensures
            b == (self.window == self.pending_window),
    {
        match (self.window, self.pending_window) {
            (None, None) => true,
            (Some(a), Some(b)) => a == b,
            _ => false,
        }
    }

    /// Whether the activity state is the one that `cmd` sets.
    pub fn activity_state_is(&self, cmd: AppCmd) -> (b: bool)
        ensures
            b == (self.activity_state == cmd.spec_value() as i32),
    {
        self.activity_state == cmd.value() as i32
    }
}

/// Every command has a byte of its own: the byte is a command byte, and two
/// commands with the same byte are the same command.
pub proof fn law_app_cmd_bytes_distinct(c1: AppCmd, c2: AppCmd)
    ensures
        AppCmd::is_command_byte(c1.spec_value()),
        c1.spec_value() == c2.spec_value() ==> c1 == c2,
{
}

/// The application thread never changes what the activity thread made
/// pending.
pub proof fn law_process_keeps_pending(s: GlueState, cmd: AppCmd)
    ensures
        spec_process_cmd(s, cmd).pending_window == s.pending_window,
        spec_process_cmd(s, cmd).pending_input_queue == s.pending_input_queue,
{
}

/// A new input queue is taken by the application thread once it has
/// processed the `InputChanged` command, so the activity thread's wait ends.
pub proof fn law_input_request_settles(s: GlueState, queue: Option<usize>)
    ensures
        ({
            let s1 = GlueState { pending_input_queue: queue, ..s };
            let s2 = spec_process_cmd(s1, AppCmd::InputChanged);
            s2.input_queue == queue && s2.input_queue == s2.pending_input_queue
        }),
{
}

/// From a settled state (the window is the pending one), a new native
/// window (or none) is the glue's window once the application thread has
/// processed the commands that `request_window` gives, so the activity
/// thread's wait ends.
pub proof fn law_window_request_settles(s: GlueState, window: Option<usize>)
    requires
        s.window == s.pending_window,
    ensures
        ({
            let s1 = GlueState { pending_window: window, ..s };
            let s2 = spec_process_cmds(s1, spec_window_request_cmds(s.pending_window, window));
            s2.window == window && s2.window == s2.pending_window
        }),
{
    let s1 = GlueState { pending_window: window, ..s };
    let cmds = spec_window_request_cmds(s.pending_window, window);
    reveal_with_fuel(spec_process_cmds, 3);
    if s.pending_window is Some {
        if window is Some {
            assert(cmds =~= seq![AppCmd::TermWindow, AppCmd::InitWindow]);
            assert(cmds.drop_first() =~= seq![AppCmd::InitWindow]);
            assert(cmds.drop_first().drop_first() =~= Seq::<AppCmd>::empty());
        } else {
            assert(cmds =~= seq![AppCmd::TermWindow]);
            assert(cmds.drop_first() =~= Seq::<AppCmd>::empty());
        }
    } else {
        if window is Some {
            assert(cmds =~= seq![AppCmd::InitWindow]);
            assert(cmds.drop_first() =~= Seq::<AppCmd>::empty());
        } else {
            assert(cmds =~= Seq::<AppCmd>::empty());
        }
    }
}

/// An activity-state command sets the state that the activity thread waits
/// for.
pub proof fn law_activity_request_settles(s: GlueState, cmd: AppCmd)
    requires
        cmd.is_activity_command(),
    ensures
        spec_process_cmd(s, cmd).activity_state == cmd.spec_value() as i32,
{
}

/// Saving the instance state sets the flag that the activity thread waits
/// for.
pub proof fn law_save_request_settles(s: GlueState)
    ensures
        spec_process_cmd(GlueState { state_saved: false, ..s }, AppCmd::SaveState).state_saved,
{
}

/// A `Destroy` command asks the application to end.
pub proof fn law_destroy_requested(s: GlueState)
    ensures
        spec_process_cmd(s, AppCmd::Destroy).destroy_requested,
{
}

/// After a `TermWindow` command the glue holds no window.
pub proof fn law_term_window_clears_window(s: GlueState)
    ensures
        spec_process_cmd(s, AppCmd::TermWindow).window is None,
{
}

/// The command written when the window gains (`focused != 0`) or loses focus.
pub fn focus_cmd(focused: i32) -> (cmd: AppCmd)
    ensures
        cmd == (if focused != 0 {
            AppCmd::GainedFocus
        } else {
            AppCmd::LostFocus
        }),
{
    if focused != 0 {
        AppCmd::GainedFocus
    } else {
        AppCmd::LostFocus
    }
}


/// What an activity-thread request waits on: the window, the input queue,
/// the activity state and whether the state was saved.
pub open spec fn spec_waited_on(s: GlueState) -> (Option<usize>, Option<usize>, i32, bool) {
    (s.window, s.input_queue, s.activity_state, s.state_saved)
}

/// Every step of the glue around the application's handler that changes
/// what an activity-thread request waits on also wakes the waiting threads:
/// its actions hold a `Broadcast`.
pub proof fn law_changes_are_broadcast(s: GlueState, cmd: AppCmd)
    ensures
        spec_waited_on(spec_pre_exec(s, cmd)) != spec_waited_on(s) ==> spec_pre_exec_actions(s, cmd).contains(
            GlueAction::Broadcast,
        ),
        spec_waited_on(spec_post_exec(s, cmd)) != spec_waited_on(s) ==> spec_post_exec_actions(s, cmd).contains(
            GlueAction::Broadcast,
        ),
{
    let pre = spec_pre_exec_actions(s, cmd);
    if spec_waited_on(spec_pre_exec(s, cmd)) != spec_waited_on(s) {
        if pre.len() > 0 {
            assert(pre[pre.len() - 1] == GlueAction::Broadcast);
        }
    }
    let post = spec_post_exec_actions(s, cmd);
    if spec_waited_on(spec_post_exec(s, cmd)) != spec_waited_on(s) {
        if post.len() > 0 {
            assert(post[post.len() - 1] == GlueAction::Broadcast);
        }
    }
}

} // verus!
