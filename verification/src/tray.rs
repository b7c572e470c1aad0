//! The tray icon's decisions: which command a menu entry or a click on the
//! icon asks for, and when the tray stops listening.
use vstd::prelude::*;

verus! {

/// What the user asks for through the tray icon.
#[derive(Debug, Clone, Copy, PartialEq, Eq, Structural)]
pub enum TrayCommand {
    ShowWindow,
    Backup,
    Restore,
    Settings,
    Exit,
}

/// Menu entry id of "Backup Saves".
pub const ID_BACKUP: &'static str = "backup";

/// Menu entry id of "Restore Saves".
pub const ID_RESTORE: &'static str = "restore";

/// Menu entry id of "Settings".
pub const ID_SETTINGS: &'static str = "settings";

/// Menu entry id of "Exit".
pub const ID_EXIT: &'static str = "exit";

/// The command that the menu entry with the given id asks for; none for an
/// id that is not one of the tray menu's entries.
pub open spec fn spec_menu_command(id: Seq<char>) -> Option<TrayCommand> {
    if id == ID_BACKUP@ {
        Some(TrayCommand::Backup)
    } else if id == ID_RESTORE@ {
        Some(TrayCommand::Restore)
    } else if id == ID_SETTINGS@ {
        Some(TrayCommand::Settings)
    } else if id == ID_EXIT@ {
        Some(TrayCommand::Exit)
    } else {
        None
    }
}

/// Whether two strings hold the same characters.
fn same_text(a: &str, b: &str) -> (same: bool)
    ensures
        same == (a@ == b@),
{
    a.to_owned() == b.to_owned()
}

/// The command that the menu entry with the given id asks for.
pub fn menu_command(id: &str) -> (command: Option<TrayCommand>)
    ensures
        command == spec_menu_command(id@),
{
    if same_text(id, ID_BACKUP) {
        Some(TrayCommand::Backup)
    } else if same_text(id, ID_RESTORE) {
        Some(TrayCommand::Restore)
    } else if same_text(id, ID_SETTINGS) {
        Some(TrayCommand::Settings)
    } else if same_text(id, ID_EXIT) {
        Some(TrayCommand::Exit)
    } else {
        None
    }
}

/// What the tray does with one menu event: the command to pass on, if any,
/// and whether it then stops listening.
#[derive(Debug, Clone, Copy, PartialEq, Eq, Structural)]
pub struct MenuAction {
    pub send: Option<TrayCommand>,
    pub stop: bool,
}

/// Handles one menu event: passes on the entry's command, and stops after
/// passing on `Exit`.
pub fn menu_action(id: &str) -> (action: MenuAction)
    ensures
        action.send == spec_menu_command(id@),
        action.stop == (action.send == Some(TrayCommand::Exit)),
{
    let send = menu_command(id);
    let stop = match send {
        Some(TrayCommand::Exit) => true,
        _ => false,
    };
    MenuAction { send, stop }
}

/// A mouse button, as the tray icon reports it.
#[derive(Debug, Clone, Copy, PartialEq, Eq, Structural)]
pub enum MouseButton {
    Left,
    Right,
    Middle,
}

/// What the tray icon reports of the pointer: a click (pressed or released)
/// with some button, or anything else (a double click, entering, moving
/// over or leaving the icon).
#[derive(Debug, Clone, Copy, PartialEq, Eq, Structural)]
pub enum PointerEvent {
    Click { button: MouseButton },
    Other,
}

/// A left click on the icon brings the main window back; nothing else the
/// pointer does asks for anything.
pub fn pointer_command(event: &PointerEvent) -> (command: Option<TrayCommand>)
    ensures
        command == (if *event == (PointerEvent::Click { button: MouseButton::Left }) {
            Some(TrayCommand::ShowWindow)
        } else {
            None
        }),
{
    match event {
        PointerEvent::Click { button: MouseButton::Left } => Some(TrayCommand::ShowWindow),
        _ => None,
    }
}

/// The commands the tray passes on while it handles, in order, menu events
/// with the given ids: each entry's command, up to and including the first
/// `Exit`, after which it handles no more.
pub open spec fn commands_sent(ids: Seq<Seq<char>>) -> Seq<TrayCommand>
    decreases ids.len(),
{
    if ids.len() == 0 {
        Seq::empty()
    } else {
        match spec_menu_command(ids[0]) {
            Some(TrayCommand::Exit) => seq![TrayCommand::Exit],
            Some(command) => seq![command] + commands_sent(ids.drop_first()),
            None => commands_sent(ids.drop_first()),
        }
    }
}

/// Each of the four menu entries asks for its own command, and the menu
/// never asks to show the window.
pub proof fn lemma_menu_ids_round_trip(id: Seq<char>)
    ensures
        spec_menu_command(ID_BACKUP@) == Some(TrayCommand::Backup),
        spec_menu_command(ID_RESTORE@) == Some(TrayCommand::Restore),
        spec_menu_command(ID_SETTINGS@) == Some(TrayCommand::Settings),
        spec_menu_command(ID_EXIT@) == Some(TrayCommand::Exit),
        spec_menu_command(id) != Some(TrayCommand::ShowWindow),
{
    reveal_strlit("backup");
    reveal_strlit("restore");
    reveal_strlit("settings");
    reveal_strlit("exit");
    assert(ID_RESTORE@[0] != ID_BACKUP@[0]);
    assert(ID_SETTINGS@[0] != ID_BACKUP@[0]);
    assert(ID_SETTINGS@[0] != ID_RESTORE@[0]);
}

/// Once the tray has passed on `Exit` it passes on nothing more: `Exit` can
/// only be the last command, and it is passed on exactly when some event was
/// the Exit entry.
pub proof fn lemma_exit_is_last(ids: Seq<Seq<char>>)
    ensures
        forall|i: int|
            0 <= i < commands_sent(ids).len() - 1 ==> #[trigger] commands_sent(ids)[i]
                != TrayCommand::Exit,
        (commands_sent(ids).len() > 0 && commands_sent(ids).last() == TrayCommand::Exit) <==> (
        exists|i: int| 0 <= i < ids.len() && #[trigger] ids[i] == ID_EXIT@),
        forall|i: int|
            0 <= i < commands_sent(ids).len() ==> #[trigger] commands_sent(ids)[i]
                != TrayCommand::ShowWindow,
    decreases ids.len(),
{
    lemma_menu_ids_round_trip(ids[0]);
    if ids.len() > 0 {
        let rest = ids.drop_first();
        lemma_exit_is_last(rest);
        match spec_menu_command(ids[0]) {
            Some(TrayCommand::Exit) => {
                assert(ids[0] == ID_EXIT@);
            },
            Some(command) => {
                let sent = commands_sent(ids);
                assert(sent == seq![command] + commands_sent(rest));
                assert(ids[0] != ID_EXIT@);
                assert forall|i: int| 0 <= i < sent.len() - 1 implies #[trigger] sent[i]
                    != TrayCommand::Exit by {
                    if i > 0 {
                        assert(sent[i] == commands_sent(rest)[i - 1]);
                    }
                }
                assert forall|i: int| 0 <= i < sent.len() implies #[trigger] sent[i]
                    != TrayCommand::ShowWindow by {
                    if i > 0 {
                        assert(sent[i] == commands_sent(rest)[i - 1]);
                    }
                }
                if exists|i: int| 0 <= i < ids.len() && #[trigger] ids[i] == ID_EXIT@ {
                    let i = choose|i: int| 0 <= i < ids.len() && #[trigger] ids[i] == ID_EXIT@;
                    assert(rest[i - 1] == ID_EXIT@);
                }
                if exists|i: int| 0 <= i < rest.len() && #[trigger] rest[i] == ID_EXIT@ {
                    let i = choose|i: int| 0 <= i < rest.len() && #[trigger] rest[i] == ID_EXIT@;
                    assert(ids[i + 1] == ID_EXIT@);
                }
            },
            None => {
                assert(ids[0] != ID_EXIT@);
                if exists|i: int| 0 <= i < ids.len() && #[trigger] ids[i] == ID_EXIT@ {
                    let i = choose|i: int| 0 <= i < ids.len() && #[trigger] ids[i] == ID_EXIT@;
                    assert(rest[i - 1] == ID_EXIT@);
                }
                if exists|i: int| 0 <= i < rest.len() && #[trigger] rest[i] == ID_EXIT@ {
                    let i = choose|i: int| 0 <= i < rest.len() && #[trigger] rest[i] == ID_EXIT@;
                    assert(ids[i + 1] == ID_EXIT@);
                }
            },
        }
    }
}

/// Whether some event among `ids` was the Exit entry.
pub open spec fn exit_seen(ids: Seq<Seq<char>>) -> bool {
    exists|i: int| 0 <= i < ids.len() && #[trigger] ids[i] == ID_EXIT@
}

/// The command as a sequence of at most one element.
pub open spec fn sent_seq(command: Option<TrayCommand>) -> Seq<TrayCommand> {
    match command {
        Some(command) => seq![command],
        None => Seq::empty(),
    }
}

/// Handling one more event appends its command to what was sent, unless the
/// Exit entry came before, after which nothing more is sent.
pub proof fn lemma_commands_sent_push(ids: Seq<Seq<char>>, id: Seq<char>)
    ensures
        commands_sent(ids.push(id)) == if exit_seen(ids) {
            commands_sent(ids)
        } else {
            commands_sent(ids) + sent_seq(spec_menu_command(id))
        },
    decreases ids.len(),
{
    lemma_menu_ids_round_trip(id);
    let pushed = ids.push(id);
    if ids.len() == 0 {
        assert(pushed.drop_first() =~= Seq::<Seq<char>>::empty());
        assert(commands_sent(pushed.drop_first()) =~= Seq::<TrayCommand>::empty());
        assert(pushed[0] == id);
        assert(commands_sent(ids) =~= Seq::<TrayCommand>::empty());
        match spec_menu_command(id) {
            Some(TrayCommand::Exit) => {},
            Some(command) => {
                assert(commands_sent(pushed) =~= seq![command] + Seq::<TrayCommand>::empty());
            },
            None => {},
        }
    } else {
        let rest = ids.drop_first();
        assert(pushed.drop_first() =~= rest.push(id));
        assert(pushed[0] == ids[0]);
        lemma_commands_sent_push(rest, id);
        lemma_menu_ids_round_trip(ids[0]);
        if exit_seen(ids) {
            let i = choose|i: int| 0 <= i < ids.len() && #[trigger] ids[i] == ID_EXIT@;
            if i > 0 {
                assert(rest[i - 1] == ID_EXIT@);
            }
        } else {
            assert(ids[0] != ID_EXIT@);
            if exit_seen(rest) {
                let i = choose|i: int| 0 <= i < rest.len() && #[trigger] rest[i] == ID_EXIT@;
                assert(ids[i + 1] == ID_EXIT@);
            }
        }
        match spec_menu_command(ids[0]) {
            Some(TrayCommand::Exit) => {
                assert(ids[0] == ID_EXIT@);
            },
            Some(command) => {
                assert(ids[0] != ID_EXIT@);
                if !exit_seen(rest) {
                    assert(commands_sent(pushed) =~= seq![command] + (commands_sent(rest)
                        + sent_seq(spec_menu_command(id))));
                }
            },
            None => {
                assert(ids[0] != ID_EXIT@);
            },
        }
    }
}

/// The tray thread's menu loop: the menu events handled so far and whether
/// the Exit entry has stopped it. What it has passed on is always
/// `commands_sent` of the events it has handled.
pub struct TrayMenu {
    stopped: bool,
    handled: Ghost<Seq<Seq<char>>>,
}

impl TrayMenu {
    /// The ids of the menu events handled so far, in order.
    pub closed spec fn handled(&self) -> Seq<Seq<char>> {
        self.handled@
    }

    /// Whether the loop has stopped listening.
    pub closed spec fn spec_stopped(&self) -> bool {
        self.stopped
    }

    /// The loop's state agrees with the events it has handled.
    pub closed spec fn wf(&self) -> bool {
        self.stopped == exit_seen(self.handled@)
    }

    /// A loop that has handled no event yet.
    pub fn new() -> (menu: Self)
        ensures
            menu.wf(),
            menu.handled() == Seq::<Seq<char>>::empty(),
            !menu.spec_stopped(),
    {
        TrayMenu { stopped: false, handled: Ghost(Seq::empty()) }
    }

    /// Whether the loop has passed on `Exit` and handles nothing more.
    pub fn is_stopped(&self) -> (stopped: bool)
        ensures
            stopped == self.spec_stopped(),
    {
        self.stopped
    }

    /// Handles the menu event with the given id and returns the command to
    /// pass on: the entry's command while the loop runs, nothing once it has
    /// stopped. The loop stops once the Exit entry comes.
    pub fn handle(&mut self, id: &str) -> (command: Option<TrayCommand>)
        requires
            old(self).wf(),
        ensures
            final(self).wf(),
            final(self).handled() == old(self).handled().push(id@),
            command == (if old(self).spec_stopped() {
                None
            } else {
                spec_menu_command(id@)
            }),
            final(self).spec_stopped() == (old(self).spec_stopped() || command == Some(
                TrayCommand::Exit,
            )),
            commands_sent(final(self).handled()) == commands_sent(old(self).handled()) + sent_seq(
                command,
            ),
    {
        proof {
            lemma_commands_sent_push(self.handled@, id@);
            lemma_menu_ids_round_trip(id@);
        }
        let ghost before = self.handled@;
        let ghost after = before.push(id@);
        assert(exit_seen(after) == (exit_seen(before) || id@ == ID_EXIT@)) by {
            if exit_seen(before) {
                let i = choose|i: int| 0 <= i < before.len() && #[trigger] before[i] == ID_EXIT@;
                assert(after[i] == ID_EXIT@);
            }
            if id@ == ID_EXIT@ {
                assert(after[before.len() as int] == ID_EXIT@);
            }
            if exit_seen(after) && !exit_seen(before) {
                let i = choose|i: int| 0 <= i < after.len() && #[trigger] after[i] == ID_EXIT@;
                if i < before.len() {
                    assert(before[i] == ID_EXIT@);
                }
            }
        }
        self.handled = Ghost(after);
        if self.stopped {
            assert(commands_sent(after) =~= commands_sent(before) + sent_seq(None));
            return None;
        }
        let action = menu_action(id);
        if action.stop {
            self.stopped = true;
        }
        action.send
    }
}

} // verus!
