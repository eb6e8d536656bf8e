//! The keys, and the bar that lists the commands that the focused component offers.
use vstd::prelude::*;

verus! {

/// A key of the keyboard.
#[derive(PartialEq, Eq, Structural, Clone, Copy)]
pub enum KeyCode {
    Char(char),
    Enter,
    Esc,
    Tab,
    BackTab,
    Backspace,
    Delete,
    Up,
    Down,
    Left,
    Right,
    Home,
    End,
    PageUp,
    PageDown,
    F(u8),
    Null,
}

/// The modifier held with a key.
#[derive(PartialEq, Eq, Structural, Clone, Copy)]
pub enum KeyModifier {
    Plain,
    Ctrl,
    Alt,
    Shift,
}

/// A key with its modifier.
#[derive(PartialEq, Eq, Structural, Clone, Copy)]
pub struct Key {
    pub code: KeyCode,
    pub modifier: KeyModifier,
}

/// The left arrow: moves the keyboard to the connection tree.
pub fn left_key() -> (r: Key)
    ensures
        r == (Key { code: KeyCode::Left, modifier: KeyModifier::Plain }),
{
    Key { code: KeyCode::Left, modifier: KeyModifier::Plain }
}

/// Ctrl-c: quits the application.
pub fn quit_app_key() -> (r: Key)
    ensures
        r == (Key { code: KeyCode::Char('c'), modifier: KeyModifier::Ctrl }),
{
    Key { code: KeyCode::Char('c'), modifier: KeyModifier::Ctrl }
}

/// A command of the command bar: its name and its key.
#[derive(Clone, Copy)]
pub struct Command {
    pub name: &'static str,
    pub key: Key,
}

/// The command that quits the application, which the bar always lists last.
pub open spec fn is_quit_command(c: Command) -> bool {
    c.name@ == "Quit App"@ && c.key == (Key { code: KeyCode::Char('c'), modifier: KeyModifier::Ctrl })
}

/// The bar that lists the commands of the focused component.
pub struct CommandBarComponent {
    pub commands: Vec<Command>,
}

impl CommandBarComponent {
    /// A bar that lists nothing.
    pub fn new() -> (r: CommandBarComponent)
        ensures
            r.commands@.len() == 0,
    {
        CommandBarComponent { commands: Vec::new() }
    }

    /// Lists `cmds` followed by the quit command; `cmds` gets the quit command too.
    pub fn set_commands(&mut self, cmds: &mut Vec<Command>)
        ensures
            final(cmds)@.len() == old(cmds)@.len() + 1,
            final(cmds)@.drop_last() == old(cmds)@,
            is_quit_command(final(cmds)@.last()),
            final(self).commands@ == final(cmds)@,
    {
        cmds.push(Command { name: "Quit App", key: quit_app_key() });
        let mut copy: Vec<Command> = Vec::new();
        let n = cmds.len();
        for i in 0..n
            invariant
                n == cmds@.len(),
                copy@ == cmds@.take(i as int),
        {
            copy.push(cmds[i]);
            assert(copy@ =~= cmds@.take(i + 1));
        }
        assert(cmds@.take(n as int) =~= cmds@);
        self.commands = copy;
    }
}

} // verus!
