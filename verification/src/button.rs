//! The button: what it holds, and what a message does to it. A message
//! changes the state and names an effect; to carry the effect out is left to
//! the caller.

use crate::descriptor::Descriptor;
use vstd::prelude::*;
use vstd::string::StringExecFns;

verus! {

/// A program to start, with its arguments.
#[derive(Debug, Clone)]
pub struct Invocation {
    pub program: String,
    pub args: Vec<String>,
}

/// [`Invocation`] as mathematical values.
pub struct InvocationView {
    pub program: Seq<char>,
    pub args: Seq<Seq<char>>,
}

impl View for Invocation {
    type V = InvocationView;

    open spec fn view(&self) -> InvocationView {
        InvocationView {
            program: self.program@,
            args: Seq::new(self.args@.len(), |i: int| self.args@[i]@),
        }
    }
}

/// How a launch command is started: it goes, as it is, to `sh -c`.
pub open spec fn shell_invocation_of(command: Seq<char>) -> InvocationView {
    InvocationView { program: "sh"@, args: seq!["-c"@, command] }
}

/// The invocation that starts `command`: the shell `sh` with the two
/// arguments `-c` and the command, unchanged.
pub fn shell_invocation(command: &str) -> (r: Invocation)
    ensures
        r@ == shell_invocation_of(command@),
{
    let mut args: Vec<String> = Vec::new();
    args.push(String::from_str("-c"));
    args.push(String::from_str(command));
    let r = Invocation { program: String::from_str("sh"), args };
    assert(r@.args =~= seq!["-c"@, command@]);
    r
}

/// What can happen to the button. `T` is the theme, which the button keeps
/// and never looks into.
#[derive(Debug, Clone)]
pub enum Msg<T> {
    /// The button was pressed.
    Press,
    /// The theme has changed to this one.
    Theme(T),
}

/// What the caller is to do after a message.
#[derive(Debug, Clone)]
pub enum Effect {
    /// Nothing.
    Nothing,
    /// Start this program and do not wait for it.
    Launch(Invocation),
}

/// [`Effect`] as mathematical values.
pub enum EffectView {
    Nothing,
    Launch(InvocationView),
}

impl View for Effect {
    type V = EffectView;

    open spec fn view(&self) -> EffectView {
        match *self {
            Effect::Nothing => EffectView::Nothing,
            Effect::Launch(invocation) => EffectView::Launch(invocation@),
        }
    }
}

/// The state of the applet: the application behind the button, and the
/// current theme.
#[derive(Debug)]
pub struct Button<T> {
    pub desktop: Descriptor,
    pub theme: T,
}

impl<T> Button<T> {
    /// The button for `desktop` under `theme`. Nothing is to be done at the
    /// start.
    pub fn new(desktop: Descriptor, theme: T) -> (r: (Button<T>, Effect))
        ensures
            r.0.desktop == desktop,
            r.0.theme == theme,
            r.1@ == EffectView::Nothing,
    {
        (Button { desktop, theme }, Effect::Nothing)
    }

    /// The title of the applet's window.
    pub fn title(&self) -> (r: String)
        ensures
            r@ == "Button"@,
    {
        String::from_str("Button")
    }

    /// The text on the button: the display name of the application.
    pub fn label(&self) -> (r: &str)
        ensures
            r@ == self.desktop@.name,
            r@.len() > 0,
    {
        self.desktop.name()
    }

    /// Takes one message. A press leaves the state as it is and asks for the
    /// launch command to be started through the shell. A change of theme
    /// replaces the theme and asks for nothing. The application never
    /// changes.
    pub fn update(&mut self, message: Msg<T>) -> (effect: Effect)
        ensures
            final(self).desktop == old(self).desktop,
            match message {
                Msg::Press => final(self).theme == old(self).theme && effect@
                    == EffectView::Launch(shell_invocation_of(old(self).desktop@.command)),
                Msg::Theme(theme) => final(self).theme == theme && effect@ == EffectView::Nothing,
            },
    {
        match message {
            Msg::Press => Effect::Launch(shell_invocation(self.desktop.command())),
            Msg::Theme(theme) => {
                self.theme = theme;
                Effect::Nothing
            },
        }
    }
}

} // verus!
