//! The status view: what the worker tells the observer, and how the
//! observer's state follows from messages and key presses.

use vstd::prelude::*;
use vstd::string::StringExecFns;

verus! {

/// A status message from the worker to the observer.
#[derive(Debug, PartialEq, Eq)]
pub enum Action {
    /// The worker is done; the observer may leave.
    Quit,
    /// A song is being fetched.
    Downloading,
    /// The song with this title is playing.
    Playing(String),
}

/// A status message as plain values.
pub enum ActionView {
    Quit,
    Downloading,
    Playing(Seq<char>),
}

impl View for Action {
    type V = ActionView;

    open spec fn view(&self) -> ActionView {
        match self {
            Action::Quit => ActionView::Quit,
            Action::Downloading => ActionView::Downloading,
            Action::Playing(title) => ActionView::Playing(title@),
        }
    }
}

/// The views of a sequence of messages, one by one.
pub open spec fn action_views(actions: Seq<Action>) -> Seq<ActionView> {
    Seq::new(actions.len(), |i: int| actions[i]@)
}

/// The key of a key press, as far as the observer tells keys apart.
#[derive(Clone, Copy, Debug, PartialEq, Eq, Structural)]
pub enum Key {
    Char(char),
    Other,
}

/// Something that happened at the terminal.
#[derive(Clone, Copy, Debug, PartialEq, Eq, Structural)]
pub enum Input {
    /// A key changed: which one, whether Control was held, and whether the
    /// key went down (rather than up, or repeating).
    Key { key: Key, control: bool, pressed: bool },
    /// Anything else: the mouse, a new window size.
    Other,
}

/// The observer's state as plain values.
pub struct AppView {
    pub action: Seq<char>,
    pub exit: bool,
}

/// The observer: the text it shows and whether it is to leave.
#[derive(Debug)]
pub struct App {
    action: String,
    exit: bool,
}

impl View for App {
    type V = AppView;

    closed spec fn view(&self) -> AppView {
        AppView { action: self.action@, exit: self.exit }
    }
}

/// The view of a message that may or may not have come.
pub open spec fn message_view(message: Option<Action>) -> Option<ActionView> {
    match message {
        Some(action) => Some(action@),
        None => None,
    }
}

/// A key press that asks the observer to leave: `q`, or `c` with Control.
pub open spec fn asks_to_leave(key: Key, control: bool) -> bool {
    key == Key::Char('q') || (key == Key::Char('c') && control)
}

/// The observer after a message: `Quit` makes it leave, the other two
/// change the text it shows.
pub open spec fn received(app: AppView, action: ActionView) -> AppView {
    match action {
        ActionView::Quit => AppView { exit: true, ..app },
        ActionView::Downloading => AppView { action: "Downloading..."@, ..app },
        ActionView::Playing(title) => AppView { action: " "@ + title + " "@, ..app },
    }
}

/// The observer after something happened at the terminal: only a key that
/// goes down and asks to leave changes anything.
pub open spec fn handled(app: AppView, input: Input) -> AppView {
    match input {
        Input::Key { key, control, pressed } => if pressed && asks_to_leave(key, control) {
            AppView { exit: true, ..app }
        } else {
            app
        },
        Input::Other => app,
    }
}

/// The observer after a run of terminal events, taken in order.
pub open spec fn handled_all(app: AppView, inputs: Seq<Input>) -> AppView
    decreases inputs.len(),
{
    if inputs.len() == 0 {
        app
    } else {
        handled(handled_all(app, inputs.drop_last()), inputs.last())
    }
}

/// The observer after one round: first the message, if one has come, then
/// the terminal events.
pub open spec fn ticked(app: AppView, message: Option<ActionView>, inputs: Seq<Input>) -> AppView {
    let informed = match message {
        Some(action) => received(app, action),
        None => app,
    };
    handled_all(informed, inputs)
}

/// An observer that was told to leave stays so, whatever happens at the
/// terminal.
pub proof fn lemma_handled_all_keeps_exit(app: AppView, inputs: Seq<Input>)
    ensures
        app.exit ==> handled_all(app, inputs).exit,
        handled_all(app, inputs).action == app.action,
    decreases inputs.len(),
{
    if inputs.len() > 0 {
        lemma_handled_all_keeps_exit(app, inputs.drop_last());
    }
}

/// Nothing that comes later takes a decision to leave back: a round never
/// clears it.
pub proof fn lemma_exit_is_final(app: AppView, message: Option<ActionView>, inputs: Seq<Input>)
    requires
        app.exit,
    ensures
        ticked(app, message, inputs).exit,
{
    let informed = match message {
        Some(action) => received(app, action),
        None => app,
    };
    lemma_handled_all_keeps_exit(informed, inputs);
}

/// A `Quit` message ends the observer within the round in which it comes.
pub proof fn lemma_quit_ends(app: AppView, inputs: Seq<Input>)
    ensures
        ticked(app, Some(ActionView::Quit), inputs).exit,
{
    lemma_handled_all_keeps_exit(received(app, ActionView::Quit), inputs);
}

impl Default for App {
    fn default() -> (app: App)
        ensures
            app@ == (AppView { action: Seq::<char>::empty(), exit: false }),
    {
        App { action: String::new(), exit: false }
    }
}

impl App {
    /// Tells the observer to leave.
    pub fn exit(&mut self)
        ensures
            final(self)@ == (AppView { exit: true, ..old(self)@ }),
    {
        self.exit = true;
    }

    /// Whether the observer is to leave.
    pub fn should_exit(&self) -> (leave: bool)
        ensures
            leave == self@.exit,
    {
        self.exit
    }

    /// The text that the observer shows.
    pub fn action(&self) -> (text: &String)
        ensures
            text@ == self@.action,
    {
        &self.action
    }

    /// The heading of the status frame: the text between two blanks.
    pub fn heading(&self) -> (line: String)
        ensures
            line@ == " "@ + self@.action + " "@,
    {
        String::from_str(" ").concat(self.action.as_str()).concat(" ")
    }

    /// Takes in a message from the worker.
    pub fn receive(&mut self, action: Action)
        ensures
            final(self)@ == received(old(self)@, action@),
    {
        match action {
            Action::Quit => self.exit(),
            Action::Downloading => {
                self.action = String::from_str("Downloading...");
            },
            Action::Playing(title) => {
                self.action = String::from_str(" ").concat(title.as_str()).concat(" ");
            },
        }
    }

    /// Reacts to a key: `q`, or `c` with Control, makes the observer
    /// leave.
    pub fn handle_key_event(&mut self, key: Key, control: bool)
        ensures
            final(self)@ == if asks_to_leave(key, control) {
                AppView { exit: true, ..old(self)@ }
            } else {
                old(self)@
            },
    {
        match key {
            Key::Char(c) => {
                if c == 'q' || (c == 'c' && control) {
                    self.exit();
                }
            },
            Key::Other => {},
        }
    }

    /// Reacts to something that happened at the terminal. Only keys that
    /// go down count.
    pub fn handle_event(&mut self, input: Input)
        ensures
            final(self)@ == handled(old(self)@, input),
    {
        match input {
            Input::Key { key, control, pressed } => {
                if pressed {
                    self.handle_key_event(key, control);
                }
            },
            Input::Other => {},
        }
    }

    /// One round of the observer: the message that has come, if any, and
    /// then what happened at the terminal since the last round. Tells
    /// whether the observer goes on.
    pub fn tick(&mut self, message: Option<Action>, inputs: &Vec<Input>) -> (goes_on: bool)
        ensures
            final(self)@ == ticked(old(self)@, message_view(message), inputs@),
            goes_on == !final(self)@.exit,
            old(self)@.exit ==> !goes_on,
    {
        proof {
            if self@.exit {
                lemma_exit_is_final(self@, message_view(message), inputs@);
            }
        }
        match message {
            Some(action) => self.receive(action),
            None => {},
        }
        let ghost informed = self@;
        let mut k: usize = 0;
        while k < inputs.len()
            invariant
                k <= inputs@.len(),
                self@ == handled_all(informed, inputs@.take(k as int)),
            decreases inputs@.len() - k,
        {
            proof {
                assert(inputs@.take(k + 1).drop_last() =~= inputs@.take(k as int));
            }
            self.handle_event(inputs[k]);
            k += 1;
        }
        proof {
            assert(inputs@.take(k as int) =~= inputs@);
        }
        !self.exit
    }
}

} // verus!
