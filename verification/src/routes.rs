use vstd::prelude::*;

use crate::keys::Key;
use crate::text::str_eq;

verus! {

/// The screens of the interface.
#[derive(Debug, Clone, Copy, PartialEq, Eq, Structural)]
pub enum RouteKind {
    Playback,
    Queue,
    Browser,
    Settings,
    Log,
    Equalizer,
}

/// The display name of each screen.
pub open spec fn spec_route_name(kind: RouteKind) -> Seq<char> {
    match kind {
        RouteKind::Playback => "Playback"@,
        RouteKind::Queue => "Queue"@,
        RouteKind::Browser => "Browser"@,
        RouteKind::Settings => "Settings"@,
        RouteKind::Log => "Log"@,
        RouteKind::Equalizer => "Equalizer"@,
    }
}

impl RouteKind {
    /// Name shown in the navigation for this screen.
    pub fn name(&self) -> (r: &'static str)
        ensures
            r@ == spec_route_name(*self),
    {
        match self {
            RouteKind::Playback => "Playback",
            RouteKind::Queue => "Queue",
            RouteKind::Browser => "Browser",
            RouteKind::Settings => "Settings",
            RouteKind::Log => "Log",
            RouteKind::Equalizer => "Equalizer",
        }
    }
}

/// The six screen names differ from one another.
pub(crate) proof fn lemma_route_names_distinct()
    ensures
        "Playback"@ != "Queue"@,
        "Playback"@ != "Browser"@,
        "Playback"@ != "Settings"@,
        "Playback"@ != "Log"@,
        "Playback"@ != "Equalizer"@,
        "Queue"@ != "Browser"@,
        "Queue"@ != "Settings"@,
        "Queue"@ != "Log"@,
        "Queue"@ != "Equalizer"@,
        "Browser"@ != "Settings"@,
        "Browser"@ != "Log"@,
        "Browser"@ != "Equalizer"@,
        "Settings"@ != "Log"@,
        "Settings"@ != "Equalizer"@,
        "Log"@ != "Equalizer"@,
{
    reveal_strlit("Playback");
    reveal_strlit("Queue");
    reveal_strlit("Browser");
    reveal_strlit("Settings");
    reveal_strlit("Log");
    reveal_strlit("Equalizer");
    assert("Playback"@.len() == 8);
    assert("Queue"@.len() == 5);
    assert("Browser"@.len() == 7);
    assert("Settings"@.len() == 8);
    assert("Log"@.len() == 3);
    assert("Equalizer"@.len() == 9);
    assert("Playback"@[0] != "Settings"@[0]);
}

/// The screen for a name: each screen answers to its own name, and any other
/// name leads to the playback screen.
pub open spec fn spec_route_for_name(name: Seq<char>) -> RouteKind {
    if name == "Queue"@ {
        RouteKind::Queue
    } else if name == "Browser"@ {
        RouteKind::Browser
    } else if name == "Settings"@ {
        RouteKind::Settings
    } else if name == "Log"@ {
        RouteKind::Log
    } else if name == "Equalizer"@ {
        RouteKind::Equalizer
    } else {
        RouteKind::Playback
    }
}

/// The screen to open for a tab name.
pub fn route_for_name(name: &str) -> (r: RouteKind)
    ensures
        r == spec_route_for_name(name@),
{
    proof {
        lemma_route_names_distinct();
    }
    if str_eq(name, "Playback") {
        RouteKind::Playback
    } else if str_eq(name, "Queue") {
        RouteKind::Queue
    } else if str_eq(name, "Browser") {
        RouteKind::Browser
    } else if str_eq(name, "Settings") {
        RouteKind::Settings
    } else if str_eq(name, "Log") {
        RouteKind::Log
    } else if str_eq(name, "Equalizer") {
        RouteKind::Equalizer
    } else {
        RouteKind::Playback
    }
}

/// The main tabs, in the order the Tab key walks through them.
pub open spec fn spec_tab_names() -> Seq<Seq<char>> {
    seq!["Playback"@, "Queue"@, "Browser"@, "Settings"@, "Log"@]
}

/// All main tab names, in order.
pub fn tab_names() -> (r: Vec<&'static str>)
    ensures
        r.len() == spec_tab_names().len(),
        forall|i: int| 0 <= i < r.len() ==> (#[trigger] r@[i])@ == spec_tab_names()[i],
{
    vec!["Playback", "Queue", "Browser", "Settings", "Log"]
}

/// Where the tab named `current` stands among the main tabs, if it is one.
fn tab_position(tabs: &Vec<&'static str>, current: &str) -> (r: Option<usize>)
    requires
        tabs.len() == spec_tab_names().len(),
        forall|k: int| 0 <= k < tabs.len() ==> (#[trigger] tabs@[k])@ == spec_tab_names()[k],
    ensures
        match r {
            Some(i) => i < spec_tab_names().len() && spec_tab_names()[i as int] == current@,
            None => forall|k: int| 0 <= k < spec_tab_names().len() ==> #[trigger] spec_tab_names()[k] != current@,
        },
{
    let n = tabs.len();
    let mut i: usize = 0;
    while i < n
        invariant
            n == tabs.len() == spec_tab_names().len(),
            i <= n,
            forall|k: int| 0 <= k < tabs.len() ==> (#[trigger] tabs@[k])@ == spec_tab_names()[k],
            forall|k: int| 0 <= k < i ==> #[trigger] spec_tab_names()[k] != current@,
        decreases n - i,
    {
        assert(tabs@[i as int]@ == spec_tab_names()[i as int]);
        if str_eq(tabs[i], current) {
            return Some(i);
        }
        i = i + 1;
    }
    None
}

/// The tab after the tab named `current`, wrapping from the last to the first;
/// `None` when `current` names no tab.
pub fn get_next_tab(current: &str) -> (r: Option<&'static str>)
    ensures
        match r {
            Some(next) => exists|i: int|
                0 <= i < spec_tab_names().len() && #[trigger] spec_tab_names()[i] == current@
                    && next@ == spec_tab_names()[(i + 1) % (spec_tab_names().len() as int)],
            None => forall|i: int| 0 <= i < spec_tab_names().len() ==> #[trigger] spec_tab_names()[i] != current@,
        },
{
    let tabs = tab_names();
    match tab_position(&tabs, current) {
        Some(i) => {
            let j = (i + 1) % tabs.len();
            assert(tabs@[j as int]@ == spec_tab_names()[j as int]);
            Some(tabs[j])
        },
        None => None,
    }
}

/// The tab that the Tab key leads to from the screen named `current`: the one
/// after it, or the second tab when `current` names no tab.
pub open spec fn spec_tab_after(current: Seq<char>) -> RouteKind {
    if current == "Playback"@ {
        RouteKind::Queue
    } else if current == "Queue"@ {
        RouteKind::Browser
    } else if current == "Browser"@ {
        RouteKind::Settings
    } else if current == "Settings"@ {
        RouteKind::Log
    } else if current == "Log"@ {
        RouteKind::Playback
    } else {
        RouteKind::Queue
    }
}

/// What a key does before the current screen sees it.
#[derive(Debug, Clone, Copy, PartialEq, Eq, Structural)]
pub enum GlobalKeyAction {
    /// Stop playback and leave the program.
    Quit,
    /// Put the given tab in place of the current screen.
    SwitchTab(RouteKind),
    /// Leave the current screen for the one below it.
    Pop,
    /// Let the current screen handle the key.
    Delegate,
}

/// The program-wide keys: `q` quits, Tab moves to the next tab, Esc leaves a
/// screen that was opened on top of another; every other key goes to the
/// current screen.
pub open spec fn spec_global_key(key: Key, current: Seq<char>, depth: nat) -> GlobalKeyAction {
    match key {
        Key::Char(c) => if c == 'q' {
            GlobalKeyAction::Quit
        } else {
            GlobalKeyAction::Delegate
        },
        Key::Tab => GlobalKeyAction::SwitchTab(spec_tab_after(current)),
        Key::Esc => if depth > 1 {
            GlobalKeyAction::Pop
        } else {
            GlobalKeyAction::Delegate
        },
        _ => GlobalKeyAction::Delegate,
    }
}

/// Decide what a key does at program level, given the name of the current
/// screen and the depth of the navigation stack.
pub fn global_key_action(key: Key, current: &str, depth: usize) -> (r: GlobalKeyAction)
    ensures
        r == spec_global_key(key, current@, depth as nat),
{
    match key {
        Key::Char(c) => {
            if c == 'q' {
                GlobalKeyAction::Quit
            } else {
                GlobalKeyAction::Delegate
            }
        },
        Key::Tab => {
            let tabs = tab_names();
            let position: usize = match tab_position(&tabs, current) {
                Some(i) => i,
                None => 0,
            };
            let j = (position + 1) % tabs.len();
            assert(tabs@[j as int]@ == spec_tab_names()[j as int]);
            let next = route_for_name(tabs[j]);
            proof {
                lemma_route_names_distinct();
            }
            GlobalKeyAction::SwitchTab(next)
        },
        Key::Esc => {
            if depth > 1 {
                GlobalKeyAction::Pop
            } else {
                GlobalKeyAction::Delegate
            }
        },
        _ => GlobalKeyAction::Delegate,
    }
}

/// The navigation stack after pushing `route`.
pub open spec fn spec_push<R>(stack: Seq<R>, route: R) -> Seq<R> {
    stack.push(route)
}

/// The navigation stack and the route handed back after leaving the current
/// screen: only when another screen lies below it and the screen allows it.
pub open spec fn spec_pop<R>(stack: Seq<R>, can_exit: bool) -> (Seq<R>, Option<R>) {
    if stack.len() > 1 && can_exit {
        (stack.drop_last(), Some(stack.last()))
    } else {
        (stack, None)
    }
}

/// The stack of open screens; the last one is shown.  It is never empty.
pub struct Router<R> {
    stack: Vec<R>,
}

impl<R> View for Router<R> {
    type V = Seq<R>;

    closed spec fn view(&self) -> Seq<R> {
        self.stack@
    }
}

impl<R> Router<R> {
    /// The stack holds at least one screen.
    pub open spec fn wf(&self) -> bool {
        self@.len() > 0
    }

    /// A stack holding the initial screen alone.
    pub fn new(initial_route: R) -> (r: Self)
        ensures
            r.wf(),
            r@ == seq![initial_route],
    {
        let mut stack: Vec<R> = Vec::new();
        stack.push(initial_route);
        Router { stack }
    }

    /// The screen on top of the stack.
    pub fn current(&self) -> (r: &R)
        requires
            self.wf(),
        ensures
            *r == self@.last(),
    {
        let n = self.stack.len();
        &self.stack[n - 1]
    }

    /// The screen on top of the stack, to be changed in place.
    pub fn current_mut(&mut self) -> (r: &mut R)
        requires
            old(self).wf(),
        ensures
            final(self).wf(),
            *r == old(self)@.last(),
            final(self)@ == old(self)@.update(old(self)@.len() - 1, *final(r)),
    {
        let n = self.stack.len();
        &mut self.stack[n - 1]
    }

    /// Open a screen on top of the current one.
    pub fn push(&mut self, route: R)
        requires
            old(self).wf(),
        ensures
            final(self).wf(),
            final(self)@ == spec_push(old(self)@, route),
            final(self)@.len() > 1,
    {
        self.stack.push(route);
    }

    /// Leave the current screen when another lies below it and `can_exit`
    /// (the screen's own consent) holds; the screen that was left is handed
    /// back so that its exit hook can run.
    pub fn pop(&mut self, can_exit: bool) -> (r: Option<R>)
        requires
            old(self).wf(),
        ensures
            final(self).wf(),
            (final(self)@, r) == spec_pop(old(self)@, can_exit),
    {
        if self.stack.len() > 1 && can_exit {
            self.stack.pop()
        } else {
            None
        }
    }

    /// Put `route` in place of the current screen, handing the old one back.
    pub fn replace(&mut self, route: R) -> (old_route: R)
        requires
            old(self).wf(),
        ensures
            final(self).wf(),
            old_route == old(self)@.last(),
            final(self)@ == old(self)@.drop_last().push(route),
    {
        let n = self.stack.len();
        self.stack.push(route);
        self.stack.swap_remove(n - 1)
    }

    /// Close every screen and show `route` alone.  The closed screens come
    /// back in the order they are left, the top one first.
    pub fn reset_to(&mut self, route: R) -> (exited: Vec<R>)
        ensures
            final(self).wf(),
            exited@ == old(self)@.reverse(),
            final(self)@ == seq![route],
    {
        let mut exited: Vec<R> = Vec::new();
        let mut stack: Vec<R> = Vec::new();
        stack.push(route);
        std::mem::swap(&mut stack, &mut self.stack);
        let ghost original = stack@;
        while stack.len() > 0
            invariant
                original.len() == stack.len() + exited.len(),
                stack@ == original.take(stack.len() as int),
                exited@ == original.reverse().take(exited.len() as int),
            decreases stack.len(),
        {
            let top = stack.pop().unwrap();
            exited.push(top);
            assert(exited@ =~= original.reverse().take(exited.len() as int));
            assert(stack@ =~= original.take(stack.len() as int));
        }
        assert(exited@ =~= original.reverse());
        exited
    }

    /// How many screens are open.
    pub fn depth(&self) -> (r: usize)
        requires
            self.wf(),
        ensures
            r == self@.len(),
            r >= 1,
    {
        self.stack.len()
    }
}

/// Leaving a screen just pushed hands that screen back and restores the
/// stack as it was.
pub proof fn lemma_pop_undoes_push<R>(stack: Seq<R>, route: R)
    requires
        stack.len() > 0,
    ensures
        spec_pop(spec_push(stack, route), true) == (stack, Some(route)),
{
    assert(spec_push(stack, route).drop_last() =~= stack);
}

/// The bottom screen is never left: the stack keeps at least one screen.
pub proof fn lemma_pop_keeps_a_screen<R>(stack: Seq<R>, can_exit: bool)
    requires
        stack.len() > 0,
    ensures
        spec_pop(stack, can_exit).0.len() > 0,
        spec_pop(stack, can_exit).0.len() == 1 ==> stack.len() <= 2,
{
}

} // verus!
