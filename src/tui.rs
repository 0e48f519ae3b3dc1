use vstd::prelude::*;
use crate::config::Config;
use crate::text::joined;

verus! {

/// How keys are read.
#[derive(Debug, Clone, Copy, PartialEq, Eq, Structural)]
pub enum InputMode {
    /// Keys navigate.
    Normal,
    /// Keys fill a form.
    Editing,
}

/// The views of the terminal interface, in menu order.
#[derive(Debug, Clone, Copy, PartialEq, Eq, Structural)]
pub enum MenuItem {
    Dashboard,
    Servers,
    Clients,
    Settings,
    Logs,
}

pub open spec fn menu_index_of(m: MenuItem) -> nat {
    match m {
        MenuItem::Dashboard => 0,
        MenuItem::Servers => 1,
        MenuItem::Clients => 2,
        MenuItem::Settings => 3,
        MenuItem::Logs => 4,
    }
}

/// Number of menu items.
pub const MENU_LEN: usize = 5;

/// Position of a view in the menu.
pub fn menu_index(m: MenuItem) -> (r: usize)
    ensures
        r == menu_index_of(m),
        r < MENU_LEN,
{
    match m {
        MenuItem::Dashboard => 0,
        MenuItem::Servers => 1,
        MenuItem::Clients => 2,
        MenuItem::Settings => 3,
        MenuItem::Logs => 4,
    }
}

/// The selection after moving down a list of `len` entries: wraps from the
/// last entry to the first; no selection selects the first; an empty list
/// keeps the selection.
pub open spec fn next_selection(sel: Option<usize>, len: nat) -> Option<usize> {
    if len == 0 {
        sel
    } else {
        match sel {
            Some(i) => if i >= len - 1 {
                Some(0usize)
            } else {
                Some((i + 1) as usize)
            },
            None => Some(0usize),
        }
    }
}

/// The selection after moving up a list of `len` entries: wraps from the
/// first entry to the last; no selection selects the first; an empty list
/// keeps the selection.
pub open spec fn previous_selection(sel: Option<usize>, len: nat) -> Option<usize> {
    if len == 0 {
        sel
    } else {
        match sel {
            Some(i) => if i == 0 {
                Some((len - 1) as usize)
            } else {
                Some((i - 1) as usize)
            },
            None => Some(0usize),
        }
    }
}

fn next_in(sel: Option<usize>, len: usize) -> (r: Option<usize>)
    ensures
        r == next_selection(sel, len as nat),
{
    if len == 0 {
        return sel;
    }
    match sel {
        Some(i) => if i >= len - 1 {
            Some(0)
        } else {
            Some(i + 1)
        },
        None => Some(0),
    }
}

fn previous_in(sel: Option<usize>, len: usize) -> (r: Option<usize>)
    ensures
        r == previous_selection(sel, len as nat),
{
    if len == 0 {
        return sel;
    }
    match sel {
        Some(i) => if i == 0 {
            Some(len - 1)
        } else {
            Some(i - 1)
        },
        None => Some(0),
    }
}

/// The state of the terminal interface.
#[derive(Debug)]
pub struct App {
    pub menu_state: MenuItem,
    /// The selected server, by position.
    pub selected_server: Option<usize>,
    /// The selected client, by position.
    pub selected_client: Option<usize>,
    /// One label per configured server.
    pub servers: Vec<String>,
    /// One label per configured client.
    pub clients: Vec<String>,
    pub input_mode: InputMode,
    pub config: Config,
    pub should_quit: bool,
}

/// `name (detail)`.
fn label(name: &str, detail: &str) -> (r: String)
    ensures
        r@ == name@ + " ("@ + detail@ + ")"@,
{
    let mut out = joined(name, " (");
    out.append(detail);
    out.append(")");
    out
}

impl App {
    /// The interface on a configuration: the dashboard, the first server and
    /// client selected, each server labelled `name (url)` and each client
    /// `name (id)`.
    pub fn new(config: Config) -> (r: App)
        ensures
            r.menu_state == MenuItem::Dashboard,
            r.selected_server == Some(0usize),
            r.selected_client == Some(0usize),
            r.input_mode == InputMode::Normal,
            !r.should_quit,
            r.servers@.len() == config.servers@.len(),
            forall|i: int|
                0 <= i < r.servers@.len() ==> #[trigger] r.servers@[i]@ == config.servers@[i].name@
                    + " ("@ + config.servers@[i].url@ + ")"@,
            r.clients@.len() == config.clients@.len(),
            forall|i: int|
                0 <= i < r.clients@.len() ==> #[trigger] r.clients@[i]@ == config.clients@[i].name@
                    + " ("@ + config.clients@[i].id@ + ")"@,
    {
        let mut servers: Vec<String> = Vec::new();
        let mut i: usize = 0;
        while i < config.servers.len()
            invariant
                i <= config.servers@.len(),
                servers@.len() == i,
                forall|j: int|
                    0 <= j < i ==> #[trigger] servers@[j]@ == config.servers@[j].name@ + " ("@
                        + config.servers@[j].url@ + ")"@,
            decreases config.servers@.len() - i,
        {
            servers.push(label(config.servers[i].name.as_str(), config.servers[i].url.as_str()));
            i = i + 1;
        }
        let mut clients: Vec<String> = Vec::new();
        let mut k: usize = 0;
        while k < config.clients.len()
            invariant
                k <= config.clients@.len(),
                clients@.len() == k,
                forall|j: int|
                    0 <= j < k ==> #[trigger] clients@[j]@ == config.clients@[j].name@ + " ("@
                        + config.clients@[j].id@ + ")"@,
            decreases config.clients@.len() - k,
        {
            clients.push(label(config.clients[k].name.as_str(), config.clients[k].id.as_str()));
            k = k + 1;
        }
        App {
            menu_state: MenuItem::Dashboard,
            selected_server: Some(0),
            selected_client: Some(0),
            servers,
            clients,
            input_mode: InputMode::Normal,
            config,
            should_quit: false,
        }
    }

    /// The next view, wrapping from the last to the first.
    pub fn next_menu(&mut self)
        ensures
            menu_index_of(final(self).menu_state) == (menu_index_of(old(self).menu_state) + 1) % 5,
            final(self).selected_server == old(self).selected_server,
            final(self).selected_client == old(self).selected_client,
    {
        self.menu_state = match self.menu_state {
            MenuItem::Dashboard => MenuItem::Servers,
            MenuItem::Servers => MenuItem::Clients,
            MenuItem::Clients => MenuItem::Settings,
            MenuItem::Settings => MenuItem::Logs,
            MenuItem::Logs => MenuItem::Dashboard,
        };
    }

    /// The previous view, wrapping from the first to the last.
    pub fn previous_menu(&mut self)
        ensures
            menu_index_of(final(self).menu_state) == (menu_index_of(old(self).menu_state) + 4) % 5,
            final(self).selected_server == old(self).selected_server,
            final(self).selected_client == old(self).selected_client,
    {
        self.menu_state = match self.menu_state {
            MenuItem::Dashboard => MenuItem::Logs,
            MenuItem::Servers => MenuItem::Dashboard,
            MenuItem::Clients => MenuItem::Servers,
            MenuItem::Settings => MenuItem::Clients,
            MenuItem::Logs => MenuItem::Settings,
        };
    }

    pub fn next_server(&mut self)
        ensures
            final(self).selected_server == next_selection(
                old(self).selected_server,
                old(self).servers@.len(),
            ),
            final(self).servers == old(self).servers,
            final(self).selected_client == old(self).selected_client,
            final(self).menu_state == old(self).menu_state,
    {
        self.selected_server = next_in(self.selected_server, self.servers.len());
    }

    pub fn previous_server(&mut self)
        ensures
            final(self).selected_server == previous_selection(
                old(self).selected_server,
                old(self).servers@.len(),
            ),
            final(self).servers == old(self).servers,
            final(self).selected_client == old(self).selected_client,
            final(self).menu_state == old(self).menu_state,
    {
        self.selected_server = previous_in(self.selected_server, self.servers.len());
    }

    pub fn next_client(&mut self)
        ensures
            final(self).selected_client == next_selection(
                old(self).selected_client,
                old(self).clients@.len(),
            ),
            final(self).clients == old(self).clients,
            final(self).selected_server == old(self).selected_server,
            final(self).menu_state == old(self).menu_state,
    {
        self.selected_client = next_in(self.selected_client, self.clients.len());
    }

    pub fn previous_client(&mut self)
        ensures
            final(self).selected_client == previous_selection(
                old(self).selected_client,
                old(self).clients@.len(),
            ),
            final(self).clients == old(self).clients,
            final(self).selected_server == old(self).selected_server,
            final(self).menu_state == old(self).menu_state,
    {
        self.selected_client = previous_in(self.selected_client, self.clients.len());
    }
}

} // verus!
