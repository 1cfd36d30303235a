//! Interactive chain-selection state. The terminal loop that draws it and
//! reads keys lives with the caller; every state change goes through the
//! methods here, which keep the selection inside the chain list.

use vstd::prelude::*;

use vstd::string::StringExecFns;

verus! {

/// The inputs the selection state reacts to; the caller maps raw key events
/// onto these.
#[derive(Clone, Copy, PartialEq, Eq, Structural)]
pub enum UiKey {
    Quit,
    Up,
    Down,
    Other,
}

/// Interactive state: the chain list, the highlighted entry, and whether the
/// user asked to leave.
pub struct App {
    selected_chain: usize,
    chains: Vec<String>,
    should_quit: bool,
}

impl App {
    #[verifier::type_invariant]
    closed spec fn wf(self) -> bool {
        self.chains@.len() == 3 && self.selected_chain < 3
    }

    /// The index of the highlighted chain: always inside the list.
    pub closed spec fn spec_selected(&self) -> int {
        self.selected_chain as int
    }

    /// The chain labels, in display order.
    pub closed spec fn spec_labels(&self) -> Seq<Seq<char>> {
        self.chains@.map_values(|c: String| c@)
    }

    /// Whether the user asked to leave.
    pub closed spec fn spec_should_quit(&self) -> bool {
        self.should_quit
    }

    /// Fresh state: the supported chain first and highlighted.
    pub fn new() -> (r: App)
        ensures
            r.spec_selected() == 0,
            !r.spec_should_quit(),
            r.spec_labels() =~= seq![
                "Cardano (ADA)"@,
                "Bitcoin (BTC) - Coming Soon"@,
                "Solana (SOL) - Coming Soon"@,
            ],
    {
        let mut chains: Vec<String> = Vec::new();
        chains.push(String::from_str("Cardano (ADA)"));
        chains.push(String::from_str("Bitcoin (BTC) - Coming Soon"));
        chains.push(String::from_str("Solana (SOL) - Coming Soon"));
        App { selected_chain: 0, chains, should_quit: false }
    }

    /// Moves the highlight down, wrapping from the last chain to the first.
    pub fn next_chain(&mut self)
        ensures
            final(self).spec_selected() == (old(self).spec_selected() + 1) % 3,
            final(self).spec_labels() == old(self).spec_labels(),
            final(self).spec_should_quit() == old(self).spec_should_quit(),
    {
        proof {
            use_type_invariant(&*self);
        }
        self.selected_chain = (self.selected_chain + 1) % self.chains.len();
    }

    /// Moves the highlight up, wrapping from the first chain to the last.
    pub fn previous_chain(&mut self)
        ensures
            final(self).spec_selected() == (if old(self).spec_selected() > 0 {
                old(self).spec_selected() - 1
            } else {
                2int
            }),
            final(self).spec_labels() == old(self).spec_labels(),
            final(self).spec_should_quit() == old(self).spec_should_quit(),
    {
        proof {
            use_type_invariant(&*self);
        }
        if self.selected_chain > 0 {
            self.selected_chain = self.selected_chain - 1;
        } else {
            self.selected_chain = self.chains.len() - 1;
        }
    }

    /// Reacts to one input: quit on `Quit`, move on `Up` and `Down`, and
    /// ignore everything else.
    pub fn handle_key(&mut self, key: UiKey)
        ensures
            key == UiKey::Quit ==> final(self).spec_should_quit() && final(self).spec_selected()
                == old(self).spec_selected(),
            key == UiKey::Up ==> final(self).spec_selected() == (if old(self).spec_selected() > 0 {
                old(self).spec_selected() - 1
            } else {
                2int
            }) && final(self).spec_should_quit() == old(self).spec_should_quit(),
            key == UiKey::Down ==> final(self).spec_selected() == (old(self).spec_selected() + 1)
                % 3 && final(self).spec_should_quit() == old(self).spec_should_quit(),
            key == UiKey::Other ==> *final(self) == *old(self),
            final(self).spec_labels() == old(self).spec_labels(),
    {
        proof {
            use_type_invariant(&*self);
        }
        match key {
            UiKey::Quit => {
                self.should_quit = true;
            },
            UiKey::Up => {
                self.previous_chain();
            },
            UiKey::Down => {
                self.next_chain();
            },
            UiKey::Other => {
            },
        }
    }

    /// The index of the highlighted chain.
    pub fn selected(&self) -> (r: usize)
        ensures
            r == self.spec_selected(),
            r < 3,
    {
        proof {
            use_type_invariant(&*self);
        }
        self.selected_chain
    }

    /// The chain labels, for rendering.
    pub fn chains(&self) -> (r: &Vec<String>)
        ensures
            r@.map_values(|c: String| c@) == self.spec_labels(),
            r@.len() == 3,
    {
        proof {
            use_type_invariant(&*self);
        }
        &self.chains
    }

    /// Whether the user asked to leave.
    pub fn should_quit(&self) -> (r: bool)
        ensures
            r == self.spec_should_quit(),
    {
        self.should_quit
    }
}

} // verus!
