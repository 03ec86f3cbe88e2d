//! The coordination of the grid and the windows that cover it.
//!
//! At most one surface is open at a time. While one is open every key goes
//! to it and the grid is left alone; when it closes the caller draws the grid
//! again.

use vstd::prelude::*;
use crate::keys::{decode_key, decoded, KeyCodes};
use crate::judge::{checked, Outcome};
use crate::screen::{pressed, Action, Screen};
use crate::utils::{answer, toggles, Yesnowin};

verus! {

/// A window that covers the grid and takes the keys.
#[derive(Clone, Debug, PartialEq, Eq)]
pub enum Surface {
    /// The help screen: any key closes it.
    Help,
    /// A question: it closes with the answer.
    Confirm(Yesnowin),
    /// A message: any key closes it.
    Message,
}

/// How far the round is.
#[derive(Clone, Copy, Debug, PartialEq, Eq)]
pub enum Phase {
    /// Words are being guessed.
    Playing,
    /// The secret word was guessed.
    Won,
    /// The attempts are used up.
    Lost,
}

/// What a key led to.
#[derive(Clone, Copy, Debug, PartialEq, Eq)]
pub enum Event {
    /// The grid took the key and asks for this.
    Grid(Action),
    /// The open surface took the key and stays open.
    Held,
    /// The open surface took the key and closed, a question with this
    /// answer: the grid is to be drawn again.
    Closed(Option<bool>),
    /// The round is over and nothing covers the grid: the key ends the
    /// program.
    Finished,
}

/// The grid, the surface that covers it, if one does, and the round's phase.
#[derive(Clone, Debug, PartialEq, Eq)]
pub struct Coordinator {
    pub screen: Screen,
    pub surface: Option<Surface>,
    pub phase: Phase,
    pub debug: bool,
}

/// The phase after a checked word.
pub open spec fn phase_after(outcome: Outcome) -> Phase {
    match outcome {
        Outcome::Won { .. } => Phase::Won,
        Outcome::Lost => Phase::Lost,
        _ => Phase::Playing,
    }
}

/// The surface that a checked word opens: a message for every outcome but
/// the plain step to the next line.
pub open spec fn surface_after(outcome: Outcome) -> Option<Surface> {
    match outcome {
        Outcome::Next => None,
        _ => Some(Surface::Message),
    }
}

impl Coordinator {
    /// The grid is well-formed.
    pub open spec fn wf(&self) -> bool {
        self.screen.wf()
    }

    /// A round at its start: nothing covers the grid.
    pub fn new(screen: Screen, debug: bool) -> (c: Self)
        ensures
            c.screen == screen,
            c.surface is None,
            c.phase == Phase::Playing,
            c.debug == debug,
    {
        Coordinator { screen: screen, surface: None, phase: Phase::Playing, debug: debug }
    }

    /// Opens `surface` over the grid, unless another surface is open
    /// already: then nothing changes and the answer is `false`.
    pub fn open(&mut self, surface: Surface) -> (opened: bool)
        ensures
            opened == old(self).surface is None,
            opened ==> *final(self) == (Coordinator { surface: Some(surface), ..*old(self) }),
            !opened ==> *final(self) == *old(self),
    {
        if self.surface.is_some() {
            return false;
        }
        self.surface = Some(surface);
        true
    }

    /// The coordinator `after` and the event `e` are what the key code `ch`
    /// makes of the coordinator `before`.
    ///
    /// An open surface takes the key and the grid stays as it is: the help
    /// screen and a message close on any key, a question toggles or closes
    /// with its answer. With no surface open the grid takes the key, unless
    /// the round is over: then nothing changes any more.
    pub open spec fn keyed(before: Self, after: Self, ch: int, codes: KeyCodes, e: Event) -> bool {
        &&& after.phase == before.phase
        &&& after.debug == before.debug
        &&& match before.surface {
            Some(Surface::Confirm(q)) => {
                &&& after.screen == before.screen
                &&& match answer(q.yes, ch, codes) {
                    Some(a) => after.surface is None && e == Event::Closed(Some(a)),
                    None => {
                        &&& e == Event::Held
                        &&& after.surface == Some(
                            Surface::Confirm(
                                Yesnowin {
                                    yes: if toggles(ch, codes) {
                                        !q.yes
                                    } else {
                                        q.yes
                                    },
                                    ..q
                                },
                            ),
                        )
                    },
                }
            },
            Some(_) => {
                &&& after.screen == before.screen
                &&& after.surface is None
                &&& e == Event::Closed(None)
            },
            None => {
                &&& after.surface is None
                &&& if before.phase == Phase::Playing {
                    &&& e matches Event::Grid(act)
                    &&& pressed(before.screen, after.screen, decoded(ch, codes), before.debug, act)
                } else {
                    &&& after.screen == before.screen
                    &&& e == Event::Finished
                }
            },
        }
    }

    /// Takes one key code and hands it to the open surface, or to the grid
    /// if none is open.
    pub fn key(&mut self, ch: i32, codes: &KeyCodes) -> (e: Event)
        requires
            old(self).wf(),
        ensures
            final(self).wf(),
            Coordinator::keyed(*old(self), *final(self), ch as int, *codes, e),
    {
        match &mut self.surface {
            Some(Surface::Confirm(q)) => {
                match q.key(ch, codes) {
                    Some(a) => {
                        self.surface = None;
                        Event::Closed(Some(a))
                    },
                    None => Event::Held,
                }
            },
            Some(_) => {
                self.surface = None;
                Event::Closed(None)
            },
            None => {
                match self.phase {
                    Phase::Playing => {
                        let k = decode_key(ch, codes);
                        let act = self.screen.press(k, self.debug);
                        Event::Grid(act)
                    },
                    _ => Event::Finished,
                }
            },
        }
    }

    /// Checks the current line against the secret word `target_word`, as
    /// the grid asked for. The word is checked only while words are being
    /// guessed, nothing covers the grid, the line is complete and the
    /// secret word has its length: else nothing changes and there is no
    /// outcome. A rejected word and the end of the round open a message,
    /// and the end of the round is kept as the phase.
    pub fn check(&mut self, words: &Vec<String>, target_word: &str) -> (r: Option<Outcome>)
        requires
            old(self).wf(),
        ensures
            final(self).wf(),
            final(self).debug == old(self).debug,
            r is Some <==> {
                &&& old(self).surface is None
                &&& old(self).phase == Phase::Playing
                &&& old(self).screen.ready()
                &&& target_word@.len() == old(self).screen.width()
            },
            r is None ==> *final(self) == *old(self),
            r is Some ==> {
                &&& checked(
                    old(self).screen,
                    final(self).screen,
                    words@,
                    target_word@,
                    old(self).debug,
                    r->0,
                )
                &&& final(self).phase == phase_after(r->0)
                &&& final(self).surface == surface_after(r->0)
            },
    {
        if self.surface.is_some() {
            return None;
        }
        match self.phase {
            Phase::Playing => {},
            _ => {
                return None;
            },
        }
        let outcome: Outcome = match self.screen.submit(words, target_word, self.debug) {
            Some(o) => o,
            None => {
                return None;
            },
        };
        match &outcome {
            Outcome::Won { .. } => {
                self.phase = Phase::Won;
                self.surface = Some(Surface::Message);
            },
            Outcome::Lost => {
                self.phase = Phase::Lost;
                self.surface = Some(Surface::Message);
            },
            Outcome::Rejected { .. } => {
                self.surface = Some(Surface::Message);
            },
            Outcome::Next => {},
        }
        Some(outcome)
    }
}

/// While a surface is open no key changes the grid, and the phase of the
/// round changes with no key.
pub proof fn lemma_surface_shields_grid(
    before: Coordinator,
    after: Coordinator,
    ch: int,
    codes: KeyCodes,
    e: Event,
)
    requires
        Coordinator::keyed(before, after, ch, codes, e),
        before.surface is Some,
    ensures
        after.screen == before.screen,
        after.phase == before.phase,
        !(e is Grid),
{
}

/// The help screen and a message close on any key.
pub proof fn lemma_any_key_dismisses(
    before: Coordinator,
    after: Coordinator,
    ch: int,
    codes: KeyCodes,
    e: Event,
)
    requires
        Coordinator::keyed(before, after, ch, codes, e),
        before.surface == Some(Surface::Help) || before.surface == Some(Surface::Message),
    ensures
        after.surface is None,
        e == Event::Closed(None),
{
}

/// Once the round is over no key changes the grid.
pub proof fn lemma_round_over_is_final(
    before: Coordinator,
    after: Coordinator,
    ch: int,
    codes: KeyCodes,
    e: Event,
)
    requires
        Coordinator::keyed(before, after, ch, codes, e),
        before.phase != Phase::Playing,
    ensures
        after.screen == before.screen,
        after.phase == before.phase,
{
}

} // verus!
