//! The screens of a session and what the window shows for each.

use vstd::prelude::*;

verus! {

/// The screen that a session shows.
#[derive(Clone, Copy, Debug, PartialEq, Eq, Structural)]
pub enum Screen {
    /// The settings of the next population.
    Init,
    /// The running simulation.
    Simul,
    /// The choice between examples, saves and the simulation.
    Example,
    /// The welcome screen.
    Conway,
    /// The list of examples to load.
    ExamplesC,
    /// The list of saves to load.
    SavesC,
}

impl Screen {
    /// The window title of the screen.
    pub open spec fn title_text(self) -> Seq<char> {
        match self {
            Screen::Init => "Jeu de Conway - Paramètres"@,
            Screen::Simul => "Jeu de Conway - Simulation"@,
            Screen::Example => "Jeu de Conway - Exemples"@,
            Screen::Conway => "Conway"@,
            Screen::ExamplesC => "Charger un exemple"@,
            Screen::SavesC => "Charger une sauvegarde"@,
        }
    }

    /// The window title of the screen.
    pub fn title(self) -> (title: String)
        ensures
            title@ == self.title_text(),
    {
        match self {
            Screen::Init => "Jeu de Conway - Paramètres".to_owned(),
            Screen::Simul => "Jeu de Conway - Simulation".to_owned(),
            Screen::Example => "Jeu de Conway - Exemples".to_owned(),
            Screen::Conway => "Conway".to_owned(),
            Screen::ExamplesC => "Charger un exemple".to_owned(),
            Screen::SavesC => "Charger une sauvegarde".to_owned(),
        }
    }
}

} // verus!
