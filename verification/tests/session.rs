use conway_life::conway::Conway;
use conway_life::engine::FillMode;
use conway_life::frames::FRAME_COUNT;
use conway_life::screen::Screen;
use conway_life::tab::Tab;

fn session() -> Conway {
    Conway::from_grid(Tab::new(3).unwrap(), FillMode::Density(25)).unwrap()
}

#[test]
fn title_of_every_screen() {
    assert_eq!(Screen::Init.title(), "Jeu de Conway - Paramètres");
    assert_eq!(Screen::Simul.title(), "Jeu de Conway - Simulation");
    assert_eq!(Screen::Example.title(), "Jeu de Conway - Exemples");
    assert_eq!(Screen::Conway.title(), "Conway");
    assert_eq!(Screen::ExamplesC.title(), "Charger un exemple");
    assert_eq!(Screen::SavesC.title(), "Charger une sauvegarde");
}

#[test]
fn title_follows_the_screen_of_the_session() {
    let mut session = session();
    assert_eq!(session.title(), "Jeu de Conway - Simulation");
    session.show(Screen::Init);
    assert_eq!(session.title(), "Jeu de Conway - Paramètres");
    session.show(Screen::Conway);
    assert_eq!(session.title(), "Conway");
    assert_eq!(Conway::default().title(), "Conway");
}

#[test]
fn show_changes_the_screen_alone() {
    let mut session = session();
    session.toggle_cell(1, 1).unwrap();
    let before = session.clone();
    session.show(Screen::Example);
    assert_eq!(session.screen(), Screen::Example);
    session.show(Screen::Simul);
    assert_eq!(session, before);
}

#[test]
fn reset_shows_the_simulation() {
    let mut session = session();
    session.show(Screen::Init);
    session.reinitialiser();
    assert_eq!(session.screen(), Screen::Simul);
}

#[test]
fn frames_are_thirty_numbered_paths() {
    let paths = session().create_frames();
    assert_eq!(FRAME_COUNT, 30);
    assert_eq!(paths.len(), 30);
    assert_eq!(paths[0], "Frames/frame_00_delay-0.1s.png");
    assert_eq!(paths[1], "Frames/frame_01_delay-0.1s.png");
    assert_eq!(paths[9], "Frames/frame_09_delay-0.1s.png");
    assert_eq!(paths[10], "Frames/frame_10_delay-0.1s.png");
    assert_eq!(paths[29], "Frames/frame_29_delay-0.1s.png");
    for (i, path) in paths.iter().enumerate() {
        assert_eq!(path, &format!("Frames/frame_{:02}_delay-0.1s.png", i));
    }
}
