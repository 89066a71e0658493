use conway_life::conway::Conway;
use conway_life::engine::FillMode;
use conway_life::error::EngineError;
use conway_life::miniature::Miniature;
use conway_life::tab::Tab;

fn session(side: usize, cells: Vec<bool>) -> Conway {
    Conway::from_grid(Tab::from_cells(side, cells).unwrap(), FillMode::Density(25)).unwrap()
}

fn colour_at(miniature: &Miniature, x: u32, y: u32) -> [u8; 3] {
    let at = 3 * (y as usize * miniature.width as usize + x as usize);
    [miniature.samples[at], miniature.samples[at + 1], miniature.samples[at + 2]]
}

const BLACK: [u8; 3] = [0, 0, 0];
const WHITE: [u8; 3] = [255, 255, 255];

#[test]
fn miniature_at_scale_one_is_the_grid() {
    // the cell at (1, 0) is living: column 1 of row 0
    let miniature = session(2, vec![false, false, true, false]).create_miniature(1).unwrap();
    assert_eq!(
        miniature,
        Miniature {
            width: 2,
            height: 2,
            samples: vec![255, 255, 255, 0, 0, 0, 255, 255, 255, 255, 255, 255],
        }
    );
}

#[test]
fn miniature_draws_each_cell_as_a_square() {
    let miniature = session(2, vec![true, false, false, false]).create_miniature(2).unwrap();
    assert_eq!(miniature.width, 4);
    assert_eq!(miniature.height, 4);
    assert_eq!(miniature.samples.len(), 48);
    for y in 0..4u32 {
        for x in 0..4u32 {
            let expected = if x < 2 && y < 2 { BLACK } else { WHITE };
            assert_eq!(colour_at(&miniature, x, y), expected, "({x}, {y})");
        }
    }
}

#[test]
fn miniature_puts_the_first_coordinate_on_the_columns() {
    let mut session = session(3, vec![false; 9]);
    session.toggle_cell(2, 0).unwrap();
    let miniature = session.create_miniature(2).unwrap();
    assert_eq!(colour_at(&miniature, 4, 0), BLACK);
    assert_eq!(colour_at(&miniature, 5, 1), BLACK);
    assert_eq!(colour_at(&miniature, 0, 4), WHITE);
    assert_eq!(colour_at(&miniature, 3, 0), WHITE);
    assert_eq!(colour_at(&miniature, 4, 2), WHITE);
    let black = miniature.samples.iter().filter(|sample| **sample == 0).count();
    assert_eq!(black, 12);
}

#[test]
fn miniature_loads_as_an_image() {
    let session = session(2, vec![true, false, false, true]);
    let miniature = session.create_miniature(3).unwrap();
    let image =
        image::RgbImage::from_raw(miniature.width, miniature.height, miniature.samples).unwrap();
    assert_eq!(image.dimensions(), (6, 6));
    assert_eq!(image.get_pixel(0, 0), &image::Rgb(BLACK));
    assert_eq!(image.get_pixel(2, 2), &image::Rgb(BLACK));
    assert_eq!(image.get_pixel(3, 2), &image::Rgb(WHITE));
    assert_eq!(image.get_pixel(2, 3), &image::Rgb(WHITE));
    assert_eq!(image.get_pixel(5, 5), &image::Rgb(BLACK));
}

#[test]
fn miniature_of_the_default_size() {
    let session = Conway::default();
    let miniature = session.create_miniature(2).unwrap();
    assert_eq!(miniature.width, 100);
    assert_eq!(miniature.height, 100);
    for x in 0..50usize {
        for y in 0..50usize {
            let expected = if session.cells_tab().is_living(x, y) { BLACK } else { WHITE };
            assert_eq!(colour_at(&miniature, 2 * x as u32 + 1, 2 * y as u32), expected);
        }
    }
}

#[test]
fn miniature_refuses_scale_zero() {
    assert_eq!(
        session(2, vec![false; 4]).create_miniature(0),
        Err(EngineError::InvalidConfiguration)
    );
}

#[test]
fn miniature_refuses_a_width_beyond_u32() {
    assert_eq!(
        session(2, vec![false; 4]).create_miniature(u32::MAX),
        Err(EngineError::InvalidConfiguration)
    );
    assert_eq!(
        session(3, vec![false; 9]).create_miniature(1 << 31),
        Err(EngineError::InvalidConfiguration)
    );
}
