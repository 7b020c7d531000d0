use jrpg_core::assets::audio::{AudioClip, ClipCategory};
use jrpg_core::assets::SpriteSheet;
use jrpg_core::ecs::VisibleComponent;

#[test]
fn atlas_geometry_derives_cells_once() {
    let sheet = SpriteSheet::new(100, 100, 5, 5);
    assert_eq!(sheet.rows(), 5);
    assert_eq!(sheet.columns(), 5);
    assert_eq!(sheet.cell_width(), 20);
    assert_eq!(sheet.cell_height(), 20);
}

#[test]
fn first_cell_maps_to_the_image_origin() {
    let mut sheet = SpriteSheet::new(100, 100, 5, 5);
    sheet.enqueue_draw(0, 0, 1, 1);
    let batch = sheet.flush_batch();
    assert_eq!(batch.len(), 1);
    assert_eq!(batch[0].source_x, 0);
    assert_eq!(batch[0].source_y, 0);
    assert_eq!(batch[0].source_width, 20);
    assert_eq!(batch[0].source_height, 20);
}

#[test]
fn flush_batch_hands_over_and_clears() {
    let mut sheet = SpriteSheet::new(100, 100, 5, 5);
    sheet.enqueue_draw(10, 20, 2, 3);
    sheet.enqueue_draw(30, 40, 5, 5);
    let batch = sheet.flush_batch();
    assert_eq!(batch.len(), 2);
    assert_eq!(batch[0].x, 10);
    assert_eq!(batch[0].source_x, 40);
    assert_eq!(batch[0].source_y, 20);
    assert_eq!(batch[1].source_x, 80);
    assert_eq!(batch[1].source_y, 80);
    assert!(sheet.flush_batch().is_empty());
}

#[test]
fn uneven_division_truncates_cell_size() {
    let sheet = SpriteSheet::new(101, 50, 3, 4);
    assert_eq!(sheet.cell_width(), 25);
    assert_eq!(sheet.cell_height(), 16);
}

#[test]
fn unknown_animation_yields_empty_sequence() {
    let sheet = SpriteSheet::new(64, 64, 2, 2);
    assert!(sheet.get_animation(&"missing".to_string()).is_empty());
}

#[test]
fn add_animation_overwrites_same_name() {
    let mut sheet = SpriteSheet::new(64, 64, 2, 2);
    sheet.add_animation("walk".to_string(), vec![(1, 1)]);
    sheet.add_animation("walk".to_string(), vec![(2, 2), (2, 1)]);
    assert_eq!(sheet.get_animation(&"walk".to_string()), vec![(2, 2), (2, 1)]);
}

#[test]
fn empty_animation_is_a_valid_no_op() {
    let mut sheet = SpriteSheet::new(64, 64, 2, 2);
    sheet.add_animation("still".to_string(), Vec::new());
    assert!(sheet.get_animation(&"still".to_string()).is_empty());
}

#[test]
fn audio_clip_keeps_path_and_category() {
    let clip = AudioClip::new("builtin/eclipse.mp3".to_string(), ClipCategory::Music);
    assert_eq!(clip.path().as_str(), "builtin/eclipse.mp3");
    assert!(matches!(clip.category(), ClipCategory::Music));
}

#[test]
fn visible_component_holds_sheet_reference() {
    let visible = VisibleComponent {
        sprite_sheet_name: "tiles".to_string(),
        sprite_location: (3, 4),
    };
    assert_eq!(visible.sprite_sheet_name, "tiles");
    assert_eq!(visible.sprite_location, (3, 4));
}
