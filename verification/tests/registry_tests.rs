use jrpg_core::assets::{
    asset_kind_for, ingest_sprite_sheet, register_sprite_atlas, AssetContainer, AssetDatabase,
    AssetKind, SpriteSheet, SpriteSheetConfig,
};

fn sheet_with_rows(rows: i32) -> SpriteSheet {
    SpriteSheet::new(100, 100, rows, 5)
}

#[test]
fn get_missing_returns_not_found_sentinel() {
    let db = AssetDatabase::new();
    let asset = db.get_asset(&"never registered".to_string());
    assert!(matches!(asset, AssetContainer::NotFound));
}

#[test]
fn get_returns_stored_asset() {
    let mut db = AssetDatabase::new();
    db.add_asset("tiles".to_string(), AssetContainer::Spritesheet(sheet_with_rows(2)));
    match db.get_asset(&"tiles".to_string()) {
        AssetContainer::Spritesheet(sheet) => assert_eq!(sheet.rows(), 2),
        _ => panic!("expected the stored sprite sheet"),
    }
}

#[test]
fn add_twice_overwrites_and_returns_previous() {
    let mut db = AssetDatabase::new();
    let first = db.add_asset("hero".to_string(), AssetContainer::Spritesheet(sheet_with_rows(2)));
    assert!(first.is_none());
    let second = db.add_asset("hero".to_string(), AssetContainer::Spritesheet(sheet_with_rows(4)));
    match second {
        Some(AssetContainer::Spritesheet(sheet)) => assert_eq!(sheet.rows(), 2),
        _ => panic!("the second add must hand back the first sheet"),
    }
    match db.get_asset(&"hero".to_string()) {
        AssetContainer::Spritesheet(sheet) => assert_eq!(sheet.rows(), 4),
        _ => panic!("the second add must win"),
    }
}

#[test]
fn enqueue_on_missing_asset_reports_false() {
    let mut db = AssetDatabase::new();
    assert!(!db.enqueue_on(&"ghost".to_string(), 0, 0, 1, 1));
}

#[test]
fn enqueue_on_sheet_lands_in_its_batch() {
    let mut db = AssetDatabase::new();
    db.add_asset("tiles".to_string(), AssetContainer::Spritesheet(sheet_with_rows(5)));
    assert!(db.enqueue_on(&"tiles".to_string(), 30, 40, 2, 3));
    let batches = db.flush_all_batches();
    assert_eq!(batches.len(), 1);
    assert_eq!(batches[0].0, "tiles");
    assert_eq!(batches[0].1.len(), 1);
    let command = batches[0].1[0];
    assert_eq!(command.x, 30);
    assert_eq!(command.y, 40);
    assert_eq!(command.source_x, 2 * 20);
    assert_eq!(command.source_y, 20);
}

#[test]
fn flush_all_batches_clears_every_batch() {
    let mut db = AssetDatabase::new();
    db.add_asset("a".to_string(), AssetContainer::Spritesheet(sheet_with_rows(5)));
    db.add_asset("b".to_string(), AssetContainer::Spritesheet(sheet_with_rows(5)));
    assert!(db.enqueue_on(&"a".to_string(), 1, 2, 1, 1));
    assert!(db.enqueue_on(&"b".to_string(), 3, 4, 1, 1));
    let batches = db.flush_all_batches();
    assert_eq!(batches.len(), 2);
    assert_ne!(batches[0].0, batches[1].0);
    for (_, batch) in &batches {
        assert_eq!(batch.len(), 1);
    }
    let again = db.flush_all_batches();
    assert_eq!(again.len(), 2);
    for (_, batch) in &again {
        assert!(batch.is_empty());
    }
}

#[test]
fn register_rejects_duplicate_identifier() {
    let mut db = AssetDatabase::new();
    assert!(register_sprite_atlas(&mut db, "hero".to_string(), sheet_with_rows(2)));
    assert!(!register_sprite_atlas(&mut db, "hero".to_string(), sheet_with_rows(4)));
    match db.get_asset(&"hero".to_string()) {
        AssetContainer::Spritesheet(sheet) => assert_eq!(sheet.rows(), 2),
        _ => panic!("the first registration must stay"),
    }
}

fn hero_config(asset_id: &str, rows: i32) -> SpriteSheetConfig {
    SpriteSheetConfig {
        asset_id: asset_id.to_string(),
        image_width: 96,
        image_height: 96,
        rows,
        columns: 3,
        animations: vec![("walk left".to_string(), vec![(1, 1), (1, 2), (1, 3)])],
    }
}

#[test]
fn ingest_loads_a_valid_record() {
    let mut db = AssetDatabase::new();
    assert!(ingest_sprite_sheet(&mut db, hero_config("hero", 3)));
    match db.get_asset(&"hero".to_string()) {
        AssetContainer::Spritesheet(sheet) => {
            assert_eq!(sheet.rows(), 3);
            assert_eq!(sheet.cell_width(), 32);
            let frames = sheet.get_animation(&"walk left".to_string());
            assert_eq!(frames, vec![(1, 1), (1, 2), (1, 3)]);
        }
        _ => panic!("expected the ingested sheet"),
    }
}

#[test]
fn ingest_rejects_duplicate_identifier() {
    let mut db = AssetDatabase::new();
    assert!(ingest_sprite_sheet(&mut db, hero_config("hero", 3)));
    assert!(!ingest_sprite_sheet(&mut db, hero_config("hero", 2)));
    match db.get_asset(&"hero".to_string()) {
        AssetContainer::Spritesheet(sheet) => assert_eq!(sheet.rows(), 3),
        _ => panic!("the first ingestion must stay"),
    }
}

#[test]
fn type_field_converts_to_a_typed_kind_at_the_boundary() {
    assert_eq!(asset_kind_for("sprite sheet"), Some(AssetKind::SpriteSheet));
    assert_eq!(asset_kind_for("Sprite Sheet"), None);
    assert_eq!(asset_kind_for("audio clip"), None);
    assert_eq!(asset_kind_for(""), None);
}

#[test]
fn ingest_rejects_unusable_grid() {
    let mut db = AssetDatabase::new();
    assert!(!ingest_sprite_sheet(&mut db, hero_config("bad", 0)));
    assert!(matches!(db.get_asset(&"bad".to_string()), AssetContainer::NotFound));
}
