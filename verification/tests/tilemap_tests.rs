use dungeon_dice::mathx::Vec3Fx;
use dungeon_dice::tilemap::{
    create_tilemap, layer_height, listen_spawn_tile_from_id, pixels_to_world,
    process_tile_layer, static_ceiling_params, MaterialName, SpawnTileFromIdEvent, ZLayer,
};

#[test]
fn layer_heights() {
    assert_eq!(layer_height(ZLayer::Floor), -2_000);
    assert_eq!(layer_height(ZLayer::Wall), 2_000);
    assert_eq!(layer_height(ZLayer::Ceiling), 6_000);
}

#[test]
fn pixels_convert_to_world() {
    let p = pixels_to_world(16, 32);
    // one tile of 16 pixels spans 4 units, offset back by half a tile
    assert_eq!(p, Vec3Fx { x: 2_000, y: -2_000, z: 6_000 });
    let origin = pixels_to_world(0, 0);
    assert_eq!(origin, Vec3Fx { x: -2_000, y: -2_000, z: -2_000 });
}

#[test]
fn layer_processing_records_ids_and_spawns_non_air() {
    let tiles: Vec<Vec<Option<u32>>> = vec![
        vec![Some(1), None, Some(0)],
        vec![Some(2)],
    ];
    let (ids, spawns) = process_tile_layer(&tiles, ZLayer::Wall);
    assert_eq!(ids, vec![1, 0, 2]);
    assert_eq!(
        spawns,
        vec![
            SpawnTileFromIdEvent {
                tile_id: 1,
                position: Vec3Fx { x: 0, y: 2_000, z: 0 },
                layer: ZLayer::Wall,
            },
            SpawnTileFromIdEvent {
                tile_id: 2,
                position: Vec3Fx { x: 4_000, y: 2_000, z: 0 },
                layer: ZLayer::Wall,
            },
        ]
    );
}

#[test]
fn empty_layer_produces_nothing() {
    let tiles: Vec<Vec<Option<u32>>> = vec![];
    let (ids, spawns) = process_tile_layer(&tiles, ZLayer::Floor);
    assert!(ids.is_empty());
    assert!(spawns.is_empty());
}

#[test]
fn tile_ids_map_to_materials() {
    let ev = |id: u32| SpawnTileFromIdEvent {
        tile_id: id,
        position: Vec3Fx { x: 0, y: 0, z: 0 },
        layer: ZLayer::Floor,
    };
    assert!(listen_spawn_tile_from_id(&ev(0)).is_none());
    assert_eq!(
        listen_spawn_tile_from_id(&ev(1)).unwrap().material,
        MaterialName::MossyCobble
    );
    assert_eq!(
        listen_spawn_tile_from_id(&ev(2)).unwrap().material,
        MaterialName::Brick
    );
    let cobble = listen_spawn_tile_from_id(&ev(3)).unwrap();
    assert_eq!(cobble.material, MaterialName::Cobble);
    assert_eq!(cobble.collider_half_extent_milli, 2_000);
    assert!(listen_spawn_tile_from_id(&ev(4)).is_none());
}

#[test]
fn whole_map_concatenates_layers_in_order() {
    let floor: Vec<Vec<Option<u32>>> = vec![vec![Some(3)]];
    let wall: Vec<Vec<Option<u32>>> = vec![vec![Some(2)]];
    let ceiling: Vec<Vec<Option<u32>>> = vec![vec![Some(1)]];
    let (map, spawns) = create_tilemap(&floor, &wall, &ceiling);
    assert_eq!(map.floor, vec![3]);
    assert_eq!(map.wall, vec![2]);
    assert_eq!(map.ceiling, vec![1]);
    assert_eq!(spawns.len(), 3);
    assert_eq!(spawns[0].layer, ZLayer::Floor);
    assert_eq!(spawns[0].position.y, -2_000);
    assert_eq!(spawns[1].layer, ZLayer::Wall);
    assert_eq!(spawns[1].position.y, 2_000);
    assert_eq!(spawns[2].layer, ZLayer::Ceiling);
    assert_eq!(spawns[2].position.y, 6_000);
}

#[test]
fn static_ceiling_covers_the_grid() {
    let (center, collider) = static_ceiling_params(10, 8);
    assert_eq!(center, Vec3Fx { x: 20_000, y: 8_000, z: 16_000 });
    assert_eq!(collider, Vec3Fx { x: 40_000, y: 200, z: 32_000 });
}
