//! Tile-map processing: turning an authored grid of tile ids into world
//! positions and spawn instructions, one layer (floor, wall, ceiling) at a
//! time. Reading the authored map file is the surrounding application's
//! concern; the grid arrives here as plain values.

use vstd::prelude::*;

verus! {

use crate::mathx::Vec3Fx;

/// World size of one tile: 4 units, in milli-units.
pub const TILE_SIZE_MILLI: i64 = 4_000;

/// Source-image pixels per tile.
pub const TILE_SIZE_PIXELS: i64 = 16;

/// World milli-units per source pixel: the tile size spread over the pixels
/// of one tile.
pub const MILLI_PER_PIXEL: i64 = 250;

/// Grids are bounded so every tile coordinate times the tile size fits
/// comfortably in `i64`.
pub const MAX_GRID_DIM: usize = 1_000_000;

/// The materials a tile or prop can be drawn with.
#[derive(Clone, Copy, PartialEq, Eq, Structural, Debug, Hash)]
pub enum MaterialName {
    Cobble,
    MossyCobble,
    Brick,
    RoughStone,
    Dice,
}

/// Which vertical layer of the map a tile belongs to.
#[derive(Clone, Copy, PartialEq, Eq, Structural, Debug)]
pub enum ZLayer {
    Floor,
    Wall,
    Ceiling,
}

/// The height at which a layer's tiles sit: floor tiles half a tile down,
/// wall tiles half a tile up, ceiling tiles one and a half tiles up.
pub open spec fn spec_layer_height(z: ZLayer) -> int {
    match z {
        ZLayer::Floor => -(TILE_SIZE_MILLI as int) / 2,
        ZLayer::Wall => TILE_SIZE_MILLI as int / 2,
        ZLayer::Ceiling => TILE_SIZE_MILLI as int + TILE_SIZE_MILLI as int / 2,
    }
}

pub fn layer_height(z: ZLayer) -> (h: i64)
    ensures
        h == spec_layer_height(z),
{
    match z {
        ZLayer::Floor => -2_000,
        ZLayer::Wall => 2_000,
        ZLayer::Ceiling => 6_000,
    }
}

/// Convert a pixel coordinate in the authored map image to a world
/// position on the floor plane.
pub fn pixels_to_world(pix_x: i64, pix_y: i64) -> (r: Vec3Fx)
    requires
        -1_000_000_000 <= pix_x <= 1_000_000_000,
        -1_000_000_000 <= pix_y <= 1_000_000_000,
    ensures
        r.x == pix_x * MILLI_PER_PIXEL - TILE_SIZE_MILLI / 2,
        r.y == -TILE_SIZE_MILLI / 2,
        r.z == pix_y * MILLI_PER_PIXEL - TILE_SIZE_MILLI / 2,
{
    Vec3Fx {
        x: pix_x * MILLI_PER_PIXEL - TILE_SIZE_MILLI / 2,
        y: -(TILE_SIZE_MILLI / 2),
        z: pix_y * MILLI_PER_PIXEL - TILE_SIZE_MILLI / 2,
    }
}

/// An instruction to spawn the tile with a given id at a world position.
#[derive(Clone, Copy, PartialEq, Eq, Structural, Debug)]
pub struct SpawnTileFromIdEvent {
    pub tile_id: u32,
    pub position: Vec3Fx,
    pub layer: ZLayer,
}

/// The world position of the tile at grid cell `(x, y)` on a layer.
pub open spec fn spec_tile_world_pos(x: int, y: int, z: ZLayer) -> Vec3Fx {
    Vec3Fx {
        x: (x * TILE_SIZE_MILLI) as i64,
        y: spec_layer_height(z) as i64,
        z: (y * TILE_SIZE_MILLI) as i64,
    }
}

/// The ids recorded for one column of cells: present cells in order,
/// absent cells skipped.
pub open spec fn spec_column_ids(col: Seq<Option<u32>>) -> Seq<u32>
    decreases col.len(),
{
    if col.len() == 0 {
        Seq::empty()
    } else {
        match col[0] {
            None => spec_column_ids(col.skip(1)),
            Some(id) => seq![id] + spec_column_ids(col.skip(1)),
        }
    }
}

/// The spawn instructions for one column of cells starting at row `y`:
/// one per present cell whose id is not the air id (0), at its world
/// position.
pub open spec fn spec_column_spawns(col: Seq<Option<u32>>, x: int, y: int, z: ZLayer) -> Seq<
    SpawnTileFromIdEvent,
>
    decreases col.len(),
{
    if col.len() == 0 {
        Seq::empty()
    } else {
        let rest = spec_column_spawns(col.skip(1), x, y + 1, z);
        match col[0] {
            None => rest,
            Some(id) => if id >= 1 {
                seq![
                    SpawnTileFromIdEvent { tile_id: id, position: spec_tile_world_pos(x, y, z), layer: z },
                ] + rest
            } else {
                rest
            },
        }
    }
}

/// All ids recorded for a whole layer, column by column.
pub open spec fn spec_layer_ids(cols: Seq<Seq<Option<u32>>>) -> Seq<u32>
    decreases cols.len(),
{
    if cols.len() == 0 {
        Seq::empty()
    } else {
        spec_column_ids(cols[0]) + spec_layer_ids(cols.skip(1))
    }
}

/// All spawn instructions for a whole layer whose first column sits at
/// grid column `x`.
pub open spec fn spec_layer_spawns(cols: Seq<Seq<Option<u32>>>, x: int, z: ZLayer) -> Seq<
    SpawnTileFromIdEvent,
>
    decreases cols.len(),
{
    if cols.len() == 0 {
        Seq::empty()
    } else {
        spec_column_spawns(cols[0], x, 0, z) + spec_layer_spawns(cols.skip(1), x + 1, z)
    }
}

/// The grid seen as a sequence of columns of cells.
pub open spec fn spec_grid(tiles: Vec<Vec<Option<u32>>>) -> Seq<Seq<Option<u32>>> {
    tiles@.map(|i: int, c: Vec<Option<u32>>| c@)
}

/// Process one layer's grid: record every present tile id, and emit a
/// spawn instruction at the right world position for every non-air tile.
pub fn process_tile_layer(tiles: &Vec<Vec<Option<u32>>>, z_layer: ZLayer) -> (r: (
    Vec<u32>,
    Vec<SpawnTileFromIdEvent>,
))
    requires
        tiles@.len() <= MAX_GRID_DIM,
        forall|i: int| 0 <= i < tiles@.len() ==> (#[trigger] tiles@[i])@.len() <= MAX_GRID_DIM,
    ensures
        r.0@ == spec_layer_ids(spec_grid(*tiles)),
        r.1@ == spec_layer_spawns(spec_grid(*tiles), 0, z_layer),
{
    let ghost grid = spec_grid(*tiles);
    let mut ids: Vec<u32> = Vec::new();
    let mut spawns: Vec<SpawnTileFromIdEvent> = Vec::new();
    let mut x: usize = 0;
    proof {
        assert(grid.skip(0) =~= grid);
    }
    while x < tiles.len()
        invariant
            x <= tiles@.len(),
            tiles@.len() <= MAX_GRID_DIM,
            forall|i: int| 0 <= i < tiles@.len() ==> (#[trigger] tiles@[i])@.len() <= MAX_GRID_DIM,
            grid == spec_grid(*tiles),
            spec_layer_ids(grid) == ids@ + spec_layer_ids(grid.skip(x as int)),
            spec_layer_spawns(grid, 0, z_layer) == spawns@ + spec_layer_spawns(
                grid.skip(x as int),
                x as int,
                z_layer,
            ),
        decreases tiles@.len() - x,
    {
        let col = &tiles[x];
        let ghost colv = grid[x as int];
        proof {
            assert(colv == col@);
            assert(grid.skip(x as int)[0] == grid[x as int]);
            assert(grid.skip(x as int).skip(1) =~= grid.skip(x as int + 1));
            assert(spec_layer_ids(grid.skip(x as int)) == spec_column_ids(colv) + spec_layer_ids(
                grid.skip(x as int + 1),
            ));
            assert(spec_layer_spawns(grid.skip(x as int), x as int, z_layer) == spec_column_spawns(
                colv,
                x as int,
                0,
                z_layer,
            ) + spec_layer_spawns(grid.skip(x as int + 1), x as int + 1, z_layer));
            assert(colv.skip(0) =~= colv);
        }
        let h = layer_height(z_layer);
        let mut y: usize = 0;
        while y < col.len()
            invariant
                y <= colv.len(),
                colv == col@,
                colv.len() <= MAX_GRID_DIM,
                x < tiles@.len() <= MAX_GRID_DIM,
                grid == spec_grid(*tiles),
                colv == grid[x as int],
                h == spec_layer_height(z_layer),
                spec_layer_ids(grid) == ids@ + spec_column_ids(colv.skip(y as int))
                    + spec_layer_ids(grid.skip(x as int + 1)),
                spec_layer_spawns(grid, 0, z_layer) == spawns@ + spec_column_spawns(
                    colv.skip(y as int),
                    x as int,
                    y as int,
                    z_layer,
                ) + spec_layer_spawns(grid.skip(x as int + 1), x as int + 1, z_layer),
            decreases colv.len() - y,
        {
            proof {
                assert(colv.skip(y as int)[0] == colv[y as int]);
                assert(colv.skip(y as int).skip(1) =~= colv.skip(y as int + 1));
            }
            match col[y] {
                None => {},
                Some(tile_id) => {
                    let ghost ids_old = ids@;
                    ids.push(tile_id);
                    proof {
                        assert(ids@ =~= ids_old + seq![tile_id]);
                        assert(ids_old + (seq![tile_id] + spec_column_ids(
                            colv.skip(y as int + 1),
                        )) =~= (ids_old + seq![tile_id]) + spec_column_ids(
                            colv.skip(y as int + 1),
                        ));
                        assert((ids_old + seq![tile_id]) + (spec_column_ids(
                            colv.skip(y as int + 1),
                        ) + spec_layer_ids(grid.skip(x as int + 1))) =~= ((ids_old + seq![
                            tile_id,
                        ]) + spec_column_ids(colv.skip(y as int + 1))) + spec_layer_ids(
                            grid.skip(x as int + 1),
                        ));
                        assert(ids_old + (spec_column_ids(colv.skip(y as int)) + spec_layer_ids(
                            grid.skip(x as int + 1),
                        )) =~= (ids_old + spec_column_ids(colv.skip(y as int))) + spec_layer_ids(
                            grid.skip(x as int + 1),
                        ));
                    }
                    if tile_id >= 1 {
                        let position = Vec3Fx {
                            x: (x as i64) * TILE_SIZE_MILLI,
                            y: h,
                            z: (y as i64) * TILE_SIZE_MILLI,
                        };
                        let ev = SpawnTileFromIdEvent { tile_id, position, layer: z_layer };
                        let ghost spawns_old = spawns@;
                        spawns.push(ev);
                        proof {
                            assert(ev == spec_column_spawns(colv.skip(y as int), x as int,
                                y as int, z_layer)[0]);
                            assert(spawns@ =~= spawns_old + seq![ev]);
                            assert(spawns_old + (seq![ev] + spec_column_spawns(
                                colv.skip(y as int + 1),
                                x as int,
                                y as int + 1,
                                z_layer,
                            )) =~= (spawns_old + seq![ev]) + spec_column_spawns(
                                colv.skip(y as int + 1),
                                x as int,
                                y as int + 1,
                                z_layer,
                            ));
                            assert((spawns_old + seq![ev]) + (spec_column_spawns(
                                colv.skip(y as int + 1),
                                x as int,
                                y as int + 1,
                                z_layer,
                            ) + spec_layer_spawns(grid.skip(x as int + 1), x as int + 1, z_layer))
                                =~= ((spawns_old + seq![ev]) + spec_column_spawns(
                                colv.skip(y as int + 1),
                                x as int,
                                y as int + 1,
                                z_layer,
                            )) + spec_layer_spawns(grid.skip(x as int + 1), x as int + 1, z_layer));
                            assert(spawns_old + (spec_column_spawns(
                                colv.skip(y as int),
                                x as int,
                                y as int,
                                z_layer,
                            ) + spec_layer_spawns(grid.skip(x as int + 1), x as int + 1, z_layer))
                                =~= (spawns_old + spec_column_spawns(
                                colv.skip(y as int),
                                x as int,
                                y as int,
                                z_layer,
                            )) + spec_layer_spawns(grid.skip(x as int + 1), x as int + 1, z_layer));
                        }
                    } else {
                        proof {
                            assert(spec_column_spawns(colv.skip(y as int), x as int, y as int,
                                z_layer) == spec_column_spawns(colv.skip(y as int + 1), x as int,
                                y as int + 1, z_layer));
                        }
                    }
                },
            }
            y = y + 1;
        }
        proof {
            assert(colv.skip(y as int) =~= Seq::<Option<u32>>::empty());
            assert(spec_column_ids(colv.skip(y as int)) =~= Seq::<u32>::empty());
            assert(spec_column_spawns(colv.skip(y as int), x as int, y as int, z_layer)
                =~= Seq::<SpawnTileFromIdEvent>::empty());
            assert(ids@ + (Seq::<u32>::empty() + spec_layer_ids(grid.skip(x as int + 1))) =~= ids@
                + spec_layer_ids(grid.skip(x as int + 1)));
            assert(spawns@ + (Seq::<SpawnTileFromIdEvent>::empty() + spec_layer_spawns(
                grid.skip(x as int + 1),
                x as int + 1,
                z_layer,
            )) =~= spawns@ + spec_layer_spawns(grid.skip(x as int + 1), x as int + 1, z_layer));
        }
        x = x + 1;
    }
    proof {
        assert(grid.skip(x as int) =~= Seq::<Seq<Option<u32>>>::empty());
        assert(ids@ + Seq::<u32>::empty() =~= ids@);
        assert(spawns@ + Seq::<SpawnTileFromIdEvent>::empty() =~= spawns@);
    }
    (ids, spawns)
}

/// The material drawn for a tile id: 1 is mossy cobblestone, 2 is brick,
/// 3 is cobblestone; 0 is air and anything else is unknown, neither of
/// which spawns a tile.
pub open spec fn spec_material_for_tile(id: u32) -> Option<MaterialName> {
    if id == 1 {
        Some(MaterialName::MossyCobble)
    } else if id == 2 {
        Some(MaterialName::Brick)
    } else if id == 3 {
        Some(MaterialName::Cobble)
    } else {
        None
    }
}

/// An instruction to place one cube tile: its material, world position and
/// the half-extent of its collider.
#[derive(Clone, Copy, PartialEq, Eq, Structural, Debug)]
pub struct TileSpawn {
    pub material: MaterialName,
    pub position: Vec3Fx,
    pub collider_half_extent_milli: i64,
}

/// Decide what one spawn instruction places: a cube with the material the
/// tile id names and a collider of half a tile, or nothing for air and
/// unknown ids.
pub fn listen_spawn_tile_from_id(ev: &SpawnTileFromIdEvent) -> (r: Option<TileSpawn>)
    ensures
        (r is Some) == (spec_material_for_tile(ev.tile_id) is Some),
        r matches Some(t) ==> {
            &&& Some(t.material) == spec_material_for_tile(ev.tile_id)
            &&& t.position == ev.position
            &&& t.collider_half_extent_milli == TILE_SIZE_MILLI / 2
        },
{
    let material = if ev.tile_id == 1 {
        Some(MaterialName::MossyCobble)
    } else if ev.tile_id == 2 {
        Some(MaterialName::Brick)
    } else if ev.tile_id == 3 {
        Some(MaterialName::Cobble)
    } else {
        None
    };
    match material {
        None => None,
        Some(m) => Some(
            TileSpawn {
                material: m,
                position: ev.position,
                collider_half_extent_milli: TILE_SIZE_MILLI / 2,
            },
        ),
    }
}

/// The recorded tile ids of the three authored layers.
#[derive(Clone, PartialEq, Eq, Debug)]
pub struct TileMap {
    pub floor: Vec<u32>,
    pub wall: Vec<u32>,
    pub ceiling: Vec<u32>,
}

/// Build the tile map from the three authored grids, producing the spawn
/// instructions of all three layers in order (floor, wall, ceiling).
pub fn create_tilemap(
    floor: &Vec<Vec<Option<u32>>>,
    wall: &Vec<Vec<Option<u32>>>,
    ceiling: &Vec<Vec<Option<u32>>>,
) -> (r: (TileMap, Vec<SpawnTileFromIdEvent>))
    requires
        floor@.len() <= MAX_GRID_DIM,
        forall|i: int| 0 <= i < floor@.len() ==> (#[trigger] floor@[i])@.len() <= MAX_GRID_DIM,
        wall@.len() <= MAX_GRID_DIM,
        forall|i: int| 0 <= i < wall@.len() ==> (#[trigger] wall@[i])@.len() <= MAX_GRID_DIM,
        ceiling@.len() <= MAX_GRID_DIM,
        forall|i: int| 0 <= i < ceiling@.len() ==> (#[trigger] ceiling@[i])@.len() <= MAX_GRID_DIM,
    ensures
        r.0.floor@ == spec_layer_ids(spec_grid(*floor)),
        r.0.wall@ == spec_layer_ids(spec_grid(*wall)),
        r.0.ceiling@ == spec_layer_ids(spec_grid(*ceiling)),
        r.1@ == spec_layer_spawns(spec_grid(*floor), 0, ZLayer::Floor) + spec_layer_spawns(
            spec_grid(*wall),
            0,
            ZLayer::Wall,
        ) + spec_layer_spawns(spec_grid(*ceiling), 0, ZLayer::Ceiling),
{
    let (floor_ids, mut spawns) = process_tile_layer(floor, ZLayer::Floor);
    let (wall_ids, mut wall_spawns) = process_tile_layer(wall, ZLayer::Wall);
    let (ceiling_ids, mut ceiling_spawns) = process_tile_layer(ceiling, ZLayer::Ceiling);
    spawns.append(&mut wall_spawns);
    spawns.append(&mut ceiling_spawns);
    (TileMap { floor: floor_ids, wall: wall_ids, ceiling: ceiling_ids }, spawns)
}

/// The fixed ceiling slab over the whole map: centered above the grid,
/// with a collider covering it.
pub fn static_ceiling_params(width: u32, height: u32) -> (r: (Vec3Fx, Vec3Fx))
    ensures
        r.0 == (Vec3Fx {
            x: (width * 2_000) as i64,
            y: (2 * TILE_SIZE_MILLI) as i64,
            z: (height * 2_000) as i64,
        }),
        r.1 == (Vec3Fx {
            x: (width * TILE_SIZE_MILLI) as i64,
            y: 200i64,
            z: (height * TILE_SIZE_MILLI) as i64,
        }),
{
    (
        Vec3Fx {
            x: (width as i64) * 2_000,
            y: 2 * TILE_SIZE_MILLI,
            z: (height as i64) * 2_000,
        },
        Vec3Fx {
            x: (width as i64) * TILE_SIZE_MILLI,
            y: 200,
            z: (height as i64) * TILE_SIZE_MILLI,
        },
    )
}

} // verus!
