//! End-to-end tests of the voxel synthesis pipeline on small hand-built
//! worlds.

use blockgen::block::{Block, Rgb, StructureBlock};
use blockgen::block_gen::BlockGen;
use blockgen::column::{ColumnAttributes, StructureCandidate};
use blockgen::field::RandomField;
use blockgen::noise::{noise2, noise3};
use blockgen::geom::{Vec2, Vec3};
use blockgen::template::Template;
use blockgen::world::WorldIndex;

const S: i64 = 10000;

fn far_candidates() -> [StructureCandidate; 9] {
    let mut out = [StructureCandidate { pos: Vec2::new(900_000, 900_000), seed: 0 }; 9];
    let mut i = 0;
    while i < 9 {
        out[i] = StructureCandidate {
            pos: Vec2::new(900_000 + i as i32, 900_000),
            seed: i as u32,
        };
        i += 1;
    }
    out
}

fn flat_column(alt_blocks: i64, chaos: i64, water_blocks: i64) -> ColumnAttributes {
    ColumnAttributes {
        alt: alt_blocks * S,
        chaos,
        water_level: water_blocks * S,
        surface_color: Rgb::new(0, 250, 30),
        sub_surface_color: Rgb::new(100, 50, 0),
        close_trees: far_candidates(),
        cave_xy: 0,
        cave_alt: 0,
        rock: 0,
        is_cliffs: false,
        near_cliffs: false,
        cliff_hill: 0,
        spawn_rate: 0,
        close_cliffs: far_candidates(),
    }
}

#[test]
fn concrete_scenario_bounds() {
    // Seed 0, altitude 100, chaos 0, water level 90, sea level 100, no
    // cliffs, no structures, no caves, no rock.
    let mut world = WorldIndex::new(0, 100 * S);
    world.insert_column(Vec2::new(3, 4), flat_column(100, 0, 90));
    let mut gen = BlockGen::new(world);
    let bounds = gen.column_bounds(Vec2::new(3, 4)).unwrap();
    assert_eq!(bounds.0, 96 * S);
    assert_eq!(bounds.1, 108 * S);
}

#[test]
fn concrete_scenario_voxels() {
    let mut world = WorldIndex::new(0, 100 * S);
    world.insert_column(Vec2::new(3, 4), flat_column(100, 0, 90));
    let mut gen = BlockGen::new(world);

    // Below the crust: hard underground stone, sub-surface color faded
    // toward stone by 0.525.
    let under = gen.voxel_at(Vec3::new(3, 4, 95), None).unwrap();
    assert_eq!(under.kind, 2);
    assert_eq!(under.color, Rgb::new(173, 144, 115));

    // Deep underground: still solid.
    let deep = gen.voxel_at(Vec3::new(3, 4, 80), None).unwrap();
    assert_eq!(deep.kind, 2);
    assert!(!deep.is_empty());

    // Inside the crust band (within 1.5 blocks of the height): soft
    // material, sub-surface blended toward the surface color under a
    // square-root ease.
    let crust = gen.voxel_at(Vec3::new(3, 4, 99), None).unwrap();
    assert_eq!(crust.kind, 1);
    assert_eq!(crust.color, Rgb::new(42, 165, 17));

    // Above the height and above the water table: air, but still an
    // answer (the column has data).
    let air = gen.voxel_at(Vec3::new(3, 4, 105), None).unwrap();
    assert!(air.is_empty());
    assert_eq!(air, Block::empty());
}

#[test]
fn ocean_layer() {
    // Water table above the terrain height: the gap is water.
    let mut world = WorldIndex::new(0, 0);
    world.insert_column(Vec2::new(0, 0), flat_column(100, 0, 104));
    let mut gen = BlockGen::new(world);
    let sea = gen.voxel_at(Vec3::new(0, 0, 102), None).unwrap();
    assert_eq!(sea.kind, 1);
    assert_eq!(sea.color, Rgb::new(100, 150, 255));
}

#[test]
fn no_data_propagation() {
    let mut world = WorldIndex::new(7, 0);
    world.insert_column(Vec2::new(0, 0), flat_column(10, 0, 0));
    let mut gen = BlockGen::new(world);
    assert!(gen.column_bounds(Vec2::new(50, 50)).is_none());
    assert!(gen.voxel_at(Vec3::new(50, 50, 0), None).is_none());
    assert!(gen.voxel_at(Vec3::new(50, 50, -1000), None).is_none());
    // The nearby column with data still answers.
    assert!(gen.column_bounds(Vec2::new(0, 0)).is_some());
}

#[test]
fn determinism_across_order_and_cache_state() {
    let mut world = WorldIndex::new(42, 0);
    for x in -3..3 {
        for y in -3..3 {
            world.insert_column(Vec2::new(x, y), flat_column(20 + x as i64, 8000, 10));
        }
    }
    let queries: Vec<Vec3> = (-3..3)
        .flat_map(|x| (-3..3).flat_map(move |y| (10..30).map(move |z| Vec3::new(x, y, z))))
        .collect();

    let mut gen1 = BlockGen::new(world_copy(42, 0));
    let mut gen2 = BlockGen::new(world_copy(42, 0));
    let forward: Vec<_> = queries.iter().map(|p| gen1.voxel_at(*p, None)).collect();
    let backward: Vec<_> = queries.iter().rev().map(|p| gen2.voxel_at(*p, None)).collect();
    let backward_reversed: Vec<_> = backward.into_iter().rev().collect();
    assert_eq!(forward, backward_reversed);

    // Repeating a query after many interleaved ones gives the same voxel.
    let first = gen1.voxel_at(Vec3::new(0, 0, 15), None);
    for p in &queries {
        gen1.voxel_at(*p, None);
    }
    assert_eq!(first, gen1.voxel_at(Vec3::new(0, 0, 15), None));

    fn world_copy(seed: u32, sea: i64) -> WorldIndex {
        let mut world = WorldIndex::new(seed, sea);
        for x in -3..3 {
            for y in -3..3 {
                world.insert_column(Vec2::new(x, y), flat_column(20 + x as i64, 8000, 10));
            }
        }
        world
    }
}

#[test]
fn precomputed_bundle_matches_fresh_computation() {
    let mut world = WorldIndex::new(9, 0);
    world.insert_column(Vec2::new(1, 2), flat_column(30, 5000, 10));
    let mut gen = BlockGen::new(world);
    let zc = gen.get_z_cache(Vec2::new(1, 2)).unwrap();
    for z in 0..40 {
        let with_bundle = gen.get_with_z_cache(Vec3::new(1, 2, z), Some(&zc));
        let fresh = gen.voxel_at(Vec3::new(1, 2, z), None);
        assert_eq!(with_bundle, fresh);
    }
    // With no bundle given, this entry point answers nothing at all.
    assert!(gen.get_with_z_cache(Vec3::new(1, 2, 5), None).is_none());
}

#[test]
fn cache_eviction_does_not_change_answers() {
    let mut world = WorldIndex::new(11, 0);
    for i in 0..70 {
        world.insert_column(Vec2::new(i, i), flat_column(15 + (i % 7) as i64, 3000, 5));
    }
    let mut evicting = BlockGen::new(copy_world());
    let early = evicting.voxel_at(Vec3::new(0, 0, 16), None);
    // Touch 70 columns: far more than the cache holds.
    for i in 0..70 {
        evicting.voxel_at(Vec3::new(i, i, 16), None);
    }
    assert_eq!(early, evicting.voxel_at(Vec3::new(0, 0, 16), None));

    let mut fresh = BlockGen::new(copy_world());
    assert_eq!(early, fresh.voxel_at(Vec3::new(0, 0, 16), None));

    fn copy_world() -> WorldIndex {
        let mut world = WorldIndex::new(11, 0);
        for i in 0..70 {
            world.insert_column(Vec2::new(i, i), flat_column(15 + (i % 7) as i64, 3000, 5));
        }
        world
    }
}

#[test]
fn cave_carving_is_empty_even_where_rock_would_fire() {
    // A column whose cave center sits right in the rock band above the
    // surface: carving wins, rock never appears in the carved cell.
    let mut carved_world = WorldIndex::new(0, 0);
    let mut col = flat_column(100, 0, 0);
    col.cave_xy = S;
    col.cave_alt = 102 * S;
    col.rock = S;
    carved_world.insert_column(Vec2::new(0, 0), col);
    let mut gen = BlockGen::new(carved_world);
    let voxel = gen.voxel_at(Vec3::new(0, 0, 102), None).unwrap();
    assert!(voxel.is_empty());

    // Control: the same column without the cave shows the rock.
    let mut rock_world = WorldIndex::new(0, 0);
    let mut col2 = flat_column(100, 0, 0);
    col2.rock = S;
    rock_world.insert_column(Vec2::new(0, 0), col2);
    let mut gen2 = BlockGen::new(rock_world);
    let rock = gen2.voxel_at(Vec3::new(0, 0, 102), None).unwrap();
    assert_eq!(rock.kind, 1);
    assert!(!rock.is_empty());
    // Mottled stone: every channel at or below the stone color.
    assert!(rock.color.r > 208 && rock.color.r <= 240);
    assert!(rock.color.g > 198 && rock.color.g <= 230);
    assert!(rock.color.b > 188 && rock.color.b <= 220);
}

/// Find a candidate seed that the resolver's seed-driven draw does not
/// veto.
fn growing_seed() -> u32 {
    (0..1000u32)
        .find(|s| RandomField::new(*s).get(Vec3::new(0, 0, 0)) % 4 != 0)
        .unwrap()
}

fn one_block_template(kind: u8) -> Template {
    Template {
        min: Vec3::new(0, 0, 0),
        size: Vec3::new(1, 1, 1),
        blocks: vec![Some(StructureBlock::Block(Block::new(kind, Rgb::new(1, 2, 3))))],
    }
}

fn structure_world(kind: u8) -> WorldIndex {
    let mut world = WorldIndex::new(0, 0);
    assert!(world.add_template(one_block_template(kind)));
    let mut col = flat_column(50, 0, 0);
    col.close_trees[0] = StructureCandidate { pos: Vec2::new(5, 5), seed: growing_seed() };
    world.insert_column(Vec2::new(5, 5), col);
    world
}

#[test]
fn structure_override_precedence() {
    // A resolved structure with a literal one-block template sits with its
    // origin cell exactly at the column's altitude.  The literal block is
    // returned verbatim, overriding the natural surface there.
    let mut gen = BlockGen::new(structure_world(7));
    let voxel = gen.voxel_at(Vec3::new(5, 5, 50), None).unwrap();
    assert_eq!(voxel, Block::new(7, Rgb::new(1, 2, 3)));

    // The natural material stands everywhere the template is absent.
    let above = gen.voxel_at(Vec3::new(5, 5, 52), None).unwrap();
    assert!(above.is_empty());
    let beside = gen.voxel_at(Vec3::new(6, 5, 50), None);
    // The neighboring column has no data at all.
    assert!(beside.is_none());
}

#[test]
fn structure_raises_upper_bound() {
    let mut gen = BlockGen::new(structure_world(7));
    let bounds = gen.column_bounds(Vec2::new(5, 5)).unwrap();
    // min = alt - 4; max = alt + template top (one block) + 8.
    assert_eq!(bounds.0, 46 * S);
    assert_eq!(bounds.1, 59 * S);
}

#[test]
fn empty_template_block_does_not_override() {
    // A literal template block that is itself empty counts as absent: the
    // natural answer stands.
    let mut gen = BlockGen::new(structure_world(0));
    let voxel = gen.voxel_at(Vec3::new(5, 5, 50), None).unwrap();
    // The natural layer at the altitude itself is the crust top; what
    // matters is that the empty literal did not win a slot.
    let mut gen_plain = BlockGen::new({
        let mut world = WorldIndex::new(0, 0);
        let mut col = flat_column(50, 0, 0);
        col.close_trees[0] = StructureCandidate { pos: Vec2::new(5, 5), seed: growing_seed() };
        world.insert_column(Vec2::new(5, 5), col);
        world
    });
    assert_eq!(Some(voxel), gen_plain.voxel_at(Vec3::new(5, 5, 50), None));
}

#[test]
fn voxels_above_declared_bounds_are_empty() {
    let mut world = WorldIndex::new(0, 100 * S);
    world.insert_column(Vec2::new(3, 4), flat_column(100, 0, 90));
    let mut gen = BlockGen::new(world);
    let bounds = gen.column_bounds(Vec2::new(3, 4)).unwrap();
    let top = (bounds.1 / S) as i32;
    for dz in 1..40 {
        let v = gen.voxel_at(Vec3::new(3, 4, top + dz), None).unwrap();
        assert!(v.is_empty());
    }
}

#[test]
fn leaf_roles_map_to_palette_blends() {
    let mut world = WorldIndex::new(0, 0);
    let t = Template {
        min: Vec3::new(0, 0, 0),
        size: Vec3::new(1, 1, 1),
        blocks: vec![Some(StructureBlock::TemperateLeaves)],
    };
    assert!(world.add_template(t));
    let mut col = flat_column(50, 0, 0);
    col.close_trees[0] = StructureCandidate { pos: Vec2::new(5, 5), seed: growing_seed() };
    world.insert_column(Vec2::new(5, 5), col);
    let mut gen = BlockGen::new(world);
    let leaf = gen.voxel_at(Vec3::new(5, 5, 50), None).unwrap();
    assert_eq!(leaf.kind, 1);
    // The blend stays between the palette endpoints channel by channel.
    assert!(leaf.color.r <= 120);
    assert!(leaf.color.g >= 80);
    assert!(leaf.color.b >= 10 && leaf.color.b <= 40);
}

#[test]
fn extreme_coordinates() {
    let mut world = WorldIndex::new(5, 0);
    world.insert_column(Vec2::new(0, 0), flat_column(10, 10000, 0));
    world.insert_column(Vec2::new(i32::MAX, i32::MIN), flat_column(10, 0, 0));
    let mut gen = BlockGen::new(world);

    // Far above and far below the world, the answers are still present
    // and sensible: air at the top of the range, settled ground at the
    // bottom.
    let sky = gen.voxel_at(Vec3::new(0, 0, i32::MAX), None).unwrap();
    assert!(sky.is_empty());
    let depths = gen.voxel_at(Vec3::new(0, 0, i32::MIN), None).unwrap();
    assert_eq!(depths.kind, 2);

    // A column at the far corner of the coordinate space works like any
    // other.
    let corner = gen
        .voxel_at(Vec3::new(i32::MAX, i32::MIN, 5), None)
        .unwrap();
    assert!(!corner.is_empty());
    assert!(gen.column_bounds(Vec2::new(i32::MAX, i32::MIN)).is_some());
    // And its neighbor, wrapping around the packed key space, has none.
    assert!(gen.column_bounds(Vec2::new(i32::MIN, i32::MIN)).is_none());
}

#[test]
fn cliff_neighbors_raise_terrain() {
    // Pick a cliff seed whose derived height and radius are comfortably
    // large, so the home column (which is its own close cliff here) falls
    // inside the cliff radius whatever the turbulence does.
    let seed = (0..10_000u32)
        .find(|s| {
            let h = RandomField::new(s.wrapping_add(1)).get(Vec3::new(0, 0, 0)) % 48;
            let radius = RandomField::new(s.wrapping_add(2)).get(Vec3::new(0, 0, 0)) % 48 + 8;
            h >= 20 && radius >= 12
        })
        .unwrap();
    let h = (RandomField::new(seed.wrapping_add(1)).get(Vec3::new(0, 0, 0)) % 48) as i64;

    let mut world = WorldIndex::new(3, 0);
    let mut col = flat_column(10, 0, 0);
    col.is_cliffs = true;
    col.spawn_rate = S;
    col.near_cliffs = true;
    col.close_cliffs[0] = StructureCandidate { pos: Vec2::new(0, 0), seed };
    world.insert_column(Vec2::new(0, 0), col);
    let mut gen = BlockGen::new(world);

    // Without the cliff this height would be far above the terrain; the
    // cliff contribution (altitude + height, chaos zero) makes it ground.
    let lifted = gen.voxel_at(Vec3::new(0, 0, 10 + (h / 2) as i32), None).unwrap();
    assert!(!lifted.is_empty());
    // Far above the cliff top the air returns.
    let above = gen.voxel_at(Vec3::new(0, 0, 10 + h as i32 + 20), None).unwrap();
    assert!(above.is_empty());
    // The near-cliffs flag widens the declared bounds accordingly.
    let bounds = gen.column_bounds(Vec2::new(0, 0)).unwrap();
    assert_eq!(bounds.1, (10 + 48 + 8) * S);
}

#[test]
fn noise_fields_are_unit_fractions_and_deterministic() {
    for i in -5..5 {
        let p = Vec3::new(i * 37, -i * 91, i * 13);
        let a = noise3(77, p, 150);
        let b = noise3(77, p, 150);
        assert_eq!(a, b);
        assert!((0..=10000).contains(&a));
        let c = noise2(77, p.x, p.y, 48);
        assert!((0..=10000).contains(&c));
    }
}

#[test]
fn hash_field_is_deterministic_and_spread() {
    let f = RandomField::new(123);
    let a = f.get(Vec3::new(1, 2, 3));
    let b = f.get(Vec3::new(1, 2, 3));
    assert_eq!(a, b);
    let c = f.get(Vec3::new(1, 2, 4));
    let d = f.get(Vec3::new(-1, 2, 3));
    assert!(a != c || a != d);
}
