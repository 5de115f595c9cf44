//! The scene: a portal of blocks on a stepped base, over a lawn.

use vstd::prelude::*;
use std::rc::Rc;
use crate::color::Color;
use crate::cube::Cube;
use crate::material::Material;
use crate::scalar::Scalar;
use crate::shape::Shape;
use crate::square::Square;
use crate::texture::Texture;
use crate::vector::Vec3;

verus! {

pub const PURPLE: usize = 0;

pub const OBSIDIAN: usize = 1;

pub const STONE: usize = 2;

pub const NETHERRACK: usize = 3;

pub const GOLD_BLOCK: usize = 4;

pub const STONE_BRICKS: usize = 5;

pub const CHISELED_STONE_BRICKS: usize = 6;

pub const GRASS: usize = 7;

/// The materials of the scene, by number: base colour, specular exponent in
/// tenths, the four albedo weights in thousandths, and the colour of the
/// glow.
pub const PALETTE: [((u8, u8, u8), i64, (i64, i64, i64, i64), (u8, u8, u8)); 8] = [
    ((160, 0, 190), 800, (700, 500, 600, 0), (75, 0, 90)),
    ((30, 30, 30), 800, (600, 400, 300, 0), (0, 0, 0)),
    ((128, 128, 128), 2, (700, 700, 700, 0), (0, 0, 0)),
    ((150, 0, 0), 700, (700, 200, 100, 0), (0, 0, 0)),
    ((255, 215, 0), 10, (1000, 843, 0, 0), (0, 0, 0)),
    ((180, 180, 180), 900, (900, 500, 300, 0), (0, 0, 0)),
    ((220, 220, 220), 850, (800, 600, 400, 0), (0, 0, 0)),
    ((0, 255, 0), 1, (400, 600, 500, 0), (0, 0, 0)),
];

/// Edge length of every block, in tenths.
pub const BLOCK_SIZE: i64 = 4;

/// The blocks of the scene in the order in which rays test them: the
/// centre of each in tenths, and the number of its material.
pub const CUBE_DATA: [(i64, i64, i64, usize); 64] = [
    (-22, 24, -50, PURPLE),
    (-18, 24, -50, PURPLE),
    (-22, 28, -50, PURPLE),
    (-18, 28, -50, PURPLE),
    (-22, 32, -50, PURPLE),
    (-18, 32, -50, PURPLE),
    (-14, 20, -46, OBSIDIAN),
    (-14, 24, -46, OBSIDIAN),
    (-14, 28, -46, OBSIDIAN),
    (-14, 32, -46, OBSIDIAN),
    (-14, 36, -46, OBSIDIAN),
    (-18, 20, -46, OBSIDIAN),
    (-22, 20, -46, OBSIDIAN),
    (-26, 20, -46, OBSIDIAN),
    (-26, 24, -46, OBSIDIAN),
    (-26, 28, -46, OBSIDIAN),
    (-26, 32, -46, OBSIDIAN),
    (-26, 36, -46, OBSIDIAN),
    (-18, 36, -46, OBSIDIAN),
    (-22, 36, -46, OBSIDIAN),
    (-6, 20, -42, GOLD_BLOCK),
    (-6, 16, -42, NETHERRACK),
    (-10, 16, -42, STONE),
    (-14, 16, -38, STONE),
    (-18, 16, -38, STONE),
    (-22, 16, -38, STONE),
    (-26, 16, -38, STONE),
    (-30, 16, -42, STONE),
    (-34, 16, -42, NETHERRACK),
    (-34, 20, -42, GOLD_BLOCK),
    (-6, 8, -38, NETHERRACK),
    (-6, 12, -38, NETHERRACK),
    (-10, 12, -38, STONE),
    (-14, 12, -34, STONE),
    (-18, 12, -34, STONE),
    (-22, 12, -34, STONE),
    (-26, 12, -34, STONE),
    (-30, 12, -38, STONE),
    (-34, 12, -38, NETHERRACK),
    (-34, 8, -38, NETHERRACK),
    (-10, 20, -46, STONE_BRICKS),
    (-10, 24, -46, CHISELED_STONE_BRICKS),
    (-10, 28, -46, STONE_BRICKS),
    (-10, 32, -46, CHISELED_STONE_BRICKS),
    (-10, 36, -46, STONE_BRICKS),
    (-10, 40, -46, STONE_BRICKS),
    (-30, 20, -46, STONE_BRICKS),
    (-30, 24, -46, CHISELED_STONE_BRICKS),
    (-30, 28, -46, STONE_BRICKS),
    (-30, 32, -46, CHISELED_STONE_BRICKS),
    (-30, 36, -46, STONE_BRICKS),
    (-30, 40, -46, STONE_BRICKS),
    (-26, 40, -46, CHISELED_STONE_BRICKS),
    (-22, 40, -46, GOLD_BLOCK),
    (-18, 40, -46, GOLD_BLOCK),
    (-14, 40, -46, CHISELED_STONE_BRICKS),
    (-22, 42, -44, CHISELED_STONE_BRICKS),
    (-18, 42, -44, CHISELED_STONE_BRICKS),
    (-10, 8, -34, NETHERRACK),
    (-14, 8, -34, NETHERRACK),
    (-18, 8, -34, NETHERRACK),
    (-22, 8, -34, NETHERRACK),
    (-26, 8, -34, NETHERRACK),
    (-30, 8, -34, NETHERRACK),
];

/// The lawn: its centre and the length of its side, in tenths.
pub const GROUND: (i64, i64, i64, i64) = (-20, 7, -40, 100);

/// The images that the textured materials of the scene wear.
pub struct DioramaTextures {
    pub obsidian: Texture,
    pub stone: Texture,
    pub netherrack: Texture,
    pub gold_block: Texture,
    pub stone_bricks: Texture,
    pub chiseled_stone_bricks: Texture,
}

impl DioramaTextures {
    /// The texture of the material with number `kind`, if it has one.
    pub open spec fn texture_for(self, kind: int) -> Option<Rc<Texture>> {
        if kind == OBSIDIAN {
            Some(Rc::new(self.obsidian))
        } else if kind == STONE {
            Some(Rc::new(self.stone))
        } else if kind == NETHERRACK {
            Some(Rc::new(self.netherrack))
        } else if kind == GOLD_BLOCK {
            Some(Rc::new(self.gold_block))
        } else if kind == STONE_BRICKS {
            Some(Rc::new(self.stone_bricks))
        } else if kind == CHISELED_STONE_BRICKS {
            Some(Rc::new(self.chiseled_stone_bricks))
        } else {
            None
        }
    }
}

/// The material with number `kind`, wearing `texture`.
pub open spec fn spec_material(kind: int, texture: Option<Rc<Texture>>) -> Material {
    let entry = PALETTE[kind];
    Material {
        diffuse: Color::spec_new(entry.0.0, entry.0.1, entry.0.2),
        specular: Scalar::spec_from_ratio(entry.1, 10),
        albedo: [
            Scalar::spec_from_ratio(entry.2.0, 1000),
            Scalar::spec_from_ratio(entry.2.1, 1000),
            Scalar::spec_from_ratio(entry.2.2, 1000),
            Scalar::spec_from_ratio(entry.2.3, 1000),
        ],
        refractive_index: Scalar::spec_zero(),
        texture,
        emissive_color: Color::spec_new(entry.3.0, entry.3.1, entry.3.2),
    }
}

/// The point with the given coordinates in tenths.
pub open spec fn spec_tenths(x: i64, y: i64, z: i64) -> Vec3 {
    Vec3 {
        x: Scalar::spec_from_ratio(x, 10),
        y: Scalar::spec_from_ratio(y, 10),
        z: Scalar::spec_from_ratio(z, 10),
    }
}

/// Block `i` of the scene.
pub open spec fn spec_block(i: int, textures: DioramaTextures) -> Cube {
    let entry = CUBE_DATA[i];
    Cube {
        center: spec_tenths(entry.0, entry.1, entry.2),
        size: Scalar::spec_from_ratio(BLOCK_SIZE, 10),
        material: Rc::new(spec_material(entry.3 as int, textures.texture_for(entry.3 as int))),
    }
}

/// The lawn under the blocks.
pub open spec fn spec_ground() -> Square {
    Square {
        center: spec_tenths(GROUND.0, GROUND.1, GROUND.2),
        size: Scalar::spec_from_ratio(GROUND.3, 10),
        material: Rc::new(spec_material(GRASS as int, None)),
    }
}

/// The whole scene: the blocks in the order of `CUBE_DATA`, then the lawn.
pub open spec fn spec_diorama(textures: DioramaTextures) -> Seq<Shape> {
    Seq::new(
        65,
        |i: int|
            if i < 64 {
                Shape::Cube(spec_block(i, textures))
            } else {
                Shape::Square(spec_ground())
            },
    )
}

fn material(kind: usize, texture: Option<Rc<Texture>>) -> (m: Material)
    requires
        kind < 8,
    ensures
        m == spec_material(kind as int, texture),
{
    let entry = PALETTE[kind];
    Material::new(
        Color::new(entry.0.0, entry.0.1, entry.0.2),
        Scalar::from_ratio(entry.1, 10),
        [
            Scalar::from_ratio(entry.2.0, 1000),
            Scalar::from_ratio(entry.2.1, 1000),
            Scalar::from_ratio(entry.2.2, 1000),
            Scalar::from_ratio(entry.2.3, 1000),
        ],
        Scalar::zero(),
        texture,
        Color::new(entry.3.0, entry.3.1, entry.3.2),
    )
}

pub fn tenths(x: i64, y: i64, z: i64) -> (p: Vec3)
    ensures
        p == spec_tenths(x, y, z),
{
    Vec3::new(Scalar::from_ratio(x, 10), Scalar::from_ratio(y, 10), Scalar::from_ratio(z, 10))
}

/// Builds the scene around the given textures.
pub fn create_diorama(textures: DioramaTextures) -> (objects: Vec<Shape>)
    ensures
        objects@ == spec_diorama(textures),
{
    let ghost given = textures;
    let DioramaTextures {
        obsidian,
        stone,
        netherrack,
        gold_block,
        stone_bricks,
        chiseled_stone_bricks,
    } = textures;

    let mut materials: Vec<Rc<Material>> = Vec::new();
    materials.push(Rc::new(material(PURPLE, None)));
    materials.push(Rc::new(material(OBSIDIAN, Some(Rc::new(obsidian)))));
    materials.push(Rc::new(material(STONE, Some(Rc::new(stone)))));
    materials.push(Rc::new(material(NETHERRACK, Some(Rc::new(netherrack)))));
    materials.push(Rc::new(material(GOLD_BLOCK, Some(Rc::new(gold_block)))));
    materials.push(Rc::new(material(STONE_BRICKS, Some(Rc::new(stone_bricks)))));
    materials.push(Rc::new(material(CHISELED_STONE_BRICKS, Some(Rc::new(chiseled_stone_bricks)))));
    materials.push(Rc::new(material(GRASS, None)));
    assert(forall|k: int|
        0 <= k < 8 ==> *(#[trigger] materials@[k]) == spec_material(k, given.texture_for(k)));

    let mut objects: Vec<Shape> = Vec::new();
    let mut i: usize = 0;
    while i < 64
        invariant
            i <= 64,
            objects@.len() == i,
            materials@.len() == 8,
            forall|k: int|
                0 <= k < 8 ==> *(#[trigger] materials@[k]) == spec_material(
                    k,
                    given.texture_for(k),
                ),
            forall|j: int| 0 <= j < i ==> #[trigger] objects@[j] == Shape::Cube(spec_block(j, given)),
        decreases 64 - i,
    {
        let entry = CUBE_DATA[i];
        let kind = entry.3;
        assert(kind < 8);
        let cube = Cube {
            center: tenths(entry.0, entry.1, entry.2),
            size: Scalar::from_ratio(BLOCK_SIZE, 10),
            material: Rc::clone(&materials[kind]),
        };
        objects.push(Shape::Cube(cube));
        i += 1;
    }

    let ground = Square {
        center: tenths(GROUND.0, GROUND.1, GROUND.2),
        size: Scalar::from_ratio(GROUND.3, 10),
        material: Rc::clone(&materials[GRASS]),
    };
    objects.push(Shape::Square(ground));
    assert(objects@ =~= spec_diorama(given));
    objects
}

} // verus!
