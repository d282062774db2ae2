//! Which built-in distance shader stands for which geometric primitive.
use vstd::prelude::*;

use crate::asset::AssetKey;

verus! {

/// UUID of the rectangle distance shader.
pub const RECTANGLE_SDF_UUID: u128 = 0x2289ee84_18da_4e35_87b2_e256fd88c092;
/// UUID of the circle distance shader.
pub const CIRCLE_SDF_UUID: u128 = 0xabb54e5e_62f3_4ea2_9604_84368bb6ae6d;
/// UUID of the ellipse distance shader.
pub const ELLIPSE_SDF_UUID: u128 = 0x2c02adad_84fb_46d7_8ef8_f4b6d86d6149;
/// UUID of the annulus (ring) distance shader.
pub const ANNULUS_SDF_UUID: u128 = 0xa4e4cc45_0af7_4918_b082_69ba5236c4d0;
/// UUID of the capsule (pill) distance shader.
pub const CAPSULE_SDF_UUID: u128 = 0x3f8b7c1d_9e5a_4b2c_8d6f_1a9c4e7b2d5a;
/// UUID of the rhombus distance shader.
pub const RHOMBUS_SDF_UUID: u128 = 0xb41cabff_98bb_417c_92e6_b4889a9290ad;
/// UUID of the circular sector (pie slice) distance shader.
pub const CIRCULAR_SECTOR_SDF_UUID: u128 = 0x8c5373ba_2cdc_4e8f_987c_cf5dfd6d84d5;
/// UUID of the regular polygon distance shader.
pub const REGULAR_POLYGON_SDF_UUID: u128 = 0x38dc4249_e998_4a6f_ace5_c619ae875929;

/// The geometric primitives that have a built-in distance shader.
#[derive(Clone, Copy, Debug, PartialEq, Eq, Structural)]
pub enum PrimitiveKind {
    /// An axis-aligned rectangle.
    Rectangle,
    /// A circle.
    Circle,
    /// An axis-aligned ellipse.
    Ellipse,
    /// A ring between two circles.
    Annulus,
    /// A vertical capsule.
    Capsule2d,
    /// A rhombus.
    Rhombus,
    /// A slice of a circle.
    CircularSector,
    /// A regular polygon.
    RegularPolygon,
}

/// The UUID of a primitive's distance shader.
pub open spec fn sdf_uuid(kind: PrimitiveKind) -> u128 {
    match kind {
        PrimitiveKind::Rectangle => RECTANGLE_SDF_UUID,
        PrimitiveKind::Circle => CIRCLE_SDF_UUID,
        PrimitiveKind::Ellipse => ELLIPSE_SDF_UUID,
        PrimitiveKind::Annulus => ANNULUS_SDF_UUID,
        PrimitiveKind::Capsule2d => CAPSULE_SDF_UUID,
        PrimitiveKind::Rhombus => RHOMBUS_SDF_UUID,
        PrimitiveKind::CircularSector => CIRCULAR_SECTOR_SDF_UUID,
        PrimitiveKind::RegularPolygon => REGULAR_POLYGON_SDF_UUID,
    }
}

/// The primitive whose distance shader is `sdf`, if any.
pub open spec fn primitive_of_sdf(sdf: AssetKey) -> Option<PrimitiveKind> {
    match sdf {
        AssetKey::Index(_) => None,
        AssetKey::Uuid(u) => if u == RECTANGLE_SDF_UUID {
            Some(PrimitiveKind::Rectangle)
        } else if u == CIRCLE_SDF_UUID {
            Some(PrimitiveKind::Circle)
        } else if u == ELLIPSE_SDF_UUID {
            Some(PrimitiveKind::Ellipse)
        } else if u == ANNULUS_SDF_UUID {
            Some(PrimitiveKind::Annulus)
        } else if u == CAPSULE_SDF_UUID {
            Some(PrimitiveKind::Capsule2d)
        } else if u == RHOMBUS_SDF_UUID {
            Some(PrimitiveKind::Rhombus)
        } else if u == CIRCULAR_SECTOR_SDF_UUID {
            Some(PrimitiveKind::CircularSector)
        } else if u == REGULAR_POLYGON_SDF_UUID {
            Some(PrimitiveKind::RegularPolygon)
        } else {
            None
        },
    }
}

/// Whether a shader is one of the eight built-in primitive distance shaders,
/// listed by their UUIDs.
pub open spec fn is_primitive_sdf_uuid_key(sdf: AssetKey) -> bool {
    match sdf {
        AssetKey::Index(_) => false,
        AssetKey::Uuid(u) => u == RECTANGLE_SDF_UUID || u == CIRCLE_SDF_UUID || u == ELLIPSE_SDF_UUID
            || u == ANNULUS_SDF_UUID || u == CAPSULE_SDF_UUID || u == RHOMBUS_SDF_UUID || u
            == CIRCULAR_SECTOR_SDF_UUID || u == REGULAR_POLYGON_SDF_UUID,
    }
}

impl PrimitiveKind {
    /// The distance shader of the primitive.
    pub fn sdf_shader(&self) -> (key: AssetKey)
        ensures
            key == AssetKey::Uuid(sdf_uuid(*self)),
            *self == PrimitiveKind::Rectangle ==> key == AssetKey::Uuid(RECTANGLE_SDF_UUID),
            *self == PrimitiveKind::Circle ==> key == AssetKey::Uuid(CIRCLE_SDF_UUID),
            *self == PrimitiveKind::Ellipse ==> key == AssetKey::Uuid(ELLIPSE_SDF_UUID),
            *self == PrimitiveKind::Annulus ==> key == AssetKey::Uuid(ANNULUS_SDF_UUID),
            *self == PrimitiveKind::Capsule2d ==> key == AssetKey::Uuid(CAPSULE_SDF_UUID),
            *self == PrimitiveKind::Rhombus ==> key == AssetKey::Uuid(RHOMBUS_SDF_UUID),
            *self == PrimitiveKind::CircularSector ==> key == AssetKey::Uuid(
                CIRCULAR_SECTOR_SDF_UUID,
            ),
            *self == PrimitiveKind::RegularPolygon ==> key == AssetKey::Uuid(
                REGULAR_POLYGON_SDF_UUID,
            ),
    {
        let uuid = match self {
            PrimitiveKind::Rectangle => RECTANGLE_SDF_UUID,
            PrimitiveKind::Circle => CIRCLE_SDF_UUID,
            PrimitiveKind::Ellipse => ELLIPSE_SDF_UUID,
            PrimitiveKind::Annulus => ANNULUS_SDF_UUID,
            PrimitiveKind::Capsule2d => CAPSULE_SDF_UUID,
            PrimitiveKind::Rhombus => RHOMBUS_SDF_UUID,
            PrimitiveKind::CircularSector => CIRCULAR_SECTOR_SDF_UUID,
            PrimitiveKind::RegularPolygon => REGULAR_POLYGON_SDF_UUID,
        };
        AssetKey::Uuid(uuid)
    }

    /// The primitive whose distance shader a shape uses, trying rectangle,
    /// circle, ellipse, annulus, capsule, rhombus, circular sector and regular
    /// polygon in turn; `None` for any other shader.
    pub fn from_sdf_shader(sdf: AssetKey) -> (kind: Option<PrimitiveKind>)
        ensures
            kind == primitive_of_sdf(sdf),
            sdf == AssetKey::Uuid(RECTANGLE_SDF_UUID) ==> kind == Some(PrimitiveKind::Rectangle),
            sdf == AssetKey::Uuid(CIRCLE_SDF_UUID) ==> kind == Some(PrimitiveKind::Circle),
            sdf == AssetKey::Uuid(ELLIPSE_SDF_UUID) ==> kind == Some(PrimitiveKind::Ellipse),
            sdf == AssetKey::Uuid(ANNULUS_SDF_UUID) ==> kind == Some(PrimitiveKind::Annulus),
            sdf == AssetKey::Uuid(CAPSULE_SDF_UUID) ==> kind == Some(PrimitiveKind::Capsule2d),
            sdf == AssetKey::Uuid(RHOMBUS_SDF_UUID) ==> kind == Some(PrimitiveKind::Rhombus),
            sdf == AssetKey::Uuid(CIRCULAR_SECTOR_SDF_UUID) ==> kind == Some(
                PrimitiveKind::CircularSector,
            ),
            sdf == AssetKey::Uuid(REGULAR_POLYGON_SDF_UUID) ==> kind == Some(
                PrimitiveKind::RegularPolygon,
            ),
            !is_primitive_sdf_uuid_key(sdf) ==> kind is None,
    {
        match sdf {
            AssetKey::Index(_) => None,
            AssetKey::Uuid(u) => {
                if u == RECTANGLE_SDF_UUID {
                    Some(PrimitiveKind::Rectangle)
                } else if u == CIRCLE_SDF_UUID {
                    Some(PrimitiveKind::Circle)
                } else if u == ELLIPSE_SDF_UUID {
                    Some(PrimitiveKind::Ellipse)
                } else if u == ANNULUS_SDF_UUID {
                    Some(PrimitiveKind::Annulus)
                } else if u == CAPSULE_SDF_UUID {
                    Some(PrimitiveKind::Capsule2d)
                } else if u == RHOMBUS_SDF_UUID {
                    Some(PrimitiveKind::Rhombus)
                } else if u == CIRCULAR_SECTOR_SDF_UUID {
                    Some(PrimitiveKind::CircularSector)
                } else if u == REGULAR_POLYGON_SDF_UUID {
                    Some(PrimitiveKind::RegularPolygon)
                } else {
                    None
                }
            },
        }
    }
}

/// Distinct primitives have distinct distance shaders.
pub proof fn lemma_sdf_uuids_distinct(a: PrimitiveKind, b: PrimitiveKind)
    requires
        a != b,
    ensures
        sdf_uuid(a) != sdf_uuid(b),
{
}

/// A shape made from a primitive is recognised as that primitive again; a
/// shader recognised as a primitive is that primitive's distance shader.
pub proof fn lemma_primitive_round_trip(kind: PrimitiveKind, sdf: AssetKey)
    ensures
        primitive_of_sdf(AssetKey::Uuid(sdf_uuid(kind))) == Some(kind),
        primitive_of_sdf(sdf) matches Some(k) ==> sdf == AssetKey::Uuid(sdf_uuid(k)),
        primitive_of_sdf(sdf) is Some <==> is_primitive_sdf_uuid_key(sdf),
{
}

/// Each primitive is drawn with its own named distance shader: the circle
/// with the circle shader, the ellipse with the ellipse shader, and so on;
/// and each of those shaders is recognised as its primitive.
pub proof fn lemma_primitive_shaders()
    ensures
        sdf_uuid(PrimitiveKind::Rectangle) == RECTANGLE_SDF_UUID,
        sdf_uuid(PrimitiveKind::Circle) == CIRCLE_SDF_UUID,
        sdf_uuid(PrimitiveKind::Ellipse) == ELLIPSE_SDF_UUID,
        sdf_uuid(PrimitiveKind::Annulus) == ANNULUS_SDF_UUID,
        sdf_uuid(PrimitiveKind::Capsule2d) == CAPSULE_SDF_UUID,
        sdf_uuid(PrimitiveKind::Rhombus) == RHOMBUS_SDF_UUID,
        sdf_uuid(PrimitiveKind::CircularSector) == CIRCULAR_SECTOR_SDF_UUID,
        sdf_uuid(PrimitiveKind::RegularPolygon) == REGULAR_POLYGON_SDF_UUID,
        primitive_of_sdf(AssetKey::Uuid(RECTANGLE_SDF_UUID)) == Some(PrimitiveKind::Rectangle),
        primitive_of_sdf(AssetKey::Uuid(CIRCLE_SDF_UUID)) == Some(PrimitiveKind::Circle),
        primitive_of_sdf(AssetKey::Uuid(ELLIPSE_SDF_UUID)) == Some(PrimitiveKind::Ellipse),
        primitive_of_sdf(AssetKey::Uuid(ANNULUS_SDF_UUID)) == Some(PrimitiveKind::Annulus),
        primitive_of_sdf(AssetKey::Uuid(CAPSULE_SDF_UUID)) == Some(PrimitiveKind::Capsule2d),
        primitive_of_sdf(AssetKey::Uuid(RHOMBUS_SDF_UUID)) == Some(PrimitiveKind::Rhombus),
        primitive_of_sdf(AssetKey::Uuid(CIRCULAR_SECTOR_SDF_UUID)) == Some(
            PrimitiveKind::CircularSector,
        ),
        primitive_of_sdf(AssetKey::Uuid(REGULAR_POLYGON_SDF_UUID)) == Some(
            PrimitiveKind::RegularPolygon,
        ),
{
}

} // verus!
