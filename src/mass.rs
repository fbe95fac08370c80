//! Exact mass properties of box-shaped colliders and of their aggregates.
//!
//! All quantities are integers in a fixed length unit, so aggregation is exact and does not
//! depend on the order in which contributions are summed. A value stores the total mass, the
//! first moment of mass (mass times center of mass) and the inertia tensor about the body's
//! local origin, the latter in twelfths of the usual unit so that a box's tensor is integral.
use vstd::prelude::*;

verus! {

/// Largest side length of a collider box.
pub const MAX_SIDE: i64 = 4096;

/// Largest density of a collider.
pub const MAX_DENSITY: i64 = 1024;

/// Largest absolute offset of a collider from its body's origin, per axis.
pub const MAX_OFFSET: i64 = 4096;

/// Bound on each component of a single collider's contribution (2^77).
pub open spec fn contribution_bound() -> int {
    0x2000_0000_0000_0000_0000
}

#[derive(Clone, Copy, Debug, PartialEq, Eq, Structural)]
pub struct Vec3 {
    pub x: i64,
    pub y: i64,
    pub z: i64,
}

/// A box of full side lengths `size`, uniform `density`, centered at `offset` in the frame
/// of the body it attaches to.
#[derive(Clone, Copy, Debug, PartialEq, Eq, Structural)]
pub struct Cuboid {
    pub size: Vec3,
    pub density: i64,
    pub offset: Vec3,
}

impl Cuboid {
    pub open spec fn valid(&self) -> bool {
        &&& 0 <= self.size.x <= MAX_SIDE
        &&& 0 <= self.size.y <= MAX_SIDE
        &&& 0 <= self.size.z <= MAX_SIDE
        &&& 0 <= self.density <= MAX_DENSITY
        &&& -MAX_OFFSET <= self.offset.x <= MAX_OFFSET
        &&& -MAX_OFFSET <= self.offset.y <= MAX_OFFSET
        &&& -MAX_OFFSET <= self.offset.z <= MAX_OFFSET
    }

    pub fn is_valid(&self) -> (r: bool)
        ensures
            r == self.valid(),
    {
        0 <= self.size.x && self.size.x <= MAX_SIDE && 0 <= self.size.y && self.size.y
            <= MAX_SIDE && 0 <= self.size.z && self.size.z <= MAX_SIDE && 0 <= self.density
            && self.density <= MAX_DENSITY && -MAX_OFFSET <= self.offset.x && self.offset.x
            <= MAX_OFFSET && -MAX_OFFSET <= self.offset.y && self.offset.y <= MAX_OFFSET
            && -MAX_OFFSET <= self.offset.z && self.offset.z <= MAX_OFFSET
    }
}

/// Mathematical value of a `MassProperties`.
pub ghost struct MassModel {
    pub mass: int,
    pub mx: int,
    pub my: int,
    pub mz: int,
    pub ixx: int,
    pub iyy: int,
    pub izz: int,
    pub ixy: int,
    pub ixz: int,
    pub iyz: int,
}

/// Aggregate mass properties: total mass, first moment of mass (`moment_* / mass` is the
/// center of mass) and inertia tensor about the local origin, in twelfths.
#[derive(Clone, Copy, Debug, PartialEq, Eq, Structural)]
pub struct MassProperties {
    pub mass: i128,
    pub moment_x: i128,
    pub moment_y: i128,
    pub moment_z: i128,
    pub inertia_xx: i128,
    pub inertia_yy: i128,
    pub inertia_zz: i128,
    pub inertia_xy: i128,
    pub inertia_xz: i128,
    pub inertia_yz: i128,
}

/// A center of mass as an exact rational point: `numerator / denominator` per axis.
#[derive(Clone, Copy, Debug, PartialEq, Eq, Structural)]
pub struct MassCenter {
    pub numerator_x: i128,
    pub numerator_y: i128,
    pub numerator_z: i128,
    pub denominator: i128,
}

impl View for MassProperties {
    type V = MassModel;

    open spec fn view(&self) -> MassModel {
        MassModel {
            mass: self.mass as int,
            mx: self.moment_x as int,
            my: self.moment_y as int,
            mz: self.moment_z as int,
            ixx: self.inertia_xx as int,
            iyy: self.inertia_yy as int,
            izz: self.inertia_zz as int,
            ixy: self.inertia_xy as int,
            ixz: self.inertia_xz as int,
            iyz: self.inertia_yz as int,
        }
    }
}

pub open spec fn zero_model() -> MassModel {
    MassModel { mass: 0, mx: 0, my: 0, mz: 0, ixx: 0, iyy: 0, izz: 0, ixy: 0, ixz: 0, iyz: 0 }
}

pub open spec fn add_models(a: MassModel, b: MassModel) -> MassModel {
    MassModel {
        mass: a.mass + b.mass,
        mx: a.mx + b.mx,
        my: a.my + b.my,
        mz: a.mz + b.mz,
        ixx: a.ixx + b.ixx,
        iyy: a.iyy + b.iyy,
        izz: a.izz + b.izz,
        ixy: a.ixy + b.ixy,
        ixz: a.ixz + b.ixz,
        iyz: a.iyz + b.iyz,
    }
}

/// Every component of `m` lies within `[-k, k]`.
pub open spec fn model_bounded(m: MassModel, k: int) -> bool {
    &&& -k <= m.mass <= k
    &&& -k <= m.mx <= k
    &&& -k <= m.my <= k
    &&& -k <= m.mz <= k
    &&& -k <= m.ixx <= k
    &&& -k <= m.iyy <= k
    &&& -k <= m.izz <= k
    &&& -k <= m.ixy <= k
    &&& -k <= m.ixz <= k
    &&& -k <= m.iyz <= k
}

pub open spec fn cuboid_mass(c: Cuboid) -> int {
    c.density * (c.size.x * c.size.y * c.size.z)
}

/// Mass properties of one box about its body's origin: the box's own tensor about its center,
/// `m (b^2 + c^2) / 12` on the diagonal, plus the parallel-axis term for its offset `o`,
/// `m (|o|^2 I - o o^T)`; both scaled by twelve.
pub open spec fn contribution(c: Cuboid) -> MassModel {
    let m = cuboid_mass(c);
    let (sx, sy, sz) = (c.size.x as int, c.size.y as int, c.size.z as int);
    let (ox, oy, oz) = (c.offset.x as int, c.offset.y as int, c.offset.z as int);
    MassModel {
        mass: m,
        mx: m * ox,
        my: m * oy,
        mz: m * oz,
        ixx: m * (sy * sy + sz * sz) + 12 * m * (oy * oy + oz * oz),
        iyy: m * (sx * sx + sz * sz) + 12 * m * (ox * ox + oz * oz),
        izz: m * (sx * sx + sy * sy) + 12 * m * (ox * ox + oy * oy),
        ixy: -(12 * m * (ox * oy)),
        ixz: -(12 * m * (ox * oz)),
        iyz: -(12 * m * (oy * oz)),
    }
}

proof fn lemma_product_bound(a: int, b: int, ka: int, kb: int)
    requires
        -ka <= a <= ka,
        -kb <= b <= kb,
        0 <= ka,
        0 <= kb,
    ensures
        -(ka * kb) <= a * b <= ka * kb,
{
    assert(-(ka * kb) <= a * b <= ka * kb) by (nonlinear_arith)
        requires
            -ka <= a <= ka,
            -kb <= b <= kb,
            0 <= ka,
            0 <= kb,
    ;
}

proof fn lemma_mass_bound(c: Cuboid)
    requires
        c.valid(),
    ensures
        0 <= cuboid_mass(c) <= 0x4000_0000_0000,
{
    let (sx, sy, sz) = (c.size.x as int, c.size.y as int, c.size.z as int);
    lemma_product_bound(sx, sy, 4096, 4096);
    assert(0 <= sx * sy) by (nonlinear_arith)
        requires
            0 <= sx,
            0 <= sy,
    ;
    lemma_product_bound(sx * sy, sz, 4096 * 4096int, 4096);
    assert(0 <= sx * sy * sz) by (nonlinear_arith)
        requires
            0 <= sx * sy,
            0 <= sz,
    ;
    lemma_product_bound(c.density as int, sx * sy * sz, 1024, 4096 * 4096 * 4096int);
    assert(0 <= c.density * (sx * sy * sz)) by (nonlinear_arith)
        requires
            0 <= c.density,
            0 <= sx * sy * sz,
    ;
}

/// One collider's contribution fits the bound that aggregation relies on.
pub proof fn lemma_contribution_bounded(c: Cuboid)
    requires
        c.valid(),
    ensures
        model_bounded(contribution(c), contribution_bound()),
{
    let m = cuboid_mass(c);
    let (sx, sy, sz) = (c.size.x as int, c.size.y as int, c.size.z as int);
    let (ox, oy, oz) = (c.offset.x as int, c.offset.y as int, c.offset.z as int);
    let km = 0x4000_0000_0000int;
    let ks = 4096int;
    lemma_mass_bound(c);
    lemma_product_bound(m, ox, km, ks);
    lemma_product_bound(m, oy, km, ks);
    lemma_product_bound(m, oz, km, ks);
    lemma_product_bound(sx, sx, ks, ks);
    lemma_product_bound(sy, sy, ks, ks);
    lemma_product_bound(sz, sz, ks, ks);
    lemma_product_bound(ox, ox, ks, ks);
    lemma_product_bound(oy, oy, ks, ks);
    lemma_product_bound(oz, oz, ks, ks);
    lemma_product_bound(ox, oy, ks, ks);
    lemma_product_bound(ox, oz, ks, ks);
    lemma_product_bound(oy, oz, ks, ks);
    let k2 = 2 * ks * ks;
    lemma_product_bound(m, sy * sy + sz * sz, km, k2);
    lemma_product_bound(m, sx * sx + sz * sz, km, k2);
    lemma_product_bound(m, sx * sx + sy * sy, km, k2);
    lemma_product_bound(12 * m, oy * oy + oz * oz, 12 * km, k2);
    lemma_product_bound(12 * m, ox * ox + oz * oz, 12 * km, k2);
    lemma_product_bound(12 * m, ox * ox + oy * oy, 12 * km, k2);
    lemma_product_bound(12 * m, ox * oy, 12 * km, ks * ks);
    lemma_product_bound(12 * m, ox * oz, 12 * km, ks * ks);
    lemma_product_bound(12 * m, oy * oz, 12 * km, ks * ks);
}

/// Largest absolute component for which `inertia_at_center` is computed (2^58): every
/// intermediate product then fits in `i128`.
pub const CENTER_INERTIA_LIMIT: i128 = 0x400_0000_0000_0000;

/// Mathematical value of a `CenterInertia`.
pub ghost struct TensorModel {
    pub xx: int,
    pub yy: int,
    pub zz: int,
    pub xy: int,
    pub xz: int,
    pub yz: int,
}

/// The inertia tensor about the center of mass, multiplied by the mass and in twelfths, so
/// that it stays integral.
#[derive(Clone, Copy, Debug, PartialEq, Eq, Structural)]
pub struct CenterInertia {
    pub xx: i128,
    pub yy: i128,
    pub zz: i128,
    pub xy: i128,
    pub xz: i128,
    pub yz: i128,
}

impl View for CenterInertia {
    type V = TensorModel;

    open spec fn view(&self) -> TensorModel {
        TensorModel {
            xx: self.xx as int,
            yy: self.yy as int,
            zz: self.zz as int,
            xy: self.xy as int,
            xz: self.xz as int,
            yz: self.yz as int,
        }
    }
}

/// Parallel-axis correction from the origin to the center of mass `c = p / M`:
/// `I_center = I_origin - M (|c|^2 I - c c^T)`; multiplied by `M` and in twelfths this is
/// `M I_origin - 12 (|p|^2 I - p p^T)`.
pub open spec fn center_inertia(m: MassModel) -> TensorModel {
    TensorModel {
        xx: m.mass * m.ixx - 12 * (m.my * m.my + m.mz * m.mz),
        yy: m.mass * m.iyy - 12 * (m.mx * m.mx + m.mz * m.mz),
        zz: m.mass * m.izz - 12 * (m.mx * m.mx + m.my * m.my),
        xy: m.mass * m.ixy + 12 * (m.mx * m.my),
        xz: m.mass * m.ixz + 12 * (m.mx * m.mz),
        yz: m.mass * m.iyz + 12 * (m.my * m.mz),
    }
}

fn within_center_limit(x: i128) -> (r: bool)
    ensures
        r == (-CENTER_INERTIA_LIMIT <= x <= CENTER_INERTIA_LIMIT),
{
    -CENTER_INERTIA_LIMIT <= x && x <= CENTER_INERTIA_LIMIT
}

impl MassProperties {
    pub fn zero() -> (r: MassProperties)
        ensures
            r@ == zero_model(),
    {
        MassProperties {
            mass: 0,
            moment_x: 0,
            moment_y: 0,
            moment_z: 0,
            inertia_xx: 0,
            inertia_yy: 0,
            inertia_zz: 0,
            inertia_xy: 0,
            inertia_xz: 0,
            inertia_yz: 0,
        }
    }

    /// The mass properties of one box collider about its body's origin.
    pub fn of_cuboid(c: &Cuboid) -> (r: MassProperties)
        requires
            c.valid(),
        ensures
            r@ == contribution(*c),
    {
        proof {
            lemma_contribution_bounded(*c);
            lemma_mass_bound(*c);
            let (sx, sy, sz) = (c.size.x as int, c.size.y as int, c.size.z as int);
            lemma_product_bound(sx, sy, 4096, 4096);
            lemma_product_bound(sx * sy, sz, 4096 * 4096int, 4096);
        }
        let sx = c.size.x as i128;
        let sy = c.size.y as i128;
        let sz = c.size.z as i128;
        let ox = c.offset.x as i128;
        let oy = c.offset.y as i128;
        let oz = c.offset.z as i128;
        proof {
            lemma_product_bound(ox as int, ox as int, 4096, 4096);
            lemma_product_bound(oy as int, oy as int, 4096, 4096);
            lemma_product_bound(oz as int, oz as int, 4096, 4096);
            lemma_product_bound(ox as int, oy as int, 4096, 4096);
            lemma_product_bound(ox as int, oz as int, 4096, 4096);
            lemma_product_bound(oy as int, oz as int, 4096, 4096);
            lemma_product_bound(sx as int, sx as int, 4096, 4096);
            lemma_product_bound(sy as int, sy as int, 4096, 4096);
            lemma_product_bound(sz as int, sz as int, 4096, 4096);
        }
        let m = (c.density as i128) * (sx * sy * sz);
        proof {
            let km = 0x4000_0000_0000int;
            let k1: int = 4096int * 4096;
            let k2: int = 2int * 4096 * 4096;
            lemma_product_bound(12 * m, (oy * oy + oz * oz) as int, 12 * km, k2);
            lemma_product_bound(12 * m, (ox * ox + oz * oz) as int, 12 * km, k2);
            lemma_product_bound(12 * m, (ox * ox + oy * oy) as int, 12 * km, k2);
            lemma_product_bound(12 * m, (ox * oy) as int, 12 * km, k1);
            lemma_product_bound(12 * m, (ox * oz) as int, 12 * km, k1);
            lemma_product_bound(12 * m, (oy * oz) as int, 12 * km, k1);
            lemma_product_bound(m as int, (sy * sy + sz * sz) as int, km, k2);
            lemma_product_bound(m as int, (sx * sx + sz * sz) as int, km, k2);
            lemma_product_bound(m as int, (sx * sx + sy * sy) as int, km, k2);
            assert(12 * m * (oy * oy + oz * oz) == (12 * m) * (oy * oy + oz * oz));
            assert(12 * m * (ox * ox + oz * oz) == (12 * m) * (ox * ox + oz * oz));
            assert(12 * m * (ox * ox + oy * oy) == (12 * m) * (ox * ox + oy * oy));
        }
        let m12 = 12 * m;
        MassProperties {
            mass: m,
            moment_x: m * ox,
            moment_y: m * oy,
            moment_z: m * oz,
            inertia_xx: m * (sy * sy + sz * sz) + m12 * (oy * oy + oz * oz),
            inertia_yy: m * (sx * sx + sz * sz) + m12 * (ox * ox + oz * oz),
            inertia_zz: m * (sx * sx + sy * sy) + m12 * (ox * ox + oy * oy),
            inertia_xy: -(m12 * (ox * oy)),
            inertia_xz: -(m12 * (ox * oz)),
            inertia_yz: -(m12 * (oy * oz)),
        }
    }

    /// Componentwise sum of two aggregates.
    pub fn plus(&self, o: &MassProperties) -> (r: MassProperties)
        requires
            model_bounded(add_models(self@, o@), i128::MAX as int),
        ensures
            r@ == add_models(self@, o@),
    {
        MassProperties {
            mass: self.mass + o.mass,
            moment_x: self.moment_x + o.moment_x,
            moment_y: self.moment_y + o.moment_y,
            moment_z: self.moment_z + o.moment_z,
            inertia_xx: self.inertia_xx + o.inertia_xx,
            inertia_yy: self.inertia_yy + o.inertia_yy,
            inertia_zz: self.inertia_zz + o.inertia_zz,
            inertia_xy: self.inertia_xy + o.inertia_xy,
            inertia_xz: self.inertia_xz + o.inertia_xz,
            inertia_yz: self.inertia_yz + o.inertia_yz,
        }
    }

    /// Mass times the inertia tensor about the center of mass, in twelfths; `None` when some
    /// component exceeds `CENTER_INERTIA_LIMIT` in absolute value.
    pub fn inertia_at_center(&self) -> (r: Option<CenterInertia>)
        ensures
            r is Some <==> model_bounded(self@, CENTER_INERTIA_LIMIT as int),
            r matches Some(t) ==> t@ == center_inertia(self@),
    {
        if !(within_center_limit(self.mass) && within_center_limit(self.moment_x)
            && within_center_limit(self.moment_y) && within_center_limit(self.moment_z)
            && within_center_limit(self.inertia_xx) && within_center_limit(self.inertia_yy)
            && within_center_limit(self.inertia_zz) && within_center_limit(self.inertia_xy)
            && within_center_limit(self.inertia_xz) && within_center_limit(self.inertia_yz)) {
            return None;
        }
        let (m, px, py, pz) = (self.mass, self.moment_x, self.moment_y, self.moment_z);
        proof {
            let k: int = CENTER_INERTIA_LIMIT as int;
            let ms = m as int;
            lemma_product_bound(ms, self.inertia_xx as int, k, k);
            lemma_product_bound(ms, self.inertia_yy as int, k, k);
            lemma_product_bound(ms, self.inertia_zz as int, k, k);
            lemma_product_bound(ms, self.inertia_xy as int, k, k);
            lemma_product_bound(ms, self.inertia_xz as int, k, k);
            lemma_product_bound(ms, self.inertia_yz as int, k, k);
            lemma_product_bound(px as int, px as int, k, k);
            lemma_product_bound(py as int, py as int, k, k);
            lemma_product_bound(pz as int, pz as int, k, k);
            lemma_product_bound(px as int, py as int, k, k);
            lemma_product_bound(px as int, pz as int, k, k);
            lemma_product_bound(py as int, pz as int, k, k);
        }
        Some(
            CenterInertia {
                xx: m * self.inertia_xx - 12 * (py * py + pz * pz),
                yy: m * self.inertia_yy - 12 * (px * px + pz * pz),
                zz: m * self.inertia_zz - 12 * (px * px + py * py),
                xy: m * self.inertia_xy + 12 * (px * py),
                xz: m * self.inertia_xz + 12 * (px * pz),
                yz: m * self.inertia_yz + 12 * (py * pz),
            },
        )
    }

    /// The center of mass, which is undefined (`None`) for a massless aggregate.
    pub fn center_of_mass(&self) -> (r: Option<MassCenter>)
        ensures
            r is None <==> self.mass == 0,
            r matches Some(c) ==> c.denominator == self.mass && c.numerator_x == self.moment_x
                && c.numerator_y == self.moment_y && c.numerator_z == self.moment_z,
    {
        if self.mass == 0 {
            None
        } else {
            Some(
                MassCenter {
                    numerator_x: self.moment_x,
                    numerator_y: self.moment_y,
                    numerator_z: self.moment_z,
                    denominator: self.mass,
                },
            )
        }
    }
}

} // verus!
