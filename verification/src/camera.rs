//! The camera: viewport geometry derived from a configuration, jittered
//! per-pixel rays with optional defocus blur, and the recursive,
//! depth-limited color evaluation that drives rendering.

use vstd::prelude::*;

use crate::color::{color_bytes_spec, color_to_bytes};
use crate::fixed::{
    deg_to_rad, deg_to_rad_spec, fp_add, fp_add_spec, fp_div, fp_div_spec, fp_from_int,
    fp_from_int_spec, fp_mul, fp_mul_spec, fp_round, fp_round_spec, fp_sub, fp_sub_spec, fp_tan,
    fp_tan_spec, FP_HALF, FP_ONE, FP_TWO,
};
use crate::hittable::{list_hit_spec, Hittable, HittableList};
use crate::interval::Interval;
use crate::material::{scatter_post, ScatterResult};
use crate::random::{random_in_unit_disk, sample_square};
use crate::ray::Ray;
use crate::vec3::{
    cross_spec, length_sq_spec, unit_spec, vadd_spec, vcomp_mul_spec, vdiv_scalar_spec, vneg_spec,
    vscale_spec, vsub_spec, Vec3,
};

verus! {

/// The lower bound of the admissible hit range when tracing: a small
/// positive parameter that suppresses self-intersection.
pub const RAY_T_MIN: i64 = 66;

/// The red and green channels of the sky's zenith color; its blue
/// channel is full intensity.
pub const SKY_RED: i64 = 32768;

/// The green channel of the sky's zenith color.
pub const SKY_GREEN: i64 = 45875;

/// An immutable, fully derived camera: pixel grid origin, per-pixel
/// deltas, and defocus-disk basis.
#[derive(Clone, Copy, PartialEq, Eq, Structural, Debug)]
pub struct Camera {
    pub image_width: u16,
    pub image_height: u16,
    pub samples_per_pixel: u32,
    pub max_depth: u32,
    pub defocus_angle: i64,
    pub pixel_samples_scale: i64,
    pub center: Vec3,
    pub pixel00_loc: Vec3,
    pub pixel_delta_u: Vec3,
    pub pixel_delta_v: Vec3,
    pub defocus_disk_u: Vec3,
    pub defocus_disk_v: Vec3,
}

/// A camera configuration the builder refuses to turn into a camera.
#[derive(Clone, Copy, PartialEq, Eq, Structural, Debug)]
pub enum CameraError {
    ZeroImageWidth,
    ZeroSamplesPerPixel,
}

/// The configuration a camera is derived from.
#[derive(Clone, Copy, PartialEq, Eq, Structural, Debug)]
pub struct CameraBuilder {
    pub aspect_ratio: i64,
    pub image_width: u16,
    pub samples_per_pixel: u32,
    pub max_depth: u32,
    pub vfov: i64,
    pub lookfrom: Vec3,
    pub lookat: Vec3,
    pub vup: Vec3,
    pub defocus_angle: i64,
    pub focus_dist: i64,
}

/// Spec mirror of the image height derivation: the width over the
/// aspect ratio, rounded to the nearest row, saturated into the `u16`
/// range, and raised to at least one row.
pub open spec fn image_height_spec(b: CameraBuilder) -> u16 {
    let h_fp = fp_div_spec(fp_from_int_spec(b.image_width as i64), b.aspect_ratio);
    let h_int = fp_round_spec(h_fp);
    let h_sat = if h_int < 0 {
        0i64
    } else if h_int > 65535 {
        65535i64
    } else {
        h_int
    };
    if h_sat < 1 {
        1u16
    } else {
        h_sat as u16
    }
}

/// Spec mirror of the whole camera derivation.
pub open spec fn camera_build_spec(b: CameraBuilder) -> Camera {
    let image_height = image_height_spec(b);
    let pixel_samples_scale = fp_div_spec(FP_ONE, fp_from_int_spec(b.samples_per_pixel as i64));
    let center = b.lookfrom;
    let theta = deg_to_rad_spec(b.vfov);
    let h = fp_tan_spec(fp_div_spec(theta, FP_TWO));
    let viewport_height = fp_mul_spec(fp_mul_spec(FP_TWO, h), b.focus_dist);
    let viewport_width = fp_mul_spec(
        viewport_height,
        fp_div_spec(fp_from_int_spec(b.image_width as i64), fp_from_int_spec(image_height as i64)),
    );
    let w = unit_spec(vsub_spec(b.lookfrom, b.lookat));
    let u = unit_spec(cross_spec(b.vup, w));
    let v = cross_spec(w, u);
    let viewport_u = vscale_spec(u, viewport_width);
    let viewport_v = vscale_spec(vneg_spec(v), viewport_height);
    let pixel_delta_u = vdiv_scalar_spec(viewport_u, fp_from_int_spec(b.image_width as i64));
    let pixel_delta_v = vdiv_scalar_spec(viewport_v, fp_from_int_spec(image_height as i64));
    let viewport_upper_left = vsub_spec(
        vsub_spec(
            vsub_spec(center, vscale_spec(w, b.focus_dist)),
            vdiv_scalar_spec(viewport_u, FP_TWO),
        ),
        vdiv_scalar_spec(viewport_v, FP_TWO),
    );
    let pixel00_loc = vadd_spec(
        viewport_upper_left,
        vscale_spec(vadd_spec(pixel_delta_u, pixel_delta_v), FP_HALF),
    );
    let defocus_radius = fp_mul_spec(
        b.focus_dist,
        fp_tan_spec(deg_to_rad_spec(fp_div_spec(b.defocus_angle, FP_TWO))),
    );
    let defocus_disk_u = vscale_spec(u, defocus_radius);
    let defocus_disk_v = vscale_spec(v, defocus_radius);
    Camera {
        image_width: b.image_width,
        image_height,
        samples_per_pixel: b.samples_per_pixel,
        max_depth: b.max_depth,
        defocus_angle: b.defocus_angle,
        pixel_samples_scale,
        center,
        pixel00_loc,
        pixel_delta_u,
        pixel_delta_v,
        defocus_disk_u,
        defocus_disk_v,
    }
}

/// Spec mirror of sampling the defocus disk at the drawn point `p`.
pub open spec fn defocus_disk_sample_spec(cam: Camera, p: Vec3) -> Vec3 {
    vadd_spec(
        vadd_spec(cam.center, vscale_spec(cam.defocus_disk_u, p.x)),
        vscale_spec(cam.defocus_disk_v, p.y),
    )
}

/// Spec mirror of building the camera ray for pixel `(i, j)` with the
/// given sub-pixel jitter and defocus-disk sample.
pub open spec fn get_ray_spec(cam: Camera, i: u16, j: u16, offset: Vec3, disk: Vec3) -> Ray {
    let pixel_sample = vadd_spec(
        vadd_spec(
            cam.pixel00_loc,
            vscale_spec(cam.pixel_delta_u, fp_add_spec(fp_from_int_spec(i as i64), offset.x)),
        ),
        vscale_spec(cam.pixel_delta_v, fp_add_spec(fp_from_int_spec(j as i64), offset.y)),
    );
    let ray_origin = if cam.defocus_angle <= 0 {
        cam.center
    } else {
        defocus_disk_sample_spec(cam, disk)
    };
    Ray { orig: ray_origin, dir: vsub_spec(pixel_sample, ray_origin) }
}

/// The admissible hit range used while tracing.
pub open spec fn trace_interval() -> Interval {
    Interval { min: RAY_T_MIN, max: i64::MAX }
}

/// Spec mirror of the analytic background: a linear blend between white
/// and sky blue driven by the y component of the unit direction.
pub open spec fn sky_color_spec(direction: Vec3) -> Vec3 {
    let unit_direction = unit_spec(direction);
    let a = fp_mul_spec(FP_HALF, fp_add_spec(unit_direction.y, FP_ONE));
    vadd_spec(
        vscale_spec(Vec3 { x: FP_ONE, y: FP_ONE, z: FP_ONE }, fp_sub_spec(FP_ONE, a)),
        vscale_spec(Vec3 { x: SKY_RED, y: SKY_GREEN, z: FP_ONE }, a),
    )
}

/// `r` is an admissible camera ray for pixel `(i, j)`: built by
/// `get_ray_spec` from some in-range sub-pixel jitter and defocus-disk
/// sample.
pub open spec fn camera_ray_outcome(cam: Camera, i: u16, j: u16, r: Ray) -> bool {
    exists|offset: Vec3, disk: Vec3|
        -FP_HALF <= offset.x < FP_HALF && -FP_HALF <= offset.y < FP_HALF && offset.z == 0
            && length_sq_spec(disk) < FP_ONE && disk.z == 0 && r == #[trigger] get_ray_spec(
            cam,
            i,
            j,
            offset,
            disk,
        )
}

/// `res` is an admissible outcome of the depth-limited color evaluation
/// of `r` against the scene: exact black once the bounce budget is
/// exhausted, the exact sky blend on a miss, and on a hit the
/// attenuation filter applied to an admissible outcome of the recursion
/// for some scatter result the hit material admits (exact black on
/// absorption).
pub open spec fn ray_color_outcome(r: Ray, depth: u32, world: Seq<Hittable>, res: Vec3) -> bool
    decreases depth,
{
    if depth == 0 {
        res == (Vec3 { x: 0i64, y: 0i64, z: 0i64 })
    } else {
        match list_hit_spec(world, r, trace_interval()) {
            Option::None => res == sky_color_spec(r.dir),
            Option::Some(rec) => exists|sres: Option<ScatterResult>|
                #[trigger] scatter_post(rec.mat, r, rec, sres) && match sres {
                    Option::None => res == (Vec3 { x: 0i64, y: 0i64, z: 0i64 }),
                    Option::Some(s) => exists|sub: Vec3|
                        ray_color_outcome(s.scattered, (depth - 1) as u32, world, sub) && res
                            == #[trigger] vcomp_mul_spec(s.attenuation, sub),
                },
        }
    }
}

/// `c` is an admissible color for one sample of pixel `(i, j)`: the
/// outcome of tracing some admissible camera ray for that pixel at the
/// camera's full depth budget.
pub open spec fn sample_color_outcome(cam: Camera, world: Seq<Hittable>, i: u16, j: u16, c: Vec3) -> bool {
    exists|r: Ray|
        camera_ray_outcome(cam, i, j, r) && #[trigger] ray_color_outcome(r, cam.max_depth, world, c)
}

/// `sum` is an admissible accumulation of `n` per-sample colors for
/// pixel `(i, j)`, added in sample order onto the zero color.
pub open spec fn sample_sum_outcome(
    cam: Camera,
    world: Seq<Hittable>,
    i: u16,
    j: u16,
    n: int,
    sum: Vec3,
) -> bool
    decreases n,
{
    if n <= 0 {
        sum == (Vec3 { x: 0i64, y: 0i64, z: 0i64 })
    } else {
        exists|prev: Vec3, c: Vec3|
            sample_sum_outcome(cam, world, i, j, n - 1, prev) && sample_color_outcome(
                cam,
                world,
                i,
                j,
                c,
            ) && sum == #[trigger] vadd_spec(prev, c)
    }
}

/// `pix` is an admissible byte triple for pixel `(i, j)`: the
/// gamma-corrected byte mapping of the per-sample average of an
/// admissible accumulation of `samples_per_pixel` traced sample colors.
pub open spec fn pixel_outcome(
    cam: Camera,
    world: Seq<Hittable>,
    i: u16,
    j: u16,
    pix: (u8, u8, u8),
) -> bool {
    exists|sum: Vec3|
        sample_sum_outcome(cam, world, i, j, cam.samples_per_pixel as int, sum) && pix
            == color_bytes_spec(#[trigger] vscale_spec(sum, cam.pixel_samples_scale))
}

impl CameraBuilder {
    /// A builder with the default configuration.
    pub fn new() -> (r: CameraBuilder)
        ensures
            r.aspect_ratio == fp_div_spec(fp_from_int_spec(16), fp_from_int_spec(9)),
            r.image_width == 400u16,
            r.samples_per_pixel == 10u32,
            r.max_depth == 10u32,
            r.vfov == fp_from_int_spec(20),
            r.lookfrom == (Vec3 {
                x: fp_from_int_spec(13),
                y: fp_from_int_spec(2),
                z: fp_from_int_spec(3),
            }),
            r.lookat == (Vec3 { x: 0i64, y: 0i64, z: 0i64 }),
            r.vup == (Vec3 { x: 0i64, y: FP_ONE, z: 0i64 }),
            r.defocus_angle == fp_div_spec(fp_from_int_spec(6), fp_from_int_spec(10)),
            r.focus_dist == fp_from_int_spec(10),
    {
        CameraBuilder {
            aspect_ratio: fp_div(fp_from_int(16), fp_from_int(9)),
            image_width: 400,
            samples_per_pixel: 10,
            max_depth: 10,
            vfov: fp_from_int(20),
            lookfrom: Vec3::new(fp_from_int(13), fp_from_int(2), fp_from_int(3)),
            lookat: Vec3::zero(),
            vup: Vec3::new(0, FP_ONE, 0),
            defocus_angle: fp_div(fp_from_int(6), fp_from_int(10)),
            focus_dist: fp_from_int(10),
        }
    }

    /// Set the aspect ratio (a fixed-point width-over-height).
    pub fn aspect_ratio(self, aspect_ratio: i64) -> (r: CameraBuilder)
        ensures
            r == (CameraBuilder { aspect_ratio, ..self }),
    {
        CameraBuilder { aspect_ratio, ..self }
    }

    /// Set the output width in pixels.
    pub fn image_width(self, image_width: u16) -> (r: CameraBuilder)
        ensures
            r == (CameraBuilder { image_width, ..self }),
    {
        CameraBuilder { image_width, ..self }
    }

    /// Set the number of samples per pixel.
    pub fn samples_per_pixel(self, samples_per_pixel: u32) -> (r: CameraBuilder)
        ensures
            r == (CameraBuilder { samples_per_pixel, ..self }),
    {
        CameraBuilder { samples_per_pixel, ..self }
    }

    /// Set the recursion depth budget.
    pub fn max_depth(self, max_depth: u32) -> (r: CameraBuilder)
        ensures
            r == (CameraBuilder { max_depth, ..self }),
    {
        CameraBuilder { max_depth, ..self }
    }

    /// Set the vertical field of view, in fixed-point degrees.
    pub fn vfov(self, vfov: i64) -> (r: CameraBuilder)
        ensures
            r == (CameraBuilder { vfov, ..self }),
    {
        CameraBuilder { vfov, ..self }
    }

    /// Set the eye position.
    pub fn lookfrom(self, lookfrom: Vec3) -> (r: CameraBuilder)
        ensures
            r == (CameraBuilder { lookfrom, ..self }),
    {
        CameraBuilder { lookfrom, ..self }
    }

    /// Set the point looked at.
    pub fn lookat(self, lookat: Vec3) -> (r: CameraBuilder)
        ensures
            r == (CameraBuilder { lookat, ..self }),
    {
        CameraBuilder { lookat, ..self }
    }

    /// Set the up direction.
    pub fn vup(self, vup: Vec3) -> (r: CameraBuilder)
        ensures
            r == (CameraBuilder { vup, ..self }),
    {
        CameraBuilder { vup, ..self }
    }

    /// Set the defocus cone angle, in fixed-point degrees; zero or less
    /// disables depth of field.
    pub fn defocus_angle(self, defocus_angle: i64) -> (r: CameraBuilder)
        ensures
            r == (CameraBuilder { defocus_angle, ..self }),
    {
        CameraBuilder { defocus_angle, ..self }
    }

    /// Set the focus distance.
    pub fn focus_dist(self, focus_dist: i64) -> (r: CameraBuilder)
        ensures
            r == (CameraBuilder { focus_dist, ..self }),
    {
        CameraBuilder { focus_dist, ..self }
    }

    /// Derive the camera, refusing configurations with no pixels or no
    /// samples.
    pub fn build(self) -> (res: Result<Camera, CameraError>)
        ensures
            res == Err::<Camera, CameraError>(CameraError::ZeroImageWidth) <==> self.image_width
                == 0,
            res == Err::<Camera, CameraError>(CameraError::ZeroSamplesPerPixel) <==> (
            self.image_width != 0 && self.samples_per_pixel == 0),
            self.image_width != 0 && self.samples_per_pixel != 0 ==> res == Ok::<
                Camera,
                CameraError,
            >(camera_build_spec(self)),
    {
        if self.image_width == 0 {
            return Err(CameraError::ZeroImageWidth);
        }
        if self.samples_per_pixel == 0 {
            return Err(CameraError::ZeroSamplesPerPixel);
        }

        let h_fp = fp_div(fp_from_int(self.image_width as i64), self.aspect_ratio);
        let h_int = fp_round(h_fp);
        let h_sat: i64 = if h_int < 0 {
            0
        } else if h_int > 65535 {
            65535
        } else {
            h_int
        };
        let image_height: u16 = if h_sat < 1 {
            1
        } else {
            h_sat as u16
        };

        let pixel_samples_scale = fp_div(FP_ONE, fp_from_int(self.samples_per_pixel as i64));
        let center = self.lookfrom;

        let theta = deg_to_rad(self.vfov);
        let h = fp_tan(fp_div(theta, FP_TWO));
        let viewport_height = fp_mul(fp_mul(FP_TWO, h), self.focus_dist);
        let viewport_width = fp_mul(
            viewport_height,
            fp_div(fp_from_int(self.image_width as i64), fp_from_int(image_height as i64)),
        );

        let w = self.lookfrom.sub(self.lookat).unit_vector();
        let u = self.vup.cross(w).unit_vector();
        let v = w.cross(u);

        let viewport_u = u.scale(viewport_width);
        let viewport_v = v.neg().scale(viewport_height);

        let pixel_delta_u = viewport_u.div_scalar(fp_from_int(self.image_width as i64));
        let pixel_delta_v = viewport_v.div_scalar(fp_from_int(image_height as i64));

        let viewport_upper_left = center
            .sub(w.scale(self.focus_dist))
            .sub(viewport_u.div_scalar(FP_TWO))
            .sub(viewport_v.div_scalar(FP_TWO));
        let pixel00_loc = viewport_upper_left.add(pixel_delta_u.add(pixel_delta_v).scale(FP_HALF));

        let defocus_radius = fp_mul(
            self.focus_dist,
            fp_tan(deg_to_rad(fp_div(self.defocus_angle, FP_TWO))),
        );
        let defocus_disk_u = u.scale(defocus_radius);
        let defocus_disk_v = v.scale(defocus_radius);

        Ok(
            Camera {
                image_width: self.image_width,
                image_height,
                samples_per_pixel: self.samples_per_pixel,
                max_depth: self.max_depth,
                defocus_angle: self.defocus_angle,
                pixel_samples_scale,
                center,
                pixel00_loc,
                pixel_delta_u,
                pixel_delta_v,
                defocus_disk_u,
                defocus_disk_v,
            },
        )
    }
}

impl Camera {
    /// The camera ray for pixel `(i, j)` under an explicit sub-pixel
    /// jitter and defocus-disk sample; the random-free core of
    /// `get_ray`.
    pub fn get_ray_at(&self, i: u16, j: u16, offset: Vec3, disk: Vec3) -> (r: Ray)
        ensures
            r == get_ray_spec(*self, i, j, offset, disk),
    {
        let pixel_sample = self
            .pixel00_loc
            .add(self.pixel_delta_u.scale(fp_add(fp_from_int(i as i64), offset.x)))
            .add(self.pixel_delta_v.scale(fp_add(fp_from_int(j as i64), offset.y)));
        let ray_origin = if self.defocus_angle <= 0 {
            self.center
        } else {
            self.defocus_disk_sample(disk)
        };
        Ray::new(ray_origin, pixel_sample.sub(ray_origin))
    }

    /// The point of the defocus disk picked by the drawn sample `p`.
    pub fn defocus_disk_sample(&self, p: Vec3) -> (r: Vec3)
        ensures
            r == defocus_disk_sample_spec(*self, p),
    {
        self.center.add(self.defocus_disk_u.scale(p.x)).add(self.defocus_disk_v.scale(p.y))
    }

    /// A camera ray through pixel `(i, j)`, jittered inside the pixel
    /// and, when depth of field is on, across the defocus disk.
    pub fn get_ray(&self, i: u16, j: u16) -> (r: Ray)
        ensures
            camera_ray_outcome(*self, i, j, r),
    {
        let offset = sample_square();
        let disk = random_in_unit_disk();
        let r = self.get_ray_at(i, j, offset, disk);
        proof {
            assert(-FP_HALF <= offset.x < FP_HALF && -FP_HALF <= offset.y < FP_HALF && offset.z
                == 0 && length_sq_spec(disk) < FP_ONE && disk.z == 0 && r == get_ray_spec(
                *self,
                i,
                j,
                offset,
                disk,
            ));
        }
        r
    }

    /// The light carried back along a ray: black once the bounce budget
    /// is exhausted, the scattered recursion on a hit, the analytic sky
    /// gradient on a miss.
    pub fn ray_color(r: &Ray, depth: u32, world: &HittableList) -> (res: Vec3)
        ensures
            ray_color_outcome(*r, depth, world.objects@, res),
            depth == 0 ==> res == (Vec3 { x: 0i64, y: 0i64, z: 0i64 }),
            depth > 0 && list_hit_spec(world.objects@, *r, trace_interval()) is None ==> res
                == sky_color_spec(r.dir),
        decreases depth,
    {
        if depth == 0 {
            return Vec3::zero();
        }

        match world.hit(r, Interval::new(RAY_T_MIN, i64::MAX)) {
            Some(rec) => {
                let scattered = rec.mat.scatter(r, &rec);
                match scattered {
                    Some(scatter) => {
                        let sub = Camera::ray_color(&scatter.scattered, depth - 1, world);
                        let res = scatter.attenuation.comp_mul(sub);
                        proof {
                            assert(scatter_post(rec.mat, *r, rec, scattered));
                            assert(ray_color_outcome(
                                scatter.scattered,
                                (depth - 1) as u32,
                                world.objects@,
                                sub,
                            ) && res == vcomp_mul_spec(scatter.attenuation, sub));
                        }
                        res
                    },
                    None => {
                        proof {
                            assert(scatter_post(rec.mat, *r, rec, scattered));
                        }
                        Vec3::zero()
                    },
                }
            },
            None => {
                let unit_direction = r.direction().unit_vector();
                let a = fp_mul(FP_HALF, fp_add(unit_direction.y, FP_ONE));
                let white = Vec3::new(FP_ONE, FP_ONE, FP_ONE);
                let sky_blue = Vec3::new(SKY_RED, SKY_GREEN, FP_ONE);
                white.scale(fp_sub(FP_ONE, a)).add(sky_blue.scale(a))
            },
        }
    }

    /// Render the scene: one byte triple per pixel in raster order
    /// (row-major, top to bottom, left to right), each the
    /// gamma-corrected average of that pixel's traced samples.
    pub fn render(&self, world: &HittableList) -> (pixels: Vec<(u8, u8, u8)>)
        ensures
            pixels@.len() == (self.image_height as int) * (self.image_width as int),
            forall|k: int|
                0 <= k < pixels@.len() ==> pixel_outcome(
                    *self,
                    world.objects@,
                    (k % (self.image_width as int)) as u16,
                    (k / (self.image_width as int)) as u16,
                    #[trigger] pixels@[k],
                ),
    {
        let mut pixels: Vec<(u8, u8, u8)> = Vec::new();
        let mut j: u16 = 0;
        while j < self.image_height
            invariant
                j <= self.image_height,
                pixels@.len() == (j as int) * (self.image_width as int),
                forall|k: int|
                    0 <= k < pixels@.len() ==> pixel_outcome(
                        *self,
                        world.objects@,
                        (k % (self.image_width as int)) as u16,
                        (k / (self.image_width as int)) as u16,
                        #[trigger] pixels@[k],
                    ),
            decreases self.image_height - j,
        {
            let mut i: u16 = 0;
            while i < self.image_width
                invariant
                    i <= self.image_width,
                    j < self.image_height,
                    pixels@.len() == (j as int) * (self.image_width as int) + i as int,
                    forall|k: int|
                        0 <= k < pixels@.len() ==> pixel_outcome(
                            *self,
                            world.objects@,
                            (k % (self.image_width as int)) as u16,
                            (k / (self.image_width as int)) as u16,
                            #[trigger] pixels@[k],
                        ),
                decreases self.image_width - i,
            {
                let mut pixel_color = Vec3::zero();
                let mut s: u32 = 0;
                while s < self.samples_per_pixel
                    invariant
                        s <= self.samples_per_pixel,
                        sample_sum_outcome(
                            *self,
                            world.objects@,
                            i,
                            j,
                            s as int,
                            pixel_color,
                        ),
                    decreases self.samples_per_pixel - s,
                {
                    let ray = self.get_ray(i, j);
                    let c = Camera::ray_color(&ray, self.max_depth, world);
                    let next_color = pixel_color.add(c);
                    proof {
                        assert(camera_ray_outcome(*self, i, j, ray) && ray_color_outcome(
                            ray,
                            self.max_depth,
                            world.objects@,
                            c,
                        ));
                        assert(sample_color_outcome(*self, world.objects@, i, j, c));
                        assert(sample_sum_outcome(*self, world.objects@, i, j, s as int, pixel_color)
                            && sample_color_outcome(*self, world.objects@, i, j, c) && next_color
                            == vadd_spec(pixel_color, c));
                        assert(sample_sum_outcome(
                            *self,
                            world.objects@,
                            i,
                            j,
                            s as int + 1,
                            next_color,
                        ));
                    }
                    pixel_color = next_color;
                    s = s + 1;
                }
                let bytes = color_to_bytes(pixel_color.scale(self.pixel_samples_scale));
                proof {
                    assert(sample_sum_outcome(
                        *self,
                        world.objects@,
                        i,
                        j,
                        self.samples_per_pixel as int,
                        pixel_color,
                    ) && bytes == color_bytes_spec(vscale_spec(
                        pixel_color,
                        self.pixel_samples_scale,
                    )));
                    assert(pixel_outcome(*self, world.objects@, i, j, bytes));
                    // the new entry's raster index resolves back to (i, j)
                    vstd::arithmetic::div_mod::lemma_fundamental_div_mod_converse(
                        (j as int) * (self.image_width as int) + i as int,
                        self.image_width as int,
                        j as int,
                        i as int,
                    );
                }
                pixels.push(bytes);
                i = i + 1;
            }
            proof {
                vstd::arithmetic::mul::lemma_mul_is_distributive_add_other_way(
                    self.image_width as int,
                    j as int,
                    1,
                );
                vstd::arithmetic::mul::lemma_mul_basics(self.image_width as int);
            }
            j = j + 1;
        }
        pixels
    }
}

} // verus!
