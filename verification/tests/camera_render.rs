use path_tracer::camera::{Camera, CameraBuilder, CameraError, RAY_T_MIN};
use path_tracer::fixed::{fp_add, fp_div, fp_from_int, fp_mul, fp_sub, FP_HALF, FP_ONE};
use path_tracer::hittable::{Hittable, HittableList};
use path_tracer::interval::Interval;
use path_tracer::material::{Lambertian, Material};
use path_tracer::sphere::Sphere;
use path_tracer::vec3::Vec3;

fn ground_only_scene() -> HittableList {
    let mut world = HittableList::new();
    let ground = Material::Lambertian(Lambertian::new(Vec3::new(FP_HALF, FP_HALF, FP_HALF)));
    world.add(Hittable::Sphere(Sphere::new(
        Vec3::new(0, fp_from_int(-1001), 0),
        fp_from_int(1000),
        ground,
    )));
    world
}

fn simple_camera(width: u16) -> Camera {
    match CameraBuilder::new()
        .aspect_ratio(FP_ONE)
        .image_width(width)
        .samples_per_pixel(1)
        .max_depth(1)
        .vfov(fp_from_int(90))
        .lookfrom(Vec3::new(0, 0, 0))
        .lookat(Vec3::new(0, 0, -FP_ONE))
        .vup(Vec3::new(0, FP_ONE, 0))
        .defocus_angle(0)
        .focus_dist(FP_ONE)
        .build()
    {
        Ok(cam) => cam,
        Err(_) => panic!("the configuration is valid"),
    }
}

#[test]
fn build_rejects_zero_width() {
    let res = CameraBuilder::new().image_width(0).build();
    assert_eq!(res, Err(CameraError::ZeroImageWidth));
}

#[test]
fn build_rejects_zero_samples() {
    let res = CameraBuilder::new().samples_per_pixel(0).build();
    assert_eq!(res, Err(CameraError::ZeroSamplesPerPixel));
}

#[test]
fn default_configuration_derives_the_expected_grid() {
    let cam = CameraBuilder::new().build().expect("the defaults are valid");
    // 400 wide at 16:9 gives 225 rows
    assert_eq!(cam.image_width, 400);
    assert_eq!(cam.image_height, 225);
    assert_eq!(cam.samples_per_pixel, 10);
    assert_eq!(cam.max_depth, 10);
    // 1 / 10 samples
    assert_eq!(cam.pixel_samples_scale, fp_div(FP_ONE, fp_from_int(10)));
    assert_eq!(cam.center, Vec3::new(fp_from_int(13), fp_from_int(2), fp_from_int(3)));
}

#[test]
fn image_height_rounds_to_the_nearest_row() {
    // 3 pixels wide at aspect 2 is 1.5 rows: rounded up to 2, not
    // truncated to 1
    let cam = CameraBuilder::new()
        .aspect_ratio(2 * FP_ONE)
        .image_width(3)
        .build()
        .expect("the configuration is valid");
    assert_eq!(cam.image_height, 2);
}

#[test]
fn square_aspect_keeps_height_equal_to_width() {
    let cam = simple_camera(8);
    assert_eq!(cam.image_height, 8);
    assert_eq!(cam.center, Vec3::new(0, 0, 0));
}

#[test]
fn depth_zero_returns_exact_black_even_on_a_hit() {
    let mut world = HittableList::new();
    let gray = Material::Lambertian(Lambertian::new(Vec3::new(FP_HALF, FP_HALF, FP_HALF)));
    world.add(Hittable::Sphere(Sphere::new(Vec3::new(0, 0, -5 * FP_ONE), FP_ONE, gray)));
    let r = path_tracer::ray::Ray::new(Vec3::new(0, 0, 0), Vec3::new(0, 0, -FP_ONE));
    // the ray really does intersect geometry
    assert!(world.hit(&r, Interval::new(RAY_T_MIN, i64::MAX)).is_some());
    assert_eq!(Camera::ray_color(&r, 0, &world), Vec3::new(0, 0, 0));
}

#[test]
fn misses_paint_the_analytic_sky_gradient() {
    // a single ground sphere and no occluders: every pixel whose
    // primary ray misses must show exactly the analytic blend
    let world = ground_only_scene();
    let cam = simple_camera(4);
    let mut missed: u32 = 0;
    for j in 0..cam.image_height {
        for i in 0..cam.image_width {
            let ray = cam.get_ray_at(i, j, Vec3::new(0, 0, 0), Vec3::new(0, 0, 0));
            if world.hit(&ray, Interval::new(RAY_T_MIN, i64::MAX)).is_none() {
                missed += 1;
                let unit = ray.direction().unit_vector();
                let a = fp_mul(FP_HALF, fp_add(unit.y, FP_ONE));
                let white = Vec3::new(FP_ONE, FP_ONE, FP_ONE);
                let sky_blue = Vec3::new(FP_HALF, 45875, FP_ONE);
                let expected = white.scale(fp_sub(FP_ONE, a)).add(sky_blue.scale(a));
                assert_eq!(Camera::ray_color(&ray, 1, &world), expected);
            }
        }
    }
    assert!(missed > 0, "the ground sphere sits far below the frame");
}

#[test]
fn render_emits_one_triple_per_pixel_in_raster_order() {
    let world = ground_only_scene();
    let cam = simple_camera(4);
    let pixels = cam.render(&world);
    assert_eq!(pixels.len(), 16);
}

#[test]
fn defocus_disabled_shoots_from_the_center() {
    let cam = simple_camera(4);
    let ray = cam.get_ray_at(0, 0, Vec3::new(0, 0, 0), Vec3::new(0, 0, 0));
    assert_eq!(ray.origin(), cam.center);
}

#[test]
fn defocus_enabled_shoots_from_the_sampled_disk_point() {
    let cam = match CameraBuilder::new()
        .aspect_ratio(FP_ONE)
        .image_width(4)
        .samples_per_pixel(1)
        .max_depth(1)
        .vfov(fp_from_int(90))
        .lookfrom(Vec3::new(0, 0, 0))
        .lookat(Vec3::new(0, 0, -FP_ONE))
        .vup(Vec3::new(0, FP_ONE, 0))
        .defocus_angle(fp_from_int(10))
        .focus_dist(fp_from_int(3))
        .build()
    {
        Ok(cam) => cam,
        Err(_) => panic!("the configuration is valid"),
    };
    let disk = Vec3::new(FP_HALF, 0, 0);
    let expected = cam
        .center
        .add(cam.defocus_disk_u.scale(FP_HALF))
        .add(cam.defocus_disk_v.scale(0));
    let ray = cam.get_ray_at(0, 0, Vec3::new(0, 0, 0), disk);
    assert_eq!(ray.origin(), expected);
    assert_eq!(cam.defocus_disk_sample(disk), expected);
}

#[test]
fn builder_setters_replace_only_their_field() {
    let b = CameraBuilder::new()
        .image_width(123)
        .max_depth(7)
        .vfov(fp_from_int(45))
        .focus_dist(fp_from_int(2));
    assert_eq!(b.image_width, 123);
    assert_eq!(b.max_depth, 7);
    assert_eq!(b.vfov, fp_from_int(45));
    assert_eq!(b.focus_dist, fp_from_int(2));
    // untouched fields keep their defaults
    assert_eq!(b.samples_per_pixel, 10);
    assert_eq!(b.vup, Vec3::new(0, FP_ONE, 0));
}
