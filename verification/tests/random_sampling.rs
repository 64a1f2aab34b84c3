use path_tracer::fixed::{FP_HALF, FP_ONE};
use path_tracer::random::{
    random_fraction, random_in_unit_disk, random_range, random_unit_vector, random_vector,
    random_vector_range, sample_square,
};

#[test]
fn fractions_stay_in_the_unit_interval() {
    for _ in 0..256 {
        let r = random_fraction();
        assert!((0..FP_ONE).contains(&r));
    }
}

#[test]
fn ranges_are_respected() {
    for _ in 0..256 {
        let r = random_range(-FP_ONE, FP_ONE);
        assert!(-FP_ONE <= r && r < FP_ONE);
    }
    assert_eq!(random_range(FP_HALF, FP_HALF), FP_HALF);
}

#[test]
fn vectors_stay_in_their_boxes() {
    for _ in 0..64 {
        let v = random_vector();
        assert!((0..FP_ONE).contains(&v.x));
        assert!((0..FP_ONE).contains(&v.y));
        assert!((0..FP_ONE).contains(&v.z));

        let w = random_vector_range(-FP_ONE, FP_ONE);
        assert!(-FP_ONE <= w.x && w.x < FP_ONE);
        assert!(-FP_ONE <= w.y && w.y < FP_ONE);
        assert!(-FP_ONE <= w.z && w.z < FP_ONE);
    }
}

#[test]
fn square_samples_jitter_inside_the_pixel() {
    for _ in 0..256 {
        let s = sample_square();
        assert!(-FP_HALF <= s.x && s.x < FP_HALF);
        assert!(-FP_HALF <= s.y && s.y < FP_HALF);
        assert_eq!(s.z, 0);
    }
}

#[test]
fn disk_samples_stay_inside_the_disk() {
    for _ in 0..256 {
        let p = random_in_unit_disk();
        assert!(p.length_squared() < FP_ONE);
        assert_eq!(p.z, 0);
    }
}

#[test]
fn unit_vectors_are_roughly_unit_length() {
    // normalization of a coarse fixed-point sample is approximate, but
    // the length stays within the sample's own rounding slack
    for _ in 0..256 {
        let u = random_unit_vector();
        let len = u.length();
        assert!(len > 0, "a direction sample is never degenerate");
        assert!(len < 2 * FP_ONE, "length {len} is out of all proportion");
    }
}
