use raytracer::scalar::Scalar;
use raytracer::scene::nearest;
use raytracer::scene::nearest_valid;
use raytracer::scene::tangent_hit;
use raytracer::scene::Hit;
use raytracer::scene::Hittable;
use raytracer::scene::Roots;
use raytracer::scene::World;

fn scalar(x: f64) -> Scalar {
    Scalar::from_bits(x.to_bits())
}

fn hit(distance: f64, normal: u8) -> Hit<u8> {
    Hit { distance: scalar(distance), normal }
}

fn number(s: Scalar) -> f64 {
    f64::from_bits(s.to_bits())
}

type V3 = [f64; 3];

fn sub(a: V3, b: V3) -> V3 {
    [a[0] - b[0], a[1] - b[1], a[2] - b[2]]
}

fn dot(a: V3, b: V3) -> f64 {
    a[0] * b[0] + a[1] * b[1] + a[2] * b[2]
}

struct Ray {
    origin: V3,
    direction: V3,
}

struct Sphere {
    origin: V3,
    radius: f64,
}

impl Sphere {
    fn root(&self, ray: &Ray, oc: V3, t: f64) -> Hit<V3> {
        let d = ray.direction;
        let normal = [
            (d[0] * t + oc[0]) / self.radius,
            (d[1] * t + oc[1]) / self.radius,
            (d[2] * t + oc[2]) / self.radius,
        ];
        Hit { distance: scalar(t), normal }
    }

    fn coefficients(&self, ray: &Ray) -> (V3, f64, f64) {
        let oc = sub(ray.origin, self.origin);
        let b = -dot(ray.direction, oc);
        let c = dot(oc, oc) - self.radius * self.radius;
        (oc, b, b * b - c)
    }
}

impl Hittable<Ray, V3> for Sphere {
    fn answer(&self, ray: &Ray) -> Option<Hit<V3>> {
        self.get_hits(ray)
    }

    fn get_hits(&self, ray: &Ray) -> Option<Hit<V3>> {
        let (oc, b, discriminant) = self.coefficients(ray);
        match Roots::of(scalar(discriminant)) {
            Roots::Zero => None,
            Roots::One => tangent_hit(self.root(ray, oc, b)),
            Roots::Two => {
                let spread = discriminant.sqrt();
                nearest_valid(self.root(ray, oc, b - spread), self.root(ray, oc, b + spread))
            }
        }
    }
}

fn small_sphere() -> Sphere {
    Sphere { origin: [1.0, 0.0, 0.0], radius: 0.5 }
}

fn ground() -> Sphere {
    Sphere { origin: [1.0, 0.0, -100.5], radius: 100.0 }
}

#[test]
fn discriminant_decides_the_number_of_roots() {
    assert_eq!(Roots::of(scalar(0.25)), Roots::Two);
    assert_eq!(Roots::of(scalar(5e-324)), Roots::Two);
    assert_eq!(Roots::of(scalar(f64::INFINITY)), Roots::Two);
    assert_eq!(Roots::of(scalar(-0.75)), Roots::Zero);
    assert_eq!(Roots::of(scalar(-5e-324)), Roots::Zero);
    assert_eq!(Roots::of(scalar(f64::NEG_INFINITY)), Roots::Zero);
    assert_eq!(Roots::of(scalar(0.0)), Roots::One);
    assert_eq!(Roots::of(scalar(-0.0)), Roots::One);
    assert_eq!(Roots::of(scalar(f64::NAN)), Roots::One);
}

#[test]
fn ray_aimed_at_the_center_hits_at_distance_minus_radius() {
    let sphere = small_sphere();
    let ray = Ray { origin: [0.0, 0.0, 0.0], direction: [1.0, 0.0, 0.0] };
    let (_, b, discriminant) = sphere.coefficients(&ray);
    assert_eq!(b, 1.0);
    assert_eq!(discriminant, 0.25);
    assert_eq!(Roots::of(scalar(discriminant)), Roots::Two);
    let found = sphere.get_hits(&ray).unwrap();
    assert_eq!(number(found.distance), 1.0 - 0.5);
    assert_eq!(found.normal, [-1.0, 0.0, 0.0]);
}

#[test]
fn ray_that_misses_hits_nothing() {
    let sphere = small_sphere();
    let ray = Ray { origin: [0.0, 0.0, 0.0], direction: [0.0, 1.0, 0.0] };
    let (_, _, discriminant) = sphere.coefficients(&ray);
    assert_eq!(discriminant, -0.75);
    assert_eq!(Roots::of(scalar(discriminant)), Roots::Zero);
    assert!(sphere.get_hits(&ray).is_none());
}

#[test]
fn tangent_ray_has_one_root() {
    let sphere = Sphere { origin: [0.5, 0.0, 1.0], radius: 0.5 };
    let ray = Ray { origin: [0.0, 0.0, 0.0], direction: [0.0, 0.0, 1.0] };
    let (_, b, discriminant) = sphere.coefficients(&ray);
    assert_eq!(b, 1.0);
    assert_eq!(discriminant, 0.0);
    assert_eq!(Roots::of(scalar(discriminant)), Roots::One);
    let found = sphere.get_hits(&ray).unwrap();
    assert_eq!(number(found.distance), 1.0);
    assert_eq!(found.normal, [-1.0, 0.0, 0.0]);
}

#[test]
fn ray_from_inside_hits_the_far_root() {
    let sphere = small_sphere();
    let ray = Ray { origin: [1.0, 0.0, 0.0], direction: [1.0, 0.0, 0.0] };
    let found = sphere.get_hits(&ray).unwrap();
    assert_eq!(number(found.distance), 0.5);
    assert_eq!(found.normal, [1.0, 0.0, 0.0]);
}

#[test]
fn sphere_behind_the_ray_is_not_hit() {
    let sphere = small_sphere();
    let ray = Ray { origin: [0.0, 0.0, 0.0], direction: [-1.0, 0.0, 0.0] };
    let (_, _, discriminant) = sphere.coefficients(&ray);
    assert_eq!(Roots::of(scalar(discriminant)), Roots::Two);
    assert!(sphere.get_hits(&ray).is_none());
}

#[test]
fn ray_that_starts_on_the_surface_does_not_hit_it_there() {
    let sphere = small_sphere();
    let ray = Ray { origin: [0.5, 0.0, 0.0], direction: [1.0, 0.0, 0.0] };
    let found = sphere.get_hits(&ray).unwrap();
    assert_eq!(number(found.distance), 1.0);
}

#[test]
fn one_valid_root_is_taken_whichever_it_is() {
    assert_eq!(nearest_valid(hit(2.0, 1), hit(-1.0, 2)), Some(hit(2.0, 1)));
    assert_eq!(nearest_valid(hit(-1.0, 1), hit(2.0, 2)), Some(hit(2.0, 2)));
    assert_eq!(nearest_valid(hit(2.0, 1), hit(0.0, 2)), Some(hit(2.0, 1)));
    assert_eq!(nearest_valid(hit(0.0005, 1), hit(2.0, 2)), Some(hit(2.0, 2)));
}

#[test]
fn nearer_of_two_valid_roots_is_taken() {
    assert_eq!(nearest_valid(hit(0.5, 1), hit(1.5, 2)), Some(hit(0.5, 1)));
    assert_eq!(nearest_valid(hit(1.5, 1), hit(0.5, 2)), Some(hit(0.5, 2)));
    assert_eq!(nearest_valid(hit(f64::INFINITY, 1), hit(f64::MAX, 2)), Some(hit(f64::MAX, 2)));
}

#[test]
fn equal_valid_roots_give_the_first() {
    assert_eq!(nearest_valid(hit(0.75, 1), hit(0.75, 2)), Some(hit(0.75, 1)));
}

#[test]
fn no_valid_root_gives_nothing() {
    assert_eq!(nearest_valid(hit(-2.0, 1), hit(-1.0, 2)), None);
    assert_eq!(nearest_valid(hit(0.0, 1), hit(-0.0, 2)), None);
    assert_eq!(nearest_valid(hit(0.001, 1), hit(0.0005, 2)), None);
    assert_eq!(nearest_valid(hit(f64::NEG_INFINITY, 1), hit(0.001, 2)), None);
}

#[test]
fn epsilon_itself_is_too_near() {
    let just_above = f64::from_bits(0.001f64.to_bits() + 1);
    assert!(!hit(0.001, 0).is_valid());
    assert!(hit(just_above, 0).is_valid());
    assert_eq!(tangent_hit(hit(0.001, 7)), None);
    assert_eq!(tangent_hit(hit(just_above, 7)), Some(hit(just_above, 7)));
    assert_eq!(nearest_valid(hit(0.001, 1), hit(just_above, 2)), Some(hit(just_above, 2)));
}

#[test]
fn tangent_root_counts_where_it_is_valid() {
    assert_eq!(tangent_hit(hit(1.0, 3)), Some(hit(1.0, 3)));
    assert_eq!(tangent_hit(hit(-1.0, 3)), None);
    assert_eq!(tangent_hit(hit(0.0, 3)), None);
    assert_eq!(tangent_hit(hit(f64::NAN, 3)), None);
    assert_eq!(tangent_hit(hit(f64::INFINITY, 3)), Some(hit(f64::INFINITY, 3)));
}

#[test]
fn nearest_finds_the_first_of_the_nearest() {
    let answers = vec![
        None,
        Some(hit(1.5, 1)),
        Some(hit(0.5, 2)),
        Some(hit(0.5, 3)),
        Some(hit(0.75, 4)),
    ];
    assert_eq!(nearest(&answers), Some(2));
}

#[test]
fn nearest_skips_what_is_not_valid() {
    let answers = vec![
        Some(hit(0.0005, 1)),
        Some(hit(-3.0, 2)),
        Some(hit(f64::NAN, 3)),
        Some(hit(f64::NEG_INFINITY, 4)),
        None,
        Some(hit(0.001, 5)),
    ];
    assert_eq!(nearest(&answers), None);
    let mut more = answers;
    more.push(Some(hit(1e300, 6)));
    assert_eq!(nearest(&more), Some(6));
}

#[test]
fn nearest_keeps_a_valid_hit_however_far() {
    assert_eq!(nearest(&vec![Some(hit(f64::MAX, 1))]), Some(0));
    assert_eq!(nearest(&vec![Some(hit(f64::INFINITY, 1))]), Some(0));
    assert_eq!(nearest(&vec![None, Some(hit(f64::INFINITY, 1)), Some(hit(f64::MAX, 2))]), Some(2));
    assert_eq!(
        nearest(&vec![Some(hit(f64::INFINITY, 1)), Some(hit(f64::INFINITY, 2))]),
        Some(0)
    );
    assert_eq!(nearest(&vec![Some(hit(f64::NAN, 1)), Some(hit(f64::MAX, 2))]), Some(1));
}

#[test]
fn nearest_of_nothing_is_nothing() {
    let answers: Vec<Option<Hit<u8>>> = Vec::new();
    assert_eq!(nearest(&answers), None);
    let misses: Vec<Option<Hit<u8>>> = vec![None, None, None];
    assert_eq!(nearest(&misses), None);
}

struct Fixed(Option<Hit<u8>>);

impl Hittable<(), u8> for Fixed {
    fn answer(&self, ray: &()) -> Option<Hit<u8>> {
        self.get_hits(ray)
    }

    fn get_hits(&self, _ray: &()) -> Option<Hit<u8>> {
        self.0
    }
}

fn world_of(answers: Vec<Option<Hit<u8>>>) -> World<Fixed> {
    let mut world = World::new();
    for answer in answers {
        world.push(Fixed(answer));
    }
    world
}

#[test]
fn empty_world_is_never_hit() {
    let world: World<Fixed> = World::new();
    assert_eq!(world.len(), 0);
    assert_eq!(world.get_hit(&()), None);
}

#[test]
fn world_returns_the_nearest_hit_of_its_primitives() {
    let world = world_of(vec![Some(hit(3.0, 1)), None, Some(hit(2.0, 2)), Some(hit(2.5, 3))]);
    assert_eq!(world.len(), 4);
    assert_eq!(world.get_hit(&()), Some(hit(2.0, 2)));
}

#[test]
fn world_keeps_the_first_of_equally_near_hits() {
    let world = world_of(vec![Some(hit(2.0, 1)), Some(hit(2.0, 2)), Some(hit(2.0, 3))]);
    assert_eq!(world.get_hit(&()), Some(hit(2.0, 1)));
}

#[test]
fn world_drops_hits_that_are_not_valid() {
    let world = world_of(vec![
        Some(hit(0.001, 1)),
        Some(hit(-1.0, 2)),
        Some(hit(0.0, 3)),
        Some(hit(f64::NAN, 4)),
    ]);
    assert_eq!(world.get_hit(&()), None);
}

#[test]
fn world_keeps_a_valid_hit_however_far() {
    let world = world_of(vec![Some(hit(f64::MAX, 1))]);
    assert_eq!(world.get_hit(&()), Some(hit(f64::MAX, 1)));
    let world = world_of(vec![Some(hit(0.0005, 1)), Some(hit(f64::INFINITY, 2))]);
    assert_eq!(world.get_hit(&()), Some(hit(f64::INFINITY, 2)));
    let world = world_of(vec![Some(hit(f64::INFINITY, 1)), Some(hit(f64::MAX, 2))]);
    assert_eq!(world.get_hit(&()), Some(hit(f64::MAX, 2)));
}

struct FirstOnly;

impl Hittable<u8, u8> for FirstOnly {
    fn answer(&self, ray: &u8) -> Option<Hit<u8>> {
        self.get_hits(ray)
    }

    fn get_hits(&self, ray: &u8) -> Option<Hit<u8>> {
        Some(hit(*ray as f64, *ray))
    }
}

#[test]
fn world_hands_the_ray_to_each_primitive() {
    let mut world = World::new();
    world.push(FirstOnly);
    world.push(FirstOnly);
    assert_eq!(world.get_hit(&3), Some(hit(3.0, 3)));
    assert_eq!(world.get_hit(&7), Some(hit(7.0, 7)));
    assert_eq!(world.get_hit(&0), None);
}

#[test]
fn world_looks_past_its_first_primitive() {
    let world = world_of(vec![None, Some(hit(9.0, 1)), Some(hit(4.0, 2))]);
    assert_eq!(world.get_hit(&()), Some(hit(4.0, 2)));
    let world = world_of(vec![Some(hit(9.0, 1)), Some(hit(4.0, 2)), Some(hit(1.0, 3))]);
    assert_eq!(world.get_hit(&()), Some(hit(1.0, 3)));
}

#[test]
fn world_agrees_with_nearest() {
    let cases = vec![
        vec![],
        vec![None],
        vec![Some(hit(1.0, 1))],
        vec![Some(hit(1.0, 1)), Some(hit(0.5, 2)), None, Some(hit(0.5, 3))],
        vec![Some(hit(0.0, 1)), Some(hit(9.0, 2)), Some(hit(f64::INFINITY, 3))],
    ];
    for answers in cases {
        let expected = nearest(&answers).map(|i| answers[i].unwrap());
        assert_eq!(world_of(answers).get_hit(&()), expected);
    }
}

#[test]
fn sample_scene_is_hit_on_the_small_sphere_straight_ahead() {
    let mut world = World::new();
    world.push(small_sphere());
    world.push(ground());
    let ahead = Ray { origin: [0.0, 0.0, 0.0], direction: [1.0, 0.0, 0.0] };
    let found = world.get_hit(&ahead).unwrap();
    assert_eq!(number(found.distance), 0.5);
    assert_eq!(found.normal, [-1.0, 0.0, 0.0]);
}

#[test]
fn sample_scene_is_hit_on_the_ground_below() {
    let mut world = World::new();
    world.push(small_sphere());
    world.push(ground());
    let down = Ray { origin: [1.0, 60.0, 0.0], direction: [0.0, 0.0, -1.0] };
    let found = world.get_hit(&down).unwrap();
    assert_eq!(number(found.distance), 20.5);
    assert_eq!(found.normal, [0.0, 0.6, 0.8]);
}

#[test]
fn sample_scene_is_hit_on_the_sphere_before_the_ground() {
    let mut world = World::new();
    world.push(ground());
    world.push(small_sphere());
    let down = Ray { origin: [1.0, 0.0, 1.0], direction: [0.0, 0.0, -1.0] };
    let found = world.get_hit(&down).unwrap();
    assert_eq!(number(found.distance), 0.5);
    assert_eq!(found.normal, [0.0, 0.0, 1.0]);
}

#[test]
fn sample_scene_is_not_hit_by_a_ray_to_the_sky() {
    let mut world = World::new();
    world.push(small_sphere());
    world.push(ground());
    let up = Ray { origin: [0.0, 0.0, 0.0], direction: [0.0, 0.0, 1.0] };
    assert!(world.get_hit(&up).is_none());
}
