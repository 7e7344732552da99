use raytracer::render::{
    next_scanline, sample_passes, Bounce, PassAction, PassPhase, Path, PathEnd, SamplePass,
    Scanline, BASE_SEED,
};
use raytracer::scalar::Scalar;
use raytracer::util::{Ray, Vec3};

fn color(r: f64, g: f64, b: f64) -> Vec3 {
    let s = |x: f64| Scalar::from_bits(x.to_bits());
    Vec3::new(s(r), s(g), s(b))
}

/// A ray from the origin along the given direction.
fn ray(x: f64, y: f64, z: f64) -> Ray {
    Ray::new(color(0.0, 0.0, 0.0), color(x, y, z))
}

fn eye() -> Ray {
    ray(0.0, 0.0, -1.0)
}

fn scattered(r: f64, g: f64, b: f64) -> Bounce {
    Bounce::Scattered(color(r, g, b), ray(r, g, b))
}

fn run(pass: &mut SamplePass, polls: &[bool]) -> Vec<PassAction> {
    polls.iter().map(|&stopped| pass.next(stopped)).collect()
}

#[test]
fn path_without_budget_is_black_from_the_start() {
    let mut path = Path::new(eye(), 0);
    assert_eq!(path.end(), Some(PathEnd::Exhausted));
    path.bounce(Bounce::Miss);
    assert_eq!(path.end(), Some(PathEnd::Exhausted));
    assert!(path.attenuation().is_empty());
}

#[test]
fn miss_shows_the_background_unattenuated() {
    let mut path = Path::new(eye(), 50);
    assert_eq!(path.end(), None);
    path.bounce(Bounce::Miss);
    assert_eq!(path.end(), Some(PathEnd::Background));
    assert!(path.attenuation().is_empty());
    assert_eq!(path.ray(), eye());
}

#[test]
fn absorbed_ray_ends_the_path() {
    let mut path = Path::new(eye(), 50);
    path.bounce(scattered(0.8, 0.6, 0.2));
    path.bounce(Bounce::Absorbed);
    assert_eq!(path.end(), Some(PathEnd::Absorbed));
    assert_eq!(*path.attenuation(), vec![color(0.8, 0.6, 0.2)]);
}

#[test]
fn attenuations_are_kept_in_the_order_of_the_bounces() {
    let mut path = Path::new(eye(), 50);
    path.bounce(scattered(0.5, 0.5, 0.5));
    path.bounce(scattered(1.0, 1.0, 1.0));
    path.bounce(scattered(0.8, 0.8, 0.0));
    assert_eq!(path.end(), None);
    assert_eq!(path.ray(), ray(0.8, 0.8, 0.0));
    path.bounce(Bounce::Miss);
    assert_eq!(path.end(), Some(PathEnd::Background));
    assert_eq!(path.ray(), ray(0.8, 0.8, 0.0));
    assert_eq!(
        *path.attenuation(),
        vec![color(0.5, 0.5, 0.5), color(1.0, 1.0, 1.0), color(0.8, 0.8, 0.0)]
    );
}

#[test]
fn path_ends_when_the_budget_is_spent() {
    let mut path = Path::new(eye(), 2);
    path.bounce(scattered(0.5, 0.5, 0.5));
    assert_eq!(path.end(), None);
    path.bounce(scattered(0.5, 0.5, 0.5));
    assert_eq!(path.end(), Some(PathEnd::Exhausted));
    assert_eq!(path.attenuation().len(), 2);
}

#[test]
fn ended_path_takes_no_more_bounces() {
    let mut path = Path::new(eye(), 1);
    path.bounce(scattered(0.5, 0.5, 0.5));
    assert_eq!(path.end(), Some(PathEnd::Exhausted));
    path.bounce(scattered(0.25, 0.25, 0.25));
    path.bounce(Bounce::Miss);
    assert_eq!(path.end(), Some(PathEnd::Exhausted));
    assert_eq!(path.ray(), ray(0.5, 0.5, 0.5));
    assert_eq!(*path.attenuation(), vec![color(0.5, 0.5, 0.5)]);
}

#[test]
fn scanlines_run_from_the_bottom_up() {
    assert_eq!(next_scanline(225, 0, false), Some(Scanline { y: 0, row: 224 }));
    assert_eq!(next_scanline(225, 1, false), Some(Scanline { y: 1, row: 223 }));
    assert_eq!(next_scanline(225, 224, false), Some(Scanline { y: 224, row: 0 }));
    assert_eq!(next_scanline(225, 225, false), None);
    assert_eq!(next_scanline(0, 0, false), None);
}

#[test]
fn first_scanline_is_rendered_even_when_stopped() {
    assert_eq!(next_scanline(225, 0, true), Some(Scanline { y: 0, row: 224 }));
    assert_eq!(next_scanline(225, 1, true), None);
    assert_eq!(next_scanline(225, 100, true), None);
}

#[test]
fn pass_is_seeded_by_its_index() {
    assert_eq!(BASE_SEED, 232008239771);
    assert_eq!(SamplePass::new(0).seed(), 232008239771);
    assert_eq!(SamplePass::new(9).seed(), 232008239780);
    assert_eq!(SamplePass::new(u32::MAX).seed(), 232008239771 + 4294967295);
}

#[test]
fn pass_renders_accumulates_and_reports() {
    let mut pass = SamplePass::new(4);
    assert_eq!(
        run(&mut pass, &[false, false, false, false, true]),
        vec![
            PassAction::Render { seed: 232008239775 },
            PassAction::Accumulate,
            PassAction::Report,
            PassAction::Stop,
            PassAction::Stop,
        ]
    );
    assert_eq!(pass, SamplePass { index: 4, phase: PassPhase::Done });
}

#[test]
fn pass_cancelled_before_it_starts_does_nothing() {
    let mut pass = SamplePass::new(4);
    let actions = run(&mut pass, &[true, false, false, false]);
    assert_eq!(actions, vec![PassAction::Stop; 4]);
}

#[test]
fn pass_cancelled_while_rendering_adds_nothing() {
    let mut pass = SamplePass::new(4);
    let actions = run(&mut pass, &[false, true, false, false]);
    assert_eq!(actions[0], PassAction::Render { seed: 232008239775 });
    assert_eq!(actions[1..], [PassAction::Stop; 3]);
}

#[test]
fn pass_cancelled_after_adding_does_not_report() {
    let mut pass = SamplePass::new(4);
    let actions = run(&mut pass, &[false, false, true, false]);
    assert_eq!(actions[1], PassAction::Accumulate);
    assert_eq!(actions[2..], [PassAction::Stop; 2]);
}

#[test]
fn cancelled_render_adds_no_sample() {
    let mut added = 0;
    for mut pass in sample_passes(10) {
        for action in run(&mut pass, &[true, true, true]) {
            if action == PassAction::Accumulate {
                added += 1;
            }
        }
    }
    assert_eq!(added, 0);
}

#[test]
fn same_render_twice_takes_the_same_steps() {
    let steps = |samples: u32| -> Vec<Vec<PassAction>> {
        sample_passes(samples)
            .into_iter()
            .map(|mut pass| run(&mut pass, &[false, false, false]))
            .collect()
    };
    assert_eq!(steps(10), steps(10));
    assert_eq!(steps(10)[7][0], PassAction::Render { seed: 232008239778 });
}

#[test]
fn one_pass_for_each_sample() {
    assert!(sample_passes(0).is_empty());
    let passes = sample_passes(3);
    assert_eq!(
        passes,
        vec![
            SamplePass { index: 0, phase: PassPhase::Pending },
            SamplePass { index: 1, phase: PassPhase::Pending },
            SamplePass { index: 2, phase: PassPhase::Pending },
        ]
    );
}
