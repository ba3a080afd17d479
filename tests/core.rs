use pbr::sampler::{PathState, SamplerConfiguration, Stage};
use pbr::scatter::{
    resolve_exit, resolve_reflect, resolve_transmit, select_interaction, Interaction, Scatter,
    Weight,
};
use pbr::scene::nearest_hit;

fn config(max_bounces: usize) -> SamplerConfiguration {
    SamplerConfiguration { max_bounces, adapt: 4 }
}

#[test]
fn it_works() {}

#[test]
fn path_without_bounces_is_finished() {
    let c = config(0);
    let s = PathState::start(&c);
    assert_eq!(s.stage, Stage::Finished);
    assert!(s.is_done());
}

#[test]
fn path_starts_with_a_scene_query() {
    let c = config(10);
    let s = PathState::start(&c);
    assert_eq!(s, PathState { bounce: 0, stage: Stage::Intersect });
    assert!(!s.is_done());
}

#[test]
fn path_miss_finishes_at_once() {
    let c = config(10);
    let s = PathState::start(&c).advance(false, &c);
    assert_eq!(s, PathState { bounce: 0, stage: Stage::Finished });
}

#[test]
fn path_roulette_failure_finishes() {
    let c = config(10);
    let s = PathState::start(&c).advance(true, &c);
    assert_eq!(s.stage, Stage::Roulette);
    let s = s.advance(false, &c);
    assert_eq!(s, PathState { bounce: 0, stage: Stage::Finished });
}

#[test]
fn path_absorption_finishes() {
    let c = config(10);
    let s = PathState::start(&c).advance(true, &c).advance(true, &c);
    assert_eq!(s.stage, Stage::Scatter);
    let s = s.advance(false, &c);
    assert_eq!(s, PathState { bounce: 0, stage: Stage::Finished });
}

#[test]
fn path_scatter_moves_to_next_bounce() {
    let c = config(3);
    let s = PathState::start(&c).advance(true, &c).advance(true, &c).advance(true, &c);
    assert_eq!(s, PathState { bounce: 1, stage: Stage::Intersect });
}

#[test]
fn path_stops_at_bounce_limit() {
    let c = config(2);
    let mut s = PathState::start(&c);
    let mut queries = 0;
    while !s.is_done() {
        if s.stage == Stage::Intersect {
            queries += 1;
        }
        s = s.advance(true, &c);
    }
    assert_eq!(queries, 2);
    assert_eq!(s, PathState { bounce: 1, stage: Stage::Finished });
}

#[test]
fn path_finished_stays_finished() {
    let c = config(4);
    let s = PathState { bounce: 2, stage: Stage::Finished };
    assert_eq!(s.advance(true, &c), s);
    assert_eq!(s.advance(false, &c), s);
}

#[test]
fn nearest_hit_of_no_surfaces() {
    assert_eq!(nearest_hit(&[]), None);
}

#[test]
fn nearest_hit_all_missing() {
    assert_eq!(nearest_hit(&[None, None, None]), None);
}

#[test]
fn nearest_hit_picks_smallest() {
    let hits = [None, Some(5), Some(3), None, Some(9)];
    assert_eq!(nearest_hit(&hits), Some((2, 3)));
}

#[test]
fn nearest_hit_tie_goes_to_first() {
    let hits = [Some(7), Some(4), Some(4), Some(4)];
    assert_eq!(nearest_hit(&hits), Some((1, 4)));
}

#[test]
fn nearest_hit_not_the_last_hit() {
    let hits = [Some(1), Some(8)];
    assert_eq!(nearest_hit(&hits), Some((0, 1)));
}

#[test]
fn nearest_hit_on_float_distances() {
    let near: f64 = 1.25;
    let far: f64 = 2.5;
    let hits = [Some(far.to_bits()), None, Some(near.to_bits())];
    assert_eq!(nearest_hit(&hits), Some((2, near.to_bits())));
}

#[test]
fn interaction_exit_when_not_entering() {
    assert_eq!(select_interaction(false, true, true, true), Interaction::Exit);
}

#[test]
fn interaction_cascade_order() {
    assert_eq!(select_interaction(true, true, true, true), Interaction::Reflect);
    assert_eq!(select_interaction(true, false, true, true), Interaction::Transmit);
    assert_eq!(select_interaction(true, false, false, true), Interaction::Absorb);
    assert_eq!(select_interaction(true, false, false, false), Interaction::Diffuse);
}

#[test]
fn reflect_falls_back_to_diffuse() {
    assert_eq!(resolve_reflect(true), Scatter::Diffuse);
    assert_eq!(resolve_reflect(false), Scatter::Mirror);
}

#[test]
fn transmit_outcomes() {
    assert_eq!(resolve_transmit(false, true), Scatter::Diffuse);
    assert_eq!(resolve_transmit(true, true), Scatter::Refract { perturbed: true });
    assert_eq!(resolve_transmit(true, false), Scatter::Refract { perturbed: false });
}

#[test]
fn exit_outcomes() {
    assert_eq!(resolve_exit(true, true, true), Scatter::PassThrough);
    assert_eq!(resolve_exit(false, true, false), Scatter::ExitRefract { perturbed: false });
    assert_eq!(resolve_exit(false, true, true), Scatter::ExitRefract { perturbed: true });
    assert_eq!(resolve_exit(false, false, true), Scatter::InternalReflect);
}

#[test]
fn scatter_weights() {
    assert_eq!(Scatter::Mirror.weight(), Weight::Specular);
    assert_eq!(Scatter::Refract { perturbed: true }.weight(), Weight::Unit);
    assert_eq!(Scatter::Diffuse.weight(), Weight::Lambert);
    assert_eq!(Scatter::Absorbed.weight(), Weight::Zero);
    assert_eq!(Scatter::PassThrough.weight(), Weight::Unit);
    assert_eq!(Scatter::ExitRefract { perturbed: false }.weight(), Weight::Absorbance);
    assert_eq!(Scatter::InternalReflect.weight(), Weight::Absorbance);
}

#[test]
fn only_absorption_stops() {
    assert!(!Scatter::Absorbed.continues());
    assert!(Scatter::Mirror.continues());
    assert!(Scatter::Diffuse.continues());
    assert!(Scatter::PassThrough.continues());
    assert!(Scatter::InternalReflect.continues());
}
