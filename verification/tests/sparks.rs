use egui::{Color32, Context, Id, Pos2, Vec2};
use fastpotify::spark::{
    burst, draw, live, particle_lead, particle_radius, particle_reach, phase, Burst, AT_ONCE,
    PARTICLES,
};

/// How long a burst lives.
const LIFE: f32 = 0.45;

fn slot() -> Id {
    Id::new("fastpotify-spark")
}

fn age(now: f64, burst: &Burst) -> f32 {
    (((now - f64::from_bits(burst.started)) as f32) / LIFE).max(0.0)
}

fn bursts(ctx: &Context) -> Vec<Burst> {
    ctx.data(|data| live(data, slot()))
}

fn finished(ctx: &Context, now: f64) -> Vec<bool> {
    bursts(ctx).iter().map(|burst| age(now, burst) >= 1.0).collect()
}

fn now(ctx: &Context) -> f64 {
    ctx.input(|input| input.time)
}

fn fire(ctx: &Context, owner: Id, center: Pos2) {
    let started = now(ctx);
    let over = finished(ctx, started);
    let set_off = Burst {
        owner,
        center,
        color: Color32::GREEN,
        started: started.to_bits(),
    };
    assert!(ctx.data_mut(|data| burst(data, slot(), &over, false, set_off)));
}

fn paint(ctx: &Context) {
    let over = finished(ctx, now(ctx));
    let alive = ctx.data_mut(|data| draw(data, slot(), &over));
    let painter = ctx.layer_painter(egui::LayerId::new(egui::Order::Foreground, slot()));
    for burst in alive {
        painter.circle_stroke(burst.center, 9.0, egui::Stroke::new(1.0, burst.color));
        for index in 0..PARTICLES {
            let radius = particle_radius(index) as f32 / 10.0;
            painter.circle_filled(burst.center + Vec2::splat(index as f32), radius, burst.color);
        }
    }
}

fn age_of(ctx: &Context, owner: Id) -> Option<f32> {
    let now = now(ctx);
    let over = finished(ctx, now);
    ctx.data(|data| phase(data, slot(), &over, owner))
        .map(|burst| age(now, &burst))
}

fn count(shape: &egui::epaint::Shape) -> usize {
    match shape {
        egui::epaint::Shape::Circle(_) => 1,
        egui::epaint::Shape::Vec(shapes) => shapes.iter().map(count).sum(),
        _ => 0,
    }
}

fn frame(ctx: &Context, at: f64, set_off: Option<(Id, Pos2)>) -> usize {
    let input = egui::RawInput {
        time: Some(at),
        screen_rect: Some(egui::Rect::from_min_size(
            Pos2::ZERO,
            Vec2::new(400.0, 300.0),
        )),
        ..Default::default()
    };
    let mut output = ctx.run_ui(input, |ui| {
        if let Some((owner, center)) = set_off {
            fire(ui.ctx(), owner, center);
        }
        paint(ui.ctx());
    });
    output.textures_delta.clear();
    output.shapes.iter().map(|c| count(&c.shape)).sum()
}

#[test]
fn a_burst_is_drawn_then_leaves_nothing_behind() {
    let ctx = Context::default();
    let heart = Id::new("a-heart");
    let at = Pos2::new(100.0, 100.0);

    let drawn = frame(&ctx, 0.0, Some((heart, at)));
    assert!(
        drawn > PARTICLES,
        "the burst drew {drawn} shapes, fewer than its ring and particles"
    );
    assert!(
        age_of(&ctx, heart).is_some(),
        "the heart cannot see its burst"
    );
    assert!(
        age_of(&ctx, Id::new("another")).is_none(),
        "it leaked sideways"
    );

    assert!(
        frame(&ctx, f64::from(LIFE) * 0.5, None) > 0,
        "it went out early"
    );

    assert_eq!(
        frame(&ctx, f64::from(LIFE) + 0.05, None),
        0,
        "the burst outlived its own life"
    );
    assert!(age_of(&ctx, heart).is_none());
    assert!(
        ctx.data(|data| data.get_temp::<fastpotify::memory::Memo>(slot()))
            .is_none(),
        "a finished burst stayed in memory"
    );
}

#[test]
fn liking_a_run_of_songs_does_not_pile_bursts_up() {
    let ctx = Context::default();
    for step in 0..40 {
        frame(
            &ctx,
            f64::from(step) * 0.02,
            Some((Id::new(step), Pos2::new(100.0, 20.0 + step as f32))),
        );
    }
    let held = bursts(&ctx);
    assert!(
        held.len() <= AT_ONCE,
        "forty likes left {} bursts in the air",
        held.len()
    );
}

#[test]
fn liking_the_same_heart_again_restarts_its_burst_rather_than_adding_one() {
    let ctx = Context::default();
    let heart = Id::new("one-heart");
    let at = Pos2::new(50.0, 50.0);
    frame(&ctx, 0.0, Some((heart, at)));
    frame(&ctx, 0.1, Some((heart, at)));
    let held = bursts(&ctx);
    assert_eq!(held.len(), 1, "one heart owns two bursts");
    let t = age_of(&ctx, heart).expect("the restarted burst is gone");
    assert!(
        t < 0.05,
        "it carried on from the first burst instead of restarting: {t}"
    );
}

fn lone(owner: Id, started: u64) -> Burst {
    Burst {
        owner,
        center: Pos2::ZERO,
        color: Color32::RED,
        started,
    }
}

#[test]
fn a_full_sky_loses_its_oldest_burst() {
    let mut data = egui::util::IdTypeMap::default();
    let slot = slot();
    for step in 0..6u64 {
        let over = vec![false; live(&data, slot).len()];
        assert!(burst(&mut data, slot, &over, false, lone(Id::new(step), step)));
    }
    let started: Vec<u64> = live(&data, slot).iter().map(|b| b.started).collect();
    assert_eq!(started, vec![2, 3, 4, 5]);
}

#[test]
fn a_finished_burst_makes_room_before_the_oldest_does() {
    let mut data = egui::util::IdTypeMap::default();
    let slot = slot();
    for step in 0..4u64 {
        let over = vec![false; live(&data, slot).len()];
        burst(&mut data, slot, &over, false, lone(Id::new(step), step));
    }
    let over = vec![false, false, true, false];
    burst(&mut data, slot, &over, false, lone(Id::new("new"), 9));
    let started: Vec<u64> = live(&data, slot).iter().map(|b| b.started).collect();
    assert_eq!(started, vec![0, 1, 3, 9]);
}

#[test]
fn less_movement_sets_nothing_off() {
    let mut data = egui::util::IdTypeMap::default();
    let set_off = lone(Id::new("heart"), 0);
    assert!(!burst(&mut data, slot(), &Vec::new(), true, set_off));
    assert!(data.is_empty());
    assert!(draw(&mut data, slot(), &Vec::new()).is_empty());
}

#[test]
fn a_burst_that_is_over_is_not_seen() {
    let mut data = egui::util::IdTypeMap::default();
    let heart = Id::new("heart");
    burst(&mut data, slot(), &Vec::new(), false, lone(heart, 1));
    assert!(phase(&data, slot(), &vec![false], heart).is_some());
    assert!(phase(&data, slot(), &vec![true], heart).is_none());
}

#[test]
fn particles_alternate_in_size_and_differ_in_reach() {
    let sizes: Vec<u32> = (0..PARTICLES).map(particle_radius).collect();
    assert_eq!(sizes, vec![20, 14, 20, 14, 20, 14, 20, 14]);
    let reach: Vec<usize> = (0..PARTICLES).map(particle_reach).collect();
    assert_eq!(reach, vec![0, 3, 1, 4, 2, 0, 3, 1]);
    let lead: Vec<usize> = (0..PARTICLES).map(particle_lead).collect();
    assert_eq!(lead, vec![0, 2, 1, 0, 2, 1, 0, 2]);
}
