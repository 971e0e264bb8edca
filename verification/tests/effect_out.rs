//! Effects paired with outputs.

use bevy_pipe_affect::effect_composition::{enibmoc, mandela, placebo};
use bevy_pipe_affect::effects::{message_write, res_set, MessageWrite, ResSet};
use bevy_pipe_affect::{effect_out, Effect, EffectOut, ParamSet};

#[derive(Debug, PartialEq, Eq)]
struct MyEffect<const N: usize>;

impl<const N: usize> Effect for MyEffect<N> {
    type MutParam = ();

    fn affect(self, _params: &mut ()) {
        let MyEffect = self;
    }
}

#[derive(Debug, PartialEq, Eq)]
struct MyMessage(u32);

#[test]
fn effect_out_pairs_effect_and_output() {
    assert_eq!(effect_out(MyEffect::<0>, 5), EffectOut { effect: MyEffect::<0>, out: 5 });
}

#[test]
fn map_changes_only_the_output() {
    let initial = effect_out(MyEffect::<0>, 5);
    let mapped = initial.map(|x| format!("{x}"));

    assert_eq!(mapped, effect_out(MyEffect::<0>, "5".to_string()));
}

#[test]
fn map_twice_is_map_of_the_composition() {
    let f = |x: u32| x + 3;
    let g = |x: u32| format!("<{x}>");
    for out in [0u32, 1, 41, 1000] {
        let twice = effect_out(res_set(out), out).map(f).map(g);
        let once = effect_out(res_set(out), out).map(|x| g(f(x)));
        assert_eq!(twice, once);
        assert_eq!(twice, effect_out(res_set(out), format!("<{}>", out + 3)));
    }
}

#[test]
fn and_then_combines_the_effects_in_order() {
    let initial = effect_out(MyEffect::<0>, 5);
    let composed = initial.and_then(|x| effect_out(MyEffect::<1>, format!("{x}")));

    assert_eq!(composed, effect_out((MyEffect::<0>, MyEffect::<1>), "5".to_string()));
}

#[test]
fn and_then_of_two_plain_effects_is_their_pair() {
    let first = EffectOut::from(res_set(1u8));
    let composed = first.and_then(|_| EffectOut::from(message_write(2u16)));
    assert_eq!(composed, effect_out((res_set(1u8), message_write(2u16)), ()));

    let composed = EffectOut::from(res_set(1u8)).and_then(|_| message_write(2u16));
    assert_eq!(composed, effect_out((res_set(1u8), message_write(2u16)), ()));

    let mut states = ParamSet((0u8, vec![]));
    composed.effect.affect(&mut states);
    assert_eq!(states, ParamSet((1u8, vec![2u16])));
}

#[test]
fn and_then_compose_composes_with_the_given_function() {
    let initial = effect_out(MyEffect::<0>, 5);
    let composed =
        initial.and_then_compose(|x| effect_out(MyEffect::<1>, format!("{x}")), enibmoc);

    assert_eq!(composed, effect_out((MyEffect::<1>, MyEffect::<0>), "5".to_string()));

    let first_wins =
        effect_out(MyEffect::<0>, 5).and_then_compose(|x| effect_out(MyEffect::<1>, x * 2), mandela);
    assert_eq!(first_wins, effect_out(MyEffect::<0>, 10));

    let second_wins =
        effect_out(MyEffect::<0>, 5).and_then_compose(|x| effect_out(MyEffect::<1>, x * 2), placebo);
    assert_eq!(second_wins, effect_out(MyEffect::<1>, 10));
}

#[test]
fn and_extend_joins_the_effects_in_order() {
    let initial = effect_out(vec![message_write(MyMessage(0)), message_write(MyMessage(1))], 5);
    let composed =
        initial.and_extend(|x| effect_out(vec![message_write(MyMessage(2))], format!("{x}")));

    assert_eq!(
        composed,
        effect_out(
            vec![
                message_write(MyMessage(0)),
                message_write(MyMessage(1)),
                message_write(MyMessage(2))
            ],
            "5".to_string()
        )
    );
}

#[test]
fn and_extend_accumulates_one_effect_for_each_step() {
    fn search(steps: u32) -> EffectOut<Vec<MessageWrite<u32>>, u32> {
        if steps == 0 {
            effect_out(vec![], 0)
        } else {
            search(steps - 1).and_extend(|depth| effect_out(vec![message_write(depth)], depth + 1))
        }
    }
    let found = search(5);
    assert_eq!(found.out, 5);
    let mut queue = vec![];
    found.effect.affect(&mut queue);
    assert_eq!(queue, vec![0, 1, 2, 3, 4]);
}

#[test]
fn flatten_combines_the_effects_in_order() {
    let nested = effect_out(MyEffect::<0>, effect_out(MyEffect::<1>, 5));
    let flattened = nested.flatten();

    assert_eq!(flattened, effect_out((MyEffect::<0>, MyEffect::<1>), 5));
}

#[test]
fn flatten_compose_composes_with_the_given_function() {
    let nested = effect_out(MyEffect::<0>, effect_out(MyEffect::<1>, 5));
    let flattened = nested.flatten_compose(enibmoc);

    assert_eq!(flattened, effect_out((MyEffect::<1>, MyEffect::<0>), 5));
}

#[test]
fn flatten_of_two_maps_is_and_then() {
    let next = |x: u32| effect_out(message_write(x), x + 1);
    for out in [0u32, 7, 99] {
        let by_maps = effect_out(res_set(out), out).map(next).map(Into::into).flatten();
        let direct = effect_out(res_set(out), out).and_then(next);
        assert_eq!(by_maps, direct);
        assert_eq!(direct, effect_out((res_set(out), message_write(out)), out + 1));
    }
}

#[test]
fn plain_effect_converts_into_unit_output() {
    let converted: EffectOut<ResSet<u8>, ()> = res_set(3u8).into();
    assert_eq!(converted, EffectOut { effect: res_set(3u8), out: () });
    assert_eq!(EffectOut::from(MyEffect::<4>), effect_out(MyEffect::<4>, ()));
}

#[test]
fn default_pairs_the_defaults() {
    assert_eq!(EffectOut::<ResSet<u8>, u16>::default(), effect_out(res_set(0u8), 0u16));
}

#[test]
fn we_can_collect_effect_outs_with_vec_out() {
    for len in [0usize, 1, 2, 3, 10, 100, 300, 999] {
        let message_outs: Vec<(u128, i64)> =
            (0..len).map(|i| ((i as u128) * 31 % 17, -(i as i64))).collect();

        let actual = EffectOut::from_iter(
            message_outs
                .clone()
                .into_iter()
                .map(|(message, out)| effect_out(message_write(message), out))
                .collect(),
        );

        let (expected_messages, expected_outs): (Vec<_>, Vec<_>) =
            message_outs.into_iter().map(|(m, o)| (message_write(m), o)).unzip();

        let expected = effect_out(expected_messages, expected_outs);

        assert_eq!(actual, expected);
    }
}

#[test]
fn collected_effect_outs_unzip_into_the_pairs_they_came_from() {
    for len in [0usize, 1, 5, 128, 400] {
        let pairs: Vec<EffectOut<ResSet<usize>, String>> =
            (0..len).map(|i| effect_out(res_set(len - i), format!("out {i}"))).collect();
        let collected = EffectOut::from_iter(pairs.clone());
        assert_eq!(collected.effect.len(), len);
        assert_eq!(collected.out.len(), len);
        let unzipped: Vec<EffectOut<ResSet<usize>, String>> = collected
            .effect
            .into_iter()
            .zip(collected.out)
            .map(|(effect, out)| effect_out(effect, out))
            .collect();
        assert_eq!(unzipped, pairs);
    }
}
