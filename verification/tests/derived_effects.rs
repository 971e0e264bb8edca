//! Derived effects at work: each implementation below is the source that the derivation
//! emits for the type above it, and is applied to states of its parts.
#![allow(unused_mut)]

use bevy_pipe_affect::effect_derive::derive_effect;
use bevy_pipe_affect::effect_derive::shape::{
    Data, DataEnum, DataStruct, DeriveInput, Field, Fields, GenericParam, Generics, TypeParam,
    Variant,
};
use bevy_pipe_affect::effects::{message_write, res_set, MessageWrite, ResSet};
use bevy_pipe_affect::{Effect, ParamSet};

fn text(text: &str) -> String {
    text.to_string()
}

fn named(ident: &str, ty: &str) -> Field {
    Field { ident: text(ident), ty: text(ty) }
}

fn no_generics() -> Generics {
    Generics { params: vec![], where_clause: None }
}

/// The source as the compiler reads it: its tokens, whatever the white space.
fn tokens(source: &str) -> String {
    source.parse::<proc_macro2::TokenStream>().unwrap().to_string()
}

fn assert_derives(input: DeriveInput, expected: &str) {
    assert_eq!(tokens(&derive_effect(input).unwrap()), tokens(expected));
}

struct Nothing;

impl bevy_pipe_affect::Effect for Nothing {
    type MutParam = <() as bevy_pipe_affect::Effect>::MutParam;
    fn affect(self, params: &mut Self::MutParam) {
        let Nothing = self;
    }
}

#[test]
fn zero_field_struct_is_the_identity_effect() {
    assert_derives(
        DeriveInput {
            ident: text("Nothing"),
            generics: no_generics(),
            data: Data::Struct(DataStruct { fields: Fields::Unit }),
        },
        "impl bevy_pipe_affect::Effect for Nothing {
            type MutParam = <() as bevy_pipe_affect::Effect>::MutParam;
            fn affect(self, params: &mut Self::MutParam) {
                let Nothing = self;
            }
        }",
    );
    let mut state = ();
    Nothing.affect(&mut state);
    assert_eq!(state, ());

    let mut states = ParamSet((3u8, ()));
    (res_set(4u8), Nothing).affect(&mut states);
    assert_eq!(states, ParamSet((4u8, ())));
}

struct Health(u32);
struct Armor(u16);
struct Level(u8);

struct Equip {
    health: ResSet<u32>,
    armor: ResSet<u16>,
    level: ResSet<u8>,
}

impl bevy_pipe_affect::Effect for Equip {
    type MutParam = <(ResSet<u32>, ResSet<u16>, ResSet<u8>,) as bevy_pipe_affect::Effect>::MutParam;
    fn affect(self, params: &mut Self::MutParam) {
        let Equip { health, armor, level, } = self;
        {
            let mut param = params.p0();
            bevy_pipe_affect::Effect::affect(health, &mut param);
        }
        {
            let mut param = params.p1();
            bevy_pipe_affect::Effect::affect(armor, &mut param);
        }
        {
            let mut param = params.p2();
            bevy_pipe_affect::Effect::affect(level, &mut param);
        }
    }
}

struct EquipReordered {
    level: ResSet<u8>,
    health: ResSet<u32>,
    armor: ResSet<u16>,
}

impl bevy_pipe_affect::Effect for EquipReordered {
    type MutParam = <(ResSet<u8>, ResSet<u32>, ResSet<u16>,) as bevy_pipe_affect::Effect>::MutParam;
    fn affect(self, params: &mut Self::MutParam) {
        let EquipReordered { level, health, armor, } = self;
        {
            let mut param = params.p0();
            bevy_pipe_affect::Effect::affect(level, &mut param);
        }
        {
            let mut param = params.p1();
            bevy_pipe_affect::Effect::affect(health, &mut param);
        }
        {
            let mut param = params.p2();
            bevy_pipe_affect::Effect::affect(armor, &mut param);
        }
    }
}

#[test]
fn three_field_struct_sets_each_field_in_its_own_part() {
    assert_derives(
        DeriveInput {
            ident: text("Equip"),
            generics: no_generics(),
            data: Data::Struct(DataStruct {
                fields: Fields::Named(vec![
                    named("health", "ResSet<u32>"),
                    named("armor", "ResSet<u16>"),
                    named("level", "ResSet<u8>"),
                ]),
            }),
        },
        "impl bevy_pipe_affect::Effect for Equip {
            type MutParam =
                <(ResSet<u32>, ResSet<u16>, ResSet<u8>,) as bevy_pipe_affect::Effect>::MutParam;
            fn affect(self, params: &mut Self::MutParam) {
                let Equip { health, armor, level, } = self;
                {
                    let mut param = params.p0();
                    bevy_pipe_affect::Effect::affect(health, &mut param);
                }
                {
                    let mut param = params.p1();
                    bevy_pipe_affect::Effect::affect(armor, &mut param);
                }
                {
                    let mut param = params.p2();
                    bevy_pipe_affect::Effect::affect(level, &mut param);
                }
            }
        }",
    );
    let Health(health) = Health(100);
    let Armor(armor) = Armor(20);
    let Level(level) = Level(3);
    let mut states = ParamSet((health, armor, level));
    Equip { health: res_set(90), armor: res_set(25), level: res_set(4) }.affect(&mut states);
    assert_eq!(states, ParamSet((90u32, 25u16, 4u8)));
}

#[test]
fn reordered_fields_are_still_matched_by_position() {
    assert_derives(
        DeriveInput {
            ident: text("EquipReordered"),
            generics: no_generics(),
            data: Data::Struct(DataStruct {
                fields: Fields::Named(vec![
                    named("level", "ResSet<u8>"),
                    named("health", "ResSet<u32>"),
                    named("armor", "ResSet<u16>"),
                ]),
            }),
        },
        "impl bevy_pipe_affect::Effect for EquipReordered {
            type MutParam =
                <(ResSet<u8>, ResSet<u32>, ResSet<u16>,) as bevy_pipe_affect::Effect>::MutParam;
            fn affect(self, params: &mut Self::MutParam) {
                let EquipReordered { level, health, armor, } = self;
                {
                    let mut param = params.p0();
                    bevy_pipe_affect::Effect::affect(level, &mut param);
                }
                {
                    let mut param = params.p1();
                    bevy_pipe_affect::Effect::affect(health, &mut param);
                }
                {
                    let mut param = params.p2();
                    bevy_pipe_affect::Effect::affect(armor, &mut param);
                }
            }
        }",
    );
    let mut states = ParamSet((3u8, 100u32, 20u16));
    EquipReordered { level: res_set(4), health: res_set(90), armor: res_set(25) }
        .affect(&mut states);
    assert_eq!(states, ParamSet((4u8, 90u32, 25u16)));
}

enum HealthProcess {
    Died(MessageWrite<u64>),
    Regenerating { new_health: ResSet<u32>, new_armor: ResSet<u16> },
}

impl bevy_pipe_affect::Effect for HealthProcess {
    type MutParam = <((MessageWrite<u64>,), (ResSet<u32>, ResSet<u16>,),) as bevy_pipe_affect::Effect>::MutParam;
    fn affect(self, params: &mut Self::MutParam) {
        match self {
            HealthProcess::Died(f0,) => {
                #[allow(unused_variables, unused_mut)]
                let mut variant_params = params.p0();
                {
                    let mut param = variant_params.p0();
                    bevy_pipe_affect::Effect::affect(f0, &mut param);
                }
            }
            HealthProcess::Regenerating { new_health, new_armor, } => {
                #[allow(unused_variables, unused_mut)]
                let mut variant_params = params.p1();
                {
                    let mut param = variant_params.p0();
                    bevy_pipe_affect::Effect::affect(new_health, &mut param);
                }
                {
                    let mut param = variant_params.p1();
                    bevy_pipe_affect::Effect::affect(new_armor, &mut param);
                }
            }
        }
    }
}

fn health_process_input() -> DeriveInput {
    DeriveInput {
        ident: text("HealthProcess"),
        generics: no_generics(),
        data: Data::Enum(DataEnum {
            variants: vec![
                Variant {
                    ident: text("Died"),
                    fields: Fields::Unnamed(vec![text("MessageWrite<u64>")]),
                },
                Variant {
                    ident: text("Regenerating"),
                    fields: Fields::Named(vec![
                        named("new_health", "ResSet<u32>"),
                        named("new_armor", "ResSet<u16>"),
                    ]),
                },
            ],
        }),
    }
}

#[test]
fn enum_touches_only_the_parts_of_the_variant_it_holds() {
    assert_derives(
        health_process_input(),
        "impl bevy_pipe_affect::Effect for HealthProcess {
            type MutParam = <((MessageWrite<u64>,), (ResSet<u32>, ResSet<u16>,),)
                as bevy_pipe_affect::Effect>::MutParam;
            fn affect(self, params: &mut Self::MutParam) {
                match self {
                    HealthProcess::Died(f0,) => {
                        #[allow(unused_variables, unused_mut)]
                        let mut variant_params = params.p0();
                        {
                            let mut param = variant_params.p0();
                            bevy_pipe_affect::Effect::affect(f0, &mut param);
                        }
                    }
                    HealthProcess::Regenerating { new_health, new_armor, } => {
                        #[allow(unused_variables, unused_mut)]
                        let mut variant_params = params.p1();
                        {
                            let mut param = variant_params.p0();
                            bevy_pipe_affect::Effect::affect(new_health, &mut param);
                        }
                        {
                            let mut param = variant_params.p1();
                            bevy_pipe_affect::Effect::affect(new_armor, &mut param);
                        }
                    }
                }
            }
        }",
    );

    let mut states = ParamSet((ParamSet((vec![1u64],)), ParamSet((100u32, 20u16))));
    HealthProcess::Died(message_write(7)).affect(&mut states);
    assert_eq!(states, ParamSet((ParamSet((vec![1u64, 7],)), ParamSet((100u32, 20u16)))));

    HealthProcess::Regenerating { new_health: res_set(110), new_armor: res_set(21) }
        .affect(&mut states);
    assert_eq!(states, ParamSet((ParamSet((vec![1u64, 7],)), ParamSet((110u32, 21u16)))));
}

struct Wrapper<T>(T);

impl<T: bevy_pipe_affect::Effect> bevy_pipe_affect::Effect for Wrapper<T> {
    type MutParam = <(T,) as bevy_pipe_affect::Effect>::MutParam;
    fn affect(self, params: &mut Self::MutParam) {
        let Wrapper(f0,) = self;
        {
            let mut param = params.p0();
            bevy_pipe_affect::Effect::affect(f0, &mut param);
        }
    }
}

#[test]
fn generic_wrapper_applies_as_the_wrapped_effect_does() {
    assert_derives(
        DeriveInput {
            ident: text("Wrapper"),
            generics: Generics {
                params: vec![GenericParam::Type(TypeParam {
                    ident: text("T"),
                    bounds: vec![],
                    default: None,
                })],
                where_clause: None,
            },
            data: Data::Struct(DataStruct { fields: Fields::Unnamed(vec![text("T")]) }),
        },
        "impl<T: bevy_pipe_affect::Effect> bevy_pipe_affect::Effect for Wrapper<T> {
            type MutParam = <(T,) as bevy_pipe_affect::Effect>::MutParam;
            fn affect(self, params: &mut Self::MutParam) {
                let Wrapper(f0,) = self;
                {
                    let mut param = params.p0();
                    bevy_pipe_affect::Effect::affect(f0, &mut param);
                }
            }
        }",
    );

    let mut wrapped = ParamSet((5u32,));
    Wrapper(res_set(9u32)).affect(&mut wrapped);
    let mut inlined = ParamSet((5u32,));
    (res_set(9u32),).affect(&mut inlined);
    assert_eq!(wrapped, inlined);
    assert_eq!(wrapped, ParamSet((9u32,)));

    let mut direct = 5u32;
    res_set(9u32).affect(&mut direct);
    assert_eq!(wrapped.0 .0, direct);

    let mut queue = ParamSet((ParamSet((vec![1u8],)),));
    Wrapper(Wrapper(message_write(2u8))).affect(&mut queue);
    assert_eq!(queue, ParamSet((ParamSet((vec![1u8, 2],)),)));
}

enum Only {
    Put(ResSet<u8>),
}

impl bevy_pipe_affect::Effect for Only {
    type MutParam = <((ResSet<u8>,),) as bevy_pipe_affect::Effect>::MutParam;
    fn affect(self, params: &mut Self::MutParam) {
        match self {
            Only::Put(f0,) => {
                #[allow(unused_variables, unused_mut)]
                let mut variant_params = params.p0();
                {
                    let mut param = variant_params.p0();
                    bevy_pipe_affect::Effect::affect(f0, &mut param);
                }
            }
        }
    }
}

#[test]
fn single_variant_enum_always_takes_its_branch() {
    assert_derives(
        DeriveInput {
            ident: text("Only"),
            generics: no_generics(),
            data: Data::Enum(DataEnum {
                variants: vec![Variant {
                    ident: text("Put"),
                    fields: Fields::Unnamed(vec![text("ResSet<u8>")]),
                }],
            }),
        },
        "impl bevy_pipe_affect::Effect for Only {
            type MutParam = <((ResSet<u8>,),) as bevy_pipe_affect::Effect>::MutParam;
            fn affect(self, params: &mut Self::MutParam) {
                match self {
                    Only::Put(f0,) => {
                        #[allow(unused_variables, unused_mut)]
                        let mut variant_params = params.p0();
                        {
                            let mut param = variant_params.p0();
                            bevy_pipe_affect::Effect::affect(f0, &mut param);
                        }
                    }
                }
            }
        }",
    );
    let mut states = ParamSet((ParamSet((1u8,)),));
    Only::Put(res_set(2)).affect(&mut states);
    assert_eq!(states, ParamSet((ParamSet((2u8,)),)));
}

enum Progress {
    Full,
    Gain { amount: MessageWrite<u8> },
}

impl bevy_pipe_affect::Effect for Progress {
    type MutParam = <((), (MessageWrite<u8>,),) as bevy_pipe_affect::Effect>::MutParam;
    fn affect(self, params: &mut Self::MutParam) {
        match self {
            Progress::Full => {
                #[allow(unused_variables, unused_mut)]
                let mut variant_params = params.p0();
            }
            Progress::Gain { amount, } => {
                #[allow(unused_variables, unused_mut)]
                let mut variant_params = params.p1();
                {
                    let mut param = variant_params.p0();
                    bevy_pipe_affect::Effect::affect(amount, &mut param);
                }
            }
        }
    }
}

#[test]
fn unit_variant_does_nothing() {
    assert_derives(
        DeriveInput {
            ident: text("Progress"),
            generics: no_generics(),
            data: Data::Enum(DataEnum {
                variants: vec![
                    Variant { ident: text("Full"), fields: Fields::Unit },
                    Variant {
                        ident: text("Gain"),
                        fields: Fields::Named(vec![named("amount", "MessageWrite<u8>")]),
                    },
                ],
            }),
        },
        "impl bevy_pipe_affect::Effect for Progress {
            type MutParam = <((), (MessageWrite<u8>,),) as bevy_pipe_affect::Effect>::MutParam;
            fn affect(self, params: &mut Self::MutParam) {
                match self {
                    Progress::Full => {
                        #[allow(unused_variables, unused_mut)]
                        let mut variant_params = params.p0();
                    }
                    Progress::Gain { amount, } => {
                        #[allow(unused_variables, unused_mut)]
                        let mut variant_params = params.p1();
                        {
                            let mut param = variant_params.p0();
                            bevy_pipe_affect::Effect::affect(amount, &mut param);
                        }
                    }
                }
            }
        }",
    );
    let mut states = ParamSet(((), ParamSet((vec![1u8],))));
    Progress::Full.affect(&mut states);
    assert_eq!(states, ParamSet(((), ParamSet((vec![1u8],)))));
    Progress::Gain { amount: message_write(2) }.affect(&mut states);
    assert_eq!(states, ParamSet(((), ParamSet((vec![1u8, 2],)))));
}
