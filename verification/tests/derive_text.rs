//! The source that the derivation emits, piece by piece and as a whole.

use bevy_pipe_affect::effect_derive::affect_fn::{
    affect_call, affect_calls_for_data, affect_calls_for_enum, affect_calls_for_fields,
    affect_calls_for_named_fields, affect_calls_for_struct, affect_calls_for_unnamed_fields,
    affect_fn_for_data, param_method,
};
use bevy_pipe_affect::effect_derive::derive_effect;
use bevy_pipe_affect::effect_derive::destructure::destructure_fields;
use bevy_pipe_affect::effect_derive::effect_tuple::{
    effect_tuple_for_data, effect_tuple_for_enum, effect_tuple_for_fields,
};
use bevy_pipe_affect::effect_derive::generics::{
    generic_param_with_effect_bound, generics_with_effect_bounds, impl_generics,
    type_generics, type_param_with_effect_bound, where_clause,
};
use bevy_pipe_affect::effect_derive::mut_param_type::mut_param_type_for_data;
use bevy_pipe_affect::effect_derive::shape::{
    ConstParam, Data, DataEnum, DataStruct, DeriveError, DeriveInput, Field, Fields,
    GenericParam, Generics, LifetimeParam, TypeParam, Variant,
};
use bevy_pipe_affect::effect_derive::text::push_decimal;

fn text(text: &str) -> String {
    text.to_string()
}

fn named(ident: &str, ty: &str) -> Field {
    Field { ident: text(ident), ty: text(ty) }
}

fn type_param(ident: &str, bounds: &[&str]) -> GenericParam {
    GenericParam::Type(TypeParam {
        ident: text(ident),
        bounds: bounds.iter().map(|bound| text(bound)).collect(),
        default: None,
    })
}

fn no_generics() -> Generics {
    Generics { params: vec![], where_clause: None }
}

fn input(ident: &str, data: Data) -> DeriveInput {
    DeriveInput { ident: text(ident), generics: no_generics(), data }
}

fn three_named_fields() -> Fields {
    Fields::Named(vec![
        named("message_5", "MessageWrite<MessageN<5>>"),
        named("message_6", "MessageWrite<MessageN<6>>"),
        named("message_7", "MessageWrite<MessageN<7>>"),
    ])
}

fn three_unnamed_fields() -> Fields {
    Fields::Unnamed(vec![
        text("MessageWrite<MessageN<1>>"),
        text("MessageWrite<MessageN<2>>"),
        text("MessageWrite<MessageN<3>>"),
    ])
}

fn complex_enum() -> DataEnum {
    DataEnum {
        variants: vec![
            Variant { ident: text("MyUnitVariant"), fields: Fields::Unit },
            Variant { ident: text("MyZeroTupleVariant"), fields: Fields::Unnamed(vec![]) },
            Variant {
                ident: text("MyOneTupleVariant"),
                fields: Fields::Unnamed(vec![text("A")]),
            },
            Variant {
                ident: text("MyTupleVariant"),
                fields: Fields::Unnamed(vec![text("B"), text("C")]),
            },
            Variant { ident: text("MyZeroStructVariant"), fields: Fields::Named(vec![]) },
            Variant {
                ident: text("MyOneStructVariant"),
                fields: Fields::Named(vec![named("message_11", "D")]),
            },
            Variant {
                ident: text("MyStructVariant"),
                fields: Fields::Named(vec![named("message_12", "E"), named("message_13", "F")]),
            },
        ],
    }
}

/// The text with every run of white space taken out, so that two sources can be compared
/// token by token.
fn tokens(source: &str) -> String {
    source.parse::<proc_macro2::TokenStream>().unwrap().to_string()
}

#[test]
fn decimal_numbers_are_written_without_leading_zeros() {
    for (n, expected) in [
        (0usize, "0"),
        (7, "7"),
        (9, "9"),
        (10, "10"),
        (11, "11"),
        (99, "99"),
        (100, "100"),
        (1024, "1024"),
        (90210, "90210"),
    ] {
        let mut out = text("p");
        push_decimal(&mut out, n);
        assert_eq!(out, format!("p{expected}"));
    }
    let mut out = String::new();
    push_decimal(&mut out, usize::MAX);
    assert_eq!(out, format!("{}", usize::MAX));
}

#[test]
fn param_method_is_named_after_the_position() {
    assert_eq!(param_method(0), "p0()");
    assert_eq!(param_method(7), "p7()");
    assert_eq!(param_method(12), "p12()");
}

#[test]
fn affect_call_names_effect_and_param() {
    assert_eq!(
        affect_call("despawn", "param"),
        "bevy_pipe_affect::Effect::affect(despawn, &mut param);"
    );
}

#[test]
fn destructure_binds_named_fields_by_name() {
    assert_eq!(
        destructure_fields(&three_named_fields()),
        " { message_5, message_6, message_7, }"
    );
    assert_eq!(destructure_fields(&Fields::Named(vec![])), " { }");
}

#[test]
fn destructure_binds_unnamed_fields_by_position() {
    assert_eq!(destructure_fields(&three_unnamed_fields()), "(f0, f1, f2, )");
    assert_eq!(destructure_fields(&Fields::Unnamed(vec![])), "()");
    let twelve = Fields::Unnamed((0..12).map(|i| format!("T{i}")).collect());
    assert_eq!(
        destructure_fields(&twelve),
        "(f0, f1, f2, f3, f4, f5, f6, f7, f8, f9, f10, f11, )"
    );
}

#[test]
fn destructure_of_unit_is_empty() {
    assert_eq!(destructure_fields(&Fields::Unit), "");
}

#[test]
fn effect_tuple_holds_the_field_types_in_order() {
    assert_eq!(
        effect_tuple_for_fields(&three_named_fields()),
        "(MessageWrite<MessageN<5>>, MessageWrite<MessageN<6>>, MessageWrite<MessageN<7>>, )"
    );
    assert_eq!(
        effect_tuple_for_fields(&three_unnamed_fields()),
        "(MessageWrite<MessageN<1>>, MessageWrite<MessageN<2>>, MessageWrite<MessageN<3>>, )"
    );
    assert_eq!(effect_tuple_for_fields(&Fields::Unnamed(vec![text("A")])), "(A, )");
}

#[test]
fn effect_tuple_of_no_fields_is_unit() {
    assert_eq!(effect_tuple_for_fields(&Fields::Unit), "()");
    assert_eq!(effect_tuple_for_fields(&Fields::Named(vec![])), "()");
    assert_eq!(effect_tuple_for_fields(&Fields::Unnamed(vec![])), "()");
}

#[test]
fn effect_tuple_does_not_depend_on_field_names() {
    let one = Fields::Named(vec![named("a", "A"), named("b", "B")]);
    let renamed = Fields::Named(vec![named("x", "A"), named("y", "B")]);
    let unnamed = Fields::Unnamed(vec![text("A"), text("B")]);
    assert_eq!(effect_tuple_for_fields(&one), effect_tuple_for_fields(&renamed));
    assert_eq!(effect_tuple_for_fields(&one), effect_tuple_for_fields(&unnamed));
}

#[test]
fn effect_tuple_follows_field_order() {
    let one = Fields::Named(vec![named("a", "A"), named("b", "B")]);
    let swapped = Fields::Named(vec![named("b", "B"), named("a", "A")]);
    assert_eq!(effect_tuple_for_fields(&one), "(A, B, )");
    assert_eq!(effect_tuple_for_fields(&swapped), "(B, A, )");
}

#[test]
fn effect_tuple_of_enum_holds_one_tuple_for_each_variant() {
    assert_eq!(
        effect_tuple_for_enum(&complex_enum()),
        "((), (), (A, ), (B, C, ), (), (D, ), (E, F, ), )"
    );
    assert_eq!(effect_tuple_for_enum(&DataEnum { variants: vec![] }), "()");
    assert_eq!(
        effect_tuple_for_data(&Data::Enum(DataEnum {
            variants: vec![Variant { ident: text("MyUnitVariant"), fields: Fields::Unit }],
        })),
        Ok(text("((), )"))
    );
}

#[test]
fn mut_param_type_is_that_of_the_effect_tuple() {
    assert_eq!(
        mut_param_type_for_data(&Data::Struct(DataStruct {
            fields: Fields::Unnamed(vec![text("A"), text("B")]),
        })),
        Ok(text("type MutParam = <(A, B, ) as bevy_pipe_affect::Effect>::MutParam;"))
    );
}

#[test]
fn affect_calls_apply_each_field_to_the_part_at_its_position() {
    let expected = " { let mut param = params.p0(); \
         bevy_pipe_affect::Effect::affect(message_5, &mut param); } \
         { let mut param = params.p1(); \
         bevy_pipe_affect::Effect::affect(message_6, &mut param); } \
         { let mut param = params.p2(); \
         bevy_pipe_affect::Effect::affect(message_7, &mut param); }";
    assert_eq!(affect_calls_for_fields(&three_named_fields(), "params"), expected);
    assert_eq!(
        affect_calls_for_named_fields(
            &vec![
                named("message_5", "A"),
                named("message_6", "B"),
                named("message_7", "C"),
            ],
            "params"
        ),
        expected
    );
    assert_eq!(
        affect_calls_for_unnamed_fields(&vec![text("A"), text("B")], "variant_params"),
        " { let mut param = variant_params.p0(); \
         bevy_pipe_affect::Effect::affect(f0, &mut param); } \
         { let mut param = variant_params.p1(); \
         bevy_pipe_affect::Effect::affect(f1, &mut param); }"
    );
}

#[test]
fn affect_calls_for_no_fields_are_empty() {
    assert_eq!(affect_calls_for_fields(&Fields::Unit, "params"), "");
    assert_eq!(affect_calls_for_fields(&Fields::Named(vec![]), "params"), "");
    assert_eq!(affect_calls_for_fields(&Fields::Unnamed(vec![]), "params"), "");
}

#[test]
fn renaming_fields_renames_bindings_and_keeps_positions() {
    let one = affect_calls_for_fields(
        &Fields::Named(vec![named("a", "A"), named("b", "B")]),
        "params",
    );
    let renamed = affect_calls_for_fields(
        &Fields::Named(vec![named("x", "A"), named("y", "B")]),
        "params",
    );
    assert_eq!(one.replace("(a,", "(x,").replace("(b,", "(y,"), renamed);
    assert!(one.contains("params.p0(); bevy_pipe_affect::Effect::affect(a,"));
    assert!(one.contains("params.p1(); bevy_pipe_affect::Effect::affect(b,"));
}

#[test]
fn affect_calls_for_struct_take_the_value_apart_first() {
    let data = DataStruct { fields: Fields::Unnamed(vec![text("A")]) };
    assert_eq!(
        affect_calls_for_struct(&data, "self", "MyOneTupleStruct", "params"),
        "let MyOneTupleStruct(f0, ) = self; { let mut param = params.p0(); \
         bevy_pipe_affect::Effect::affect(f0, &mut param); }"
    );
    let unit = DataStruct { fields: Fields::Unit };
    assert_eq!(
        affect_calls_for_struct(&unit, "self", "MyUnitStruct", "params"),
        "let MyUnitStruct = self;"
    );
}

#[test]
fn affect_calls_for_enum_match_on_the_variant() {
    let data = DataEnum {
        variants: vec![
            Variant {
                ident: text("A"),
                fields: Fields::Unnamed(vec![text("ResSet<u8>")]),
            },
            Variant {
                ident: text("B"),
                fields: Fields::Named(vec![
                    named("first", "ResSet<u16>"),
                    named("second", "ResSet<u32>"),
                ]),
            },
        ],
    };
    assert_eq!(
        affect_calls_for_enum(&data, "self", "AOrB", "params"),
        "match self { \
         AOrB::A(f0, ) => { #[allow(unused_variables, unused_mut)] \
         let mut variant_params = params.p0(); \
         { let mut param = variant_params.p0(); \
         bevy_pipe_affect::Effect::affect(f0, &mut param); } } \
         AOrB::B { first, second, } => { #[allow(unused_variables, unused_mut)] \
         let mut variant_params = params.p1(); \
         { let mut param = variant_params.p0(); \
         bevy_pipe_affect::Effect::affect(first, &mut param); } \
         { let mut param = variant_params.p1(); \
         bevy_pipe_affect::Effect::affect(second, &mut param); } } }"
    );
    assert_eq!(
        affect_calls_for_enum(&DataEnum { variants: vec![] }, "self", "MyZeroEnum", "params"),
        "match self { }"
    );
}

#[test]
fn affect_fn_wraps_the_calls() {
    assert_eq!(
        affect_fn_for_data(&Data::Struct(DataStruct { fields: Fields::Named(vec![]) }), "S"),
        Ok(text("fn affect(self, params: &mut Self::MutParam) { let S { } = self; }"))
    );
    assert_eq!(
        affect_calls_for_data(
            &Data::Struct(DataStruct { fields: Fields::Unit }),
            "value",
            "S",
            "params"
        ),
        Ok(text("let S = value;"))
    );
}

#[test]
fn union_is_refused_by_every_step() {
    let refused = Err(DeriveError::Union);
    assert_eq!(effect_tuple_for_data(&Data::Union), refused);
    assert_eq!(mut_param_type_for_data(&Data::Union), refused);
    assert_eq!(affect_calls_for_data(&Data::Union, "self", "U", "params"), refused);
    assert_eq!(affect_fn_for_data(&Data::Union, "U"), refused);
    assert_eq!(derive_effect(input("U", Data::Union)), refused);
}

#[test]
fn type_params_get_the_effect_bound_last() {
    let bounded = type_param_with_effect_bound(TypeParam {
        ident: text("T"),
        bounds: vec![text("Clone"), text("Send")],
        default: Some(text("u8")),
    });
    assert_eq!(
        bounded,
        TypeParam {
            ident: text("T"),
            bounds: vec![text("Clone"), text("Send"), text("bevy_pipe_affect::Effect")],
            default: Some(text("u8")),
        }
    );
}

#[test]
fn lifetime_and_const_params_are_left_alone() {
    let lifetime = GenericParam::Lifetime(LifetimeParam {
        lifetime: text("'a"),
        bounds: vec![text("'b")],
    });
    let constant = GenericParam::Const(ConstParam {
        ident: text("N"),
        ty: text("usize"),
        default: None,
    });
    assert_eq!(generic_param_with_effect_bound(lifetime.clone()), lifetime);
    assert_eq!(generic_param_with_effect_bound(constant.clone()), constant);
    assert_eq!(
        generic_param_with_effect_bound(type_param("T", &[])),
        type_param("T", &["bevy_pipe_affect::Effect"])
    );
}

#[test]
fn generics_get_the_effect_bound_on_every_type_param() {
    let generics = Generics {
        params: vec![
            GenericParam::Lifetime(LifetimeParam { lifetime: text("'a"), bounds: vec![] }),
            type_param("T", &[]),
            type_param("U", &["Clone"]),
            GenericParam::Const(ConstParam {
                ident: text("N"),
                ty: text("usize"),
                default: Some(text("4")),
            }),
        ],
        where_clause: Some(text("U: Send")),
    };
    let bounded = generics_with_effect_bounds(generics);
    assert_eq!(
        bounded,
        Generics {
            params: vec![
                GenericParam::Lifetime(LifetimeParam { lifetime: text("'a"), bounds: vec![] }),
                type_param("T", &["bevy_pipe_affect::Effect"]),
                type_param("U", &["Clone", "bevy_pipe_affect::Effect"]),
                GenericParam::Const(ConstParam {
                    ident: text("N"),
                    ty: text("usize"),
                    default: Some(text("4")),
                }),
            ],
            where_clause: Some(text("U: Send")),
        }
    );
    assert_eq!(
        impl_generics(&bounded),
        "<'a, T: bevy_pipe_affect::Effect, U: Clone + bevy_pipe_affect::Effect, const N: usize>"
    );
    assert_eq!(type_generics(&bounded), "<'a, T, U, N>");
    assert_eq!(where_clause(&bounded), " where U: Send");
}

#[test]
fn no_generics_are_written_as_nothing() {
    assert_eq!(generics_with_effect_bounds(no_generics()), no_generics());
    assert_eq!(impl_generics(&no_generics()), "");
    assert_eq!(type_generics(&no_generics()), "");
    assert_eq!(where_clause(&no_generics()), "");
}

#[test]
fn lifetime_bounds_are_written_after_impl() {
    let generics = Generics {
        params: vec![
            GenericParam::Lifetime(LifetimeParam { lifetime: text("'a"), bounds: vec![] }),
            GenericParam::Lifetime(LifetimeParam {
                lifetime: text("'b"),
                bounds: vec![text("'a"), text("'static")],
            }),
        ],
        where_clause: None,
    };
    assert_eq!(impl_generics(&generics), "<'a, 'b: 'a + 'static>");
    assert_eq!(type_generics(&generics), "<'a, 'b>");
}

#[test]
fn unit_struct_derives_an_effect_without_calls() {
    assert_eq!(
        derive_effect(input("MyUnitStruct", Data::Struct(DataStruct { fields: Fields::Unit }))),
        Ok(text(
            "impl bevy_pipe_affect::Effect for MyUnitStruct { \
             type MutParam = <() as bevy_pipe_affect::Effect>::MutParam; \
             fn affect(self, params: &mut Self::MutParam) { let MyUnitStruct = self; } }"
        ))
    );
}

#[test]
fn zero_field_structs_derive_an_effect_without_calls() {
    assert_eq!(
        derive_effect(input(
            "MyZeroTupleStruct",
            Data::Struct(DataStruct { fields: Fields::Unnamed(vec![]) })
        )),
        Ok(text(
            "impl bevy_pipe_affect::Effect for MyZeroTupleStruct { \
             type MutParam = <() as bevy_pipe_affect::Effect>::MutParam; \
             fn affect(self, params: &mut Self::MutParam) { let MyZeroTupleStruct() = self; } }"
        ))
    );
    assert_eq!(
        derive_effect(input(
            "MyZeroFieldStruct",
            Data::Struct(DataStruct { fields: Fields::Named(vec![]) })
        )),
        Ok(text(
            "impl bevy_pipe_affect::Effect for MyZeroFieldStruct { \
             type MutParam = <() as bevy_pipe_affect::Effect>::MutParam; \
             fn affect(self, params: &mut Self::MutParam) { let MyZeroFieldStruct { } = self; } }"
        ))
    );
}

#[test]
fn three_field_struct_derives_three_calls_in_field_order() {
    assert_eq!(
        derive_effect(input(
            "MyThreeFieldStruct",
            Data::Struct(DataStruct { fields: three_named_fields() })
        )),
        Ok(text(
            "impl bevy_pipe_affect::Effect for MyThreeFieldStruct { \
             type MutParam = <(MessageWrite<MessageN<5>>, MessageWrite<MessageN<6>>, \
             MessageWrite<MessageN<7>>, ) as bevy_pipe_affect::Effect>::MutParam; \
             fn affect(self, params: &mut Self::MutParam) { \
             let MyThreeFieldStruct { message_5, message_6, message_7, } = self; \
             { let mut param = params.p0(); \
             bevy_pipe_affect::Effect::affect(message_5, &mut param); } \
             { let mut param = params.p1(); \
             bevy_pipe_affect::Effect::affect(message_6, &mut param); } \
             { let mut param = params.p2(); \
             bevy_pipe_affect::Effect::affect(message_7, &mut param); } } }"
        ))
    );
}

#[test]
fn generic_struct_derives_an_effect_for_every_effect_type() {
    let derived = derive_effect(DeriveInput {
        ident: text("MyGenericStruct"),
        generics: Generics {
            params: vec![type_param("T", &[]), type_param("U", &[])],
            where_clause: None,
        },
        data: Data::Struct(DataStruct {
            fields: Fields::Named(vec![
                named("generic_effect_1", "T"),
                named("generic_effect_2", "U"),
            ]),
        }),
    });
    assert_eq!(
        derived,
        Ok(text(
            "impl<T: bevy_pipe_affect::Effect, U: bevy_pipe_affect::Effect> \
             bevy_pipe_affect::Effect for MyGenericStruct<T, U> { \
             type MutParam = <(T, U, ) as bevy_pipe_affect::Effect>::MutParam; \
             fn affect(self, params: &mut Self::MutParam) { \
             let MyGenericStruct { generic_effect_1, generic_effect_2, } = self; \
             { let mut param = params.p0(); \
             bevy_pipe_affect::Effect::affect(generic_effect_1, &mut param); } \
             { let mut param = params.p1(); \
             bevy_pipe_affect::Effect::affect(generic_effect_2, &mut param); } } }"
        ))
    );
}

#[test]
fn generic_enum_derives_a_match_over_its_variants() {
    let derived = derive_effect(DeriveInput {
        ident: text("MyGenericEnum"),
        generics: Generics {
            params: vec![type_param("T", &[]), type_param("U", &["Clone"]), type_param("V", &[])],
            where_clause: Some(text("V: Copy")),
        },
        data: Data::Enum(DataEnum {
            variants: vec![
                Variant { ident: text("MyUnitVariant"), fields: Fields::Unit },
                Variant {
                    ident: text("MyOneStructVariant"),
                    fields: Fields::Unnamed(vec![text("T")]),
                },
                Variant {
                    ident: text("MyTwoStructVariant"),
                    fields: Fields::Named(vec![
                        named("generic_effect_1", "U"),
                        named("generic_effect_2", "V"),
                    ]),
                },
            ],
        }),
    });
    assert_eq!(
        derived,
        Ok(text(
            "impl<T: bevy_pipe_affect::Effect, U: Clone + bevy_pipe_affect::Effect, \
             V: bevy_pipe_affect::Effect> bevy_pipe_affect::Effect for MyGenericEnum<T, U, V> \
             where V: Copy { \
             type MutParam = <((), (T, ), (U, V, ), ) as bevy_pipe_affect::Effect>::MutParam; \
             fn affect(self, params: &mut Self::MutParam) { match self { \
             MyGenericEnum::MyUnitVariant => { #[allow(unused_variables, unused_mut)] \
             let mut variant_params = params.p0(); } \
             MyGenericEnum::MyOneStructVariant(f0, ) => { \
             #[allow(unused_variables, unused_mut)] \
             let mut variant_params = params.p1(); \
             { let mut param = variant_params.p0(); \
             bevy_pipe_affect::Effect::affect(f0, &mut param); } } \
             MyGenericEnum::MyTwoStructVariant { generic_effect_1, generic_effect_2, } => { \
             #[allow(unused_variables, unused_mut)] \
             let mut variant_params = params.p2(); \
             { let mut param = variant_params.p0(); \
             bevy_pipe_affect::Effect::affect(generic_effect_1, &mut param); } \
             { let mut param = variant_params.p1(); \
             bevy_pipe_affect::Effect::affect(generic_effect_2, &mut param); } } } } }"
        ))
    );
}

#[test]
fn zero_variant_enum_derives_an_empty_match() {
    assert_eq!(
        derive_effect(input("MyZeroEnum", Data::Enum(DataEnum { variants: vec![] }))),
        Ok(text(
            "impl bevy_pipe_affect::Effect for MyZeroEnum { \
             type MutParam = <() as bevy_pipe_affect::Effect>::MutParam; \
             fn affect(self, params: &mut Self::MutParam) { match self { } } }"
        ))
    );
}

#[test]
fn every_derived_effect_is_one_impl_item() {
    let inputs = vec![
        input("MyUnitStruct", Data::Struct(DataStruct { fields: Fields::Unit })),
        input("MyZeroTupleStruct", Data::Struct(DataStruct { fields: Fields::Unnamed(vec![]) })),
        input(
            "MyOneTupleStruct",
            Data::Struct(DataStruct { fields: Fields::Unnamed(vec![text("A")]) }),
        ),
        input("MyThreeTupleStruct", Data::Struct(DataStruct { fields: three_unnamed_fields() })),
        input("MyZeroFieldStruct", Data::Struct(DataStruct { fields: Fields::Named(vec![]) })),
        input(
            "MyOneFieldStruct",
            Data::Struct(DataStruct { fields: Fields::Named(vec![named("message_4", "A")]) }),
        ),
        input("MyThreeFieldStruct", Data::Struct(DataStruct { fields: three_named_fields() })),
        input("MyZeroEnum", Data::Enum(DataEnum { variants: vec![] })),
        input(
            "MyOneEnum",
            Data::Enum(DataEnum {
                variants: vec![Variant { ident: text("MyUnitVariant"), fields: Fields::Unit }],
            }),
        ),
        input("MyComplexEnum", Data::Enum(complex_enum())),
        input(
            "Wide",
            Data::Struct(DataStruct {
                fields: Fields::Unnamed((0..12).map(|i| format!("T{i}")).collect()),
            }),
        ),
    ];
    for input in inputs {
        let name = input.ident.clone();
        let derived = derive_effect(input).unwrap();
        let item: syn::ItemImpl = syn::parse_str(&derived).unwrap();
        assert_eq!(item.items.len(), 2, "{name}");
        let self_ty = &item.self_ty;
        assert_eq!(quote::ToTokens::to_token_stream(self_ty).to_string(), name);
    }
}

#[test]
fn complex_enum_keeps_a_part_for_every_variant() {
    let derived = derive_effect(input("MyComplexEnum", Data::Enum(complex_enum()))).unwrap();
    let expected = "impl bevy_pipe_affect::Effect for MyComplexEnum {
        type MutParam = <((), (), (A,), (B, C,), (), (D,), (E, F,),)
            as bevy_pipe_affect::Effect>::MutParam;
        fn affect(self, params: &mut Self::MutParam) {
            match self {
                MyComplexEnum::MyUnitVariant => {
                    #[allow(unused_variables, unused_mut)]
                    let mut variant_params = params.p0();
                }
                MyComplexEnum::MyZeroTupleVariant() => {
                    #[allow(unused_variables, unused_mut)]
                    let mut variant_params = params.p1();
                }
                MyComplexEnum::MyOneTupleVariant(f0,) => {
                    #[allow(unused_variables, unused_mut)]
                    let mut variant_params = params.p2();
                    {
                        let mut param = variant_params.p0();
                        bevy_pipe_affect::Effect::affect(f0, &mut param);
                    }
                }
                MyComplexEnum::MyTupleVariant(f0, f1,) => {
                    #[allow(unused_variables, unused_mut)]
                    let mut variant_params = params.p3();
                    {
                        let mut param = variant_params.p0();
                        bevy_pipe_affect::Effect::affect(f0, &mut param);
                    }
                    {
                        let mut param = variant_params.p1();
                        bevy_pipe_affect::Effect::affect(f1, &mut param);
                    }
                }
                MyComplexEnum::MyZeroStructVariant {} => {
                    #[allow(unused_variables, unused_mut)]
                    let mut variant_params = params.p4();
                }
                MyComplexEnum::MyOneStructVariant { message_11, } => {
                    #[allow(unused_variables, unused_mut)]
                    let mut variant_params = params.p5();
                    {
                        let mut param = variant_params.p0();
                        bevy_pipe_affect::Effect::affect(message_11, &mut param);
                    }
                }
                MyComplexEnum::MyStructVariant { message_12, message_13, } => {
                    #[allow(unused_variables, unused_mut)]
                    let mut variant_params = params.p6();
                    {
                        let mut param = variant_params.p0();
                        bevy_pipe_affect::Effect::affect(message_12, &mut param);
                    }
                    {
                        let mut param = variant_params.p1();
                        bevy_pipe_affect::Effect::affect(message_13, &mut param);
                    }
                }
            }
        }
    }";
    assert_eq!(tokens(&derived), tokens(expected));
}
