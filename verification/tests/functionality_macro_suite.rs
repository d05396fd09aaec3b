use cmdkit_macros::naming::to_pascal;
use cmdkit_macros::signature::{
    FnArgShape, GenericArgumentShape, PathArgumentsShape, PathSegmentShape, ReturnTypeShape,
    SignatureShape, TypeShape,
};
use cmdkit_macros::strategy::{check_signature, plan_strategy};

fn suite_path(idents: &[&str]) -> TypeShape {
    TypeShape::Path(
        idents
            .iter()
            .map(|i| PathSegmentShape { ident: i.to_string(), arguments: PathArgumentsShape::Bare })
            .collect(),
    )
}

fn suite_generic(ident: &str, args: Vec<TypeShape>) -> TypeShape {
    TypeShape::Path(vec![PathSegmentShape {
        ident: ident.to_string(),
        arguments: PathArgumentsShape::AngleBracketed(
            args.into_iter().map(GenericArgumentShape::Type).collect(),
        ),
    }])
}

/// `fn simple_cli_strategy(_options: Vec<cmdkit::Switch>, _arguments: Vec<cmdkit::Argument>,
/// _subcommands: Vec<String>) -> Result<(), StrategyError>`
fn simple_cli_strategy_signature() -> SignatureShape {
    SignatureShape {
        is_async: false,
        inputs: vec![
            FnArgShape::Typed(suite_generic("Vec", vec![suite_path(&["cmdkit", "Switch"])])),
            FnArgShape::Typed(suite_generic("Vec", vec![suite_path(&["cmdkit", "Argument"])])),
            FnArgShape::Typed(suite_generic("Vec", vec![suite_path(&["String"])])),
        ],
        output: ReturnTypeShape::Type(suite_generic(
            "Result",
            vec![TypeShape::Tuple(vec![]), suite_path(&["StrategyError"])],
        )),
    }
}

#[test]
fn strategy_attribute_generated_type_uses_upper_camel_name() {
    let names = plan_strategy(true, "simple_cli_strategy", &simple_cli_strategy_signature())
        .expect("the strategy signature is accepted");
    assert_eq!(names.struct_name, "SimpleCliStrategy");
    assert_eq!(names.factory_name, "simple_cli_strategy_strategy");
    assert_eq!(to_pascal("simple_cli_strategy"), "SimpleCliStrategy");
}

#[test]
fn cli_attribute_generates_execute_shaped_strategy_wrapper() {
    let sig = simple_cli_strategy_signature();
    assert!(check_signature(true, &sig).is_ok());
    let names = plan_strategy(true, "simple_cli_strategy", &sig)
        .expect("an execute-shaped signature is accepted");
    assert_eq!(names.struct_name, "SimpleCliStrategy");
    assert_eq!(names.factory_name, "simple_cli_strategy_strategy");
}

#[test]
fn test_command_suit() {
    let names = plan_strategy(true, "create_directory", &simple_cli_strategy_signature())
        .expect("the strategy signature is accepted");
    assert_eq!(names.struct_name, "CreateDirectory");
    assert_eq!(names.factory_name, "create_directory_strategy");
}
