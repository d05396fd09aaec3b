use cmdkit_macros::signature::{
    FnArgShape, GenericArgumentShape, PathArgumentsShape, PathSegmentShape, ReturnTypeShape,
    SignatureShape, TypeShape,
};
use cmdkit_macros::strategy::{check_signature, plan_strategy, ErrorSpan, Rejection};

fn sig_path(idents: &[&str]) -> TypeShape {
    TypeShape::Path(
        idents
            .iter()
            .map(|i| PathSegmentShape { ident: i.to_string(), arguments: PathArgumentsShape::Bare })
            .collect(),
    )
}

fn sig_generic(ident: &str, args: Vec<TypeShape>) -> TypeShape {
    TypeShape::Path(vec![PathSegmentShape {
        ident: ident.to_string(),
        arguments: PathArgumentsShape::AngleBracketed(
            args.into_iter().map(GenericArgumentShape::Type).collect(),
        ),
    }])
}

/// `fn wrong_strategy(_ctx: cmdkit::ExecutionContext, arguments: Vec<cmdkit::Argument>)
/// -> Result<(), cmdkit::StrategyError>`
#[test]
fn strategy_rejects_incorrect_signatures() {
    let sig = SignatureShape {
        is_async: false,
        inputs: vec![
            FnArgShape::Typed(sig_path(&["cmdkit", "ExecutionContext"])),
            FnArgShape::Typed(sig_generic("Vec", vec![sig_path(&["cmdkit", "Argument"])])),
        ],
        output: ReturnTypeShape::Type(sig_generic(
            "Result",
            vec![TypeShape::Tuple(vec![]), sig_path(&["cmdkit", "StrategyError"])],
        )),
    };
    let rejection = plan_strategy(true, "wrong_strategy", &sig).unwrap_err();
    assert_eq!(rejection, Rejection::OptionsType);
    assert_eq!(rejection.span(), ErrorSpan::InputType(0));
    assert_eq!(
        rejection.message(),
        "cli strategy functions must accept a Vec<Switch> options argument"
    );
    assert!(check_signature(true, &sig).is_err());
}
