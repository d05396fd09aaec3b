use vstd::prelude::*;

use crate::naming::{ascii_pascal_case, pascal_case, to_pascal};
use vstd::utf8::is_ascii_chars;
use crate::signature::{
    is_strategy_result, is_vec_of_path, matches_result_type, matches_vec_of_path, str_views,
    FnArgShape, ReturnTypeShape, SignatureShape, TypeShape, GenericArgumentShape,
    PathArgumentsShape, lemma_result_arguments_are_exact, lemma_vec_match_is_exact,
    segments_named, vec_element_segments,
};

verus! {

/// Why the strategy attribute refuses the item it is placed on.
#[derive(Debug, Clone, Copy, PartialEq, Eq)]
pub enum Rejection {
    /// The attribute was given arguments.
    AttributeArguments,
    /// The function is `async`.
    AsyncFunction,
    /// The first parameter is a `self` receiver.
    Receiver,
    /// The first parameter is not `Vec<Switch>`.
    OptionsType,
    /// There is no first parameter.
    MissingOptions,
    /// The second parameter is not `Vec<Argument>`.
    ArgumentsType,
    /// There is no typed second parameter.
    MissingArguments,
    /// There are more than three parameters.
    TooManyInputs,
    /// The third parameter is not `Vec<String>`.
    SubcommandsType,
    /// There is no typed third parameter.
    MissingSubcommands,
    /// The return type is not `Result<(), StrategyError>`.
    ReturnType,
    /// The function declares no return type.
    MissingReturnType,
}

/// The part of the item that a rejection points at.
#[derive(Debug, Clone, Copy, PartialEq, Eq)]
pub enum ErrorSpan {
    /// The attribute's own arguments.
    Attribute,
    /// The whole signature.
    Signature,
    /// The type of the parameter with this index.
    InputType(usize),
    /// The declared return type.
    ReturnType,
}

/// The compile error message of each rejection.
pub open spec fn rejection_message(r: Rejection) -> Seq<char> {
    match r {
        Rejection::AttributeArguments => "strategy attribute does not take any arguments"@,
        Rejection::AsyncFunction => "async functions are not supported"@,
        Rejection::Receiver => "cli strategy functions must be plain free functions; remove the &self receiver and keep options, arguments, and subcommands arguments"@,
        Rejection::OptionsType => "cli strategy functions must accept a Vec<Switch> options argument"@,
        Rejection::MissingOptions => "cli strategy functions must accept an options Vec<Switch> argument"@,
        Rejection::ArgumentsType => "cli strategy functions must accept a Vec<Argument> arguments argument"@,
        Rejection::MissingArguments => "cli strategy functions must accept an arguments Vec<Argument> argument"@,
        Rejection::TooManyInputs => "cli strategy functions must accept exactly three parsed invocation arguments"@,
        Rejection::SubcommandsType => "cli strategy functions must accept a Vec<String> subcommands argument"@,
        Rejection::MissingSubcommands => "cli strategy functions must accept a subcommands Vec<String> argument"@,
        Rejection::ReturnType => "cli strategy functions must return Result<(), cmdkit::StrategyError>"@,
        Rejection::MissingReturnType => "cli strategy functions must return Result<(), cmdkit::StrategyError>"@,
    }
}

/// Where each rejection is reported.
pub open spec fn rejection_span(r: Rejection) -> ErrorSpan {
    match r {
        Rejection::AttributeArguments => ErrorSpan::Attribute,
        Rejection::OptionsType => ErrorSpan::InputType(0),
        Rejection::ArgumentsType => ErrorSpan::InputType(1),
        Rejection::SubcommandsType => ErrorSpan::InputType(2),
        Rejection::ReturnType => ErrorSpan::ReturnType,
        _ => ErrorSpan::Signature,
    }
}

impl Rejection {
    /// The compile error message for this rejection.
    pub fn message(&self) -> (res: String)
        ensures
            res@ == rejection_message(*self),
    {
        match self {
            Rejection::AttributeArguments => "strategy attribute does not take any arguments".to_owned(),
            Rejection::AsyncFunction => "async functions are not supported".to_owned(),
            Rejection::Receiver => "cli strategy functions must be plain free functions; remove the &self receiver and keep options, arguments, and subcommands arguments".to_owned(),
            Rejection::OptionsType => "cli strategy functions must accept a Vec<Switch> options argument".to_owned(),
            Rejection::MissingOptions => "cli strategy functions must accept an options Vec<Switch> argument".to_owned(),
            Rejection::ArgumentsType => "cli strategy functions must accept a Vec<Argument> arguments argument".to_owned(),
            Rejection::MissingArguments => "cli strategy functions must accept an arguments Vec<Argument> argument".to_owned(),
            Rejection::TooManyInputs => "cli strategy functions must accept exactly three parsed invocation arguments".to_owned(),
            Rejection::SubcommandsType => "cli strategy functions must accept a Vec<String> subcommands argument".to_owned(),
            Rejection::MissingSubcommands => "cli strategy functions must accept a subcommands Vec<String> argument".to_owned(),
            Rejection::ReturnType => "cli strategy functions must return Result<(), cmdkit::StrategyError>".to_owned(),
            Rejection::MissingReturnType => "cli strategy functions must return Result<(), cmdkit::StrategyError>".to_owned(),
        }
    }

    /// The part of the item this rejection is reported on.
    pub fn span(&self) -> (res: ErrorSpan)
        ensures
            res == rejection_span(*self),
    {
        match self {
            Rejection::AttributeArguments => ErrorSpan::Attribute,
            Rejection::OptionsType => ErrorSpan::InputType(0),
            Rejection::ArgumentsType => ErrorSpan::InputType(1),
            Rejection::SubcommandsType => ErrorSpan::InputType(2),
            Rejection::ReturnType => ErrorSpan::ReturnType,
            _ => ErrorSpan::Signature,
        }
    }
}

/// The type of the parameter at `index`, if there is such a parameter and it is typed.
pub open spec fn input_type(sig: SignatureShape, index: int) -> Option<TypeShape> {
    if 0 <= index < sig.inputs@.len() {
        match sig.inputs@[index] {
            FnArgShape::Typed(ty) => Some(ty),
            FnArgShape::Receiver => None,
        }
    } else {
        None
    }
}

/// Accepted spellings of the options element type.
pub open spec fn switch_paths() -> (Seq<Seq<char>>, Seq<Seq<char>>) {
    (seq!["Switch"@], seq!["cmdkit"@, "Switch"@])
}

/// Accepted spellings of the arguments element type.
pub open spec fn argument_paths() -> (Seq<Seq<char>>, Seq<Seq<char>>) {
    (seq!["Argument"@], seq!["cmdkit"@, "Argument"@])
}

/// `ty` is `Vec<String>`, `Vec<std::string::String>` or `Vec<alloc::string::String>`.
pub open spec fn is_subcommands_type(ty: TypeShape) -> bool {
    ||| is_vec_of_path(ty, seq!["String"@])
    ||| is_vec_of_path(ty, seq!["std"@, "string"@, "String"@])
    ||| is_vec_of_path(ty, seq!["alloc"@, "string"@, "String"@])
}

/// `ty` is `Vec<Switch>` or `Vec<cmdkit::Switch>`.
pub open spec fn is_options_type(ty: TypeShape) -> bool {
    is_vec_of_path(ty, switch_paths().0) || is_vec_of_path(ty, switch_paths().1)
}

/// `ty` is `Vec<Argument>` or `Vec<cmdkit::Argument>`.
pub open spec fn is_arguments_type(ty: TypeShape) -> bool {
    is_vec_of_path(ty, argument_paths().0) || is_vec_of_path(ty, argument_paths().1)
}

/// The rule of the strategy attribute: the checks in the order in which they
/// are made, and the first one that fails. `None` when the item is accepted.
pub open spec fn strategy_rejection(attr_is_empty: bool, sig: SignatureShape) -> Option<Rejection> {
    if !attr_is_empty {
        Some(Rejection::AttributeArguments)
    } else if sig.is_async {
        Some(Rejection::AsyncFunction)
    } else if sig.inputs@.len() > 0 && sig.inputs@[0] is Receiver {
        Some(Rejection::Receiver)
    } else if input_type(sig, 0) is None {
        Some(Rejection::MissingOptions)
    } else if !is_options_type(input_type(sig, 0)->0) {
        Some(Rejection::OptionsType)
    } else if input_type(sig, 1) is None {
        Some(Rejection::MissingArguments)
    } else if !is_arguments_type(input_type(sig, 1)->0) {
        Some(Rejection::ArgumentsType)
    } else if input_type(sig, 2) is None {
        Some(Rejection::MissingSubcommands)
    } else if sig.inputs@.len() > 3 {
        Some(Rejection::TooManyInputs)
    } else if !is_subcommands_type(input_type(sig, 2)->0) {
        Some(Rejection::SubcommandsType)
    } else {
        match sig.output {
            ReturnTypeShape::Default => Some(Rejection::MissingReturnType),
            ReturnTypeShape::Type(ty) => if is_strategy_result(ty) {
                None
            } else {
                Some(Rejection::ReturnType)
            },
        }
    }
}

/// The typed parameter at `index`, if any.
fn typed_input(sig: &SignatureShape, index: usize) -> (res: Option<&TypeShape>)
    ensures
        match res {
            Some(ty) => input_type(*sig, index as int) == Some(*ty),
            None => input_type(*sig, index as int) is None,
        },
{
    if index < sig.inputs.len() {
        match &sig.inputs[index] {
            FnArgShape::Typed(ty) => Some(ty),
            FnArgShape::Receiver => None,
        }
    } else {
        None
    }
}

fn is_options(ty: &TypeShape) -> (res: bool)
    ensures
        res == is_options_type(*ty),
{
    let short_name: [&str; 1] = ["Switch"];
    let long_name: [&str; 2] = ["cmdkit", "Switch"];
    assert(str_views(short_name@) =~= switch_paths().0);
    assert(str_views(long_name@) =~= switch_paths().1);
    let short = matches_vec_of_path(ty, &short_name);
    let long = matches_vec_of_path(ty, &long_name);
    short || long
}

fn is_arguments(ty: &TypeShape) -> (res: bool)
    ensures
        res == is_arguments_type(*ty),
{
    let short_name: [&str; 1] = ["Argument"];
    let long_name: [&str; 2] = ["cmdkit", "Argument"];
    assert(str_views(short_name@) =~= argument_paths().0);
    assert(str_views(long_name@) =~= argument_paths().1);
    let short = matches_vec_of_path(ty, &short_name);
    let long = matches_vec_of_path(ty, &long_name);
    short || long
}

fn is_subcommands(ty: &TypeShape) -> (res: bool)
    ensures
        res == is_subcommands_type(*ty),
{
    let plain: [&str; 1] = ["String"];
    let from_std: [&str; 3] = ["std", "string", "String"];
    let from_alloc: [&str; 3] = ["alloc", "string", "String"];
    assert(str_views(plain@) =~= seq!["String"@]);
    assert(str_views(from_std@) =~= seq!["std"@, "string"@, "String"@]);
    assert(str_views(from_alloc@) =~= seq!["alloc"@, "string"@, "String"@]);
    let a = matches_vec_of_path(ty, &plain);
    let b = matches_vec_of_path(ty, &from_std);
    let c = matches_vec_of_path(ty, &from_alloc);
    a || b || c
}

fn is_result(ty: &TypeShape) -> (res: bool)
    ensures
        res == is_strategy_result(*ty),
{
    match ty {
        TypeShape::Path(segments) => {
            if segments.len() != 1 {
                return false;
            }
            let result_ident: String = "Result".to_owned();
            let named = segments[0].ident == result_ident;
            named && matches_result_type(segments)
        },
        _ => false,
    }
}

/// Checks an item against the rule of the strategy attribute and returns the
/// first check that fails, in the order of `strategy_rejection`.
pub fn check_signature(attr_is_empty: bool, sig: &SignatureShape) -> (res: Result<(), Rejection>)
    ensures
        match strategy_rejection(attr_is_empty, *sig) {
            Some(r) => res == Err::<(), Rejection>(r),
            None => res is Ok,
        },
{
    if !attr_is_empty {
        return Err(Rejection::AttributeArguments);
    }
    if sig.is_async {
        return Err(Rejection::AsyncFunction);
    }
    if sig.inputs.len() > 0 {
        if let FnArgShape::Receiver = &sig.inputs[0] {
            return Err(Rejection::Receiver);
        }
    }
    let options = match typed_input(sig, 0) {
        Some(ty) => ty,
        None => return Err(Rejection::MissingOptions),
    };
    if !is_options(options) {
        return Err(Rejection::OptionsType);
    }
    let arguments = match typed_input(sig, 1) {
        Some(ty) => ty,
        None => return Err(Rejection::MissingArguments),
    };
    if !is_arguments(arguments) {
        return Err(Rejection::ArgumentsType);
    }
    let subcommands = match typed_input(sig, 2) {
        Some(ty) => ty,
        None => return Err(Rejection::MissingSubcommands),
    };
    if sig.inputs.len() > 3 {
        return Err(Rejection::TooManyInputs);
    }
    if !is_subcommands(subcommands) {
        return Err(Rejection::SubcommandsType);
    }
    match &sig.output {
        ReturnTypeShape::Type(ty) => {
            if is_result(ty) {
                Ok(())
            } else {
                Err(Rejection::ReturnType)
            }
        },
        ReturnTypeShape::Default => Err(Rejection::MissingReturnType),
    }
}

/// The names of the items that the attribute generates for a strategy function.
#[derive(Debug)]
pub struct StrategyNames {
    /// The unit struct implementing the strategy: the function's name in PascalCase.
    pub struct_name: String,
    /// The factory function: the function's name followed by `_strategy`.
    pub factory_name: String,
}

/// The name of the factory function generated for the strategy function `fn_name`.
pub fn factory_name(fn_name: &str) -> (res: String)
    ensures
        res@ == fn_name@ + "_strategy"@,
{
    let mut out = fn_name.to_owned();
    out.append("_strategy");
    out
}

/// Decides what the strategy attribute does with a function named `fn_name` of
/// signature `sig`: the first failed check, or the names of the generated items.
pub fn plan_strategy(attr_is_empty: bool, fn_name: &str, sig: &SignatureShape) -> (res: Result<StrategyNames, Rejection>)
    ensures
        match strategy_rejection(attr_is_empty, *sig) {
            Some(r) => res == Err::<StrategyNames, Rejection>(r),
            None => res matches Ok(names) && names.struct_name@ == pascal_case(fn_name@)
                && (is_ascii_chars(fn_name@) ==> names.struct_name@ == ascii_pascal_case(fn_name@))
                && names.factory_name@ == fn_name@ + "_strategy"@,
        },
{
    match check_signature(attr_is_empty, sig) {
        Err(r) => Err(r),
        Ok(()) => Ok(StrategyNames { struct_name: to_pascal(fn_name), factory_name: factory_name(fn_name) }),
    }
}

/// The rule in one statement: an item is accepted exactly when the attribute has
/// no arguments, the function is not `async`, it takes exactly three typed
/// parameters of types `Vec<Switch>`, `Vec<Argument>` and `Vec<String>` (each in
/// one of its accepted spellings), and it returns `Result<(), StrategyError>`.
pub proof fn lemma_strategy_accepts_exactly(attr_is_empty: bool, sig: SignatureShape)
    ensures
        strategy_rejection(attr_is_empty, sig) is None <==> {
            &&& attr_is_empty
            &&& !sig.is_async
            &&& sig.inputs@.len() == 3
            &&& sig.inputs@[0] matches FnArgShape::Typed(options) && is_options_type(options)
            &&& sig.inputs@[1] matches FnArgShape::Typed(arguments) && is_arguments_type(arguments)
            &&& sig.inputs@[2] matches FnArgShape::Typed(subcommands) && is_subcommands_type(subcommands)
            &&& sig.output matches ReturnTypeShape::Type(ty) && is_strategy_result(ty)
        },
{
}

/// Every refusal is reported on a part of the item that exists: a parameter
/// type it points at is a typed parameter of the signature, and a return type
/// it points at is declared.
pub proof fn lemma_rejection_span_exists(attr_is_empty: bool, sig: SignatureShape)
    ensures
        strategy_rejection(attr_is_empty, sig) matches Some(r) ==> match rejection_span(r) {
            ErrorSpan::InputType(i) => input_type(sig, i as int) is Some,
            ErrorSpan::ReturnType => sig.output is Type,
            ErrorSpan::Attribute => !attr_is_empty,
            ErrorSpan::Signature => true,
        },
{
}

/// The element of a `Vec` parameter type is one of the named paths.
pub open spec fn vec_element_is_one_of(ty: TypeShape, first: Seq<Seq<char>>, second: Seq<Seq<char>>) -> bool {
    vec_element_segments(ty) matches Some(element)
        && (segments_named(element, first) || segments_named(element, second))
}

/// What an accepted strategy function looks like, written on the shape itself:
/// exactly three typed parameters, whose types are `Vec<Switch>`,
/// `Vec<Argument>` and `Vec<String>` (the element path spelled one of the
/// accepted ways, and only those), and the return type
/// `Result<(), StrategyError>` with `()` as its first argument. Any other first,
/// second or third element type (`Vec<String>` as options, `Vec<&str>` as
/// subcommands, ...) or any other return type is refused.
pub proof fn lemma_accepted_signature_shape(attr_is_empty: bool, sig: SignatureShape)
    ensures
        strategy_rejection(attr_is_empty, sig) is None <==> {
            &&& attr_is_empty
            &&& !sig.is_async
            &&& sig.inputs@.len() == 3
            &&& sig.inputs@[0] matches FnArgShape::Typed(options)
                && vec_element_is_one_of(options, seq!["Switch"@], seq!["cmdkit"@, "Switch"@])
            &&& sig.inputs@[1] matches FnArgShape::Typed(arguments)
                && vec_element_is_one_of(arguments, seq!["Argument"@], seq!["cmdkit"@, "Argument"@])
            &&& sig.inputs@[2] matches FnArgShape::Typed(subcommands)
                && vec_element_segments(subcommands) matches Some(element)
                && (segments_named(element, seq!["String"@])
                    || segments_named(element, seq!["std"@, "string"@, "String"@])
                    || segments_named(element, seq!["alloc"@, "string"@, "String"@]))
            &&& sig.output matches ReturnTypeShape::Type(TypeShape::Path(result))
            &&& result@.len() == 1
            &&& result@[0].ident@ == "Result"@
            &&& result@[0].arguments matches PathArgumentsShape::AngleBracketed(args)
            &&& args@.len() == 2
            &&& args@[0] matches GenericArgumentShape::Type(TypeShape::Tuple(elems))
            &&& elems@.len() == 0
            &&& args@[1] matches GenericArgumentShape::Type(TypeShape::Path(error))
            &&& (segments_named(error@, seq!["StrategyError"@])
                || segments_named(error@, seq!["cmdkit"@, "StrategyError"@]))
        },
{
    lemma_strategy_accepts_exactly(attr_is_empty, sig);
    if sig.inputs@.len() == 3 {
        if let FnArgShape::Typed(t) = sig.inputs@[0] {
            lemma_vec_match_is_exact(t, seq!["Switch"@]);
            lemma_vec_match_is_exact(t, seq!["cmdkit"@, "Switch"@]);
        }
        if let FnArgShape::Typed(t) = sig.inputs@[1] {
            lemma_vec_match_is_exact(t, seq!["Argument"@]);
            lemma_vec_match_is_exact(t, seq!["cmdkit"@, "Argument"@]);
        }
        if let FnArgShape::Typed(t) = sig.inputs@[2] {
            lemma_vec_match_is_exact(t, seq!["String"@]);
            lemma_vec_match_is_exact(t, seq!["std"@, "string"@, "String"@]);
            lemma_vec_match_is_exact(t, seq!["alloc"@, "string"@, "String"@]);
        }
    }
    if let ReturnTypeShape::Type(TypeShape::Path(result)) = sig.output {
        lemma_result_arguments_are_exact(result@);
    }
}

/// Attribute arguments are refused whatever the function looks like.
pub proof fn lemma_attribute_arguments_always_refused(sig: SignatureShape)
    ensures
        strategy_rejection(false, sig) == Some(Rejection::AttributeArguments),
{
}

/// How the answer changes when one thing about an accepted function changes:
/// made `async` it is refused as async; given a fourth parameter of any kind it
/// is refused for too many parameters; with its last parameter removed it is
/// refused for missing subcommands; with its return type removed it is refused
/// for a missing return type.
pub proof fn lemma_one_change_from_accepted(sig: SignatureShape, other: SignatureShape, extra: FnArgShape)
    requires
        strategy_rejection(true, sig) is None,
    ensures
        (other.is_async && other.inputs@ == sig.inputs@ && other.output == sig.output)
            ==> strategy_rejection(true, other) == Some(Rejection::AsyncFunction),
        (other.is_async == sig.is_async && other.inputs@ == sig.inputs@.push(extra)
            && other.output == sig.output)
            ==> strategy_rejection(true, other) == Some(Rejection::TooManyInputs),
        (other.is_async == sig.is_async && other.inputs@ == sig.inputs@.drop_last()
            && other.output == sig.output)
            ==> strategy_rejection(true, other) == Some(Rejection::MissingSubcommands),
        (other.is_async == sig.is_async && other.inputs@ == sig.inputs@
            && other.output is Default)
            ==> strategy_rejection(true, other) == Some(Rejection::MissingReturnType),
{
    lemma_strategy_accepts_exactly(true, sig);
    if other.is_async == sig.is_async && other.inputs@ == sig.inputs@.push(extra) {
        assert(other.inputs@[0] == sig.inputs@[0]);
        assert(other.inputs@[1] == sig.inputs@[1]);
        assert(other.inputs@[2] == sig.inputs@[2]);
    }
    if other.is_async == sig.is_async && other.inputs@ == sig.inputs@.drop_last() {
        assert(other.inputs@[0] == sig.inputs@[0]);
        assert(other.inputs@[1] == sig.inputs@[1]);
    }
}

} // verus!