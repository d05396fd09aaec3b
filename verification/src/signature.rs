use vstd::prelude::*;

verus! {

/// A Rust type, as far as the strategy checks look into it.
#[derive(Debug)]
pub enum TypeShape {
    /// A path type such as `Vec<cmdkit::Switch>`, one entry per segment.
    Path(Vec<PathSegmentShape>),
    /// A tuple type such as `()`, with its element types.
    Tuple(Vec<TypeShape>),
    /// Any other kind of type (references, arrays, slices, ...).
    Other,
}

/// One segment of a path type: its identifier and the arguments written after it.
#[derive(Debug)]
pub struct PathSegmentShape {
    pub ident: String,
    pub arguments: PathArgumentsShape,
}

/// The arguments of a path segment.
#[derive(Debug)]
pub enum PathArgumentsShape {
    /// No arguments: `Vec`.
    Bare,
    /// Angle-bracketed arguments: `Vec<T>`, `Result<(), E>`.
    AngleBracketed(Vec<GenericArgumentShape>),
    /// Parenthesized arguments: `Fn(A) -> B`.
    Parenthesized,
}

/// One angle-bracketed argument.
#[derive(Debug)]
pub enum GenericArgumentShape {
    /// A type argument.
    Type(TypeShape),
    /// A lifetime, constant, binding or constraint.
    Other,
}

/// One parameter of a function signature.
#[derive(Debug)]
pub enum FnArgShape {
    /// A `self` receiver.
    Receiver,
    /// A typed parameter `pat: ty`; only its type is checked.
    Typed(TypeShape),
}

/// The declared return type of a function.
#[derive(Debug)]
pub enum ReturnTypeShape {
    /// No `->` in the signature.
    Default,
    /// `-> ty`.
    Type(TypeShape),
}

/// A function signature, as far as the strategy attribute checks it.
#[derive(Debug)]
pub struct SignatureShape {
    pub is_async: bool,
    pub inputs: Vec<FnArgShape>,
    pub output: ReturnTypeShape,
}

/// The identifiers of the segments of a path.
pub open spec fn path_idents(segments: Seq<PathSegmentShape>) -> Seq<Seq<char>> {
    segments.map_values(|segment: PathSegmentShape| segment.ident@)
}

/// `ty` is a path type whose segment identifiers are exactly `expected`
/// (arguments on the segments are not looked at).
pub open spec fn is_path_named(ty: TypeShape, expected: Seq<Seq<char>>) -> bool {
    match ty {
        TypeShape::Path(segments) => path_idents(segments@) == expected,
        _ => false,
    }
}

/// `ty` is a path type whose last segment is `Vec` with a first angle-bracketed
/// argument that is a type named by `expected`.
pub open spec fn is_vec_of_path(ty: TypeShape, expected: Seq<Seq<char>>) -> bool {
    match ty {
        TypeShape::Path(segments) => {
            &&& segments@.len() > 0
            &&& segments@.last().ident@ == "Vec"@
            &&& match segments@.last().arguments {
                PathArgumentsShape::AngleBracketed(args) => {
                    &&& args@.len() > 0
                    &&& match args@[0] {
                        GenericArgumentShape::Type(inner) => is_path_named(inner, expected),
                        GenericArgumentShape::Other => false,
                    }
                },
                _ => false,
            }
        },
        _ => false,
    }
}

/// The argument is the unit type `()`.
pub open spec fn is_unit_argument(arg: GenericArgumentShape) -> bool {
    match arg {
        GenericArgumentShape::Type(TypeShape::Tuple(elems)) => elems@.len() == 0,
        _ => false,
    }
}

/// The argument is `StrategyError` or `cmdkit::StrategyError`.
pub open spec fn is_strategy_error_argument(arg: GenericArgumentShape) -> bool {
    match arg {
        GenericArgumentShape::Type(inner) => {
            ||| is_path_named(inner, seq!["StrategyError"@])
            ||| is_path_named(inner, seq!["cmdkit"@, "StrategyError"@])
        },
        GenericArgumentShape::Other => false,
    }
}

/// The last segment of the path carries exactly the two arguments
/// `<(), StrategyError>` (or `<(), cmdkit::StrategyError>`).
pub open spec fn has_result_arguments(segments: Seq<PathSegmentShape>) -> bool {
    &&& segments.len() > 0
    &&& match segments.last().arguments {
        PathArgumentsShape::AngleBracketed(args) => {
            &&& args@.len() == 2
            &&& is_unit_argument(args@[0])
            &&& is_strategy_error_argument(args@[1])
        },
        _ => false,
    }
}

/// `ty` is written `Result<(), StrategyError>` or `Result<(), cmdkit::StrategyError>`.
pub open spec fn is_strategy_result(ty: TypeShape) -> bool {
    match ty {
        TypeShape::Path(segments) => {
            &&& segments@.len() == 1
            &&& segments@[0].ident@ == "Result"@
            &&& has_result_arguments(segments@)
        },
        _ => false,
    }
}

/// The views of a list of string literals.
pub open spec fn str_views(expected: Seq<&str>) -> Seq<Seq<char>> {
    expected.map_values(|s: &str| s@)
}

/// Whether `ty` is a path type whose segment identifiers are exactly `expected`.
pub fn matches_path_segments(ty: &TypeShape, expected: &[&str]) -> (res: bool)
    ensures
        res == is_path_named(*ty, str_views(expected@)),
{
    match ty {
        TypeShape::Path(segments) => {
            let ghost actual = path_idents(segments@);
            let ghost wanted = str_views(expected@);
            if segments.len() != expected.len() {
                assert(actual.len() != wanted.len());
                return false;
            }
            let n = segments.len();
            let mut i: usize = 0;
            while i < n
                invariant
                    n == segments@.len(),
                    n == expected@.len(),
                    actual == path_idents(segments@),
                    wanted == str_views(expected@),
                    is_path_named(*ty, wanted) == (actual == wanted),
                    i <= n,
                    forall|j: int| 0 <= j < i ==> actual[j] == wanted[j],
                decreases n - i,
            {
                let wanted_ident: String = expected[i].to_owned();
                if !(segments[i].ident == wanted_ident) {
                    assert(actual[i as int] != wanted[i as int]);
                    return false;
                }
                i = i + 1;
            }
            assert(actual =~= wanted);
            true
        },
        _ => false,
    }
}

/// Whether `ty` is `Vec<P>` (any path ending in `Vec`) where `P` is a path type
/// whose segment identifiers are exactly `expected`.
pub fn matches_vec_of_path(ty: &TypeShape, expected: &[&str]) -> (res: bool)
    ensures
        res == is_vec_of_path(*ty, str_views(expected@)),
{
    match ty {
        TypeShape::Path(segments) => {
            if segments.len() == 0 {
                return false;
            }
            let last = &segments[segments.len() - 1];
            let vec_ident: String = "Vec".to_owned();
            if !(last.ident == vec_ident) {
                return false;
            }
            match &last.arguments {
                PathArgumentsShape::AngleBracketed(args) => {
                    if args.len() == 0 {
                        return false;
                    }
                    match &args[0] {
                        GenericArgumentShape::Type(inner) => matches_path_segments(inner, expected),
                        GenericArgumentShape::Other => false,
                    }
                },
                _ => false,
            }
        },
        _ => false,
    }
}

/// Whether the last segment of a path carries exactly the arguments
/// `<(), StrategyError>` or `<(), cmdkit::StrategyError>`.
pub fn matches_result_type(segments: &Vec<PathSegmentShape>) -> (res: bool)
    ensures
        res == has_result_arguments(segments@),
{
    if segments.len() == 0 {
        return false;
    }
    let last = &segments[segments.len() - 1];
    match &last.arguments {
        PathArgumentsShape::AngleBracketed(args) => {
            if args.len() != 2 {
                return false;
            }
            let unit = match &args[0] {
                GenericArgumentShape::Type(TypeShape::Tuple(elems)) => elems.len() == 0,
                _ => false,
            };
            let error = match &args[1] {
                GenericArgumentShape::Type(inner) => {
                    let short_name: [&str; 1] = ["StrategyError"];
                    let long_name: [&str; 2] = ["cmdkit", "StrategyError"];
                    assert(str_views(short_name@) =~= seq!["StrategyError"@]);
                    assert(str_views(long_name@) =~= seq!["cmdkit"@, "StrategyError"@]);
                    let short = matches_path_segments(inner, &short_name);
                    let long = matches_path_segments(inner, &long_name);
                    short || long
                },
                GenericArgumentShape::Other => false,
            };
            unit && error
        },
        _ => false,
    }
}

/// The segments of `segments` carry exactly the identifiers `names`, in order.
pub open spec fn segments_named(segments: Seq<PathSegmentShape>, names: Seq<Seq<char>>) -> bool {
    &&& segments.len() == names.len()
    &&& forall|j: int| 0 <= j < names.len() ==> #[trigger] segments[j].ident@ == names[j]
}

/// The segments of the path type that stands as the first type argument of a
/// type whose last path segment is `Vec`; `None` when there is no such path.
pub open spec fn vec_element_segments(ty: TypeShape) -> Option<Seq<PathSegmentShape>> {
    match ty {
        TypeShape::Path(segments) => if segments@.len() > 0 && segments@.last().ident@ == "Vec"@ {
            match segments@.last().arguments {
                PathArgumentsShape::AngleBracketed(args) => if args@.len() > 0 {
                    match args@[0] {
                        GenericArgumentShape::Type(TypeShape::Path(inner)) => Some(inner@),
                        _ => None,
                    }
                } else {
                    None
                },
                _ => None,
            }
        } else {
            None
        },
        _ => None,
    }
}

/// A path match compares every segment, the last one included: a type matches
/// `expected` exactly when it is a path whose identifiers are `expected`, one
/// for one, and no other type (tuple, reference, ...) matches anything.
pub proof fn lemma_path_match_is_exact(ty: TypeShape, expected: Seq<Seq<char>>)
    ensures
        is_path_named(ty, expected) <==> (ty matches TypeShape::Path(segments)
            && segments_named(segments@, expected)),
{
    if let TypeShape::Path(segments) = ty {
        let idents = path_idents(segments@);
        if segments_named(segments@, expected) {
            assert(idents =~= expected);
        }
        if idents == expected {
            assert forall|j: int| 0 <= j < expected.len() implies #[trigger] segments@[j].ident@
                == expected[j] by {
                assert(idents[j] == segments@[j].ident@);
            }
        }
    }
}

/// `Vec<P>` matches `expected` exactly when the type's last segment is `Vec`
/// and its first type argument is a path type whose identifiers are `expected`:
/// a `Vec` of a reference, a tuple or any other non-path type never matches.
pub proof fn lemma_vec_match_is_exact(ty: TypeShape, expected: Seq<Seq<char>>)
    ensures
        is_vec_of_path(ty, expected) <==> (vec_element_segments(ty) matches Some(inner)
            && segments_named(inner, expected)),
{
    if let TypeShape::Path(segments) = ty {
        if segments@.len() > 0 {
            if let PathArgumentsShape::AngleBracketed(args) = segments@.last().arguments {
                if args@.len() > 0 {
                    if let GenericArgumentShape::Type(inner) = args@[0] {
                        lemma_path_match_is_exact(inner, expected);
                    }
                }
            }
        }
    }
}

/// The return-type arguments are accepted exactly when the last segment carries
/// two angle-bracketed type arguments, the first being the empty tuple `()` and
/// the second the path `StrategyError` or `cmdkit::StrategyError`; any other
/// first argument (`bool`, `String`, `(u8,)`, ...) is refused.
pub proof fn lemma_result_arguments_are_exact(segments: Seq<PathSegmentShape>)
    ensures
        has_result_arguments(segments) <==> {
            &&& segments.len() > 0
            &&& segments.last().arguments matches PathArgumentsShape::AngleBracketed(args)
            &&& args@.len() == 2
            &&& args@[0] matches GenericArgumentShape::Type(TypeShape::Tuple(elems))
            &&& elems@.len() == 0
            &&& args@[1] matches GenericArgumentShape::Type(TypeShape::Path(error))
            &&& (segments_named(error@, seq!["StrategyError"@])
                || segments_named(error@, seq!["cmdkit"@, "StrategyError"@]))
        },
{
    if segments.len() > 0 {
        if let PathArgumentsShape::AngleBracketed(args) = segments.last().arguments {
            if args@.len() == 2 {
                if let GenericArgumentShape::Type(inner) = args@[1] {
                    lemma_path_match_is_exact(inner, seq!["StrategyError"@]);
                    lemma_path_match_is_exact(inner, seq!["cmdkit"@, "StrategyError"@]);
                }
            }
        }
    }
}

} // verus!
