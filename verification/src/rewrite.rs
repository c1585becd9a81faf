//! The signature rewriter: from a host function as its author wrote it to
//! the wrapper that a trampoline can call.
//!
//! A trampoline calls a function of three parameters: the frame of the
//! call, the list of arguments, and a raw pointer to the user data. An
//! author writes two parameters, or three with a typed view of the user
//! data in the third place. The rewriter decides from the shape of the
//! signature what the wrapper looks like.
//!
//! Where the shape fits none of the rules, the build fails. Such an item
//! is no input of a function that plans a wrapper: it is left out by
//! `requires`. Each rule has its test, named after it with `_refusal`
//! behind, which says why the build fails, if it does; whoever cannot
//! rule a failure out asks the test first, and fails the build on a
//! refusal.
//!
//! The rewriter reads a description of the function item and returns a
//! plan of the wrapper. Neither holds the item's text: whoever renders the
//! wrapper has the item at hand and takes the texts from there.

use vstd::prelude::*;
use vstd::string::*;

verus! {

/// The pattern of a parameter.
#[derive(Clone, Copy, Debug, PartialEq, Eq, Structural)]
pub enum Pat {
    /// A plain name.
    Ident,
    /// The wildcard `_`.
    Wild,
    /// Any other pattern.
    Other,
}

/// A generic argument of a path segment.
#[derive(Clone, Copy, Debug, PartialEq, Eq, Structural)]
pub enum GenericArgument {
    /// A type that is a reference, shared or mutable.
    Reference,
    /// A type of another form.
    OtherType,
    /// Not a type: a lifetime, a constant, a binding.
    NotType,
}

/// The arguments of a path segment.
#[derive(Debug)]
pub enum PathArguments {
    /// No arguments.
    Absent,
    /// Arguments in angle brackets, in order.
    AngleBracketed(Vec<GenericArgument>),
    /// Arguments in round brackets, as in `Fn(A) -> B`.
    Parenthesized,
}

/// A segment of a type path.
#[derive(Debug)]
pub struct PathSegment {
    /// The segment's name.
    pub ident: String,
    /// The segment's arguments.
    pub arguments: PathArguments,
}

/// The type of a parameter.
#[derive(Debug)]
pub enum Type {
    /// A reference, shared or mutable.
    Reference,
    /// A path, by its segments in order.
    Path(Vec<PathSegment>),
    /// A type of another form.
    Other,
}

/// A parameter of a function.
#[derive(Debug)]
pub enum FnArg {
    /// The receiver `self`, in any form.
    Receiver,
    /// An ordinary parameter.
    Typed {
        /// The pattern that binds the parameter.
        pat: Pat,
        /// The form of the parameter's type.
        ty: Type,
    },
}

/// What the rewriter reads of a function item.
#[derive(Debug)]
pub struct ItemFn {
    /// The function is marked `async`.
    pub asyncness: bool,
    /// The function's name.
    pub ident: String,
    /// The parameters, in order.
    pub inputs: Vec<FnArg>,
}

/// An item that carries a rewriting attribute.
#[derive(Debug)]
pub enum Item {
    /// A function.
    Fn(ItemFn),
    /// Anything else.
    Other,
}

/// Where the type behind the user-data pointer is found in the third
/// parameter.
#[derive(Clone, Copy, Debug, PartialEq, Eq, Structural)]
pub enum Pointee {
    /// The parameter is a reference: the type referred to.
    Reference,
    /// The parameter is an `Option` of a reference: the type that the
    /// reference in the last generic argument refers to.
    OptionArgument,
}

/// How the wrapper names an argument that it passes on.
#[derive(Clone, Copy, Debug, PartialEq, Eq, Structural)]
pub enum ArgName {
    /// By the parameter's own name.
    Ident,
    /// By `_`, for a parameter bound by the wildcard.
    Underscore,
}

/// How the wrapper names the first two arguments that it passes on.
#[derive(Clone, Copy, Debug, PartialEq, Eq, Structural)]
pub struct ArgNames {
    /// The name of the first argument.
    pub first: ArgName,
    /// The name of the second argument.
    pub second: ArgName,
}

/// The parameters of the wrapper.
#[derive(Clone, Copy, Debug, PartialEq, Eq, Structural)]
pub enum WrapperInputs {
    /// The fixed three: the frame, the argument list, the raw pointer.
    Fixed,
    /// The author's parameters, unchanged.
    Same,
    /// The author's parameters and, behind them, an unused raw pointer.
    DataAppended,
    /// The author's parameters with the raw pointer in place of the last.
    LastReplaced,
    /// The author's parameters with the frame in place of the first.
    FirstReplaced {
        /// The frame gets a name, because the body uses the first
        /// parameter; else it is bound by the wildcard.
        named: bool,
    },
}

/// The return type of the wrapper.
#[derive(Clone, Copy, Debug, PartialEq, Eq, Structural)]
pub enum WrapperOutput {
    /// The return type that the author declared.
    Declared,
    /// An owned, heap-allocated future that may move between threads and
    /// yields the values to return or a host function error.
    BoxedFuture,
}

/// The body of the wrapper.
#[derive(Clone, Copy, Debug, PartialEq, Eq, Structural)]
pub enum Body {
    /// The author's function, declared inside under an inner name, and a
    /// call of it.
    Forward {
        /// A caller is made from the frame and passed in the first place;
        /// else the first two parameters are passed on by `names`.
        caller: bool,
        /// How the first and the second parameter are passed on, where no
        /// caller is made.
        names: Option<ArgNames>,
        /// The raw pointer is reinterpreted as a pointer to this type,
        /// borrowed mutably and passed in the third place; else two
        /// arguments are passed.
        pointee: Option<Pointee>,
    },
    /// The author's block, unchanged.
    Block,
    /// The author's block inside a boxed `async move` block.
    BoxedAsync {
        /// The block begins by making a caller from the frame, under the
        /// first parameter's name.
        caller: bool,
    },
}

/// The plan of a wrapper. The wrapper keeps the author's visibility and
/// name.
#[derive(Clone, Copy, Debug, PartialEq, Eq, Structural)]
pub struct Wrapper {
    /// The wrapper keeps the author's generic parameters.
    pub generics: bool,
    /// The wrapper's parameters.
    pub inputs: WrapperInputs,
    /// The wrapper's return type.
    pub output: WrapperOutput,
    /// The wrapper's body.
    pub body: Body,
}

/// Why no wrapper can be made. Each is a failure of the build.
#[derive(Clone, Copy, Debug, PartialEq, Eq, Structural)]
pub enum RewriteError {
    /// The function has another number of parameters than the rule takes.
    InvalidArgCount,
    /// The function has no parameter at this place.
    MissingArg(usize),
    /// The function is not marked `async`.
    NotAsync,
    /// A parameter that the wrapper passes on is bound by a pattern that
    /// is neither a name nor the wildcard.
    PatternNotIdent,
    /// A parameter that the wrapper passes on is the receiver.
    ReceiverArg,
    /// The user-data parameter is the receiver.
    UnsupportedFnArg,
    /// The user-data parameter's type is neither a reference nor a path.
    UnsupportedType,
    /// The user-data parameter's type is a path without segments.
    NoPathSegments,
    /// The last segment of the path is not `Option`.
    NotOption,
    /// `Option` has no arguments in angle brackets.
    NotAngleBracketed,
    /// The angle brackets are empty.
    NoGenericArgument,
    /// The last generic argument is not a type.
    NotTypeArgument,
    /// The last generic argument is a type, but not a reference.
    NotReference,
}

/// Where the pointee is found in a path type.
pub open spec fn pointee_of_path(segments: Seq<PathSegment>) -> Result<Pointee, RewriteError> {
    if segments.len() == 0 {
        Err(RewriteError::NoPathSegments)
    } else if segments.last().ident@ != "Option"@ {
        Err(RewriteError::NotOption)
    } else {
        match segments.last().arguments {
            PathArguments::AngleBracketed(args) => if args@.len() == 0 {
                Err(RewriteError::NoGenericArgument)
            } else {
                match args@.last() {
                    GenericArgument::Reference => Ok(Pointee::OptionArgument),
                    GenericArgument::OtherType => Err(RewriteError::NotReference),
                    GenericArgument::NotType => Err(RewriteError::NotTypeArgument),
                }
            },
            _ => Err(RewriteError::NotAngleBracketed),
        }
    }
}

/// Where the type behind the user-data pointer is found in a parameter:
/// in a reference, or in an `Option` whose last generic argument is a
/// reference. Any other parameter is an error.
pub open spec fn pointee_of(arg: FnArg) -> Result<Pointee, RewriteError> {
    match arg {
        FnArg::Receiver => Err(RewriteError::UnsupportedFnArg),
        FnArg::Typed { pat, ty } => match ty {
            Type::Reference => Ok(Pointee::Reference),
            Type::Path(segments) => pointee_of_path(segments@),
            Type::Other => Err(RewriteError::UnsupportedType),
        },
    }
}

/// How the wrapper names a parameter that it passes on.
pub open spec fn name_of(arg: FnArg) -> Result<ArgName, RewriteError> {
    match arg {
        FnArg::Receiver => Err(RewriteError::ReceiverArg),
        FnArg::Typed { pat, ty } => match pat {
            Pat::Ident => Ok(ArgName::Ident),
            Pat::Wild => Ok(ArgName::Underscore),
            Pat::Other => Err(RewriteError::PatternNotIdent),
        },
    }
}

/// The wrapper of a host function for the high-level interface.
///
/// Two parameters: the wrapper makes a caller from the frame and passes
/// it on with the arguments. Three parameters: it also reinterprets the
/// raw pointer as the third parameter's pointee. The wrapper always has
/// the fixed three parameters, and does not keep the generics.
pub open spec fn host_func_wrapper(inputs: Seq<FnArg>) -> Result<Wrapper, RewriteError> {
    if inputs.len() == 2 {
        Ok(
            Wrapper {
                generics: false,
                inputs: WrapperInputs::Fixed,
                output: WrapperOutput::Declared,
                body: Body::Forward { caller: true, names: None, pointee: None },
            },
        )
    } else if inputs.len() == 3 {
        match pointee_of(inputs[2]) {
            Ok(pointee) => Ok(
                Wrapper {
                    generics: false,
                    inputs: WrapperInputs::Fixed,
                    output: WrapperOutput::Declared,
                    body: Body::Forward { caller: true, names: None, pointee: Some(pointee) },
                },
            ),
            Err(err) => Err(err),
        }
    } else {
        Err(RewriteError::InvalidArgCount)
    }
}

/// The wrapper of an asynchronous host function for the high-level
/// interface, once its parameters were counted. The frame takes the place
/// of the first parameter; where the first has a name, the body begins
/// by making a caller under that name.
pub open spec fn async_three_args_wrapper(inputs: Seq<FnArg>) -> Result<Wrapper, RewriteError> {
    if inputs.len() == 0 {
        Err(RewriteError::MissingArg(0))
    } else {
        match name_of(inputs[0]) {
            Ok(name) => Ok(
                Wrapper {
                    generics: true,
                    inputs: WrapperInputs::FirstReplaced { named: name == ArgName::Ident },
                    output: WrapperOutput::BoxedFuture,
                    body: Body::BoxedAsync { caller: name == ArgName::Ident },
                },
            ),
            Err(err) => Err(err),
        }
    }
}

/// The wrapper of an asynchronous host function for the high-level
/// interface, which must have three parameters.
pub open spec fn async_host_func_wrapper(inputs: Seq<FnArg>) -> Result<Wrapper, RewriteError> {
    if inputs.len() != 3 {
        Err(RewriteError::InvalidArgCount)
    } else {
        async_three_args_wrapper(inputs)
    }
}

/// The wrapper of a host function for the low-level interface, from two
/// parameters or three. A function of three parameters has the
/// trampoline's shape already: the wrapper is the function itself. A
/// function of two parameters is declared inside a wrapper that takes
/// the unused raw pointer behind them and passes the two on by name.
pub open spec fn sys_host_func_wrapper(inputs: Seq<FnArg>) -> Result<Wrapper, RewriteError> {
    if inputs.len() == 2 {
        if name_of(inputs[0]) is Err {
            Err(name_of(inputs[0])->Err_0)
        } else if name_of(inputs[1]) is Err {
            Err(name_of(inputs[1])->Err_0)
        } else {
            Ok(
                Wrapper {
                    generics: false,
                    inputs: WrapperInputs::DataAppended,
                    output: WrapperOutput::Declared,
                    body: Body::Forward {
                        caller: false,
                        names: Some(
                            ArgNames {
                                first: name_of(inputs[0])->Ok_0,
                                second: name_of(inputs[1])->Ok_0,
                            },
                        ),
                        pointee: None,
                    },
                },
            )
        }
    } else if inputs.len() == 3 {
        Ok(
            Wrapper {
                generics: true,
                inputs: WrapperInputs::Same,
                output: WrapperOutput::Declared,
                body: Body::Block,
            },
        )
    } else {
        Err(RewriteError::InvalidArgCount)
    }
}

/// The wrapper of an asynchronous host function for the low-level
/// interface, which must have the three parameters already: the function
/// with its body boxed.
pub open spec fn sys_async_host_func_wrapper(inputs: Seq<FnArg>) -> Result<Wrapper, RewriteError> {
    if inputs.len() == 3 {
        Ok(
            Wrapper {
                generics: true,
                inputs: WrapperInputs::Same,
                output: WrapperOutput::BoxedFuture,
                body: Body::BoxedAsync { caller: false },
            },
        )
    } else {
        Err(RewriteError::InvalidArgCount)
    }
}

/// The wrapper of a host function for the low-level interface, from two
/// parameters or three. The first two parameters are passed on by name;
/// the raw pointer is appended where the author wrote two parameters, and
/// takes the place of the third where the author wrote three.
///
/// The first two parameters are read before the parameters are counted:
/// a missing or unnamed one is reported first.
pub open spec fn sys_host_func_new_wrapper(inputs: Seq<FnArg>) -> Result<Wrapper, RewriteError> {
    if inputs.len() == 0 {
        Err(RewriteError::MissingArg(0))
    } else if name_of(inputs[0]) is Err {
        Err(name_of(inputs[0])->Err_0)
    } else if inputs.len() == 1 {
        Err(RewriteError::MissingArg(1))
    } else if name_of(inputs[1]) is Err {
        Err(name_of(inputs[1])->Err_0)
    } else {
        let names = Some(
            ArgNames { first: name_of(inputs[0])->Ok_0, second: name_of(inputs[1])->Ok_0 },
        );
        if inputs.len() == 2 {
            Ok(
                Wrapper {
                    generics: false,
                    inputs: WrapperInputs::DataAppended,
                    output: WrapperOutput::Declared,
                    body: Body::Forward { caller: false, names, pointee: None },
                },
            )
        } else if inputs.len() == 3 {
            match pointee_of(inputs[2]) {
                Ok(pointee) => Ok(
                    Wrapper {
                        generics: false,
                        inputs: WrapperInputs::LastReplaced,
                        output: WrapperOutput::Declared,
                        body: Body::Forward { caller: false, names, pointee: Some(pointee) },
                    },
                ),
                Err(err) => Err(err),
            }
        } else {
            Err(RewriteError::InvalidArgCount)
        }
    }
}

/// What an attribute makes of an item: a function is rewritten by `rule`,
/// and anything else is replaced by nothing.
pub open spec fn rewritten(
    item: Item,
    rule: spec_fn(Seq<FnArg>) -> Result<Wrapper, RewriteError>,
) -> Result<Option<Wrapper>, RewriteError> {
    match item {
        Item::Fn(item_fn) => match rule(item_fn.inputs@) {
            Ok(wrapper) => Ok(Some(wrapper)),
            Err(err) => Err(err),
        },
        Item::Other => Ok(None),
    }
}

/// What an attribute for asynchronous functions makes of an item: a
/// function that is not marked `async` is an error before anything else.
pub open spec fn rewritten_async(
    item: Item,
    rule: spec_fn(Seq<FnArg>) -> Result<Wrapper, RewriteError>,
) -> Result<Option<Wrapper>, RewriteError> {
    match item {
        Item::Fn(item_fn) => if !item_fn.asyncness {
            Err(RewriteError::NotAsync)
        } else {
            rewritten(item, rule)
        },
        Item::Other => Ok(None),
    }
}

/// Why a plan is refused, if it is.
pub open spec fn refusal<T>(planned: Result<T, RewriteError>) -> Option<RewriteError> {
    match planned {
        Ok(_) => None,
        Err(err) => Some(err),
    }
}

/// Where the type behind the user-data pointer is found in a parameter,
/// or why it is found nowhere.
pub fn pointee(arg: &FnArg) -> (res: Result<Pointee, RewriteError>)
    ensures
        res == pointee_of(*arg),
{
    match arg {
        FnArg::Receiver => Err(RewriteError::UnsupportedFnArg),
        FnArg::Typed { pat: _, ty } => match ty {
            Type::Reference => Ok(Pointee::Reference),
            Type::Path(segments) => {
                if segments.len() == 0 {
                    return Err(RewriteError::NoPathSegments);
                }
                let segment = &segments[segments.len() - 1];
                let option = String::from_str("Option");
                if segment.ident != option {
                    return Err(RewriteError::NotOption);
                }
                match &segment.arguments {
                    PathArguments::AngleBracketed(args) => {
                        if args.len() == 0 {
                            return Err(RewriteError::NoGenericArgument);
                        }
                        match args[args.len() - 1] {
                            GenericArgument::Reference => Ok(Pointee::OptionArgument),
                            GenericArgument::OtherType => Err(RewriteError::NotReference),
                            GenericArgument::NotType => Err(RewriteError::NotTypeArgument),
                        }
                    },
                    _ => Err(RewriteError::NotAngleBracketed),
                }
            },
            Type::Other => Err(RewriteError::UnsupportedType),
        },
    }
}

/// How the wrapper names a parameter that it passes on, or why it cannot
/// name it.
pub fn arg_name(arg: &FnArg) -> (res: Result<ArgName, RewriteError>)
    ensures
        res == name_of(*arg),
{
    match arg {
        FnArg::Receiver => Err(RewriteError::ReceiverArg),
        FnArg::Typed { pat, ty: _ } => match pat {
            Pat::Ident => Ok(ArgName::Ident),
            Pat::Wild => Ok(ArgName::Underscore),
            Pat::Other => Err(RewriteError::PatternNotIdent),
        },
    }
}

/// The name under which a wrapper declares the author's function inside
/// itself: the function's name behind `inner_`.
pub fn inner_name(ident: &str) -> (name: String)
    ensures
        name@ == "inner_"@ + ident@,
{
    String::from_str("inner_").concat(ident)
}

/// The pointee of a parameter that has one.
fn pointee_found(arg: &FnArg) -> (place: Pointee)
    requires
        pointee_of(*arg) is Ok,
    ensures
        pointee_of(*arg) == Ok::<Pointee, RewriteError>(place),
{
    match pointee(arg) {
        Ok(place) => place,
        Err(_) => unreached(),
    }
}

/// The name of a parameter that can be named.
fn arg_named(arg: &FnArg) -> (name: ArgName)
    requires
        name_of(*arg) is Ok,
    ensures
        name_of(*arg) == Ok::<ArgName, RewriteError>(name),
{
    match arg_name(arg) {
        Ok(name) => name,
        Err(_) => unreached(),
    }
}

/// Why the build fails on a host function for the high-level interface,
/// if it does. To be asked before [`expand_host_func`].
pub fn host_func_refusal(item_fn: &ItemFn) -> (why: Option<RewriteError>)
    ensures
        why == refusal(host_func_wrapper(item_fn.inputs@)),
{
    let count = item_fn.inputs.len();
    if count == 2 {
        None
    } else if count == 3 {
        match pointee(&item_fn.inputs[2]) {
            Ok(_) => None,
            Err(err) => Some(err),
        }
    } else {
        Some(RewriteError::InvalidArgCount)
    }
}

/// Why the build fails on an asynchronous host function for the
/// high-level interface, once it is known to be marked `async`, if it
/// does. To be asked before [`expand_async_host_func`].
pub fn async_host_func_refusal(item_fn: &ItemFn) -> (why: Option<RewriteError>)
    ensures
        why == refusal(async_host_func_wrapper(item_fn.inputs@)),
{
    if item_fn.inputs.len() != 3 {
        return Some(RewriteError::InvalidArgCount);
    }
    match arg_name(&item_fn.inputs[0]) {
        Ok(_) => None,
        Err(err) => Some(err),
    }
}

/// Why the build fails on a host function for the low-level interface,
/// if it does. To be asked before [`sys_expand_host_func`].
pub fn sys_host_func_refusal(item_fn: &ItemFn) -> (why: Option<RewriteError>)
    ensures
        why == refusal(sys_host_func_wrapper(item_fn.inputs@)),
{
    let count = item_fn.inputs.len();
    if count == 2 {
        match arg_name(&item_fn.inputs[0]) {
            Ok(_) => match arg_name(&item_fn.inputs[1]) {
                Ok(_) => None,
                Err(err) => Some(err),
            },
            Err(err) => Some(err),
        }
    } else if count == 3 {
        None
    } else {
        Some(RewriteError::InvalidArgCount)
    }
}

/// Why the build fails on an asynchronous host function for the
/// low-level interface, once it is known to be marked `async`, if it
/// does. To be asked before [`sys_expand_async_host_func`].
pub fn sys_async_host_func_refusal(item_fn: &ItemFn) -> (why: Option<RewriteError>)
    ensures
        why == refusal(sys_async_host_func_wrapper(item_fn.inputs@)),
{
    if item_fn.inputs.len() == 3 {
        None
    } else {
        Some(RewriteError::InvalidArgCount)
    }
}

/// Why the build fails on a host function for the low-level interface,
/// from two parameters or three, if it does. To be asked before
/// [`sys_expand_host_func_new`].
pub fn sys_host_func_new_refusal(item_fn: &ItemFn) -> (why: Option<RewriteError>)
    ensures
        why == refusal(sys_host_func_new_wrapper(item_fn.inputs@)),
{
    let count = item_fn.inputs.len();
    if count == 0 {
        return Some(RewriteError::MissingArg(0));
    }
    match arg_name(&item_fn.inputs[0]) {
        Ok(_) => {},
        Err(err) => {
            return Some(err);
        },
    }
    if count == 1 {
        return Some(RewriteError::MissingArg(1));
    }
    match arg_name(&item_fn.inputs[1]) {
        Ok(_) => {},
        Err(err) => {
            return Some(err);
        },
    }
    if count == 2 {
        None
    } else if count == 3 {
        match pointee(&item_fn.inputs[2]) {
            Ok(_) => None,
            Err(err) => Some(err),
        }
    } else {
        Some(RewriteError::InvalidArgCount)
    }
}

/// Why the build fails on an item for the high-level interface, if it
/// does. To be asked before [`host_function`].
pub fn host_function_refusal(item: &Item) -> (why: Option<RewriteError>)
    ensures
        why == refusal(rewritten(*item, |inputs: Seq<FnArg>| host_func_wrapper(inputs))),
{
    match item {
        Item::Fn(item_fn) => host_func_refusal(item_fn),
        Item::Other => None,
    }
}

/// Why the build fails on an item that must be an asynchronous function,
/// for the high-level interface, if it does. To be asked before
/// [`async_host_function`].
pub fn async_host_function_refusal(item: &Item) -> (why: Option<RewriteError>)
    ensures
        why == refusal(
            rewritten_async(*item, |inputs: Seq<FnArg>| async_host_func_wrapper(inputs)),
        ),
{
    match item {
        Item::Fn(item_fn) => {
            if !item_fn.asyncness {
                Some(RewriteError::NotAsync)
            } else {
                async_host_func_refusal(item_fn)
            }
        },
        Item::Other => None,
    }
}

/// Why the build fails on an item for the low-level interface, if it
/// does. To be asked before [`sys_host_function`].
pub fn sys_host_function_refusal(item: &Item) -> (why: Option<RewriteError>)
    ensures
        why == refusal(rewritten(*item, |inputs: Seq<FnArg>| sys_host_func_wrapper(inputs))),
{
    match item {
        Item::Fn(item_fn) => sys_host_func_refusal(item_fn),
        Item::Other => None,
    }
}

/// Why the build fails on an item that must be an asynchronous function,
/// for the low-level interface, if it does. To be asked before
/// [`sys_async_host_function`].
pub fn sys_async_host_function_refusal(item: &Item) -> (why: Option<RewriteError>)
    ensures
        why == refusal(
            rewritten_async(*item, |inputs: Seq<FnArg>| sys_async_host_func_wrapper(inputs)),
        ),
{
    match item {
        Item::Fn(item_fn) => {
            if !item_fn.asyncness {
                Some(RewriteError::NotAsync)
            } else {
                sys_async_host_func_refusal(item_fn)
            }
        },
        Item::Other => None,
    }
}

/// Why the build fails on an item for the low-level interface, from two
/// parameters or three, if it does. To be asked before
/// [`sys_host_function_new`].
pub fn sys_host_function_new_refusal(item: &Item) -> (why: Option<RewriteError>)
    ensures
        why == refusal(rewritten(*item, |inputs: Seq<FnArg>| sys_host_func_new_wrapper(inputs))),
{
    match item {
        Item::Fn(item_fn) => sys_host_func_new_refusal(item_fn),
        Item::Other => None,
    }
}

/// Rewrites an item for the high-level interface: a function gets its
/// wrapper, and anything else is replaced by nothing. An item on which
/// the build fails is no input.
pub fn host_function(item: &Item) -> (res: Option<Wrapper>)
    requires
        rewritten(*item, |inputs: Seq<FnArg>| host_func_wrapper(inputs)) is Ok,
    ensures
        rewritten(*item, |inputs: Seq<FnArg>| host_func_wrapper(inputs)) == Ok::<
            Option<Wrapper>,
            RewriteError,
        >(res),
{
    match item {
        Item::Fn(item_fn) => Some(expand_host_func(item_fn)),
        Item::Other => None,
    }
}

/// Plans the wrapper of a host function for the high-level interface. A
/// function on which the build fails is no input.
pub fn expand_host_func(item_fn: &ItemFn) -> (wrapper: Wrapper)
    requires
        host_func_wrapper(item_fn.inputs@) is Ok,
    ensures
        host_func_wrapper(item_fn.inputs@) == Ok::<Wrapper, RewriteError>(wrapper),
{
    let pointee = if item_fn.inputs.len() == 2 {
        None
    } else {
        Some(pointee_found(&item_fn.inputs[2]))
    };
    Wrapper {
        generics: false,
        inputs: WrapperInputs::Fixed,
        output: WrapperOutput::Declared,
        body: Body::Forward { caller: true, names: None, pointee },
    }
}

/// Rewrites an item that must be an asynchronous function, for the
/// high-level interface. An item on which the build fails is no input.
pub fn async_host_function(item: &Item) -> (res: Option<Wrapper>)
    requires
        rewritten_async(*item, |inputs: Seq<FnArg>| async_host_func_wrapper(inputs)) is Ok,
    ensures
        rewritten_async(*item, |inputs: Seq<FnArg>| async_host_func_wrapper(inputs)) == Ok::<
            Option<Wrapper>,
            RewriteError,
        >(res),
{
    match item {
        Item::Fn(item_fn) => Some(expand_async_host_func(item_fn)),
        Item::Other => None,
    }
}

/// Plans the wrapper of an asynchronous host function for the high-level
/// interface. A function on which the build fails is no input.
pub fn expand_async_host_func(item_fn: &ItemFn) -> (wrapper: Wrapper)
    requires
        async_host_func_wrapper(item_fn.inputs@) is Ok,
    ensures
        async_host_func_wrapper(item_fn.inputs@) == Ok::<Wrapper, RewriteError>(wrapper),
{
    expand_async_host_func_with_three_args(item_fn)
}

/// Plans the wrapper of an asynchronous host function for the
/// high-level interface, once its parameters were counted. A function
/// whose first parameter cannot be named is no input.
pub fn expand_async_host_func_with_three_args(item_fn: &ItemFn) -> (wrapper: Wrapper)
    requires
        async_three_args_wrapper(item_fn.inputs@) is Ok,
    ensures
        async_three_args_wrapper(item_fn.inputs@) == Ok::<Wrapper, RewriteError>(wrapper),
{
    let used_first_arg = match arg_named(&item_fn.inputs[0]) {
        ArgName::Ident => true,
        ArgName::Underscore => false,
    };
    Wrapper {
        generics: true,
        inputs: WrapperInputs::FirstReplaced { named: used_first_arg },
        output: WrapperOutput::BoxedFuture,
        body: Body::BoxedAsync { caller: used_first_arg },
    }
}

/// Rewrites an item for the low-level interface. An item on which the
/// build fails is no input.
pub fn sys_host_function(item: &Item) -> (res: Option<Wrapper>)
    requires
        rewritten(*item, |inputs: Seq<FnArg>| sys_host_func_wrapper(inputs)) is Ok,
    ensures
        rewritten(*item, |inputs: Seq<FnArg>| sys_host_func_wrapper(inputs)) == Ok::<
            Option<Wrapper>,
            RewriteError,
        >(res),
{
    match item {
        Item::Fn(item_fn) => Some(sys_expand_host_func(item_fn)),
        Item::Other => None,
    }
}

/// Plans the wrapper of a host function for the low-level interface:
/// the function itself where it has three parameters, and a wrapper with
/// the unused raw pointer behind its two parameters where it has two. A
/// function on which the build fails is no input.
pub fn sys_expand_host_func(item_fn: &ItemFn) -> (wrapper: Wrapper)
    requires
        sys_host_func_wrapper(item_fn.inputs@) is Ok,
    ensures
        sys_host_func_wrapper(item_fn.inputs@) == Ok::<Wrapper, RewriteError>(wrapper),
{
    if item_fn.inputs.len() == 2 {
        let arg1 = arg_named(&item_fn.inputs[0]);
        let arg2 = arg_named(&item_fn.inputs[1]);
        Wrapper {
            generics: false,
            inputs: WrapperInputs::DataAppended,
            output: WrapperOutput::Declared,
            body: Body::Forward {
                caller: false,
                names: Some(ArgNames { first: arg1, second: arg2 }),
                pointee: None,
            },
        }
    } else {
        Wrapper {
            generics: true,
            inputs: WrapperInputs::Same,
            output: WrapperOutput::Declared,
            body: Body::Block,
        }
    }
}

/// Rewrites an item that must be an asynchronous function, for the
/// low-level interface. An item on which the build fails is no input.
pub fn sys_async_host_function(item: &Item) -> (res: Option<Wrapper>)
    requires
        rewritten_async(*item, |inputs: Seq<FnArg>| sys_async_host_func_wrapper(inputs)) is Ok,
    ensures
        rewritten_async(*item, |inputs: Seq<FnArg>| sys_async_host_func_wrapper(inputs)) == Ok::<
            Option<Wrapper>,
            RewriteError,
        >(res),
{
    match item {
        Item::Fn(item_fn) => Some(sys_expand_async_host_func(item_fn)),
        Item::Other => None,
    }
}

/// Plans the wrapper of an asynchronous host function for the low-level
/// interface. A function on which the build fails is no input.
pub fn sys_expand_async_host_func(item_fn: &ItemFn) -> (wrapper: Wrapper)
    requires
        sys_async_host_func_wrapper(item_fn.inputs@) is Ok,
    ensures
        sys_async_host_func_wrapper(item_fn.inputs@) == Ok::<Wrapper, RewriteError>(wrapper),
{
    sys_expand_async_host_func_with_three_args(item_fn)
}

/// Plans the wrapper of an asynchronous host function for the low-level
/// interface, once its parameters were counted: whatever they are, the
/// function keeps them, and its body is boxed.
pub fn sys_expand_async_host_func_with_three_args(item_fn: &ItemFn) -> (wrapper: Wrapper)
    ensures
        wrapper == (Wrapper {
            generics: true,
            inputs: WrapperInputs::Same,
            output: WrapperOutput::BoxedFuture,
            body: Body::BoxedAsync { caller: false },
        }),
{
    Wrapper {
        generics: true,
        inputs: WrapperInputs::Same,
        output: WrapperOutput::BoxedFuture,
        body: Body::BoxedAsync { caller: false },
    }
}

/// Rewrites an item for the low-level interface, from two parameters or
/// three. An item on which the build fails is no input.
pub fn sys_host_function_new(item: &Item) -> (res: Option<Wrapper>)
    requires
        rewritten(*item, |inputs: Seq<FnArg>| sys_host_func_new_wrapper(inputs)) is Ok,
    ensures
        rewritten(*item, |inputs: Seq<FnArg>| sys_host_func_new_wrapper(inputs)) == Ok::<
            Option<Wrapper>,
            RewriteError,
        >(res),
{
    match item {
        Item::Fn(item_fn) => Some(sys_expand_host_func_new(item_fn)),
        Item::Other => None,
    }
}

/// Plans the wrapper of a host function for the low-level interface,
/// from two parameters or three. A function on which the build fails is
/// no input.
pub fn sys_expand_host_func_new(item_fn: &ItemFn) -> (wrapper: Wrapper)
    requires
        sys_host_func_new_wrapper(item_fn.inputs@) is Ok,
    ensures
        sys_host_func_new_wrapper(item_fn.inputs@) == Ok::<Wrapper, RewriteError>(wrapper),
{
    let arg1 = arg_named(&item_fn.inputs[0]);
    let arg2 = arg_named(&item_fn.inputs[1]);
    let names = Some(ArgNames { first: arg1, second: arg2 });
    if item_fn.inputs.len() == 2 {
        Wrapper {
            generics: false,
            inputs: WrapperInputs::DataAppended,
            output: WrapperOutput::Declared,
            body: Body::Forward { caller: false, names, pointee: None },
        }
    } else {
        let pointee = pointee_found(&item_fn.inputs[2]);
        Wrapper {
            generics: false,
            inputs: WrapperInputs::LastReplaced,
            output: WrapperOutput::Declared,
            body: Body::Forward { caller: false, names, pointee: Some(pointee) },
        }
    }
}

} // verus!
