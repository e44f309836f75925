//! Descriptions of exported functions, and the checks that keep a function
//! within the shapes that bindings can be generated for.
use vstd::prelude::*;

verus! {

/// The pattern that binds a parameter.
#[derive(Debug, Clone)]
pub enum ArgPattern {
    /// A plain name.
    Ident(String),
    /// Any other pattern (destructuring, wildcard, ...), as written.
    Unsupported(String),
}

/// The declared type of a parameter or a field.
#[derive(Debug, Clone)]
pub enum TypeRef {
    /// A plain named type or path, without generic arguments.
    Path(String),
    /// Any other type (reference, tuple, generic, ...), as written.
    Unsupported(String),
}

/// One entry of a function's parameter list.
#[derive(Debug, Clone)]
pub enum FnInput {
    /// A `self` parameter, which makes the function a method.
    Receiver,
    /// A parameter with a pattern and a type.
    Typed(ArgPattern, TypeRef),
}

/// A parameter that passed the shape checks: its name and its type's path.
#[derive(Debug, Clone)]
pub struct Param {
    pub name: String,
    pub ty: String,
}

/// What the emitter needs of an exported function.
#[derive(Debug, Clone)]
pub struct Func {
    pub name: String,
    pub args: Vec<Param>,
}

/// Why no binding can be generated for a function.
#[derive(Debug, Clone, Copy, PartialEq, Eq, Structural)]
pub enum BindingError {
    /// The function takes `self`: only free functions can be commands.
    NotAFreeFunction,
    /// The parameter at `index` is not bound by a plain name.
    UnsupportedPattern { index: usize },
    /// The parameter at `index` does not have a plain named type.
    UnsupportedType { index: usize },
    /// The type of the parameter at `index` has no TypeScript name.
    UnresolvedType { index: usize },
}

/// The error that the input at position `k` gives, if any.
pub open spec fn input_error(i: FnInput, k: int) -> Option<BindingError> {
    match i {
        FnInput::Receiver => Some(BindingError::NotAFreeFunction),
        FnInput::Typed(p, t) => {
            if !(p is Ident) {
                Some(BindingError::UnsupportedPattern { index: k as usize })
            } else if !(t is Path) {
                Some(BindingError::UnsupportedType { index: k as usize })
            } else {
                None
            }
        },
    }
}

/// The first error among the inputs from position `k` on.
pub open spec fn first_input_error_from(s: Seq<FnInput>, k: int) -> Option<BindingError>
    decreases s.len() - k,
{
    if k < 0 || k >= s.len() {
        None
    } else {
        match input_error(s[k], k) {
            Some(e) => Some(e),
            None => first_input_error_from(s, k + 1),
        }
    }
}

/// The first error among the inputs.
pub open spec fn first_input_error(s: Seq<FnInput>) -> Option<BindingError> {
    first_input_error_from(s, 0)
}

/// The error that a function with inputs `s` gives: a `self` parameter
/// anywhere rules out the function as a whole, before any other check.
pub open spec fn metadata_error(s: Seq<FnInput>) -> Option<BindingError> {
    if exists|k: int| 0 <= k < s.len() && s[k] is Receiver {
        Some(BindingError::NotAFreeFunction)
    } else {
        first_input_error(s)
    }
}

/// The name that a well-shaped input binds.
pub open spec fn input_name(i: FnInput) -> Seq<char> {
    match i {
        FnInput::Typed(ArgPattern::Ident(n), _) => n@,
        _ => Seq::empty(),
    }
}

/// The type path of a well-shaped input.
pub open spec fn input_type(i: FnInput) -> Seq<char> {
    match i {
        FnInput::Typed(_, TypeRef::Path(t)) => t@,
        _ => Seq::empty(),
    }
}

/// `ps` lists, in order, the names and types of the inputs `s`.
pub open spec fn params_match(ps: Seq<Param>, s: Seq<FnInput>) -> bool {
    &&& ps.len() == s.len()
    &&& forall|k: int|
        0 <= k < s.len() ==> #[trigger] ps[k].name@ == input_name(s[k]) && ps[k].ty@
            == input_type(s[k])
}

proof fn lemma_no_error_before(s: Seq<FnInput>, k: int)
    requires
        0 <= k < s.len(),
        input_error(s[k], k) is None,
    ensures
        first_input_error_from(s, k) == first_input_error_from(s, k + 1),
{
}

fn check_input(i: &FnInput, k: usize) -> (r: Result<Param, BindingError>)
    ensures
        match r {
            Ok(p) => input_error(*i, k as int) is None && p.name@ == input_name(*i) && p.ty@
                == input_type(*i),
            Err(e) => input_error(*i, k as int) == Some(e),
        },
{
    match i {
        FnInput::Receiver => Err(BindingError::NotAFreeFunction),
        FnInput::Typed(ArgPattern::Ident(n), TypeRef::Path(t)) => Ok(
            Param { name: n.clone(), ty: t.clone() },
        ),
        FnInput::Typed(ArgPattern::Unsupported(_), _) => Err(
            BindingError::UnsupportedPattern { index: k },
        ),
        FnInput::Typed(ArgPattern::Ident(_), TypeRef::Unsupported(_)) => Err(
            BindingError::UnsupportedType { index: k },
        ),
    }
}

/// Checks that each input is a plain name with a plain named type, and lists
/// them in order; otherwise reports the first input that is not.
pub fn types(args: &Vec<FnInput>) -> (r: Result<Vec<Param>, BindingError>)
    ensures
        match r {
            Ok(ps) => first_input_error(args@) is None && params_match(ps@, args@),
            Err(e) => first_input_error(args@) == Some(e),
        },
{
    let mut out: Vec<Param> = Vec::new();
    let mut i: usize = 0;
    while i < args.len()
        invariant
            i <= args@.len(),
            first_input_error(args@) == first_input_error_from(args@, i as int),
            out@.len() == i,
            forall|k: int|
                0 <= k < i ==> #[trigger] out@[k].name@ == input_name(args@[k]) && out@[k].ty@
                    == input_type(args@[k]),
        decreases args@.len() - i,
    {
        match check_input(&args[i], i) {
            Ok(p) => {
                proof {
                    lemma_no_error_before(args@, i as int);
                }
                out.push(p);
            },
            Err(e) => {
                return Err(e);
            },
        }
        i = i + 1;
    }
    Ok(out)
}

/// Builds the description of a function from its name and inputs: a `self`
/// parameter rules the function out, and each other input must pass `types`.
pub fn func_metadata(name: String, inputs: Vec<FnInput>) -> (r: Result<Func, BindingError>)
    ensures
        match r {
            Ok(f) => metadata_error(inputs@) is None && f.name@ == name@ && params_match(
                f.args@,
                inputs@,
            ),
            Err(e) => metadata_error(inputs@) == Some(e),
        },
{
    let mut i: usize = 0;
    while i < inputs.len()
        invariant
            i <= inputs@.len(),
            forall|k: int| 0 <= k < i ==> !(#[trigger] inputs@[k] is Receiver),
        decreases inputs@.len() - i,
    {
        if let FnInput::Receiver = inputs[i] {
            return Err(BindingError::NotAFreeFunction);
        }
        i = i + 1;
    }
    let args = types(&inputs)?;
    Ok(Func { name, args })
}

} // verus!
