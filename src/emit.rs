//! Emission of the TypeScript wrapper of an exported function.
use vstd::prelude::*;

use crate::descriptor::{
    func_metadata, input_name, input_type, metadata_error, params_match, BindingError, FnInput,
    Func, Param,
};
use crate::dir::{parse_dir_arg, resolve_dir};
use crate::registry::{lookup, TypeRegistry};

verus! {

/// The first line of every generated file.
pub const HEADER: &'static str = "// This file was generated by [tauri-bindgen-ts](https://github.com/antoniusnaumann/tauri-bindgen-ts). Do not edit this file manually.";

/// The import of the invocation primitive.
pub const IMPORT: &'static str = "import { invoke } from \"@tauri-apps/api/tauri\"";

/// A generated file: where it goes and what it holds.
pub struct GeneratedFile {
    pub path: String,
    pub content: String,
}

/// The items joined with `", "` between each two.
pub open spec fn join(items: Seq<Seq<char>>) -> Seq<char>
    decreases items.len(),
{
    if items.len() == 0 {
        Seq::empty()
    } else if items.len() == 1 {
        items[0]
    } else {
        join(items.drop_last()) + ", "@ + items.last()
    }
}

/// The declaration of one parameter: `name: type`.
pub open spec fn param_decl(p: (Seq<char>, Seq<char>)) -> Seq<char> {
    p.0 + ": "@ + p.1
}

/// The declaration of each parameter, in order.
pub open spec fn decls_of(rs: Seq<(Seq<char>, Seq<char>)>) -> Seq<Seq<char>> {
    rs.map_values(|p: (Seq<char>, Seq<char>)| param_decl(p))
}

/// The name of each parameter, in order.
pub open spec fn names_of(rs: Seq<(Seq<char>, Seq<char>)>) -> Seq<Seq<char>> {
    rs.map_values(|p: (Seq<char>, Seq<char>)| p.0)
}

/// The parameter list of the wrapper: `a: number, b: string`.
pub open spec fn parameter_list_of(rs: Seq<(Seq<char>, Seq<char>)>) -> Seq<char> {
    join(decls_of(rs))
}

/// The shorthand argument object's properties: `a, b`.
pub open spec fn argument_list_of(rs: Seq<(Seq<char>, Seq<char>)>) -> Seq<char> {
    join(names_of(rs))
}

/// The exported wrapper of the command `name` over the resolved parameters `rs`.
pub open spec fn binding_line(name: Seq<char>, rs: Seq<(Seq<char>, Seq<char>)>) -> Seq<char> {
    "export async function "@ + name + "("@ + parameter_list_of(rs)
        + ") { return await invoke('"@ + name + "', { "@ + argument_list_of(rs) + " }); }"@
}

/// The whole text of the file for the command `name`.
pub open spec fn file_content(name: Seq<char>, rs: Seq<(Seq<char>, Seq<char>)>) -> Seq<char> {
    HEADER@ + "\n"@ + IMPORT@ + "\n\n"@ + binding_line(name, rs)
}

/// Where the file for the entity `name` goes in the directory `dir`.
pub open spec fn file_path(dir: Seq<char>, name: Seq<char>) -> Seq<char> {
    dir + "/"@ + name + ".ts"@
}

/// The names and type paths of the parameters.
pub open spec fn params_view(ps: Seq<Param>) -> Seq<(Seq<char>, Seq<char>)> {
    ps.map_values(|p: Param| (p.name@, p.ty@))
}

/// The names and type paths of well-shaped inputs.
pub open spec fn inputs_view(s: Seq<FnInput>) -> Seq<(Seq<char>, Seq<char>)> {
    s.map_values(|i: FnInput| (input_name(i), input_type(i)))
}

/// The first parameter, from position `k` on, whose type has no TypeScript name.
pub open spec fn first_unresolved_from(
    ps: Seq<(Seq<char>, Seq<char>)>,
    reg: Seq<(Seq<char>, Seq<char>)>,
    k: int,
) -> Option<BindingError>
    decreases ps.len() - k,
{
    if k < 0 || k >= ps.len() {
        None
    } else if lookup(reg, ps[k].1) is None {
        Some(BindingError::UnresolvedType { index: k as usize })
    } else {
        first_unresolved_from(ps, reg, k + 1)
    }
}

/// The first parameter whose type has no TypeScript name.
pub open spec fn first_unresolved(
    ps: Seq<(Seq<char>, Seq<char>)>,
    reg: Seq<(Seq<char>, Seq<char>)>,
) -> Option<BindingError> {
    first_unresolved_from(ps, reg, 0)
}

/// The parameters with each type path replaced by its TypeScript name.
pub open spec fn resolved(
    ps: Seq<(Seq<char>, Seq<char>)>,
    reg: Seq<(Seq<char>, Seq<char>)>,
) -> Seq<(Seq<char>, Seq<char>)> {
    ps.map_values(|p: (Seq<char>, Seq<char>)| (p.0, lookup(reg, p.1).unwrap()))
}

/// The file generated for the command `name` with parameters `ps` (names and
/// type paths) into the directory `dir`: its path and its content.
pub open spec fn binding_for(
    name: Seq<char>,
    ps: Seq<(Seq<char>, Seq<char>)>,
    dir: Seq<char>,
    reg: Seq<(Seq<char>, Seq<char>)>,
) -> Result<(Seq<char>, Seq<char>), BindingError> {
    match first_unresolved(ps, reg) {
        Some(e) => Err(e),
        None => Ok((file_path(dir, name), file_content(name, resolved(ps, reg)))),
    }
}

/// What the command attribute produces for a function `name` with inputs
/// `inputs` and the raw directory argument `attr`.
pub open spec fn command_output(
    name: Seq<char>,
    inputs: Seq<FnInput>,
    attr: Seq<char>,
    reg: Seq<(Seq<char>, Seq<char>)>,
) -> Result<(Seq<char>, Seq<char>), BindingError> {
    match metadata_error(inputs) {
        Some(e) => Err(e),
        None => binding_for(name, inputs_view(inputs), resolve_dir(attr), reg),
    }
}

/// Looks up the TypeScript name of each parameter's type, in order; reports
/// the first parameter whose type has none.
pub fn resolve_params(params: &Vec<Param>, reg: &TypeRegistry) -> (r: Result<
    Vec<(String, String)>,
    BindingError,
>)
    ensures
        match r {
            Ok(rs) => first_unresolved(params_view(params@), reg@) is None && rs@.map_values(
                |p: (String, String)| (p.0@, p.1@),
            ) == resolved(params_view(params@), reg@),
            Err(e) => first_unresolved(params_view(params@), reg@) == Some(e),
        },
{
    let ghost ps = params_view(params@);
    let mut out: Vec<(String, String)> = Vec::new();
    let mut i: usize = 0;
    while i < params.len()
        invariant
            i <= params@.len(),
            ps == params_view(params@),
            first_unresolved(ps, reg@) == first_unresolved_from(ps, reg@, i as int),
            out@.len() == i,
            forall|k: int|
                0 <= k < i ==> (#[trigger] out@[k]).0@ == ps[k].0 && Some(out@[k].1@) == lookup(
                    reg@,
                    ps[k].1,
                ),
        decreases params@.len() - i,
    {
        let p = &params[i];
        match reg.ts_name(&p.ty) {
            Some(t) => {
                out.push((p.name.clone(), t));
            },
            None => {
                return Err(BindingError::UnresolvedType { index: i });
            },
        }
        i = i + 1;
    }
    assert(out@.map_values(|p: (String, String)| (p.0@, p.1@)) =~= resolved(ps, reg@));
    Ok(out)
}

proof fn lemma_join_step(items: Seq<Seq<char>>, i: int)
    requires
        0 <= i < items.len(),
    ensures
        join(items.subrange(0, i + 1)) == if i == 0 {
            items[0]
        } else {
            join(items.subrange(0, i)) + ", "@ + items[i]
        },
{
    assert(items.subrange(0, i + 1).drop_last() =~= items.subrange(0, i));
}

/// The parameter list of the wrapper, `name: type` for each parameter.
pub fn parameter_list(rs: &Vec<(String, String)>) -> (r: String)
    ensures
        r@ == parameter_list_of(rs@.map_values(|p: (String, String)| (p.0@, p.1@))),
{
    let ghost v = rs@.map_values(|p: (String, String)| (p.0@, p.1@));
    let ghost items = decls_of(v);
    let mut out = String::new();
    let mut i: usize = 0;
    while i < rs.len()
        invariant
            i <= rs@.len(),
            v == rs@.map_values(|p: (String, String)| (p.0@, p.1@)),
            items == decls_of(v),
            out@ == join(items.subrange(0, i as int)),
        decreases rs@.len() - i,
    {
        proof {
            lemma_join_step(items, i as int);
        }
        if i > 0 {
            out.append(", ");
        }
        out.append(rs[i].0.as_str());
        out.append(": ");
        out.append(rs[i].1.as_str());
        i = i + 1;
    }
    assert(items.subrange(0, rs@.len() as int) =~= items);
    out
}

/// The properties of the argument object, the name of each parameter.
pub fn argument_list(rs: &Vec<(String, String)>) -> (r: String)
    ensures
        r@ == argument_list_of(rs@.map_values(|p: (String, String)| (p.0@, p.1@))),
{
    let ghost v = rs@.map_values(|p: (String, String)| (p.0@, p.1@));
    let ghost items = names_of(v);
    let mut out = String::new();
    let mut i: usize = 0;
    while i < rs.len()
        invariant
            i <= rs@.len(),
            v == rs@.map_values(|p: (String, String)| (p.0@, p.1@)),
            items == names_of(v),
            out@ == join(items.subrange(0, i as int)),
        decreases rs@.len() - i,
    {
        proof {
            lemma_join_step(items, i as int);
        }
        if i > 0 {
            out.append(", ");
        }
        out.append(rs[i].0.as_str());
        i = i + 1;
    }
    assert(items.subrange(0, rs@.len() as int) =~= items);
    out
}

/// The file that binds the function `func` for TypeScript in the directory
/// `dir`: a header, the import of the invocation primitive, and an async
/// wrapper that passes its parameters to the command by name. Fails with the
/// first parameter whose type has no TypeScript name, and then nothing is
/// generated.
pub fn generate_binding(func: &Func, dir: &str, reg: &TypeRegistry) -> (r: Result<
    GeneratedFile,
    BindingError,
>)
    ensures
        match r {
            Ok(g) => binding_for(func.name@, params_view(func.args@), dir@, reg@) == Ok::<
                (Seq<char>, Seq<char>),
                BindingError,
            >((g.path@, g.content@)),
            Err(e) => binding_for(func.name@, params_view(func.args@), dir@, reg@) == Err::<
                (Seq<char>, Seq<char>),
                BindingError,
            >(e),
        },
{
    let rs = resolve_params(&func.args, reg)?;
    let params = parameter_list(&rs);
    let args = argument_list(&rs);
    let name = func.name.as_str();

    let mut content = String::from_str(HEADER);
    content.append("\n");
    content.append(IMPORT);
    content.append("\n\n");
    content.append("export async function ");
    content.append(name);
    content.append("(");
    content.append(params.as_str());
    content.append(") { return await invoke('");
    content.append(name);
    content.append("', { ");
    content.append(args.as_str());
    content.append(" }); }");

    let mut path = String::from_str(dir);
    path.append("/");
    path.append(name);
    path.append(".ts");

    let ghost rv = rs@.map_values(|p: (String, String)| (p.0@, p.1@));
    assert(content@ =~= file_content(func.name@, rv));
    assert(path@ =~= file_path(dir@, func.name@));
    Ok(GeneratedFile { path, content })
}

proof fn lemma_inputs_view(ps: Seq<Param>, s: Seq<FnInput>)
    requires
        params_match(ps, s),
    ensures
        params_view(ps) == inputs_view(s),
{
    assert(params_view(ps) =~= inputs_view(s));
}

/// The binding that the command attribute generates for the function `name`
/// with inputs `inputs`, into the directory named by the raw argument `attr`:
/// the function's shape is checked first, then each parameter's type is
/// resolved through `reg`.
pub fn command(name: String, inputs: Vec<FnInput>, attr: &str, reg: &TypeRegistry) -> (r: Result<
    GeneratedFile,
    BindingError,
>)
    ensures
        match r {
            Ok(g) => command_output(name@, inputs@, attr@, reg@) == Ok::<
                (Seq<char>, Seq<char>),
                BindingError,
            >((g.path@, g.content@)),
            Err(e) => command_output(name@, inputs@, attr@, reg@) == Err::<
                (Seq<char>, Seq<char>),
                BindingError,
            >(e),
        },
{
    let ghost s = inputs@;
    let dir = parse_dir_arg(attr);
    let func = func_metadata(name, inputs)?;
    proof {
        lemma_inputs_view(func.args@, s);
    }
    generate_binding(&func, dir.as_str(), reg)
}

} // verus!
