//! Properties of the generated bindings that hold for all inputs.
use vstd::prelude::*;

use crate::descriptor::Func;
use crate::dir::{is_quote, resolve_dir, trim_quotes_end, trim_quotes_start, DEFAULT_DIR};
use crate::emit::{
    argument_list_of, binding_for, decls_of, file_path, first_unresolved, first_unresolved_from,
    join, names_of, param_decl, parameter_list_of, params_view,
};
use crate::registry::lookup;

verus! {

/// Emission is deterministic: two functions with the same name and the same
/// parameters, emitted into the same directory with the same type names, give
/// the same file at the same path, or the same error.
pub proof fn emission_is_deterministic(
    f1: Func,
    f2: Func,
    dir1: Seq<char>,
    dir2: Seq<char>,
    reg1: Seq<(Seq<char>, Seq<char>)>,
    reg2: Seq<(Seq<char>, Seq<char>)>,
)
    requires
        f1.name@ == f2.name@,
        params_view(f1.args@) == params_view(f2.args@),
        dir1 == dir2,
        reg1 == reg2,
    ensures
        binding_for(f1.name@, params_view(f1.args@), dir1, reg1) == binding_for(
            f2.name@,
            params_view(f2.args@),
            dir2,
            reg2,
        ),
{
}

/// A function without parameters always gets a wrapper, with an empty
/// parameter list and an empty argument object.
pub proof fn zero_params_give_empty_lists(
    name: Seq<char>,
    dir: Seq<char>,
    reg: Seq<(Seq<char>, Seq<char>)>,
)
    ensures
        binding_for(name, Seq::empty(), dir, reg) is Ok,
        parameter_list_of(Seq::empty()) == Seq::<char>::empty(),
        argument_list_of(Seq::empty()) == Seq::<char>::empty(),
{
    assert(decls_of(Seq::empty()) =~= Seq::empty());
    assert(names_of(Seq::empty()) =~= Seq::empty());
}

/// Parameters keep their declared order, in the parameter list and in the
/// argument object alike.
pub proof fn params_keep_their_order(p: (Seq<char>, Seq<char>), q: (Seq<char>, Seq<char>))
    ensures
        parameter_list_of(seq![p, q]) == p.0 + ": "@ + p.1 + ", "@ + q.0 + ": "@ + q.1,
        argument_list_of(seq![p, q]) == p.0 + ", "@ + q.0,
{
    let d = decls_of(seq![p, q]);
    let a = names_of(seq![p, q]);
    assert(d.drop_last() =~= seq![param_decl(p)]);
    assert(a.drop_last() =~= seq![p.0]);
    assert(d.len() == 2 && d.last() == param_decl(q));
    assert(join(d.drop_last()) == param_decl(p));
    assert(join(a.drop_last()) == p.0);
    assert(a.len() == 2 && a.last() == q.0);
    assert(parameter_list_of(seq![p, q]) == param_decl(p) + ", "@ + param_decl(q));
    assert(argument_list_of(seq![p, q]) == p.0 + ", "@ + q.0);
    assert(parameter_list_of(seq![p, q]) =~= p.0 + ": "@ + p.1 + ", "@ + q.0 + ": "@ + q.1);
    assert(argument_list_of(seq![p, q]) =~= p.0 + ", "@ + q.0);
}

/// A directory argument resolves to the same directory with or without
/// surrounding quotes, and an empty one to the default directory.
pub proof fn quotes_around_dir_are_ignored(s: Seq<char>, c: char)
    requires
        is_quote(c),
        s.len() > 0 ==> !is_quote(s[0]) && !is_quote(s.last()),
    ensures
        resolve_dir(seq![c] + s + seq![c]) == resolve_dir(s),
        s.len() > 0 ==> resolve_dir(s) == s,
        s.len() == 0 ==> resolve_dir(s) == DEFAULT_DIR@,
{
    let q = seq![c] + s + seq![c];
    assert(q.subrange(1, q.len() as int) =~= s + seq![c]);
    let t = s + seq![c];
    if s.len() > 0 {
        assert(t[0] == s[0]);
        assert(trim_quotes_start(t) == t);
        assert(t.drop_last() =~= s);
        assert(trim_quotes_end(t) == trim_quotes_end(s));
        assert(trim_quotes_start(s) == s);
        assert(trim_quotes_end(s) == s);
    } else {
        assert(t.subrange(1, t.len() as int) =~= Seq::<char>::empty());
        assert(trim_quotes_start(t) == trim_quotes_start(Seq::<char>::empty()));
        assert(trim_quotes_start(s) == s);
    }
}

proof fn lemma_unresolved_reaches(
    ps: Seq<(Seq<char>, Seq<char>)>,
    reg: Seq<(Seq<char>, Seq<char>)>,
    j: int,
    k: int,
)
    requires
        0 <= j <= k < ps.len(),
        lookup(reg, ps[k].1) is None,
    ensures
        first_unresolved_from(ps, reg, j) is Some,
    decreases k - j,
{
    if j < k {
        lemma_unresolved_reaches(ps, reg, j + 1, k);
    }
}

/// A parameter whose type has no TypeScript name makes generation fail, so
/// that no file is produced for the function.
pub proof fn unresolved_type_aborts(
    name: Seq<char>,
    ps: Seq<(Seq<char>, Seq<char>)>,
    dir: Seq<char>,
    reg: Seq<(Seq<char>, Seq<char>)>,
    k: int,
)
    requires
        0 <= k < ps.len(),
        lookup(reg, ps[k].1) is None,
    ensures
        binding_for(name, ps, dir, reg) is Err,
{
    lemma_unresolved_reaches(ps, reg, 0, k);
    assert(first_unresolved(ps, reg) is Some);
}

/// Entities with distinct names never share a file in a directory.
pub proof fn distinct_names_distinct_files(dir: Seq<char>, n1: Seq<char>, n2: Seq<char>)
    requires
        n1 != n2,
    ensures
        file_path(dir, n1) != file_path(dir, n2),
{
    reveal_strlit("/");
    reveal_strlit(".ts");
    if file_path(dir, n1) == file_path(dir, n2) {
        let p1 = file_path(dir, n1);
        let p2 = file_path(dir, n2);
        assert("/"@.len() == 1);
        assert(".ts"@.len() == 3);
        assert(p1.len() == dir.len() + 1 + n1.len() + 3);
        assert(p2.len() == dir.len() + 1 + n2.len() + 3);
        assert(n1.len() == n2.len());
        assert forall|i: int| 0 <= i < n1.len() implies n1[i] == n2[i] by {
            assert(p1[dir.len() + 1 + i] == n1[i]);
            assert(p2[dir.len() + 1 + i] == n2[i]);
        }
        assert(n1 =~= n2);
    }
}

} // verus!
