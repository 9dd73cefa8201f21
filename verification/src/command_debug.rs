//! Laws of the shell-like description of a command.
use vstd::prelude::*;
use crate::process::{arg_parts, assign_parts, spec_debug_parts, unset_parts};

verus! {

/// Whether a piece is a `<key>=<value>` piece.
pub open spec fn is_assign_piece() -> spec_fn((int, Seq<u8>, Seq<u8>)) -> bool {
    |p: (int, Seq<u8>, Seq<u8>)| p.0 == 4
}

/// Whether a variable change sets the variable (to any value, empty too).
pub open spec fn sets_variable() -> spec_fn((Seq<u8>, Option<Seq<u8>>)) -> bool {
    |e: (Seq<u8>, Option<Seq<u8>>)| e.1 is Some
}

/// The `<key>=<value>` piece of a variable that is set.
pub open spec fn assign_piece_of() -> spec_fn((Seq<u8>, Option<Seq<u8>>)) -> (
    int,
    Seq<u8>,
    Seq<u8>,
) {
    |e: (Seq<u8>, Option<Seq<u8>>)|
        (
            4int,
            e.0,
            match e.1 {
                Some(v) => v,
                None => Seq::<u8>::empty(),
            },
        )
}

spec fn cd_parts(cwd: Option<Seq<u8>>) -> Seq<(int, Seq<u8>, Seq<u8>)> {
    match cwd {
        Some(d) => seq![(0, d, Seq::<u8>::empty())],
        None => Seq::empty(),
    }
}

spec fn env_parts(clear: bool, vars: Seq<(Seq<u8>, Option<Seq<u8>>)>) -> Seq<(int, Seq<u8>, Seq<u8>)> {
    if clear {
        seq![(1, Seq::<u8>::empty(), Seq::<u8>::empty())]
    } else if unset_parts(vars).len() > 0 {
        seq![(2, Seq::<u8>::empty(), Seq::<u8>::empty())] + unset_parts(vars)
    } else {
        Seq::empty()
    }
}

spec fn prog_parts(program: Seq<u8>, args: Seq<Seq<u8>>) -> Seq<(int, Seq<u8>, Seq<u8>)> {
    if program != args[0] {
        seq![(5, program, Seq::<u8>::empty())]
    } else {
        Seq::empty()
    }
}

proof fn lemma_split(
    cwd: Option<Seq<u8>>,
    clear: bool,
    vars: Seq<(Seq<u8>, Option<Seq<u8>>)>,
    program: Seq<u8>,
    args: Seq<Seq<u8>>,
)
    ensures
        spec_debug_parts(cwd, clear, vars, program, args) == cd_parts(cwd) + env_parts(clear, vars)
            + assign_parts(vars) + prog_parts(program, args) + arg_parts(args),
{
}

proof fn lemma_no_assign_pieces(s: Seq<(int, Seq<u8>, Seq<u8>)>)
    requires
        forall|i: int| 0 <= i < s.len() ==> (#[trigger] s[i]).0 != 4,
    ensures
        s.filter(is_assign_piece()) == Seq::<(int, Seq<u8>, Seq<u8>)>::empty(),
    decreases s.len(),
{
    reveal(Seq::filter);
    if s.len() > 0 {
        let t = s.drop_last();
        assert forall|i: int| 0 <= i < t.len() implies (#[trigger] t[i]).0 != 4 by {
            assert(t[i] == s[i]);
        }
        lemma_no_assign_pieces(t);
        assert(s[s.len() - 1].0 != 4);
    }
    assert(s.filter(is_assign_piece()) =~= Seq::<(int, Seq<u8>, Seq<u8>)>::empty());
}

proof fn lemma_unset_parts_tags(vars: Seq<(Seq<u8>, Option<Seq<u8>>)>)
    ensures
        forall|i: int| 0 <= i < unset_parts(vars).len() ==> (#[trigger] unset_parts(vars)[i]).0 == 3,
    decreases vars.len(),
{
    if vars.len() > 0 {
        let init = vars.drop_last();
        lemma_unset_parts_tags(init);
        let u = unset_parts(vars);
        let ui = unset_parts(init);
        assert forall|i: int| 0 <= i < u.len() implies (#[trigger] u[i]).0 == 3 by {
            if i < ui.len() {
                assert(u[i] == ui[i]);
            }
        }
    }
}

proof fn lemma_env_no_assign(clear: bool, vars: Seq<(Seq<u8>, Option<Seq<u8>>)>)
    ensures
        env_parts(clear, vars).filter(is_assign_piece()) == Seq::<(int, Seq<u8>, Seq<u8>)>::empty(),
{
    let env = env_parts(clear, vars);
    lemma_unset_parts_tags(vars);
    assert forall|i: int| 0 <= i < env.len() implies (#[trigger] env[i]).0 != 4 by {
        if !clear && unset_parts(vars).len() > 0 && i > 0 {
            assert(env[i] == unset_parts(vars)[i - 1]);
        }
    }
    lemma_no_assign_pieces(env);
}

proof fn lemma_args_no_assign(args: Seq<Seq<u8>>)
    requires
        args.len() >= 1,
    ensures
        arg_parts(args).filter(is_assign_piece()) == Seq::<(int, Seq<u8>, Seq<u8>)>::empty(),
{
    let ap = arg_parts(args);
    assert forall|i: int| 0 <= i < ap.len() implies (#[trigger] ap[i]).0 != 4 by {
        if i > 0 {
            assert(ap[i] == (7int, args.skip(1)[i - 1], Seq::<u8>::empty()));
        }
    }
    lemma_no_assign_pieces(ap);
}

proof fn lemma_assign_parts_filter(vars: Seq<(Seq<u8>, Option<Seq<u8>>)>)
    ensures
        assign_parts(vars).filter(is_assign_piece()) == assign_parts(vars),
        assign_parts(vars) == vars.filter(sets_variable()).map_values(assign_piece_of()),
    decreases vars.len(),
{
    reveal(Seq::filter);
    if vars.len() > 0 {
        let init = vars.drop_last();
        lemma_assign_parts_filter(init);
        let last = vars.last();
        assert(init.push(last) =~= vars);
        init.lemma_filter_push(last, sets_variable());
        let fi = init.filter(sets_variable());
        match last.1 {
            Some(v) => {
                let piece = (4int, last.0, v);
                assert(assign_piece_of()(last) == piece);
                assign_parts(init).lemma_filter_push(piece, is_assign_piece());
                assert(fi.push(last).map_values(assign_piece_of()) =~= fi.map_values(
                    assign_piece_of(),
                ).push(piece));
            },
            None => {},
        }
    } else {
        assert(vars.filter(sets_variable()) =~= Seq::<(Seq<u8>, Option<Seq<u8>>)>::empty());
        assert(assign_parts(vars).filter(is_assign_piece()) =~= assign_parts(vars));
    }
}

proof fn lemma_append_no_assign(a: Seq<(int, Seq<u8>, Seq<u8>)>, b: Seq<(int, Seq<u8>, Seq<u8>)>)
    requires
        b.filter(is_assign_piece()) == Seq::<(int, Seq<u8>, Seq<u8>)>::empty(),
    ensures
        (a + b).filter(is_assign_piece()) == a.filter(is_assign_piece()),
{
    Seq::filter_distributes_over_add(a, b, is_assign_piece());
    assert(a.filter(is_assign_piece()) + Seq::<(int, Seq<u8>, Seq<u8>)>::empty()
        =~= a.filter(is_assign_piece()));
}

proof fn lemma_prefix_no_assign(cwd: Option<Seq<u8>>, clear: bool, vars: Seq<(Seq<u8>, Option<Seq<u8>>)>)
    ensures
        (cd_parts(cwd) + env_parts(clear, vars)).filter(is_assign_piece()) == Seq::<
            (int, Seq<u8>, Seq<u8>),
        >::empty(),
{
    lemma_no_assign_pieces(cd_parts(cwd));
    lemma_env_no_assign(clear, vars);
    lemma_append_no_assign(cd_parts(cwd), env_parts(clear, vars));
}

proof fn lemma_assigns_after_prefix(
    a1: Seq<(int, Seq<u8>, Seq<u8>)>,
    vars: Seq<(Seq<u8>, Option<Seq<u8>>)>,
)
    requires
        a1.filter(is_assign_piece()) == Seq::<(int, Seq<u8>, Seq<u8>)>::empty(),
    ensures
        (a1 + assign_parts(vars)).filter(is_assign_piece()) == assign_parts(vars),
{
    lemma_assign_parts_filter(vars);
    Seq::filter_distributes_over_add(a1, assign_parts(vars), is_assign_piece());
    assert(Seq::<(int, Seq<u8>, Seq<u8>)>::empty() + assign_parts(vars) =~= assign_parts(vars));
}

proof fn lemma_prog_no_assign(program: Seq<u8>, args: Seq<Seq<u8>>)
    ensures
        prog_parts(program, args).filter(is_assign_piece()) == Seq::<(int, Seq<u8>, Seq<u8>)>::empty(),
{
    lemma_no_assign_pieces(prog_parts(program, args));
}

/// The shell-like description holds one `<key>=<value>` piece for each
/// variable the command sets, whatever its value (an empty one too), in
/// key order, and no other such piece: the `<key>=<value>` pieces of the
/// description are exactly the set variables, each as `(4, key, value)`.
pub proof fn lemma_debug_parts_assign_every_set_variable(
    cwd: Option<Seq<u8>>,
    clear: bool,
    vars: Seq<(Seq<u8>, Option<Seq<u8>>)>,
    program: Seq<u8>,
    args: Seq<Seq<u8>>,
)
    requires
        args.len() >= 1,
    ensures
        spec_debug_parts(cwd, clear, vars, program, args).filter(is_assign_piece())
            == vars.filter(sets_variable()).map_values(assign_piece_of()),
        spec_debug_parts(cwd, clear, vars, program, args).filter(is_assign_piece()).len()
            == vars.filter(sets_variable()).len(),
{
    let a1 = cd_parts(cwd) + env_parts(clear, vars);
    let a2 = a1 + assign_parts(vars);
    let a3 = a2 + prog_parts(program, args);
    lemma_prefix_no_assign(cwd, clear, vars);
    lemma_assigns_after_prefix(a1, vars);
    lemma_prog_no_assign(program, args);
    lemma_append_no_assign(a2, prog_parts(program, args));
    lemma_args_no_assign(args);
    lemma_append_no_assign(a3, arg_parts(args));
    lemma_split(cwd, clear, vars, program, args);
    lemma_assign_parts_filter(vars);
}

} // verus!
