//! Properties of the generated files that hold for every list of methods.

use vstd::prelude::*;
use crate::emitter::{
    bindings_body, bindings_structs, bindings_text, categories, close_chain, first_vector_param,
    in_category, include_set, kernel_bindings_frags, kernel_frags, kernel_text, member_lines,
    members_frags, method_frags, method_wants_include, occt_kernel_frags, of_category, param_cpp,
    ret_cpp,
    sections_frags, wants_evolution_helper, wants_unwrap_helper,
};
use crate::text::{
    contains_seq, is_white, lemma_flatten_add, lemma_trim_end_keeps, lemma_trim_end_shape, nl,
    occurs_at, trim_end,
};
use crate::types::{FacadeParam, MethodKind, MethodSpec, ReturnType};

verus! {

/// A method that produces code.
pub open spec fn is_generated() -> spec_fn(MethodSpec) -> bool {
    |m: MethodSpec| m.kind != MethodKind::Skip
}

/// The methods of `ms` that produce code, in list order.
pub open spec fn generated(ms: Seq<MethodSpec>) -> Seq<MethodSpec> {
    ms.filter(is_generated())
}

/// Dropping the skipped methods changes neither the categories nor the
/// members of any category.
pub proof fn lemma_groups_ignore_skipped(ms: Seq<MethodSpec>)
    ensures
        categories(generated(ms)) == categories(ms),
        forall|c: Seq<char>| #[trigger] in_category(generated(ms), c) == in_category(ms, c),
    decreases ms.len(),
{
    if ms.len() == 0 {
        reveal(Seq::filter);
        assert(generated(ms) =~= ms);
    } else {
        let pre = ms.drop_last();
        let m = ms.last();
        assert(ms =~= pre.push(m));
        lemma_groups_ignore_skipped(pre);
        pre.lemma_filter_push(m, is_generated());
        let g = generated(pre);
        if m.kind != MethodKind::Skip {
            assert(g.push(m).drop_last() =~= g);
        }
        assert forall|c: Seq<char>| #[trigger] in_category(generated(ms), c) == in_category(ms, c) by {
            assert(in_category(g, c) == in_category(pre, c));
            pre.lemma_filter_push(m, of_category(c));
            if m.kind != MethodKind::Skip {
                g.lemma_filter_push(m, of_category(c));
                assert(generated(ms) == g.push(m));
            } else {
                assert(generated(ms) == g);
            }
        }
    }
}

proof fn lemma_kernel_bindings_depend_on_groups(
    f: Seq<Seq<char>>,
    a: Seq<MethodSpec>,
    b: Seq<MethodSpec>,
    cats: Seq<Seq<char>>,
)
    requires
        forall|c: Seq<char>| #[trigger] in_category(a, c) == in_category(b, c),
    ensures
        kernel_bindings_frags(f, a, cats) == kernel_bindings_frags(f, b, cats),
    decreases cats.len(),
{
    if cats.len() > 0 {
        lemma_kernel_bindings_depend_on_groups(f, a, b, cats.drop_last());
        assert(in_category(a, cats.last()) == in_category(b, cats.last()));
    }
}

proof fn lemma_sections_depend_on_groups(
    f: Seq<Seq<char>>,
    a: Seq<MethodSpec>,
    b: Seq<MethodSpec>,
    cats: Seq<Seq<char>>,
)
    requires
        forall|c: Seq<char>| #[trigger] in_category(a, c) == in_category(b, c),
    ensures
        sections_frags(f, a, cats) == sections_frags(f, b, cats),
    decreases cats.len(),
{
    if cats.len() > 0 {
        lemma_sections_depend_on_groups(f, a, b, cats.drop_last());
        assert(in_category(a, cats.last()) == in_category(b, cats.last()));
    }
}

/// Skipped methods produce no bindings: the bindings of a list are those of
/// its methods that are not skipped.
pub proof fn lemma_bindings_ignore_skipped(ms: Seq<MethodSpec>)
    ensures
        bindings_text(generated(ms)) == bindings_text(ms),
{
    lemma_groups_ignore_skipped(ms);
    let e = Seq::<Seq<char>>::empty();
    let f = occt_kernel_frags(e, ms);
    lemma_kernel_bindings_depend_on_groups(
        crate::text::line(
            crate::text::line(
                crate::text::line(crate::text::blank_line(e), "    // OcctKernel"@),
                "    class_<OcctKernel>(\"OcctKernel\")"@,
            ),
            "        .constructor<>()"@,
        ),
        generated(ms),
        ms,
        categories(ms),
    );
    assert(occt_kernel_frags(e, generated(ms)) == occt_kernel_frags(e, ms));
}

/// No skipped method asks for a helper: none returns `EvolutionData` and
/// none names `unwrapSingletonSolid` in its body.
pub open spec fn skipped_need_no_helper(ms: Seq<MethodSpec>) -> bool {
    forall|i: int|
        0 <= i < ms.len() && (#[trigger] ms[i]).kind == MethodKind::Skip ==> ms[i].return_type
            != ReturnType::EvolutionData && !contains_seq(ms[i].setup_code@, "unwrapSingletonSolid"@)
}

/// Skipped methods produce no kernel code: when no skipped method asks for a
/// helper, the kernel of a list is that of its methods that are not skipped.
/// (A skipped method that returns `EvolutionData`, or names
/// `unwrapSingletonSolid`, still pulls the corresponding helper in.)
pub proof fn lemma_kernel_ignores_skipped(ms: Seq<MethodSpec>)
    requires
        skipped_need_no_helper(ms),
    ensures
        kernel_text(generated(ms)) == kernel_text(ms),
{
    let g = generated(ms);
    lemma_groups_ignore_skipped(ms);
    broadcast use vstd::seq_lib::group_filter_ensures;

    assert(wants_unwrap_helper(g) == wants_unwrap_helper(ms)) by {
        if wants_unwrap_helper(ms) {
            let i = choose|i: int|
                0 <= i < ms.len() && ((#[trigger] ms[i]).kind == MethodKind::FilletLike
                    || contains_seq(ms[i].setup_code@, "unwrapSingletonSolid"@));
            ms.lemma_filter_contains(is_generated(), i);
            let k = choose|k: int| 0 <= k < g.len() && g[k] == ms[i];
            assert(wants_unwrap_helper(g));
        }
        if wants_unwrap_helper(g) {
            let k = choose|k: int|
                0 <= k < g.len() && ((#[trigger] g[k]).kind == MethodKind::FilletLike
                    || contains_seq(g[k].setup_code@, "unwrapSingletonSolid"@));
            assert(g.contains(g[k]));
            ms.lemma_filter_contains_rev(is_generated(), g[k]);
            let i = choose|i: int| 0 <= i < ms.len() && ms[i] == g[k];
            assert(wants_unwrap_helper(ms));
        }
    }
    assert(wants_evolution_helper(g) == wants_evolution_helper(ms)) by {
        if wants_evolution_helper(ms) {
            let i = choose|i: int|
                0 <= i < ms.len() && (#[trigger] ms[i]).return_type == ReturnType::EvolutionData;
            ms.lemma_filter_contains(is_generated(), i);
            let k = choose|k: int| 0 <= k < g.len() && g[k] == ms[i];
            assert(wants_evolution_helper(g));
        }
        if wants_evolution_helper(g) {
            let k = choose|k: int|
                0 <= k < g.len() && (#[trigger] g[k]).return_type == ReturnType::EvolutionData;
            assert(g.contains(g[k]));
            ms.lemma_filter_contains_rev(is_generated(), g[k]);
            let i = choose|i: int| 0 <= i < ms.len() && ms[i] == g[k];
            assert(wants_evolution_helper(ms));
        }
    }
    assert(include_set(g) =~= include_set(ms)) by {
        assert forall|x: Seq<char>| include_set(g).contains(x) <==> include_set(ms).contains(x) by {
            if exists|i: int| 0 <= i < ms.len() && method_wants_include(#[trigger] ms[i], x) {
                let i = choose|i: int| 0 <= i < ms.len() && method_wants_include(#[trigger] ms[i], x);
                ms.lemma_filter_contains(is_generated(), i);
                let k = choose|k: int| 0 <= k < g.len() && g[k] == ms[i];
                assert(method_wants_include(g[k], x));
            }
            if exists|k: int| 0 <= k < g.len() && method_wants_include(#[trigger] g[k], x) {
                let k = choose|k: int| 0 <= k < g.len() && method_wants_include(#[trigger] g[k], x);
                assert(g.contains(g[k]));
                ms.lemma_filter_contains_rev(is_generated(), g[k]);
                let i = choose|i: int| 0 <= i < ms.len() && ms[i] == g[k];
                assert(method_wants_include(ms[i], x));
            }
        }
    }
    let f = crate::emitter::helper_functions_frags(
        crate::emitter::std_includes_frags(
            crate::text::blank_line(
                crate::emitter::include_lines(
                    crate::emitter::kernel_header_frags(Seq::empty()),
                    crate::emitter::sorted_listing(include_set(ms)),
                ),
            ),
        ),
        ms,
    );
    lemma_sections_depend_on_groups(f, g, ms, categories(ms));
    assert(kernel_frags(g) == kernel_frags(ms));
}

/// A finished file ends with exactly one line terminator: its last character
/// is `\n` and the one before it, if any, is not whitespace.
pub open spec fn ends_cleanly(t: Seq<char>) -> bool {
    &&& t.len() >= 1
    &&& t.last() == '\n'
    &&& t.len() >= 2 ==> !is_white(t[t.len() - 2])
}

proof fn lemma_finished_ends_cleanly(s: Seq<char>)
    ensures
        ends_cleanly(trim_end(s) + nl()),
{
    lemma_trim_end_shape(s);
    reveal_strlit("\n");
    let t = trim_end(s) + nl();
    if t.len() >= 2 {
        assert(t[t.len() - 2] == trim_end(s).last());
    }
}

/// The kernel file ends with exactly one line terminator.
pub proof fn lemma_kernel_ends_cleanly(ms: Seq<MethodSpec>)
    ensures
        ends_cleanly(kernel_text(ms)),
{
    lemma_finished_ends_cleanly(kernel_frags(ms).flatten());
}

/// The bindings file ends with exactly one line terminator.
pub proof fn lemma_bindings_ends_cleanly(ms: Seq<MethodSpec>)
    ensures
        ends_cleanly(bindings_text(ms)),
{
    lemma_finished_ends_cleanly(crate::emitter::bindings_body(ms));
}


// ---------------------------------------------------------------------------
// Closing chains, and what comes before the `OcctKernel` chain.
// ---------------------------------------------------------------------------

/// Closing an Embind chain twice is closing it once.
pub proof fn lemma_close_chain_idempotent(s: Seq<char>)
    ensures
        close_chain(close_chain(s)) == close_chain(s),
{
    reveal_strlit(");\n");
    let t = close_chain(s);
    if s.len() >= 2 && s[s.len() - 2] == ')' && s[s.len() - 1] == '\n' {
        assert(t[t.len() - 2] == ';');
    }
}

/// Closing a chain leaves all but its last two characters in place.
proof fn lemma_close_chain_prefix(s: Seq<char>, n: int)
    requires
        0 <= n <= s.len() - 2,
    ensures
        close_chain(s).len() >= n,
        close_chain(s).take(n) == s.take(n),
{
    reveal_strlit(");\n");
    assert(close_chain(s).take(n) =~= s.take(n));
}

proof fn lemma_kernel_bindings_prefix(f: Seq<Seq<char>>, ms: Seq<MethodSpec>, cats: Seq<Seq<char>>)
    ensures
        frags_prefix(f, kernel_bindings_frags(f, ms, cats)),
    decreases cats.len(),
{
    if cats.len() == 0 {
        assert(f.take(f.len() as int) =~= f);
    } else {
        let x = kernel_bindings_frags(f, ms, cats.drop_last());
        lemma_kernel_bindings_prefix(f, ms, cats.drop_last());
        let y = crate::text::line(crate::text::frag(crate::text::blank_line(x), "        // "@), cats.last());
        let names = in_category(ms, cats.last()).map_values(|m: MethodSpec| m.name@);
        assert(y.take(x.len() as int) =~= x);
        lemma_member_lines_prefix(y, "        .function(\""@, names, "\", &OcctKernel::"@, ")"@);
        lemma_prefix_trans(x, y, kernel_bindings_frags(f, ms, cats));
        lemma_prefix_trans(f, x, kernel_bindings_frags(f, ms, cats));
    }
}

/// Everything in `bindings.cpp` before the `OcctKernel` chain (the preamble
/// and the value types) is [`bindings_structs`], whatever the methods.
pub proof fn lemma_bindings_preamble_fixed(ms: Seq<MethodSpec>)
    ensures
        bindings_structs().len() < bindings_text(ms).len(),
        bindings_text(ms).take(bindings_structs().len() as int) == bindings_structs(),
{
    let e = Seq::<Seq<char>>::empty();
    let st = bindings_structs();
    let f0 = crate::text::blank_line(e);
    let f1 = crate::text::line(f0, "    // OcctKernel"@);
    let f2 = crate::text::line(f1, "    class_<OcctKernel>(\"OcctKernel\")"@);
    let f3 = crate::text::line(f2, "        .constructor<>()"@);
    let kf = occt_kernel_frags(e, ms);
    assert(kf == kernel_bindings_frags(f3, ms, categories(ms)));
    lemma_kernel_bindings_prefix(f3, ms, categories(ms));
    let rest = kf.skip(f3.len() as int);
    assert(kf =~= f3 + rest);
    lemma_flatten_add(f3, rest);
    reveal_strlit("\n");
    e.lemma_flatten_push(nl());
    f0.lemma_flatten_push("    // OcctKernel"@);
    f0.push("    // OcctKernel"@).lemma_flatten_push(nl());
    assert(e.flatten() =~= Seq::<char>::empty());
    assert(f1.flatten().len() >= 2);
    f1.lemma_flatten_push("    class_<OcctKernel>(\"OcctKernel\")"@);
    f1.push("    class_<OcctKernel>(\"OcctKernel\")"@).lemma_flatten_push(nl());
    f2.lemma_flatten_push("        .constructor<>()"@);
    f2.push("        .constructor<>()"@).lemma_flatten_push(nl());
    let k = kf.flatten();
    assert(k.len() >= 2);
    let x = st + k;
    lemma_close_chain_prefix(x, st.len() as int);
    assert(x.take(st.len() as int) =~= st);
    let body = bindings_body(ms);
    reveal_strlit("}");
    assert(body == close_chain(x) + "}"@ + nl());
    let j = close_chain(x).len() as int;
    assert(body[j] == '}');
    lemma_trim_end_keeps(body, j);
    lemma_trim_end_shape(body);
    let t = trim_end(body);
    assert(t.take(st.len() as int) =~= st);
    assert(bindings_text(ms).take(st.len() as int) =~= st);
}

// ---------------------------------------------------------------------------
// Every generated method is registered.
// ---------------------------------------------------------------------------

/// The fragments `r` stand consecutively in `f` from index `k` on.
pub open spec fn run_at(f: Seq<Seq<char>>, r: Seq<Seq<char>>, k: int) -> bool {
    0 <= k && k + r.len() <= f.len() && f.subrange(k, k + r.len()) == r
}

/// `f` is a prefix of `h`.
pub open spec fn frags_prefix(f: Seq<Seq<char>>, h: Seq<Seq<char>>) -> bool {
    f.len() <= h.len() && h.take(f.len() as int) == f
}

proof fn lemma_run_in_prefix(f: Seq<Seq<char>>, h: Seq<Seq<char>>, r: Seq<Seq<char>>, k: int)
    requires
        run_at(f, r, k),
        frags_prefix(f, h),
    ensures
        run_at(h, r, k),
{
    assert(h.subrange(k, k + r.len()) =~= f.subrange(k, k + r.len()));
}

proof fn lemma_prefix_trans(a: Seq<Seq<char>>, b: Seq<Seq<char>>, c: Seq<Seq<char>>)
    requires
        frags_prefix(a, b),
        frags_prefix(b, c),
    ensures
        frags_prefix(a, c),
{
    assert(c.take(a.len() as int) =~= b.take(a.len() as int));
}

proof fn lemma_member_lines_prefix(
    f: Seq<Seq<char>>,
    open: Seq<char>,
    names: Seq<Seq<char>>,
    mid: Seq<char>,
    close: Seq<char>,
)
    ensures
        frags_prefix(f, member_lines(f, open, names, mid, close)),
    decreases names.len(),
{
    if names.len() == 0 {
        assert(f.take(f.len() as int) =~= f);
    } else {
        let x = member_lines(f, open, names.drop_last(), mid, close);
        lemma_member_lines_prefix(f, open, names.drop_last(), mid, close);
        let n = names.last();
        let r = member_lines(f, open, names, mid, close);
        assert(r == x.push(open).push(n).push(mid).push(n).push(close).push(nl()));
        assert(r.take(x.len() as int) =~= x);
        lemma_prefix_trans(f, x, r);
    }
}

/// The line for `names[j]`: `open name mid name close` and its terminator.
pub open spec fn member_run(open: Seq<char>, name: Seq<char>, mid: Seq<char>, close: Seq<char>) -> Seq<
    Seq<char>,
> {
    seq![open, name, mid, name, close, nl()]
}

proof fn lemma_member_lines_run(
    f: Seq<Seq<char>>,
    open: Seq<char>,
    names: Seq<Seq<char>>,
    mid: Seq<char>,
    close: Seq<char>,
    j: int,
)
    requires
        0 <= j < names.len(),
    ensures
        exists|k: int|
            run_at(
                member_lines(f, open, names, mid, close),
                member_run(open, names[j], mid, close),
                k,
            ),
    decreases names.len(),
{
    let x = member_lines(f, open, names.drop_last(), mid, close);
    let r = member_lines(f, open, names, mid, close);
    let n = names.last();
    assert(r == x.push(open).push(n).push(mid).push(n).push(close).push(nl()));
    if j == names.len() - 1 {
        assert(r.subrange(x.len() as int, x.len() + 6int) =~= member_run(open, names[j], mid, close));
        assert(run_at(r, member_run(open, names[j], mid, close), x.len() as int));
    } else {
        lemma_member_lines_run(f, open, names.drop_last(), mid, close, j);
        let k = choose|k: int|
            run_at(x, member_run(open, names.drop_last()[j], mid, close), k);
        assert(r.take(x.len() as int) =~= x);
        lemma_run_in_prefix(x, r, member_run(open, names[j], mid, close), k);
    }
}

/// The registration line of a method named `name`, without its terminator.
pub open spec fn registration(name: Seq<char>) -> Seq<char> {
    "        .function(\""@ + name + "\", &OcctKernel::"@ + name + ")"@
}

proof fn lemma_kernel_bindings_run(
    f: Seq<Seq<char>>,
    ms: Seq<MethodSpec>,
    cats: Seq<Seq<char>>,
    idx: int,
    m: MethodSpec,
)
    requires
        0 <= idx < cats.len(),
        in_category(ms, cats[idx]).contains(m),
    ensures
        exists|k: int|
            run_at(
                kernel_bindings_frags(f, ms, cats),
                member_run("        .function(\""@, m.name@, "\", &OcctKernel::"@, ")"@),
                k,
            ),
    decreases cats.len(),
{
    let run = member_run("        .function(\""@, m.name@, "\", &OcctKernel::"@, ")"@);
    let x = kernel_bindings_frags(f, ms, cats.drop_last());
    let y = crate::text::line(crate::text::frag(crate::text::blank_line(x), "        // "@), cats.last());
    let names = in_category(ms, cats.last()).map_values(|m: MethodSpec| m.name@);
    let r = kernel_bindings_frags(f, ms, cats);
    assert(r == member_lines(y, "        .function(\""@, names, "\", &OcctKernel::"@, ")"@));
    if idx == cats.len() - 1 {
        let members = in_category(ms, cats.last());
        let j = choose|j: int| 0 <= j < members.len() && members[j] == m;
        assert(names[j] == m.name@);
        lemma_member_lines_run(y, "        .function(\""@, names, "\", &OcctKernel::"@, ")"@, j);
    } else {
        lemma_kernel_bindings_run(f, ms, cats.drop_last(), idx, m);
        let k = choose|k: int| run_at(x, run, k);
        assert(y == x.push(nl()).push("        // "@).push(cats.last()).push(nl()));
        assert(y.take(x.len() as int) =~= x);
        lemma_member_lines_prefix(y, "        .function(\""@, names, "\", &OcctKernel::"@, ")"@);
        lemma_prefix_trans(x, y, r);
        lemma_run_in_prefix(x, r, run, k);
    }
}

/// A method that is not skipped has its category listed, and is among the
/// methods of that category.
proof fn lemma_generated_is_grouped(ms: Seq<MethodSpec>, i: int)
    requires
        0 <= i < ms.len(),
        ms[i].kind != MethodKind::Skip,
    ensures
        categories(ms).contains(ms[i].category@),
        in_category(ms, ms[i].category@).contains(ms[i]),
    decreases ms.len(),
{
    ms.lemma_filter_contains(of_category(ms[i].category@), i);
    let pre = ms.drop_last();
    if i < ms.len() - 1 {
        lemma_generated_is_grouped(pre, i);
        assert(pre[i] == ms[i]);
        let c = categories(pre);
        let t = choose|t: int| 0 <= t < c.len() && c[t] == ms[i].category@;
        assert(categories(ms)[t] == ms[i].category@);
    } else {
        let c = categories(pre);
        if c.contains(ms[i].category@) {
            let t = choose|t: int| 0 <= t < c.len() && c[t] == ms[i].category@;
            assert(categories(ms)[t] == ms[i].category@);
        } else {
            assert(categories(ms)[c.len() as int] == ms[i].category@);
        }
    }
}

proof fn lemma_run_occurs(f: Seq<Seq<char>>, r: Seq<Seq<char>>, k: int)
    requires
        run_at(f, r, k),
    ensures
        occurs_at(f.flatten(), r.flatten(), f.take(k).flatten().len() as int),
{
    let a = f.take(k);
    let b = f.subrange(k, k + r.len());
    let c = f.skip(k + r.len());
    assert(f =~= a + b + c);
    lemma_flatten_add(a + b, c);
    lemma_flatten_add(a, b);
    let s = f.flatten();
    assert(s == a.flatten() + r.flatten() + c.flatten());
    let la = a.flatten().len() as int;
    assert(s.subrange(la, la + r.flatten().len()) =~= r.flatten());
}

proof fn lemma_occurs_prefix(s: Seq<char>, t: Seq<char>, p: Seq<char>, i: int)
    requires
        occurs_at(s, p, i),
    ensures
        occurs_at(s + t, p, i),
{
    assert((s + t).subrange(i, i + p.len()) =~= s.subrange(i, i + p.len()));
}

proof fn lemma_occurs_shift(s: Seq<char>, t: Seq<char>, p: Seq<char>, i: int)
    requires
        occurs_at(s, p, i),
    ensures
        occurs_at(t + s, p, t.len() + i),
{
    assert((t + s).subrange(t.len() + i, t.len() + i + p.len()) =~= s.subrange(i, i + p.len()));
}

/// Closing a chain keeps every occurrence that ends before the final
/// character.
proof fn lemma_close_chain_keeps(s: Seq<char>, p: Seq<char>, i: int)
    requires
        occurs_at(s, p, i),
        i + p.len() < s.len(),
        p.len() > 0,
        p.last() == ')',
    ensures
        occurs_at(close_chain(s), p, i),
{
    reveal_strlit(");\n");
    let t = close_chain(s);
    if s.len() >= 2 && s[s.len() - 2] == ')' && s[s.len() - 1] == '\n' {
        assert forall|q: int| i <= q < i + p.len() implies t[q] == s[q] by {
            if q < s.len() - 2 {
            } else {
                assert(q == s.len() - 2);
            }
        }
        assert(t.subrange(i, i + p.len()) =~= s.subrange(i, i + p.len()));
    }
}

proof fn lemma_run_flattens(name: Seq<char>)
    ensures
        member_run("        .function(\""@, name, "\", &OcctKernel::"@, ")"@).flatten()
            == registration(name) + nl(),
{
    let o = "        .function(\""@;
    let mid = "\", &OcctKernel::"@;
    let c = ")"@;
    let e = Seq::<Seq<char>>::empty();
    let r1 = e.push(o);
    let r2 = r1.push(name);
    let r3 = r2.push(mid);
    let r4 = r3.push(name);
    let r5 = r4.push(c);
    let r6 = r5.push(nl());
    assert(member_run(o, name, mid, c) =~= r6);
    e.lemma_flatten_push(o);
    r1.lemma_flatten_push(name);
    r2.lemma_flatten_push(mid);
    r3.lemma_flatten_push(name);
    r4.lemma_flatten_push(c);
    r5.lemma_flatten_push(nl());
    assert(e.flatten() =~= Seq::<char>::empty());
    assert(r6.flatten() =~= registration(name) + nl());
}

/// Where the registration of method `i` stands in the `OcctKernel` chain:
/// somewhere before its last character.
proof fn lemma_registration_in_chain(ms: Seq<MethodSpec>, i: int) -> (a: int)
    requires
        0 <= i < ms.len(),
        ms[i].kind != MethodKind::Skip,
    ensures
        occurs_at(occt_kernel_frags(Seq::empty(), ms).flatten(), registration(ms[i].name@), a),
        a + registration(ms[i].name@).len() < occt_kernel_frags(Seq::empty(), ms).flatten().len(),
{
    let m = ms[i];
    let e = Seq::<Seq<char>>::empty();
    let run = member_run("        .function(\""@, m.name@, "\", &OcctKernel::"@, ")"@);
    let p = registration(m.name@);
    lemma_generated_is_grouped(ms, i);
    let cats = categories(ms);
    let idx = choose|t: int| 0 <= t < cats.len() && cats[t] == m.category@;
    let f0 = crate::text::line(
        crate::text::line(
            crate::text::line(crate::text::blank_line(e), "    // OcctKernel"@),
            "    class_<OcctKernel>(\"OcctKernel\")"@,
        ),
        "        .constructor<>()"@,
    );
    let kf = occt_kernel_frags(e, ms);
    assert(kf == kernel_bindings_frags(f0, ms, cats));
    lemma_kernel_bindings_run(f0, ms, cats, idx, m);
    let k = choose|k: int| run_at(kf, run, k);
    lemma_run_occurs(kf, run, k);
    lemma_run_flattens(m.name@);
    reveal_strlit("\n");
    let a = kf.take(k).flatten().len() as int;
    let kflat = kf.flatten();
    assert(kflat.subrange(a, a + p.len()) =~= (p + nl()).subrange(0, p.len() as int));
    assert((p + nl()).subrange(0, p.len() as int) =~= p);
    a
}

/// The bindings register every method that is not skipped: for each, the
/// file holds the line `.function("name", &OcctKernel::name)`.
pub proof fn lemma_bindings_register_every_method(ms: Seq<MethodSpec>, i: int)
    requires
        0 <= i < ms.len(),
        ms[i].kind != MethodKind::Skip,
    ensures
        contains_seq(bindings_text(ms), registration(ms[i].name@)),
{
    let p = registration(ms[i].name@);
    let kflat = occt_kernel_frags(Seq::empty(), ms).flatten();
    let a = lemma_registration_in_chain(ms, i);
    let before = crate::emitter::bindings_structs();
    lemma_occurs_shift(kflat, before, p, a);
    reveal_strlit(")");
    assert(p.last() == ')');
    lemma_close_chain_keeps(before + kflat, p, before.len() + a);
    let t8 = close_chain(before + kflat);
    let body = bindings_body(ms);
    lemma_occurs_prefix(t8, "}"@, p, before.len() + a);
    // Trimming removes only the final terminator.
    reveal_strlit("\n");
    reveal_strlit("}");
    assert(body.drop_last() =~= t8 + "}"@);
    assert(body.last() == '\n');
    assert(is_white(body.last()));
    assert(trim_end(body) == trim_end(body.drop_last()));
    assert((t8 + "}"@).last() == '}');
    assert(trim_end(t8 + "}"@) == t8 + "}"@);
    assert(trim_end(body) == t8 + "}"@);
    lemma_occurs_prefix(t8 + "}"@, nl(), p, before.len() + a);
}

// ---------------------------------------------------------------------------
// Every generated method is implemented.
// ---------------------------------------------------------------------------

/// The text of a method does not depend on what was written before it.
pub proof fn lemma_method_frags_append(f: Seq<Seq<char>>, m: MethodSpec)
    ensures
        crate::emitter::method_frags(f, m) == f + crate::emitter::method_frags(Seq::empty(), m),
{
    broadcast use crate::text::group_writes_after;

    reveal(crate::emitter::method_frags);
    let e = Seq::<Seq<char>>::empty();
    assert(f + e =~= f);
    assert(crate::emitter::method_frags(f + e, m) == f + crate::emitter::method_frags(e, m));
}

/// The text of method `m` on its own.
pub open spec fn method_text(m: MethodSpec) -> Seq<char> {
    method_frags(Seq::empty(), m).flatten()
}

proof fn lemma_members_prefix(f: Seq<Seq<char>>, members: Seq<MethodSpec>)
    ensures
        frags_prefix(f, members_frags(f, members)),
    decreases members.len(),
{
    if members.len() == 0 {
        assert(f.take(f.len() as int) =~= f);
    } else {
        let x = members_frags(f, members.drop_last());
        lemma_members_prefix(f, members.drop_last());
        lemma_method_frags_append(x, members.last());
        let r = members_frags(f, members);
        assert(r.take(x.len() as int) =~= x);
        lemma_prefix_trans(f, x, r);
    }
}

proof fn lemma_members_run(f: Seq<Seq<char>>, members: Seq<MethodSpec>, j: int)
    requires
        0 <= j < members.len(),
    ensures
        exists|k: int|
            run_at(
                members_frags(f, members),
                method_frags(Seq::empty(), members[j]).push(nl()),
                k,
            ),
    decreases members.len(),
{
    let x = members_frags(f, members.drop_last());
    let r = members_frags(f, members);
    let run = method_frags(Seq::empty(), members[j]).push(nl());
    lemma_method_frags_append(x, members.last());
    if j == members.len() - 1 {
        assert(r =~= x + run);
        assert(r.subrange(x.len() as int, x.len() + run.len() as int) =~= run);
        assert(run_at(r, run, x.len() as int));
    } else {
        lemma_members_run(f, members.drop_last(), j);
        let k = choose|k: int| run_at(x, run, k);
        assert(r.take(x.len() as int) =~= x);
        lemma_run_in_prefix(x, r, run, k);
    }
}

proof fn lemma_sections_run(
    f: Seq<Seq<char>>,
    ms: Seq<MethodSpec>,
    cats: Seq<Seq<char>>,
    idx: int,
    m: MethodSpec,
)
    requires
        0 <= idx < cats.len(),
        in_category(ms, cats[idx]).contains(m),
    ensures
        exists|k: int|
            run_at(sections_frags(f, ms, cats), method_frags(Seq::empty(), m).push(nl()), k),
    decreases cats.len(),
{
    let run = method_frags(Seq::empty(), m).push(nl());
    let x = sections_frags(f, ms, cats.drop_last());
    let y = crate::text::blank_line(
        crate::text::line(
            crate::text::frag(crate::text::frag(x, "// === "@), cats.last()),
            " ==="@,
        ),
    );
    let r = sections_frags(f, ms, cats);
    assert(r == members_frags(y, in_category(ms, cats.last())));
    if idx == cats.len() - 1 {
        let members = in_category(ms, cats.last());
        let j = choose|j: int| 0 <= j < members.len() && members[j] == m;
        lemma_members_run(y, members, j);
    } else {
        lemma_sections_run(f, ms, cats.drop_last(), idx, m);
        let k = choose|k: int| run_at(x, run, k);
        assert(y.take(x.len() as int) =~= x);
        lemma_members_prefix(y, in_category(ms, cats.last()));
        lemma_prefix_trans(x, y, r);
        lemma_run_in_prefix(x, r, run, k);
    }
}

/// The text of a method that is not skipped ends with `}` and a terminator.
proof fn lemma_method_text_ends(m: MethodSpec)
    requires
        m.kind != MethodKind::Skip,
    ensures
        method_text(m).len() >= 2,
        method_text(m)[method_text(m).len() - 2] == '}',
        method_text(m).last() == '\n',
{
    reveal(method_frags);
    let mf = method_frags(Seq::empty(), m);
    let y = mf.drop_last().drop_last();
    assert(mf.last() == nl());
    assert(mf[mf.len() - 2] == "}"@);
    assert(mf =~= y.push("}"@).push(nl()));
    y.lemma_flatten_push("}"@);
    y.push("}"@).lemma_flatten_push(nl());
    reveal_strlit("}");
    reveal_strlit("\n");
    assert(method_text(m) =~= y.flatten() + "}"@ + nl());
}

/// The kernel implements every method that is not skipped: for each, the
/// file holds the method's whole text.
pub proof fn lemma_kernel_implements_every_method(ms: Seq<MethodSpec>, i: int)
    requires
        0 <= i < ms.len(),
        ms[i].kind != MethodKind::Skip,
    ensures
        contains_seq(kernel_text(ms), method_text(ms[i])),
{
    let m = ms[i];
    let e = Seq::<Seq<char>>::empty();
    let run = method_frags(e, m).push(nl());
    let mt = method_text(m);
    lemma_generated_is_grouped(ms, i);
    let cats = categories(ms);
    let idx = choose|t: int| 0 <= t < cats.len() && cats[t] == m.category@;
    let kf = kernel_frags(ms);
    let f = crate::emitter::helper_functions_frags(
        crate::emitter::std_includes_frags(
            crate::text::blank_line(
                crate::emitter::include_lines(
                    crate::emitter::kernel_header_frags(Seq::empty()),
                    crate::emitter::sorted_listing(include_set(ms)),
                ),
            ),
        ),
        ms,
    );
    assert(kf == sections_frags(f, ms, cats));
    lemma_sections_run(f, ms, cats, idx, m);
    let k = choose|k: int| run_at(kf, run, k);
    lemma_run_occurs(kf, run, k);
    method_frags(e, m).lemma_flatten_push(nl());
    let s = kf.flatten();
    let a = kf.take(k).flatten().len() as int;
    lemma_method_text_ends(m);
    let end = a + mt.len();
    assert(s.subrange(a, end) =~= (mt + nl()).subrange(0, mt.len() as int));
    assert((mt + nl()).subrange(0, mt.len() as int) =~= mt);
    assert(s.subrange(a, end) == mt);
    assert(s.subrange(a, end)[mt.len() - 2] == s[end - 2]);
    assert(s[end - 2] == '}');
    lemma_trim_end_keeps(s, end - 2);
    lemma_trim_end_shape(s);
    let t = trim_end(s);
    reveal_strlit("\n");
    let kt = kernel_text(ms);
    assert forall|q: int| a <= q < end implies kt[q] == mt[q - a] by {
        assert(s.subrange(a, end)[q - a] == s[q]);
        if q < t.len() {
            assert(t[q] == s.take(t.len() as int)[q]);
            assert(kt[q] == t[q]);
        } else {
            assert(q == end - 1);
            assert(q == t.len());
            assert(kt[q] == nl()[0]);
        }
    }
    assert(kt.subrange(a, end) =~= mt);
    assert(occurs_at(kt, mt, a));
}


// ---------------------------------------------------------------------------
// What the generated methods say: guards, signatures.
// ---------------------------------------------------------------------------

proof fn lemma_contains_trans(s: Seq<char>, t: Seq<char>, p: Seq<char>)
    requires
        contains_seq(s, t),
        contains_seq(t, p),
    ensures
        contains_seq(s, p),
{
    let a = choose|a: int| occurs_at(s, t, a);
    let b = choose|b: int| occurs_at(t, p, b);
    assert forall|q: int| 0 <= q < p.len() implies s.subrange(a + b, a + b + p.len())[q] == p[q] by {
        assert(s.subrange(a, a + t.len())[b + q] == t[b + q]);
        assert(t.subrange(b, b + p.len())[q] == p[q]);
    }
    assert(s.subrange(a + b, a + b + p.len()) =~= p);
    assert(occurs_at(s, p, a + b));
}

/// The frags `fr[k..k + 8]` flatten to `p`, so `p` occurs in `fr.flatten()`.
proof fn lemma_run_contained(fr: Seq<Seq<char>>, k: int, n: int, p: Seq<char>)
    requires
        0 <= k <= k + n <= fr.len(),
        fr.subrange(k, k + n).flatten() == p,
    ensures
        contains_seq(fr.flatten(), p),
{
    let pre = fr.take(k);
    let run = fr.subrange(k, k + n);
    let rest = fr.skip(k + n);
    assert(fr =~= pre + run + rest);
    lemma_flatten_add(pre + run, rest);
    lemma_flatten_add(pre, run);
    let a = pre.flatten().len() as int;
    let t = fr.flatten();
    assert(t =~= pre.flatten() + p + rest.flatten());
    assert(t.subrange(a, a + p.len()) =~= p);
    assert(occurs_at(t, p, a));
}

/// A boolean operation is built, and fails exactly when OCCT reports it not
/// done or in error: the method's text holds `op.Build();`, then the guard
/// `if (!op.IsDone() || op.HasErrors())` and, under it, the throw of
/// "<name>: boolean operation failed".
#[verifier::rlimit(50)]
pub proof fn lemma_boolean_op_guard(m: MethodSpec)
    requires
        m.kind == MethodKind::BooleanOp,
    ensures
        contains_seq(
            method_text(m),
            "        op.Build();\n        if (!op.IsDone() || op.HasErrors()) {\n            throw std::runtime_error(\""@
                + m.name@ + ": boolean operation failed\");\n"@,
        ),
{
    broadcast use Seq::group_seq_flatten;

    reveal(method_frags);
    let fr = method_frags(Seq::empty(), m);
    let run = fr.subrange(14, 22);
    assert(run =~= Seq::<Seq<char>>::empty().push("        op.Build();"@).push(nl()).push(
        "        if (!op.IsDone() || op.HasErrors()) {"@,
    ).push(nl()).push("            throw std::runtime_error(\""@).push(m.name@).push(
        ": boolean operation failed\");"@,
    ).push(nl()));
    reveal_strlit("        op.Build();");
    reveal_strlit("\n");
    reveal_strlit("        if (!op.IsDone() || op.HasErrors()) {");
    reveal_strlit("            throw std::runtime_error(\"");
    reveal_strlit(": boolean operation failed\");");
    reveal_strlit("        op.Build();\n        if (!op.IsDone() || op.HasErrors()) {\n            throw std::runtime_error(\"");
    reveal_strlit(": boolean operation failed\");\n");
    let p = "        op.Build();\n        if (!op.IsDone() || op.HasErrors()) {\n            throw std::runtime_error(\""@
        + m.name@ + ": boolean operation failed\");\n"@;
    assert(run.flatten() =~= p);
    lemma_run_contained(fr, 14, 8, p);
}

/// The same guard, in the kernel of any list holding a boolean operation.
pub proof fn lemma_kernel_boolean_op_guard(ms: Seq<MethodSpec>, i: int)
    requires
        0 <= i < ms.len(),
        ms[i].kind == MethodKind::BooleanOp,
    ensures
        contains_seq(
            kernel_text(ms),
            "        op.Build();\n        if (!op.IsDone() || op.HasErrors()) {\n            throw std::runtime_error(\""@
                + ms[i].name@ + ": boolean operation failed\");\n"@,
        ),
{
    lemma_kernel_implements_every_method(ms, i);
    lemma_boolean_op_guard(ms[i]);
    lemma_contains_trans(
        kernel_text(ms),
        method_text(ms[i]),
        "        op.Build();\n        if (!op.IsDone() || op.HasErrors()) {\n            throw std::runtime_error(\""@
            + ms[i].name@ + ": boolean operation failed\");\n"@,
    );
}

/// A fillet or chamfer fails exactly when the maker is not done: right after
/// `maker.Build();` comes the guard `if (!maker.IsDone())` and, under it, the
/// throw of "<name>: operation failed".
#[verifier::rlimit(50)]
pub proof fn lemma_fillet_like_guard(m: MethodSpec)
    requires
        m.kind == MethodKind::FilletLike,
    ensures
        contains_seq(
            method_text(m),
            "        maker.Build();\n        if (!maker.IsDone()) {\n            throw std::runtime_error(\""@
                + m.name@ + ": operation failed\");\n"@,
        ),
{
    broadcast use Seq::group_seq_flatten;

    reveal(method_frags);
    let fr = method_frags(Seq::empty(), m);
    let k: int = if first_vector_param(m.params@) is Some { 24 } else { 14 };
    let run = fr.subrange(k, k + 8);
    assert(run =~= Seq::<Seq<char>>::empty().push("        maker.Build();"@).push(nl()).push(
        "        if (!maker.IsDone()) {"@,
    ).push(nl()).push("            throw std::runtime_error(\""@).push(m.name@).push(
        ": operation failed\");"@,
    ).push(nl()));
    reveal_strlit("        maker.Build();");
    reveal_strlit("\n");
    reveal_strlit("        if (!maker.IsDone()) {");
    reveal_strlit("            throw std::runtime_error(\"");
    reveal_strlit(": operation failed\");");
    reveal_strlit("        maker.Build();\n        if (!maker.IsDone()) {\n            throw std::runtime_error(\"");
    reveal_strlit(": operation failed\");\n");
    let p = "        maker.Build();\n        if (!maker.IsDone()) {\n            throw std::runtime_error(\""@
        + m.name@ + ": operation failed\");\n"@;
    assert(run.flatten() =~= p);
    lemma_run_contained(fr, k, 8, p);
}

/// The same guard, in the kernel of any list holding a fillet-like method.
pub proof fn lemma_kernel_fillet_like_guard(ms: Seq<MethodSpec>, i: int)
    requires
        0 <= i < ms.len(),
        ms[i].kind == MethodKind::FilletLike,
    ensures
        contains_seq(
            kernel_text(ms),
            "        maker.Build();\n        if (!maker.IsDone()) {\n            throw std::runtime_error(\""@
                + ms[i].name@ + ": operation failed\");\n"@,
        ),
{
    lemma_kernel_implements_every_method(ms, i);
    lemma_fillet_like_guard(ms[i]);
    lemma_contains_trans(
        kernel_text(ms),
        method_text(ms[i]),
        "        maker.Build();\n        if (!maker.IsDone()) {\n            throw std::runtime_error(\""@
            + ms[i].name@ + ": operation failed\");\n"@,
    );
}

/// A primitive fails exactly when its maker is not done: the method's text
/// holds `maker.Build();`, then the guard `if (!maker.IsDone())` and, under
/// it, the throw of "<name>: construction failed".
#[verifier::rlimit(50)]
pub proof fn lemma_simple_shape_guard(m: MethodSpec)
    requires
        m.kind == MethodKind::SimpleShape,
    ensures
        contains_seq(
            method_text(m),
            "        maker.Build();\n        if (!maker.IsDone()) {\n            throw std::runtime_error(\""@
                + m.name@ + ": construction failed\");\n"@,
        ),
{
    broadcast use Seq::group_seq_flatten;

    reveal(method_frags);
    let fr = method_frags(Seq::empty(), m);
    let run = fr.subrange(14, 22);
    assert(run =~= Seq::<Seq<char>>::empty().push("        maker.Build();"@).push(nl()).push(
        "        if (!maker.IsDone()) {"@,
    ).push(nl()).push("            throw std::runtime_error(\""@).push(m.name@).push(
        ": construction failed\");"@,
    ).push(nl()));
    reveal_strlit("        maker.Build();");
    reveal_strlit("\n");
    reveal_strlit("        if (!maker.IsDone()) {");
    reveal_strlit("            throw std::runtime_error(\"");
    reveal_strlit(": construction failed\");");
    reveal_strlit("        maker.Build();\n        if (!maker.IsDone()) {\n            throw std::runtime_error(\"");
    reveal_strlit(": construction failed\");\n");
    let p = "        maker.Build();\n        if (!maker.IsDone()) {\n            throw std::runtime_error(\""@
        + m.name@ + ": construction failed\");\n"@;
    assert(run.flatten() =~= p);
    lemma_run_contained(fr, 14, 8, p);
}

/// Every method but a raw one runs inside a handler that turns an OCCT
/// failure into a `std::runtime_error` naming the method: its text holds
/// `} catch (const Standard_Failure& e) {` followed by the throw of
/// "<name>: " and the OCCT message.
#[verifier::rlimit(50)]
pub proof fn lemma_failure_handler(m: MethodSpec)
    requires
        m.kind != MethodKind::Skip,
        m.kind != MethodKind::CustomBodyRaw,
    ensures
        contains_seq(
            method_text(m),
            "    } catch (const Standard_Failure& e) {\n        throw std::runtime_error(std::string(\""@
                + m.name@ + ": \") + e.what());\n"@,
        ),
{
    broadcast use Seq::group_seq_flatten;

    reveal(method_frags);
    let e = Seq::<Seq<char>>::empty();
    let fr = method_frags(e, m);
    if m.kind == MethodKind::SimpleShape {
        assert(fr == crate::emitter::simple_shape_frags(e, m));
    } else if m.kind == MethodKind::BooleanOp {
        assert(fr == crate::emitter::boolean_op_frags(e, m));
    } else if m.kind == MethodKind::FilletLike {
        assert(fr == crate::emitter::fillet_like_frags(e, m));
    } else if m.kind == MethodKind::SetupShape {
        assert(fr == crate::emitter::setup_shape_frags(e, m));
    } else {
        assert(fr == crate::emitter::custom_body_frags(e, m));
    }
    let k = fr.len() - 10;
    let run = fr.subrange(k, k + 6);
    assert(run =~= e.push("    } catch (const Standard_Failure& e) {"@).push(nl()).push(
        "        throw std::runtime_error(std::string(\""@,
    ).push(m.name@).push(": \") + e.what());"@).push(nl()));
    reveal_strlit("    } catch (const Standard_Failure& e) {");
    reveal_strlit("\n");
    reveal_strlit("        throw std::runtime_error(std::string(\"");
    reveal_strlit(": \") + e.what());");
    reveal_strlit("    } catch (const Standard_Failure& e) {\n        throw std::runtime_error(std::string(\"");
    reveal_strlit(": \") + e.what());\n");
    let p = "    } catch (const Standard_Failure& e) {\n        throw std::runtime_error(std::string(\""@
        + m.name@ + ": \") + e.what());\n"@;
    assert(run.flatten() =~= p);
    lemma_run_contained(fr, k, 6, p);
}

#[verifier::rlimit(50)]
proof fn lemma_maker_result(m: MethodSpec)
    requires
        m.kind == MethodKind::SimpleShape || m.kind == MethodKind::SetupShape,
    ensures
        contains_seq(method_text(m), "        return store(maker.Shape());\n    } catch"@),
{
    broadcast use Seq::group_seq_flatten;

    reveal(method_frags);
    let e = Seq::<Seq<char>>::empty();
    let fr = method_frags(e, m);
    if m.kind == MethodKind::SimpleShape {
        assert(fr == crate::emitter::simple_shape_frags(e, m));
    } else {
        assert(fr == crate::emitter::setup_shape_frags(e, m));
    }
    reveal_strlit("\n");
    reveal_strlit("    } catch (const Standard_Failure& e) {");
    reveal_strlit("        return store(maker.Shape());");
    reveal_strlit("        return store(maker.Shape());\n    } catch");
    let k = fr.len() - 12;
    let run = fr.subrange(k, k + 3);
    assert(run =~= e.push("        return store(maker.Shape());"@).push(nl()).push("    } catch (const Standard_Failure& e) {"@));
    lemma_run_contained(fr, k, 3, run.flatten());
    let rf = run.flatten();
    assert(rf =~= "        return store(maker.Shape());"@ + nl() + "    } catch (const Standard_Failure& e) {"@);
    assert(rf.take("        return store(maker.Shape());\n    } catch"@.len() as int) =~= "        return store(maker.Shape());\n    } catch"@);
    lemma_contains_prefix(rf, "        return store(maker.Shape());\n    } catch"@);
    lemma_contains_trans(method_text(m), rf, "        return store(maker.Shape());\n    } catch"@);
}

#[verifier::rlimit(50)]
proof fn lemma_op_result(m: MethodSpec)
    requires
        m.kind == MethodKind::BooleanOp,
    ensures
        contains_seq(method_text(m), "        return store(op.Shape());\n    } catch"@),
{
    broadcast use Seq::group_seq_flatten;

    reveal(method_frags);
    let e = Seq::<Seq<char>>::empty();
    let fr = method_frags(e, m);
    assert(fr == crate::emitter::boolean_op_frags(e, m));
    reveal_strlit("\n");
    reveal_strlit("    } catch (const Standard_Failure& e) {");
    reveal_strlit("        return store(op.Shape());");
    reveal_strlit("        return store(op.Shape());\n    } catch");
    let k = fr.len() - 12;
    let run = fr.subrange(k, k + 3);
    assert(run =~= e.push("        return store(op.Shape());"@).push(nl()).push("    } catch (const Standard_Failure& e) {"@));
    lemma_run_contained(fr, k, 3, run.flatten());
    let rf = run.flatten();
    assert(rf =~= "        return store(op.Shape());"@ + nl() + "    } catch (const Standard_Failure& e) {"@);
    assert(rf.take("        return store(op.Shape());\n    } catch"@.len() as int) =~= "        return store(op.Shape());\n    } catch"@);
    lemma_contains_prefix(rf, "        return store(op.Shape());\n    } catch"@);
    lemma_contains_trans(method_text(m), rf, "        return store(op.Shape());\n    } catch"@);
}

#[verifier::rlimit(50)]
proof fn lemma_unwrapped_result(m: MethodSpec)
    requires
        m.kind == MethodKind::FilletLike,
    ensures
        contains_seq(method_text(m), "        return store(unwrapSingletonSolid(maker.Shape()));\n    } catch"@),
{
    broadcast use Seq::group_seq_flatten;

    reveal(method_frags);
    let e = Seq::<Seq<char>>::empty();
    let fr = method_frags(e, m);
    assert(fr == crate::emitter::fillet_like_frags(e, m));
    reveal_strlit("\n");
    reveal_strlit("    } catch (const Standard_Failure& e) {");
    reveal_strlit("        return store(unwrapSingletonSolid(maker.Shape()));");
    reveal_strlit("        return store(unwrapSingletonSolid(maker.Shape()));\n    } catch");
    let k = fr.len() - 12;
    let run = fr.subrange(k, k + 3);
    assert(run =~= e.push("        return store(unwrapSingletonSolid(maker.Shape()));"@).push(nl()).push("    } catch (const Standard_Failure& e) {"@));
    lemma_run_contained(fr, k, 3, run.flatten());
    let rf = run.flatten();
    assert(rf =~= "        return store(unwrapSingletonSolid(maker.Shape()));"@ + nl() + "    } catch (const Standard_Failure& e) {"@);
    assert(rf.take("        return store(unwrapSingletonSolid(maker.Shape()));\n    } catch"@.len() as int) =~= "        return store(unwrapSingletonSolid(maker.Shape()));\n    } catch"@);
    lemma_contains_prefix(rf, "        return store(unwrapSingletonSolid(maker.Shape()));\n    } catch"@);
    lemma_contains_trans(method_text(m), rf, "        return store(unwrapSingletonSolid(maker.Shape()));\n    } catch"@);
}

/// What a method built from a template stores: the maker's shape for a
/// primitive or a shape set up by code, the operation's shape for a boolean
/// operation, and the single solid unwrapped from the maker's shape for a
/// fillet or chamfer; the failure handler follows right after.
pub proof fn lemma_template_result(m: MethodSpec)
    requires
        m.kind == MethodKind::SimpleShape || m.kind == MethodKind::BooleanOp || m.kind
            == MethodKind::FilletLike || m.kind == MethodKind::SetupShape,
    ensures
        m.kind == MethodKind::SimpleShape || m.kind == MethodKind::SetupShape ==> contains_seq(
            method_text(m),
            "        return store(maker.Shape());\n    } catch"@,
        ),
        m.kind == MethodKind::BooleanOp ==> contains_seq(
            method_text(m),
            "        return store(op.Shape());\n    } catch"@,
        ),
        m.kind == MethodKind::FilletLike ==> contains_seq(
            method_text(m),
            "        return store(unwrapSingletonSolid(maker.Shape()));\n    } catch"@,
        ),
{
    if m.kind == MethodKind::SimpleShape || m.kind == MethodKind::SetupShape {
        lemma_maker_result(m);
    } else if m.kind == MethodKind::BooleanOp {
        lemma_op_result(m);
    } else {
        lemma_unwrapped_result(m);
    }
}

/// `p` is a prefix of `s`, which therefore contains it.
proof fn lemma_contains_prefix(s: Seq<char>, p: Seq<char>)
    requires
        p.len() <= s.len(),
        s.take(p.len() as int) == p,
    ensures
        contains_seq(s, p),
{
    assert(s.subrange(0, p.len() as int) =~= s.take(p.len() as int));
    assert(occurs_at(s, p, 0));
}

/// Each parameter is declared with the C++ type its kind names.
pub proof fn lemma_parameter_spelling()
    ensures
        forall|n: &'static str| param_cpp(FacadeParam::ShapeId(n)) == "uint32_t "@ + n@,
        forall|n: &'static str| param_cpp(FacadeParam::Uint32(n)) == "uint32_t "@ + n@,
        forall|n: &'static str| param_cpp(FacadeParam::Double(n)) == "double "@ + n@,
        forall|n: &'static str| param_cpp(FacadeParam::VectorShapeIds(n)) == "std::vector<uint32_t> "@ + n@,
        forall|n: &'static str| param_cpp(FacadeParam::Bool(n)) == "bool "@ + n@,
        forall|n: &'static str| param_cpp(FacadeParam::Int(n)) == "int "@ + n@,
        forall|n: &'static str| param_cpp(FacadeParam::String(n)) == "const std::string& "@ + n@,
        forall|n: &'static str| param_cpp(FacadeParam::VectorDouble(n)) == "std::vector<double> "@ + n@,
        forall|n: &'static str| param_cpp(FacadeParam::VectorInt(n)) == "std::vector<int> "@ + n@,
{
}

/// Each return type is spelled as the C++ type of the same name.
pub proof fn lemma_return_type_spelling()
    ensures
        ret_cpp(ReturnType::ShapeId) == "uint32_t"@,
        ret_cpp(ReturnType::Uint32) == "uint32_t"@,
        ret_cpp(ReturnType::Bool) == "bool"@,
        ret_cpp(ReturnType::Void) == "void"@,
        ret_cpp(ReturnType::VectorUint32) == "std::vector<uint32_t>"@,
        ret_cpp(ReturnType::VectorDouble) == "std::vector<double>"@,
        ret_cpp(ReturnType::Double) == "double"@,
        ret_cpp(ReturnType::String) == "std::string"@,
        ret_cpp(ReturnType::Int) == "int"@,
        ret_cpp(ReturnType::VectorInt) == "std::vector<int>"@,
        ret_cpp(ReturnType::BBoxData) == "BBoxData"@,
        ret_cpp(ReturnType::NurbsCurveData) == "NurbsCurveData"@,
        ret_cpp(ReturnType::EvolutionData) == "EvolutionData"@,
        ret_cpp(ReturnType::MeshData) == "MeshData"@,
        ret_cpp(ReturnType::MeshBatchData) == "MeshBatchData"@,
        ret_cpp(ReturnType::EdgeData) == "EdgeData"@,
        ret_cpp(ReturnType::ProjectionData) == "ProjectionData"@,
        ret_cpp(ReturnType::XCAFLabelInfo) == "XCAFLabelInfo"@,
{
}

/// Every method's text opens with its signature: a method whose body is
/// written out (`CustomBody`, `CustomBodyRaw`) returns the C++ spelling of
/// its return type, and one built from a template returns a shape id
/// (`uint32_t`).
#[verifier::rlimit(50)]
pub proof fn lemma_method_signature(m: MethodSpec)
    requires
        m.kind != MethodKind::Skip,
    ensures
        m.kind == MethodKind::CustomBody || m.kind == MethodKind::CustomBodyRaw ==> occurs_at(
            method_text(m),
            ret_cpp(m.return_type) + " OcctKernel::"@ + m.name@ + "("@,
            0,
        ),
        !(m.kind == MethodKind::CustomBody || m.kind == MethodKind::CustomBodyRaw) ==> occurs_at(
            method_text(m),
            "uint32_t OcctKernel::"@ + m.name@ + "("@,
            0,
        ),
{
    broadcast use Seq::group_seq_flatten;

    reveal(method_frags);
    let e = Seq::<Seq<char>>::empty();
    let fr = method_frags(e, m);
    if m.kind == MethodKind::CustomBody || m.kind == MethodKind::CustomBodyRaw {
        let p = ret_cpp(m.return_type) + " OcctKernel::"@ + m.name@ + "("@;
        if m.kind == MethodKind::CustomBody {
            assert(fr == crate::emitter::custom_body_frags(e, m));
        } else {
            assert(fr == crate::emitter::custom_body_raw_frags(e, m));
        }
        assert(fr.take(4) =~= e.push(ret_cpp(m.return_type)).push(" OcctKernel::"@).push(m.name@).push(
            "("@,
        ));
        assert(fr.take(4).flatten() =~= p);
        lemma_prefix_occurs(fr, 4, p);
    } else {
        reveal_strlit("uint32_t OcctKernel::");
        let p = "uint32_t OcctKernel::"@ + m.name@ + "("@;
        if m.kind == MethodKind::SimpleShape {
            assert(fr == crate::emitter::simple_shape_frags(e, m));
        } else if m.kind == MethodKind::BooleanOp {
            assert(fr == crate::emitter::boolean_op_frags(e, m));
        } else if m.kind == MethodKind::FilletLike {
            assert(fr == crate::emitter::fillet_like_frags(e, m));
        } else {
            assert(fr == crate::emitter::setup_shape_frags(e, m));
        }
        assert(fr.take(3) =~= e.push("uint32_t OcctKernel::"@).push(m.name@).push("("@));
        assert(fr.take(3).flatten() =~= p);
        lemma_prefix_occurs(fr, 3, p);
    }
}

proof fn lemma_prefix_occurs(fr: Seq<Seq<char>>, n: int, p: Seq<char>)
    requires
        0 <= n <= fr.len(),
        fr.take(n).flatten() == p,
    ensures
        occurs_at(fr.flatten(), p, 0),
{
    let rest = fr.skip(n);
    assert(fr =~= fr.take(n) + rest);
    lemma_flatten_add(fr.take(n), rest);
    assert(fr.flatten().subrange(0, p.len() as int) =~= p);
}

/// In the kernel of any list, each method that is not skipped is defined
/// under the signature of [`lemma_method_signature`].
pub proof fn lemma_kernel_signature(ms: Seq<MethodSpec>, i: int)
    requires
        0 <= i < ms.len(),
        ms[i].kind != MethodKind::Skip,
    ensures
        ms[i].kind == MethodKind::CustomBody || ms[i].kind == MethodKind::CustomBodyRaw
            ==> contains_seq(
            kernel_text(ms),
            ret_cpp(ms[i].return_type) + " OcctKernel::"@ + ms[i].name@ + "("@,
        ),
        !(ms[i].kind == MethodKind::CustomBody || ms[i].kind == MethodKind::CustomBodyRaw)
            ==> contains_seq(kernel_text(ms), "uint32_t OcctKernel::"@ + ms[i].name@ + "("@),
{
    let m = ms[i];
    lemma_kernel_implements_every_method(ms, i);
    lemma_method_signature(m);
    let p = if m.kind == MethodKind::CustomBody || m.kind == MethodKind::CustomBodyRaw {
        ret_cpp(m.return_type) + " OcctKernel::"@ + m.name@ + "("@
    } else {
        "uint32_t OcctKernel::"@ + m.name@ + "("@
    };
    assert(occurs_at(method_text(m), p, 0));
    lemma_contains_trans(kernel_text(ms), method_text(m), p);
}

// ---------------------------------------------------------------------------
// The vector types registered in `bindings.cpp`.
// ---------------------------------------------------------------------------

/// The opening of the bindings up to the three vector types and the blank
/// line after them.
spec fn vector_types_prefix() -> Seq<Seq<char>> {
    let e = Seq::<Seq<char>>::empty();
    let f = crate::emitter::bindings_header_frags(e);
    let f = crate::text::line(f, "    // Vector types"@);
    let f = crate::emitter::vector_type_frags(f, "uint32_t"@, "VectorUint32"@);
    let f = crate::emitter::vector_type_frags(f, "double"@, "VectorDouble"@);
    let f = crate::emitter::vector_type_frags(f, "int"@, "VectorInt"@);
    crate::text::blank_line(f)
}

proof fn lemma_vector_types_prefix_of_intro()
    ensures
        frags_prefix(
            vector_types_prefix(),
            crate::emitter::bindings_intro_frags(Seq::<Seq<char>>::empty()),
        ),
{
    let f = vector_types_prefix();
    let g = crate::emitter::mesh_data_binding_frags(f);
    let g = crate::text::line(g, "    // MeshBatchData"@);
    let g = crate::text::line(g, "    class_<MeshBatchData>(\"MeshBatchData\")"@);
    assert(g.take(f.len() as int) =~= f);
    let names1 = seq!["getPositionsPtr"@, "getNormalsPtr"@, "getIndicesPtr"@, "getShapeOffsetsPtr"@];
    let names2 = seq!["positionCount"@, "normalCount"@, "indexCount"@, "shapeCount"@];
    let h = member_lines(g, "        .function(\""@, names1, "\", &MeshBatchData::"@, ")"@);
    lemma_member_lines_prefix(g, "        .function(\""@, names1, "\", &MeshBatchData::"@, ")"@);
    lemma_member_lines_prefix(h, "        .property(\""@, names2, "\", &MeshBatchData::"@, ")"@);
    lemma_prefix_trans(f, g, h);
    lemma_prefix_trans(
        f,
        h,
        member_lines(h, "        .property(\""@, names2, "\", &MeshBatchData::"@, ")"@),
    );
}

/// Closing a chain keeps an occurrence that ends two or more characters
/// before the end, and does not shorten the text.
proof fn lemma_close_keeps(x: Seq<char>, p: Seq<char>, a: int)
    requires
        occurs_at(x, p, a),
        a + p.len() + 2 <= x.len(),
    ensures
        occurs_at(close_chain(x), p, a),
        a + p.len() + 2 <= close_chain(x).len(),
{
    reveal_strlit(");\n");
    let n = a + p.len();
    lemma_close_chain_prefix(x, n);
    assert(close_chain(x).subrange(a, n) =~= x.take(n).subrange(a, n));
    assert(x.subrange(a, n) =~= x.take(n).subrange(a, n));
}

/// A run of frags ending two or more characters before the end of the text.
proof fn lemma_run_early(fr: Seq<Seq<char>>, k: int, n: int, p: Seq<char>) -> (a: int)
    requires
        0 <= k,
        0 <= n,
        k + n < fr.len(),
        fr.subrange(k, k + n).flatten() == p,
        fr[k + n].len() >= 2,
    ensures
        occurs_at(fr.flatten(), p, a),
        a + p.len() + 2 <= fr.flatten().len(),
{
    let pre = fr.take(k);
    let run = fr.subrange(k, k + n);
    let rest = fr.skip(k + n);
    assert(fr =~= pre + run + rest);
    lemma_flatten_add(pre + run, rest);
    lemma_flatten_add(pre, run);
    assert(rest.flatten() == rest.first() + rest.drop_first().flatten());
    let a = pre.flatten().len() as int;
    let t = fr.flatten();
    assert(t =~= pre.flatten() + p + rest.flatten());
    assert(t.subrange(a, a + p.len()) =~= p);
    a
}

/// A text `p` that the frags `vector_types_prefix()[k..k + 10]` spell, with
/// two or more characters after it, survives into the bindings.
#[verifier::rlimit(50)]
proof fn lemma_vector_text_kept(k: int, p: Seq<char>, ms: Seq<MethodSpec>)
    requires
        0 <= k,
        k + 10 < vector_types_prefix().len(),
        vector_types_prefix().subrange(k, k + 10).flatten() == p,
        vector_types_prefix()[k + 10].len() >= 2,
    ensures
        contains_seq(bindings_text(ms), p),
{
    let e = Seq::<Seq<char>>::empty();
    let f = vector_types_prefix();
    let intro = crate::emitter::bindings_intro_frags(e);
    let a = lemma_run_early(f, k, 10, p);
    lemma_vector_types_prefix_of_intro();
    let rest = intro.skip(f.len() as int);
    assert(intro =~= f + rest);
    lemma_flatten_add(f, rest);
    lemma_occurs_prefix(f.flatten(), rest.flatten(), p, a);
    let t = intro.flatten();
    lemma_close_keeps(t, p, a);
    let t = close_chain(t);
    let m = crate::emitter::bbox_frags(crate::text::blank_line(e)).flatten();
    lemma_occurs_prefix(t, m, p, a);
    lemma_close_keeps(t + m, p, a);
    let t = close_chain(t + m);
    let m = crate::emitter::edge_data_binding_frags(crate::text::blank_line(e)).flatten();
    lemma_occurs_prefix(t, m, p, a);
    let t = t + m;
    let m = crate::emitter::projection_frags(e).flatten();
    lemma_occurs_prefix(t, m, p, a);
    lemma_close_keeps(t + m, p, a);
    let t = close_chain(t + m);
    let m = crate::emitter::nurbs_frags(crate::text::blank_line(e)).flatten();
    lemma_occurs_prefix(t, m, p, a);
    lemma_close_keeps(t + m, p, a);
    let t = close_chain(t + m);
    let m = crate::emitter::evolution_data_frags(crate::text::blank_line(e)).flatten();
    lemma_occurs_prefix(t, m, p, a);
    lemma_close_keeps(t + m, p, a);
    let t = close_chain(t + m);
    let m = crate::emitter::xcaf_frags(crate::text::blank_line(e)).flatten();
    lemma_occurs_prefix(t, m, p, a);
    lemma_close_keeps(t + m, p, a);
    let st = close_chain(t + m);
    assert(st == bindings_structs());
    lemma_bindings_preamble_fixed(ms);
    let bt = bindings_text(ms);
    assert(bt.subrange(a, a + p.len()) =~= st.subrange(a, a + p.len()));
    assert(occurs_at(bt, p, a));
}

#[verifier::rlimit(50)]
proof fn lemma_vector_uint32_kept(ms: Seq<MethodSpec>)
    ensures
        contains_seq(
            bindings_text(ms),
            "    register_vector<uint32_t>(\"VectorUint32\")\n        .function(\"dataPtr\", +[](const std::vector<uint32_t>& v) {\n"@,
        ),
{
    broadcast use Seq::group_seq_flatten;

    let f = vector_types_prefix();
    let e = Seq::<Seq<char>>::empty();
    reveal_strlit("    register_vector<");
    reveal_strlit(">(\"");
    reveal_strlit("\")");
    reveal_strlit("\n");
    reveal_strlit("        .function(\"dataPtr\", +[](const std::vector<");
    reveal_strlit(">& v) {");
    reveal_strlit("            return static_cast<unsigned int>(reinterpret_cast<uintptr_t>(v.data()));");
    reveal_strlit("uint32_t");
    reveal_strlit("VectorUint32");
    reveal_strlit(
        "    register_vector<uint32_t>(\"VectorUint32\")\n        .function(\"dataPtr\", +[](const std::vector<uint32_t>& v) {\n",
    );
    let r = f.subrange(17, 27);
    assert(r =~= e.push("    register_vector<"@).push("uint32_t"@).push(">(\""@).push("VectorUint32"@).push(
        "\")"@,
    ).push(nl()).push("        .function(\"dataPtr\", +[](const std::vector<"@).push("uint32_t"@).push(
        ">& v) {"@,
    ).push(nl()));
    let p = "    register_vector<uint32_t>(\"VectorUint32\")\n        .function(\"dataPtr\", +[](const std::vector<uint32_t>& v) {\n"@;
    assert(r.flatten() =~= p);
    lemma_vector_text_kept(17, p, ms);
}

#[verifier::rlimit(50)]
proof fn lemma_vector_double_kept(ms: Seq<MethodSpec>)
    ensures
        contains_seq(
            bindings_text(ms),
            "    register_vector<double>(\"VectorDouble\")\n        .function(\"dataPtr\", +[](const std::vector<double>& v) {\n"@,
        ),
{
    broadcast use Seq::group_seq_flatten;

    let f = vector_types_prefix();
    let e = Seq::<Seq<char>>::empty();
    reveal_strlit("    register_vector<");
    reveal_strlit(">(\"");
    reveal_strlit("\")");
    reveal_strlit("\n");
    reveal_strlit("        .function(\"dataPtr\", +[](const std::vector<");
    reveal_strlit(">& v) {");
    reveal_strlit("            return static_cast<unsigned int>(reinterpret_cast<uintptr_t>(v.data()));");
    reveal_strlit("double");
    reveal_strlit("VectorDouble");
    reveal_strlit(
        "    register_vector<double>(\"VectorDouble\")\n        .function(\"dataPtr\", +[](const std::vector<double>& v) {\n",
    );
    let r = f.subrange(31, 41);
    assert(r =~= e.push("    register_vector<"@).push("double"@).push(">(\""@).push("VectorDouble"@).push(
        "\")"@,
    ).push(nl()).push("        .function(\"dataPtr\", +[](const std::vector<"@).push("double"@).push(
        ">& v) {"@,
    ).push(nl()));
    let p = "    register_vector<double>(\"VectorDouble\")\n        .function(\"dataPtr\", +[](const std::vector<double>& v) {\n"@;
    assert(r.flatten() =~= p);
    lemma_vector_text_kept(31, p, ms);
}

#[verifier::rlimit(50)]
proof fn lemma_vector_int_kept(ms: Seq<MethodSpec>)
    ensures
        contains_seq(
            bindings_text(ms),
            "    register_vector<int>(\"VectorInt\")\n        .function(\"dataPtr\", +[](const std::vector<int>& v) {\n"@,
        ),
{
    broadcast use Seq::group_seq_flatten;

    let f = vector_types_prefix();
    let e = Seq::<Seq<char>>::empty();
    reveal_strlit("    register_vector<");
    reveal_strlit(">(\"");
    reveal_strlit("\")");
    reveal_strlit("\n");
    reveal_strlit("        .function(\"dataPtr\", +[](const std::vector<");
    reveal_strlit(">& v) {");
    reveal_strlit("            return static_cast<unsigned int>(reinterpret_cast<uintptr_t>(v.data()));");
    reveal_strlit("int");
    reveal_strlit("VectorInt");
    reveal_strlit(
        "    register_vector<int>(\"VectorInt\")\n        .function(\"dataPtr\", +[](const std::vector<int>& v) {\n",
    );
    let r = f.subrange(45, 55);
    assert(r =~= e.push("    register_vector<"@).push("int"@).push(">(\""@).push("VectorInt"@).push(
        "\")"@,
    ).push(nl()).push("        .function(\"dataPtr\", +[](const std::vector<"@).push("int"@).push(
        ">& v) {"@,
    ).push(nl()));
    let p = "    register_vector<int>(\"VectorInt\")\n        .function(\"dataPtr\", +[](const std::vector<int>& v) {\n"@;
    assert(r.flatten() =~= p);
    lemma_vector_text_kept(45, p, ms);
}

/// `bindings.cpp` registers each vector type with the element type its
/// JavaScript name denotes, and exposes its data pointer for that same
/// element type, whatever the methods.
pub proof fn lemma_bindings_vector_types(ms: Seq<MethodSpec>)
    ensures
        contains_seq(
            bindings_text(ms),
            "    register_vector<uint32_t>(\"VectorUint32\")\n        .function(\"dataPtr\", +[](const std::vector<uint32_t>& v) {\n"@,
        ),
        contains_seq(
            bindings_text(ms),
            "    register_vector<double>(\"VectorDouble\")\n        .function(\"dataPtr\", +[](const std::vector<double>& v) {\n"@,
        ),
        contains_seq(
            bindings_text(ms),
            "    register_vector<int>(\"VectorInt\")\n        .function(\"dataPtr\", +[](const std::vector<int>& v) {\n"@,
        ),
{
    lemma_vector_uint32_kept(ms);
    lemma_vector_double_kept(ms);
    lemma_vector_int_kept(ms);
}

} // verus!
