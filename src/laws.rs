//! Properties of the translation, stated over the specifications of the
//! functions they relate and proved.
use vstd::prelude::*;
use crate::invoker::{
    arg_translation, converted_or, helper_text, translated_args, vcs_failure, GitWrapper, Outcome,
    Step,
};
use crate::text::{escape_char, escaped, is_foreign_path, occurs_at, views};

verus! {

/// Escaping distributes over concatenation.
pub proof fn lemma_escaped_concat(x: Seq<char>, y: Seq<char>)
    ensures
        escaped(x + y) == escaped(x) + escaped(y),
    decreases y.len(),
{
    if y.len() == 0 {
        assert(x + y =~= x);
        assert(escaped(x) + escaped(y) =~= escaped(x));
    } else {
        assert((x + y).drop_last() =~= x + y.drop_last());
        assert((x + y).last() == y.last());
        lemma_escaped_concat(x, y.drop_last());
        assert(escaped(x + y) =~= escaped(x) + escaped(y));
    }
}

/// The run step carries one argument for each argument received, in the
/// same order: argument `j` of the run is what argument `j` became.
pub proof fn translation_keeps_count_and_order(w: GitWrapper, step: Step)
    requires
        w.step_is(step),
        step is RunVcs,
    ensures
        ({
            let v = views(step->RunVcs_0@);
            &&& v.len() == w.args_view().len()
            &&& forall|j: int|
                0 <= j < v.len() ==> v[j] == arg_translation(
                    w.args_view()[j],
                    w.helper_outputs()[j],
                )
        }),
{
    let v = views(step->RunVcs_0@);
    assert(v == translated_args(w.args_view(), w.helper_outputs()));
}

/// An argument that is no drive-letter path, before or after escaping, is
/// passed on escaped, whatever the helper would say.
pub proof fn plain_argument_is_escaped(a: Seq<char>, out: Option<Seq<char>>)
    requires
        !is_foreign_path(a),
        !is_foreign_path(escaped(a)),
    ensures
        arg_translation(a, out) == escaped(a),
{
}

/// A drive-letter path stays one when escaped, and is passed on as the
/// helper's conversion of the escaped argument.
pub proof fn path_argument_goes_to_helper(a: Seq<char>, out: Option<Seq<char>>)
    requires
        is_foreign_path(a),
    ensures
        is_foreign_path(escaped(a)),
        arg_translation(a, out) == converted_or(escaped(a), out),
{
    let p = if exists|i: int| occurs_at(a, seq![':', '/'], i) {
        seq![':', '/']
    } else {
        seq![':', '\\']
    };
    let i = choose|i: int| occurs_at(a, p, i);
    let head = a.subrange(0, i);
    let tail = a.subrange(i + 2, a.len() as int);
    assert(a =~= head + p + tail);
    assert(p.drop_last() =~= seq![':']);
    assert(seq![':'].drop_last() =~= Seq::<char>::empty());
    assert(escaped(Seq::<char>::empty()) =~= Seq::<char>::empty());
    assert(seq![':'].last() == ':');
    assert(escaped(seq![':']) =~= seq![':']);
    assert(p.last() == '/' || p.last() == '\\');
    assert(escaped(p) =~= p);
    lemma_escaped_concat(head, p);
    lemma_escaped_concat(head + p, tail);
    let e = escaped(a);
    let k = escaped(head).len() as int;
    assert(e =~= escaped(head) + p + escaped(tail));
    assert(e.subrange(k, k + 2) =~= p);
    assert(occurs_at(e, p, k));
}

/// Escaping text without braces leaves it as it is.
pub proof fn escape_without_braces_is_identity(s: Seq<char>)
    requires
        forall|i: int| 0 <= i < s.len() ==> s[i] != '{' && s[i] != '}',
    ensures
        escaped(s) == s,
    decreases s.len(),
{
    if s.len() > 0 {
        escape_without_braces_is_identity(s.drop_last());
        assert(escape_char(s.last()) =~= seq![s.last()]);
        assert(s.drop_last().push(s.last()) =~= s);
    }
}

/// Where the helper prints nothing, or cannot be started, the path is kept.
pub proof fn empty_helper_output_keeps_path(path: Seq<char>, o: Outcome)
    requires
        helper_text(o) matches Some(t) ==> t.len() == 0,
    ensures
        converted_or(path, helper_text(o)) == path,
{
}

/// A failed start of the version-control executable is reported with a
/// message that is not empty.
pub proof fn failed_start_reports_error(error: Seq<char>)
    ensures
        vcs_failure(error).len() > 0,
{
    reveal_strlit("Error:call_git=");
}

} // verus!
