//! The localization request: a message identifier, a target locale code and
//! optional named arguments. An argument may itself be a nested request, whose
//! resolved text is substituted before the enclosing message is rendered.

use vstd::prelude::*;
use vstd::string::StringExecFns;
use crate::fluent_api::args_entries;
use crate::fluent_api::args_new;
use crate::fluent_api::args_set_number;
use crate::fluent_api::args_set_text;
use crate::fluent_api::number_view_of;
use crate::fluent_api::ArgView;
use crate::fluent_api::OwnedArgs;
use crate::localization_bundle::vec_ref;
use crate::localization_bundle::LocalizationBundles;

verus! {

/// One named argument of a localization request. A number is carried as its
/// source text, so that the renderer decides how to format it; a boolean is
/// rendered as the literal token `true` or `false`.
pub enum LocalizeArg {
    Number(String),
    Str(String),
    Bool(bool),
    Nested(Box<LocalizeableData>),
}

/// A localization request: which message, for which locale, with which
/// named arguments. Requests are transient: built per call, never stored.
pub struct LocalizeableData {
    pub id: String,
    pub code: String,
    pub args: Option<Vec<(String, LocalizeArg)>>,
}

/// Structural size of one argument; a nested request counts its whole subtree.
pub open spec fn arg_size(a: LocalizeArg) -> nat
    decreases a,
{
    match a {
        LocalizeArg::Nested(d) => 1 + data_size(*d),
        _ => 1,
    }
}

/// Structural size of an argument list.
pub open spec fn args_size(s: Seq<(String, LocalizeArg)>) -> nat
    decreases s,
{
    if s.len() == 0 {
        0
    } else {
        args_size(s.drop_last()) + arg_size(s.last().1)
    }
}

/// Structural size of a whole request; nested requests are strictly smaller
/// than the request that carries them, which bounds the recursion of
/// argument resolution.
pub open spec fn data_size(d: LocalizeableData) -> nat
    decreases d,
{
    1 + match d.args {
        Some(v) => args_size(v@),
        None => 0nat,
    }
}

/// Every argument of a list is no larger than the list itself.
pub proof fn lemma_args_size_element(s: Seq<(String, LocalizeArg)>, i: int)
    requires
        0 <= i < s.len(),
    ensures
        arg_size(s[i].1) <= args_size(s),
    decreases s.len(),
{
    if i < s.len() - 1 {
        lemma_args_size_element(s.drop_last(), i);
        assert(s.drop_last()[i] == s[i]);
    }
}

/// What one argument may compile to. A string passes through, a number
/// becomes what the number parser makes of its text, a boolean becomes the
/// literal token "true" or "false", and a nested request becomes some text —
/// its own locale code whenever its resolution finds no translation, so the
/// output stays non-empty.
pub open spec fn arg_binding_ok(ctx: LocalizationBundles, v: LocalizeArg, av: ArgView) -> bool {
    match v {
        LocalizeArg::Str(s) => av == ArgView::Text(s@),
        LocalizeArg::Number(t) => av == number_view_of(t@),
        LocalizeArg::Bool(b) => av == ArgView::Text(
            if b {
                seq!['t', 'r', 'u', 'e']
            } else {
                seq!['f', 'a', 'l', 's', 'e']
            },
        ),
        LocalizeArg::Nested(d) => av matches ArgView::Text(out) && (ctx.msg_chase(
            d.id@,
            d.code@,
            Set::empty(),
        ) is None ==> out == d.code@),
    }
}

/// The argument map is what compiling the list left to right builds: one
/// binding per argument, a later argument shadowing an earlier one of the
/// same name.
pub open spec fn args_fold_ok(
    ctx: LocalizationBundles,
    s: Seq<(String, LocalizeArg)>,
    m: Map<Seq<char>, ArgView>,
) -> bool
    decreases s.len(),
{
    if s.len() == 0 {
        m == Map::<Seq<char>, ArgView>::empty()
    } else {
        exists|m0: Map<Seq<char>, ArgView>, av: ArgView|
            #![trigger m0.insert(s.last().0@, av)]
            args_fold_ok(ctx, s.drop_last(), m0) && arg_binding_ok(ctx, s.last().1, av) && m
                == m0.insert(s.last().0@, av)
    }
}

/// One more argument extends a well-built argument map by one binding.
pub proof fn lemma_args_fold_ok_step(
    ctx: LocalizationBundles,
    s: Seq<(String, LocalizeArg)>,
    m0: Map<Seq<char>, ArgView>,
    av: ArgView,
    m: Map<Seq<char>, ArgView>,
)
    requires
        s.len() > 0,
        args_fold_ok(ctx, s.drop_last(), m0),
        arg_binding_ok(ctx, s.last().1, av),
        m == m0.insert(s.last().0@, av),
    ensures
        args_fold_ok(ctx, s, m),
{
    // The insert term is the trigger of the fold's existential.
    let w = m0.insert(s.last().0@, av);
    assert(m == w);
}

impl LocalizeableData {
    /// Compile the named arguments for rendering: numbers and strings pass
    /// through, booleans become the literal tokens "true"/"false", and a
    /// nested request is resolved first — or replaced by its own locale
    /// code where that resolution fails. None exactly when the request
    /// carries no argument map at all.
    pub fn parse_args(&self, bundles: &LocalizationBundles) -> (r: Option<OwnedArgs>)
        ensures
            (r is Some) == (self.args is Some),
            r matches Some(fa) ==> self.args matches Some(l) && args_fold_ok(
                *bundles,
                l@,
                args_entries(fa),
            ),
        decreases data_size(*self), 0int,
    {
        let list = match &self.args {
            None => {
                return None;
            },
            Some(v) => v,
        };
        let mut fa = args_new();
        proof {
            assert(args_entries(fa) =~= Map::<Seq<char>, ArgView>::empty());
            assert(list@.subrange(0, 0) =~= Seq::<(String, LocalizeArg)>::empty());
        }
        let n = list.len();
        let mut i: usize = 0;
        while i < n
            invariant
                i <= n,
                n == list@.len(),
                self.args matches Some(l) && l@ == list@,
                args_fold_ok(*bundles, list@.subrange(0, i as int), args_entries(fa)),
            decreases n - i,
        {
            let ghost pre_entries = args_entries(fa);
            let ghost pre_sub = list@.subrange(0, i as int);
            let ghost sub1 = list@.subrange(0, i as int + 1);
            let p = vec_ref(list, i);
            let key = &p.0;
            let ghost av: ArgView;
            match &p.1 {
                LocalizeArg::Str(s) => {
                    proof {
                        av = ArgView::Text(s@);
                    }
                    args_set_text(&mut fa, key.as_str(), s.clone());
                },
                LocalizeArg::Number(t) => {
                    proof {
                        av = number_view_of(t@);
                    }
                    args_set_number(&mut fa, key.as_str(), t.as_str());
                },
                LocalizeArg::Bool(b) => {
                    let text = if *b {
                        String::from_str("true")
                    } else {
                        String::from_str("false")
                    };
                    proof {
                        reveal_strlit("true");
                        reveal_strlit("false");
                        if *b {
                            assert(text@ =~= seq!['t', 'r', 'u', 'e']);
                        } else {
                            assert(text@ =~= seq!['f', 'a', 'l', 's', 'e']);
                        }
                        av = ArgView::Text(text@);
                    }
                    args_set_text(&mut fa, key.as_str(), text);
                },
                LocalizeArg::Nested(d) => {
                    proof {
                        lemma_args_size_element(list@, i as int);
                        assert(data_size(**d) < data_size(*self));
                    }
                    let out: String = match bundles.resolve_message_inner(&*d) {
                        Some((text, _render_errors)) => text,
                        None => d.code.clone(),
                    };
                    proof {
                        av = ArgView::Text(out@);
                    }
                    args_set_text(&mut fa, key.as_str(), out);
                },
            }
            proof {
                assert(sub1.len() == i + 1);
                assert(sub1.drop_last() =~= pre_sub);
                assert(sub1.last() == list@[i as int]);
                lemma_args_fold_ok_step(
                    *bundles,
                    sub1,
                    pre_entries,
                    av,
                    args_entries(fa),
                );
            }
            i = i + 1;
        }
        proof {
            assert(list@.subrange(0, n as int) =~= list@);
        }
        Some(fa)
    }
}

} // verus!
