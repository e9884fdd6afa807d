//! General properties of the grammar, stated once for all inputs and proved.

use vstd::prelude::*;
use crate::message::spec_args;
use crate::message::spec_parse;
use crate::message::spec_parse_prefix;
use crate::message::spec_parse_rest;
use crate::message::strip_crlf;
use crate::message::MessageView;
use crate::message::ParseError;
use crate::text::all_ws;
use crate::text::is_ws;
use crate::text::lemma_find_absent;
use crate::text::lemma_find_at;

verus! {

/// A plain token: non-empty, free of whitespace, and not opening with the
/// `:` that introduces a trailing argument.
pub open spec fn plain_token(t: Seq<char>) -> bool {
    t.len() > 0 && t[0] != ':' && (forall|i: int| 0 <= i < t.len() ==> !is_ws(t[i]))
}

/// A well-formed origin token: free of spaces, so that the first space of
/// the line is the one that ends it.
pub open spec fn wf_prefix_token(p: Seq<char>) -> bool {
    forall|i: int| 0 <= i < p.len() ==> p[i] != ' '
}

/// Well-formed trailing text: anything without an embedded line break.
pub open spec fn wf_trailing(t: Seq<char>) -> bool {
    forall|i: int| 0 <= i < t.len() ==> t[i] != '\r' && t[i] != '\n'
}

/// Every positional argument is a plain token.
pub open spec fn wf_args(args: Seq<Seq<char>>) -> bool {
    forall|k: int| 0 <= k < args.len() ==> plain_token(args[k])
}

/// The trailing text as the argument it becomes: one final element, or none.
pub open spec fn trailing_args(trailing: Option<Seq<char>>) -> Seq<Seq<char>> {
    match trailing {
        None => Seq::empty(),
        Some(t) => seq![t],
    }
}

/// The wire text of the region after the code token: the arguments separated
/// by single spaces, the trailing text introduced by `:`.
pub open spec fn spec_render_rest(args: Seq<Seq<char>>, trailing: Option<Seq<char>>) -> Seq<char>
    decreases args.len(),
{
    if args.len() == 0 {
        match trailing {
            None => Seq::empty(),
            Some(t) => seq![':'] + t,
        }
    } else if args.len() == 1 && trailing is None {
        args[0]
    } else {
        args[0] + seq![' '] + spec_render_rest(args.drop_first(), trailing)
    }
}

/// The wire text of a whole line built from its fields.
pub open spec fn spec_render(
    prefix: Option<Seq<char>>,
    code: Seq<char>,
    args: Seq<Seq<char>>,
    trailing: Option<Seq<char>>,
) -> Seq<char> {
    (match prefix {
        Some(p) => seq![':'] + p + seq![' '],
        None => Seq::empty(),
    }) + code + (if args.len() == 0 && trailing is None {
        Seq::<char>::empty()
    } else {
        seq![' '] + spec_render_rest(args, trailing)
    })
}

proof fn lemma_render_rest_last(args: Seq<Seq<char>>, trailing: Option<Seq<char>>)
    requires
        wf_args(args),
        args.len() > 0 || trailing is Some,
        trailing matches Some(t) ==> wf_trailing(t),
    ensures
        spec_render_rest(args, trailing).len() > 0,
        spec_render_rest(args, trailing).last() != '\n',
    decreases args.len(),
{
    let r = spec_render_rest(args, trailing);
    if args.len() == 0 {
        let t = trailing->Some_0;
        if t.len() > 0 {
            assert(r.last() == t.last());
        } else {
            assert(r.last() == ':');
        }
    } else if args.len() == 1 && trailing is None {
        assert(plain_token(args[0]));
        assert(!is_ws(r.last()));
    } else {
        lemma_render_rest_last(args.drop_first(), trailing);
        let rest = spec_render_rest(args.drop_first(), trailing);
        assert(r.last() == rest.last());
    }
}

proof fn lemma_args_of_render_rest(args: Seq<Seq<char>>, trailing: Option<Seq<char>>)
    requires
        wf_args(args),
        args.len() > 0 || trailing is Some,
        trailing matches Some(t) ==> wf_trailing(t),
    ensures
        spec_args(spec_render_rest(args, trailing)) == args + trailing_args(trailing),
    decreases args.len(),
{
    let r = spec_render_rest(args, trailing);
    if args.len() == 0 {
        let t = trailing->Some_0;
        assert(r[0] == ':');
        assert(r.subrange(1, r.len() as int) =~= t);
        assert(spec_args(r) =~= args + trailing_args(trailing));
    } else if args.len() == 1 && trailing is None {
        assert(plain_token(args[0]));
        assert(is_ws(' '));
        assert forall|k: int| 0 <= k < r.len() implies r[k] != ' ' by {
            assert(!is_ws(r[k]));
        }
        lemma_find_absent(r, ' ');
        assert(spec_args(r) =~= args + trailing_args(trailing));
    } else {
        let a0 = args[0];
        let rest = spec_render_rest(args.drop_first(), trailing);
        let n0: int = a0.len() as int;
        assert(r[n0] == ' ');
        assert(is_ws(' '));
        assert forall|k: int| 0 <= k < n0 implies r[k] != ' ' by {
            assert(r[k] == a0[k]);
            assert(!is_ws(a0[k]));
        }
        lemma_find_at(r, ' ', a0.len());
        assert(r[0] == a0[0]);
        assert(r[0] != ':');
        assert(r.subrange(0, n0) =~= a0);
        assert(r.subrange(n0 + 1, r.len() as int) =~= rest);
        lemma_args_of_render_rest(args.drop_first(), trailing);
        assert(spec_args(r) == seq![a0] + (args.drop_first() + trailing_args(trailing)));
        assert(seq![a0] + (args.drop_first() + trailing_args(trailing)) =~= args + trailing_args(
            trailing,
        ));
    }
}

/// For every well-formed line — an optional origin token, a code token, any
/// number of plain arguments, an optional trailing text — parsing succeeds
/// and reproduces each field exactly, with no extraneous whitespace: the
/// prefix as the origin token means (an ambiguous token means no prefix, not
/// an error), the code token verbatim, the arguments in wire order, and the
/// trailing text, spaces preserved, as the final argument.
pub proof fn lemma_parse_well_formed(
    prefix: Option<Seq<char>>,
    code: Seq<char>,
    args: Seq<Seq<char>>,
    trailing: Option<Seq<char>>,
)
    requires
        plain_token(code),
        wf_args(args),
        prefix matches Some(p) ==> wf_prefix_token(p),
        trailing matches Some(t) ==> wf_trailing(t),
    ensures
        spec_parse(spec_render(prefix, code, args, trailing)) == Ok::<MessageView, ParseError>(
            (MessageView {
                prefix: match prefix {
                    Some(p) => spec_parse_prefix(p),
                    None => None,
                },
                code: code,
                args: args + trailing_args(trailing),
            }),
        ),
{
    let line = spec_render(prefix, code, args, trailing);
    let head = match prefix {
        Some(p) => seq![':'] + p + seq![' '],
        None => Seq::<char>::empty(),
    };
    let tail = if args.len() == 0 && trailing is None {
        Seq::<char>::empty()
    } else {
        seq![' '] + spec_render_rest(args, trailing)
    };
    assert(line == head + code + tail);

    // The line is not blank: its first character is ':' or the code's first.
    if prefix is Some {
        assert(line[0] == ':');
        assert(!is_ws(line[0]));
    } else {
        assert(line[0] == code[0]);
        assert(!is_ws(line[0]));
    }
    assert(!all_ws(line));

    // The line does not end in a line break, so nothing is stripped.
    let last: int = line.len() - 1;
    if tail.len() > 0 {
        lemma_render_rest_last(args, trailing);
        assert(line[last] == spec_render_rest(args, trailing).last());
    } else {
        assert(line[last] == code.last());
        assert(!is_ws(line[last]));
    }
    assert(line[last] != '\n');
    assert(strip_crlf(line) == line);

    // Splitting off the prefix leaves the code with the argument region.
    let body = code + tail;
    let pv = match prefix {
        Some(p) => spec_parse_prefix(p),
        None => None::<crate::message::PrefixView>,
    };
    if prefix is Some {
        let p = prefix->Some_0;
        let sp: int = 1 + p.len() as int;
        assert(line[sp] == ' ');
        assert forall|k: int| 0 <= k < sp implies line[k] != ' ' by {
            if k == 0 {
                assert(line[0] == ':');
            } else {
                assert(line[k] == p[k - 1]);
            }
        }
        lemma_find_at(line, ' ', (1 + p.len()) as nat);
        assert(line.subrange(1, sp) =~= p);
        assert(line.subrange(sp + 1, line.len() as int) =~= body);
        assert(spec_parse(line) == spec_parse_rest(pv, body));
    } else {
        assert(line =~= body);
        assert(line[0] != ':');
        assert(spec_parse(line) == spec_parse_rest(pv, body));
    }

    // The code token ends at the first space, or takes the whole body.
    assert(is_ws(' '));
    if args.len() == 0 && trailing is None {
        assert(body =~= code);
        assert forall|k: int| 0 <= k < body.len() implies body[k] != ' ' by {
            assert(!is_ws(code[k]));
        }
        lemma_find_absent(body, ' ');
        assert(args + trailing_args(trailing) =~= Seq::<Seq<char>>::empty());
        assert(spec_parse_rest(pv, body) == Ok::<MessageView, ParseError>(
            (MessageView { prefix: pv, code: code, args: args + trailing_args(trailing) }),
        ));
    } else {
        let rest = spec_render_rest(args, trailing);
        let n0: int = code.len() as int;
        assert(body[n0] == ' ');
        assert forall|k: int| 0 <= k < n0 implies body[k] != ' ' by {
            assert(body[k] == code[k]);
            assert(!is_ws(code[k]));
        }
        lemma_find_at(body, ' ', code.len());
        assert(body.subrange(0, n0) =~= code);
        assert(body.subrange(n0 + 1, body.len() as int) =~= rest);
        lemma_args_of_render_rest(args, trailing);
        assert(spec_parse_rest(pv, body) == Ok::<MessageView, ParseError>(
            (MessageView { prefix: pv, code: code, args: args + trailing_args(trailing) }),
        ));
    }
}

/// Determinism: what a line parses to is a function of its characters alone,
/// with no reliance on external or temporal state — identical input always
/// yields identical output.
pub proof fn lemma_parse_deterministic(line1: Seq<char>, line2: Seq<char>)
    requires
        line1 == line2,
    ensures
        spec_parse(line1) == spec_parse(line2),
{
}

} // verus!
