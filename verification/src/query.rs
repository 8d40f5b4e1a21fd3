//! Serializing a request's parameter list into a query string.
//!
//! Values are not percent-encoded by this layer; callers must pre-encode
//! them if needed.

use vstd::prelude::*;
use vstd::string::StringExecFns;

use crate::parameters::RequestParameter;

verus! {

/// The `name=value` fragment of one parameter.
pub open spec fn spec_fragment(p: RequestParameter) -> Seq<char> {
    p.name@ + seq!['='] + p.value@
}

/// All fragments joined by `&`, in insertion order.
pub open spec fn spec_fragments_joined(params: Seq<RequestParameter>) -> Seq<char>
    decreases params.len(),
{
    if params.len() == 0 {
        Seq::empty()
    } else if params.len() == 1 {
        spec_fragment(params[0])
    } else {
        spec_fragment(params[0]) + seq!['&'] + spec_fragments_joined(params.drop_first())
    }
}

/// The serialized query string: empty for an empty parameter list, else
/// `?` followed by the joined fragments.
pub open spec fn spec_query_string(params: Seq<RequestParameter>) -> Seq<char> {
    if params.len() == 0 {
        Seq::empty()
    } else {
        seq!['?'] + spec_fragments_joined(params)
    }
}

/// One fragment per parameter, each but the first preceded by `&`.
pub open spec fn spec_prefixed_fragments(params: Seq<RequestParameter>) -> Seq<Seq<char>> {
    Seq::new(
        params.len(),
        |i: int|
            if i == 0 {
                spec_fragment(params[i])
            } else {
                seq!['&'] + spec_fragment(params[i])
            },
    )
}

/// Serializing one more parameter appends `&` and its fragment.
proof fn lemma_fragments_joined_push(params: Seq<RequestParameter>, p: RequestParameter)
    requires
        params.len() > 0,
    ensures
        spec_fragments_joined(params.push(p)) == spec_fragments_joined(params) + seq!['&']
            + spec_fragment(p),
    decreases params.len(),
{
    if params.len() == 1 {
        assert(params.push(p).drop_first() =~= seq![p]);
        assert(spec_fragments_joined(seq![p]) == spec_fragment(p));
        assert(params.push(p)[0] == params[0]);
        assert(spec_fragments_joined(params.push(p)) == spec_fragment(params[0]) + seq!['&']
            + spec_fragment(p));
    } else {
        assert(params.push(p).drop_first() =~= params.drop_first().push(p));
        lemma_fragments_joined_push(params.drop_first(), p);
        assert(params.push(p)[0] == params[0]);
        assert(spec_fragment(params[0]) + seq!['&'] + (spec_fragments_joined(params.drop_first())
            + seq!['&'] + spec_fragment(p)) =~= (spec_fragment(params[0]) + seq!['&']
            + spec_fragments_joined(params.drop_first())) + seq!['&'] + spec_fragment(p));
    }
}

/// The joined fragments are the first fragment followed by the flattened
/// `&`-prefixed rest.
proof fn lemma_fragments_joined_flatten(params: Seq<RequestParameter>)
    requires
        params.len() > 0,
    ensures
        spec_fragments_joined(params) == spec_fragment(params[0]) + Seq::new(
            (params.len() - 1) as nat,
            |i: int| seq!['&'] + spec_fragment(params[i + 1]),
        ).flatten(),
    decreases params.len(),
{
    let rest = Seq::new((params.len() - 1) as nat, |i: int| seq!['&'] + spec_fragment(params[i + 1]));
    if params.len() == 1 {
        assert(rest =~= Seq::<Seq<char>>::empty());
        assert(rest.flatten() == Seq::<char>::empty());
        assert(spec_fragment(params[0]) + Seq::<char>::empty() =~= spec_fragment(params[0]));
    } else {
        let tail = params.drop_first();
        lemma_fragments_joined_flatten(tail);
        let rest_tail = Seq::new((tail.len() - 1) as nat, |i: int| seq!['&'] + spec_fragment(tail[i + 1]));
        assert(rest.drop_first() =~= rest_tail);
        assert(rest.flatten() == rest[0] + rest.drop_first().flatten());
        assert(rest[0] == seq!['&'] + spec_fragment(params[1]));
        assert(spec_fragment(params[0]) + (seq!['&'] + spec_fragment(params[1]) + rest_tail.flatten())
            =~= spec_fragment(params[0]) + seq!['&'] + (spec_fragment(params[1])
            + rest_tail.flatten()));
        assert(spec_fragment(params[0]) + rest.flatten() =~= spec_fragment(params[0]) + seq!['&']
            + spec_fragments_joined(tail));
    }
}

/// For every parameter list the serialized query string holds exactly one
/// `name=value` fragment per parameter, in insertion order, joined by `&`,
/// with the first fragment prefixed by `?`; an empty list serializes to
/// nothing.
pub proof fn lemma_query_string_structure(params: Seq<RequestParameter>)
    ensures
        params.len() == 0 ==> spec_query_string(params) == Seq::<char>::empty(),
        params.len() > 0 ==> spec_query_string(params) == seq!['?'] + spec_prefixed_fragments(
            params,
        ).flatten(),
{
    if params.len() > 0 {
        lemma_fragments_joined_flatten(params);
        let all = spec_prefixed_fragments(params);
        let rest = Seq::new((params.len() - 1) as nat, |i: int| seq!['&'] + spec_fragment(params[i + 1]));
        assert(all.drop_first() =~= rest);
        assert(all.flatten() == all[0] + all.drop_first().flatten());
        assert(all[0] == spec_fragment(params[0]));
        assert(all.flatten() == spec_fragments_joined(params));
    }
}

/// Append the serialized query string for `params` to `url`: nothing when
/// the list is empty, else `?` and the `name=value` fragments joined by
/// `&`, in insertion order.
pub fn append_query_string(url: String, params: &Vec<RequestParameter>) -> (r: String)
    ensures
        r@ == url@ + spec_query_string(params@),
{
    let ghost base = url@;
    let mut s = url;
    if params.len() == 0 {
        proof {
            assert(s@ + spec_query_string(params@) =~= s@);
        }
        return s;
    }
    proof {
        reveal_strlit("?");
        reveal_strlit("&");
        reveal_strlit("=");
        assert("?"@ =~= seq!['?']);
        assert("&"@ =~= seq!['&']);
        assert("="@ =~= seq!['=']);
    }
    s.append("?");
    s.append(params[0].name.as_str());
    s.append("=");
    s.append(params[0].value.as_str());
    proof {
        assert(params@.take(1) =~= seq![params@[0]]);
        assert(s@ =~= base + seq!['?'] + spec_fragments_joined(params@.take(1)));
    }
    let mut i: usize = 1;
    while i < params.len()
        invariant
            1 <= i <= params@.len(),
            s@ == base + seq!['?'] + spec_fragments_joined(params@.take(i as int)),
        decreases params@.len() - i,
    {
        proof {
            reveal_strlit("&");
            reveal_strlit("=");
            assert("&"@ =~= seq!['&']);
            assert("="@ =~= seq!['=']);
        }
        s.append("&");
        s.append(params[i].name.as_str());
        s.append("=");
        s.append(params[i].value.as_str());
        proof {
            let taken = params@.take(i as int);
            assert(params@.take(i + 1) =~= taken.push(params@[i as int]));
            lemma_fragments_joined_push(taken, params@[i as int]);
            assert(s@ =~= base + seq!['?'] + spec_fragments_joined(params@.take(i + 1)));
        }
        i = i + 1;
    }
    proof {
        assert(params@.take(params@.len() as int) =~= params@);
        assert(base + seq!['?'] + spec_fragments_joined(params@) =~= base + spec_query_string(
            params@,
        ));
    }
    s
}

} // verus!
