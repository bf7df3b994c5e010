//! Gathering a streamed reply.
//!
//! The completion service answers in chunks. A chunk carries any number of
//! deltas, each of which may hold a fragment of text. Every fragment that is
//! not empty is shown at once and added to the reply gathered so far.

use vstd::prelude::*;

verus! {

/// The fragments that a chunk gives to show: the texts of its deltas that
/// hold one and are not empty, in the order of the deltas.
pub open spec fn fragments(deltas: Seq<Option<Seq<char>>>) -> Seq<Seq<char>>
    decreases deltas.len(),
{
    if deltas.len() == 0 {
        Seq::empty()
    } else {
        let before = fragments(deltas.drop_last());
        match deltas.last() {
            Some(text) => if text.len() > 0 {
                before.push(text)
            } else {
                before
            },
            None => before,
        }
    }
}

/// The texts of all the deltas of a chunk that hold one, empty or not.
pub open spec fn texts(deltas: Seq<Option<Seq<char>>>) -> Seq<Seq<char>>
    decreases deltas.len(),
{
    if deltas.len() == 0 {
        Seq::empty()
    } else {
        let before = texts(deltas.drop_last());
        match deltas.last() {
            Some(text) => before.push(text),
            None => before,
        }
    }
}

/// The parts written one after another.
pub open spec fn joined(parts: Seq<Seq<char>>) -> Seq<char>
    decreases parts.len(),
{
    if parts.len() == 0 {
        Seq::empty()
    } else {
        joined(parts.drop_last()) + parts.last()
    }
}

/// What a chunk adds to the reply: its fragments, joined.
pub open spec fn chunk_text(deltas: Seq<Option<Seq<char>>>) -> Seq<char> {
    joined(fragments(deltas))
}

/// What a run of chunks adds to the reply: the text of each, in order.
pub open spec fn stream_text(chunks: Seq<Seq<Option<Seq<char>>>>) -> Seq<char>
    decreases chunks.len(),
{
    if chunks.len() == 0 {
        Seq::empty()
    } else {
        stream_text(chunks.drop_last()) + chunk_text(chunks.last())
    }
}

/// Joining with one more part at the end appends that part.
pub proof fn lemma_joined_push(parts: Seq<Seq<char>>, part: Seq<char>)
    ensures
        joined(parts.push(part)) == joined(parts) + part,
{
    assert(parts.push(part).drop_last() =~= parts);
}

/// A chunk with one more delta at its end: the delta's text is shown and
/// added if it is there and not empty, and otherwise nothing changes.
pub proof fn lemma_fragments_push(deltas: Seq<Option<Seq<char>>>, delta: Option<Seq<char>>)
    ensures
        fragments(deltas.push(delta)) == match delta {
            Some(text) => if text.len() > 0 {
                fragments(deltas).push(text)
            } else {
                fragments(deltas)
            },
            None => fragments(deltas),
        },
{
    assert(deltas.push(delta).drop_last() =~= deltas);
}

/// No fragment that is shown is empty, and each is the text of a delta of
/// the chunk.
pub proof fn lemma_fragments_are_nonempty_texts(deltas: Seq<Option<Seq<char>>>)
    ensures
        forall|i: int|
            0 <= i < fragments(deltas).len() ==> {
                &&& (#[trigger] fragments(deltas)[i]).len() > 0
                &&& deltas.contains(Some(fragments(deltas)[i]))
            },
    decreases deltas.len(),
{
    if deltas.len() > 0 {
        let rest = deltas.drop_last();
        lemma_fragments_are_nonempty_texts(rest);
        assert forall|i: int| 0 <= i < fragments(deltas).len() implies {
            &&& (#[trigger] fragments(deltas)[i]).len() > 0
            &&& deltas.contains(Some(fragments(deltas)[i]))
        } by {
            if i < fragments(rest).len() {
                let f = fragments(rest)[i];
                assert(fragments(deltas)[i] == f);
                let j = choose|j: int| 0 <= j < rest.len() && rest[j] == Some(f);
                assert(deltas[j] == Some(f));
            } else {
                assert(deltas[deltas.len() - 1] == deltas.last());
            }
        }
    }
}

/// Leaving the empty texts out changes nothing in what is gathered: the
/// fragments of a chunk join to the same text as all the texts of its deltas.
pub proof fn lemma_chunk_text_is_all_texts(deltas: Seq<Option<Seq<char>>>)
    ensures
        chunk_text(deltas) == joined(texts(deltas)),
    decreases deltas.len(),
{
    if deltas.len() > 0 {
        let rest = deltas.drop_last();
        lemma_chunk_text_is_all_texts(rest);
        match deltas.last() {
            Some(text) => {
                lemma_joined_push(texts(rest), text);
                if text.len() > 0 {
                    lemma_joined_push(fragments(rest), text);
                } else {
                    assert(joined(texts(rest)) + text =~= joined(texts(rest)));
                }
            },
            None => {},
        }
    }
}

/// A chunk with one delta adds the text of that delta, if it has one.
pub proof fn lemma_chunk_text_single(delta: Option<Seq<char>>)
    ensures
        chunk_text(seq![delta]) == match delta {
            Some(text) => text,
            None => Seq::empty(),
        },
{
    let deltas = seq![delta];
    assert(deltas.drop_last() =~= Seq::empty());
    assert(deltas.last() == delta);
    assert(fragments(deltas.drop_last()) =~= Seq::empty());
    match delta {
        Some(text) => {
            if text.len() > 0 {
                lemma_joined_push(Seq::empty(), text);
                assert(Seq::<char>::empty() + text =~= text);
            } else {
                assert(text =~= Seq::empty());
            }
        },
        None => {},
    }
}

/// A stream that brings one text with each chunk gathers these texts in the
/// order in which they came: the reply is the texts written one after
/// another.
pub proof fn lemma_stream_text_of_parts(parts: Seq<Seq<char>>)
    ensures
        stream_text(parts.map_values(|p: Seq<char>| seq![Some(p)])) == joined(parts),
    decreases parts.len(),
{
    let chunks = parts.map_values(|p: Seq<char>| seq![Some(p)]);
    if parts.len() > 0 {
        lemma_stream_text_of_parts(parts.drop_last());
        assert(chunks.drop_last() =~= parts.drop_last().map_values(|p: Seq<char>| seq![Some(p)]));
        assert(chunks.last() == seq![Some(parts.last())]);
        lemma_chunk_text_single(Some(parts.last()));
    }
}

/// Takes in one chunk: adds each of its fragments to `reply`, and returns
/// the fragments, in order, for the caller to show.
pub fn absorb(reply: &mut String, deltas: &Vec<Option<String>>) -> (shown: Vec<String>)
    ensures
        shown.deep_view() == fragments(deltas.deep_view()),
        final(reply)@ == old(reply)@ + chunk_text(deltas.deep_view()),
{
    let mut shown: Vec<String> = Vec::new();
    let mut i: usize = 0;
    assert(deltas.deep_view().take(0) =~= Seq::empty());
    assert(shown.deep_view() =~= Seq::empty());
    assert(reply@ + Seq::<char>::empty() =~= reply@);
    while i < deltas.len()
        invariant
            i <= deltas.len(),
            shown.deep_view() == fragments(deltas.deep_view().take(i as int)),
            reply@ == old(reply)@ + chunk_text(deltas.deep_view().take(i as int)),
        decreases deltas.len() - i,
    {
        let ghost seen = deltas.deep_view().take(i as int);
        let ghost delta = deltas.deep_view()[i as int];
        proof {
            assert(deltas.deep_view().take(i + 1) =~= seen.push(delta));
            lemma_fragments_push(seen, delta);
            assert(delta == deltas@[i as int].deep_view());
        }
        match &deltas[i] {
            Some(text) => {
                if !text.as_str().is_empty() {
                    let ghost before = shown.deep_view();
                    reply.append(text.as_str());
                    shown.push(text.clone());
                    proof {
                        assert(shown.deep_view() =~= before.push(text@));
                        lemma_joined_push(fragments(seen), text@);
                        assert(reply@ =~= old(reply)@ + (chunk_text(seen) + text@));
                    }
                }
            },
            None => {},
        }
        i = i + 1;
    }
    assert(deltas.deep_view().take(i as int) =~= deltas.deep_view());
    shown
}

} // verus!
