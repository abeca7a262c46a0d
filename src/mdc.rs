//! The thread's diagnostic context, rendered as a nested JSON object.

use vstd::prelude::*;

use crate::json::{json_quoted, lemma_punctuation, quote_json};

verus! {

/// The entries of a context as pairs of character sequences.
pub open spec fn entries_view(es: Seq<(String, String)>) -> Seq<(Seq<char>, Seq<char>)> {
    es.map_values(|e: (String, String)| (e.0@, e.1@))
}

/// No key occurs twice.
pub open spec fn keys_unique(es: Seq<(Seq<char>, Seq<char>)>) -> bool {
    forall|i: int, j: int| 0 <= i < j < es.len() ==> es[i].0 != es[j].0
}

/// One entry as a JSON member: the quoted key, a colon, the quoted value.
pub open spec fn member(e: (Seq<char>, Seq<char>)) -> Seq<char> {
    json_quoted(e.0) + seq![':'] + json_quoted(e.1)
}

/// The members of the first `n` entries, separated by commas.
pub open spec fn members(es: Seq<(Seq<char>, Seq<char>)>, n: nat) -> Seq<char>
    decreases n,
{
    if n == 0 {
        seq![]
    } else if n == 1 {
        member(es[0])
    } else {
        members(es, (n - 1) as nat) + seq![','] + member(es[n - 1])
    }
}

/// The entries as one JSON object, in the order given.
pub open spec fn mdc_object(es: Seq<(Seq<char>, Seq<char>)>) -> Seq<char> {
    seq!['{'] + members(es, es.len()) + seq!['}']
}

/// Adds one entry to a list of entries.
pub(crate) fn record_entry(entries: &mut Vec<(String, String)>, key: &str, value: &str)
    ensures
        entries_view(final(entries)@) == entries_view(old(entries)@).push((key@, value@)),
{
    entries.push((key.to_owned(), value.to_owned()));
    assert(entries_view(final(entries)@) =~= entries_view(old(entries)@).push((key@, value@)));
}

/// Relies on log_mdc::iter: it calls the closure once for each entry of the
/// calling thread's context, which is a map, so no key comes twice. Which
/// entries there are, and their order, depend on that thread's state.
#[verifier::external_body]
pub(crate) fn current_entries() -> (r: Vec<(String, String)>)
    ensures
        keys_unique(entries_view(r@)),
{
    let mut entries: Vec<(String, String)> = Vec::new();
    log_mdc::iter(|k, v| record_entry(&mut entries, k, v));
    entries
}

/// Appends `entries` to `out` as one JSON object.
///
/// Every entry is visited. After the first key or value that cannot be
/// serialised nothing more is written, the object is left open, and that
/// first error is returned; the entries before it stand in `out` in full.
pub fn write_mdc(out: &mut String, entries: &Vec<(String, String)>) -> (r: Result<
    (),
    serde_json::Error,
>)
    ensures
        r is Ok,
        r is Ok ==> final(out)@ == old(out)@ + mdc_object(entries_view(entries@)),
        r is Err ==> exists|n: nat|
            n < entries@.len() && final(out)@ == old(out)@ + seq!['{'] + members(
                entries_view(entries@),
                n,
            ),
{
    let ghost es = entries_view(entries@);
    proof {
        lemma_punctuation();
    }
    out.append("{");
    let mut failed: Option<serde_json::Error> = None;
    let ghost mut written: nat = 0;
    let mut i: usize = 0;
    while i < entries.len()
        invariant
            i <= entries@.len(),
            es == entries_view(entries@),
            failed is None ==> written == i,
            failed is Some ==> written < i,
            out@ == old(out)@ + seq!['{'] + members(es, written),
            failed is None,
        decreases entries@.len() - i,
    {
        if failed.is_none() {
            let key = quote_json(entries[i].0.as_str());
            let value = quote_json(entries[i].1.as_str());
            match (key, value) {
                (Ok(k), Ok(v)) => {
                    let ghost before = out@;
                    proof {
                        lemma_punctuation();
                    }
                    if i > 0 {
                        out.append(",");
                    }
                    out.append(k.as_str());
                    out.append(":");
                    out.append(v.as_str());
                    proof {
                        if i > 0 {
                            assert(out@ =~= before + seq![','] + (k@ + seq![':'] + v@));
                        } else {
                            assert(out@ =~= before + (k@ + seq![':'] + v@));
                        }
                        written = written + 1;
                        assert(es[i as int] == (entries@[i as int].0@, entries@[i as int].1@));
                        assert(member(es[i as int]) == k@ + seq![':'] + v@);
                        if written == 1 {
                            assert(members(es, written) == member(es[0]));
                        } else {
                            assert(members(es, written) == members(es, (written - 1) as nat)
                                + seq![','] + member(es[i as int]));
                        }
                    }
                    assert(out@ =~= old(out)@ + seq!['{'] + members(es, written));
                },
                (Err(e), _) => {
                    failed = Some(e);
                },
                (_, Err(e)) => {
                    failed = Some(e);
                },
            }
        }
        i = i + 1;
    }
    match failed {
        Some(e) => Err(e),
        None => {
            out.append("}");
            assert(out@ =~= old(out)@ + mdc_object(es));
            Ok(())
        },
    }
}

} // verus!
