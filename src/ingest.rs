//! Taking in a sequence of parse outcomes: each certificate that parsed is
//! kept, each that did not is counted, and a source that supplied only
//! unparseable data is refused as a whole.

use crate::error::LoadError;
use vstd::prelude::*;

verus! {

/// How many candidate certificates one pass took in, and how many it skipped.
#[derive(Debug, Clone, Copy, PartialEq, Eq, Structural)]
pub struct IngestionTally {
    pub valid: usize,
    pub invalid: usize,
}

/// The certificates that parsed, in the order they came.
pub open spec fn accepted<C, E>(s: Seq<Result<C, E>>) -> Seq<C>
    decreases s.len(),
{
    if s.len() == 0 {
        Seq::empty()
    } else {
        match s.last() {
            Ok(c) => accepted(s.drop_last()).push(c),
            Err(_) => accepted(s.drop_last()),
        }
    }
}

/// How many candidates failed to parse.
pub open spec fn invalid_count<C, E>(s: Seq<Result<C, E>>) -> nat
    decreases s.len(),
{
    if s.len() == 0 {
        0
    } else {
        invalid_count(s.drop_last()) + if s.last() is Err {
            1nat
        } else {
            0nat
        }
    }
}

/// There was at least one candidate and none of them parsed.
pub open spec fn all_invalid<C, E>(s: Seq<Result<C, E>>) -> bool {
    accepted(s).len() == 0 && invalid_count(s) > 0
}

proof fn lemma_counts_total<C, E>(s: Seq<Result<C, E>>)
    ensures
        accepted(s).len() + invalid_count(s) == s.len(),
    decreases s.len(),
{
    if s.len() > 0 {
        lemma_counts_total(s.drop_last());
    }
}

proof fn lemma_all_failed<C, E>(s: Seq<Result<C, E>>)
    requires
        forall|i: int| 0 <= i < s.len() ==> s[i] is Err,
    ensures
        accepted(s).len() == 0,
        invalid_count(s) == s.len(),
    decreases s.len(),
{
    if s.len() > 0 {
        let t = s.drop_last();
        assert forall|i: int| 0 <= i < t.len() implies t[i] is Err by {
            assert(t[i] == s[i]);
        }
        lemma_all_failed(t);
    }
}

proof fn lemma_some_parsed<C, E>(s: Seq<Result<C, E>>, i: int)
    requires
        0 <= i < s.len(),
        s[i] is Ok,
    ensures
        accepted(s).len() > 0,
    decreases s.len(),
{
    if i < s.len() - 1 {
        let t = s.drop_last();
        assert(t[i] == s[i]);
        lemma_some_parsed(t, i);
    }
}

/// Takes in every candidate in order: those that parsed are handed back, in
/// order, and the tally counts each candidate exactly once.
pub fn ingest<C, E>(certs: Vec<Result<C, E>>) -> (r: (Vec<C>, IngestionTally))
    ensures
        r.0@ == accepted(certs@),
        r.1.valid == accepted(certs@).len(),
        r.1.invalid == invalid_count(certs@),
        r.1.valid + r.1.invalid == certs@.len(),
{
    let ghost all = certs@;
    let total: usize = certs.len();
    let mut kept: Vec<C> = Vec::new();
    let mut valid: usize = 0;
    let mut invalid: usize = 0;
    for cert in it: certs.into_iter()
        invariant
            it.seq() == all,
            kept@ == accepted(all.take(it.index() as int)),
            valid == kept@.len(),
            invalid == invalid_count(all.take(it.index() as int)),
            valid + invalid == it.index(),
            it.index() <= all.len(),
            all.len() == total,
    {
        proof {
            let n = it.index() as int;
            assert(all.take(n + 1).drop_last() == all.take(n));
            assert(all.take(n + 1).last() == all[n]);
        }
        match cert {
            Ok(c) => {
                kept.push(c);
                valid = valid + 1;
            },
            Err(_) => {
                invalid = invalid + 1;
            },
        }
    }
    proof {
        assert(all.take(all.len() as int) == all);
    }
    (kept, IngestionTally { valid, invalid })
}

/// The failure policy: a pass that kept nothing but skipped something is
/// refused; every other pass, an empty one included, stands.
pub fn check_tally(t: &IngestionTally) -> (r: Result<(), LoadError>)
    ensures
        r is Err <==> (t.valid == 0 && t.invalid > 0),
        r is Err ==> r == Err::<(), LoadError>(LoadError::AllCertificatesInvalid),
{
    if t.valid == 0 && t.invalid > 0 {
        Err(LoadError::AllCertificatesInvalid)
    } else {
        Ok(())
    }
}

/// Takes in the parse outcomes of one source and hands back the certificates
/// that parsed, in order, for the trust store; refuses a non-empty source of
/// which nothing parsed.
pub fn load_certs_from_source<C, E>(certs: Vec<Result<C, E>>) -> (r: Result<Vec<C>, LoadError>)
    ensures
        all_invalid(certs@) ==> r == Err::<Vec<C>, LoadError>(LoadError::AllCertificatesInvalid),
        !all_invalid(certs@) ==> (r matches Ok(v) && v@ == accepted(certs@)),
{
    let (kept, tally) = ingest(certs);
    match check_tally(&tally) {
        Ok(()) => Ok(kept),
        Err(e) => Err(e),
    }
}

/// Each candidate is counted once: kept or skipped.
pub proof fn law_tally_covers_input<C, E>(s: Seq<Result<C, E>>)
    ensures
        accepted(s).len() + invalid_count(s) == s.len(),
        accepted(s).len() <= s.len(),
{
    lemma_counts_total(s);
}

/// Where at least one candidate parsed, the source is not refused, and the
/// store is given exactly as many certificates as the tally counts valid.
pub proof fn law_partial_success<C, E>(s: Seq<Result<C, E>>, i: int)
    requires
        0 <= i < s.len(),
        s[i] is Ok,
    ensures
        !all_invalid(s),
        accepted(s).len() > 0,
        accepted(s).len() + invalid_count(s) == s.len(),
{
    lemma_some_parsed(s, i);
    lemma_counts_total(s);
}

/// Where there is at least one candidate and none parses, the source is
/// refused.
pub proof fn law_all_invalid_fails<C, E>(s: Seq<Result<C, E>>)
    requires
        s.len() > 0,
        forall|i: int| 0 <= i < s.len() ==> s[i] is Err,
    ensures
        all_invalid(s),
        invalid_count(s) == s.len(),
{
    lemma_all_failed(s);
}

/// An empty source is no error: it gives an empty store.
pub proof fn law_empty_source_succeeds<C, E>(s: Seq<Result<C, E>>)
    requires
        s.len() == 0,
    ensures
        !all_invalid(s),
        accepted(s) == Seq::<C>::empty(),
        invalid_count(s) == 0,
{
}

} // verus!
