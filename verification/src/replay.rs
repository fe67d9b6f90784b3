//! What holds of one validation after another: a proof is accepted once, and a nonce is
//! good for its whole window.
//!
//! The caches are modelled as maps from texts to the times at which they were put there. An
//! entry is kept for the lifetime of its cache; that a full cache may drop one earlier is
//! left out of the model.

use vstd::prelude::*;

use crate::cache::{JtiCache, NonceCache, NONCE_TTL_SECS};
use crate::dpop::{
    in_window, is_validation, nonce_asked, nonce_error, proof_decision, proof_verdict, Demands,
    ProofDecisionView, ProofView, Validation,
};
use crate::error::DpopErrorView;
use crate::text::outcome;

verus! {

/// What the caches hold: when each `jti` was claimed and when each nonce was issued, in Unix
/// seconds.
#[verifier::ext_equal]
pub struct Seen {
    pub jtis: Map<Seq<char>, u64>,
    pub nonces: Map<Seq<char>, u64>,
}

/// A proof that is presented to the server: what reading it gives, what the request demands
/// of it, when it comes, and the nonce that the server draws if it needs one.
pub struct Presented {
    pub reading: Result<ProofView, DpopErrorView>,
    pub demands: Demands,
    pub now: u64,
    pub new_nonce: Seq<char>,
}

/// Whether an entry is there and not older than `ttl` seconds.
pub open spec fn is_kept(
    entries: Map<Seq<char>, u64>,
    text: Seq<char>,
    now: u64,
    ttl: nat,
) -> bool {
    entries.dom().contains(text) && now < entries[text] + ttl
}

/// Whether the server knows the nonce in a proof.
pub open spec fn is_nonce_known(seen: Seen, presented: Presented) -> bool {
    presented.reading matches Ok(proof) && is_kept(
        seen.nonces,
        nonce_asked(proof.claims),
        presented.now,
        NONCE_TTL_SECS as nat,
    )
}

/// Whether the `jti` of a proof is new.
pub open spec fn is_jti_new(seen: Seen, presented: Presented, ttl: nat) -> bool {
    presented.reading matches Ok(proof) && !is_kept(
        seen.jtis,
        proof.claims.jti,
        presented.now,
        ttl,
    )
}

/// The outcome of validating a proof, where a `jti` is kept for `ttl` seconds.
pub open spec fn verdict_on(seen: Seen, presented: Presented, ttl: nat) -> Result<
    ProofView,
    DpopErrorView,
> {
    proof_verdict(
        presented.reading,
        presented.demands,
        presented.now,
        is_nonce_known(seen, presented),
        presented.new_nonce,
        is_jti_new(seen, presented, ttl),
    )
}

/// What is to be done about a proof that can be read.
pub open spec fn decision_on(seen: Seen, presented: Presented) -> ProofDecisionView {
    match presented.reading {
        Err(error) => ProofDecisionView::Refuse(error),
        Ok(proof) => proof_decision(
            proof,
            presented.demands,
            presented.now,
            is_nonce_known(seen, presented),
        ),
    }
}

/// What the caches hold after a validation.
pub open spec fn seen_after(seen: Seen, presented: Presented, ttl: nat) -> Seen {
    match decision_on(seen, presented) {
        ProofDecisionView::Refuse(_) => seen,
        ProofDecisionView::Challenge => Seen {
            nonces: seen.nonces.insert(presented.new_nonce, presented.now),
            ..seen
        },
        ProofDecisionView::ClaimJti(proof) => if is_jti_new(seen, presented, ttl) {
            Seen { jtis: seen.jtis.insert(proof.claims.jti, presented.now), ..seen }
        } else {
            seen
        },
    }
}

/// What the caches hold after some validations.
pub open spec fn seen_after_all(seen: Seen, all: Seq<Presented>, ttl: nat) -> Seen
    decreases all.len(),
{
    if all.len() == 0 {
        seen
    } else {
        seen_after(seen_after_all(seen, all.drop_last(), ttl), all.last(), ttl)
    }
}

/// Where the caches find what they hold, the outcome of a validation is the verdict, and
/// what was done in the caches is what changes them.
pub proof fn law_validation_follows_the_caches(
    seen: Seen,
    presented: Presented,
    ttl: nat,
    jti_cache: JtiCache,
    nonce_cache: NonceCache,
    validation: Validation,
)
    requires
        is_validation(
            presented.reading,
            presented.demands,
            jti_cache,
            nonce_cache,
            presented.now,
            validation,
        ),
        validation.lookup matches Some(lookup) ==> lookup.found() == is_nonce_known(
            seen,
            presented,
        ),
        validation.issued matches Some(entry) ==> entry.text() == presented.new_nonce,
        validation.claim matches Some(claim) ==> claim.fresh() == is_jti_new(seen, presented, ttl),
    ensures
        outcome(validation.result) == verdict_on(seen, presented, ttl),
        seen_after(seen, presented, ttl) == (Seen {
            jtis: match validation.claim {
                Some(claim) if claim.fresh() => seen.jtis.insert(claim.text(), presented.now),
                _ => seen.jtis,
            },
            nonces: match validation.issued {
                Some(entry) => seen.nonces.insert(entry.text(), presented.now),
                None => seen.nonces,
            },
        }),
{
}

/// Only a proof that is accepted takes a place among the `jti`s, and only a challenge takes
/// one among the nonces: that of the nonce in it.
pub proof fn law_caches_change_as_the_verdict_says(seen: Seen, presented: Presented, ttl: nat)
    ensures
        match verdict_on(seen, presented, ttl) {
            Ok(proof) => presented.reading == Ok::<_, DpopErrorView>(proof) && seen_after(
                seen,
                presented,
                ttl,
            ) == (Seen { jtis: seen.jtis.insert(proof.claims.jti, presented.now), ..seen }),
            Err(error) => seen_after(seen, presented, ttl) == (if decision_on(
                seen,
                presented,
            ) is Challenge {
                Seen { nonces: seen.nonces.insert(presented.new_nonce, presented.now), ..seen }
            } else {
                seen
            }),
        },
        decision_on(seen, presented) is Challenge ==> verdict_on(seen, presented, ttl) == Err::<
            ProofView,
            _,
        >(nonce_error(presented.demands.access_token, presented.new_nonce)),
{
}

/// An entry is not forgotten, nor made older, by the validations that follow.
proof fn lemma_entries_stay(seen: Seen, all: Seq<Presented>, ttl: nat, since: u64)
    requires
        forall|i: int| 0 <= i < all.len() ==> since <= (#[trigger] all[i]).now,
    ensures
        forall|jti: Seq<char>| #[trigger]
            seen.jtis.dom().contains(jti) && seen.jtis[jti] >= since ==> {
                let after = seen_after_all(seen, all, ttl);
                after.jtis.dom().contains(jti) && after.jtis[jti] >= since
            },
        forall|nonce: Seq<char>| #[trigger]
            seen.nonces.dom().contains(nonce) && seen.nonces[nonce] >= since ==> {
                let after = seen_after_all(seen, all, ttl);
                after.nonces.dom().contains(nonce) && after.nonces[nonce] >= since
            },
    decreases all.len(),
{
    if all.len() > 0 {
        assert forall|i: int| 0 <= i < all.drop_last().len() implies since <= (
        #[trigger] all.drop_last()[i]).now by {
            assert(all.drop_last()[i] == all[i]);
        }
        lemma_entries_stay(seen, all.drop_last(), ttl, since);
        assert(since <= all[all.len() - 1].now);
    }
}

/// A proof is accepted once: after it was accepted, and whatever was validated since, it is
/// refused for ever. While its `iat` is in the window it is a replay, as long as the nonce
/// in it is not out of date; after that it is expired. A `jti` has to be kept for longer
/// than twice the clock skew.
pub proof fn law_proof_is_accepted_once(
    seen: Seen,
    first: Presented,
    between: Seq<Presented>,
    second: Presented,
    ttl: nat,
)
    requires
        verdict_on(seen, first, ttl) is Ok,
        second.reading == first.reading,
        second.demands.window == first.demands.window,
        ttl > 2 * first.demands.window,
        forall|i: int| 0 <= i < between.len() ==> first.now <= (#[trigger] between[i]).now,
    ensures
        ({
            let after = seen_after_all(seen_after(seen, first, ttl), between, ttl);
            let iat = first.reading->Ok_0.claims.iat;
            let result = verdict_on(after, second, ttl);
            &&& result is Err
            &&& !in_window(iat, second.now, second.demands.window) ==> result == Err::<
                ProofView,
                _,
            >(DpopErrorView::Expired)
            &&& in_window(iat, second.now, second.demands.window) && second.demands
                == first.demands && (second.demands.nonce_required ==> is_nonce_known(
                after,
                second,
            )) ==> result == Err::<ProofView, _>(DpopErrorView::JtiReplay)
        }),
{
    let claimed = seen_after(seen, first, ttl);
    let jti = first.reading->Ok_0.claims.jti;
    law_caches_change_as_the_verdict_says(seen, first, ttl);
    assert(claimed.jtis.dom().contains(jti) && claimed.jtis[jti] >= first.now);
    lemma_entries_stay(claimed, between, ttl, first.now);
}

/// A nonce is good for its whole window, and more than once: after a challenge with it, and
/// whatever was validated since, a proof that carries it is not challenged again.
pub proof fn law_nonce_is_good_for_its_window(
    seen: Seen,
    first: Presented,
    between: Seq<Presented>,
    second: Presented,
    proof: ProofView,
    ttl: nat,
)
    requires
        decision_on(seen, first) is Challenge,
        second.reading == Ok::<_, DpopErrorView>(proof),
        proof.claims.nonce == Some(first.new_nonce),
        second.now < first.now + NONCE_TTL_SECS,
        forall|i: int| 0 <= i < between.len() ==> first.now <= (#[trigger] between[i]).now,
    ensures
        ({
            let after = seen_after_all(seen_after(seen, first, ttl), between, ttl);
            is_nonce_known(after, second) && !(decision_on(after, second) is Challenge)
        }),
{
    let issued = seen_after(seen, first, ttl);
    assert(issued.nonces.dom().contains(first.new_nonce));
    lemma_entries_stay(issued, between, ttl, first.now);
}

} // verus!
