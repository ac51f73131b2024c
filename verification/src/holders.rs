//! Sums across the holders of one voice: what the holders bought, spent and
//! still hold adds up to what the license counts.

use vstd::prelude::*;
use anchor_lang::prelude::Pubkey;
use crate::ledger::{theorem_holder_balance, theorem_totals_follow_requests, Ledger, Request};
use crate::state::VoiceLicense;

verus! {

/// The sum of `amount` over the holders listed.
pub open spec fn total_over(holders: Seq<Pubkey>, amount: spec_fn(Pubkey) -> int) -> int
    decreases holders.len(),
{
    if holders.len() == 0 {
        0
    } else {
        total_over(holders.drop_last(), amount) + amount(holders.last())
    }
}

impl Ledger {
    /// `holders` lists every holder who has a usage record, and no one twice.
    pub open spec fn listed_by(self, holders: Seq<Pubkey>) -> bool {
        &&& holders.no_duplicates()
        &&& forall|holder: Pubkey| #[trigger]
            self.records.dom().contains(holder) ==> holders.contains(holder)
    }

    /// The number of uses that the holders listed have left to spend.
    pub open spec fn uses_held(self, holders: Seq<Pubkey>) -> int {
        total_over(holders, |holder: Pubkey| self.balance(holder))
    }
}

/// If one amount is the sum of two others for every holder, so are the totals.
proof fn lemma_total_adds(
    holders: Seq<Pubkey>,
    sum: spec_fn(Pubkey) -> int,
    left: spec_fn(Pubkey) -> int,
    right: spec_fn(Pubkey) -> int,
)
    requires
        forall|holder: Pubkey| #[trigger] sum(holder) == left(holder) + right(holder),
    ensures
        total_over(holders, sum) == total_over(holders, left) + total_over(holders, right),
    decreases holders.len(),
{
    if holders.len() > 0 {
        lemma_total_adds(holders.drop_last(), sum, left, right);
    }
}

/// An amount that only `who` has, and that is `value` for them, totals `value`
/// over any list that names `who` once, and nothing over a list that does not.
proof fn lemma_total_of_one(
    holders: Seq<Pubkey>,
    amount: spec_fn(Pubkey) -> int,
    who: Pubkey,
    value: int,
)
    requires
        holders.no_duplicates(),
        forall|holder: Pubkey| #[trigger]
            amount(holder) == if holder == who {
                value
            } else {
                0
            },
    ensures
        total_over(holders, amount) == if holders.contains(who) {
            value
        } else {
            0
        },
    decreases holders.len(),
{
    if holders.len() > 0 {
        let rest = holders.drop_last();
        lemma_total_of_one(rest, amount, who, value);
        if holders.last() == who {
            assert(!rest.contains(who)) by {
                if rest.contains(who) {
                    let i = choose|i: int| 0 <= i < rest.len() && rest[i] == who;
                    assert(holders[i] == holders[holders.len() - 1]);
                }
            }
            assert(holders[holders.len() - 1] == who);
        } else {
            assert(holders.contains(who) == rest.contains(who)) by {
                if holders.contains(who) {
                    let i = choose|i: int| 0 <= i < holders.len() && holders[i] == who;
                    assert(rest[i] == who);
                }
                if rest.contains(who) {
                    let i = choose|i: int| 0 <= i < rest.len() && rest[i] == who;
                    assert(holders[i] == who);
                }
            }
        }
    }
}

/// A list that names every holder after a request named every holder before
/// it: no request removes a usage record.
proof fn lemma_listed_before(ledger: Ledger, request: Request, holders: Seq<Pubkey>)
    requires
        ledger.step(request).listed_by(holders),
    ensures
        ledger.listed_by(holders),
{
    assert forall|holder: Pubkey| #[trigger]
        ledger.records.dom().contains(holder) implies holders.contains(holder) by {
        assert(ledger.step(request).records.dom().contains(holder));
    }
}

/// Over any run of requests, the uses sold are the uses sold to each holder,
/// summed over the holders, and the uses spent are the uses that each holder
/// spent, summed over the holders.
pub proof fn theorem_totals_across_holders(
    ledger: Ledger,
    requests: Seq<Request>,
    holders: Seq<Pubkey>,
)
    requires
        ledger.run(requests).listed_by(holders),
    ensures
        ledger.uses_sold(requests) == total_over(
            holders,
            |holder: Pubkey| ledger.uses_sold_to(requests, holder),
        ),
        ledger.uses_spent(requests) == total_over(
            holders,
            |holder: Pubkey| ledger.uses_spent_by(requests, holder),
        ),
    decreases requests.len(),
{
    let sold_to = |holder: Pubkey| ledger.uses_sold_to(requests, holder);
    let spent_by = |holder: Pubkey| ledger.uses_spent_by(requests, holder);
    if requests.len() == 0 {
        let nothing = arbitrary::<Pubkey>();
        lemma_total_of_one(holders, sold_to, nothing, 0);
        lemma_total_of_one(holders, spent_by, nothing, 0);
    } else {
        let earlier = requests.drop_last();
        let last = requests.last();
        let before = ledger.run(earlier);
        lemma_listed_before(before, last, holders);
        theorem_totals_across_holders(ledger, earlier, holders);

        let sold_to_earlier = |holder: Pubkey| ledger.uses_sold_to(earlier, holder);
        let spent_by_earlier = |holder: Pubkey| ledger.uses_spent_by(earlier, holder);
        let sells_to = |holder: Pubkey| before.sells_to(last, holder);
        let spends_of = |holder: Pubkey| before.spends_of(last, holder);
        lemma_total_adds(holders, sold_to, sold_to_earlier, sells_to);
        lemma_total_adds(holders, spent_by, spent_by_earlier, spends_of);

        let who = match last {
            Request::Buy { buyer, .. } => buyer,
            Request::Use { user } => user,
        };
        lemma_total_of_one(holders, sells_to, who, before.sells(last));
        lemma_total_of_one(holders, spends_of, who, before.spends(last));
        if before.accepts(last) {
            assert(before.step(last).records.dom().contains(who));
            assert(holders.contains(who));
        }
    }
}

/// Over any run of requests no use is made or lost: the uses for sale, the
/// uses that the holders have left and the uses spent add up to what they
/// added up to before.
pub proof fn theorem_uses_are_conserved(
    ledger: Ledger,
    requests: Seq<Request>,
    holders: Seq<Pubkey>,
)
    requires
        ledger.run(requests).listed_by(holders),
    ensures
        ledger.run(requests).license.remaining_uses + ledger.run(requests).uses_held(holders)
            + ledger.run(requests).license.total_uses == ledger.license.remaining_uses
            + ledger.uses_held(holders) + ledger.license.total_uses,
{
    let after = ledger.run(requests);
    let held_after = |holder: Pubkey| after.balance(holder);
    let held_before = |holder: Pubkey| ledger.balance(holder);
    let sold_to = |holder: Pubkey| ledger.uses_sold_to(requests, holder);
    let spent_by = |holder: Pubkey| ledger.uses_spent_by(requests, holder);
    let turnover = |holder: Pubkey| after.balance(holder) + ledger.uses_spent_by(requests, holder);
    assert forall|holder: Pubkey| #[trigger]
        turnover(holder) == held_before(holder) + sold_to(holder) by {
        theorem_holder_balance(ledger, requests, holder);
    }
    lemma_total_adds(holders, turnover, held_after, spent_by);
    lemma_total_adds(holders, turnover, held_before, sold_to);
    theorem_totals_across_holders(ledger, requests, holders);
    theorem_totals_follow_requests(ledger, requests);
}

/// After any run of requests against a voice as registered, every use under
/// the cap is for sale, held or spent: the uses for sale, the uses that the
/// holders have left and the uses counted as spent make up the cap, and the
/// uses counted as spent are what the holders spent, summed over the holders.
pub proof fn theorem_registered_voice_uses(
    license: VoiceLicense,
    requests: Seq<Request>,
    holders: Seq<Pubkey>,
)
    requires
        license.remaining_uses == license.max_uses,
        license.total_uses == 0,
        Ledger::opened(license).run(requests).listed_by(holders),
    ensures
        ({
            let ledger = Ledger::opened(license);
            let after = ledger.run(requests);
            &&& after.license.remaining_uses + after.uses_held(holders) + after.license.total_uses
                == after.license.max_uses
            &&& after.license.total_uses == total_over(
                holders,
                |holder: Pubkey| ledger.uses_spent_by(requests, holder),
            )
        }),
{
    let ledger = Ledger::opened(license);
    theorem_uses_are_conserved(ledger, requests, holders);
    theorem_totals_across_holders(ledger, requests, holders);
    theorem_totals_follow_requests(ledger, requests);
    let held_before = |holder: Pubkey| ledger.balance(holder);
    lemma_total_of_one(holders, held_before, arbitrary::<Pubkey>(), 0);
}

} // verus!
