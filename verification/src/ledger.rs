//! The ledger of one voice over time: its license, the usage records of its
//! holders, and what holds of them after any sequence of requests.
//!
//! The ledger is a model. Its steps are the transitions of `buy_usage` and
//! `use_voice`, applied to the records that a store hands over for the voice
//! and the caller; the theorems below say what every run of such steps keeps.

use vstd::prelude::*;
use anchor_lang::prelude::Pubkey;
use crate::consume::{after_use, consume_error, UseVoice};
use crate::purchase::{
    after_purchase, lemma_cost_adds_up, purchase_cost, purchase_error, BuyUsage,
};
use crate::state::{UsageRecord, VoiceLicense};

verus! {

/// A request made against the license of one voice.
pub enum Request {
    /// `buyer` asks to buy `uses` uses and names `payee` as the one to pay.
    /// `bump` is the bump seed of the address of the buyer's usage record.
    Buy { buyer: Pubkey, payee: Pubkey, uses: u32, bump: u8 },
    /// `user` asks to spend one use.
    Use { user: Pubkey },
}

/// The license of one voice and the usage records of its holders, by holder.
pub struct Ledger {
    /// The license of the voice.
    pub license: VoiceLicense,
    /// The usage record of every holder who has bought uses of the voice.
    pub records: Map<Pubkey, UsageRecord>,
}

impl Ledger {
    /// The ledger of a voice that has just been registered: no one holds uses.
    pub open spec fn opened(license: VoiceLicense) -> Ledger {
        Ledger { license, records: Map::empty() }
    }

    /// The license is well formed, its earnings are the price of the uses
    /// sold, and every usage record names the voice and its holder.
    pub open spec fn consistent(self) -> bool {
        &&& self.license.well_formed()
        &&& self.license.books_balance()
        &&& forall|holder: Pubkey| #[trigger]
            self.records.dom().contains(holder) ==> self.records[holder].belongs_to(
                self.license.nft_mint,
                holder,
            )
    }

    /// The number of uses that `holder` has left to spend.
    pub open spec fn balance(self, holder: Pubkey) -> int {
        if self.records.dom().contains(holder) {
            self.records[holder].remaining_uses as int
        } else {
            0
        }
    }

    /// The records that a store hands to a purchase by `buyer`: the license,
    /// and the buyer's usage record, which is a new one with no uses if the
    /// buyer has none.
    pub open spec fn buy_context(self, buyer: Pubkey, payee: Pubkey, bump: u8) -> BuyUsage {
        BuyUsage {
            buyer,
            creator: payee,
            voice_license: self.license,
            usage_record: if self.records.dom().contains(buyer) {
                self.records[buyer]
            } else {
                UsageRecord { voice_mint: self.license.nft_mint, buyer, remaining_uses: 0, bump }
            },
            usage_record_bump: bump,
        }
    }

    /// The records that a store hands to a consumption by `user`, who has a
    /// usage record.
    pub open spec fn use_context(self, user: Pubkey) -> UseVoice {
        UseVoice { user, voice_license: self.license, usage_record: self.records[user] }
    }

    /// The request is accepted if made now. A consumption by someone without a
    /// usage record is not.
    pub open spec fn accepts(self, request: Request) -> bool {
        match request {
            Request::Buy { buyer, payee, uses, bump } => purchase_error(
                self.buy_context(buyer, payee, bump),
                uses,
            ) is None,
            Request::Use { user } => self.records.dom().contains(user) && consume_error(
                self.use_context(user),
            ) is None,
        }
    }

    /// The ledger after the request: as the operation leaves the records if it
    /// accepts the request, and unchanged if it rejects it.
    pub open spec fn step(self, request: Request) -> Ledger {
        if !self.accepts(request) {
            self
        } else {
            match request {
                Request::Buy { buyer, payee, uses, bump } => {
                    let after = after_purchase(self.buy_context(buyer, payee, bump), uses);
                    Ledger {
                        license: after.voice_license,
                        records: self.records.insert(buyer, after.usage_record),
                    }
                },
                Request::Use { user } => {
                    let after = after_use(self.use_context(user));
                    Ledger {
                        license: after.voice_license,
                        records: self.records.insert(user, after.usage_record),
                    }
                },
            }
        }
    }

    /// The ledger after the requests, made one after the other.
    pub open spec fn run(self, requests: Seq<Request>) -> Ledger
        decreases requests.len(),
    {
        if requests.len() == 0 {
            self
        } else {
            self.run(requests.drop_last()).step(requests.last())
        }
    }

    /// The number of uses that the request sells to `buyer` if made now.
    pub open spec fn sells_to(self, request: Request, holder: Pubkey) -> int {
        match request {
            Request::Buy { buyer, uses, .. } => if self.accepts(request) && buyer == holder {
                uses as int
            } else {
                0
            },
            Request::Use { .. } => 0,
        }
    }

    /// The number of uses that the request sells if made now.
    pub open spec fn sells(self, request: Request) -> int {
        match request {
            Request::Buy { uses, .. } => if self.accepts(request) {
                uses as int
            } else {
                0
            },
            Request::Use { .. } => 0,
        }
    }

    /// What the request pays the creator if made now.
    pub open spec fn pays(self, request: Request) -> int {
        match request {
            Request::Buy { uses, .. } => if self.accepts(request) {
                purchase_cost(self.license.price_per_use, uses)
            } else {
                0
            },
            Request::Use { .. } => 0,
        }
    }

    /// The number of uses that the request spends if made now: one or none.
    pub open spec fn spends(self, request: Request) -> int {
        match request {
            Request::Buy { .. } => 0,
            Request::Use { .. } => if self.accepts(request) {
                1
            } else {
                0
            },
        }
    }

    /// The number of uses of `holder` that the request spends if made now.
    pub open spec fn spends_of(self, request: Request, holder: Pubkey) -> int {
        match request {
            Request::Buy { .. } => 0,
            Request::Use { user } => if self.accepts(request) && user == holder {
                1
            } else {
                0
            },
        }
    }

    /// The number of uses sold over the run of the requests.
    pub open spec fn uses_sold(self, requests: Seq<Request>) -> int
        decreases requests.len(),
    {
        if requests.len() == 0 {
            0
        } else {
            self.uses_sold(requests.drop_last()) + self.run(requests.drop_last()).sells(
                requests.last(),
            )
        }
    }

    /// What buyers paid the creator over the run of the requests.
    pub open spec fn amount_paid(self, requests: Seq<Request>) -> int
        decreases requests.len(),
    {
        if requests.len() == 0 {
            0
        } else {
            self.amount_paid(requests.drop_last()) + self.run(requests.drop_last()).pays(
                requests.last(),
            )
        }
    }

    /// The number of uses spent over the run of the requests, by any holder.
    pub open spec fn uses_spent(self, requests: Seq<Request>) -> int
        decreases requests.len(),
    {
        if requests.len() == 0 {
            0
        } else {
            self.uses_spent(requests.drop_last()) + self.run(requests.drop_last()).spends(
                requests.last(),
            )
        }
    }

    /// The number of uses sold to `holder` over the run of the requests.
    pub open spec fn uses_sold_to(self, requests: Seq<Request>, holder: Pubkey) -> int
        decreases requests.len(),
    {
        if requests.len() == 0 {
            0
        } else {
            self.uses_sold_to(requests.drop_last(), holder) + self.run(
                requests.drop_last(),
            ).sells_to(requests.last(), holder)
        }
    }

    /// The number of uses that `holder` spent over the run of the requests.
    pub open spec fn uses_spent_by(self, requests: Seq<Request>, holder: Pubkey) -> int
        decreases requests.len(),
    {
        if requests.len() == 0 {
            0
        } else {
            self.uses_spent_by(requests.drop_last(), holder) + self.run(
                requests.drop_last(),
            ).spends_of(requests.last(), holder)
        }
    }
}

/// Over any run of requests the license keeps its terms, the uses sold come
/// out of its pool, what was paid comes into its earnings, and the uses spent
/// are counted: each total moves by exactly what the accepted requests moved.
pub proof fn theorem_totals_follow_requests(ledger: Ledger, requests: Seq<Request>)
    ensures
        ledger.license.same_terms(ledger.run(requests).license),
        ledger.run(requests).license.remaining_uses + ledger.uses_sold(requests)
            == ledger.license.remaining_uses,
        ledger.run(requests).license.total_earnings == ledger.license.total_earnings
            + ledger.amount_paid(requests),
        ledger.run(requests).license.total_uses == ledger.license.total_uses + ledger.uses_spent(
            requests,
        ),
        ledger.amount_paid(requests) == ledger.license.price_per_use * ledger.uses_sold(requests),
    decreases requests.len(),
{
    let price = ledger.license.price_per_use as int;
    if requests.len() == 0 {
        assert(price * 0 == 0);
    } else {
        let earlier = requests.drop_last();
        theorem_totals_follow_requests(ledger, earlier);
        let before = ledger.run(earlier);
        let sold = ledger.uses_sold(earlier);
        let sells = before.sells(requests.last());
        assert(price * (sold + sells) == price * sold + price * sells) by (nonlinear_arith);
        assert(price * 0 == 0);
    }
}

/// After any run of requests against a voice as registered, the uses sold and
/// the uses still for sale make up the cap, the earnings are what the buyers
/// paid, which is the price of the uses sold, and the uses counted are the uses
/// that the holders spent.
pub proof fn theorem_registered_voice_accounts(license: VoiceLicense, requests: Seq<Request>)
    requires
        license.remaining_uses == license.max_uses,
        license.total_earnings == 0,
        license.total_uses == 0,
    ensures
        ({
            let ledger = Ledger::opened(license);
            let now = ledger.run(requests).license;
            &&& ledger.uses_sold(requests) + now.remaining_uses == now.max_uses
            &&& now.total_earnings == ledger.amount_paid(requests)
            &&& now.total_earnings == now.price_per_use * ledger.uses_sold(requests)
            &&& now.total_uses == ledger.uses_spent(requests)
            &&& now.books_balance()
        }),
{
    theorem_totals_follow_requests(Ledger::opened(license), requests);
}

/// A consistent ledger stays consistent over any run of requests.
pub proof fn theorem_ledger_stays_consistent(ledger: Ledger, requests: Seq<Request>)
    requires
        ledger.consistent(),
    ensures
        ledger.run(requests).consistent(),
    decreases requests.len(),
{
    if requests.len() > 0 {
        theorem_ledger_stays_consistent(ledger, requests.drop_last());
        let before = ledger.run(requests.drop_last());
        match requests.last() {
            Request::Buy { uses, .. } => {
                lemma_cost_adds_up(
                    before.license.price_per_use as int,
                    before.license.sold(),
                    uses as int,
                );
            },
            Request::Use { .. } => {},
        }
    }
}

/// The ledger of a voice as registered is consistent, if its terms are valid.
pub proof fn theorem_opened_ledger_is_consistent(license: VoiceLicense)
    requires
        license.well_formed(),
        license.remaining_uses == license.max_uses,
        license.total_earnings == 0,
    ensures
        Ledger::opened(license).consistent(),
{
    assert(license.sold() == 0);
    assert(license.price_per_use * 0 == 0);
}

/// In a consistent ledger a holder who has a use left may spend it, unless the
/// count of uses is at its limit; and a purchase by one who names the creator
/// as payee, of uses that the license has left, is accepted unless it would
/// take the price, the buyer's uses or the earnings out of range.
pub proof fn theorem_who_is_served(ledger: Ledger, request: Request)
    requires
        ledger.consistent(),
    ensures
        match request {
            Request::Use { user } => ledger.accepts(request) <==> ledger.balance(user) > 0
                && ledger.license.total_uses < u32::MAX,
            Request::Buy { buyer, payee, uses, .. } => ledger.accepts(request) <==> {
                &&& payee == ledger.license.creator
                &&& 0 < uses <= ledger.license.remaining_uses
                &&& purchase_cost(ledger.license.price_per_use, uses) + ledger.license.total_earnings
                    <= u64::MAX
                &&& ledger.balance(buyer) + uses <= u32::MAX
            },
        },
{
}

/// A purchase of more uses than the license has left is rejected, and so is a
/// consumption by a holder with no use left or with no usage record. A
/// rejected request leaves the license and every usage record as they were.
pub proof fn theorem_rejected_request_changes_nothing(ledger: Ledger, request: Request)
    ensures
        !ledger.accepts(request) ==> ledger.step(request) == ledger,
        request matches Request::Buy { uses, .. } && uses > ledger.license.remaining_uses
            ==> !ledger.accepts(request),
        request matches Request::Use { user } && ledger.balance(user) == 0 ==> !ledger.accepts(
            request,
        ),
{
}

/// A request touches the usage record of the one who makes it and no other.
pub proof fn theorem_request_touches_own_record(ledger: Ledger, request: Request, other: Pubkey)
    requires
        match request {
            Request::Buy { buyer, .. } => buyer != other,
            Request::Use { user } => user != other,
        },
    ensures
        ledger.step(request).records.dom().contains(other) == ledger.records.dom().contains(other),
        ledger.records.dom().contains(other) ==> ledger.step(request).records[other]
            == ledger.records[other],
{
}

/// Over any run of requests the uses that a holder has left are the uses they
/// had and the uses they bought, less the uses they spent.
pub proof fn theorem_holder_balance(ledger: Ledger, requests: Seq<Request>, holder: Pubkey)
    ensures
        ledger.run(requests).balance(holder) + ledger.uses_spent_by(requests, holder)
            == ledger.balance(holder) + ledger.uses_sold_to(requests, holder),
    decreases requests.len(),
{
    if requests.len() > 0 {
        theorem_holder_balance(ledger, requests.drop_last(), holder);
    }
}

} // verus!
