//! What the events alone tell: an observer who notes every event of a voice
//! keeps the same totals as the records do, without reading a record.

use vstd::prelude::*;
use anchor_lang::prelude::Pubkey;
use crate::consume::use_proof;
use crate::events::{UsagePurchased, VoiceInitialized, VoiceUsed};
use crate::ledger::{Ledger, Request};
use crate::purchase::purchase_order;
use crate::register::{registered_license, InitializeVoice};

verus! {

/// An event of a voice after its registration.
pub enum Event {
    /// A buyer bought uses.
    Purchased(UsagePurchased),
    /// A holder spent a use.
    Used(VoiceUsed),
}

/// The running totals of one voice, as an observer of its events keeps them.
pub struct Tally {
    /// The number of uses still for sale.
    pub remaining_uses: int,
    /// What the buyers have paid the creator.
    pub total_earnings: int,
    /// The number of uses spent.
    pub total_uses: int,
    /// The number of uses that each holder has left.
    pub held: Map<Pubkey, int>,
}

impl Tally {
    /// The totals that the records of the ledger show.
    pub open spec fn of(ledger: Ledger) -> Tally {
        Tally {
            remaining_uses: ledger.license.remaining_uses as int,
            total_earnings: ledger.license.total_earnings as int,
            total_uses: ledger.license.total_uses as int,
            held: Map::new(
                |holder: Pubkey| ledger.records.dom().contains(holder),
                |holder: Pubkey| ledger.balance(holder),
            ),
        }
    }

    /// The totals that the event of a registration gives: every use is for
    /// sale, nothing has been paid or spent, and no one holds a use.
    pub open spec fn started_by(registered: VoiceInitialized) -> Tally {
        Tally {
            remaining_uses: registered.max_uses as int,
            total_earnings: 0,
            total_uses: 0,
            held: Map::empty(),
        }
    }

    /// The number of uses that the tally shows for `holder`.
    pub open spec fn balance(self, holder: Pubkey) -> int {
        if self.held.dom().contains(holder) {
            self.held[holder]
        } else {
            0
        }
    }

    /// The tally after the observer has noted `event`. A purchase gives the
    /// uses left for sale, adds what was paid to the earnings and what was
    /// bought to the buyer's uses; a use gives the count of uses and what the
    /// holder has left.
    pub open spec fn note(self, event: Event) -> Tally {
        match event {
            Event::Purchased(bought) => Tally {
                remaining_uses: bought.remaining_available as int,
                total_earnings: self.total_earnings + bought.amount_paid,
                held: self.held.insert(
                    bought.buyer,
                    self.balance(bought.buyer) + bought.uses_purchased,
                ),
                ..self
            },
            Event::Used(used) => Tally {
                total_uses: used.total_uses as int,
                held: self.held.insert(used.user, used.remaining_uses as int),
                ..self
            },
        }
    }

    /// The tally after the observer has noted the events in turn.
    pub open spec fn replay(self, events: Seq<Event>) -> Tally
        decreases events.len(),
    {
        if events.len() == 0 {
            self
        } else {
            self.replay(events.drop_last()).note(events.last())
        }
    }
}

impl Ledger {
    /// The event that the request has published if it is accepted now.
    pub open spec fn publishes(self, request: Request) -> Event {
        match request {
            Request::Buy { buyer, payee, uses, bump } => Event::Purchased(
                purchase_order(self.buy_context(buyer, payee, bump), uses).event,
            ),
            Request::Use { user } => Event::Used(use_proof(self.use_context(user))),
        }
    }

    /// The events published over the run of the requests, one for each
    /// request accepted, in their order.
    pub open spec fn events(self, requests: Seq<Request>) -> Seq<Event>
        decreases requests.len(),
    {
        if requests.len() == 0 {
            Seq::empty()
        } else {
            let earlier = self.events(requests.drop_last());
            let before = self.run(requests.drop_last());
            if before.accepts(requests.last()) {
                earlier.push(before.publishes(requests.last()))
            } else {
                earlier
            }
        }
    }
}

/// The event of a registration gives the totals of the voice as registered.
pub proof fn theorem_registration_starts_the_tally(
    ctx: InitializeVoice,
    price_per_use: u64,
    max_uses: u32,
    license_type: u8,
    resale_allowed: bool,
    royalty_bps: u16,
    registered: VoiceInitialized,
)
    requires
        registered.max_uses == max_uses,
    ensures
        Tally::started_by(registered) == Tally::of(
            Ledger::opened(
                registered_license(
                    ctx,
                    price_per_use,
                    max_uses,
                    license_type,
                    resale_allowed,
                    royalty_bps,
                ),
            ),
        ),
{
    let license = registered_license(
        ctx,
        price_per_use,
        max_uses,
        license_type,
        resale_allowed,
        royalty_bps,
    );
    assert(Tally::started_by(registered).held =~= Tally::of(Ledger::opened(license)).held);
}

/// Noting the event of an accepted request moves the tally as the request
/// moves the records.
pub proof fn theorem_event_tells_the_step(ledger: Ledger, request: Request)
    requires
        ledger.accepts(request),
    ensures
        Tally::of(ledger).note(ledger.publishes(request)) == Tally::of(ledger.step(request)),
{
    let noted = Tally::of(ledger).note(ledger.publishes(request));
    let stepped = Tally::of(ledger.step(request));
    assert(noted.held =~= stepped.held);
}

/// The events of any run of requests are enough to keep the totals: an
/// observer who starts from the totals before the run and notes each event
/// ends with the totals that the records show after it.
pub proof fn theorem_events_tell_the_totals(ledger: Ledger, requests: Seq<Request>)
    ensures
        Tally::of(ledger).replay(ledger.events(requests)) == Tally::of(ledger.run(requests)),
    decreases requests.len(),
{
    if requests.len() > 0 {
        let earlier = requests.drop_last();
        let before = ledger.run(earlier);
        theorem_events_tell_the_totals(ledger, earlier);
        if before.accepts(requests.last()) {
            let event = before.publishes(requests.last());
            let events = ledger.events(earlier).push(event);
            assert(events.drop_last() =~= ledger.events(earlier));
            assert(events.last() == event);
            theorem_event_tells_the_step(before, requests.last());
        }
    }
}

} // verus!
