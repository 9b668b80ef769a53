//! The event model: what each feed delivers and the one shape both are
//! brought into before they reach the bus.

use vstd::prelude::*;

verus! {

/// One order of the streaming feed, under the feed's own one-letter names.
#[allow(non_snake_case)]
#[derive(Debug, Clone, PartialEq, Eq)]
pub struct BinanceOrder {
    /// Symbol.
    pub s: String,
    /// Side.
    pub S: String,
    /// Order type.
    pub o: String,
    /// Time in force.
    pub f: String,
    /// Original quantity.
    pub q: String,
    /// Price.
    pub p: String,
    /// Average price.
    pub ap: String,
    /// Order status.
    pub X: String,
    /// Last filled quantity.
    pub l: String,
    /// Accumulated filled quantity.
    pub z: String,
    /// Trade time, in milliseconds.
    pub T: u64,
}

/// One message of the streaming feed: an order and the time of the event.
#[allow(non_snake_case)]
#[derive(Debug, Clone, PartialEq, Eq)]
pub struct BinanceMessage {
    /// Event type.
    pub e: String,
    /// Event time, in milliseconds.
    pub E: u64,
    /// The order.
    pub o: BinanceOrder,
}

/// What a `BinanceOrder` holds, as text and numbers.
#[allow(non_snake_case)]
pub struct BinanceOrderView {
    pub s: Seq<char>,
    pub S: Seq<char>,
    pub o: Seq<char>,
    pub f: Seq<char>,
    pub q: Seq<char>,
    pub p: Seq<char>,
    pub ap: Seq<char>,
    pub X: Seq<char>,
    pub l: Seq<char>,
    pub z: Seq<char>,
    pub T: u64,
}

/// What a `BinanceMessage` holds, as text and numbers.
#[allow(non_snake_case)]
pub struct BinanceMessageView {
    pub e: Seq<char>,
    pub E: u64,
    pub o: BinanceOrderView,
}

impl View for BinanceOrder {
    type V = BinanceOrderView;

    open spec fn view(&self) -> BinanceOrderView {
        BinanceOrderView {
            s: self.s@,
            S: self.S@,
            o: self.o@,
            f: self.f@,
            q: self.q@,
            p: self.p@,
            ap: self.ap@,
            X: self.X@,
            l: self.l@,
            z: self.z@,
            T: self.T,
        }
    }
}

impl View for BinanceMessage {
    type V = BinanceMessageView;

    open spec fn view(&self) -> BinanceMessageView {
        BinanceMessageView { e: self.e@, E: self.E, o: self.o@ }
    }
}

/// An order update of the streaming feed in the relay's own terms. Amounts
/// and prices stay decimal text; the timestamp counts milliseconds.
#[derive(Debug, Clone, PartialEq, Eq)]
pub struct StreamEvent {
    pub symbol: String,
    pub side: String,
    pub order_type: String,
    pub time_in_force: String,
    pub original_quantity: String,
    pub filled_quantity: String,
    pub cumulative_filled_quantity: String,
    pub limit_price: String,
    pub average_price: String,
    pub status: String,
    pub timestamp: u64,
}

/// What a `StreamEvent` holds, as text and numbers.
pub struct StreamEventView {
    pub symbol: Seq<char>,
    pub side: Seq<char>,
    pub order_type: Seq<char>,
    pub time_in_force: Seq<char>,
    pub original_quantity: Seq<char>,
    pub filled_quantity: Seq<char>,
    pub cumulative_filled_quantity: Seq<char>,
    pub limit_price: Seq<char>,
    pub average_price: Seq<char>,
    pub status: Seq<char>,
    pub timestamp: u64,
}

impl View for StreamEvent {
    type V = StreamEventView;

    open spec fn view(&self) -> StreamEventView {
        StreamEventView {
            symbol: self.symbol@,
            side: self.side@,
            order_type: self.order_type@,
            time_in_force: self.time_in_force@,
            original_quantity: self.original_quantity@,
            filled_quantity: self.filled_quantity@,
            cumulative_filled_quantity: self.cumulative_filled_quantity@,
            limit_price: self.limit_price@,
            average_price: self.average_price@,
            status: self.status@,
            timestamp: self.timestamp,
        }
    }
}

impl BinanceMessageView {
    /// The order update that a feed message stands for: the order's fields
    /// under their full names, stamped with the event time.
    pub open spec fn normalized(self) -> StreamEventView {
        StreamEventView {
            symbol: self.o.s,
            side: self.o.S,
            order_type: self.o.o,
            time_in_force: self.o.f,
            original_quantity: self.o.q,
            filled_quantity: self.o.l,
            cumulative_filled_quantity: self.o.z,
            limit_price: self.o.p,
            average_price: self.o.ap,
            status: self.o.X,
            timestamp: self.E,
        }
    }
}

impl BinanceMessage {
    /// Brings a feed message into the relay's shape.
    pub fn normalize(self) -> (event: StreamEvent)
        ensures
            event@ == self@.normalized(),
    {
        let order = self.o;
        StreamEvent {
            symbol: order.s,
            side: order.S,
            order_type: order.o,
            time_in_force: order.f,
            original_quantity: order.q,
            filled_quantity: order.l,
            cumulative_filled_quantity: order.z,
            limit_price: order.p,
            average_price: order.ap,
            status: order.X,
            timestamp: self.E,
        }
    }
}

/// A liquidation log as decoded from the chain, before its block's time is
/// known. Addresses and the hash are hex text, amounts decimal text.
#[derive(Debug, Clone, PartialEq, Eq)]
pub struct DecodedLog {
    pub collateral_asset: String,
    pub debt_asset: String,
    pub subject: String,
    pub debt_covered: String,
    pub collateral_liquidated: String,
    pub liquidator: String,
    /// Whether the liquidator takes the collateral in its interest-bearing form.
    pub flag: bool,
    pub block_number: u64,
    pub transaction_hash: String,
}

/// What a `DecodedLog` holds, as text and numbers.
pub struct DecodedLogView {
    pub collateral_asset: Seq<char>,
    pub debt_asset: Seq<char>,
    pub subject: Seq<char>,
    pub debt_covered: Seq<char>,
    pub collateral_liquidated: Seq<char>,
    pub liquidator: Seq<char>,
    pub flag: bool,
    pub block_number: u64,
    pub transaction_hash: Seq<char>,
}

impl View for DecodedLog {
    type V = DecodedLogView;

    open spec fn view(&self) -> DecodedLogView {
        DecodedLogView {
            collateral_asset: self.collateral_asset@,
            debt_asset: self.debt_asset@,
            subject: self.subject@,
            debt_covered: self.debt_covered@,
            collateral_liquidated: self.collateral_liquidated@,
            liquidator: self.liquidator@,
            flag: self.flag,
            block_number: self.block_number,
            transaction_hash: self.transaction_hash@,
        }
    }
}

/// A liquidation on the chain in the relay's own terms. The timestamp counts
/// seconds and is 0 where the block's time could not be had.
#[derive(Debug, Clone, PartialEq, Eq)]
pub struct ChainEvent {
    pub collateral_asset: String,
    pub debt_asset: String,
    pub subject: String,
    pub debt_covered: String,
    pub collateral_liquidated: String,
    pub liquidator: String,
    /// Whether the liquidator takes the collateral in its interest-bearing form.
    pub flag: bool,
    pub block_number: u64,
    pub transaction_hash: String,
    pub timestamp: u64,
}

/// What a `ChainEvent` holds, as text and numbers.
pub struct ChainEventView {
    pub collateral_asset: Seq<char>,
    pub debt_asset: Seq<char>,
    pub subject: Seq<char>,
    pub debt_covered: Seq<char>,
    pub collateral_liquidated: Seq<char>,
    pub liquidator: Seq<char>,
    pub flag: bool,
    pub block_number: u64,
    pub transaction_hash: Seq<char>,
    pub timestamp: u64,
}

impl View for ChainEvent {
    type V = ChainEventView;

    open spec fn view(&self) -> ChainEventView {
        ChainEventView {
            collateral_asset: self.collateral_asset@,
            debt_asset: self.debt_asset@,
            subject: self.subject@,
            debt_covered: self.debt_covered@,
            collateral_liquidated: self.collateral_liquidated@,
            liquidator: self.liquidator@,
            flag: self.flag,
            block_number: self.block_number,
            transaction_hash: self.transaction_hash@,
            timestamp: self.timestamp,
        }
    }
}

/// The timestamp that stands for "block time unknown".
pub const UNKNOWN_TIMESTAMP: u64 = 0;

impl DecodedLogView {
    /// The event that a log becomes once the lookup of its block's time has
    /// ended: every decoded field as it was, and the time found, or 0.
    pub open spec fn enriched(self, lookup: Option<u64>) -> ChainEventView {
        ChainEventView {
            collateral_asset: self.collateral_asset,
            debt_asset: self.debt_asset,
            subject: self.subject,
            debt_covered: self.debt_covered,
            collateral_liquidated: self.collateral_liquidated,
            liquidator: self.liquidator,
            flag: self.flag,
            block_number: self.block_number,
            transaction_hash: self.transaction_hash,
            timestamp: match lookup {
                Some(seconds) => seconds,
                None => UNKNOWN_TIMESTAMP,
            },
        }
    }
}

impl DecodedLog {
    /// Completes a decoded log with the outcome of the lookup of its block's
    /// time. A failed lookup costs the timestamp and nothing else.
    pub fn enrich(self, lookup: Option<u64>) -> (event: ChainEvent)
        ensures
            event@ == self@.enriched(lookup),
            lookup is None ==> event@.timestamp == 0,
    {
        let timestamp: u64 = match lookup {
            Some(seconds) => seconds,
            None => UNKNOWN_TIMESTAMP,
        };
        ChainEvent {
            collateral_asset: self.collateral_asset,
            debt_asset: self.debt_asset,
            subject: self.subject,
            debt_covered: self.debt_covered,
            collateral_liquidated: self.collateral_liquidated,
            liquidator: self.liquidator,
            flag: self.flag,
            block_number: self.block_number,
            transaction_hash: self.transaction_hash,
            timestamp,
        }
    }
}

/// An event of either feed, as it travels over the bus.
#[derive(Debug, Clone, PartialEq, Eq)]
pub enum NormalizedEvent {
    /// An order update of the streaming feed.
    Stream(StreamEvent),
    /// A liquidation found on the chain.
    Chain(ChainEvent),
}

/// What a `NormalizedEvent` holds, as text and numbers.
pub enum NormalizedEventView {
    Stream(StreamEventView),
    Chain(ChainEventView),
}

impl View for NormalizedEvent {
    type V = NormalizedEventView;

    open spec fn view(&self) -> NormalizedEventView {
        match self {
            NormalizedEvent::Stream(event) => NormalizedEventView::Stream(event@),
            NormalizedEvent::Chain(event) => NormalizedEventView::Chain(event@),
        }
    }
}

impl NormalizedEventView {
    /// The tag by which a consumer tells the two kinds of event apart.
    pub open spec fn tag(self) -> Seq<char> {
        match self {
            NormalizedEventView::Stream(_) => "stream"@,
            NormalizedEventView::Chain(_) => "chain"@,
        }
    }
}

impl NormalizedEvent {
    /// The tag by which a consumer tells the two kinds of event apart:
    /// `stream` or `chain`.
    pub fn tag(&self) -> (tag: &'static str)
        ensures
            tag@ == self@.tag(),
    {
        match self {
            NormalizedEvent::Stream(_) => "stream",
            NormalizedEvent::Chain(_) => "chain",
        }
    }

    /// The event's timestamp: milliseconds for a stream event, seconds for a
    /// chain event.
    pub fn timestamp(&self) -> (timestamp: u64)
        ensures
            timestamp == match self@ {
                NormalizedEventView::Stream(event) => event.timestamp,
                NormalizedEventView::Chain(event) => event.timestamp,
            },
    {
        match self {
            NormalizedEvent::Stream(event) => event.timestamp,
            NormalizedEvent::Chain(event) => event.timestamp,
        }
    }
}

} // verus!
