//! The wire encoding: every event leaves as one JSON object that opens with
//! its `type` tag and carries the event's fields beside it. Text, amounts and
//! addresses travel as JSON strings; only the timestamps and the block number
//! travel as numbers, and the flag as a boolean.

use crate::types::{
    ChainEvent, ChainEventView, NormalizedEvent, NormalizedEventView, StreamEvent,
    StreamEventView,
};
use vstd::prelude::*;

verus! {

/// The lower-case hexadecimal digit of a value below 16.
pub open spec fn hex_digit(d: int) -> char {
    "0123456789abcdef"@[d]
}

/// How one character stands inside a JSON string: the quote and the backslash
/// behind a backslash, the control characters by their short escape or as
/// `\u00` and two hexadecimal digits, every other character as itself.
pub open spec fn escaped(c: char) -> Seq<char> {
    if c == '"' {
        seq!['\\', '"']
    } else if c == '\\' {
        seq!['\\', '\\']
    } else if c == '\u{8}' {
        seq!['\\', 'b']
    } else if c == '\t' {
        seq!['\\', 't']
    } else if c == '\n' {
        seq!['\\', 'n']
    } else if c == '\u{c}' {
        seq!['\\', 'f']
    } else if c == '\r' {
        seq!['\\', 'r']
    } else if (c as u32) < 0x20 {
        seq!['\\', 'u', '0', '0', hex_digit((c as u32) as int / 16), hex_digit((c as u32) as int % 16)]
    } else {
        seq![c]
    }
}

/// A text with each of its characters escaped, in order.
pub open spec fn escaped_text(s: Seq<char>) -> Seq<char>
    decreases s.len(),
{
    if s.len() == 0 {
        Seq::<char>::empty()
    } else {
        escaped_text(s.drop_last()) + escaped(s.last())
    }
}

/// A text as a JSON string: escaped, between double quotes.
pub open spec fn quoted(s: Seq<char>) -> Seq<char> {
    "\""@ + escaped_text(s) + "\""@
}

/// The decimal digit of a value below 10.
pub open spec fn digit(d: int) -> char {
    "0123456789"@[d]
}

/// A number in decimal, without sign or leading zeros.
pub open spec fn decimal(n: nat) -> Seq<char>
    decreases n,
{
    if n < 10 {
        seq![digit(n as int)]
    } else {
        decimal(n / 10).push(digit((n % 10) as int))
    }
}

/// A member of an object whose value is a text.
pub open spec fn text_member(name: Seq<char>, value: Seq<char>) -> Seq<char> {
    quoted(name) + ":"@ + quoted(value)
}

/// A member of an object whose value is a number.
pub open spec fn number_member(name: Seq<char>, value: nat) -> Seq<char> {
    quoted(name) + ":"@ + decimal(value)
}

/// A member of an object whose value is a boolean.
pub open spec fn flag_member(name: Seq<char>, value: bool) -> Seq<char> {
    quoted(name) + ":"@ + if value {
        "true"@
    } else {
        "false"@
    }
}

/// An object that opens with the `type` member and goes on with the members
/// given, each of which brings its own leading comma.
pub open spec fn tagged_object(tag: Seq<char>, members: Seq<char>) -> Seq<char> {
    "{"@ + text_member("type"@, tag) + members + "}"@
}

impl StreamEventView {
    /// The members of a stream event, each behind a comma.
    pub open spec fn members(self) -> Seq<char> {
        ","@ + text_member("symbol"@, self.symbol)
            + ","@ + text_member("side"@, self.side)
            + ","@ + text_member("order_type"@, self.order_type)
            + ","@ + text_member("time_in_force"@, self.time_in_force)
            + ","@ + text_member("original_quantity"@, self.original_quantity)
            + ","@ + text_member("filled_quantity"@, self.filled_quantity)
            + ","@ + text_member("cumulative_filled_quantity"@, self.cumulative_filled_quantity)
            + ","@ + text_member("limit_price"@, self.limit_price)
            + ","@ + text_member("average_price"@, self.average_price)
            + ","@ + text_member("status"@, self.status)
            + ","@ + number_member("timestamp"@, self.timestamp as nat)
    }

    /// The object that stands for a stream event on the wire.
    pub open spec fn json(self) -> Seq<char> {
        tagged_object("stream"@, self.members())
    }
}

impl ChainEventView {
    /// The members of a chain event, each behind a comma.
    pub open spec fn members(self) -> Seq<char> {
        ","@ + text_member("collateral_asset"@, self.collateral_asset)
            + ","@ + text_member("debt_asset"@, self.debt_asset)
            + ","@ + text_member("subject"@, self.subject)
            + ","@ + text_member("debt_covered"@, self.debt_covered)
            + ","@ + text_member("collateral_liquidated"@, self.collateral_liquidated)
            + ","@ + text_member("liquidator"@, self.liquidator)
            + ","@ + flag_member("flag"@, self.flag)
            + ","@ + number_member("block_number"@, self.block_number as nat)
            + ","@ + text_member("transaction_hash"@, self.transaction_hash)
            + ","@ + number_member("timestamp"@, self.timestamp as nat)
    }

    /// The object that stands for a chain event on the wire.
    pub open spec fn json(self) -> Seq<char> {
        tagged_object("chain"@, self.members())
    }
}

impl NormalizedEventView {
    /// The object that stands for an event on the wire.
    pub open spec fn json(self) -> Seq<char> {
        match self {
            NormalizedEventView::Stream(event) => event.json(),
            NormalizedEventView::Chain(event) => event.json(),
        }
    }
}

/// Every event's object opens with the `type` member, whose value is the
/// event's tag, and ends with the closing brace.
pub proof fn lemma_json_opens_with_tag(event: NormalizedEventView)
    ensures
        ("{"@ + text_member("type"@, event.tag())).is_prefix_of(event.json()),
        "}"@.is_suffix_of(event.json()),
{
    let head = "{"@ + text_member("type"@, event.tag());
    let members = match event {
        NormalizedEventView::Stream(e) => e.members(),
        NormalizedEventView::Chain(e) => e.members(),
    };
    let whole = event.json();
    assert(whole == head + members + "}"@);
    assert(whole.subrange(0, head.len() as int) =~= head);
    assert(whole.subrange(whole.len() - "}"@.len(), whole.len() as int) =~= "}"@);
}

/// Calls `serde_json::to_string` on a string slice. That call writes a double
/// quote, the slice with `"` and `\` behind a backslash and each byte below
/// 0x20 as `\b`, `\t`, `\n`, `\f`, `\r` or `\u00` with two lower-case
/// hexadecimal digits, every other byte as it is, and a closing double quote,
/// into a vector of its own; for a string slice it has no way to fail.
#[verifier::external_body]
fn json_string(s: &str) -> (r: String)
    ensures
        r@ == quoted(s@),
{
    serde_json::to_string(s).unwrap_or_default()
}

/// The text of one decimal digit.
fn digit_text(d: u64) -> (r: &'static str)
    requires
        d < 10,
    ensures
        r@ == seq![digit(d as int)],
{
    proof {
        reveal_strlit("0123456789");
        reveal_strlit("0");
        reveal_strlit("1");
        reveal_strlit("2");
        reveal_strlit("3");
        reveal_strlit("4");
        reveal_strlit("5");
        reveal_strlit("6");
        reveal_strlit("7");
        reveal_strlit("8");
        reveal_strlit("9");
    }
    let r = if d == 0 {
        "0"
    } else if d == 1 {
        "1"
    } else if d == 2 {
        "2"
    } else if d == 3 {
        "3"
    } else if d == 4 {
        "4"
    } else if d == 5 {
        "5"
    } else if d == 6 {
        "6"
    } else if d == 7 {
        "7"
    } else if d == 8 {
        "8"
    } else {
        "9"
    };
    assert(r@ =~= seq![digit(d as int)]);
    r
}

/// Writes a number in decimal.
pub fn decimal_text(n: u64) -> (r: String)
    ensures
        r@ == decimal(n as nat),
    decreases n,
{
    if n < 10 {
        let r = String::from_str(digit_text(n));
        r
    } else {
        let mut r = decimal_text(n / 10);
        r.append(digit_text(n % 10));
        assert(r@ =~= decimal((n / 10) as nat).push(digit((n % 10) as int)));
        r
    }
}

/// Appends a member whose value is a text.
fn append_text_member(out: &mut String, name: &str, value: &str)
    ensures
        final(out)@ == old(out)@ + text_member(name@, value@),
{
    let key = json_string(name);
    let text = json_string(value);
    let mut member = key;
    member.append(":");
    member.append(text.as_str());
    out.append(member.as_str());
}

/// Appends a member whose value is a number.
fn append_number_member(out: &mut String, name: &str, value: u64)
    ensures
        final(out)@ == old(out)@ + number_member(name@, value as nat),
{
    let key = json_string(name);
    let number = decimal_text(value);
    let mut member = key;
    member.append(":");
    member.append(number.as_str());
    out.append(member.as_str());
}

/// Appends a member whose value is a boolean.
fn append_flag_member(out: &mut String, name: &str, value: bool)
    ensures
        final(out)@ == old(out)@ + flag_member(name@, value),
{
    let key = json_string(name);
    let mut member = key;
    member.append(":");
    if value {
        member.append("true");
    } else {
        member.append("false");
    }
    out.append(member.as_str());
}

/// Closes the members given into an object that opens with the `type` member.
fn tagged_object_text(tag: &str, members: &str) -> (r: String)
    ensures
        r@ == tagged_object(tag@, members@),
{
    let mut r = String::from_str("{");
    append_text_member(&mut r, "type", tag);
    r.append(members);
    r.append("}");
    r
}

impl StreamEvent {
    /// Encodes the event for the wire.
    pub fn to_json(&self) -> (text: String)
        ensures
            text@ == self@.json(),
    {
        let mut out = String::from_str(",");
        append_text_member(&mut out, "symbol", self.symbol.as_str());
        out.append(",");
        append_text_member(&mut out, "side", self.side.as_str());
        out.append(",");
        append_text_member(&mut out, "order_type", self.order_type.as_str());
        out.append(",");
        append_text_member(&mut out, "time_in_force", self.time_in_force.as_str());
        out.append(",");
        append_text_member(&mut out, "original_quantity", self.original_quantity.as_str());
        out.append(",");
        append_text_member(&mut out, "filled_quantity", self.filled_quantity.as_str());
        out.append(",");
        append_text_member(
            &mut out,
            "cumulative_filled_quantity",
            self.cumulative_filled_quantity.as_str(),
        );
        out.append(",");
        append_text_member(&mut out, "limit_price", self.limit_price.as_str());
        out.append(",");
        append_text_member(&mut out, "average_price", self.average_price.as_str());
        out.append(",");
        append_text_member(&mut out, "status", self.status.as_str());
        out.append(",");
        append_number_member(&mut out, "timestamp", self.timestamp);
        tagged_object_text("stream", out.as_str())
    }
}

impl ChainEvent {
    /// Encodes the event for the wire.
    pub fn to_json(&self) -> (text: String)
        ensures
            text@ == self@.json(),
    {
        let mut out = String::from_str(",");
        append_text_member(&mut out, "collateral_asset", self.collateral_asset.as_str());
        out.append(",");
        append_text_member(&mut out, "debt_asset", self.debt_asset.as_str());
        out.append(",");
        append_text_member(&mut out, "subject", self.subject.as_str());
        out.append(",");
        append_text_member(&mut out, "debt_covered", self.debt_covered.as_str());
        out.append(",");
        append_text_member(&mut out, "collateral_liquidated", self.collateral_liquidated.as_str());
        out.append(",");
        append_text_member(&mut out, "liquidator", self.liquidator.as_str());
        out.append(",");
        append_flag_member(&mut out, "flag", self.flag);
        out.append(",");
        append_number_member(&mut out, "block_number", self.block_number);
        out.append(",");
        append_text_member(&mut out, "transaction_hash", self.transaction_hash.as_str());
        out.append(",");
        append_number_member(&mut out, "timestamp", self.timestamp);
        tagged_object_text("chain", out.as_str())
    }
}

impl NormalizedEvent {
    /// Encodes the event for the wire: one JSON object, the `type` tag first.
    pub fn to_json(&self) -> (text: String)
        ensures
            text@ == self@.json(),
    {
        match self {
            NormalizedEvent::Stream(event) => event.to_json(),
            NormalizedEvent::Chain(event) => event.to_json(),
        }
    }
}

} // verus!
