use vstd::prelude::*;
use crate::address::AccountAddress;
use crate::codec::{decode_address_index_address, decode_address_index_two_addresses};

verus! {

/// The type of an event: the account that publishes it, its module and its
/// struct name.
pub struct StructTag {
    pub address: AccountAddress,
    pub module: String,
    pub name: String,
}

/// One event emitted by a transaction, with its encoded payload.
pub struct ContractEvent {
    pub type_tag: StructTag,
    pub data: Vec<u8>,
}

/// What the ledger reports of a finalized transaction.
pub struct TransactionOutcome {
    pub success: bool,
    pub events: Vec<ContractEvent>,
    pub sender: AccountAddress,
}

/// Why no single event payload could be read.
#[derive(Debug, PartialEq, Eq, Structural, Clone, Copy)]
pub enum EventError {
    NotFound,
    Ambiguous,
    Decode,
}

/// What an event type is made of.
pub struct TagView {
    pub address: Seq<u8>,
    pub module: Seq<char>,
    pub name: Seq<char>,
}

impl View for StructTag {
    type V = TagView;

    open spec fn view(&self) -> TagView {
        TagView { address: self.address.bytes@, module: self.module@, name: self.name@ }
    }
}

/// The payloads of the events of type `tag`, in order.
pub open spec fn matching_data(events: Seq<ContractEvent>, tag: TagView) -> Seq<Seq<u8>>
    decreases events.len(),
{
    if events.len() == 0 {
        Seq::empty()
    } else {
        let e = events.last();
        matching_data(events.drop_last(), tag) + if e.type_tag@ == tag {
            seq![e.data@]
        } else {
            Seq::empty()
        }
    }
}

/// The payload of the one event of type `tag`, or why there is none.
pub open spec fn single_event_data(events: Seq<ContractEvent>, tag: TagView) -> Result<Seq<u8>, EventError> {
    let m = matching_data(events, tag);
    if m.len() == 0 {
        Err(EventError::NotFound)
    } else if m.len() > 1 {
        Err(EventError::Ambiguous)
    } else {
        Ok(m[0])
    }
}

/// The account of the framework that publishes collection events (0x4).
pub open spec fn collection_framework() -> Seq<u8> {
    Seq::new(32, |i: int| if i == 31 { 4u8 } else { 0u8 })
}

pub open spec fn framework_tag_view(name: Seq<char>) -> TagView {
    TagView { address: collection_framework(), module: collection_module(), name }
}

pub open spec fn collection_module() -> Seq<char> {
    seq!['c', 'o', 'l', 'l', 'e', 'c', 't', 'i', 'o', 'n']
}

pub open spec fn mint_event_name() -> Seq<char> {
    seq!['M', 'i', 'n', 't']
}

pub open spec fn burn_event_name() -> Seq<char> {
    seq!['B', 'u', 'r', 'n']
}

/// The token that a single mint event names: its payload is the collection
/// (32 bytes), an index (8 bytes) and the token (32 bytes).
pub open spec fn mint_token(events: Seq<ContractEvent>, tag: TagView) -> Result<Seq<u8>, EventError> {
    match single_event_data(events, tag) {
        Err(e) => Err(e),
        Ok(d) => if d.len() == 72 { Ok(d.subrange(40, 72)) } else { Err(EventError::Decode) },
    }
}

/// The token that a single burn event names: its payload is the collection,
/// an index, the token and its previous owner.
pub open spec fn burn_token(events: Seq<ContractEvent>, tag: TagView) -> Result<Seq<u8>, EventError> {
    match single_event_data(events, tag) {
        Err(e) => Err(e),
        Ok(d) => if d.len() == 104 { Ok(d.subrange(40, 72)) } else { Err(EventError::Decode) },
    }
}

pub open spec fn error_text(e: EventError) -> Seq<char> {
    match e {
        EventError::NotFound => "event not found"@,
        EventError::Ambiguous => "more than one matching event"@,
        EventError::Decode => "event payload could not be decoded"@,
    }
}

impl EventError {
    /// The status text that a report line carries for this error.
    pub fn to_text(&self) -> (r: String)
        ensures
            r@ == error_text(*self),
    {
        match self {
            EventError::NotFound => String::from_str("event not found"),
            EventError::Ambiguous => String::from_str("more than one matching event"),
            EventError::Decode => String::from_str("event payload could not be decoded"),
        }
    }
}

impl StructTag {
    pub fn matches(&self, other: &StructTag) -> (r: bool)
        ensures
            r == (self@ == other@),
    {
        self.address.same_as(&other.address) && self.module == other.module && self.name
            == other.name
    }
}

fn framework_tag(name: &str) -> (r: StructTag)
    ensures
        r@ == framework_tag_view(name@),
{
    let address = AccountAddress {
        bytes: [
            0u8, 0u8, 0u8, 0u8, 0u8, 0u8, 0u8, 0u8, 0u8, 0u8, 0u8, 0u8, 0u8, 0u8, 0u8, 0u8,
            0u8, 0u8, 0u8, 0u8, 0u8, 0u8, 0u8, 0u8, 0u8, 0u8, 0u8, 0u8, 0u8, 0u8, 0u8, 4u8,
        ],
    };
    assert(address.bytes@ =~= collection_framework());
    proof {
        reveal_strlit("collection");
        assert("collection"@ =~= collection_module());
    }
    StructTag { address, module: String::from_str("collection"), name: String::from_str(name) }
}

/// The type of the event that the collection framework emits on a mint.
pub fn mint_event_tag() -> (r: StructTag)
    ensures
        r@ == framework_tag_view(mint_event_name()),
{
    proof {
        reveal_strlit("Mint");
        assert("Mint"@ =~= mint_event_name());
    }
    framework_tag("Mint")
}

/// The type of the event that the collection framework emits on a burn.
pub fn burn_event_tag() -> (r: StructTag)
    ensures
        r@ == framework_tag_view(burn_event_name()),
{
    proof {
        reveal_strlit("Burn");
        assert("Burn"@ =~= burn_event_name());
    }
    framework_tag("Burn")
}

/// Finds the one event of type `tag` and returns its payload; fails when
/// none or more than one match.
pub fn search_single_event_data<'a>(events: &'a Vec<ContractEvent>, tag: &StructTag) -> (r: Result<
    &'a Vec<u8>,
    EventError,
>)
    ensures
        match (r, single_event_data(events@, tag@)) {
            (Ok(d), Ok(s)) => d@ == s,
            (Err(e), Err(s)) => e == s,
            _ => false,
        },
{
    let mut count: usize = 0;
    let mut first: usize = 0;
    let mut i: usize = 0;
    while i < events.len()
        invariant
            i <= events@.len(),
            count == matching_data(events@.subrange(0, i as int), tag@).len(),
            count <= i,
            count >= 1 ==> first < i && events@[first as int].data@ == matching_data(
                events@.subrange(0, i as int),
                tag@,
            )[0],
        decreases events@.len() - i,
    {
        proof {
            assert(events@.subrange(0, i + 1).drop_last() =~= events@.subrange(0, i as int));
        }
        if events[i].type_tag.matches(tag) {
            if count == 0 {
                first = i;
            }
            count = count + 1;
        }
        i = i + 1;
    }
    assert(events@.subrange(0, events@.len() as int) =~= events@);
    if count == 0 {
        Err(EventError::NotFound)
    } else if count > 1 {
        Err(EventError::Ambiguous)
    } else {
        Ok(&events[first].data)
    }
}

/// The address of the token that the single mint event among `events` names.
pub fn get_mint_token_addr(events: &Vec<ContractEvent>) -> (r: Result<AccountAddress, EventError>)
    ensures
        match (r, mint_token(events@, framework_tag_view(mint_event_name()))) {
            (Ok(a), Ok(s)) => a.bytes@ == s,
            (Err(e), Err(s)) => e == s,
            _ => false,
        },
{
    let tag = mint_event_tag();
    let r = match search_single_event_data(events, &tag) {
        Err(e) => Err(e),
        Ok(data) => match decode_address_index_address(data) {
            Some(a) => Ok(a),
            None => Err(EventError::Decode),
        },
    };
    r
}

/// The address of the token that the single burn event among `events` names.
pub fn get_burn_token_addr(events: &Vec<ContractEvent>) -> (r: Result<AccountAddress, EventError>)
    ensures
        match (r, burn_token(events@, framework_tag_view(burn_event_name()))) {
            (Ok(a), Ok(s)) => a.bytes@ == s,
            (Err(e), Err(s)) => e == s,
            _ => false,
        },
{
    let tag = burn_event_tag();
    let r = match search_single_event_data(events, &tag) {
        Err(e) => Err(e),
        Ok(data) => match decode_address_index_two_addresses(data) {
            Some(a) => Ok(a),
            None => Err(EventError::Decode),
        },
    };
    r
}

} // verus!
