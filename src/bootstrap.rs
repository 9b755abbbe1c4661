use vstd::prelude::*;
use vstd::string::StringSliceAdditionalSpecFns;
use vstd::utf8::{encode_utf8, encode_scalar};
use crate::address::AccountAddress;
use crate::builders::{EntryFunction, args_view};
use crate::codec::{
    MAX_SEQUENCE_LENGTH, bool_encoding, decode_address_pair_flag, encode_address, encode_bool,
    encode_option_u64, encode_str, encode_str_list, encode_u64_list, option_u64_encoding,
    str_encoding, str_list_encoding, u64_list_encoding,
};
use crate::events::{ContractEvent, EventError, StructTag, TagView, TransactionOutcome, single_event_data, search_single_event_data};
use crate::ident::{Identifier, ModuleId, ModuleIdView};

verus! {

broadcast use vstd::string::is_ascii_spec_bytes;

/// The configuration that the contract reports when it creates a collection.
#[derive(Clone, Copy)]
pub struct CollectionConfig {
    pub collection_config: AccountAddress,
    pub collection: AccountAddress,
    pub ready_to_mint: bool,
}

/// Why the bootstrap of a collection stopped.
#[derive(Debug, PartialEq, Eq, Structural, Clone, Copy)]
pub enum BootstrapError {
    /// The ledger finalized the transaction with a failure status.
    TransactionRejected,
    /// The creation succeeded but its configuration event could not be read.
    Event(EventError),
}

pub open spec fn collection_name(suffix: Seq<char>) -> Seq<char> {
    "Test Collection "@ + suffix
}

/// The arguments of the creation call, in the order the contract declares
/// them: name, description, URI, token name prefix, token description, token
/// URIs and their weights, four mutability and burn flags, the maximum supply
/// and an absent royalty.
pub open spec fn create_collection_args(suffix: Seq<char>) -> Seq<Seq<u8>> {
    seq![
        str_encoding(collection_name(suffix)),
        str_encoding("collection description"@),
        str_encoding("htpps://some.collection.uri.test"@),
        str_encoding("test token #"@),
        str_encoding("test token description"@),
        str_list_encoding(seq!["htpps://some.uri1.test"@, "htpps://some.uri2.test"@]),
        u64_list_encoding(seq![10u64, 1u64]),
        bool_encoding(true),
        bool_encoding(true),
        bool_encoding(true),
        bool_encoding(false),
        option_u64_encoding(Some(1000000u64)),
        option_u64_encoding(None),
        option_u64_encoding(None),
    ]
}

/// The type of the event that announces a new collection's configuration.
pub open spec fn config_event_tag(m: ModuleIdView) -> TagView {
    TagView { address: m.address, module: m.name, name: "CreateCollectionConfig"@ }
}

/// The configuration read from the creation's events, or why it cannot be read.
pub open spec fn config_from_events(events: Seq<ContractEvent>, m: ModuleIdView) -> Result<Seq<u8>, EventError> {
    match single_event_data(events, config_event_tag(m)) {
        Err(e) => Err(e),
        Ok(d) => if d.len() == 65 && d[64] <= 1 { Ok(d) } else { Err(EventError::Decode) },
    }
}

proof fn lemma_encode_utf8_concat(a: Seq<char>, b: Seq<char>)
    ensures
        encode_utf8(a + b) == encode_utf8(a) + encode_utf8(b),
    decreases a.len(),
{
    if a.len() == 0 {
        assert(a + b =~= b);
        assert(encode_utf8(a) =~= Seq::<u8>::empty());
        assert(encode_utf8(a) + encode_utf8(b) =~= encode_utf8(b));
    } else {
        assert((a + b).drop_first() =~= a.drop_first() + b);
        assert((a + b)[0] == a[0]);
        lemma_encode_utf8_concat(a.drop_first(), b);
        assert(encode_utf8(a + b) =~= encode_scalar(a[0] as u32) + (encode_utf8(a.drop_first()) + encode_utf8(b)));
    }
}

fn literal_encoding(s: &str) -> (r: Vec<u8>)
    requires
        s.is_ascii(),
        s@.len() <= 64,
    ensures
        r@ == str_encoding(s@),
{
    assert(s.spec_bytes().len() == s@.len());
    encode_str(s)
}

/// The call that creates a collection named `Test Collection ` and `suffix`.
pub fn create_collection_call(contract_module: &ModuleId, suffix: &str) -> (r: EntryFunction)
    requires
        encode_utf8(suffix@).len() + 16 <= MAX_SEQUENCE_LENGTH,
    ensures
        r.module@ == contract_module@,
        r.function@ == "create_collection"@,
        args_view(r.args@) == create_collection_args(suffix@),
{
    let prefix = "Test Collection ";
    proof {
        reveal_strlit("Test Collection ");
    }
    assert(prefix.is_ascii());
    assert(prefix.spec_bytes().len() == 16);
    let mut name = String::from_str(prefix);
    name.append(suffix);
    proof {
        lemma_encode_utf8_concat(prefix@, suffix@);
    }
    proof { reveal_strlit("create_collection"); }
    let function = Identifier::known("create_collection");
    let mut args: Vec<Vec<u8>> = Vec::new();
    args.push(encode_str(name.as_str()));
    proof { reveal_strlit("collection description"); }
    args.push(literal_encoding("collection description"));
    proof { reveal_strlit("htpps://some.collection.uri.test"); }
    args.push(literal_encoding("htpps://some.collection.uri.test"));
    proof { reveal_strlit("test token #"); }
    args.push(literal_encoding("test token #"));
    proof { reveal_strlit("test token description"); }
    args.push(literal_encoding("test token description"));
    proof {
        reveal_strlit("htpps://some.uri1.test");
        reveal_strlit("htpps://some.uri2.test");
    }
    assert("htpps://some.uri1.test".is_ascii());
    assert("htpps://some.uri1.test".spec_bytes().len() == 22);
    assert("htpps://some.uri2.test".is_ascii());
    assert("htpps://some.uri2.test".spec_bytes().len() == 22);
    let uris: Vec<&str> = vec!["htpps://some.uri1.test", "htpps://some.uri2.test"];
    assert(uris@.map_values(|s: &str| s@) =~= seq!["htpps://some.uri1.test"@, "htpps://some.uri2.test"@]);
    args.push(encode_str_list(&uris));
    let weights: Vec<u64> = vec![10u64, 1u64];
    assert(weights@ =~= seq![10u64, 1u64]);
    args.push(encode_u64_list(&weights));
    args.push(encode_bool(true));
    args.push(encode_bool(true));
    args.push(encode_bool(true));
    args.push(encode_bool(false));
    args.push(encode_option_u64(Some(1000000u64)));
    args.push(encode_option_u64(None));
    args.push(encode_option_u64(None));
    assert(args_view(args@) =~= create_collection_args(suffix@));
    EntryFunction { module: contract_module.copy(), function, args }
}

/// The type of the configuration event that `contract_module` emits.
pub fn config_event_tag_of(contract_module: &ModuleId) -> (r: StructTag)
    ensures
        r@ == config_event_tag(contract_module@),
{
    proof { reveal_strlit("CreateCollectionConfig"); }
    StructTag {
        address: contract_module.address,
        module: String::from_str(contract_module.name.as_str()),
        name: String::from_str("CreateCollectionConfig"),
    }
}

/// Reads the one configuration event among `events`: the configuration
/// object (32 bytes), the collection (32 bytes) and the minting flag.
pub fn read_collection_config(events: &Vec<ContractEvent>, contract_module: &ModuleId) -> (r: Result<
    CollectionConfig,
    EventError,
>)
    ensures
        match (r, config_from_events(events@, contract_module@)) {
            (Ok(c), Ok(d)) => c.collection_config.bytes@ == d.subrange(0, 32)
                && c.collection.bytes@ == d.subrange(32, 64) && c.ready_to_mint == (d[64] == 1),
            (Err(e), Err(s)) => e == s,
            _ => false,
        },
{
    let tag = config_event_tag_of(contract_module);
    match search_single_event_data(events, &tag) {
        Err(e) => Err(e),
        Ok(data) => match decode_address_pair_flag(data) {
            Some(v) => Ok(
                CollectionConfig { collection_config: v.first, collection: v.second, ready_to_mint: v.flag },
            ),
            None => Err(EventError::Decode),
        },
    }
}

/// The call that opens minting on the collection at `collection`.
pub fn set_minting_status_call(contract_module: &ModuleId, collection: &AccountAddress) -> (r: EntryFunction)
    ensures
        r.module@ == contract_module@,
        r.function@ == "set_minting_status"@,
        args_view(r.args@) == seq![collection.bytes@, bool_encoding(true)],
{
    proof { reveal_strlit("set_minting_status"); }
    let args = vec![encode_address(collection), encode_bool(true)];
    assert(args_view(args@) =~= seq![collection.bytes@, bool_encoding(true)]);
    EntryFunction {
        module: contract_module.copy(),
        function: Identifier::known("set_minting_status"),
        args,
    }
}

/// Decides what follows the finalized creation: a rejection, a missing or
/// unreadable configuration event, or the activation call, which targets the
/// configuration address that the event reports and nothing else.
pub fn on_create_finalized(contract_module: &ModuleId, outcome: &TransactionOutcome) -> (r: Result<
    (AccountAddress, EntryFunction),
    BootstrapError,
>)
    ensures
        !outcome.success ==> r matches Err(BootstrapError::TransactionRejected),
        outcome.success ==> match (r, config_from_events(outcome.events@, contract_module@)) {
            (Ok((a, call)), Ok(d)) => a.bytes@ == d.subrange(0, 32) && call.module@
                == contract_module@ && call.function@ == "set_minting_status"@ && args_view(
                call.args@,
            ) == seq![d.subrange(0, 32), bool_encoding(true)],
            (Err(BootstrapError::Event(e)), Err(s)) => e == s,
            _ => false,
        },
{
    if !outcome.success {
        return Err(BootstrapError::TransactionRejected);
    }
    match read_collection_config(&outcome.events, contract_module) {
        Err(e) => Err(BootstrapError::Event(e)),
        Ok(config) => {
            let call = set_minting_status_call(contract_module, &config.collection_config);
            Ok((config.collection_config, call))
        },
    }
}

/// Decides the end of the bootstrap once the activation is finalized: the
/// collection's address, or a rejection.
pub fn on_activate_finalized(collection: AccountAddress, outcome: &TransactionOutcome) -> (r: Result<
    AccountAddress,
    BootstrapError,
>)
    ensures
        outcome.success ==> r == Ok::<AccountAddress, BootstrapError>(collection),
        !outcome.success ==> r == Err::<AccountAddress, BootstrapError>(BootstrapError::TransactionRejected),
{
    if outcome.success {
        Ok(collection)
    } else {
        Err(BootstrapError::TransactionRejected)
    }
}

} // verus!
