use vstd::prelude::*;
use crate::address::{AccountAddress, full_hex, hex_of, is_special, standard_form};
use crate::codec::encode_address;
use crate::events::{
    EventError, TransactionOutcome, error_text, framework_tag_view, mint_event_name,
    burn_event_name, mint_token, burn_token, get_mint_token_addr, get_burn_token_addr,
};
use crate::ident::{Identifier, InvalidIdentifier, ModuleId, ModuleIdView, valid_identifier, get_module_id};

verus! {

/// A call of a published function: its module, its name, and its arguments,
/// each already encoded.
pub struct EntryFunction {
    pub module: ModuleId,
    pub function: Identifier,
    pub args: Vec<Vec<u8>>,
}

pub open spec fn args_view(args: Seq<Vec<u8>>) -> Seq<Seq<u8>> {
    args.map_values(|a: Vec<u8>| a@)
}

/// A transaction to sign: who sends it, who co-signs it, and what it calls.
pub struct TransactionRequest {
    pub sender: AccountAddress,
    pub secondary_signers: Vec<AccountAddress>,
    pub payload: EntryFunction,
}

pub open spec fn success_text() -> Seq<char> {
    seq!['s', 'u', 'c', 'c', 'e', 's', 's']
}

pub open spec fn missing_text() -> Seq<char> {
    seq!['m', 'i', 's', 's', 'i', 'n', 'g']
}

/// Four fields joined by tabs.
pub open spec fn join4(a: Seq<char>, b: Seq<char>, c: Seq<char>, d: Seq<char>) -> Seq<char> {
    a + seq!['\t'] + b + seq!['\t'] + c + seq!['\t'] + d
}

/// The minted token field and the status of a mint report.
pub open spec fn mint_result(txn_out: Option<TransactionOutcome>) -> (Seq<char>, Seq<char>) {
    match txn_out {
        None => (Seq::empty(), missing_text()),
        Some(o) => match mint_token(o.events@, framework_tag_view(mint_event_name())) {
            Ok(t) => (standard_form(t), success_text()),
            Err(e) => (Seq::empty(), error_text(e)),
        },
    }
}

/// The refund field and the status of a burn report.
pub open spec fn burn_result(txn_out: Option<TransactionOutcome>) -> (Seq<char>, Seq<char>) {
    match txn_out {
        None => (Seq::empty(), missing_text()),
        Some(o) => match burn_token(o.events@, framework_tag_view(burn_event_name())) {
            Ok(_) => (standard_form(o.sender.bytes@), success_text()),
            Err(e) => (Seq::empty(), error_text(e)),
        },
    }
}

/// The report line of a mint: minted token, collection, recipient, status.
pub open spec fn mint_line(collection: Seq<u8>, recipient: Seq<u8>, txn_out: Option<TransactionOutcome>) -> Seq<char> {
    let (token, status) = mint_result(txn_out);
    join4(token, standard_form(collection), full_hex(recipient), status)
}

/// The report line of a burn: refund recipient, token, collection, status.
pub open spec fn burn_line(token: Seq<u8>, collection: Seq<u8>, txn_out: Option<TransactionOutcome>) -> Seq<char> {
    let (refund, status) = burn_result(txn_out);
    join4(refund, standard_form(token), standard_form(collection), status)
}

/// Appends a tab and then `field` to `line`.
fn push_field(line: &mut String, field: &str)
    ensures
        final(line)@ == old(line)@ + seq!['\t'] + field@,
{
    proof {
        reveal_strlit("\t");
        assert("\t"@ =~= seq!['\t']);
    }
    line.append("\t");
    line.append(field);
}

fn success_string() -> (r: String)
    ensures
        r@ == success_text(),
{
    proof {
        reveal_strlit("success");
        assert("success"@ =~= success_text());
    }
    String::from_str("success")
}

fn missing_string() -> (r: String)
    ensures
        r@ == missing_text(),
{
    proof {
        reveal_strlit("missing");
        assert("missing"@ =~= missing_text());
    }
    String::from_str("missing")
}

/// Builds the mint calls of one collection: each sends one token of it to
/// one recipient.
pub struct NftMintSignedTransactionBuilder {
    pub contract_module: ModuleId,
    pub mint_entry_fun: Identifier,
    pub collection_owner_address: AccountAddress,
}

impl NftMintSignedTransactionBuilder {
    /// Fails exactly when the module name or the function name is not a valid
    /// identifier.
    pub fn new(
        contract_address: AccountAddress,
        contract_module_name: &str,
        mint_entry_fun: &str,
        collection_owner_address: AccountAddress,
    ) -> (r: Result<Self, InvalidIdentifier>)
        ensures
            r is Ok <==> valid_identifier(contract_module_name@) && valid_identifier(mint_entry_fun@),
            r matches Ok(b) ==> b.contract_module@ == (ModuleIdView {
                address: contract_address.bytes@,
                name: contract_module_name@,
            }) && b.mint_entry_fun@ == mint_entry_fun@ && b.collection_owner_address
                == collection_owner_address,
    {
        let contract_module = match get_module_id(contract_address, contract_module_name) {
            Ok(m) => m,
            Err(e) => return Err(e),
        };
        let mint_entry_fun = match Identifier::new(mint_entry_fun) {
            Ok(f) => f,
            Err(e) => return Err(e),
        };
        Ok(NftMintSignedTransactionBuilder { contract_module, mint_entry_fun, collection_owner_address })
    }

    /// The mint of one token to `data`, sent and signed by `sender` alone;
    /// its two arguments are the collection and the recipient, in that order.
    pub fn build(&self, data: &AccountAddress, sender: &AccountAddress) -> (r: TransactionRequest)
        ensures
            r.sender == *sender,
            r.secondary_signers@.len() == 0,
            r.payload.module@ == self.contract_module@,
            r.payload.function@ == self.mint_entry_fun@,
            args_view(r.payload.args@) == seq![self.collection_owner_address.bytes@, data.bytes@],
    {
        let args = vec![encode_address(&self.collection_owner_address), encode_address(data)];
        assert(args_view(args@) =~= seq![self.collection_owner_address.bytes@, data.bytes@]);
        TransactionRequest {
            sender: *sender,
            secondary_signers: Vec::new(),
            payload: EntryFunction {
                module: self.contract_module.copy(),
                function: self.mint_entry_fun.copy(),
                args,
            },
        }
    }

    /// The report line for the mint to `data`: the minted token, the
    /// collection, the recipient and the status, tab-separated.
    pub fn success_output(&self, data: &AccountAddress, txn_out: &Option<TransactionOutcome>) -> (r: String)
        ensures
            r@ == mint_line(self.collection_owner_address.bytes@, data.bytes@, *txn_out),
    {
        let (status, token) = match txn_out {
            Some(o) => match get_mint_token_addr(&o.events) {
                Ok(dst) => (success_string(), dst.to_standard_string()),
                Err(e) => (e.to_text(), String::new()),
            },
            None => (missing_string(), String::new()),
        };
        let mut line = token;
        let collection = self.collection_owner_address.to_standard_string();
        push_field(&mut line, collection.as_str());
        let recipient = data.to_hex();
        push_field(&mut line, recipient.as_str());
        push_field(&mut line, status.as_str());
        line
    }
}

/// Builds the burn calls of tokens: each is sent by the token's holder and
/// co-signed by the collection's administrator.
pub struct NftBurnSignedTransactionBuilder {
    pub admin_address: AccountAddress,
    pub contract_module: ModuleId,
    pub burn_entry_fun: Identifier,
}

impl NftBurnSignedTransactionBuilder {
    /// Fails exactly when the module name or the function name is not a valid
    /// identifier.
    pub fn new(
        contract_address: AccountAddress,
        contract_module_name: &str,
        burn_entry_fun: &str,
        admin_address: AccountAddress,
    ) -> (r: Result<Self, InvalidIdentifier>)
        ensures
            r is Ok <==> valid_identifier(contract_module_name@) && valid_identifier(burn_entry_fun@),
            r matches Ok(b) ==> b.contract_module@ == (ModuleIdView {
                address: contract_address.bytes@,
                name: contract_module_name@,
            }) && b.burn_entry_fun@ == burn_entry_fun@ && b.admin_address == admin_address,
    {
        let contract_module = match get_module_id(contract_address, contract_module_name) {
            Ok(m) => m,
            Err(e) => return Err(e),
        };
        let burn_entry_fun = match Identifier::new(burn_entry_fun) {
            Ok(f) => f,
            Err(e) => return Err(e),
        };
        Ok(NftBurnSignedTransactionBuilder { admin_address, contract_module, burn_entry_fun })
    }

    /// The burn of token `data.0` of collection `data.1`, sent by `sender`
    /// and co-signed by the administrator; its two arguments are the
    /// collection and the token, in that order.
    pub fn build(&self, data: &(AccountAddress, AccountAddress), sender: &AccountAddress) -> (r: TransactionRequest)
        ensures
            r.sender == *sender,
            r.secondary_signers@ == seq![self.admin_address],
            r.payload.module@ == self.contract_module@,
            r.payload.function@ == self.burn_entry_fun@,
            args_view(r.payload.args@) == seq![data.1.bytes@, data.0.bytes@],
    {
        let args = vec![encode_address(&data.1), encode_address(&data.0)];
        assert(args_view(args@) =~= seq![data.1.bytes@, data.0.bytes@]);
        let secondary_signers = vec![self.admin_address];
        TransactionRequest {
            sender: *sender,
            secondary_signers,
            payload: EntryFunction {
                module: self.contract_module.copy(),
                function: self.burn_entry_fun.copy(),
                args,
            },
        }
    }

    /// The report line for the burn of `data`: the refund recipient, the
    /// token, the collection and the status, tab-separated.
    pub fn success_output(&self, data: &(AccountAddress, AccountAddress), txn_out: &Option<TransactionOutcome>) -> (r: String)
        ensures
            r@ == burn_line(data.0.bytes@, data.1.bytes@, *txn_out),
    {
        let (status, refund_addr) = match txn_out {
            Some(o) => match get_burn_token_addr(&o.events) {
                Ok(_) => (success_string(), o.sender.to_standard_string()),
                Err(e) => (e.to_text(), String::new()),
            },
            None => (missing_string(), String::new()),
        };
        let mut line = refund_addr;
        let token = data.0.to_standard_string();
        push_field(&mut line, token.as_str());
        let collection = data.1.to_standard_string();
        push_field(&mut line, collection.as_str());
        push_field(&mut line, status.as_str());
        line
    }
}

/// How many tabs `s` holds.
pub open spec fn tab_count(s: Seq<char>) -> nat
    decreases s.len(),
{
    if s.len() == 0 {
        0
    } else {
        tab_count(s.drop_last()) + if s.last() == '\t' { 1nat } else { 0nat }
    }
}

pub open spec fn tab_free(s: Seq<char>) -> bool {
    forall|i: int| 0 <= i < s.len() ==> #[trigger] s[i] != '\t'
}

proof fn lemma_tab_count_concat(a: Seq<char>, b: Seq<char>)
    ensures
        tab_count(a + b) == tab_count(a) + tab_count(b),
    decreases b.len(),
{
    if b.len() > 0 {
        assert((a + b).drop_last() =~= a + b.drop_last());
        lemma_tab_count_concat(a, b.drop_last());
    } else {
        assert(a + b =~= a);
    }
}

proof fn lemma_tab_free_count(s: Seq<char>)
    requires
        tab_free(s),
    ensures
        tab_count(s) == 0,
    decreases s.len(),
{
    if s.len() > 0 {
        lemma_tab_free_count(s.drop_last());
    }
}

proof fn lemma_hex_tab_free(b: Seq<u8>)
    ensures
        tab_free(hex_of(b)),
    decreases b.len(),
{
    if b.len() > 0 {
        lemma_hex_tab_free(b.drop_last());
    }
}

proof fn lemma_address_forms_tab_free(b: Seq<u8>)
    ensures
        tab_free(full_hex(b)),
        tab_free(standard_form(b)),
{
    lemma_hex_tab_free(b);
    let h = hex_of(b);
    if !is_special(b) {
        assert forall|i: int| 0 <= i < standard_form(b).len() implies #[trigger] standard_form(b)[i]
            != '\t' by {
            if i >= 2 {
                assert(standard_form(b)[i] == h[i - 2]);
            }
        }
    }
}

proof fn lemma_error_text_tab_free(e: EventError)
    ensures
        tab_free(error_text(e)),
{
    reveal_strlit("event not found");
    reveal_strlit("more than one matching event");
    reveal_strlit("event payload could not be decoded");
}

proof fn lemma_join4_tabs(a: Seq<char>, b: Seq<char>, c: Seq<char>, d: Seq<char>)
    requires
        tab_free(a),
        tab_free(b),
        tab_free(c),
        tab_free(d),
    ensures
        tab_count(join4(a, b, c, d)) == 3,
{
    let t = seq!['\t'];
    assert(tab_count(t) == 1) by {
        assert(t.drop_last() =~= Seq::<char>::empty());
        assert(tab_count(t.drop_last()) == 0);
        assert(t.last() == '\t');
    }
    lemma_tab_free_count(a);
    lemma_tab_free_count(b);
    lemma_tab_free_count(c);
    lemma_tab_free_count(d);
    lemma_tab_count_concat(a, t);
    lemma_tab_count_concat(a + t, b);
    lemma_tab_count_concat(a + t + b, t);
    lemma_tab_count_concat(a + t + b + t, c);
    lemma_tab_count_concat(a + t + b + t + c, t);
    lemma_tab_count_concat(a + t + b + t + c + t, d);
}

/// Every report line, of a mint or of a burn, holds exactly four
/// tab-separated fields, whether or not an outcome was observed and whatever
/// the event search found.
pub proof fn report_lines_have_four_fields(
    collection: Seq<u8>,
    recipient: Seq<u8>,
    token: Seq<u8>,
    txn_out: Option<TransactionOutcome>,
)
    ensures
        tab_count(mint_line(collection, recipient, txn_out)) == 3,
        tab_count(burn_line(token, collection, txn_out)) == 3,
{
    lemma_address_forms_tab_free(collection);
    lemma_address_forms_tab_free(recipient);
    lemma_address_forms_tab_free(token);
    assert(tab_free(Seq::<char>::empty()));
    assert(tab_free(success_text()));
    assert(tab_free(missing_text()));
    if let Some(o) = txn_out {
        lemma_address_forms_tab_free(o.sender.bytes@);
        match mint_token(o.events@, framework_tag_view(mint_event_name())) {
            Ok(t) => lemma_address_forms_tab_free(t),
            Err(e) => lemma_error_text_tab_free(e),
        }
        match burn_token(o.events@, framework_tag_view(burn_event_name())) {
            Ok(_) => {},
            Err(e) => lemma_error_text_tab_free(e),
        }
    }
    let (m0, m3) = mint_result(txn_out);
    lemma_join4_tabs(m0, standard_form(collection), full_hex(recipient), m3);
    let (b0, b3) = burn_result(txn_out);
    lemma_join4_tabs(b0, standard_form(token), standard_form(collection), b3);
}

/// Without an outcome the status is `missing` and the field read from events
/// is empty; the fields known before submission are still written.
pub proof fn absent_outcome_reports_missing(collection: Seq<u8>, recipient: Seq<u8>, token: Seq<u8>)
    ensures
        mint_line(collection, recipient, None) == join4(
            Seq::empty(),
            standard_form(collection),
            full_hex(recipient),
            missing_text(),
        ),
        burn_line(token, collection, None) == join4(
            Seq::empty(),
            standard_form(token),
            standard_form(collection),
            missing_text(),
        ),
{
}

/// With an outcome whose expected event is found, the status is `success` and
/// every field is written: the minted token, or for a burn the sender, who is
/// refunded.
pub proof fn found_event_reports_success(
    collection: Seq<u8>,
    recipient: Seq<u8>,
    token: Seq<u8>,
    o: TransactionOutcome,
)
    ensures
        mint_token(o.events@, framework_tag_view(mint_event_name())) matches Ok(t) ==> mint_line(
            collection,
            recipient,
            Some(o),
        ) == join4(standard_form(t), standard_form(collection), full_hex(recipient), success_text())
            && standard_form(t).len() > 2,
        burn_token(o.events@, framework_tag_view(burn_event_name())) is Ok ==> burn_line(
            token,
            collection,
            Some(o),
        ) == join4(
            standard_form(o.sender.bytes@),
            standard_form(token),
            standard_form(collection),
            success_text(),
        ) && standard_form(o.sender.bytes@).len() > 2,
{
}

/// With an outcome whose expected event is missing, ambiguous or malformed,
/// the status is the error's text and the field read from events is empty,
/// while the fields known before submission are still written.
pub proof fn failed_search_reports_error(
    collection: Seq<u8>,
    recipient: Seq<u8>,
    token: Seq<u8>,
    o: TransactionOutcome,
)
    ensures
        mint_token(o.events@, framework_tag_view(mint_event_name())) matches Err(e) ==> mint_line(
            collection,
            recipient,
            Some(o),
        ) == join4(Seq::empty(), standard_form(collection), full_hex(recipient), error_text(e)),
        burn_token(o.events@, framework_tag_view(burn_event_name())) matches Err(e) ==> burn_line(
            token,
            collection,
            Some(o),
        ) == join4(Seq::empty(), standard_form(token), standard_form(collection), error_text(e)),
{
}

} // verus!
