use vstd::prelude::*;
use crate::address::AccountAddress;

verus! {

pub open spec fn is_letter(c: char) -> bool {
    ('a' <= c && c <= 'z') || ('A' <= c && c <= 'Z')
}

pub open spec fn is_ident_char(c: char) -> bool {
    is_letter(c) || ('0' <= c && c <= '9') || c == '_'
}

/// The name of the module itself, which the ledger also accepts.
pub open spec fn self_name() -> Seq<char> {
    seq!['<', 'S', 'E', 'L', 'F', '>']
}

/// An identifier starts with a letter, or with an underscore followed by at
/// least one more character; every other character is a letter, a digit or
/// an underscore. `<SELF>` is valid too.
pub open spec fn valid_identifier(s: Seq<char>) -> bool {
    s == self_name() || (s.len() > 0 && (is_letter(s[0]) || (s[0] == '_' && s.len() > 1))
        && forall|i: int| 1 <= i < s.len() ==> is_ident_char(#[trigger] s[i]))
}

/// A name that is not a valid identifier was given.
#[derive(Debug)]
pub struct InvalidIdentifier {
    pub name: String,
}

/// A syntactically valid identifier.
pub struct Identifier {
    name: String,
}

impl View for Identifier {
    type V = Seq<char>;

    closed spec fn view(&self) -> Seq<char> {
        self.name@
    }
}

fn is_letter_exec(c: char) -> (r: bool)
    ensures
        r == is_letter(c),
{
    ('a' <= c && c <= 'z') || ('A' <= c && c <= 'Z')
}

fn is_ident_char_exec(c: char) -> (r: bool)
    ensures
        r == is_ident_char(c),
{
    is_letter_exec(c) || ('0' <= c && c <= '9') || c == '_'
}

/// Whether `s` is a valid identifier.
pub fn is_valid_identifier(s: &str) -> (r: bool)
    ensures
        r == valid_identifier(s@),
{
    let n = s.unicode_len();
    if n == 6 {
        proof { reveal_strlit("<SELF>"); }
        let mut same = true;
        let mut i: usize = 0;
        let lit = "<SELF>";
        while i < 6
            invariant
                i <= 6,
                n == s@.len(),
                n == 6,
                lit@ == self_name(),
                same == (forall|j: int| 0 <= j < i ==> s@[j] == self_name()[j]),
            decreases 6 - i,
        {
            if s.get_char(i) != lit.get_char(i) {
                same = false;
            }
            i = i + 1;
        }
        if same {
            assert(s@ =~= self_name());
            return true;
        }
    }
    if n == 0 {
        return false;
    }
    let c0 = s.get_char(0);
    if !(is_letter_exec(c0) || (c0 == '_' && n > 1)) {
        return false;
    }
    let mut i: usize = 1;
    while i < n
        invariant
            1 <= i <= n,
            n == s@.len(),
            s@ != self_name(),
            forall|j: int| 1 <= j < i ==> is_ident_char(#[trigger] s@[j]),
        decreases n - i,
    {
        if !is_ident_char_exec(s.get_char(i)) {
            return false;
        }
        i = i + 1;
    }
    true
}

impl Identifier {
    #[verifier::type_invariant]
    spec fn inv(&self) -> bool {
        valid_identifier(self.name@)
    }

    /// Checks `s` and takes it as an identifier.
    pub fn new(s: &str) -> (r: Result<Identifier, InvalidIdentifier>)
        ensures
            valid_identifier(s@) <==> r is Ok,
            r matches Ok(id) ==> id@ == s@,
            r matches Err(e) ==> e.name@ == s@,
    {
        let name = s.to_owned();
        if is_valid_identifier(s) {
            Ok(Identifier { name })
        } else {
            Err(InvalidIdentifier { name })
        }
    }

    /// Takes a name that is known to be a valid identifier.
    pub fn known(s: &str) -> (r: Identifier)
        requires
            valid_identifier(s@),
        ensures
            r@ == s@,
    {
        Identifier { name: s.to_owned() }
    }

    /// The identifier's text, which is always valid.
    pub fn as_str(&self) -> (r: &str)
        ensures
            r@ == self@,
            valid_identifier(r@),
    {
        proof { use_type_invariant(self); }
        self.name.as_str()
    }

    pub fn copy(&self) -> (r: Identifier)
        ensures
            r@ == self@,
    {
        proof { use_type_invariant(self); }
        Identifier { name: self.name.clone() }
    }
}

/// The canonical reference to a published module: its account and its name.
pub struct ModuleId {
    pub address: AccountAddress,
    pub name: Identifier,
}

/// What a module reference is made of.
pub struct ModuleIdView {
    pub address: Seq<u8>,
    pub name: Seq<char>,
}

impl View for ModuleId {
    type V = ModuleIdView;

    open spec fn view(&self) -> ModuleIdView {
        ModuleIdView { address: self.address.bytes@, name: self.name@ }
    }
}

/// The module reference for an address and a name, or the rejection of the name.
pub open spec fn resolve(address: AccountAddress, name: Seq<char>) -> Result<ModuleIdView, Seq<char>> {
    if valid_identifier(name) {
        Ok(ModuleIdView { address: address.bytes@, name })
    } else {
        Err(name)
    }
}

impl ModuleId {
    pub fn copy(&self) -> (r: ModuleId)
        ensures
            r@ == self@,
    {
        ModuleId { address: self.address, name: self.name.copy() }
    }
}

/// Resolves an address and a module name into a module reference; fails
/// exactly when the name is not a valid identifier.
pub fn get_module_id(contract_address: AccountAddress, contract_module_name: &str) -> (r: Result<
    ModuleId,
    InvalidIdentifier,
>)
    ensures
        r matches Ok(m) ==> resolve(contract_address, contract_module_name@) == Ok::<ModuleIdView, Seq<char>>(m@),
        r matches Err(e) ==> resolve(contract_address, contract_module_name@) == Err::<ModuleIdView, Seq<char>>(e.name@),
{
    match Identifier::new(contract_module_name) {
        Ok(name) => Ok(ModuleId { address: contract_address, name }),
        Err(e) => Err(e),
    }
}

/// Resolving is deterministic: two resolutions of the same address and name
/// give the same module reference, or reject the name alike.
pub proof fn resolve_is_deterministic(
    a: AccountAddress,
    n: Seq<char>,
    r1: Result<ModuleIdView, Seq<char>>,
    r2: Result<ModuleIdView, Seq<char>>,
)
    requires
        r1 == resolve(a, n),
        r2 == resolve(a, n),
    ensures
        r1 == r2,
        r1 matches Ok(m) ==> m.address == a.bytes@ && m.name == n,
{
}

} // verus!
