use vstd::prelude::*;

verus! {

/// The lowercase hexadecimal digit for a value below sixteen.
pub open spec fn hex_digit(n: u8) -> char {
    if n < 10 {
        ((n + 48) as u8) as char
    } else {
        ((n + 87) as u8) as char
    }
}

/// Two hexadecimal digits per byte, most significant first.
pub open spec fn hex_of(bytes: Seq<u8>) -> Seq<char>
    decreases bytes.len(),
{
    if bytes.len() == 0 {
        Seq::empty()
    } else {
        let b = bytes.last();
        hex_of(bytes.drop_last()) + seq![hex_digit(b / 16), hex_digit(b % 16)]
    }
}

/// A 32-byte account identifier of the ledger.
#[derive(Clone, Copy)]
pub struct AccountAddress {
    pub bytes: [u8; 32],
}

/// Addresses 0x0 through 0xf, which the standard form writes with one digit.
pub open spec fn is_special(a: Seq<u8>) -> bool {
    (forall|i: int| 0 <= i < 31 ==> #[trigger] a[i] == 0u8) && a[31] < 16
}

/// The full form: sixty-four lowercase hexadecimal digits, no prefix.
pub open spec fn full_hex(a: Seq<u8>) -> Seq<char> {
    hex_of(a)
}

/// The standard form: `0x` and one digit for a special address, `0x` and
/// sixty-four digits for any other.
pub open spec fn standard_form(a: Seq<u8>) -> Seq<char> {
    if is_special(a) {
        seq!['0', 'x', hex_digit(a[31])]
    } else {
        seq!['0', 'x'] + full_hex(a)
    }
}

/// The hexadecimal digit as a one-character string.
fn digit_str(n: u8) -> (r: &'static str)
    requires
        n < 16,
    ensures
        r@ == seq![hex_digit(n)],
{
    match n {
        0 => { proof { reveal_strlit("0"); } "0" },
        1 => { proof { reveal_strlit("1"); } "1" },
        2 => { proof { reveal_strlit("2"); } "2" },
        3 => { proof { reveal_strlit("3"); } "3" },
        4 => { proof { reveal_strlit("4"); } "4" },
        5 => { proof { reveal_strlit("5"); } "5" },
        6 => { proof { reveal_strlit("6"); } "6" },
        7 => { proof { reveal_strlit("7"); } "7" },
        8 => { proof { reveal_strlit("8"); } "8" },
        9 => { proof { reveal_strlit("9"); } "9" },
        10 => { proof { reveal_strlit("a"); } "a" },
        11 => { proof { reveal_strlit("b"); } "b" },
        12 => { proof { reveal_strlit("c"); } "c" },
        13 => { proof { reveal_strlit("d"); } "d" },
        14 => { proof { reveal_strlit("e"); } "e" },
        _ => { proof { reveal_strlit("f"); } "f" },
    }
}

impl AccountAddress {
    pub fn new(bytes: [u8; 32]) -> (r: AccountAddress)
        ensures
            r.bytes@ == bytes@,
    {
        AccountAddress { bytes }
    }

    /// Whether two addresses hold the same bytes.
    pub fn same_as(&self, other: &AccountAddress) -> (r: bool)
        ensures
            r == (self.bytes@ == other.bytes@),
    {
        let mut i: usize = 0;
        while i < 32
            invariant
                i <= 32,
                forall|j: int| 0 <= j < i ==> self.bytes@[j] == other.bytes@[j],
            decreases 32 - i,
        {
            if self.bytes[i] != other.bytes[i] {
                return false;
            }
            i = i + 1;
        }
        assert(self.bytes@ =~= other.bytes@);
        true
    }

    /// The sixty-four hexadecimal digits of the address.
    pub fn to_hex(&self) -> (r: String)
        ensures
            r@ == full_hex(self.bytes@),
    {
        let mut s = String::new();
        let mut i: usize = 0;
        while i < 32
            invariant
                i <= 32,
                s@ == hex_of(self.bytes@.subrange(0, i as int)),
            decreases 32 - i,
        {
            let b = self.bytes[i];
            s.append(digit_str(b / 16));
            s.append(digit_str(b % 16));
            proof {
                let next = self.bytes@.subrange(0, i + 1);
                assert(next.drop_last() =~= self.bytes@.subrange(0, i as int));
            }
            i = i + 1;
        }
        assert(self.bytes@.subrange(0, 32) =~= self.bytes@);
        s
    }

    /// Whether the address is one of 0x0 through 0xf.
    pub fn is_special(&self) -> (r: bool)
        ensures
            r == is_special(self.bytes@),
    {
        let mut i: usize = 0;
        while i < 31
            invariant
                i <= 31,
                forall|j: int| 0 <= j < i ==> self.bytes@[j] == 0u8,
            decreases 31 - i,
        {
            if self.bytes[i] != 0 {
                return false;
            }
            i = i + 1;
        }
        self.bytes[31] < 16
    }

    /// The standard text form of the address.
    pub fn to_standard_string(&self) -> (r: String)
        ensures
            r@ == standard_form(self.bytes@),
    {
        let mut s = String::new();
        proof { reveal_strlit("0x"); }
        s.append("0x");
        if self.is_special() {
            s.append(digit_str(self.bytes[31]));
        } else {
            let h = self.to_hex();
            s.append(h.as_str());
        }
        s
    }
}

} // verus!
