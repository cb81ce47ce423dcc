//! Module identities and their rendering: a module lives at a 16-byte
//! account address and carries a name, and is rendered as
//! `0x<short hex of address>::<name>` in every report.

use vstd::prelude::*;
use vstd::string::StringExecFns;

verus! {

/// A module identity as the library holds it: the 16-byte account address
/// that anchors the module, and the module's name.
pub struct ModuleIdData {
    pub address: Vec<u8>,
    pub name: String,
}

impl ModuleIdData {
    /// An account address is exactly 16 bytes.
    pub open spec fn wf(self) -> bool {
        self.address@.len() == 16
    }
}

/// The lowercase hex digit of a value below sixteen.
pub open spec fn hex_digit(n: u8) -> char {
    if n == 0 {
        '0'
    } else if n == 1 {
        '1'
    } else if n == 2 {
        '2'
    } else if n == 3 {
        '3'
    } else if n == 4 {
        '4'
    } else if n == 5 {
        '5'
    } else if n == 6 {
        '6'
    } else if n == 7 {
        '7'
    } else if n == 8 {
        '8'
    } else if n == 9 {
        '9'
    } else if n == 10 {
        'a'
    } else if n == 11 {
        'b'
    } else if n == 12 {
        'c'
    } else if n == 13 {
        'd'
    } else if n == 14 {
        'e'
    } else {
        'f'
    }
}

/// The lowercase hex encoding of a byte string, two digits per byte.
pub open spec fn hex_chars(bytes: Seq<u8>) -> Seq<char>
    decreases bytes.len(),
{
    if bytes.len() == 0 {
        Seq::empty()
    } else {
        seq![hex_digit(bytes.first() / 16), hex_digit(bytes.first() % 16)] + hex_chars(
            bytes.drop_first(),
        )
    }
}

/// The string with its leading zero digits removed.
pub open spec fn trim_leading_zeros(s: Seq<char>) -> Seq<char>
    decreases s.len(),
{
    if s.len() > 0 && s.first() == '0' {
        trim_leading_zeros(s.drop_first())
    } else {
        s
    }
}

/// The short lossless rendering of an address: its hex digits without
/// leading zeros, and a single zero digit for the zero address.
pub open spec fn short_hex(bytes: Seq<u8>) -> Seq<char> {
    let t = trim_leading_zeros(hex_chars(bytes));
    if t.len() == 0 {
        seq!['0']
    } else {
        t
    }
}

/// Relies on `move_core_types::account_address::AccountAddress`:
/// `short_str_lossless` returns the lowercase hex encoding of the address's
/// 16 bytes with all leading zero digits trimmed, and `"0"` when nothing
/// remains.
#[verifier::external_body]
fn address_short_str_lossless(bytes: &Vec<u8>) -> (r: String)
    requires
        bytes@.len() == 16,
    ensures
        r@ == short_hex(bytes@),
{
    let mut buf = [0u8; 16];
    buf.copy_from_slice(&bytes[..]);
    move_core_types::account_address::AccountAddress::new(buf).short_str_lossless()
}

/// The rendering of a module id: `0x`, the short hex of its address, `::`,
/// its name.
pub open spec fn module_id_rendering(address: Seq<u8>, name: Seq<char>) -> Seq<char> {
    seq!['0', 'x'] + short_hex(address) + seq![':', ':'] + name
}

/// Render a module id for a report.
pub fn format_module_id(module_id: &ModuleIdData) -> (s: String)
    requires
        module_id.wf(),
    ensures
        s@ == module_id_rendering(module_id.address@, module_id.name@),
{
    let mut s = "0x".to_owned();
    let hex = address_short_str_lossless(&module_id.address);
    s.append(hex.as_str());
    s.append("::");
    s.append(module_id.name.as_str());
    proof {
        reveal_strlit("0x");
        reveal_strlit("::");
        assert(s@ =~= module_id_rendering(module_id.address@, module_id.name@));
    }
    s
}

} // verus!
