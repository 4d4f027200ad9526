//! Token-2022 extensions: their type tags and the scan over the
//! type-length-value (TLV) area that follows the base state of an account.
use vstd::prelude::*;
use crate::error::ProgramError;
use crate::layout::{account_len, t22_account_base_len};

verus! {

/// Token-2022 extensions that the scanner recognises.
#[derive(Clone, Copy, Debug, PartialEq, Eq, Structural)]
pub enum ExtensionType {
    TransferFeeConfig,
    MintCloseAuthority,
    ConfidentialTransferMint,
    PermanentDelegate,
    TransferHook,
    ConfidentialTransferFeeConfig,
    MetadataPointer,
    TokenMetadata,
    GroupPointer,
    TokenGroup,
}

/// Account-type byte stored right after the base state of a Token-2022 mint
/// that carries extensions.
pub const T22_ACCOUNT_TYPE_MINT: u8 = 1;

/// Account-type byte stored right after the base state of a Token-2022 token
/// account that carries extensions.
pub const T22_ACCOUNT_TYPE_TOKEN_ACCOUNT: u8 = 2;

/// Number of bytes of the type tag of a TLV entry.
pub const EXTENSION_TYPE_LEN: usize = 2;

/// Number of bytes of the length field of a TLV entry.
pub const EXTENSION_LENGTH_LEN: usize = 2;

/// The Token-2022 type tag of each recognised extension.
pub open spec fn extension_type_code(t: ExtensionType) -> int {
    match t {
        ExtensionType::TransferFeeConfig => 1,
        ExtensionType::MintCloseAuthority => 3,
        ExtensionType::ConfidentialTransferMint => 4,
        ExtensionType::PermanentDelegate => 12,
        ExtensionType::TransferHook => 14,
        ExtensionType::ConfidentialTransferFeeConfig => 16,
        ExtensionType::MetadataPointer => 18,
        ExtensionType::TokenMetadata => 19,
        ExtensionType::GroupPointer => 20,
        ExtensionType::TokenGroup => 21,
    }
}

/// The recognised extension with type tag `code`, if any.
pub open spec fn extension_type_from_code(code: int) -> Option<ExtensionType> {
    if code == 1 {
        Some(ExtensionType::TransferFeeConfig)
    } else if code == 3 {
        Some(ExtensionType::MintCloseAuthority)
    } else if code == 4 {
        Some(ExtensionType::ConfidentialTransferMint)
    } else if code == 12 {
        Some(ExtensionType::PermanentDelegate)
    } else if code == 14 {
        Some(ExtensionType::TransferHook)
    } else if code == 16 {
        Some(ExtensionType::ConfidentialTransferFeeConfig)
    } else if code == 18 {
        Some(ExtensionType::MetadataPointer)
    } else if code == 19 {
        Some(ExtensionType::TokenMetadata)
    } else if code == 20 {
        Some(ExtensionType::GroupPointer)
    } else if code == 21 {
        Some(ExtensionType::TokenGroup)
    } else {
        None
    }
}

/// The little-endian `u16` whose bytes are `lo`, `hi`.
pub open spec fn le_u16(lo: u8, hi: u8) -> int {
    lo + 256 * hi
}

/// The little-endian bytes of `x`.
pub open spec fn le_u16_bytes(x: int) -> Seq<u8> {
    seq![(x % 256) as u8, (x / 256) as u8]
}

/// The little-endian `u16` stored at `s[i]`, `s[i + 1]`.
pub open spec fn u16_at(s: Seq<u8>, i: int) -> int {
    le_u16(s[i], s[i + 1])
}

/// `u16::from_le_bytes`: the value of two little-endian bytes.
fn u16_from_le(lo: u8, hi: u8) -> (r: u16)
    ensures
        r == le_u16(lo, hi),
{
    lo as u16 + (hi as u16) * 256
}

impl ExtensionType {
    /// The extension whose little-endian type tag is `b`, or `None` when the
    /// tag is not one of the recognised extensions.
    pub fn from_bytes(b: [u8; 2]) -> (r: Option<Self>)
        ensures
            r == extension_type_from_code(le_u16(b[0], b[1])),
    {
        match u16_from_le(b[0], b[1]) {
            1 => Some(Self::TransferFeeConfig),
            3 => Some(Self::MintCloseAuthority),
            4 => Some(Self::ConfidentialTransferMint),
            12 => Some(Self::PermanentDelegate),
            14 => Some(Self::TransferHook),
            16 => Some(Self::ConfidentialTransferFeeConfig),
            18 => Some(Self::MetadataPointer),
            19 => Some(Self::TokenMetadata),
            20 => Some(Self::GroupPointer),
            21 => Some(Self::TokenGroup),
            _ => None,
        }
    }
}

/// The extension types of the TLV entries of `s` read from offset `start` on:
/// each entry is a 2-byte type tag, a 2-byte length and that many value bytes;
/// the scan stops where fewer than 4 bytes remain, and fails (`None`) at a
/// type tag that is not recognised.
pub open spec fn tlv_extension_types(s: Seq<u8>, start: int) -> Option<Seq<ExtensionType>>
    decreases s.len() - start,
{
    if start < 0 || start + 4 > s.len() {
        Some(Seq::empty())
    } else {
        match extension_type_from_code(u16_at(s, start)) {
            None => None,
            Some(t) => {
                let next = start + 4 + u16_at(s, start + 2);
                if next + 4 > s.len() {
                    Some(seq![t])
                } else {
                    match tlv_extension_types(s, next) {
                        Some(rest) => Some(seq![t] + rest),
                        None => None,
                    }
                }
            },
        }
    }
}

/// What scanning the extensions of the account data `d` yields: nothing when
/// `d` ends at or before the account-type byte, an error when that byte is
/// neither the mint nor the token-account marker or when an entry has an
/// unknown type tag, and otherwise the extension types in TLV order.
pub open spec fn spec_get_all_extensions(d: Seq<u8>) -> Result<Seq<ExtensionType>, ProgramError> {
    let ext_start = account_len() + 1;
    if d.len() <= ext_start {
        Ok(Seq::empty())
    } else if d[account_len() as int] != T22_ACCOUNT_TYPE_MINT && d[account_len() as int]
        != T22_ACCOUNT_TYPE_TOKEN_ACCOUNT {
        Err(ProgramError::InvalidAccountData)
    } else {
        match tlv_extension_types(d, ext_start as int) {
            Some(types) => Ok(types),
            None => Err(ProgramError::InvalidAccountData),
        }
    }
}

/// Iterates over the TLV extension data of a Token-2022 mint or token
/// account and returns all extension types present, in order.
pub fn get_all_extensions(acc_data_bytes: &[u8]) -> (r: Result<Vec<ExtensionType>, ProgramError>)
    ensures
        match r {
            Ok(v) => spec_get_all_extensions(acc_data_bytes@) == Ok::<
                Seq<ExtensionType>,
                ProgramError,
            >(v@),
            Err(e) => spec_get_all_extensions(acc_data_bytes@) == Err::<
                Seq<ExtensionType>,
                ProgramError,
            >(e),
        },
{
    let base_len = t22_account_base_len();
    let ext_start = base_len + 1;
    let len = acc_data_bytes.len();
    if len <= ext_start {
        return Ok(Vec::new());
    }
    let account_type_byte = acc_data_bytes[base_len];
    if account_type_byte != T22_ACCOUNT_TYPE_MINT && account_type_byte
        != T22_ACCOUNT_TYPE_TOKEN_ACCOUNT {
        return Err(ProgramError::InvalidAccountData);
    }
    let ghost d = acc_data_bytes@;
    let mut extension_types: Vec<ExtensionType> = Vec::new();
    let mut start: usize = ext_start;
    while start <= len && len - start >= EXTENSION_TYPE_LEN + EXTENSION_LENGTH_LEN
        invariant
            len == d.len(),
            d == acc_data_bytes@,
            ext_start <= start,
            ext_start == account_len() + 1,
            tlv_extension_types(d, ext_start as int) == match tlv_extension_types(
                d,
                start as int,
            ) {
                Some(rest) => Some(extension_types@ + rest),
                None => None::<Seq<ExtensionType>>,
            },
        decreases (if start <= len { len - start + 1 } else { 0 }),
    {
        let type_bytes: [u8; 2] = [acc_data_bytes[start], acc_data_bytes[start + 1]];
        let ext_type = match ExtensionType::from_bytes(type_bytes) {
            Some(t) => t,
            None => {
                return Err(ProgramError::InvalidAccountData);
            },
        };
        let ext_len = u16_from_le(acc_data_bytes[start + 2], acc_data_bytes[start + 3]) as usize;
        let ghost old_types = extension_types@;
        let ghost old_start = start;
        extension_types.push(ext_type);
        start = start.saturating_add(EXTENSION_TYPE_LEN + EXTENSION_LENGTH_LEN).saturating_add(
            ext_len,
        );
        proof {
            let next = old_start + 4 + u16_at(d, old_start + 2);
            if next + 4 > d.len() {
                assert(tlv_extension_types(d, start as int) == Some(Seq::<ExtensionType>::empty()));
                assert(old_types + seq![ext_type] =~= extension_types@ + Seq::<
                    ExtensionType,
                >::empty());
            } else {
                assert(start == next);
                match tlv_extension_types(d, next) {
                    Some(rest) => {
                        assert(old_types + (seq![ext_type] + rest) =~= extension_types@ + rest);
                    },
                    None => {},
                }
            }
        }
    }
    proof {
        assert(tlv_extension_types(d, start as int) == Some(Seq::<ExtensionType>::empty()));
        assert(extension_types@ + Seq::<ExtensionType>::empty() =~= extension_types@);
    }
    Ok(extension_types)
}

/// Account data that ends at or before the account-type byte (a plain
/// 82-byte mint, a plain 165-byte token account, or the base state followed
/// by the account-type byte alone) carries no extensions: the scan succeeds
/// with none.
pub proof fn lemma_no_extension_area_scans_empty(d: Seq<u8>)
    requires
        d.len() <= 166,
    ensures
        spec_get_all_extensions(d) == Ok::<Seq<ExtensionType>, ProgramError>(Seq::empty()),
{
}

/// The TLV bytes of `entries`: for each extension, its type tag and the
/// length of its value as little-endian `u16`s, then the value.
pub open spec fn tlv_encode(entries: Seq<(ExtensionType, Seq<u8>)>) -> Seq<u8>
    decreases entries.len(),
{
    if entries.len() == 0 {
        Seq::empty()
    } else {
        let (t, value) = entries[0];
        le_u16_bytes(extension_type_code(t)) + le_u16_bytes(value.len() as int) + value
            + tlv_encode(entries.drop_first())
    }
}

/// Every value of `entries` fits the 2-byte length field.
pub open spec fn tlv_entries_fit(entries: Seq<(ExtensionType, Seq<u8>)>) -> bool {
    forall|i: int| 0 <= i < entries.len() ==> (#[trigger] entries[i]).1.len() <= u16::MAX
}

/// The extension types of `entries`, in order.
pub open spec fn tlv_types_of(entries: Seq<(ExtensionType, Seq<u8>)>) -> Seq<ExtensionType> {
    entries.map_values(|e: (ExtensionType, Seq<u8>)| e.0)
}

/// Every recognised extension type is read back from its own type tag.
pub proof fn lemma_extension_type_code_round_trip(t: ExtensionType)
    ensures
        extension_type_from_code(extension_type_code(t)) == Some(t),
        0 < extension_type_code(t) <= u16::MAX,
{
}

/// A type tag names at most one recognised extension.
pub proof fn lemma_extension_type_code_injective(code: int, t: ExtensionType)
    requires
        extension_type_from_code(code) == Some(t),
    ensures
        code == extension_type_code(t),
{
}

/// Scanning the TLV entries written after any prefix yields exactly their
/// types, in order.
pub proof fn lemma_tlv_scan_of_encoding(prefix: Seq<u8>, entries: Seq<(ExtensionType, Seq<u8>)>)
    requires
        tlv_entries_fit(entries),
    ensures
        tlv_extension_types(prefix + tlv_encode(entries), prefix.len() as int) == Some(
            tlv_types_of(entries),
        ),
    decreases entries.len(),
{
    let s = prefix + tlv_encode(entries);
    let p = prefix.len() as int;
    if entries.len() == 0 {
        assert(s =~= prefix);
        assert(tlv_types_of(entries) =~= Seq::<ExtensionType>::empty());
    } else {
        let (t, value) = entries[0];
        assert(entries[0].1.len() <= u16::MAX);
        let tag = le_u16_bytes(extension_type_code(t));
        let lenb = le_u16_bytes(value.len() as int);
        let rest = entries.drop_first();
        let entry = tag + lenb + value;
        let prefix2 = prefix + entry;
        assert(s =~= prefix2 + tlv_encode(rest));
        assert(s.subrange(p, p + 2) =~= tag);
        assert(s.subrange(p + 2, p + 4) =~= lenb);
        lemma_extension_type_code_round_trip(t);
        assert(u16_at(s, p) == extension_type_code(t));
        assert(u16_at(s, p + 2) == value.len());
        let next = p + 4 + value.len();
        assert(next == prefix2.len());
        assert forall|i: int| 0 <= i < rest.len() implies (#[trigger] rest[i]).1.len()
            <= u16::MAX by {
            assert(rest[i] == entries[i + 1]);
        }
        lemma_tlv_scan_of_encoding(prefix2, rest);
        if rest.len() == 0 {
            assert(tlv_types_of(entries) =~= seq![t]);
        } else {
            assert(tlv_types_of(entries) =~= seq![t] + tlv_types_of(rest));
        }
    }
}

/// A Token-2022 account whose account-type byte marks a mint or a token
/// account, followed by well-formed TLV entries, scans to exactly the types
/// of those entries.
pub proof fn lemma_get_all_extensions_of_encoding(
    base: Seq<u8>,
    account_type: u8,
    entries: Seq<(ExtensionType, Seq<u8>)>,
)
    requires
        base.len() == account_len(),
        account_type == T22_ACCOUNT_TYPE_MINT || account_type == T22_ACCOUNT_TYPE_TOKEN_ACCOUNT,
        tlv_entries_fit(entries),
    ensures
        spec_get_all_extensions(base.push(account_type) + tlv_encode(entries)) == Ok::<
            Seq<ExtensionType>,
            ProgramError,
        >(tlv_types_of(entries)),
{
    let d = base.push(account_type) + tlv_encode(entries);
    lemma_tlv_scan_of_encoding(base.push(account_type), entries);
    assert(d[account_len() as int] == account_type);
    if d.len() <= account_len() + 1 {
        assert(tlv_encode(entries).len() == 0);
        if entries.len() > 0 {
                    let (t, value) = entries[0];
            assert(le_u16_bytes(extension_type_code(t)).len() == 2);
            assert(le_u16_bytes(value.len() as int).len() == 2);
            assert(tlv_encode(entries).len() >= 4);
        }
        assert(tlv_types_of(entries) =~= Seq::<ExtensionType>::empty());
    }
}

} // verus!
